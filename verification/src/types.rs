//! The codecs of the built-in types.

pub mod boolean;
pub mod bytes;
pub mod float;
pub mod integer;
pub mod json;
pub mod option;
pub mod string;
pub mod tuple;
pub mod void;
