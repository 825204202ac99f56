//! Type resolution and value codecs for a client of the PostgreSQL wire
//! protocol: a local catalog of server types, the decisions of the resolver
//! that fills it, column descriptions, nullability inference from query
//! plans, and the encoders and decoders of scalar and record values.
//!
//! The library does no input or output. Where the server has to be asked,
//! a function hands out the query to run and a second function takes the
//! reply.

pub mod arguments;
pub mod builtin;
pub mod catalog;
pub mod codec;
pub mod connection;
pub mod database;
pub mod describe;
pub mod error;
pub mod explain;
pub mod nullable;
pub mod record;
pub mod text;
pub mod type_info;
pub mod type_row;
pub mod types;
pub mod value;
pub mod wire;

pub use crate::arguments::{PgArgumentBuffer, PgArguments, PgPatch};
pub use crate::builtin::PgBuiltinType;
pub use crate::catalog::{GetPgTypeError, LocalPgCatalog};
pub use crate::codec::{Decode, Encode, IsNull, PgHasArrayType, Type};
pub use crate::connection::{PgConnection, QueryReply, ResolveStep};
pub use crate::database::ParamChecking;
pub use crate::describe::{PgColumn, RowDescription};
pub use crate::error::{DecodeError, Error, HexError};
pub use crate::record::{PgRecordDecoder, PgRecordEncoder};
pub use crate::type_info::{LazyPgTypeInfo, Oid, PgTypeInfo, PgTypeKind, PgTypeRef};
pub use crate::value::{PgValueFormat, PgValueRef};
