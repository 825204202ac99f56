//! Tuples: a tuple is read from a record, one field after the other.

use vstd::prelude::*;
use crate::builtin::PgBuiltinType;
use crate::codec::{Decode, PgHasArrayType, Type};
use crate::error::DecodeError;
use crate::record::{record_decoder, try_decode_spec, PgRecordDecoder};
use crate::type_info::{LazyPgTypeInfo, LazyTypeInfoView, PgTypeInfo, TypeInfoView};
use crate::value::{PgValueRef, ValueView};

verus! {

impl<T1> Type for (T1,) {
    open spec fn spec_type_info() -> LazyTypeInfoView {
        PgBuiltinType::Record.spec_lazy()
    }

    open spec fn spec_compatible(ty: TypeInfoView) -> bool {
        ty.oid == PgBuiltinType::Record.spec_oid()
    }

    fn type_info() -> (r: LazyPgTypeInfo) {
        PgBuiltinType::Record.lazy()
    }

    fn compatible(ty: &PgTypeInfo) -> (b: bool) {
        ty.oid.0 == PgBuiltinType::Record.oid().0
    }
}

impl<T1> PgHasArrayType for (T1,) {
    open spec fn spec_array_type_info() -> LazyTypeInfoView {
        PgBuiltinType::RecordArray.spec_lazy()
    }

    open spec fn spec_array_compatible(ty: TypeInfoView) -> bool {
        ty.oid == PgBuiltinType::RecordArray.spec_oid()
    }

    fn array_type_info() -> (r: LazyPgTypeInfo) {
        PgBuiltinType::RecordArray.lazy()
    }

    fn array_compatible(ty: &PgTypeInfo) -> (b: bool) {
        ty.oid.0 == PgBuiltinType::RecordArray.oid().0
    }
}

impl<T1: Decode> Decode for (T1,) {
    /// The fields of the record, taken in order; the first that fails
    /// fails the tuple.
    open spec fn decoded(value: ValueView) -> Result<(T1::V,), DecodeError> {
        match record_decoder(value) {
            Err(e) => Err(e),
            Ok(d0) => {
                let s1 = try_decode_spec::<T1>(d0);
                let d1 = s1.1;
                match s1.0 {
                    Err(e) => Err(e),
                    Ok(v1) => {
                        Ok((v1,))
                    },
                }
            },
        }
    }

    fn decode(value: PgValueRef<'_>) -> (r: Result<Self, DecodeError>) {
        let mut decoder = PgRecordDecoder::new(value)?;
        let v1: T1 = decoder.try_decode()?;
        Ok((v1,))
    }
}

impl<T1, T2> Type for (T1, T2) {
    open spec fn spec_type_info() -> LazyTypeInfoView {
        PgBuiltinType::Record.spec_lazy()
    }

    open spec fn spec_compatible(ty: TypeInfoView) -> bool {
        ty.oid == PgBuiltinType::Record.spec_oid()
    }

    fn type_info() -> (r: LazyPgTypeInfo) {
        PgBuiltinType::Record.lazy()
    }

    fn compatible(ty: &PgTypeInfo) -> (b: bool) {
        ty.oid.0 == PgBuiltinType::Record.oid().0
    }
}

impl<T1, T2> PgHasArrayType for (T1, T2) {
    open spec fn spec_array_type_info() -> LazyTypeInfoView {
        PgBuiltinType::RecordArray.spec_lazy()
    }

    open spec fn spec_array_compatible(ty: TypeInfoView) -> bool {
        ty.oid == PgBuiltinType::RecordArray.spec_oid()
    }

    fn array_type_info() -> (r: LazyPgTypeInfo) {
        PgBuiltinType::RecordArray.lazy()
    }

    fn array_compatible(ty: &PgTypeInfo) -> (b: bool) {
        ty.oid.0 == PgBuiltinType::RecordArray.oid().0
    }
}

impl<T1: Decode, T2: Decode> Decode for (T1, T2) {
    /// The fields of the record, taken in order; the first that fails
    /// fails the tuple.
    open spec fn decoded(value: ValueView) -> Result<(T1::V, T2::V), DecodeError> {
        match record_decoder(value) {
            Err(e) => Err(e),
            Ok(d0) => {
                let s1 = try_decode_spec::<T1>(d0);
                let d1 = s1.1;
                match s1.0 {
                    Err(e) => Err(e),
                    Ok(v1) => {
                        let s2 = try_decode_spec::<T2>(d1);
                        let d2 = s2.1;
                        match s2.0 {
                            Err(e) => Err(e),
                            Ok(v2) => {
                                Ok((v1, v2))
                            },
                        }
                    },
                }
            },
        }
    }

    fn decode(value: PgValueRef<'_>) -> (r: Result<Self, DecodeError>) {
        let mut decoder = PgRecordDecoder::new(value)?;
        let v1: T1 = decoder.try_decode()?;
        let v2: T2 = decoder.try_decode()?;
        Ok((v1, v2))
    }
}

impl<T1, T2, T3> Type for (T1, T2, T3) {
    open spec fn spec_type_info() -> LazyTypeInfoView {
        PgBuiltinType::Record.spec_lazy()
    }

    open spec fn spec_compatible(ty: TypeInfoView) -> bool {
        ty.oid == PgBuiltinType::Record.spec_oid()
    }

    fn type_info() -> (r: LazyPgTypeInfo) {
        PgBuiltinType::Record.lazy()
    }

    fn compatible(ty: &PgTypeInfo) -> (b: bool) {
        ty.oid.0 == PgBuiltinType::Record.oid().0
    }
}

impl<T1, T2, T3> PgHasArrayType for (T1, T2, T3) {
    open spec fn spec_array_type_info() -> LazyTypeInfoView {
        PgBuiltinType::RecordArray.spec_lazy()
    }

    open spec fn spec_array_compatible(ty: TypeInfoView) -> bool {
        ty.oid == PgBuiltinType::RecordArray.spec_oid()
    }

    fn array_type_info() -> (r: LazyPgTypeInfo) {
        PgBuiltinType::RecordArray.lazy()
    }

    fn array_compatible(ty: &PgTypeInfo) -> (b: bool) {
        ty.oid.0 == PgBuiltinType::RecordArray.oid().0
    }
}

impl<T1: Decode, T2: Decode, T3: Decode> Decode for (T1, T2, T3) {
    /// The fields of the record, taken in order; the first that fails
    /// fails the tuple.
    open spec fn decoded(value: ValueView) -> Result<(T1::V, T2::V, T3::V), DecodeError> {
        match record_decoder(value) {
            Err(e) => Err(e),
            Ok(d0) => {
                let s1 = try_decode_spec::<T1>(d0);
                let d1 = s1.1;
                match s1.0 {
                    Err(e) => Err(e),
                    Ok(v1) => {
                        let s2 = try_decode_spec::<T2>(d1);
                        let d2 = s2.1;
                        match s2.0 {
                            Err(e) => Err(e),
                            Ok(v2) => {
                                let s3 = try_decode_spec::<T3>(d2);
                                let d3 = s3.1;
                                match s3.0 {
                                    Err(e) => Err(e),
                                    Ok(v3) => {
                                        Ok((v1, v2, v3))
                                    },
                                }
                            },
                        }
                    },
                }
            },
        }
    }

    fn decode(value: PgValueRef<'_>) -> (r: Result<Self, DecodeError>) {
        let mut decoder = PgRecordDecoder::new(value)?;
        let v1: T1 = decoder.try_decode()?;
        let v2: T2 = decoder.try_decode()?;
        let v3: T3 = decoder.try_decode()?;
        Ok((v1, v2, v3))
    }
}

impl<T1, T2, T3, T4> Type for (T1, T2, T3, T4) {
    open spec fn spec_type_info() -> LazyTypeInfoView {
        PgBuiltinType::Record.spec_lazy()
    }

    open spec fn spec_compatible(ty: TypeInfoView) -> bool {
        ty.oid == PgBuiltinType::Record.spec_oid()
    }

    fn type_info() -> (r: LazyPgTypeInfo) {
        PgBuiltinType::Record.lazy()
    }

    fn compatible(ty: &PgTypeInfo) -> (b: bool) {
        ty.oid.0 == PgBuiltinType::Record.oid().0
    }
}

impl<T1, T2, T3, T4> PgHasArrayType for (T1, T2, T3, T4) {
    open spec fn spec_array_type_info() -> LazyTypeInfoView {
        PgBuiltinType::RecordArray.spec_lazy()
    }

    open spec fn spec_array_compatible(ty: TypeInfoView) -> bool {
        ty.oid == PgBuiltinType::RecordArray.spec_oid()
    }

    fn array_type_info() -> (r: LazyPgTypeInfo) {
        PgBuiltinType::RecordArray.lazy()
    }

    fn array_compatible(ty: &PgTypeInfo) -> (b: bool) {
        ty.oid.0 == PgBuiltinType::RecordArray.oid().0
    }
}

impl<T1: Decode, T2: Decode, T3: Decode, T4: Decode> Decode for (T1, T2, T3, T4) {
    /// The fields of the record, taken in order; the first that fails
    /// fails the tuple.
    open spec fn decoded(value: ValueView) -> Result<(T1::V, T2::V, T3::V, T4::V), DecodeError> {
        match record_decoder(value) {
            Err(e) => Err(e),
            Ok(d0) => {
                let s1 = try_decode_spec::<T1>(d0);
                let d1 = s1.1;
                match s1.0 {
                    Err(e) => Err(e),
                    Ok(v1) => {
                        let s2 = try_decode_spec::<T2>(d1);
                        let d2 = s2.1;
                        match s2.0 {
                            Err(e) => Err(e),
                            Ok(v2) => {
                                let s3 = try_decode_spec::<T3>(d2);
                                let d3 = s3.1;
                                match s3.0 {
                                    Err(e) => Err(e),
                                    Ok(v3) => {
                                        let s4 = try_decode_spec::<T4>(d3);
                                        let d4 = s4.1;
                                        match s4.0 {
                                            Err(e) => Err(e),
                                            Ok(v4) => {
                                                Ok((v1, v2, v3, v4))
                                            },
                                        }
                                    },
                                }
                            },
                        }
                    },
                }
            },
        }
    }

    fn decode(value: PgValueRef<'_>) -> (r: Result<Self, DecodeError>) {
        let mut decoder = PgRecordDecoder::new(value)?;
        let v1: T1 = decoder.try_decode()?;
        let v2: T2 = decoder.try_decode()?;
        let v3: T3 = decoder.try_decode()?;
        let v4: T4 = decoder.try_decode()?;
        Ok((v1, v2, v3, v4))
    }
}

impl<T1, T2, T3, T4, T5> Type for (T1, T2, T3, T4, T5) {
    open spec fn spec_type_info() -> LazyTypeInfoView {
        PgBuiltinType::Record.spec_lazy()
    }

    open spec fn spec_compatible(ty: TypeInfoView) -> bool {
        ty.oid == PgBuiltinType::Record.spec_oid()
    }

    fn type_info() -> (r: LazyPgTypeInfo) {
        PgBuiltinType::Record.lazy()
    }

    fn compatible(ty: &PgTypeInfo) -> (b: bool) {
        ty.oid.0 == PgBuiltinType::Record.oid().0
    }
}

impl<T1, T2, T3, T4, T5> PgHasArrayType for (T1, T2, T3, T4, T5) {
    open spec fn spec_array_type_info() -> LazyTypeInfoView {
        PgBuiltinType::RecordArray.spec_lazy()
    }

    open spec fn spec_array_compatible(ty: TypeInfoView) -> bool {
        ty.oid == PgBuiltinType::RecordArray.spec_oid()
    }

    fn array_type_info() -> (r: LazyPgTypeInfo) {
        PgBuiltinType::RecordArray.lazy()
    }

    fn array_compatible(ty: &PgTypeInfo) -> (b: bool) {
        ty.oid.0 == PgBuiltinType::RecordArray.oid().0
    }
}

impl<T1: Decode, T2: Decode, T3: Decode, T4: Decode, T5: Decode> Decode for (T1, T2, T3, T4, T5) {
    /// The fields of the record, taken in order; the first that fails
    /// fails the tuple.
    open spec fn decoded(value: ValueView) -> Result<(T1::V, T2::V, T3::V, T4::V, T5::V), DecodeError> {
        match record_decoder(value) {
            Err(e) => Err(e),
            Ok(d0) => {
                let s1 = try_decode_spec::<T1>(d0);
                let d1 = s1.1;
                match s1.0 {
                    Err(e) => Err(e),
                    Ok(v1) => {
                        let s2 = try_decode_spec::<T2>(d1);
                        let d2 = s2.1;
                        match s2.0 {
                            Err(e) => Err(e),
                            Ok(v2) => {
                                let s3 = try_decode_spec::<T3>(d2);
                                let d3 = s3.1;
                                match s3.0 {
                                    Err(e) => Err(e),
                                    Ok(v3) => {
                                        let s4 = try_decode_spec::<T4>(d3);
                                        let d4 = s4.1;
                                        match s4.0 {
                                            Err(e) => Err(e),
                                            Ok(v4) => {
                                                let s5 = try_decode_spec::<T5>(d4);
                                                let d5 = s5.1;
                                                match s5.0 {
                                                    Err(e) => Err(e),
                                                    Ok(v5) => {
                                                        Ok((v1, v2, v3, v4, v5))
                                                    },
                                                }
                                            },
                                        }
                                    },
                                }
                            },
                        }
                    },
                }
            },
        }
    }

    fn decode(value: PgValueRef<'_>) -> (r: Result<Self, DecodeError>) {
        let mut decoder = PgRecordDecoder::new(value)?;
        let v1: T1 = decoder.try_decode()?;
        let v2: T2 = decoder.try_decode()?;
        let v3: T3 = decoder.try_decode()?;
        let v4: T4 = decoder.try_decode()?;
        let v5: T5 = decoder.try_decode()?;
        Ok((v1, v2, v3, v4, v5))
    }
}

impl<T1, T2, T3, T4, T5, T6> Type for (T1, T2, T3, T4, T5, T6) {
    open spec fn spec_type_info() -> LazyTypeInfoView {
        PgBuiltinType::Record.spec_lazy()
    }

    open spec fn spec_compatible(ty: TypeInfoView) -> bool {
        ty.oid == PgBuiltinType::Record.spec_oid()
    }

    fn type_info() -> (r: LazyPgTypeInfo) {
        PgBuiltinType::Record.lazy()
    }

    fn compatible(ty: &PgTypeInfo) -> (b: bool) {
        ty.oid.0 == PgBuiltinType::Record.oid().0
    }
}

impl<T1, T2, T3, T4, T5, T6> PgHasArrayType for (T1, T2, T3, T4, T5, T6) {
    open spec fn spec_array_type_info() -> LazyTypeInfoView {
        PgBuiltinType::RecordArray.spec_lazy()
    }

    open spec fn spec_array_compatible(ty: TypeInfoView) -> bool {
        ty.oid == PgBuiltinType::RecordArray.spec_oid()
    }

    fn array_type_info() -> (r: LazyPgTypeInfo) {
        PgBuiltinType::RecordArray.lazy()
    }

    fn array_compatible(ty: &PgTypeInfo) -> (b: bool) {
        ty.oid.0 == PgBuiltinType::RecordArray.oid().0
    }
}

impl<T1: Decode, T2: Decode, T3: Decode, T4: Decode, T5: Decode, T6: Decode> Decode for (T1, T2, T3, T4, T5, T6) {
    /// The fields of the record, taken in order; the first that fails
    /// fails the tuple.
    open spec fn decoded(value: ValueView) -> Result<(T1::V, T2::V, T3::V, T4::V, T5::V, T6::V), DecodeError> {
        match record_decoder(value) {
            Err(e) => Err(e),
            Ok(d0) => {
                let s1 = try_decode_spec::<T1>(d0);
                let d1 = s1.1;
                match s1.0 {
                    Err(e) => Err(e),
                    Ok(v1) => {
                        let s2 = try_decode_spec::<T2>(d1);
                        let d2 = s2.1;
                        match s2.0 {
                            Err(e) => Err(e),
                            Ok(v2) => {
                                let s3 = try_decode_spec::<T3>(d2);
                                let d3 = s3.1;
                                match s3.0 {
                                    Err(e) => Err(e),
                                    Ok(v3) => {
                                        let s4 = try_decode_spec::<T4>(d3);
                                        let d4 = s4.1;
                                        match s4.0 {
                                            Err(e) => Err(e),
                                            Ok(v4) => {
                                                let s5 = try_decode_spec::<T5>(d4);
                                                let d5 = s5.1;
                                                match s5.0 {
                                                    Err(e) => Err(e),
                                                    Ok(v5) => {
                                                        let s6 = try_decode_spec::<T6>(d5);
                                                        let d6 = s6.1;
                                                        match s6.0 {
                                                            Err(e) => Err(e),
                                                            Ok(v6) => {
                                                                Ok((v1, v2, v3, v4, v5, v6))
                                                            },
                                                        }
                                                    },
                                                }
                                            },
                                        }
                                    },
                                }
                            },
                        }
                    },
                }
            },
        }
    }

    fn decode(value: PgValueRef<'_>) -> (r: Result<Self, DecodeError>) {
        let mut decoder = PgRecordDecoder::new(value)?;
        let v1: T1 = decoder.try_decode()?;
        let v2: T2 = decoder.try_decode()?;
        let v3: T3 = decoder.try_decode()?;
        let v4: T4 = decoder.try_decode()?;
        let v5: T5 = decoder.try_decode()?;
        let v6: T6 = decoder.try_decode()?;
        Ok((v1, v2, v3, v4, v5, v6))
    }
}

impl<T1, T2, T3, T4, T5, T6, T7> Type for (T1, T2, T3, T4, T5, T6, T7) {
    open spec fn spec_type_info() -> LazyTypeInfoView {
        PgBuiltinType::Record.spec_lazy()
    }

    open spec fn spec_compatible(ty: TypeInfoView) -> bool {
        ty.oid == PgBuiltinType::Record.spec_oid()
    }

    fn type_info() -> (r: LazyPgTypeInfo) {
        PgBuiltinType::Record.lazy()
    }

    fn compatible(ty: &PgTypeInfo) -> (b: bool) {
        ty.oid.0 == PgBuiltinType::Record.oid().0
    }
}

impl<T1, T2, T3, T4, T5, T6, T7> PgHasArrayType for (T1, T2, T3, T4, T5, T6, T7) {
    open spec fn spec_array_type_info() -> LazyTypeInfoView {
        PgBuiltinType::RecordArray.spec_lazy()
    }

    open spec fn spec_array_compatible(ty: TypeInfoView) -> bool {
        ty.oid == PgBuiltinType::RecordArray.spec_oid()
    }

    fn array_type_info() -> (r: LazyPgTypeInfo) {
        PgBuiltinType::RecordArray.lazy()
    }

    fn array_compatible(ty: &PgTypeInfo) -> (b: bool) {
        ty.oid.0 == PgBuiltinType::RecordArray.oid().0
    }
}

impl<T1: Decode, T2: Decode, T3: Decode, T4: Decode, T5: Decode, T6: Decode, T7: Decode> Decode for (T1, T2, T3, T4, T5, T6, T7) {
    /// The fields of the record, taken in order; the first that fails
    /// fails the tuple.
    open spec fn decoded(value: ValueView) -> Result<(T1::V, T2::V, T3::V, T4::V, T5::V, T6::V, T7::V), DecodeError> {
        match record_decoder(value) {
            Err(e) => Err(e),
            Ok(d0) => {
                let s1 = try_decode_spec::<T1>(d0);
                let d1 = s1.1;
                match s1.0 {
                    Err(e) => Err(e),
                    Ok(v1) => {
                        let s2 = try_decode_spec::<T2>(d1);
                        let d2 = s2.1;
                        match s2.0 {
                            Err(e) => Err(e),
                            Ok(v2) => {
                                let s3 = try_decode_spec::<T3>(d2);
                                let d3 = s3.1;
                                match s3.0 {
                                    Err(e) => Err(e),
                                    Ok(v3) => {
                                        let s4 = try_decode_spec::<T4>(d3);
                                        let d4 = s4.1;
                                        match s4.0 {
                                            Err(e) => Err(e),
                                            Ok(v4) => {
                                                let s5 = try_decode_spec::<T5>(d4);
                                                let d5 = s5.1;
                                                match s5.0 {
                                                    Err(e) => Err(e),
                                                    Ok(v5) => {
                                                        let s6 = try_decode_spec::<T6>(d5);
                                                        let d6 = s6.1;
                                                        match s6.0 {
                                                            Err(e) => Err(e),
                                                            Ok(v6) => {
                                                                let s7 = try_decode_spec::<T7>(d6);
                                                                let d7 = s7.1;
                                                                match s7.0 {
                                                                    Err(e) => Err(e),
                                                                    Ok(v7) => {
                                                                        Ok((v1, v2, v3, v4, v5, v6, v7))
                                                                    },
                                                                }
                                                            },
                                                        }
                                                    },
                                                }
                                            },
                                        }
                                    },
                                }
                            },
                        }
                    },
                }
            },
        }
    }

    fn decode(value: PgValueRef<'_>) -> (r: Result<Self, DecodeError>) {
        let mut decoder = PgRecordDecoder::new(value)?;
        let v1: T1 = decoder.try_decode()?;
        let v2: T2 = decoder.try_decode()?;
        let v3: T3 = decoder.try_decode()?;
        let v4: T4 = decoder.try_decode()?;
        let v5: T5 = decoder.try_decode()?;
        let v6: T6 = decoder.try_decode()?;
        let v7: T7 = decoder.try_decode()?;
        Ok((v1, v2, v3, v4, v5, v6, v7))
    }
}

impl<T1, T2, T3, T4, T5, T6, T7, T8> Type for (T1, T2, T3, T4, T5, T6, T7, T8) {
    open spec fn spec_type_info() -> LazyTypeInfoView {
        PgBuiltinType::Record.spec_lazy()
    }

    open spec fn spec_compatible(ty: TypeInfoView) -> bool {
        ty.oid == PgBuiltinType::Record.spec_oid()
    }

    fn type_info() -> (r: LazyPgTypeInfo) {
        PgBuiltinType::Record.lazy()
    }

    fn compatible(ty: &PgTypeInfo) -> (b: bool) {
        ty.oid.0 == PgBuiltinType::Record.oid().0
    }
}

impl<T1, T2, T3, T4, T5, T6, T7, T8> PgHasArrayType for (T1, T2, T3, T4, T5, T6, T7, T8) {
    open spec fn spec_array_type_info() -> LazyTypeInfoView {
        PgBuiltinType::RecordArray.spec_lazy()
    }

    open spec fn spec_array_compatible(ty: TypeInfoView) -> bool {
        ty.oid == PgBuiltinType::RecordArray.spec_oid()
    }

    fn array_type_info() -> (r: LazyPgTypeInfo) {
        PgBuiltinType::RecordArray.lazy()
    }

    fn array_compatible(ty: &PgTypeInfo) -> (b: bool) {
        ty.oid.0 == PgBuiltinType::RecordArray.oid().0
    }
}

impl<T1: Decode, T2: Decode, T3: Decode, T4: Decode, T5: Decode, T6: Decode, T7: Decode, T8: Decode> Decode for (T1, T2, T3, T4, T5, T6, T7, T8) {
    /// The fields of the record, taken in order; the first that fails
    /// fails the tuple.
    open spec fn decoded(value: ValueView) -> Result<(T1::V, T2::V, T3::V, T4::V, T5::V, T6::V, T7::V, T8::V), DecodeError> {
        match record_decoder(value) {
            Err(e) => Err(e),
            Ok(d0) => {
                let s1 = try_decode_spec::<T1>(d0);
                let d1 = s1.1;
                match s1.0 {
                    Err(e) => Err(e),
                    Ok(v1) => {
                        let s2 = try_decode_spec::<T2>(d1);
                        let d2 = s2.1;
                        match s2.0 {
                            Err(e) => Err(e),
                            Ok(v2) => {
                                let s3 = try_decode_spec::<T3>(d2);
                                let d3 = s3.1;
                                match s3.0 {
                                    Err(e) => Err(e),
                                    Ok(v3) => {
                                        let s4 = try_decode_spec::<T4>(d3);
                                        let d4 = s4.1;
                                        match s4.0 {
                                            Err(e) => Err(e),
                                            Ok(v4) => {
                                                let s5 = try_decode_spec::<T5>(d4);
                                                let d5 = s5.1;
                                                match s5.0 {
                                                    Err(e) => Err(e),
                                                    Ok(v5) => {
                                                        let s6 = try_decode_spec::<T6>(d5);
                                                        let d6 = s6.1;
                                                        match s6.0 {
                                                            Err(e) => Err(e),
                                                            Ok(v6) => {
                                                                let s7 = try_decode_spec::<T7>(d6);
                                                                let d7 = s7.1;
                                                                match s7.0 {
                                                                    Err(e) => Err(e),
                                                                    Ok(v7) => {
                                                                        let s8 = try_decode_spec::<T8>(d7);
                                                                        let d8 = s8.1;
                                                                        match s8.0 {
                                                                            Err(e) => Err(e),
                                                                            Ok(v8) => {
                                                                                Ok((v1, v2, v3, v4, v5, v6, v7, v8))
                                                                            },
                                                                        }
                                                                    },
                                                                }
                                                            },
                                                        }
                                                    },
                                                }
                                            },
                                        }
                                    },
                                }
                            },
                        }
                    },
                }
            },
        }
    }

    fn decode(value: PgValueRef<'_>) -> (r: Result<Self, DecodeError>) {
        let mut decoder = PgRecordDecoder::new(value)?;
        let v1: T1 = decoder.try_decode()?;
        let v2: T2 = decoder.try_decode()?;
        let v3: T3 = decoder.try_decode()?;
        let v4: T4 = decoder.try_decode()?;
        let v5: T5 = decoder.try_decode()?;
        let v6: T6 = decoder.try_decode()?;
        let v7: T7 = decoder.try_decode()?;
        let v8: T8 = decoder.try_decode()?;
        Ok((v1, v2, v3, v4, v5, v6, v7, v8))
    }
}

impl<T1, T2, T3, T4, T5, T6, T7, T8, T9> Type for (T1, T2, T3, T4, T5, T6, T7, T8, T9) {
    open spec fn spec_type_info() -> LazyTypeInfoView {
        PgBuiltinType::Record.spec_lazy()
    }

    open spec fn spec_compatible(ty: TypeInfoView) -> bool {
        ty.oid == PgBuiltinType::Record.spec_oid()
    }

    fn type_info() -> (r: LazyPgTypeInfo) {
        PgBuiltinType::Record.lazy()
    }

    fn compatible(ty: &PgTypeInfo) -> (b: bool) {
        ty.oid.0 == PgBuiltinType::Record.oid().0
    }
}

impl<T1, T2, T3, T4, T5, T6, T7, T8, T9> PgHasArrayType for (T1, T2, T3, T4, T5, T6, T7, T8, T9) {
    open spec fn spec_array_type_info() -> LazyTypeInfoView {
        PgBuiltinType::RecordArray.spec_lazy()
    }

    open spec fn spec_array_compatible(ty: TypeInfoView) -> bool {
        ty.oid == PgBuiltinType::RecordArray.spec_oid()
    }

    fn array_type_info() -> (r: LazyPgTypeInfo) {
        PgBuiltinType::RecordArray.lazy()
    }

    fn array_compatible(ty: &PgTypeInfo) -> (b: bool) {
        ty.oid.0 == PgBuiltinType::RecordArray.oid().0
    }
}

impl<T1: Decode, T2: Decode, T3: Decode, T4: Decode, T5: Decode, T6: Decode, T7: Decode, T8: Decode, T9: Decode> Decode for (T1, T2, T3, T4, T5, T6, T7, T8, T9) {
    /// The fields of the record, taken in order; the first that fails
    /// fails the tuple.
    open spec fn decoded(value: ValueView) -> Result<(T1::V, T2::V, T3::V, T4::V, T5::V, T6::V, T7::V, T8::V, T9::V), DecodeError> {
        match record_decoder(value) {
            Err(e) => Err(e),
            Ok(d0) => {
                let s1 = try_decode_spec::<T1>(d0);
                let d1 = s1.1;
                match s1.0 {
                    Err(e) => Err(e),
                    Ok(v1) => {
                        let s2 = try_decode_spec::<T2>(d1);
                        let d2 = s2.1;
                        match s2.0 {
                            Err(e) => Err(e),
                            Ok(v2) => {
                                let s3 = try_decode_spec::<T3>(d2);
                                let d3 = s3.1;
                                match s3.0 {
                                    Err(e) => Err(e),
                                    Ok(v3) => {
                                        let s4 = try_decode_spec::<T4>(d3);
                                        let d4 = s4.1;
                                        match s4.0 {
                                            Err(e) => Err(e),
                                            Ok(v4) => {
                                                let s5 = try_decode_spec::<T5>(d4);
                                                let d5 = s5.1;
                                                match s5.0 {
                                                    Err(e) => Err(e),
                                                    Ok(v5) => {
                                                        let s6 = try_decode_spec::<T6>(d5);
                                                        let d6 = s6.1;
                                                        match s6.0 {
                                                            Err(e) => Err(e),
                                                            Ok(v6) => {
                                                                let s7 = try_decode_spec::<T7>(d6);
                                                                let d7 = s7.1;
                                                                match s7.0 {
                                                                    Err(e) => Err(e),
                                                                    Ok(v7) => {
                                                                        let s8 = try_decode_spec::<T8>(d7);
                                                                        let d8 = s8.1;
                                                                        match s8.0 {
                                                                            Err(e) => Err(e),
                                                                            Ok(v8) => {
                                                                                let s9 = try_decode_spec::<T9>(d8);
                                                                                let d9 = s9.1;
                                                                                match s9.0 {
                                                                                    Err(e) => Err(e),
                                                                                    Ok(v9) => {
                                                                                        Ok((v1, v2, v3, v4, v5, v6, v7, v8, v9))
                                                                                    },
                                                                                }
                                                                            },
                                                                        }
                                                                    },
                                                                }
                                                            },
                                                        }
                                                    },
                                                }
                                            },
                                        }
                                    },
                                }
                            },
                        }
                    },
                }
            },
        }
    }

    fn decode(value: PgValueRef<'_>) -> (r: Result<Self, DecodeError>) {
        let mut decoder = PgRecordDecoder::new(value)?;
        let v1: T1 = decoder.try_decode()?;
        let v2: T2 = decoder.try_decode()?;
        let v3: T3 = decoder.try_decode()?;
        let v4: T4 = decoder.try_decode()?;
        let v5: T5 = decoder.try_decode()?;
        let v6: T6 = decoder.try_decode()?;
        let v7: T7 = decoder.try_decode()?;
        let v8: T8 = decoder.try_decode()?;
        let v9: T9 = decoder.try_decode()?;
        Ok((v1, v2, v3, v4, v5, v6, v7, v8, v9))
    }
}

} // verus!
