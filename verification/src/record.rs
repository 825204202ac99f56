//! Records on the wire: the encoder for the binary form, and the decoder for
//! the binary and the text form.

use vstd::prelude::*;
use vstd::slice::slice_subrange;
use vstd::utf8::encode_utf8;
use crate::arguments::{overwrite, ArgumentBufferView, PgArgumentBuffer};
use crate::builtin::PgBuiltinType;
use crate::catalog::{CatalogView, EntryState, GetPgTypeError, LocalPgCatalog};
use crate::codec::{Decode, Encode};
use crate::error::DecodeError;
use crate::type_info::{
    LazyPgTypeInfo, LazyTypeInfoView, Oid, PgTypeInfo, PgTypeKind, PgTypeRef,
    TypeInfoView, TypeKindView, TypeRefView,
};
use crate::value::{
    element_fits, element_rest, element_value, split_element, PgValueFormat, PgValueRef, ValueView,
};
use crate::wire::{be_u32, get_u32, set_u32, u32_be_bytes};

verus! {

/// The buffer after the type of a field was written: the identifier in four
/// bytes, or room for it where the type is known by name only.
pub open spec fn with_field_type(before: ArgumentBufferView, ty: LazyTypeInfoView) -> ArgumentBufferView {
    match ty {
        LazyTypeInfoView::Ref(TypeRefView::Name(name)) => before.with_type_hole(name),
        LazyTypeInfoView::Ref(TypeRefView::Oid(oid)) => before.extend(u32_be_bytes(oid as int)),
        LazyTypeInfoView::Fetched(t) => before.extend(u32_be_bytes(t.oid as int)),
    }
}

/// The buffer after a field was written: its type, then the value as an
/// element.
pub open spec fn with_field<T: Encode>(before: ArgumentBufferView, value: T) -> ArgumentBufferView {
    with_field_type(before, T::spec_type_info()).with_value(value)
}

/// Writes a record into an argument buffer: the number of fields in four
/// bytes, then for each field the identifier of its type and the value as
/// an element. The number is written by `finish`.
pub struct PgRecordEncoder<'a> {
    pub buf: &'a mut PgArgumentBuffer,
    pub off: usize,
    pub num: u32,
}

impl<'a> PgRecordEncoder<'a> {
    /// The place of the number of fields lies within the buffer.
    pub open spec fn wf(&self) -> bool {
        self.off + 4 <= self.buf@.bytes.len()
    }

    /// Starts a record at the end of `buf`, with room for the number of
    /// fields.
    pub fn new(buf: &'a mut PgArgumentBuffer) -> (r: Self)
        ensures
            r.off == old(buf)@.bytes.len(),
            r.num == 0,
            r.buf@ == old(buf)@.extend(u32_be_bytes(0)),
            r.wf(),
            *final(buf) == *final(r.buf),
    {
        let off: usize = buf.len();
        buf.put_u32(0);
        PgRecordEncoder { buf, off, num: 0 }
    }

    /// Writes the number of the fields encoded so far into its place.
    pub fn finish(&mut self)
        requires
            old(self).wf(),
        ensures
            final(self).buf@ == (ArgumentBufferView {
                bytes: overwrite(
                    old(self).buf@.bytes,
                    old(self).off as int,
                    u32_be_bytes(old(self).num as int),
                ),
                ..old(self).buf@
            }),
            final(self).off == old(self).off,
            final(self).num == old(self).num,
            final(self).wf(),
            *final(final(self).buf) == *final(old(self).buf),
    {
        self.buf.set_u32(self.off, self.num);
    }

    /// Writes one field: the identifier of the type of `value`, or room for
    /// it where the type is known by name only, and then the value. What
    /// the buffer held before stays as it was, the place of the number of
    /// fields included.
    pub fn encode<T: Encode>(&mut self, value: T) -> (r: &mut Self)
        requires
            old(self).wf(),
            old(self).num < u32::MAX,
        ensures
            r.buf@ == with_field(old(self).buf@, value),
            r.buf@.extends(old(self).buf@),
            r.off == old(self).off,
            r.num == old(self).num + 1,
            r.wf(),
            *final(r.buf) == *final(old(self).buf),
            *final(r) == *final(self),
    {
        let ty = T::type_info();
        match ty {
            LazyPgTypeInfo::Ref(PgTypeRef::Name(name)) => {
                self.buf.patch_type_by_name(name.as_str());
            },
            LazyPgTypeInfo::Ref(PgTypeRef::Oid(oid)) => {
                self.buf.put_u32(oid.0);
            },
            LazyPgTypeInfo::Fetched(t) => {
                self.buf.put_u32(t.oid.0);
            },
        }
        self.buf.encode(value);
        self.num = self.num + 1;
        self
    }
}

/// The state of a record decoder as plain values: the bytes that are left,
/// the catalog, the type of the record, the format, the number of fields
/// taken from a binary record, and whether the field taken last from a
/// text record ended with a comma, so that one more field follows even
/// where no bytes are left.
pub struct RecordDecoderView {
    pub buf: Seq<u8>,
    pub catalog: CatalogView,
    pub typ: TypeInfoView,
    pub fmt: PgValueFormat,
    pub ind: nat,
    pub more: bool,
}

/// Why a reference in this state does not resolve.
pub open spec fn resolve_error(state: EntryState) -> GetPgTypeError {
    match state {
        EntryState::Missing => GetPgTypeError::Missing,
        EntryState::Unfetched => GetPgTypeError::Unfetched,
        _ => GetPgTypeError::Undeclared,
    }
}

/// The decoder for a value: a binary record without its field count, a text
/// record without its parentheses.
pub open spec fn record_decoder(value: ValueView) -> Result<RecordDecoderView, DecodeError> {
    match value.value {
        None => Err(DecodeError::UnexpectedNull),
        Some(bytes) => {
            let skip: int = match value.format {
                PgValueFormat::Binary => 4,
                PgValueFormat::Text => 2,
            };
            if bytes.len() < skip {
                Err(DecodeError::MalformedRecord)
            } else {
                Ok(
                    RecordDecoderView {
                        buf: match value.format {
                            PgValueFormat::Binary => bytes.skip(4),
                            PgValueFormat::Text => bytes.subrange(1, bytes.len() - 1),
                        },
                        catalog: value.catalog,
                        typ: value.type_info,
                        fmt: value.format,
                        ind: 0,
                        more: false,
                    },
                )
            }
        },
    }
}

/// The type of the next element of a binary record, whose identifier on
/// the wire is `oid`. In a generic record the identifier is looked up in
/// the catalog. In a composite type the field at the decoder's index says
/// what the type is, and the identifier must be that type's.
pub open spec fn element_type(d: RecordDecoderView, oid: u32) -> Result<TypeInfoView, DecodeError> {
    match d.typ.kind {
        TypeKindView::Simple => if d.typ.oid == PgBuiltinType::Record.spec_oid() {
            match d.catalog.state(TypeRefView::Oid(oid)) {
                EntryState::Fetched(t) => Ok(t),
                other => Err(
                    DecodeError::UnresolvedElementType {
                        index: d.ind as usize,
                        oid: Oid(oid),
                        error: resolve_error(other),
                    },
                ),
            }
        } else {
            Err(DecodeError::NotComposite)
        },
        TypeKindView::Composite(fields) => if d.ind >= fields.len() {
            Err(DecodeError::MalformedRecord)
        } else {
            match d.catalog.state(fields[d.ind as int].1) {
                EntryState::Fetched(t) => if t.oid != oid {
                    Err(DecodeError::CompositeMismatch)
                } else {
                    Ok(t)
                },
                other => Err(
                    DecodeError::UnresolvedElementType {
                        index: d.ind as usize,
                        oid: Oid(oid),
                        error: resolve_error(other),
                    },
                ),
            }
        },
        _ => Err(DecodeError::NotComposite),
    }
}

/// What taking the next field of a binary record gives, and the decoder
/// after it. The field is the identifier of its type in four bytes and the
/// value as an element.
pub open spec fn decode_binary<T: Decode>(d: RecordDecoderView) -> (
    Result<T::V, DecodeError>,
    RecordDecoderView,
) {
    if d.buf.len() < 4 {
        (Err(DecodeError::MalformedRecord), d)
    } else {
        let oid = be_u32(d.buf) as u32;
        let rest = d.buf.skip(4);
        match element_type(d, oid) {
            Err(e) => (Err(e), RecordDecoderView { buf: rest, ..d }),
            Ok(ty) => {
                let next = RecordDecoderView { buf: rest, ind: d.ind + 1, ..d };
                if !T::spec_compatible(ty) {
                    (Err(DecodeError::MismatchedType { oid: Oid(ty.oid) }), next)
                } else if !element_fits(rest) {
                    (Err(DecodeError::MalformedRecord), next)
                } else {
                    (
                        T::decoded(
                            ValueView {
                                value: element_value(rest),
                                type_info: ty,
                                format: d.fmt,
                                catalog: d.catalog,
                            },
                        ),
                        RecordDecoderView { buf: element_rest(rest), ..next },
                    )
                }
            },
        }
    }
}

/// The state of the scan of one field of a text record.
pub struct FieldScan {
    /// The text of the field so far.
    pub element: Seq<char>,
    /// Whether a quote was opened anywhere in the field.
    pub quoted: bool,
    pub in_quotes: bool,
    /// Whether the byte before was a backslash that escapes this one.
    pub in_escape: bool,
    /// The byte before; 0 at the start.
    pub prev: u8,
}

/// The state before the first byte of a field.
pub open spec fn scan_start() -> FieldScan {
    FieldScan { element: Seq::empty(), quoted: false, in_quotes: false, in_escape: false, prev: 0 }
}

/// The scan after one more byte; `None` where the byte ends the field. A
/// byte after a backslash is taken as it is. A quote closes an open quote,
/// or opens one; a quote that opens right after a quote stands for a quote
/// in the text. A comma outside quotes ends the field.
pub open spec fn scan_step(s: FieldScan, b: u8) -> Option<FieldScan> {
    if s.in_escape {
        Some(FieldScan { element: s.element.push(b as char), in_escape: false, prev: b, ..s })
    } else if b == 0x22 && s.in_quotes {
        Some(FieldScan { in_quotes: false, prev: b, ..s })
    } else if b == 0x22 {
        Some(
            FieldScan {
                element: if s.prev == 0x22 {
                    s.element.push('"')
                } else {
                    s.element
                },
                in_quotes: true,
                quoted: true,
                prev: b,
                ..s
            },
        )
    } else if b == 0x5c {
        Some(FieldScan { in_escape: true, prev: b, ..s })
    } else if b == 0x2c && !s.in_quotes {
        None
    } else {
        Some(FieldScan { element: s.element.push(b as char), prev: b, ..s })
    }
}

/// The scan of the field that `buf` starts with, from the state `s`; the
/// bytes after the comma that ends the field; and whether a comma ended
/// it, or the bytes ran out.
pub open spec fn scan_field(buf: Seq<u8>, s: FieldScan) -> (FieldScan, Seq<u8>, bool)
    decreases buf.len(),
{
    if buf.len() == 0 {
        (s, buf, false)
    } else {
        match scan_step(s, buf[0]) {
            None => (s, buf.skip(1), true),
            Some(next) => scan_field(buf.skip(1), next),
        }
    }
}

/// The value of a scanned field: NULL where the field is empty and has no
/// quotes, and the UTF-8 bytes of its text otherwise.
pub open spec fn scanned_value(s: FieldScan) -> Option<Seq<u8>> {
    if s.element.len() == 0 && !s.quoted {
        None
    } else {
        Some(encode_utf8(s.element))
    }
}

/// What taking the next field of a text record gives, and the decoder
/// after it. The field is typed as `unknown`: the text says nothing of its
/// type.
pub open spec fn decode_text<T: Decode>(d: RecordDecoderView) -> (
    Result<T::V, DecodeError>,
    RecordDecoderView,
) {
    let (scan, rest, more) = scan_field(d.buf, scan_start());
    (
        T::decoded(
            ValueView {
                value: scanned_value(scan),
                type_info: d.catalog.find(
                    TypeRefView::Oid(PgBuiltinType::Unknown.spec_oid()),
                ).unwrap(),
                format: d.fmt,
                catalog: d.catalog,
            },
        ),
        RecordDecoderView { buf: rest, more, ..d },
    )
}

/// What taking the next field gives, and the decoder after it. With no
/// bytes left there is no field, unless the field before ended with a
/// comma: then an empty field follows.
pub open spec fn try_decode_spec<T: Decode>(d: RecordDecoderView) -> (
    Result<T::V, DecodeError>,
    RecordDecoderView,
) {
    if d.buf.len() == 0 && !d.more {
        (Err(DecodeError::NoField { index: d.ind as usize }), d)
    } else {
        match d.fmt {
            PgValueFormat::Binary => decode_binary::<T>(d),
            PgValueFormat::Text => decode_text::<T>(d),
        }
    }
}

/// Takes the fields of a record one after the other.
pub struct PgRecordDecoder<'r> {
    buf: &'r [u8],
    catalog: &'r LocalPgCatalog,
    typ: &'r PgTypeInfo,
    fmt: PgValueFormat,
    ind: usize,
    more: bool,
}

impl<'r> View for PgRecordDecoder<'r> {
    type V = RecordDecoderView;

    closed spec fn view(&self) -> RecordDecoderView {
        RecordDecoderView {
            buf: self.buf@,
            catalog: self.catalog@,
            typ: self.typ@,
            fmt: self.fmt,
            ind: self.ind as nat,
            more: self.more,
        }
    }
}

impl<'r> PgRecordDecoder<'r> {
    /// The index never runs past what `usize` holds: each field taken from
    /// a binary record uses up bytes. Only a text record has fields that end
    /// with a comma, so that a binary decoder never waits for one more
    /// field with no bytes left.
    pub open spec fn wf(&self) -> bool {
        &&& self@.ind + self@.buf.len() <= usize::MAX
        &&& self@.catalog.wf()
        &&& self@.fmt == PgValueFormat::Binary ==> !self@.more
    }

    /// The number of fields taken from a binary record so far.
    pub fn index(&self) -> (r: usize)
        ensures
            r == self@.ind,
    {
        self.ind
    }

    /// Whether no field is left.
    pub fn is_empty(&self) -> (r: bool)
        ensures
            r == (self@.buf.len() == 0 && !self@.more),
    {
        self.buf.len() == 0 && !self.more
    }

    /// A decoder for the fields of `value`.
    pub fn new(value: PgValueRef<'r>) -> (r: Result<Self, DecodeError>)
        requires
            value@.catalog.wf(),
        ensures
            match r {
                Ok(d) => record_decoder(value@) == Ok::<RecordDecoderView, DecodeError>(d@) && d.wf(),
                Err(e) => record_decoder(value@) == Err::<RecordDecoderView, DecodeError>(e),
            },
    {
        let bytes = match value.as_bytes() {
            Ok(bytes) => bytes,
            Err(e) => {
                return Err(e);
            },
        };
        let buf = match value.format {
            PgValueFormat::Binary => {
                if bytes.len() < 4 {
                    return Err(DecodeError::MalformedRecord);
                }
                slice_subrange(bytes, 4, bytes.len())
            },
            PgValueFormat::Text => {
                if bytes.len() < 2 {
                    return Err(DecodeError::MalformedRecord);
                }
                slice_subrange(bytes, 1, bytes.len() - 1)
            },
        };
        Ok(
            PgRecordDecoder {
                buf,
                fmt: value.format,
                catalog: value.catalog,
                typ: value.type_info,
                ind: 0,
                more: false,
            },
        )
    }

    fn element_type(&self, oid: Oid) -> (r: Result<&'r PgTypeInfo, DecodeError>)
        ensures
            match r {
                Ok(t) => element_type(self@, oid.0) == Ok::<TypeInfoView, DecodeError>(t@),
                Err(e) => element_type(self@, oid.0) == Err::<TypeInfoView, DecodeError>(e),
            },
    {
        match &self.typ.kind {
            PgTypeKind::Simple => {
                if self.typ.oid.0 != PgBuiltinType::Record.oid().0 {
                    return Err(DecodeError::NotComposite);
                }
                match self.catalog.resolve_type_info(&PgTypeRef::Oid(oid)) {
                    Ok(t) => Ok(t),
                    Err(error) => Err(
                        DecodeError::UnresolvedElementType { index: self.ind, oid, error },
                    ),
                }
            },
            PgTypeKind::Composite(fields) => {
                if self.ind >= fields.len() {
                    return Err(DecodeError::MalformedRecord);
                }
                match self.catalog.resolve_type_info(&fields[self.ind].1) {
                    Ok(t) => {
                        if t.oid.0 != oid.0 {
                            Err(DecodeError::CompositeMismatch)
                        } else {
                            Ok(t)
                        }
                    },
                    Err(error) => Err(
                        DecodeError::UnresolvedElementType { index: self.ind, oid, error },
                    ),
                }
            },
            _ => Err(DecodeError::NotComposite),
        }
    }

    fn decode_binary<T: Decode>(&mut self) -> (r: Result<T, DecodeError>)
        requires
            old(self).wf(),
        ensures
            final(self)@ == decode_binary::<T>(old(self)@).1,
            final(self).wf(),
            match r {
                Ok(v) => decode_binary::<T>(old(self)@).0 == Ok::<T::V, DecodeError>(v@),
                Err(e) => decode_binary::<T>(old(self)@).0 == Err::<T::V, DecodeError>(e),
            },
    {
        if self.buf.len() < 4 {
            return Err(DecodeError::MalformedRecord);
        }
        let oid = Oid(get_u32(self.buf));
        let element_type = self.element_type(oid);
        self.buf = slice_subrange(self.buf, 4, self.buf.len());
        let element_type = match element_type {
            Ok(t) => t,
            Err(e) => {
                return Err(e);
            },
        };
        self.ind = self.ind + 1;
        if !T::compatible(element_type) {
            return Err(DecodeError::MismatchedType { oid: element_type.oid });
        }
        let (value, rest) = match split_element(self.buf) {
            Ok(parts) => parts,
            Err(e) => {
                return Err(e);
            },
        };
        self.buf = rest;
        T::decode(
            PgValueRef { value, type_info: element_type, format: self.fmt, catalog: self.catalog },
        )
    }

    fn decode_text<T: Decode>(&mut self) -> (r: Result<T, DecodeError>)
        requires
            old(self).wf(),
            old(self)@.fmt == PgValueFormat::Text,
        ensures
            final(self)@ == decode_text::<T>(old(self)@).1,
            final(self).wf(),
            match r {
                Ok(v) => decode_text::<T>(old(self)@).0 == Ok::<T::V, DecodeError>(v@),
                Err(e) => decode_text::<T>(old(self)@).0 == Err::<T::V, DecodeError>(e),
            },
    {
        let buf = self.buf;
        let mut element = String::new();
        let mut quoted = false;
        let mut in_quotes = false;
        let mut in_escape = false;
        let mut prev: u8 = 0;
        let mut i: usize = 0;
        let mut ended = false;
        assert(buf@.skip(0) =~= buf@);
        while i < buf.len() && !ended
            invariant
                i <= buf.len(),
                !ended ==> scan_field(buf@, scan_start()) == scan_field(
                    buf@.skip(i as int),
                    FieldScan { element: element@, quoted, in_quotes, in_escape, prev },
                ),
                ended ==> scan_field(buf@, scan_start()) == (
                    FieldScan { element: element@, quoted, in_quotes, in_escape, prev },
                    buf@.skip(i as int),
                    true,
                ),
            decreases buf.len() - i, if ended { 0int } else { 1int },
        {
            let b: u8 = buf[i];
            proof {
                assert(buf@.skip(i as int).skip(1) =~= buf@.skip(i + 1));
            }
            if in_escape {
                element.push(b as char);
                in_escape = false;
                prev = b;
            } else if b == 0x22 && in_quotes {
                in_quotes = false;
                prev = b;
            } else if b == 0x22 {
                in_quotes = true;
                quoted = true;
                if prev == 0x22 {
                    element.push('"');
                }
                prev = b;
            } else if b == 0x5c {
                in_escape = true;
                prev = b;
            } else if b == 0x2c && !in_quotes {
                ended = true;
            } else {
                element.push(b as char);
                prev = b;
            }
            i = i + 1;
        }
        self.buf = slice_subrange(buf, i, buf.len());
        self.more = ended;
        let type_info = match self.catalog.resolve_type_info(
            &PgTypeRef::Oid(PgBuiltinType::Unknown.oid()),
        ) {
            Ok(t) => t,
            Err(_) => vstd::pervasive::unreached(),
        };
        let text = element.as_str();
        let value = if text.is_empty() && !quoted {
            None
        } else {
            Some(text.as_bytes())
        };
        T::decode(PgValueRef { value, type_info, format: self.fmt, catalog: self.catalog })
    }

    /// Takes the next field of the record and decodes it into `T`.
    ///
    /// In a binary record the field carries the identifier of its type. For
    /// a generic record the identifier is resolved in the catalog; for a
    /// composite type it must be the type that the composite declares for
    /// the field at this position. The type then has to be compatible with
    /// `T`.
    ///
    /// In a text record the field ends at the next comma outside quotes. An
    /// empty field without quotes is NULL, also where it is the last field
    /// of the record. The field is handed to `T` as text of the type
    /// `unknown`.
    pub fn try_decode<T: Decode>(&mut self) -> (r: Result<T, DecodeError>)
        requires
            old(self).wf(),
        ensures
            final(self)@ == try_decode_spec::<T>(old(self)@).1,
            final(self).wf(),
            match r {
                Ok(v) => try_decode_spec::<T>(old(self)@).0 == Ok::<T::V, DecodeError>(v@),
                Err(e) => try_decode_spec::<T>(old(self)@).0 == Err::<T::V, DecodeError>(e),
            },
    {
        if self.buf.len() == 0 && !self.more {
            return Err(DecodeError::NoField { index: self.ind });
        }
        match self.fmt {
            PgValueFormat::Binary => self.decode_binary::<T>(),
            PgValueFormat::Text => self.decode_text::<T>(),
        }
    }
}

} // verus!
