//! The buffer that the arguments of a statement are encoded into.

use vstd::prelude::*;
use crate::builtin::PgBuiltinType;
use crate::codec::{Encode, IsNull};
use crate::type_info::{LazyPgTypeInfo, LazyTypeInfoView, Oid, PgTypeInfo, TypeInfoView};
use crate::wire::{
    i16_be_bytes, i32_be_bytes, i64_be_bytes, put_i16, put_i32, put_i64, put_u32, put_u64,
    set_i32, set_u32, u32_be_bytes, u64_be_bytes,
};

verus! {

/// A change to the buffer that waits until the types of the parameters are
/// known.
#[derive(PartialEq, Eq, Structural, Clone, Copy, Debug)]
pub enum PgPatch {
    /// The byte is the version marker of the binary JSON form. Where the
    /// parameter turns out to be of the textual JSON type, or an array of
    /// it, the marker becomes a space.
    JsonVersion,
}

/// The buffer as plain values: the bytes, the number of arguments that are
/// complete, the patches as (offset, index of the parameter, patch), and
/// the places that wait for the identifier of a type known by name, as
/// (offset, name).
pub struct ArgumentBufferView {
    pub bytes: Seq<u8>,
    pub count: nat,
    pub patches: Seq<(nat, nat, PgPatch)>,
    pub type_holes: Seq<(nat, Seq<char>)>,
}

/// The bytes after one patch was applied for the parameter types `params`.
pub open spec fn apply_patch(bytes: Seq<u8>, patch: (nat, nat, PgPatch), params: Seq<TypeInfoView>) -> Seq<
    u8,
> {
    let offset = patch.0 as int;
    let index = patch.1 as int;
    if offset < bytes.len() && index < params.len() && (params[index].oid
        == PgBuiltinType::Json.spec_oid() || params[index].oid
        == PgBuiltinType::JsonArray.spec_oid()) {
        bytes.update(offset, 0x20u8)
    } else {
        bytes
    }
}

/// The bytes after the patches were applied in order.
pub open spec fn apply_patches(
    bytes: Seq<u8>,
    patches: Seq<(nat, nat, PgPatch)>,
    params: Seq<TypeInfoView>,
) -> Seq<u8>
    decreases patches.len(),
{
    if patches.len() == 0 {
        bytes
    } else {
        apply_patch(apply_patches(bytes, patches.drop_last(), params), patches.last(), params)
    }
}

/// The bytes with the four at `offset` replaced by `with`.
pub open spec fn overwrite(bytes: Seq<u8>, offset: int, with: Seq<u8>) -> Seq<u8> {
    bytes.subrange(0, offset) + with + bytes.subrange(offset + 4, bytes.len() as int)
}

impl ArgumentBufferView {
    /// Every place that waits for an identifier lies within the bytes.
    pub open spec fn wf(self) -> bool {
        forall|i: int|
            0 <= i < self.type_holes.len() ==> (#[trigger] self.type_holes[i]).0 + 4
                <= self.bytes.len()
    }

    /// `self` is `before` with more at the end: nothing that `before` held
    /// has changed.
    pub open spec fn extends(self, before: ArgumentBufferView) -> bool {
        &&& before.bytes.is_prefix_of(self.bytes)
        &&& before.patches.is_prefix_of(self.patches)
        &&& before.type_holes.is_prefix_of(self.type_holes)
        &&& self.count == before.count
        &&& before.wf() ==> self.wf()
    }

    /// The buffer with `bytes` appended.
    pub open spec fn extend(self, bytes: Seq<u8>) -> ArgumentBufferView {
        ArgumentBufferView { bytes: self.bytes + bytes, ..self }
    }

    /// The buffer with a patch recorded for the byte that is written next,
    /// on behalf of the argument that is being encoded.
    pub open spec fn with_patch(self, patch: PgPatch) -> ArgumentBufferView {
        ArgumentBufferView {
            patches: self.patches.push((self.bytes.len(), self.count, patch)),
            ..self
        }
    }

    /// Four zero bytes are appended, to be replaced by the identifier of the
    /// type called `name`.
    pub open spec fn with_type_hole(self, name: Seq<char>) -> ArgumentBufferView {
        ArgumentBufferView {
            bytes: self.bytes + seq![0u8, 0u8, 0u8, 0u8],
            type_holes: self.type_holes.push((self.bytes.len(), name)),
            ..self
        }
    }

    /// The buffer with `value` appended as an element: the length of its
    /// encoding in four bytes, -1 for NULL, then the encoding.
    pub open spec fn with_value<T: Encode>(self, value: T) -> ArgumentBufferView {
        let after = value.encode_spec(self.extend(seq![0u8, 0u8, 0u8, 0u8]));
        let len: i32 = match value.null_spec() {
            IsNull::No => (after.bytes.len() - self.bytes.len() - 4) as i32,
            IsNull::Yes => -1i32,
        };
        ArgumentBufferView {
            bytes: overwrite(after.bytes, self.bytes.len() as int, i32_be_bytes(len)),
            ..after
        }
    }

    /// The buffer with `count` arguments counted as complete.
    pub open spec fn with_count(self, count: nat) -> ArgumentBufferView {
        ArgumentBufferView { count, ..self }
    }

    /// The patches are applied for the parameter types `params`, and none is
    /// left.
    pub open spec fn patched(self, params: Seq<TypeInfoView>) -> ArgumentBufferView {
        ArgumentBufferView {
            bytes: apply_patches(self.bytes, self.patches, params),
            patches: Seq::empty(),
            ..self
        }
    }

    /// The first place that waits for an identifier gets `oid`.
    pub open spec fn with_hole_filled(self, oid: u32) -> ArgumentBufferView {
        if self.type_holes.len() > 0 && self.type_holes[0].0 + 4 <= self.bytes.len() {
            ArgumentBufferView {
                bytes: overwrite(self.bytes, self.type_holes[0].0 as int, u32_be_bytes(oid as int)),
                type_holes: self.type_holes.skip(1),
                ..self
            }
        } else {
            self
        }
    }
}

/// The patches as plain values.
pub open spec fn patches_view(patches: Seq<(usize, usize, PgPatch)>) -> Seq<(nat, nat, PgPatch)> {
    Seq::new(patches.len(), |i: int| (patches[i].0 as nat, patches[i].1 as nat, patches[i].2))
}

/// The places that wait for an identifier, as plain values.
pub open spec fn holes_view(holes: Seq<(usize, String)>) -> Seq<(nat, Seq<char>)> {
    Seq::new(holes.len(), |i: int| (holes[i].0 as nat, holes[i].1@))
}

/// The buffer that arguments are encoded into.
pub struct PgArgumentBuffer {
    buffer: Vec<u8>,
    count: usize,
    patches: Vec<(usize, usize, PgPatch)>,
    type_holes: Vec<(usize, String)>,
}

impl View for PgArgumentBuffer {
    type V = ArgumentBufferView;

    closed spec fn view(&self) -> ArgumentBufferView {
        ArgumentBufferView {
            bytes: self.buffer@,
            count: self.count as nat,
            patches: patches_view(self.patches@),
            type_holes: holes_view(self.type_holes@),
        }
    }
}

impl PgArgumentBuffer {
    /// An empty buffer.
    pub fn new() -> (r: Self)
        ensures
            r@.bytes.len() == 0,
            r@.count == 0,
            r@.patches.len() == 0,
            r@.type_holes.len() == 0,
            r@.wf(),
    {
        PgArgumentBuffer {
            buffer: Vec::new(),
            count: 0,
            patches: Vec::new(),
            type_holes: Vec::new(),
        }
    }

    /// The number of bytes written so far.
    pub fn len(&self) -> (r: usize)
        ensures
            r == self@.bytes.len(),
    {
        self.buffer.len()
    }

    /// Whether nothing was written yet.
    pub fn is_empty(&self) -> (r: bool)
        ensures
            r == (self@.bytes.len() == 0),
    {
        self.buffer.len() == 0
    }

    /// The bytes written so far.
    pub fn as_slice(&self) -> (r: &[u8])
        ensures
            r@ == self@.bytes,
    {
        self.buffer.as_slice()
    }

    /// The name that the place at `index` waits for, and its offset.
    pub fn type_hole(&self, index: usize) -> (r: Option<(usize, &str)>)
        ensures
            index < self@.type_holes.len() ==> (r matches Some((offset, name)) && offset
                == self@.type_holes[index as int].0 && name@ == self@.type_holes[index as int].1),
            index >= self@.type_holes.len() ==> r is None,
    {
        if index < self.type_holes.len() {
            Some((self.type_holes[index].0, self.type_holes[index].1.as_str()))
        } else {
            None
        }
    }

    /// Appends one byte.
    pub fn push(&mut self, byte: u8)
        ensures
            final(self)@ == old(self)@.extend(seq![byte]),
            final(self)@.extends(old(self)@),
    {
        self.buffer.push(byte);
        assert(self.buffer@ =~= old(self).buffer@ + seq![byte]);
    }

    /// Appends bytes.
    pub fn extend(&mut self, bytes: &[u8])
        ensures
            final(self)@ == old(self)@.extend(bytes@),
            final(self)@.extends(old(self)@),
    {
        self.buffer.extend_from_slice(bytes);
        assert(self.buffer@ =~= old(self).buffer@ + bytes@);
    }

    /// Appends the four bytes of `v`, most significant byte first.
    pub fn put_u32(&mut self, v: u32)
        ensures
            final(self)@ == old(self)@.extend(u32_be_bytes(v as int)),
            final(self)@.extends(old(self)@),
    {
        put_u32(&mut self.buffer, v);
    }

    /// Appends the eight bytes of `v`, most significant byte first.
    pub fn put_u64(&mut self, v: u64)
        ensures
            final(self)@ == old(self)@.extend(u64_be_bytes(v as int)),
            final(self)@.extends(old(self)@),
    {
        put_u64(&mut self.buffer, v);
    }

    /// Appends the two bytes of `v` in two's complement.
    pub fn put_i16(&mut self, v: i16)
        ensures
            final(self)@ == old(self)@.extend(i16_be_bytes(v)),
            final(self)@.extends(old(self)@),
    {
        put_i16(&mut self.buffer, v);
    }

    /// Appends the four bytes of `v` in two's complement.
    pub fn put_i32(&mut self, v: i32)
        ensures
            final(self)@ == old(self)@.extend(i32_be_bytes(v)),
            final(self)@.extends(old(self)@),
    {
        put_i32(&mut self.buffer, v);
    }

    /// Appends the eight bytes of `v` in two's complement.
    pub fn put_i64(&mut self, v: i64)
        ensures
            final(self)@ == old(self)@.extend(i64_be_bytes(v)),
            final(self)@.extends(old(self)@),
    {
        put_i64(&mut self.buffer, v);
    }

    /// Writes the four bytes of `v` over those at `at`.
    pub fn set_u32(&mut self, at: usize, v: u32)
        requires
            at + 4 <= old(self)@.bytes.len(),
        ensures
            final(self)@ == (ArgumentBufferView {
                bytes: overwrite(old(self)@.bytes, at as int, u32_be_bytes(v as int)),
                ..old(self)@
            }),
            old(self)@.wf() ==> final(self)@.wf(),
    {
        set_u32(&mut self.buffer, at, v);
        assert(self@.bytes.len() == old(self)@.bytes.len());
    }

    /// Records that `patch` applies to the byte that is written next, for
    /// the argument that is being encoded.
    pub fn patch(&mut self, patch: PgPatch)
        ensures
            final(self)@ == old(self)@.with_patch(patch),
            final(self)@.extends(old(self)@),
    {
        let offset: usize = self.buffer.len();
        let ghost before = patches_view(self.patches@);
        self.patches.push((offset, self.count, patch));
        assert(patches_view(self.patches@) =~= before.push((offset as nat, self.count as nat, patch)));
        assert(before.is_prefix_of(before.push((offset as nat, self.count as nat, patch))));
        assert(self@.bytes == old(self)@.bytes);
        assert(self@.type_holes == old(self)@.type_holes);
        assert(old(self)@.bytes.is_prefix_of(self@.bytes));
        assert(old(self)@.type_holes.is_prefix_of(self@.type_holes));
    }

    /// Leaves room for the identifier of the type called `name`, which is
    /// filled in when the statement is executed.
    pub fn patch_type_by_name(&mut self, name: &str)
        ensures
            final(self)@ == old(self)@.with_type_hole(name@),
            final(self)@.extends(old(self)@),
    {
        let offset: usize = self.buffer.len();
        put_u32(&mut self.buffer, 0);
        let ghost before = holes_view(self.type_holes@);
        self.type_holes.push((offset, name.to_owned()));
        assert(holes_view(self.type_holes@) =~= before.push((offset as nat, name@)));
        assert(old(self)@.wf() ==> self@.wf()) by {
            if old(self)@.wf() {
                assert forall|i: int| 0 <= i < self@.type_holes.len() implies (
                #[trigger] self@.type_holes[i]).0 + 4 <= self@.bytes.len() by {
                    if i < before.len() {
                        assert(self@.type_holes[i] == old(self)@.type_holes[i]);
                    }
                }
            }
        }
    }

    /// Appends `value` as an element: the length of its encoding in four
    /// bytes, -1 for NULL, then the encoding.
    pub fn encode<T: Encode>(&mut self, value: T)
        ensures
            final(self)@ == old(self)@.with_value(value),
            final(self)@.extends(old(self)@),
    {
        let offset: usize = self.buffer.len();
        self.extend(&[0u8, 0u8, 0u8, 0u8]);
        let ghost start = self@;
        assert(start == old(self)@.extend(seq![0u8, 0u8, 0u8, 0u8]));
        let is_null = value.encode_by_ref(self);
        let len: i32 = match is_null {
            IsNull::No => {
                #[verifier::truncate]
                ((self.buffer.len() - offset - 4) as i32)
            },
            IsNull::Yes => -1i32,
        };
        set_i32(&mut self.buffer, offset, len);
        proof {
            assert(old(self)@.bytes.is_prefix_of(self@.bytes));
        }
    }

    /// Applies the patches, now that the types of the parameters are known,
    /// and forgets them. Each patch looks at the type of the parameter that
    /// its argument was encoded for.
    pub fn apply_patches(&mut self, parameters: &Vec<PgTypeInfo>)
        ensures
            final(self)@ == old(self)@.patched(parameters_view(parameters@)),
            old(self)@.wf() ==> final(self)@.wf(),
    {
        let ghost params = parameters_view(parameters@);
        let ghost patches = patches_view(self.patches@);
        let mut i: usize = 0;
        while i < self.patches.len()
            invariant
                i <= self.patches.len(),
                params == parameters_view(parameters@),
                patches == patches_view(self.patches@),
                self.patches == old(self).patches,
                self.type_holes == old(self).type_holes,
                self.count == old(self).count,
                self.buffer@.len() == old(self).buffer@.len(),
                self.buffer@ == apply_patches(old(self).buffer@, patches.take(i as int), params),
            decreases self.patches.len() - i,
        {
            let offset: usize = self.patches[i].0;
            let index: usize = self.patches[i].1;
            proof {
                assert(patches.take(i + 1).drop_last() =~= patches.take(i as int));
            }
            if offset < self.buffer.len() && index < parameters.len() {
                let oid: u32 = parameters[index].oid.0;
                if oid == PgBuiltinType::Json.oid().0 || oid == PgBuiltinType::JsonArray.oid().0 {
                    self.buffer.set(offset, 0x20u8);
                }
            }
            i = i + 1;
        }
        assert(patches.take(i as int) =~= patches);
        self.patches = Vec::new();
        assert(patches_view(self.patches@) =~= Seq::empty());
    }

    /// Writes the identifier that was found for the name of the first place
    /// that waits for one, and forgets the place.
    pub fn fill_type_hole(&mut self, oid: Oid)
        ensures
            final(self)@ == old(self)@.with_hole_filled(oid.0),
            old(self)@.wf() ==> final(self)@.wf(),
    {
        if self.type_holes.len() == 0 {
            return ;
        }
        let offset: usize = self.type_holes[0].0;
        if offset > self.buffer.len() || self.buffer.len() - offset < 4 {
            return ;
        }
        set_u32(&mut self.buffer, offset, oid.0);
        let ghost before = holes_view(self.type_holes@);
        self.type_holes.remove(0);
        proof {
            assert(holes_view(self.type_holes@) =~= before.skip(1));
            if old(self)@.wf() {
                assert forall|i: int| 0 <= i < self@.type_holes.len() implies (
                #[trigger] self@.type_holes[i]).0 + 4 <= self@.bytes.len() by {}
            }
        }
    }
}

/// The types of the parameters as plain values.
pub open spec fn parameters_view(parameters: Seq<PgTypeInfo>) -> Seq<TypeInfoView> {
    Seq::new(parameters.len(), |i: int| parameters[i]@)
}

/// The types that arguments were sent as, as plain values.
pub open spec fn lazy_types_view(types: Seq<LazyPgTypeInfo>) -> Seq<LazyTypeInfoView> {
    Seq::new(types.len(), |i: int| types[i]@)
}

/// The arguments of a statement: the type that each was sent as, and the
/// buffer that they are encoded into.
pub struct PgArguments {
    types: Vec<LazyPgTypeInfo>,
    buffer: PgArgumentBuffer,
}

/// The arguments as plain values.
pub struct ArgumentsView {
    pub types: Seq<LazyTypeInfoView>,
    pub buffer: ArgumentBufferView,
}

impl View for PgArguments {
    type V = ArgumentsView;

    closed spec fn view(&self) -> ArgumentsView {
        ArgumentsView { types: lazy_types_view(self.types@), buffer: self.buffer@ }
    }
}

impl ArgumentsView {
    /// The buffer has counted every argument.
    pub open spec fn wf(self) -> bool {
        self.buffer.count == self.types.len()
    }

    /// The arguments with `value` added: its type is noted, and the value
    /// is appended to the buffer as an element.
    pub open spec fn with_argument<T: Encode>(self, value: T) -> ArgumentsView {
        ArgumentsView {
            types: self.types.push(T::spec_type_info()),
            buffer: self.buffer.with_value(value).with_count(self.buffer.count + 1),
        }
    }
}

impl PgArguments {
    /// No arguments.
    pub fn new() -> (r: Self)
        ensures
            r@.wf(),
            r@.types.len() == 0,
            r@.buffer.bytes.len() == 0,
            r@.buffer.count == 0,
            r@.buffer.patches.len() == 0,
            r@.buffer.type_holes.len() == 0,
    {
        PgArguments { types: Vec::new(), buffer: PgArgumentBuffer::new() }
    }

    /// The number of arguments.
    pub fn len(&self) -> (r: usize)
        ensures
            r == self@.types.len(),
    {
        self.types.len()
    }

    /// The buffer with the encoded arguments.
    pub fn buffer(&self) -> (r: &PgArgumentBuffer)
        ensures
            r@ == self@.buffer,
    {
        &self.buffer
    }

    /// Adds an argument.
    pub fn add<T: Encode>(&mut self, value: T)
        requires
            old(self)@.wf(),
        ensures
            final(self)@ == old(self)@.with_argument(value),
            final(self)@.wf(),
    {
        let ghost before = lazy_types_view(self.types@);
        self.types.push(T::type_info());
        assert(lazy_types_view(self.types@) =~= before.push(T::spec_type_info()));
        self.buffer.encode(value);
        assert(self.buffer.count < self.types.len());
        self.buffer.count = self.buffer.count + 1;
    }
}

} // verus!
