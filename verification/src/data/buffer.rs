//! A growable sequence of elements with a padded mirror of its bytes, from
//! which the buffer on the GPU is filled.

use std::marker::PhantomData;
use vstd::prelude::*;
use vstd::arithmetic::power2::{lemma2_to64, lemma_pow2_adds, lemma_pow2_unfold, pow2};
use crate::util::{round_up, round_up_to_alignment, row_alignment};

verus! {

/// `n` zero bytes.
pub open spec fn zeros(n: int) -> Seq<u8> {
    Seq::new(n as nat, |i: int| 0u8)
}

/// The capacity of the mirror of a buffer that starts with `len` bytes of
/// content: the content padded to the copy alignment, and one unit of it for
/// no content, so that doubling makes it grow.
pub open spec fn initial_capacity(len: int) -> int {
    if len == 0 {
        row_alignment()
    } else {
        round_up(len, row_alignment())
    }
}

/// The capacity that a mirror of `capacity` bytes has after it took `need`
/// bytes of content: doubled, and padded to the copy alignment, until the
/// content fits.
pub open spec fn grown(capacity: int, need: int) -> int
    decreases
        (if need > capacity {
            need - capacity
        } else {
            0
        }),
{
    if capacity <= 0 || need <= capacity {
        capacity
    } else {
        proof {
            assert(round_up(2 * capacity, 256) >= 2 * capacity);
        }
        grown(round_up(2 * capacity, row_alignment()), need)
    }
}

/// The mirror of the content `bytes` at `capacity`: the content, then zeros.
pub open spec fn mirror_of(bytes: Seq<u8>, capacity: int) -> Seq<u8> {
    bytes + zeros(capacity - bytes.len())
}

/// How the buffer on the GPU is brought up to date.
#[derive(Debug, Clone, Copy, PartialEq, Eq, Structural)]
pub enum Upload {
    /// The buffer is too small: one of `size` bytes takes its place, filled
    /// from the mirror.
    Recreate { size: usize },
    /// The buffer is large enough: the `len` bytes of the mirror are written
    /// to its start.
    Write { len: usize },
}

/// The upload that brings a buffer of `capacity` bytes up to date with
/// `need` bytes of content.
pub open spec fn upload_for(capacity: int, need: int) -> Upload {
    if need > capacity {
        Upload::Recreate { size: grown(capacity, need) as usize }
    } else {
        Upload::Write { len: capacity as usize }
    }
}

/// A mirror never shrinks; it grows to hold the content, stays padded, is a
/// power of two times what it was, and is less than twice the content where
/// it grew.
pub proof fn lemma_growth(capacity: int, need: int)
    requires
        capacity > 0,
        capacity % row_alignment() == 0,
    ensures
        grown(capacity, need) >= capacity,
        grown(capacity, need) >= need,
        grown(capacity, need) % row_alignment() == 0,
        exists|k: nat| grown(capacity, need) == #[trigger] pow2(k) * capacity,
        grown(capacity, need) > capacity ==> grown(capacity, need) < 2 * need,
    decreases
        (if need > capacity {
            need - capacity
        } else {
            0
        }),
{
    if need <= capacity {
        assert(pow2(0) == 1) by {
            lemma2_to64();
        }
        assert(grown(capacity, need) == pow2(0) * capacity);
    } else {
        let doubled = round_up(2 * capacity, row_alignment());
        assert(doubled == 2 * capacity);
        assert(doubled % row_alignment() == 0);
        lemma_growth(doubled, need);
        let k = choose|k: nat| grown(doubled, need) == #[trigger] pow2(k) * doubled;
        lemma_pow2_unfold(k + 1);
        assert(pow2(k + 1) * capacity == pow2(k) * (2 * capacity)) by (nonlinear_arith)
            requires
                pow2(k + 1) == 2 * pow2(k),
        ;
        assert(grown(capacity, need) == pow2(k + 1) * capacity);
    }
}

/// The capacity of a mirror of `capacity` bytes after it took content of
/// `needs[0]` bytes, then of `needs[1]`, and so on.
pub open spec fn grown_over(capacity: int, needs: Seq<int>) -> int
    decreases needs.len(),
{
    if needs.len() == 0 {
        capacity
    } else {
        grown(grown_over(capacity, needs.drop_last()), needs.last())
    }
}

/// However often a buffer is brought up to date, and with whatever content,
/// its mirror is a power of two times what it was at first, stays padded, and
/// holds the last content.
pub proof fn lemma_growth_over_updates(capacity: int, needs: Seq<int>)
    requires
        capacity > 0,
        capacity % row_alignment() == 0,
    ensures
        grown_over(capacity, needs) >= capacity,
        grown_over(capacity, needs) % row_alignment() == 0,
        exists|k: nat| grown_over(capacity, needs) == #[trigger] pow2(k) * capacity,
        needs.len() > 0 ==> grown_over(capacity, needs) >= needs.last(),
    decreases needs.len(),
{
    if needs.len() == 0 {
        assert(pow2(0) == 1) by {
            lemma2_to64();
        }
        assert(grown_over(capacity, needs) == pow2(0) * capacity);
    } else {
        let before = grown_over(capacity, needs.drop_last());
        lemma_growth_over_updates(capacity, needs.drop_last());
        lemma_growth(before, needs.last());
        let j = choose|j: nat| before == #[trigger] pow2(j) * capacity;
        let k = choose|k: nat| grown(before, needs.last()) == #[trigger] pow2(k) * before;
        lemma_pow2_adds(k, j);
        assert(pow2(k) * (pow2(j) * capacity) == (pow2(k) * pow2(j)) * capacity)
            by (nonlinear_arith);
        assert(grown_over(capacity, needs) == pow2(k + j) * capacity);
    }
}

/// Bringing a buffer up to date twice with the same content is bringing it
/// up to date once: the second time nothing grows, the mirror stays as it is,
/// and the buffer on the GPU is written with what it holds already.
pub proof fn lemma_update_is_idempotent(capacity: int, bytes: Seq<u8>)
    requires
        capacity > 0,
        capacity % row_alignment() == 0,
    ensures
        ({
            let once = grown(capacity, bytes.len() as int);
            let twice = grown(once, bytes.len() as int);
            &&& twice == once
            &&& mirror_of(bytes, twice) == mirror_of(bytes, once)
            &&& upload_for(once, bytes.len() as int) == (Upload::Write { len: once as usize })
        }),
{
    lemma_growth(capacity, bytes.len() as int);
}

/// The bytes of `indices`, two for each, low byte first.
pub open spec fn le_bytes(indices: Seq<u16>) -> Seq<u8> {
    Seq::new(
        2 * indices.len(),
        |i: int|
            if i % 2 == 0 {
                (indices[i / 2] % 256) as u8
            } else {
                (indices[i / 2] / 256) as u8
            },
    )
}

/// The bytes of `indices`, two for each, high byte first.
pub open spec fn be_bytes(indices: Seq<u16>) -> Seq<u8> {
    Seq::new(
        2 * indices.len(),
        |i: int|
            if i % 2 == 0 {
                (indices[i / 2] / 256) as u8
            } else {
                (indices[i / 2] % 256) as u8
            },
    )
}

/// `bytemuck::cast_slice` from `u16` to `u8`, copied: the bytes of the
/// indices as they lie in memory, which is two for each in the byte order of
/// the machine. The cast to bytes cannot fail.
#[verifier::external_body]
fn cast_index_bytes(indices: &[u16]) -> (bytes: Vec<u8>)
    ensures
        bytes@ == le_bytes(indices@) || bytes@ == be_bytes(indices@),
{
    bytemuck::cast_slice::<u16, u8>(indices).to_vec()
}

/// Makes `raw` the mirror of `bytes` at `size`.
fn fill_mirror(raw: &mut Vec<u8>, bytes: &[u8], size: usize)
    requires
        bytes.len() <= size,
    ensures
        final(raw)@ == mirror_of(bytes@, size as int),
{
    raw.clear();
    raw.extend_from_slice(bytes);
    let ghost content = raw@;
    assert(content =~= bytes@);
    raw.resize(size, 0);
    assert(raw@.len() == size);
    assert forall|i: int| 0 <= i < size implies raw@[i] == mirror_of(bytes@, size as int)[i] by {
        if i < content.len() {
            assert(raw@.subrange(0, content.len() as int)[i] == content[i]);
        }
    }
    assert(raw@ =~= mirror_of(bytes@, size as int));
}

/// A sequence of elements that grows, with the padded mirror of its bytes.
///
/// The elements change freely; the mirror follows only when `update` is
/// called with their bytes, and tells then how the buffer on the GPU is to
/// follow in turn.
pub struct DynamicBuffer<T> {
    /// The elements.
    pub data: Vec<T>,
    /// The mirror: the bytes that the buffer on the GPU holds after the
    /// upload that the last `update` asked for.
    pub raw: Vec<u8>,
}

impl<T> DynamicBuffer<T> {
    /// The mirror is not empty and is padded to the copy alignment.
    pub open spec fn wf(&self) -> bool {
        &&& self.raw.len() > 0
        &&& self.raw.len() % 256 == 0
    }

    /// A buffer without elements.
    pub fn new() -> (buffer: Self)
        ensures
            buffer.data@.len() == 0,
            buffer.raw@ == zeros(initial_capacity(0)),
            buffer.wf(),
    {
        let size = round_up_to_alignment(1);
        let raw = vec![0u8; size];
        assert(raw@ =~= zeros(initial_capacity(0)));
        Self { data: Vec::new(), raw }
    }

    /// A buffer of the elements `data`, whose bytes are `bytes`.
    pub fn from_data(data: Vec<T>, bytes: &[u8]) -> (buffer: Self)
        requires
            bytes.len() <= isize::MAX,
        ensures
            buffer.data@ == data@,
            buffer.raw@ == mirror_of(bytes@, initial_capacity(bytes.len() as int)),
            buffer.wf(),
    {
        let size = if bytes.len() == 0 {
            round_up_to_alignment(1)
        } else {
            round_up_to_alignment(bytes.len())
        };
        let mut raw: Vec<u8> = Vec::new();
        fill_mirror(&mut raw, bytes, size);
        Self { data, raw }
    }

    /// Brings the mirror up to date with `bytes`, the bytes of the elements,
    /// and tells how the buffer on the GPU follows.
    ///
    /// The mirror grows where the bytes do not fit, and never shrinks; it
    /// holds the bytes and then zeros.
    pub fn update(&mut self, bytes: &[u8]) -> (upload: Upload)
        requires
            old(self).wf(),
            bytes.len() <= isize::MAX,
        ensures
            final(self).wf(),
            final(self).data@ == old(self).data@,
            final(self).raw@ == mirror_of(
                bytes@,
                grown(old(self).raw@.len() as int, bytes.len() as int),
            ),
            upload == upload_for(old(self).raw@.len() as int, bytes.len() as int),
    {
        let need = bytes.len();
        let capacity = self.raw.len();
        let mut size = capacity;
        while size < need
            invariant
                0 < size <= usize::MAX,
                size % 256 == 0,
                need <= isize::MAX,
                grown(size as int, need as int) == grown(capacity as int, need as int),
            decreases
                (if need > size {
                    need - size
                } else {
                    0
                }),
        {
            assert(round_up(2 * size, row_alignment()) == 2 * size);
            size = round_up_to_alignment(2 * size);
        }
        fill_mirror(&mut self.raw, bytes, size);
        if need > capacity {
            Upload::Recreate { size }
        } else {
            Upload::Write { len: size }
        }
    }

    /// The bytes that the mirror holds, content and padding.
    pub fn capacity(&self) -> (size: usize)
        ensures
            size == self.raw@.len(),
    {
        self.raw.len()
    }

    pub fn len(&self) -> (len: usize)
        ensures
            len == self.data@.len(),
    {
        self.data.len()
    }

    /// Adds `value` behind the elements. The mirror stays as it is.
    pub fn push(&mut self, value: T)
        ensures
            final(self).data@ == old(self).data@.push(value),
            final(self).raw@ == old(self).raw@,
    {
        self.data.push(value);
    }

    /// Adds `values` behind the elements. The mirror stays as it is.
    pub fn extend(&mut self, values: Vec<T>)
        ensures
            final(self).data@ == old(self).data@ + values@,
            final(self).raw@ == old(self).raw@,
    {
        let mut values = values;
        self.data.append(&mut values);
    }

    pub fn index(&self, index: usize) -> (element: &T)
        requires
            index < self.data@.len(),
        ensures
            *element == self.data@[index as int],
    {
        &self.data[index]
    }

    /// The element at `index`, to be changed. The mirror stays as it is.
    pub fn index_mut(&mut self, index: usize) -> (element: &mut T)
        requires
            index < old(self).data@.len(),
        ensures
            *element == old(self).data@[index as int],
            final(self).data@ == old(self).data@.update(index as int, *final(element)),
            final(self).raw@ == old(self).raw@,
    {
        &mut self.data[index]
    }
}

impl DynamicBuffer<u16> {
    /// Brings the mirror up to date with the indices, whose bytes are taken
    /// as they lie in memory.
    pub fn update_indices(&mut self) -> (upload: Upload)
        requires
            old(self).wf(),
            2 * old(self).data@.len() <= isize::MAX,
        ensures
            final(self).wf(),
            final(self).data@ == old(self).data@,
            ({
                let capacity = old(self).raw@.len() as int;
                let need = 2 * old(self).data@.len() as int;
                &&& upload == upload_for(capacity, need)
                &&& final(self).raw@ == mirror_of(le_bytes(old(self).data@), grown(capacity, need))
                    || final(self).raw@ == mirror_of(
                    be_bytes(old(self).data@),
                    grown(capacity, need),
                )
            }),
    {
        let bytes = cast_index_bytes(self.data.as_slice());
        self.update(bytes.as_slice())
    }
}

/// A buffer of elements `U` that is filled with values `T`, each converted
/// as it comes in.
pub struct MappedDynamicBuffer<T, U> {
    pub buf: DynamicBuffer<U>,
    pub _phan: PhantomData<T>,
}

impl<T, U: From<T>> MappedDynamicBuffer<T, U> {
    /// A buffer of the values `data`, converted one by one, whose bytes
    /// after the conversion are `bytes`.
    pub fn from_data(data: Vec<T>, bytes: &[u8]) -> (buffer: Self)
        requires
            bytes.len() <= isize::MAX,
        ensures
            buffer.buf.wf(),
            buffer.buf.raw@ == mirror_of(bytes@, initial_capacity(bytes.len() as int)),
            buffer.buf.data@.len() == data@.len(),
            <U as vstd::std_specs::convert::FromSpec<T>>::obeys_from_spec() ==> forall|i: int|
                0 <= i < data@.len() ==> buffer.buf.data@[i] == <U as vstd::std_specs::convert::FromSpec<
                    T,
                >>::from_spec(data@[i]),
    {
        let mut converted: Vec<U> = Vec::new();
        let ghost values = data@;
        for value in iter: data
            invariant
                iter.seq() == values,
                converted@.len() == iter.index(),
                <U as vstd::std_specs::convert::FromSpec<T>>::obeys_from_spec() ==> forall|i: int|
                    0 <= i < iter.index() ==> converted@[i] == <U as vstd::std_specs::convert::FromSpec<
                        T,
                    >>::from_spec(values[i]),
        {
            converted.push(U::from(value));
        }
        Self { buf: DynamicBuffer::from_data(converted, bytes), _phan: PhantomData }
    }

    /// Brings the mirror up to date with `bytes`, the bytes of the converted
    /// elements.
    pub fn update(&mut self, bytes: &[u8]) -> (upload: Upload)
        requires
            old(self).buf.wf(),
            bytes.len() <= isize::MAX,
        ensures
            final(self).buf.wf(),
            final(self).buf.data@ == old(self).buf.data@,
            final(self).buf.raw@ == mirror_of(
                bytes@,
                grown(old(self).buf.raw@.len() as int, bytes.len() as int),
            ),
            upload == upload_for(old(self).buf.raw@.len() as int, bytes.len() as int),
    {
        self.buf.update(bytes)
    }

    pub fn len(&self) -> (len: usize)
        ensures
            len == self.buf.data@.len(),
    {
        self.buf.len()
    }
}

} // verus!
