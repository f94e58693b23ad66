//! Fixed-size arrays that live in memory owned by a graphics backend.
//!
//! A [`Buffer`] knows how many elements it holds and of which type. The
//! storage itself belongs to a backend, which is any type that implements
//! [`HasBuffer`] for the element type.
//!
//! What reading and writing mean is said once, over sequences, by
//! [`read_at`], [`write_at`] and [`write_all`]. A backend promises that its
//! storage behaves like that, and the laws at the end of this file follow.

use core::marker::PhantomData;
use core::ops::Index;
use vstd::layout::size_of;
use vstd::pervasive::cloned;
use vstd::prelude::*;

verus! {

/// Buffer errors.
#[derive(Debug, PartialEq, Eq, Structural)]
pub enum BufferError {
    /// An offset does not lie in the allocated region.
    Overflow,
    /// A bulk write holds more values than the buffer has room for.
    TooManyValues,
}

/// What a read at `offset` gives: the element there, or nothing if the
/// offset lies outside the stored elements.
pub open spec fn read_at<'a, T>(stored: Seq<T>, offset: int) -> Option<&'a T> {
    if 0 <= offset < stored.len() {
        Some(&stored[offset])
    } else {
        None
    }
}

/// What a write of `x` at `offset` gives: the stored elements with `x` at
/// that offset, or [`BufferError::Overflow`] if the offset lies outside
/// them.
pub open spec fn write_at<T>(stored: Seq<T>, x: T, offset: nat) -> Result<Seq<T>, BufferError> {
    if offset < stored.len() {
        Ok(stored.update(offset as int, x))
    } else {
        Err(BufferError::Overflow)
    }
}

/// What a bulk write of `values` gives: the values, followed by the stored
/// elements that lay behind them, or [`BufferError::TooManyValues`] if
/// there are more values than stored elements.
pub open spec fn write_all<T>(stored: Seq<T>, values: Seq<T>) -> Result<Seq<T>, BufferError> {
    if values.len() <= stored.len() {
        Ok(values + stored.skip(values.len() as int))
    } else {
        Err(BufferError::TooManyValues)
    }
}

/// Whether a write that should give `outcome` went as it should: on success
/// the storage holds the new elements, and on failure the error is the one
/// that was due and the storage still holds the elements from before.
pub open spec fn write_went<T>(
    outcome: Result<Seq<T>, BufferError>,
    before: Seq<T>,
    after: Seq<T>,
    written: Result<(), BufferError>,
) -> bool {
    match outcome {
        Ok(stored) => written is Ok && after == stored,
        Err(error) => written == Err::<(), BufferError>(error) && after == before,
    }
}

/// Implement this trait to provide buffers of `T`.
///
/// The contracts are what [`Buffer`] relies on. An implementation proves them
/// of its own storage. Offsets and lengths count elements, not bytes.
pub trait HasBuffer<T> {
    /// Minimal information to operate on a buffer: a handle, a pointer, a
    /// region of host memory.
    type ABuffer;

    /// The elements that the buffer holds, in order.
    spec fn elements(buffer: &Self::ABuffer) -> Seq<T>;

    /// The number of bytes that the buffer was created with.
    spec fn byte_size(buffer: &Self::ABuffer) -> nat;

    /// Create a new buffer of `size` bytes. It holds as many elements as fit
    /// in that many bytes.
    fn new(size: usize) -> (buffer: Self::ABuffer)
        ensures
            Self::byte_size(&buffer) == size,
            size_of::<T>() > 0 ==> Self::elements(&buffer).len() == size as int / size_of::<T>() as int,
    ;

    /// Write values into the buffer, from its start on. Elements behind the
    /// last value keep what they held.
    ///
    /// # Failures
    ///
    /// `Err(BufferError::TooManyValues)` if there are more values than the
    /// buffer has elements. Nothing is written then.
    fn write_whole(buffer: &mut Self::ABuffer, values: &Vec<T>) -> (written: Result<
        (),
        BufferError,
    >)
        ensures
            write_went(
                write_all(Self::elements(old(buffer)), values@),
                Self::elements(old(buffer)),
                Self::elements(final(buffer)),
                written,
            ),
            Self::byte_size(final(buffer)) == Self::byte_size(old(buffer)),
    ;

    /// Write a single value in the buffer at a given offset.
    ///
    /// # Failures
    ///
    /// `Err(BufferError::Overflow)` if the offset does not lie in the
    /// allocated region. Nothing is written then.
    fn write(buffer: &mut Self::ABuffer, x: T, offset: usize) -> (written: Result<(), BufferError>)
        ensures
            write_went(
                write_at(Self::elements(old(buffer)), x, offset as nat),
                Self::elements(old(buffer)),
                Self::elements(final(buffer)),
                written,
            ),
            Self::byte_size(final(buffer)) == Self::byte_size(old(buffer)),
    ;

    /// Read all values from the buffer.
    fn read_whole(buffer: &Self::ABuffer) -> (values: Vec<T>)
        ensures
            values@ == Self::elements(buffer),
    ;

    /// Read a single value from the buffer at a given offset.
    ///
    /// # Failures
    ///
    /// `None` if the offset does not lie in the allocated region.
    fn read(buffer: &Self::ABuffer, offset: usize) -> (value: Option<&T>)
        ensures
            value == read_at(Self::elements(buffer), offset as int),
    ;
}

/// A `Buffer` is a region of backend memory that can be pictured as an array.
/// Its size is fixed when it is made, and is counted in elements, not in
/// bytes.
pub struct Buffer<C: HasBuffer<T>, A, T> {
    repr: C::ABuffer,
    size: u32,
    _a: PhantomData<A>,
    _t: PhantomData<T>,
}

impl<C: HasBuffer<T>, A, T> View for Buffer<C, A, T> {
    type V = Seq<T>;

    /// The elements that the storage of the buffer holds, in order.
    closed spec fn view(&self) -> Seq<T> {
        C::elements(&self.repr)
    }
}

impl<C: HasBuffer<T>, A, T> Buffer<C, A, T> {
    /// The size that the buffer was made with, in elements.
    pub closed spec fn count(&self) -> nat {
        self.size as nat
    }

    /// The number of bytes of backend storage that the buffer was made with.
    pub closed spec fn byte_size(&self) -> nat {
        C::byte_size(&self.repr)
    }

    /// The storage holds as many elements as the buffer was made with. A
    /// backend is told bytes only, so this is known of every buffer whose
    /// elements have a size, and of no other.
    pub closed spec fn well_formed(&self) -> bool {
        self.size as nat == C::elements(&self.repr).len()
    }

    /// Create a buffer of `size` elements. The backend is asked once, for
    /// `size` times the byte size of an element.
    ///
    /// The number of bytes asked for must be one that the machine can count
    /// to.
    pub fn new(_marker: A, size: u32) -> (buffer: Self)
        requires
            size * size_of::<T>() <= usize::MAX,
        ensures
            buffer.count() == size,
            buffer.byte_size() == size * size_of::<T>(),
            size_of::<T>() > 0 ==> buffer.well_formed() && buffer@.len() == size,
    {
        let bytes: usize = size as usize * core::mem::size_of::<T>();
        proof {
            if size_of::<T>() > 0 {
                assert((size as int * size_of::<T>() as int) / (size_of::<T>() as int)
                    == size as int) by (nonlinear_arith)
                    requires
                        size_of::<T>() > 0,
                ;
            }
        }
        let repr = C::new(bytes);
        Buffer { repr, size, _a: PhantomData, _t: PhantomData }
    }

    /// The size that the buffer was made with, in elements.
    pub fn size(&self) -> (size: u32)
        ensures
            size == self.count(),
            self.well_formed() ==> size == self@.len(),
    {
        self.size
    }

    /// The element at index `i`, or `None` if the buffer has no such element.
    pub fn get(&self, i: u32) -> (value: Option<&T>)
        ensures
            value == read_at(self@, i as int),
    {
        C::read(&self.repr, i as usize)
    }
}

impl<C: HasBuffer<T>, A, T: Clone> Buffer<C, A, T> {
    /// Fill the buffer with a single value: one bulk write of as many clones
    /// of `x` as the buffer was made with elements.
    pub fn clear(&mut self, x: T)
        ensures
            final(self).count() == old(self).count(),
            final(self).byte_size() == old(self).byte_size(),
            final(self)@.len() == old(self)@.len(),
            old(self).well_formed() ==> final(self).well_formed(),
            old(self).well_formed() ==> forall|i: int|
                0 <= i < final(self)@.len() ==> cloned(x, #[trigger] final(self)@[i]),
    {
        let values = vec![x; self.size as usize];
        let _ = C::write_whole(&mut self.repr, &values);
        proof {
            if old(self).well_formed() {
                assert(self@ =~= values@);
            }
        }
    }
}

impl<C: HasBuffer<T>, A, T> Index<u32> for Buffer<C, A, T> {
    type Output = T;

    /// The element at index `i` of a buffer that has one.
    fn index(&self, i: u32) -> (value: &T)
        ensures
            *value == self@[i as int],
    {
        self.get(i).unwrap()
    }
}

impl<C: HasBuffer<T>, A, T> vstd::std_specs::core::IndexSpecImpl<u32> for Buffer<C, A, T> {
    /// Indexing is for the indices that the buffer has.
    open spec fn index_req(&self, index: &u32) -> bool {
        *index < self@.len()
    }
}

/// A read gives a value at every offset below the number of stored elements
/// and nothing at every other offset.
pub proof fn read_law<T>(stored: Seq<T>, offset: nat)
    ensures
        offset < stored.len() ==> read_at(stored, offset as int) == Some(&stored[offset as int]),
        offset >= stored.len() ==> read_at(stored, offset as int) is None,
{
}

/// A write fails, with `Overflow`, exactly when the offset is not below the
/// number of stored elements. Otherwise a read at that offset gives the
/// value written, a read at any other offset gives what it gave before, and
/// there are as many elements as before.
pub proof fn write_law<T>(stored: Seq<T>, x: T, offset: nat)
    ensures
        write_at(stored, x, offset) is Err <==> offset >= stored.len(),
        write_at(stored, x, offset) matches Err(error) ==> error == BufferError::Overflow,
        write_at(stored, x, offset) matches Ok(after) ==> {
            &&& after.len() == stored.len()
            &&& read_at(after, offset as int) == Some(&x)
            &&& forall|other: int| other != offset ==> read_at(after, other) == read_at(stored, other)
        },
{
}

/// A bulk write fails, with `TooManyValues`, exactly when there are more
/// values than stored elements. Otherwise the elements read back start with
/// the values, go on with what was stored behind them before, and are as
/// many as before. So a bulk write of as many values as there are elements
/// leaves the values and nothing else.
pub proof fn write_whole_law<T>(stored: Seq<T>, values: Seq<T>)
    ensures
        write_all(stored, values) is Err <==> values.len() > stored.len(),
        write_all(stored, values) matches Err(error) ==> error == BufferError::TooManyValues,
        write_all(stored, values) matches Ok(after) ==> {
            &&& after.len() == stored.len()
            &&& after.take(values.len() as int) == values
            &&& after.skip(values.len() as int) == stored.skip(values.len() as int)
            &&& values.len() == stored.len() ==> after == values
        },
{
    if values.len() <= stored.len() {
        let after = values + stored.skip(values.len() as int);
        assert(after.take(values.len() as int) =~= values);
        assert(after.skip(values.len() as int) =~= stored.skip(values.len() as int));
        if values.len() == stored.len() {
            assert(after =~= values);
        }
    }
}

} // verus!
