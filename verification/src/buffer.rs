//! Static typed arrays over driver-managed memory.
//!
//! A [`Buffer`] is a fixed-capacity region you can picture as an array: it
//! has a static size, expressed in number of elements, and cannot be
//! resized. All data operations bind the buffer's handle through the
//! [`GraphicsState`] tracker, map the region, transfer, and unmap — every
//! access pays one map/unmap round trip and the contract of each operation
//! says exactly what the contents are afterwards.
//!
//! A buffer can be erased to a [`RawBuffer`], which retains only the handle
//! and capacities. Erasure transfers ownership of the underlying resource:
//! the typed wrapper is consumed, and the resource is destroyed exactly once,
//! by whoever ends up holding the raw form. Reinterpreting a raw buffer
//! under a new element type is not offered here: it would be an unchecked
//! cast, so typed views come only from the typed wrapper itself.

use vstd::prelude::*;

use crate::state::AccessMode;
use crate::state::GraphicsState;

verus! {

/// Buffer errors.
#[derive(Clone, Copy, Debug, PartialEq, Eq, Structural)]
pub enum BufferError {
    /// Overflow when setting a value with a specific index.
    ///
    /// Contains the index and the size of the buffer.
    Overflow(usize, usize),
    /// Too few values were passed to fill a buffer.
    ///
    /// Contains the number of passed values and the size of the buffer.
    TooFewValues(usize, usize),
    /// Too many values were passed to fill a buffer.
    ///
    /// Contains the number of passed values and the size of the buffer.
    TooManyValues(usize, usize),
    /// Mapping the buffer failed.
    MapFailed,
}

/// Raw buffer: the type-erased form of a buffer. It keeps the handle and
/// the capacities but no longer knows the element type, so it offers no
/// data access — only ownership of the resource, released exactly once
/// through [`RawBuffer::dispose`].
pub struct RawBuffer {
    handle: u32,
    bytes: usize,
    len: usize,
}

impl RawBuffer {
    /// The driver handle of the underlying resource.
    pub closed spec fn handle(&self) -> u32 {
        self.handle
    }

    /// The capacity of the region, in bytes.
    pub closed spec fn byte_capacity(&self) -> usize {
        self.bytes
    }

    /// The capacity of the region, in elements of the type that created it.
    pub closed spec fn length(&self) -> usize {
        self.len
    }

    /// Destroy the underlying resource. Consumes the raw buffer, so each
    /// resource is destroyed at most once; the tracker's destruction
    /// counter advances by exactly one.
    pub fn dispose(self, st: &mut GraphicsState)
        requires
            old(st).wf(),
            old(st).live().contains(self.handle()),
            old(st).mapped() != Some(self.handle()),
        ensures
            final(st).wf(),
            final(st).live() == old(st).live().remove(self.handle()),
            final(st).destroyed() == old(st).destroyed() + 1,
            final(st).mapped() == old(st).mapped(),
            final(st).generated() == old(st).generated(),
            final(st).bound() == (if old(st).bound() == self.handle() {
                0u32
            } else {
                old(st).bound()
            }),
    {
        st.destroy_buffer(self.handle);
    }
}

/// A `Buffer` is a driver-managed region you can picture as an array. It
/// has a static size and cannot be resized. The size is expressed in number
/// of elements lying in the buffer — not in bytes.
pub struct Buffer<T> {
    raw: RawBuffer,
    data: Vec<T>,
}

impl<T> View for Buffer<T> {
    type V = Seq<T>;

    closed spec fn view(&self) -> Seq<T> {
        self.data@
    }
}

impl<T> Buffer<T> {
    /// The driver handle of the underlying resource.
    pub closed spec fn handle(&self) -> u32 {
        self.raw.handle
    }

    /// The capacity of the region, in bytes.
    pub closed spec fn byte_capacity(&self) -> usize {
        self.raw.bytes
    }

    /// Well-formedness: the contents match the fixed element count, the
    /// byte capacity is the element count times the element size, and the
    /// handle is a real one.
    pub closed spec fn wf(&self) -> bool {
        &&& self.data@.len() == self.raw.len
        &&& self.raw.bytes == vstd::layout::size_of::<T>() * self.raw.len
        &&& self.raw.handle != 0
    }

    /// A buffer is valid against a context when it is well-formed and its
    /// handle is still live there.
    pub open spec fn valid(&self, st: GraphicsState) -> bool {
        self.wf() && st.live().contains(self.handle())
    }

    /// Create a new `Buffer` with a given number of elements, each starting
    /// out as the element type's default value. `len == 0` is legal and
    /// produces a zero-capacity buffer.
    pub fn new(st: &mut GraphicsState, len: usize) -> (b: Buffer<T>) where
        T: Default + Copy,

        requires
            old(st).wf(),
            old(st).can_generate(),
            vstd::layout::size_of::<T>() * len <= usize::MAX,
        ensures
            final(st).wf(),
            b.wf(),
            b@.len() == len,
            forall|i: int, j: int| 0 <= i < len && 0 <= j < len ==> b@[i] == b@[j],
            !old(st).live().contains(b.handle()),
            final(st).live() == old(st).live().insert(b.handle()),
            final(st).generated() == old(st).generated() + 1,
            final(st).destroyed() == old(st).destroyed(),
            final(st).mapped() == old(st).mapped(),
            final(st).bound() == b.handle(),
    {
        let bytes: usize = core::mem::size_of::<T>() * len;
        let handle = st.generate_buffer();
        st.bind_array_buffer(handle);
        st.allocate_bound(bytes);

        let fill_value: T = T::default();
        let mut data: Vec<T> = Vec::new();
        while data.len() < len
            invariant
                data@.len() <= len,
                forall|k: int| 0 <= k < data@.len() ==> data@[k] == fill_value,
            decreases len - data@.len(),
        {
            data.push(fill_value);
        }

        Buffer { raw: RawBuffer { handle, bytes, len }, data }
    }

    /// Get the length of the buffer: the fixed element count.
    pub fn len(&self) -> (n: usize)
        requires
            self.wf(),
        ensures
            n == self@.len(),
    {
        self.raw.len
    }

    /// Retrieve an element from the `Buffer`.
    ///
    /// Checks boundaries: out-of-range indices yield `None`, in-range
    /// indices yield the element stored there.
    pub fn at(&self, st: &mut GraphicsState, i: usize) -> (r: Option<T>) where
        T: Copy,

        requires
            self.valid(*old(st)),
            old(st).wf(),
            old(st).mapped() is None,
        ensures
            r == (if i < self@.len() {
                Some(self@[i as int])
            } else {
                None::<T>
            }),
            final(st).wf(),
            final(st).mapped() is None,
            final(st).live() == old(st).live(),
            final(st).destroyed() == old(st).destroyed(),
            final(st).generated() == old(st).generated(),
    {
        if i >= self.raw.len {
            return None;
        }
        st.bind_array_buffer(self.raw.handle);
        st.map_buffer(AccessMode::ReadOnly);
        let x: T = self.data[i];
        st.unmap_buffer();
        Some(x)
    }

    /// Retrieve the whole content of the `Buffer`, in element order.
    pub fn whole(&self, st: &mut GraphicsState) -> (r: Vec<T>) where
        T: Copy,

        requires
            self.valid(*old(st)),
            old(st).wf(),
            old(st).mapped() is None,
        ensures
            r@ == self@,
            final(st).wf(),
            final(st).mapped() is None,
            final(st).live() == old(st).live(),
            final(st).destroyed() == old(st).destroyed(),
            final(st).generated() == old(st).generated(),
    {
        st.bind_array_buffer(self.raw.handle);
        st.map_buffer(AccessMode::ReadOnly);
        let mut out: Vec<T> = Vec::new();
        let mut i: usize = 0;
        while i < self.raw.len
            invariant
                i <= self.raw.len,
                self.wf(),
                out@.len() == i,
                forall|k: int| 0 <= k < i ==> out@[k] == self@[k],
            decreases self.raw.len - i,
        {
            out.push(self.data[i]);
            i = i + 1;
        }
        st.unmap_buffer();
        proof {
            assert(out@ =~= self@);
        }
        out
    }

    /// Set a value at a given index in the `Buffer`.
    ///
    /// Checks boundaries: an out-of-range index yields
    /// `BufferError::Overflow` carrying the index and the buffer's size,
    /// and leaves the contents untouched; otherwise exactly that element is
    /// replaced.
    pub fn set(&mut self, st: &mut GraphicsState, i: usize, x: T) -> (r: Result<
        (),
        BufferError,
    >) where
        T: Copy,

        requires
            old(self).valid(*old(st)),
            old(st).wf(),
            old(st).mapped() is None,
        ensures
            final(self).wf(),
            final(self).handle() == old(self).handle(),
            final(self)@.len() == old(self)@.len(),
            i < old(self)@.len() ==> {
                &&& r == Ok::<(), BufferError>(())
                &&& final(self)@ == old(self)@.update(i as int, x)
            },
            i >= old(self)@.len() ==> {
                &&& r == Err::<(), BufferError>(
                    BufferError::Overflow(i, old(self)@.len() as usize),
                )
                &&& final(self)@ == old(self)@
            },
            final(st).wf(),
            final(st).mapped() is None,
            final(st).live() == old(st).live(),
            final(st).destroyed() == old(st).destroyed(),
            final(st).generated() == old(st).generated(),
    {
        if i >= self.raw.len {
            return Err(BufferError::Overflow(i, self.raw.len));
        }
        st.bind_array_buffer(self.raw.handle);
        st.map_buffer(AccessMode::WriteOnly);
        self.data[i] = x;
        st.unmap_buffer();
        Ok(())
    }

    /// Write a whole slice into a buffer.
    ///
    /// The slice must hold exactly as many values as the buffer's length:
    /// fewer yields `BufferError::TooFewValues`, more yields
    /// `BufferError::TooManyValues`, each carrying the given and expected
    /// counts. On any error nothing is written; on success the entire
    /// contents are replaced in one transfer.
    pub fn write_whole(&mut self, st: &mut GraphicsState, values: &[T]) -> (r: Result<
        (),
        BufferError,
    >) where
        T: Copy,

        requires
            old(self).valid(*old(st)),
            old(st).wf(),
            old(st).mapped() is None,
        ensures
            final(self).wf(),
            final(self).handle() == old(self).handle(),
            final(self)@.len() == old(self)@.len(),
            values@.len() < old(self)@.len() ==> {
                &&& r == Err::<(), BufferError>(
                    BufferError::TooFewValues(values@.len() as usize, old(self)@.len() as usize),
                )
                &&& final(self)@ == old(self)@
            },
            values@.len() > old(self)@.len() ==> {
                &&& r == Err::<(), BufferError>(
                    BufferError::TooManyValues(values@.len() as usize, old(self)@.len() as usize),
                )
                &&& final(self)@ == old(self)@
            },
            values@.len() == old(self)@.len() ==> {
                &&& r == Ok::<(), BufferError>(())
                &&& final(self)@ == values@
            },
            final(st).wf(),
            final(st).mapped() is None,
            final(st).live() == old(st).live(),
            final(st).destroyed() == old(st).destroyed(),
            final(st).generated() == old(st).generated(),
    {
        let n = values.len();
        if n < self.raw.len {
            return Err(BufferError::TooFewValues(n, self.raw.len));
        }
        if n > self.raw.len {
            return Err(BufferError::TooManyValues(n, self.raw.len));
        }
        st.bind_array_buffer(self.raw.handle);
        st.map_buffer(AccessMode::WriteOnly);
        let mut i: usize = 0;
        while i < n
            invariant
                i <= n,
                n == values@.len(),
                n == self.raw.len,
                self.raw == old(self).raw,
                self.data@.len() == n,
                forall|k: int| 0 <= k < i ==> self.data@[k] == values@[k],
            decreases n - i,
        {
            let x: T = values[i];
            self.data[i] = x;
            i = i + 1;
        }
        st.unmap_buffer();
        proof {
            assert(self.data@ =~= values@);
        }
        Ok(())
    }

    /// Fill the `Buffer` with a single value: equivalent to a whole-write
    /// of `length` copies of that value, and always succeeds.
    pub fn clear(&mut self, st: &mut GraphicsState, x: T) -> (r: Result<(), BufferError>) where
        T: Copy,

        requires
            old(self).valid(*old(st)),
            old(st).wf(),
            old(st).mapped() is None,
        ensures
            r == Ok::<(), BufferError>(()),
            final(self).wf(),
            final(self).handle() == old(self).handle(),
            final(self)@.len() == old(self)@.len(),
            final(self)@ == Seq::new(old(self)@.len(), |k: int| x),
            final(st).wf(),
            final(st).mapped() is None,
            final(st).live() == old(st).live(),
            final(st).destroyed() == old(st).destroyed(),
            final(st).generated() == old(st).generated(),
    {
        let n = self.raw.len;
        let mut values: Vec<T> = Vec::new();
        while values.len() < n
            invariant
                values@.len() <= n,
                forall|k: int| 0 <= k < values@.len() ==> values@[k] == x,
            decreases n - values@.len(),
        {
            values.push(x);
        }
        let r = self.write_whole(st, values.as_slice());
        proof {
            assert(self.data@ =~= Seq::new(old(self)@.len(), |k: int| x));
        }
        r
    }

    /// Fill the whole buffer with a slice of values; the counts must match
    /// exactly, as for [`Buffer::write_whole`].
    pub fn fill(&mut self, st: &mut GraphicsState, values: &[T]) -> (r: Result<
        (),
        BufferError,
    >) where
        T: Copy,

        requires
            old(self).valid(*old(st)),
            old(st).wf(),
            old(st).mapped() is None,
        ensures
            final(self).wf(),
            final(self).handle() == old(self).handle(),
            final(self)@.len() == old(self)@.len(),
            values@.len() < old(self)@.len() ==> {
                &&& r == Err::<(), BufferError>(
                    BufferError::TooFewValues(values@.len() as usize, old(self)@.len() as usize),
                )
                &&& final(self)@ == old(self)@
            },
            values@.len() > old(self)@.len() ==> {
                &&& r == Err::<(), BufferError>(
                    BufferError::TooManyValues(values@.len() as usize, old(self)@.len() as usize),
                )
                &&& final(self)@ == old(self)@
            },
            values@.len() == old(self)@.len() ==> {
                &&& r == Ok::<(), BufferError>(())
                &&& final(self)@ == values@
            },
            final(st).wf(),
            final(st).mapped() is None,
            final(st).live() == old(st).live(),
            final(st).destroyed() == old(st).destroyed(),
            final(st).generated() == old(st).generated(),
    {
        self.write_whole(st, values)
    }

    /// The raw form this buffer erases to.
    pub closed spec fn erased(self) -> RawBuffer {
        self.raw
    }

    /// Convert a buffer to its raw representation, erasing the element
    /// type. The typed wrapper is consumed without touching the driver, so
    /// the resource stays alive, now owned by the raw form alone; there is
    /// no way back to a `Buffer<_>`.
    pub fn to_raw(self) -> (r: RawBuffer)
        requires
            self.wf(),
        ensures
            r == self.erased(),
            r.handle() == self.handle(),
            r.length() == self@.len(),
            r.byte_capacity() == self.byte_capacity(),
    {
        self.raw
    }

    /// Destroy the buffer's underlying resource, erasing and then disposing
    /// of the raw form in one step.
    pub fn dispose(self, st: &mut GraphicsState)
        requires
            old(st).wf(),
            self.valid(*old(st)),
            old(st).mapped() != Some(self.handle()),
        ensures
            final(st).wf(),
            final(st).live() == old(st).live().remove(self.handle()),
            final(st).destroyed() == old(st).destroyed() + 1,
            final(st).mapped() == old(st).mapped(),
            final(st).generated() == old(st).generated(),
    {
        self.to_raw().dispose(st);
    }

    /// Obtain an immutable mapped view of the buffer. Fails with
    /// `BufferError::MapFailed`, changing nothing, exactly when a mapping
    /// is already outstanding in this context.
    pub fn as_slice(&self, st: &mut GraphicsState) -> (r: Result<BufferSlice<T>, BufferError>) where
        T: Copy,

        requires
            self.valid(*old(st)),
            old(st).wf(),
        ensures
            final(st).wf(),
            final(st).live() == old(st).live(),
            final(st).destroyed() == old(st).destroyed(),
            final(st).generated() == old(st).generated(),
            old(st).mapped() is Some ==> {
                &&& r == Err::<BufferSlice<T>, BufferError>(BufferError::MapFailed)
                &&& final(st).mapped() == old(st).mapped()
            },
            old(st).mapped() is None ==> {
                &&& r matches Ok(s)
                &&& (r matches Ok(s) ==> s@ == self@ && s.handle() == self.handle())
                &&& final(st).mapped() == Some(self.handle())
            },
    {
        st.bind_array_buffer(self.raw.handle);
        if !st.try_map_buffer(AccessMode::ReadOnly) {
            return Err(BufferError::MapFailed);
        }
        let mut data: Vec<T> = Vec::new();
        let mut i: usize = 0;
        while i < self.raw.len
            invariant
                i <= self.raw.len,
                self.wf(),
                data@.len() == i,
                forall|k: int| 0 <= k < i ==> data@[k] == self@[k],
            decreases self.raw.len - i,
        {
            data.push(self.data[i]);
            i = i + 1;
        }
        proof {
            assert(data@ =~= self@);
        }
        Ok(BufferSlice { handle: self.raw.handle, data })
    }

    /// Obtain a mutable mapped view of the buffer. Fails with
    /// `BufferError::MapFailed`, changing nothing, exactly when a mapping
    /// is already outstanding in this context. The buffer itself changes
    /// only when the view is released back into it.
    pub fn as_slice_mut(&mut self, st: &mut GraphicsState) -> (r: Result<
        BufferSliceMut<T>,
        BufferError,
    >) where
        T: Copy,

        requires
            old(self).valid(*old(st)),
            old(st).wf(),
        ensures
            *final(self) == *old(self),
            final(st).wf(),
            final(st).live() == old(st).live(),
            final(st).destroyed() == old(st).destroyed(),
            final(st).generated() == old(st).generated(),
            old(st).mapped() is Some ==> {
                &&& r == Err::<BufferSliceMut<T>, BufferError>(BufferError::MapFailed)
                &&& final(st).mapped() == old(st).mapped()
            },
            old(st).mapped() is None ==> {
                &&& r matches Ok(s)
                &&& (r matches Ok(s) ==> s@ == old(self)@ && s.handle() == old(self).handle())
                &&& final(st).mapped() == Some(old(self).handle())
            },
    {
        st.bind_array_buffer(self.raw.handle);
        if !st.try_map_buffer(AccessMode::ReadWrite) {
            return Err(BufferError::MapFailed);
        }
        let mut data: Vec<T> = Vec::new();
        let mut i: usize = 0;
        while i < self.raw.len
            invariant
                i <= self.raw.len,
                self.wf(),
                self == old(self),
                data@.len() == i,
                forall|k: int| 0 <= k < i ==> data@[k] == self@[k],
            decreases self.raw.len - i,
        {
            data.push(self.data[i]);
            i = i + 1;
        }
        proof {
            assert(data@ =~= self@);
        }
        Ok(BufferSliceMut { handle: self.raw.handle, data })
    }
}

/// An immutable view of a buffer, mapped into client memory. It behaves as
/// a contiguous, indexable sequence whose contents are those of the buffer
/// at acquisition time. Releasing it performs the one unmap that matches
/// the map which created it; until then, no other mapping can be made in
/// the same context.
pub struct BufferSlice<T> {
    handle: u32,
    data: Vec<T>,
}

impl<T> View for BufferSlice<T> {
    type V = Seq<T>;

    closed spec fn view(&self) -> Seq<T> {
        self.data@
    }
}

impl<T> BufferSlice<T> {
    /// The handle of the buffer this view was mapped from.
    pub closed spec fn handle(&self) -> u32 {
        self.handle
    }

    /// The number of elements visible through the view.
    pub fn len(&self) -> (n: usize)
        ensures
            n == self@.len(),
    {
        self.data.len()
    }

    /// Read one element, bounds-checked.
    pub fn at(&self, i: usize) -> (r: Option<T>) where T: Copy
        ensures
            r == (if i < self@.len() {
                Some(self@[i as int])
            } else {
                None::<T>
            }),
    {
        if i < self.data.len() {
            Some(self.data[i])
        } else {
            None
        }
    }

    /// Copy the viewed elements out, in order.
    pub fn to_vec(&self) -> (r: Vec<T>) where T: Copy
        ensures
            r@ == self@,
    {
        let mut out: Vec<T> = Vec::new();
        let mut i: usize = 0;
        while i < self.data.len()
            invariant
                i <= self.data@.len(),
                out@.len() == i,
                forall|k: int| 0 <= k < i ==> out@[k] == self@[k],
            decreases self.data@.len() - i,
        {
            out.push(self.data[i]);
            i = i + 1;
        }
        proof {
            assert(out@ =~= self@);
        }
        out
    }

    /// Release the view: rebind the owning handle and unmap it. Consumes
    /// the view, so the release happens exactly once per acquisition.
    pub fn release(self, st: &mut GraphicsState)
        requires
            old(st).wf(),
            old(st).mapped() == Some(self.handle()),
        ensures
            final(st).wf(),
            final(st).mapped() is None,
            final(st).bound() == self.handle(),
            final(st).live() == old(st).live(),
            final(st).destroyed() == old(st).destroyed(),
            final(st).generated() == old(st).generated(),
    {
        st.bind_array_buffer(self.handle);
        st.unmap_buffer();
    }
}

/// A mutable view of a buffer, mapped into client memory. Element writes go
/// through the view; releasing it transfers the view's contents back into
/// the owning buffer and performs the one unmap that matches the map which
/// created it.
pub struct BufferSliceMut<T> {
    handle: u32,
    data: Vec<T>,
}

impl<T> View for BufferSliceMut<T> {
    type V = Seq<T>;

    closed spec fn view(&self) -> Seq<T> {
        self.data@
    }
}

impl<T> BufferSliceMut<T> {
    /// The handle of the buffer this view was mapped from.
    pub closed spec fn handle(&self) -> u32 {
        self.handle
    }

    /// The number of elements visible through the view.
    pub fn len(&self) -> (n: usize)
        ensures
            n == self@.len(),
    {
        self.data.len()
    }

    /// Read one element, bounds-checked.
    pub fn at(&self, i: usize) -> (r: Option<T>) where T: Copy
        ensures
            r == (if i < self@.len() {
                Some(self@[i as int])
            } else {
                None::<T>
            }),
    {
        if i < self.data.len() {
            Some(self.data[i])
        } else {
            None
        }
    }

    /// Copy the viewed elements out, in order.
    pub fn to_vec(&self) -> (r: Vec<T>) where T: Copy
        ensures
            r@ == self@,
    {
        let mut out: Vec<T> = Vec::new();
        let mut i: usize = 0;
        while i < self.data.len()
            invariant
                i <= self.data@.len(),
                out@.len() == i,
                forall|k: int| 0 <= k < i ==> out@[k] == self@[k],
            decreases self.data@.len() - i,
        {
            out.push(self.data[i]);
            i = i + 1;
        }
        proof {
            assert(out@ =~= self@);
        }
        out
    }

    /// Write one element through the view. The index must be in range —
    /// the view is a plain mapped window and does not report errors.
    pub fn set(&mut self, i: usize, x: T)
        requires
            i < old(self)@.len(),
        ensures
            final(self)@ == old(self)@.update(i as int, x),
            final(self)@.len() == old(self)@.len(),
            final(self).handle() == old(self).handle(),
    {
        self.data[i] = x;
    }

    /// Release the view back into the buffer it was mapped from: the
    /// buffer's contents become the view's contents, and the owning handle
    /// is rebound and unmapped. Consumes the view, so the release happens
    /// exactly once per acquisition.
    pub fn release(self, buffer: &mut Buffer<T>, st: &mut GraphicsState)
        requires
            old(st).wf(),
            old(buffer).wf(),
            old(st).mapped() == Some(self.handle()),
            self.handle() == old(buffer).handle(),
            self@.len() == old(buffer)@.len(),
        ensures
            final(buffer).wf(),
            final(buffer).handle() == old(buffer).handle(),
            final(buffer)@.len() == old(buffer)@.len(),
            final(buffer)@ == self@,
            final(st).wf(),
            final(st).mapped() is None,
            final(st).bound() == self.handle(),
            final(st).live() == old(st).live(),
            final(st).destroyed() == old(st).destroyed(),
            final(st).generated() == old(st).generated(),
    {
        st.bind_array_buffer(self.handle);
        buffer.data = self.data;
        st.unmap_buffer();
    }
}

impl<T> From<Buffer<T>> for RawBuffer {
    /// Erasure as a conversion: the same move as [`Buffer::to_raw`].
    fn from(buffer: Buffer<T>) -> (r: RawBuffer)
        ensures
            r == buffer.erased(),
            buffer.wf() ==> r.handle() == buffer.handle() && r.length() == buffer@.len()
                && r.byte_capacity() == buffer.byte_capacity(),
    {
        buffer.raw
    }
}

impl<T> vstd::std_specs::convert::FromSpecImpl<Buffer<T>> for RawBuffer {
    open spec fn obeys_from_spec() -> bool {
        true
    }

    open spec fn from_spec(v: Buffer<T>) -> RawBuffer {
        v.erased()
    }
}

/// Law: writing an element and then reading the same index yields exactly
/// the value written, and the length never changes.
pub proof fn lemma_set_then_at<T>(contents: Seq<T>, i: int, x: T)
    requires
        0 <= i < contents.len(),
    ensures
        contents.update(i, x)[i] == x,
        contents.update(i, x).len() == contents.len(),
        forall|k: int| 0 <= k < contents.len() && k != i ==> contents.update(i, x)[k]
            == contents[k],
{
}

/// Law: clearing with one value is the same as a whole-write of
/// length-many copies of that value — any sequence made of copies of `x`
/// is the sequence `clear` leaves behind.
pub proof fn lemma_clear_matches_write_whole<T>(values: Seq<T>, x: T)
    requires
        forall|k: int| 0 <= k < values.len() ==> values[k] == x,
    ensures
        values == Seq::new(values.len(), |k: int| x),
{
    assert(values =~= Seq::new(values.len(), |k: int| x));
}

} // verus!
