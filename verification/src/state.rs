//! Driver state tracking.
//!
//! A graphics driver keeps, per context, a record of which buffer handle is
//! bound to the array binding point, which handle (if any) is currently
//! mapped into client-visible memory, and which handles are live. Every
//! bind, map, unmap and destroy call must go through this record, and each
//! call needs exclusive access to it for its duration.
//!
//! `GraphicsState` is that record. It enforces the two driver-side safety
//! rules the buffer layer depends on: at most one outstanding map per
//! context, and each live handle destroyed exactly once.

use vstd::prelude::*;

verus! {

/// Access mode requested when mapping a buffer into client memory.
#[derive(Clone, Copy, Debug, PartialEq, Eq, Structural)]
pub enum AccessMode {
    /// The mapped memory will only be read.
    ReadOnly,
    /// The mapped memory will only be written.
    WriteOnly,
    /// The mapped memory may be read and written.
    ReadWrite,
}

/// Per-context record of driver state: the handle bound to the array
/// binding point, the handle currently mapped (if any), the set of live
/// handles, and how many handles have been destroyed.
pub struct GraphicsState {
    bound_array_buffer: u32,
    mapped_buffer: Option<u32>,
    next_handle: u32,
    destroy_count: u64,
    live_handles: Ghost<Set<u32>>,
}

impl GraphicsState {
    /// The set of handles that have been generated and not yet destroyed.
    pub closed spec fn live(&self) -> Set<u32> {
        self.live_handles@
    }

    /// The handle currently bound to the array binding point; 0 means none.
    pub closed spec fn bound(&self) -> u32 {
        self.bound_array_buffer
    }

    /// The handle currently mapped into client memory, if any.
    pub closed spec fn mapped(&self) -> Option<u32> {
        self.mapped_buffer
    }

    /// How many handles have been destroyed over this context's lifetime.
    pub closed spec fn destroyed(&self) -> u64 {
        self.destroy_count
    }

    /// How many handles have been generated over this context's lifetime.
    pub closed spec fn generated(&self) -> nat {
        (self.next_handle - 1) as nat
    }

    /// Internal consistency: handles are non-zero and below the generation
    /// cursor, and every generated handle is either live or destroyed.
    pub closed spec fn wf(&self) -> bool {
        &&& self.live_handles@.finite()
        &&& (forall|h: u32| self.live_handles@.contains(h) ==> 0 < h < self.next_handle)
        &&& 1 <= self.next_handle
        &&& self.destroy_count + self.live_handles@.len() + 1 == self.next_handle
    }

    /// Whether the handle space still has room for one more generation.
    pub open spec fn can_generate(&self) -> bool {
        self.generated() + 2 <= u32::MAX
    }

    /// A fresh context: nothing generated, bound, mapped or destroyed.
    pub fn new() -> (s: GraphicsState)
        ensures
            s.wf(),
            s.live() == Set::<u32>::empty(),
            s.bound() == 0,
            s.mapped() is None,
            s.destroyed() == 0,
            s.generated() == 0,
    {
        let s = GraphicsState {
            bound_array_buffer: 0,
            mapped_buffer: None,
            next_handle: 1,
            destroy_count: 0,
            live_handles: Ghost(Set::empty()),
        };
        proof {
            assert(Set::<u32>::empty().len() == 0);
        }
        s
    }

    /// Allocate a fresh, non-zero handle for a new buffer object.
    pub fn generate_buffer(&mut self) -> (h: u32)
        requires
            old(self).wf(),
            old(self).can_generate(),
        ensures
            final(self).wf(),
            h != 0,
            !old(self).live().contains(h),
            final(self).live() == old(self).live().insert(h),
            final(self).generated() == old(self).generated() + 1,
            final(self).bound() == old(self).bound(),
            final(self).mapped() == old(self).mapped(),
            final(self).destroyed() == old(self).destroyed(),
    {
        let h = self.next_handle;
        self.next_handle = self.next_handle + 1;
        proof {
            assert(!self.live_handles@.contains(h));
            assert(self.live_handles@.insert(h).len() == self.live_handles@.len() + 1);
        }
        self.live_handles = Ghost(self.live_handles@.insert(h));
        h
    }

    /// Bind a handle to the array binding point, replacing the previous
    /// binding. Binding 0 leaves no buffer bound.
    pub fn bind_array_buffer(&mut self, handle: u32)
        requires
            old(self).wf(),
        ensures
            final(self).wf(),
            final(self).bound() == handle,
            final(self).live() == old(self).live(),
            final(self).mapped() == old(self).mapped(),
            final(self).destroyed() == old(self).destroyed(),
            final(self).generated() == old(self).generated(),
    {
        self.bound_array_buffer = handle;
    }

    /// Reserve backing storage of the given byte capacity for the bound
    /// buffer. The tracker records nothing about capacities; the call exists
    /// so that every driver primitive the buffer layer issues goes through
    /// this record.
    pub fn allocate_bound(&mut self, byte_capacity: usize)
        requires
            old(self).wf(),
            old(self).bound() != 0,
        ensures
            *final(self) == *old(self),
    {
    }

    /// Map the bound buffer into client memory. At most one map may be
    /// outstanding per context, so the caller must know none is.
    pub fn map_buffer(&mut self, access: AccessMode)
        requires
            old(self).wf(),
            old(self).bound() != 0,
            old(self).mapped() is None,
        ensures
            final(self).wf(),
            final(self).mapped() == Some(old(self).bound()),
            final(self).bound() == old(self).bound(),
            final(self).live() == old(self).live(),
            final(self).destroyed() == old(self).destroyed(),
            final(self).generated() == old(self).generated(),
    {
        self.mapped_buffer = Some(self.bound_array_buffer);
    }

    /// Try to map the bound buffer. Fails, leaving the state untouched,
    /// exactly when a map is already outstanding — the driver then refuses
    /// the request instead of handing out a second overlapping mapping.
    pub fn try_map_buffer(&mut self, access: AccessMode) -> (ok: bool)
        requires
            old(self).wf(),
            old(self).bound() != 0,
        ensures
            final(self).wf(),
            ok == (old(self).mapped() is None),
            ok ==> final(self).mapped() == Some(old(self).bound()),
            !ok ==> final(self).mapped() == old(self).mapped(),
            final(self).bound() == old(self).bound(),
            final(self).live() == old(self).live(),
            final(self).destroyed() == old(self).destroyed(),
            final(self).generated() == old(self).generated(),
    {
        if self.mapped_buffer.is_none() {
            self.map_buffer(access);
            true
        } else {
            false
        }
    }

    /// Release the outstanding mapping. Exactly one unmap matches each map.
    pub fn unmap_buffer(&mut self)
        requires
            old(self).wf(),
            old(self).mapped() is Some,
        ensures
            final(self).wf(),
            final(self).mapped() is None,
            final(self).bound() == old(self).bound(),
            final(self).live() == old(self).live(),
            final(self).destroyed() == old(self).destroyed(),
            final(self).generated() == old(self).generated(),
    {
        self.mapped_buffer = None;
    }

    /// Destroy a live, unmapped handle: it leaves the live set, the
    /// destruction counter advances by one, and a binding to it is cleared.
    pub fn destroy_buffer(&mut self, handle: u32)
        requires
            old(self).wf(),
            old(self).live().contains(handle),
            old(self).mapped() != Some(handle),
        ensures
            final(self).wf(),
            final(self).live() == old(self).live().remove(handle),
            final(self).destroyed() == old(self).destroyed() + 1,
            final(self).mapped() == old(self).mapped(),
            final(self).generated() == old(self).generated(),
            final(self).bound() == (if old(self).bound() == handle {
                0u32
            } else {
                old(self).bound()
            }),
    {
        proof {
            assert(self.live_handles@.len() >= 1) by {
                assert(self.live_handles@.contains(handle));
            }
            assert(self.live_handles@.remove(handle).len() == self.live_handles@.len() - 1);
            assert(self.destroy_count < u32::MAX as u64);
        }
        if self.bound_array_buffer == handle {
            self.bound_array_buffer = 0;
        }
        self.destroy_count = self.destroy_count + 1;
        self.live_handles = Ghost(self.live_handles@.remove(handle));
    }

    /// The destruction counter, readable by unverified callers and tests.
    pub fn destroyed_count(&self) -> (n: u64)
        ensures
            n == self.destroyed(),
    {
        self.destroy_count
    }
}

} // verus!
