//! Buffer objects and the store that owns them.
//!
//! The store is the only owner of buffer-object descriptors. Everything else names a buffer
//! object by its handle, so that whether a reference is still good is a lookup in the table.

use crate::error::GpuError;
use std::collections::BTreeMap;
use vstd::prelude::*;

verus! {

/// Granule of the memory collaborator: every region it hands out is a whole number of pages.
pub const PAGE_SIZE: u32 = 4096;

/// What a buffer object is used for.
#[derive(Clone, Copy, Debug, PartialEq, Eq, Structural)]
pub enum BoKind {
    /// Memory created on request of a caller.
    Normal,
    /// Scratch memory of the tile binner.
    Binner,
    /// The scan-out buffer of the display.
    Framebuffer,
}

/// A region of physically contiguous memory as the memory collaborator hands it out.
#[derive(Clone, Copy, Debug, PartialEq, Eq, Structural)]
pub struct Allocation {
    /// Address of the region as the accelerator sees it.
    pub physical_address: u32,
    /// Address of the same region as the processor sees it.
    pub mapped_address: usize,
}

/// A named, sized region of memory that the accelerator may address.
#[derive(Clone, Copy, Debug, PartialEq, Eq, Structural)]
pub struct BufferObject {
    /// Extent in bytes.
    pub size: u32,
    /// The name under which requests refer to the object; never 0.
    pub handle: u32,
    /// Address of the first byte as the accelerator sees it.
    pub physical_address: u32,
    /// Address of the first byte as the processor sees it.
    pub mapped_address: usize,
    /// What the object is used for.
    pub kind: BoKind,
}

impl BufferObject {
    /// A buffer object is not empty, has a name other than 0, and every address from its
    /// first byte to the one past its last is a 32-bit number.
    pub open spec fn wf(self) -> bool {
        &&& self.size > 0
        &&& self.handle != 0
        &&& self.physical_address + self.size <= u32::MAX
    }
}

/// `size` rounded up to a whole number of pages.
pub open spec fn page_span(size: int) -> int {
    (size + PAGE_SIZE - 1) / (PAGE_SIZE as int) * PAGE_SIZE
}

/// The page span of a size is a whole number of pages and holds the size.
pub proof fn lemma_page_span_covers(size: int)
    requires
        0 <= size,
    ensures
        size <= page_span(size) < size + PAGE_SIZE,
        page_span(size) % (PAGE_SIZE as int) == 0,
{
}

/// The page span of `size`, or `None` where it is no 32-bit number.
pub fn page_round(size: usize) -> (bytes: Option<u32>)
    ensures
        page_span(size as int) <= u32::MAX ==> bytes == Some(page_span(size as int) as u32),
        page_span(size as int) > u32::MAX ==> bytes is None,
        size <= page_span(size as int),
{
    if size > 0xFFFF_F000 {
        None
    } else {
        let size: u32 = size as u32;
        Some((size + (PAGE_SIZE - 1)) / PAGE_SIZE * PAGE_SIZE)
    }
}

/// The table of live buffer objects, keyed by handle, and the counter that names new ones.
pub struct BoStore {
    table: BTreeMap<u32, BufferObject>,
    next_handle: u32,
}

impl View for BoStore {
    type V = Map<u32, BufferObject>;

    /// The live buffer objects by handle.
    closed spec fn view(&self) -> Map<u32, BufferObject> {
        self.table@
    }
}

impl BoStore {
    /// The handle that the next created buffer object gets.
    pub closed spec fn next_handle(&self) -> u32 {
        self.next_handle
    }

    /// Every entry is stored under its own handle, is well formed, and has a handle that the
    /// counter has already passed; the counter itself is never 0.
    pub open spec fn wf(&self) -> bool {
        &&& self@.dom().finite()
        &&& self.next_handle() >= 1
        &&& forall|h: u32| #[trigger]
            self@.contains_key(h) ==> {
                &&& h < self.next_handle()
                &&& self@[h].handle == h
                &&& self@[h].wf()
            }
    }

    /// Whether a request for `size` bytes can be met at all: the size is not 0, its page span
    /// fits in 32 bits, and a handle is left.
    pub open spec fn can_create(&self, size: u32) -> bool {
        &&& size > 0
        &&& page_span(size as int) <= u32::MAX
        &&& self.next_handle() < u32::MAX
    }

    /// Whether `memory` can back an object of `size` bytes: every address up to the one past
    /// its page span is a 32-bit number.
    pub open spec fn usable(size: u32, memory: Allocation) -> bool {
        memory.physical_address + page_span(size as int) <= u32::MAX
    }

    /// The descriptor that `create` enters for a request of `size` bytes backed by `memory`.
    pub open spec fn created(&self, size: u32, kind: BoKind, memory: Allocation) -> BufferObject {
        BufferObject {
            size,
            handle: self.next_handle(),
            physical_address: memory.physical_address,
            mapped_address: memory.mapped_address,
            kind,
        }
    }

    /// An empty store whose first handle is 1.
    pub fn new() -> (store: BoStore)
        ensures
            store.wf(),
            store@ == Map::<u32, BufferObject>::empty(),
            store.next_handle() == 1,
    {
        BoStore { table: BTreeMap::new(), next_handle: 1 }
    }

    /// Number of live buffer objects.
    pub fn len(&self) -> (n: usize)
        requires
            self.wf(),
        ensures
            n == self@.len(),
    {
        self.table.len()
    }

    /// The handle that the next created buffer object gets.
    pub fn upcoming(&self) -> (h: u32)
        ensures
            h == self.next_handle(),
    {
        self.next_handle
    }

    /// Whether `handle` names a live buffer object.
    pub fn contains(&self, handle: u32) -> (found: bool)
        ensures
            found == self@.contains_key(handle),
    {
        self.table.contains_key(&handle)
    }

    /// Enters a buffer object that exists already, under the handle it brings along, and moves
    /// the counter past that handle.
    pub(crate) fn adopt(&mut self, bo: BufferObject)
        requires
            old(self).wf(),
            bo.wf(),
            bo.handle < u32::MAX,
            !old(self)@.contains_key(bo.handle),
        ensures
            final(self).wf(),
            final(self)@ == old(self)@.insert(bo.handle, bo),
            final(self).next_handle() == if bo.handle >= old(self).next_handle() {
                (bo.handle + 1) as u32
            } else {
                old(self).next_handle()
            },
    {
        if bo.handle >= self.next_handle {
            self.next_handle = bo.handle + 1;
        }
        self.table.insert(bo.handle, bo);
    }

    /// How many bytes to ask of the memory collaborator for an object of `size` bytes: the
    /// page span of `size`. Fails with `AllocationFailure`, before any memory is asked for,
    /// where the request cannot be met at all.
    pub fn plan(&self, size: u32) -> (bytes: Result<u32, GpuError>)
        ensures
            self.can_create(size) ==> bytes == Ok::<u32, GpuError>(page_span(size as int) as u32),
            !self.can_create(size) ==> bytes == Err::<u32, GpuError>(GpuError::AllocationFailure),
    {
        if size == 0 || self.next_handle == u32::MAX {
            return Err(GpuError::AllocationFailure);
        }
        match page_round(size as usize) {
            Some(bytes) => Ok(bytes),
            None => Err(GpuError::AllocationFailure),
        }
    }

    /// Enters a new buffer object of `size` bytes backed by `memory` under the next handle.
    ///
    /// Fails with `AllocationFailure`, and leaves the store as it was, where the request
    /// cannot be met or `memory` cannot back it; the memory then stays with the caller.
    pub fn create(&mut self, size: u32, kind: BoKind, memory: Allocation) -> (handle: Result<
        u32,
        GpuError,
    >)
        requires
            old(self).wf(),
        ensures
            final(self).wf(),
            handle is Ok <==> old(self).can_create(size) && Self::usable(size, memory),
            handle is Ok ==> {
                &&& handle == Ok::<u32, GpuError>(old(self).next_handle())
                &&& handle->Ok_0 != 0
                &&& !old(self)@.contains_key(handle->Ok_0)
                &&& final(self)@ == old(self)@.insert(
                    old(self).next_handle(),
                    old(self).created(size, kind, memory),
                )
                &&& final(self).next_handle() == old(self).next_handle() + 1
            },
            handle is Err ==> {
                &&& handle == Err::<u32, GpuError>(GpuError::AllocationFailure)
                &&& final(self)@ == old(self)@
                &&& final(self).next_handle() == old(self).next_handle()
            },
    {
        let bytes = match self.plan(size) {
            Ok(bytes) => bytes,
            Err(e) => {
                return Err(e);
            },
        };
        if memory.physical_address as u64 + bytes as u64 > 0xFFFF_FFFF {
            return Err(GpuError::AllocationFailure);
        }
        let handle = self.next_handle;
        let bo = BufferObject {
            size,
            handle,
            physical_address: memory.physical_address,
            mapped_address: memory.mapped_address,
            kind,
        };
        self.next_handle = handle + 1;
        self.table.insert(handle, bo);
        Ok(handle)
    }

    /// The buffer object that `handle` names; `HandleNotFound` where it names none.
    pub fn lookup(&self, handle: u32) -> (found: Result<BufferObject, GpuError>)
        ensures
            self@.contains_key(handle) ==> found == Ok::<BufferObject, GpuError>(self@[handle]),
            !self@.contains_key(handle) ==> found == Err::<BufferObject, GpuError>(
                GpuError::HandleNotFound,
            ),
    {
        match self.table.get(&handle) {
            Some(bo) => Ok(*bo),
            None => Err(GpuError::HandleNotFound),
        }
    }

    /// Where the processor sees the object that `handle` names, and how large it is;
    /// `HandleNotFound` where it names none. The store is not changed.
    pub fn map(&self, handle: u32) -> (mapping: Result<(usize, u32), GpuError>)
        ensures
            self@.contains_key(handle) ==> mapping == Ok::<(usize, u32), GpuError>(
                (self@[handle].mapped_address, self@[handle].size),
            ),
            !self@.contains_key(handle) ==> mapping == Err::<(usize, u32), GpuError>(
                GpuError::HandleNotFound,
            ),
    {
        match self.table.get(&handle) {
            Some(bo) => Ok((bo.mapped_address, bo.size)),
            None => Err(GpuError::HandleNotFound),
        }
    }

    /// Takes the entry of `handle` out of the table and returns it, so that its memory can
    /// be handed back; `HandleNotFound`, and no change, where `handle` names none. The
    /// counter stays where it is: a handle is not given out twice.
    pub fn free(&mut self, handle: u32) -> (freed: Result<BufferObject, GpuError>)
        requires
            old(self).wf(),
        ensures
            final(self).wf(),
            final(self).next_handle() == old(self).next_handle(),
            old(self)@.contains_key(handle) ==> {
                &&& freed == Ok::<BufferObject, GpuError>(old(self)@[handle])
                &&& final(self)@ == old(self)@.remove(handle)
            },
            !old(self)@.contains_key(handle) ==> {
                &&& freed == Err::<BufferObject, GpuError>(GpuError::HandleNotFound)
                &&& final(self)@ == old(self)@
            },
    {
        match self.table.remove(&handle) {
            Some(bo) => Ok(bo),
            None => {
                Err(GpuError::HandleNotFound)
            },
        }
    }
}

} // verus!
