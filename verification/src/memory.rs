//! Which page frames the kernel may hand out: from the end of the kernel image to the end
//! of the memory that the boot tags report. The frames are kept in a bitmap of the crate
//! `bitmap_allocator`.

use bitmap_allocator::{BitAlloc, BitAlloc1M};
use vstd::prelude::*;

verus! {

/// Size of a page frame.
pub const FRAME_SIZE: u64 = 4096;

/// Physical address of the page frame with number 0.
pub const MEMORY_OFFSET: u64 = 0;

/// Number of page frames that the frame allocator keeps track of: the bits of its bitmap.
pub const FRAME_CAPACITY: u64 = 0x10_0000;

/// The kernel's frame allocator: a bitmap of `FRAME_CAPACITY` bits, one for each page frame,
/// set where the frame is free. Nothing is proved of the bitmap itself: what its operations do
/// is taken from `bitmap_allocator` as the three functions below state it.
#[verifier::external_body]
pub struct FrameAllocator {
    bits: BitAlloc1M,
}

/// The page frames that a frame allocator holds as free, by their numbers: the bits of its
/// bitmap for which `BitAlloc::test` answers true.
pub uninterp spec fn free_frames(allocator: FrameAllocator) -> Set<int>;

/// `Default::default` of `bitmap_allocator::BitAlloc1M`: a bitmap in which no bit is set, so
/// that no frame is free.
#[verifier::external_body]
fn no_frames() -> (allocator: FrameAllocator)
    ensures
        free_frames(allocator) == Set::<int>::empty(),
{
    FrameAllocator { bits: BitAlloc1M::default() }
}

/// `BitAlloc::insert` of `bitmap_allocator`, on the bitmap of 1M bits: the bits from `first`
/// up to `last` are set, and no other bit changes. The call panics on a range that ends
/// beyond the capacity, and can on an empty one; the precondition leaves both out.
#[verifier::external_body]
fn insert_frames(allocator: &mut FrameAllocator, first: usize, last: usize)
    requires
        first < last <= FRAME_CAPACITY,
    ensures
        free_frames(*final(allocator)) == free_frames(*old(allocator)).union(
            Set::new(|frame: int| first <= frame < last),
        ),
{
    allocator.bits.insert(first..last)
}

/// `BitAlloc::test` of `bitmap_allocator`, on the bitmap of 1M bits: whether the bit `frame`
/// is set. The call panics on a bit beyond the capacity, which the precondition leaves out.
#[verifier::external_body]
fn test_frame(allocator: &FrameAllocator, frame: usize) -> (free: bool)
    requires
        frame < FRAME_CAPACITY,
    ensures
        free == free_frames(*allocator).contains(frame as int),
{
    allocator.bits.test(frame)
}

/// A boot tag, as far as the memory map reads it.
#[derive(Clone, Copy, Debug, PartialEq, Eq, Structural)]
pub enum Atag {
    /// A region of memory: where it starts and how many bytes it has.
    Mem { start: u32, size: u32 },
    /// Any other tag.
    Other,
}

/// The first memory region among `atags` from `from` on, if there is one.
pub open spec fn first_region(atags: Seq<Atag>, from: int) -> Option<(u32, u32)>
    decreases atags.len() - from,
{
    if from < 0 || from >= atags.len() {
        None
    } else {
        match atags[from] {
            Atag::Mem { start, size } => Some((start, size)),
            Atag::Other => first_region(atags, from + 1),
        }
    }
}

/// The memory that is free for page frames: from the end of the kernel image to the end of
/// the first memory region that the boot tags report; `None` where they report none.
pub fn memory_map(binary_end: u32, atags: &[Atag]) -> (free: Option<(u64, u64)>)
    ensures
        free == match first_region(atags@, 0) {
            Some((start, size)) => Some((binary_end as u64, (start + size) as u64)),
            None => None,
        },
{
    let mut i: usize = 0;
    while i < atags.len()
        invariant
            i <= atags@.len(),
            first_region(atags@, 0) == first_region(atags@, i as int),
        decreases atags@.len() - i,
    {
        match atags[i] {
            Atag::Mem { start, size } => {
                return Some((binary_end as u64, start as u64 + size as u64));
            },
            Atag::Other => {},
        }
        i += 1;
    }
    None
}

/// Address of the first byte of the page frame that holds `address`.
pub fn frame_start(address: u64) -> (start: u64)
    ensures
        start == (address as int) / (FRAME_SIZE as int) * FRAME_SIZE,
        start <= address < start + FRAME_SIZE,
        (start as int) % (FRAME_SIZE as int) == 0,
{
    address - address % FRAME_SIZE
}

/// The numbers of the page frames that hold the bytes from `start` up to `end`: the first
/// number and the one after the last. The first frame is the one that holds `start`; the
/// last is the one that holds the byte before `end`.
pub fn frame_range(start: u64, end: u64) -> (frames: (u64, u64))
    requires
        MEMORY_OFFSET <= start,
        MEMORY_OFFSET < end,
    ensures
        frames.0 == (start - MEMORY_OFFSET) / (FRAME_SIZE as int),
        frames.1 == (end - MEMORY_OFFSET - 1) / (FRAME_SIZE as int) + 1,
        frames.0 * FRAME_SIZE <= start - MEMORY_OFFSET < (frames.0 + 1) * FRAME_SIZE,
        (frames.1 - 1) * FRAME_SIZE < end - MEMORY_OFFSET <= frames.1 * FRAME_SIZE,
        start < end ==> frames.0 < frames.1,
{
    let first = (start - MEMORY_OFFSET) / FRAME_SIZE;
    let last = (end - MEMORY_OFFSET - 1) / FRAME_SIZE + 1;
    (first, last)
}

/// The page frames of the memory from `start` up to `end`, if the frame allocator can take
/// them: the memory is not empty and does not begin before the first frame, and its last
/// frame is one that the allocator keeps track of.
pub open spec fn insertable(start: u64, end: u64) -> Option<(u64, u64)> {
    let first = (start - MEMORY_OFFSET) / (FRAME_SIZE as int);
    let last = (end - MEMORY_OFFSET - 1) / (FRAME_SIZE as int) + 1;
    if MEMORY_OFFSET <= start < end && last <= FRAME_CAPACITY {
        Some((first as u64, last as u64))
    } else {
        None
    }
}

/// The frames with the numbers from `first` up to `last`.
pub open spec fn frames_between(first: u64, last: u64) -> Set<int> {
    Set::new(|frame: int| first <= frame < last)
}

impl FrameAllocator {
    /// Whether the allocator holds the frame `frame` as free. It holds none beyond its
    /// capacity.
    pub fn is_free(&self, frame: u64) -> (free: bool)
        ensures
            frame < FRAME_CAPACITY ==> free == free_frames(*self).contains(frame as int),
            frame >= FRAME_CAPACITY ==> !free,
    {
        if frame < FRAME_CAPACITY {
            test_frame(self, frame as usize)
        } else {
            false
        }
    }
}

/// Gives the page frames of the memory from `start` up to `end` to the frame allocator and
/// returns their range. Where the allocator cannot take them, nothing is given and `None`
/// is returned.
pub fn init_frame_allocator(allocator: &mut FrameAllocator, start: u64, end: u64) -> (frames:
    Option<(u64, u64)>)
    ensures
        frames == insertable(start, end),
        match insertable(start, end) {
            Some((first, last)) => free_frames(*final(allocator)) == free_frames(
                *old(allocator),
            ).union(frames_between(first, last)),
            None => free_frames(*final(allocator)) == free_frames(*old(allocator)),
        },
{
    if start >= end || start < MEMORY_OFFSET {
        return None;
    }
    let (first, last) = frame_range(start, end);
    if last > FRAME_CAPACITY {
        return None;
    }
    insert_frames(allocator, first as usize, last as usize);
    Some((first, last))
}

/// Memory initialization, as far as it decides anything: a frame allocator that holds as
/// free the page frames from the end of the kernel image to the end of the first memory
/// region of the boot tags, and no others. `None` where the boot tags report no memory or
/// the allocator cannot take the frames.
pub fn init(binary_end: u32, atags: &[Atag]) -> (allocator: Option<FrameAllocator>)
    ensures
        match first_region(atags@, 0) {
            Some((start, size)) => match insertable(binary_end as u64, (start + size) as u64) {
                Some((first, last)) => allocator matches Some(a) && free_frames(a)
                    == frames_between(first, last),
                None => allocator is None,
            },
            None => allocator is None,
        },
{
    match memory_map(binary_end, atags) {
        Some((start, end)) => {
            let mut allocator = no_frames();
            match init_frame_allocator(&mut allocator, start, end) {
                Some((first, last)) => {
                    Some(allocator)
                },
                None => None,
            }
        },
        None => None,
    }
}

} // verus!
