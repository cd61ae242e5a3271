//! The render submission builder: from relocated control lists to the image that the accelerator
//! executes, and the register accesses that start it and wait for it.

use crate::bo::BufferObject;
use crate::bytes::{le32, le32_bytes, lemma_le32_round_trip, push_le32};
use crate::packet::TILE_BINNING_MODE_CONFIG;
use crate::regs::{is_register, RegisterOp, BFC, CT0CA, CT0EA, CT1CA, CT1EA, RFC};
use vstd::prelude::*;

verus! {

/// How often a completion counter is read before the accelerator is given up on.
pub const POLL_LIMIT: u32 = 1_000_000;

/// Bytes at the start of the binner's memory that hold the tile state; the tile allocation
/// memory follows them.
pub const TILE_STATE_BYTES: u32 = 0xC000;

/// Length of the packet that `binner_packet` builds.
pub const BINNER_PACKET_LEN: usize = 16;

/// How much of a binner of `size` bytes holds the tile state.
pub open spec fn tile_state_span(size: u32) -> u32 {
    if size < TILE_STATE_BYTES {
        size
    } else {
        TILE_STATE_BYTES
    }
}

/// The fixed packet that tells the accelerator where the binner's memory is: the opcode of the
/// tile binning configuration, then the address and the size of the tile allocation memory,
/// then the address of the tile state, then three bytes of 0 for a geometry that is not set
/// here.
pub open spec fn binner_packet(binner: BufferObject) -> Seq<u8> {
    let reserve = tile_state_span(binner.size);
    seq![TILE_BINNING_MODE_CONFIG] + le32_bytes((binner.physical_address + reserve) as u32)
        + le32_bytes((binner.size - reserve) as u32) + le32_bytes(binner.physical_address)
        + seq![0u8, 0u8, 0u8]
}

/// The binner packet names memory of the binner and no other: the tile state lies at the
/// start of the binner, the tile allocation memory behind it, and the two end where the
/// binner ends.
pub proof fn lemma_binner_packet_names_binner(binner: BufferObject)
    requires
        binner.wf(),
    ensures
        binner_packet(binner).len() == BINNER_PACKET_LEN,
        binner_packet(binner)[0] == TILE_BINNING_MODE_CONFIG,
        le32(binner_packet(binner), 9) == binner.physical_address,
        le32(binner_packet(binner), 1) == binner.physical_address + tile_state_span(binner.size),
        le32(binner_packet(binner), 1) + le32(binner_packet(binner), 5)
            == binner.physical_address + binner.size,
{
    let reserve = tile_state_span(binner.size);
    let base = (binner.physical_address + reserve) as u32;
    let room = (binner.size - reserve) as u32;
    let p = binner_packet(binner);
    lemma_le32_round_trip(base);
    lemma_le32_round_trip(room);
    lemma_le32_round_trip(binner.physical_address);
    assert forall|k: int| 0 <= k < 4 implies p[1 + k] == le32_bytes(base)[k] && p[5 + k]
        == le32_bytes(room)[k] && p[9 + k] == le32_bytes(binner.physical_address)[k] by {}
    assert(p[1] == le32_bytes(base)[0] && p[2] == le32_bytes(base)[1] && p[3] == le32_bytes(
        base,
    )[2] && p[4] == le32_bytes(base)[3]);
    assert(p[5] == le32_bytes(room)[0] && p[6] == le32_bytes(room)[1] && p[7] == le32_bytes(
        room,
    )[2] && p[8] == le32_bytes(room)[3]);
    assert(p[9] == le32_bytes(binner.physical_address)[0] && p[10] == le32_bytes(
        binner.physical_address,
    )[1] && p[11] == le32_bytes(binner.physical_address)[2] && p[12] == le32_bytes(
        binner.physical_address,
    )[3]);
}

/// The image of a submission: the relocated bin-phase list, the binner packet, then the
/// relocated render-phase list.
pub open spec fn image_of(bin: Seq<u8>, render: Seq<u8>, binner: BufferObject) -> Seq<u8> {
    bin + binner_packet(binner) + render
}

/// Builds the image of a submission from the two relocated lists and the binner.
pub fn build(bin: &[u8], render: &[u8], binner: BufferObject) -> (image: Vec<u8>)
    requires
        binner.wf(),
    ensures
        image@ == image_of(bin@, render@, binner),
        image@.len() == bin@.len() + BINNER_PACKET_LEN + render@.len(),
{
    let mut image: Vec<u8> = Vec::new();
    let mut i: usize = 0;
    while i < bin.len()
        invariant
            i <= bin@.len(),
            image@ == bin@.subrange(0, i as int),
        decreases bin@.len() - i,
    {
        image.push(bin[i]);
        i += 1;
    }
    let reserve: u32 = if binner.size < TILE_STATE_BYTES {
        binner.size
    } else {
        TILE_STATE_BYTES
    };
    image.push(TILE_BINNING_MODE_CONFIG);
    push_le32(&mut image, binner.physical_address + reserve);
    push_le32(&mut image, binner.size - reserve);
    push_le32(&mut image, binner.physical_address);
    image.push(0);
    image.push(0);
    image.push(0);
    let ghost head = image@;
    let mut j: usize = 0;
    while j < render.len()
        invariant
            j <= render@.len(),
            image@ == head + render@.subrange(0, j as int),
        decreases render@.len() - j,
    {
        image.push(render[j]);
        j += 1;
    }
    image
}

/// Where a running submission stands.
#[derive(Clone, Copy, Debug, PartialEq, Eq, Structural)]
pub enum Phase {
    /// The bin-phase flush counter is to be cleared.
    BinReset,
    /// The start of the bin-phase list is to be written.
    BinStart,
    /// The end of the bin-phase list is to be written, which starts it.
    BinEnd,
    /// The bin-phase flush counter is read until it moves.
    BinWait,
    /// The frame counter is to be cleared.
    RenderReset,
    /// The start of the render-phase list is to be written.
    RenderStart,
    /// The end of the render-phase list is to be written, which starts it.
    RenderEnd,
    /// The frame counter is read until it moves.
    RenderWait,
    /// Both phases are through.
    Finished,
    /// A counter did not move within `POLL_LIMIT` reads.
    TimedOut,
}

/// A submission on its way through the accelerator: the two lists by their physical
/// addresses, the phase, and how often the counter of this phase has been read in vain.
#[derive(Clone, Copy, Debug, PartialEq, Eq, Structural)]
pub struct Job {
    pub bin_start: u32,
    pub bin_end: u32,
    pub render_start: u32,
    pub render_end: u32,
    pub phase: Phase,
    pub polls: u32,
}

impl Job {
    /// The job for an image that lies at physical address `base` and whose first `split`
    /// bytes, of `length`, are the bin-phase list.
    pub open spec fn starting(base: u32, split: u32, length: u32) -> Job {
        Job {
            bin_start: base,
            bin_end: (base + split) as u32,
            render_start: (base + split) as u32,
            render_end: (base + length) as u32,
            phase: Phase::BinReset,
            polls: 0,
        }
    }

    /// Whether the job has come to an end, well or not.
    pub open spec fn done(self) -> bool {
        self.phase == Phase::Finished || self.phase == Phase::TimedOut
    }

    /// The register access that the job waits for, if it has not come to an end.
    pub open spec fn pending(self) -> Option<RegisterOp> {
        match self.phase {
            Phase::BinReset => Some(RegisterOp::Write { offset: BFC, value: 1 }),
            Phase::BinStart => Some(RegisterOp::Write { offset: CT0CA, value: self.bin_start }),
            Phase::BinEnd => Some(RegisterOp::Write { offset: CT0EA, value: self.bin_end }),
            Phase::BinWait => Some(RegisterOp::Read { offset: BFC }),
            Phase::RenderReset => Some(RegisterOp::Write { offset: RFC, value: 1 }),
            Phase::RenderStart => Some(
                RegisterOp::Write { offset: CT1CA, value: self.render_start },
            ),
            Phase::RenderEnd => Some(RegisterOp::Write { offset: CT1EA, value: self.render_end }),
            Phase::RenderWait => Some(RegisterOp::Read { offset: RFC }),
            Phase::Finished => None,
            Phase::TimedOut => None,
        }
    }

    /// The phase that follows a wait whose counter read `value` where `moved` is the phase
    /// to go to once the counter has moved.
    pub open spec fn waited(self, value: u32, moved: Phase) -> Job {
        if value != 0 {
            Job { phase: moved, polls: 0, ..self }
        } else if self.polls + 1 >= POLL_LIMIT {
            Job { phase: Phase::TimedOut, ..self }
        } else {
            Job { polls: (self.polls + 1) as u32, ..self }
        }
    }

    /// The job after its pending access has been made; `value` is what a read returned and
    /// counts for nothing after a write.
    ///
    /// The writes of a phase follow one another. A wait ends when its counter reads other
    /// than 0, and in `TimedOut` with the read that makes `POLL_LIMIT` in vain. An empty
    /// render-phase list is not started.
    pub open spec fn after(self, value: u32) -> Job {
        match self.phase {
            Phase::BinReset => Job { phase: Phase::BinStart, ..self },
            Phase::BinStart => Job { phase: Phase::BinEnd, ..self },
            Phase::BinEnd => Job { phase: Phase::BinWait, polls: 0, ..self },
            Phase::BinWait => self.waited(
                value,
                if self.render_start == self.render_end {
                    Phase::Finished
                } else {
                    Phase::RenderReset
                },
            ),
            Phase::RenderReset => Job { phase: Phase::RenderStart, ..self },
            Phase::RenderStart => Job { phase: Phase::RenderEnd, ..self },
            Phase::RenderEnd => Job { phase: Phase::RenderWait, polls: 0, ..self },
            Phase::RenderWait => self.waited(value, Phase::Finished),
            Phase::Finished => self,
            Phase::TimedOut => self,
        }
    }

    /// An upper bound on the register accesses that the job still makes.
    pub open spec fn budget(self) -> int {
        let wait = POLL_LIMIT - self.polls;
        match self.phase {
            Phase::BinReset => 7 + 2 * POLL_LIMIT,
            Phase::BinStart => 6 + 2 * POLL_LIMIT,
            Phase::BinEnd => 5 + 2 * POLL_LIMIT,
            Phase::BinWait => 4 + POLL_LIMIT + wait,
            Phase::RenderReset => 3 + POLL_LIMIT,
            Phase::RenderStart => 2 + POLL_LIMIT,
            Phase::RenderEnd => 1 + POLL_LIMIT,
            Phase::RenderWait => wait,
            Phase::Finished => 0,
            Phase::TimedOut => 0,
        }
    }

    /// Every access brings a job that has not come to an end closer to its end: the wait for
    /// the accelerator is bounded.
    pub proof fn lemma_bounded(self, value: u32)
        requires
            !self.done(),
            self.polls < POLL_LIMIT,
        ensures
            self.after(value).budget() < self.budget(),
            self.after(value).budget() >= 0,
            self.after(value).polls < POLL_LIMIT,
    {
    }

    /// Every access that a job makes goes to a register of the window.
    pub proof fn lemma_accesses_registers(self)
        ensures
            self.pending() matches Some(op) ==> is_register(op.target()),
    {
    }

    /// The job for an image at `base`; see `starting`.
    pub fn start(base: u32, split: u32, length: u32) -> (job: Job)
        requires
            split <= length,
            base + length <= u32::MAX,
        ensures
            job == Job::starting(base, split, length),
    {
        Job {
            bin_start: base,
            bin_end: base + split,
            render_start: base + split,
            render_end: base + length,
            phase: Phase::BinReset,
            polls: 0,
        }
    }

    /// The register access that the job waits for; `None` once it has come to an end.
    pub fn op(&self) -> (op: Option<RegisterOp>)
        ensures
            op == self.pending(),
    {
        match self.phase {
            Phase::BinReset => Some(RegisterOp::Write { offset: BFC, value: 1 }),
            Phase::BinStart => Some(RegisterOp::Write { offset: CT0CA, value: self.bin_start }),
            Phase::BinEnd => Some(RegisterOp::Write { offset: CT0EA, value: self.bin_end }),
            Phase::BinWait => Some(RegisterOp::Read { offset: BFC }),
            Phase::RenderReset => Some(RegisterOp::Write { offset: RFC, value: 1 }),
            Phase::RenderStart => Some(
                RegisterOp::Write { offset: CT1CA, value: self.render_start },
            ),
            Phase::RenderEnd => Some(RegisterOp::Write { offset: CT1EA, value: self.render_end }),
            Phase::RenderWait => Some(RegisterOp::Read { offset: RFC }),
            Phase::Finished => None,
            Phase::TimedOut => None,
        }
    }

    fn wait(self, value: u32, moved: Phase) -> (job: Job)
        ensures
            job == self.waited(value, moved),
    {
        if value != 0 {
            Job { phase: moved, polls: 0, ..self }
        } else if self.polls >= POLL_LIMIT - 1 {
            Job { phase: Phase::TimedOut, ..self }
        } else {
            Job { polls: self.polls + 1, ..self }
        }
    }

    /// The job after its pending access has been made; see `after`.
    pub fn advance(self, value: u32) -> (job: Job)
        ensures
            job == self.after(value),
    {
        match self.phase {
            Phase::BinReset => Job { phase: Phase::BinStart, ..self },
            Phase::BinStart => Job { phase: Phase::BinEnd, ..self },
            Phase::BinEnd => Job { phase: Phase::BinWait, polls: 0, ..self },
            Phase::BinWait => {
                let moved = if self.render_start == self.render_end {
                    Phase::Finished
                } else {
                    Phase::RenderReset
                };
                self.wait(value, moved)
            },
            Phase::RenderReset => Job { phase: Phase::RenderStart, ..self },
            Phase::RenderStart => Job { phase: Phase::RenderEnd, ..self },
            Phase::RenderEnd => Job { phase: Phase::RenderWait, polls: 0, ..self },
            Phase::RenderWait => self.wait(value, Phase::Finished),
            Phase::Finished => self,
            Phase::TimedOut => self,
        }
    }
}

} // verus!
