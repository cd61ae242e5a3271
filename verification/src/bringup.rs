//! Bring-up: the one-time sequence that powers the accelerator on, checks that it is the
//! expected one, binds the framebuffer, and gives the binner its memory.
//!
//! Bring-up decides and its caller acts: `request` says what to ask of the firmware, the
//! register window, the framebuffer or the memory collaborator, and `step` takes what came of
//! it. Only a bring-up that went through all its steps holds a device.

use crate::bo::{Allocation, BoKind, BoStore, BufferObject};
use crate::device::{DeviceView, GpuDevice, Pending};
use crate::error::BringUpFailure;
use crate::regs::{is_register, IDENT0, IDENT0_MAGIC};
use vstd::prelude::*;

verus! {

/// Size of the binner's memory: 512 KiB.
pub const BINNER_BYTES: u32 = 0x8_0000;

/// The first of the firmware's memory handles behind which the framebuffer is looked for.
pub const FIRST_MEMORY_HANDLE: u32 = 1;

/// The last of them.
pub const LAST_MEMORY_HANDLE: u32 = 4;

/// The active framebuffer as the display driver describes it.
#[derive(Clone, Copy, Debug, PartialEq, Eq, Structural)]
pub struct Framebuffer {
    pub physical_address: usize,
    pub mapped_address: usize,
    pub screen_size: usize,
}

/// What bring-up asks of its caller.
#[derive(Clone, Copy, Debug, PartialEq, Eq, Structural)]
pub enum Probe {
    /// Ask the firmware to power the accelerator on; answer with `Finding::Power`.
    PowerOn,
    /// Read the register at `offset`; answer with `Finding::Register`.
    ReadRegister { offset: u32 },
    /// Ask the display driver for the active framebuffer; answer with
    /// `Finding::Framebuffer`.
    QueryFramebuffer,
    /// Ask the firmware for the address behind its memory handle `id`; answer with
    /// `Finding::MemoryHandle`.
    ResolveMemoryHandle { id: u32 },
    /// Ask the memory collaborator for `bytes` bytes; answer with `Finding::Memory`.
    Allocate { bytes: u32 },
    /// Hand the memory at `physical_address` back; any finding answers.
    Release { physical_address: u32 },
    /// Bring-up is through: take the device with `finish` or `init`.
    Install,
    /// Bring-up has failed: there is no device.
    Abort(BringUpFailure),
}

/// What came of a probe.
#[derive(Clone, Copy, Debug, PartialEq, Eq, Structural)]
pub enum Finding {
    /// Whether the firmware powered the accelerator on.
    Power(bool),
    /// What the register read.
    Register(u32),
    /// The active framebuffer, if there is one.
    Framebuffer(Option<Framebuffer>),
    /// The address behind the memory handle, if the firmware knows the handle.
    MemoryHandle(Option<u32>),
    /// The memory that was asked for, if any is left.
    Memory(Option<Allocation>),
}

/// Where bring-up stands.
pub enum BringUpView {
    /// The power-on request is out.
    PoweringOn,
    /// The identification register is being read.
    Identifying,
    /// The framebuffer is being asked for.
    Locating,
    /// The memory handle `id` is being matched against the framebuffer `target`.
    Probing { target: Framebuffer, id: u32 },
    /// The framebuffer is bound as `framebuffer`; the binner's memory is being asked for.
    Allocating { framebuffer: BufferObject },
    /// Memory that cannot hold the binner is on its way back.
    Releasing { physical_address: u32 },
    /// The device is complete.
    Ready(DeviceView),
    /// Bring-up has failed.
    Failed(BringUpFailure),
}

/// Whether a framebuffer can be bound as a buffer object: it is not empty and lies, from its
/// first byte to the one past its last, at 32-bit addresses.
pub open spec fn bindable(fb: Framebuffer) -> bool {
    fb.screen_size > 0 && fb.physical_address + fb.screen_size <= u32::MAX
}

/// The buffer object that stands for the framebuffer `fb` once the memory handle `id` has
/// led to it.
pub open spec fn bound(fb: Framebuffer, id: u32) -> BufferObject {
    BufferObject {
        size: fb.screen_size as u32,
        handle: id,
        physical_address: fb.physical_address as u32,
        mapped_address: fb.mapped_address,
        kind: BoKind::Framebuffer,
    }
}

/// The device that bring-up hands over: the framebuffer under the memory handle that led
/// to it, the binner, of `BINNER_BYTES` bytes in `memory`, under the handle after that, and
/// no request under way.
pub open spec fn complete(framebuffer: BufferObject, memory: Allocation) -> DeviceView {
    let binner = BufferObject {
        size: BINNER_BYTES,
        handle: (framebuffer.handle + 1) as u32,
        physical_address: memory.physical_address,
        mapped_address: memory.mapped_address,
        kind: BoKind::Binner,
    };
    DeviceView {
        objects: Map::<u32, BufferObject>::empty().insert(framebuffer.handle, framebuffer).insert(
            binner.handle,
            binner,
        ),
        next_handle: (framebuffer.handle + 2) as u32,
        framebuffer: framebuffer.handle,
        binner: binner.handle,
        pending: Pending::Idle,
    }
}

impl BringUpView {
    /// What bring-up asks for where it stands.
    pub open spec fn request(self) -> Probe {
        match self {
            BringUpView::PoweringOn => Probe::PowerOn,
            BringUpView::Identifying => Probe::ReadRegister { offset: IDENT0 },
            BringUpView::Locating => Probe::QueryFramebuffer,
            BringUpView::Probing { id, .. } => Probe::ResolveMemoryHandle { id },
            BringUpView::Allocating { .. } => Probe::Allocate { bytes: BINNER_BYTES },
            BringUpView::Releasing { physical_address } => Probe::Release { physical_address },
            BringUpView::Ready(_) => Probe::Install,
            BringUpView::Failed(reason) => Probe::Abort(reason),
        }
    }

    /// Where bring-up stands after `finding`.
    ///
    /// Each step goes on only with the finding that confirms it: power that is on, the
    /// expected identification, a framebuffer that can be bound, a memory handle that leads
    /// to the framebuffer's physical address, memory that can hold the binner. The memory
    /// handles are tried in their order and the first match is taken; with the last one
    /// tried in vain, and with anything else than the confirming finding in any other step,
    /// bring-up fails for the reason of that step. A bring-up that is ready or has failed
    /// stays as it is.
    pub open spec fn step(self, finding: Finding) -> BringUpView {
        match self {
            BringUpView::PoweringOn => match finding {
                Finding::Power(true) => BringUpView::Identifying,
                _ => BringUpView::Failed(BringUpFailure::PowerOnFailed),
            },
            BringUpView::Identifying => match finding {
                Finding::Register(value) if value == IDENT0_MAGIC => BringUpView::Locating,
                _ => BringUpView::Failed(BringUpFailure::IdentMismatch),
            },
            BringUpView::Locating => match finding {
                Finding::Framebuffer(Some(fb)) if bindable(fb) => BringUpView::Probing {
                    target: fb,
                    id: FIRST_MEMORY_HANDLE,
                },
                _ => BringUpView::Failed(BringUpFailure::NoFramebuffer),
            },
            BringUpView::Probing { target, id } => match finding {
                Finding::MemoryHandle(Some(address)) if address
                    == target.physical_address => BringUpView::Allocating {
                    framebuffer: bound(target, id),
                },
                Finding::MemoryHandle(_) if id < LAST_MEMORY_HANDLE => BringUpView::Probing {
                    target,
                    id: (id + 1) as u32,
                },
                _ => BringUpView::Failed(BringUpFailure::NoFramebuffer),
            },
            BringUpView::Allocating { framebuffer } => match finding {
                Finding::Memory(Some(memory)) => if BoStore::usable(BINNER_BYTES, memory) {
                    BringUpView::Ready(complete(framebuffer, memory))
                } else {
                    BringUpView::Releasing { physical_address: memory.physical_address }
                },
                _ => BringUpView::Failed(BringUpFailure::BinnerAllocationFailed),
            },
            BringUpView::Releasing { .. } => BringUpView::Failed(
                BringUpFailure::BinnerAllocationFailed,
            ),
            BringUpView::Ready(device) => BringUpView::Ready(device),
            BringUpView::Failed(reason) => BringUpView::Failed(reason),
        }
    }

    /// Where bring-up stands after the findings of `findings`, one after the other.
    pub open spec fn run(self, findings: Seq<Finding>) -> BringUpView
        decreases findings.len(),
    {
        if findings.len() == 0 {
            self
        } else {
            self.step(findings[0]).run(findings.subrange(1, findings.len() as int))
        }
    }

    /// What every bring-up that its own steps led to satisfies.
    pub open spec fn wf(self) -> bool {
        match self {
            BringUpView::Probing { target, id } => bindable(target) && FIRST_MEMORY_HANDLE <= id
                <= LAST_MEMORY_HANDLE,
            BringUpView::Allocating { framebuffer } => framebuffer.wf()
                && FIRST_MEMORY_HANDLE <= framebuffer.handle <= LAST_MEMORY_HANDLE,
            BringUpView::Ready(device) => device.wf(),
            _ => true,
        }
    }
}

/// Whether bring-up is still before the binding of the framebuffer, or has failed.
pub open spec fn unbound(state: BringUpView) -> bool {
    state is PoweringOn || state is Identifying || state is Locating || state is Failed
}

/// A bring-up that has failed stays failed, for the same reason, whatever it is told.
pub proof fn lemma_failure_is_final(reason: BringUpFailure, findings: Seq<Finding>)
    ensures
        BringUpView::Failed(reason).run(findings) == BringUpView::Failed(reason),
    decreases findings.len(),
{
    if findings.len() > 0 {
        lemma_failure_is_final(reason, findings.subrange(1, findings.len() as int));
    }
}

/// As long as no framebuffer is reported, bring-up does not get past the binding of the
/// framebuffer.
pub proof fn lemma_stays_unbound(state: BringUpView, findings: Seq<Finding>)
    requires
        unbound(state),
        forall|i: int|
            0 <= i < findings.len() ==> !(#[trigger] findings[i] matches Finding::Framebuffer(
                Some(_),
            )),
    ensures
        unbound(state.run(findings)),
    decreases findings.len(),
{
    if findings.len() > 0 {
        let rest = findings.subrange(1, findings.len() as int);
        assert forall|i: int| 0 <= i < rest.len() implies !(#[trigger] rest[i] matches Finding::Framebuffer(
            Some(_),
        )) by {}
        lemma_stays_unbound(state.step(findings[0]), rest);
    }
}

/// A bring-up to which no framebuffer is ever reported never holds a device and never asks
/// for the binner's memory, however far it is taken.
pub proof fn lemma_no_framebuffer_no_device(findings: Seq<Finding>)
    requires
        forall|i: int|
            0 <= i < findings.len() ==> !(#[trigger] findings[i] matches Finding::Framebuffer(
                Some(_),
            )),
    ensures
        !(BringUpView::PoweringOn.run(findings) is Ready),
        !(BringUpView::PoweringOn.run(findings).request() is Allocate),
        !(BringUpView::PoweringOn.run(findings).request() is Install),
{
    lemma_stays_unbound(BringUpView::PoweringOn, findings);
}

/// A bring-up that is told, when it asks for the framebuffer, that there is none has failed
/// for want of a framebuffer, and stays so.
pub proof fn lemma_absent_framebuffer_fails(findings: Seq<Finding>)
    ensures
        BringUpView::Locating.step(Finding::Framebuffer(None)).run(findings) == BringUpView::Failed(
            BringUpFailure::NoFramebuffer,
        ),
{
    lemma_failure_is_final(BringUpFailure::NoFramebuffer, findings);
}

/// The only register that bring-up reads is the identification register.
pub proof fn lemma_reads_identification_only(state: BringUpView)
    ensures
        state.request() matches Probe::ReadRegister { offset } ==> offset == IDENT0 && is_register(
            offset,
        ),
{
}

/// Every step leaves a bring-up well formed.
pub proof fn lemma_step_preserves_wf(state: BringUpView, finding: Finding)
    requires
        state.wf(),
    ensures
        state.step(finding).wf(),
{
}

#[derive(Clone, Copy, PartialEq, Eq, Structural)]
enum Stage {
    PoweringOn,
    Identifying,
    Locating,
    Probing,
    Allocating,
    Releasing,
    Ready,
    Failed,
}

/// A bring-up under way, over, or failed.
pub struct BringUp {
    stage: Stage,
    target: Framebuffer,
    id: u32,
    framebuffer: BufferObject,
    physical_address: u32,
    reason: BringUpFailure,
    device: Option<GpuDevice>,
}

impl View for BringUp {
    type V = BringUpView;

    closed spec fn view(&self) -> BringUpView {
        match self.stage {
            Stage::PoweringOn => BringUpView::PoweringOn,
            Stage::Identifying => BringUpView::Identifying,
            Stage::Locating => BringUpView::Locating,
            Stage::Probing => BringUpView::Probing { target: self.target, id: self.id },
            Stage::Allocating => BringUpView::Allocating { framebuffer: self.framebuffer },
            Stage::Releasing => BringUpView::Releasing { physical_address: self.physical_address },
            Stage::Ready => match self.device {
                Some(device) => BringUpView::Ready(device@),
                None => BringUpView::Failed(self.reason),
            },
            Stage::Failed => BringUpView::Failed(self.reason),
        }
    }
}

impl BringUp {
    /// The invariant of a bring-up; see `BringUpView::wf`.
    pub open spec fn wf(&self) -> bool {
        self@.wf()
    }

    /// A bring-up at its first step.
    pub fn begin() -> (bring_up: BringUp)
        ensures
            bring_up.wf(),
            bring_up@ == BringUpView::PoweringOn,
    {
        BringUp {
            stage: Stage::PoweringOn,
            target: Framebuffer { physical_address: 0, mapped_address: 0, screen_size: 0 },
            id: FIRST_MEMORY_HANDLE,
            framebuffer: BufferObject {
                size: 0,
                handle: 0,
                physical_address: 0,
                mapped_address: 0,
                kind: BoKind::Framebuffer,
            },
            physical_address: 0,
            reason: BringUpFailure::PowerOnFailed,
            device: None,
        }
    }

    /// What to do next.
    pub fn request(&self) -> (probe: Probe)
        ensures
            probe == self@.request(),
    {
        match self.stage {
            Stage::PoweringOn => Probe::PowerOn,
            Stage::Identifying => Probe::ReadRegister { offset: IDENT0 },
            Stage::Locating => Probe::QueryFramebuffer,
            Stage::Probing => Probe::ResolveMemoryHandle { id: self.id },
            Stage::Allocating => Probe::Allocate { bytes: BINNER_BYTES },
            Stage::Releasing => Probe::Release { physical_address: self.physical_address },
            Stage::Ready => match &self.device {
                Some(_) => Probe::Install,
                None => Probe::Abort(self.reason),
            },
            Stage::Failed => Probe::Abort(self.reason),
        }
    }

    fn abort(&mut self, reason: BringUpFailure)
        ensures
            final(self)@ == BringUpView::Failed(reason),
    {
        self.stage = Stage::Failed;
        self.reason = reason;
    }

    /// Takes what came of the last probe; see `BringUpView::step`.
    pub fn step(&mut self, finding: Finding)
        requires
            old(self).wf(),
        ensures
            final(self).wf(),
            final(self)@ == old(self)@.step(finding),
    {
        match self.stage {
            Stage::PoweringOn => match finding {
                Finding::Power(true) => {
                    self.stage = Stage::Identifying;
                },
                _ => {
                    self.abort(BringUpFailure::PowerOnFailed);
                },
            },
            Stage::Identifying => match finding {
                Finding::Register(value) => {
                    if value == IDENT0_MAGIC {
                        self.stage = Stage::Locating;
                    } else {
                        self.abort(BringUpFailure::IdentMismatch);
                    }
                },
                _ => {
                    self.abort(BringUpFailure::IdentMismatch);
                },
            },
            Stage::Locating => match finding {
                Finding::Framebuffer(Some(fb)) => {
                    if fb.screen_size > 0 && fb.screen_size <= 0xFFFF_FFFF && fb.physical_address
                        <= 0xFFFF_FFFF - fb.screen_size {
                        self.target = fb;
                        self.id = FIRST_MEMORY_HANDLE;
                        self.stage = Stage::Probing;
                    } else {
                        self.abort(BringUpFailure::NoFramebuffer);
                    }
                },
                _ => {
                    self.abort(BringUpFailure::NoFramebuffer);
                },
            },
            Stage::Probing => match finding {
                Finding::MemoryHandle(found) => {
                    let hit = match found {
                        Some(address) => address as usize == self.target.physical_address,
                        None => false,
                    };
                    if hit {
                        self.framebuffer = BufferObject {
                            size: self.target.screen_size as u32,
                            handle: self.id,
                            physical_address: self.target.physical_address as u32,
                            mapped_address: self.target.mapped_address,
                            kind: BoKind::Framebuffer,
                        };
                        self.stage = Stage::Allocating;
                    } else if self.id < LAST_MEMORY_HANDLE {
                        self.id = self.id + 1;
                    } else {
                        self.abort(BringUpFailure::NoFramebuffer);
                    }
                },
                _ => {
                    self.abort(BringUpFailure::NoFramebuffer);
                },
            },
            Stage::Allocating => match finding {
                Finding::Memory(Some(memory)) => {
                    let mut store = BoStore::new();
                    store.adopt(self.framebuffer);
                    match store.create(BINNER_BYTES, BoKind::Binner, memory) {
                        Ok(binner) => {
                            let device = GpuDevice::assemble(store, self.framebuffer.handle, binner);
                            assert(device@.objects == complete(
                                self.framebuffer,
                                memory,
                            ).objects);
                            self.device = Some(device);
                            self.stage = Stage::Ready;
                        },
                        Err(_) => {
                            self.physical_address = memory.physical_address;
                            self.stage = Stage::Releasing;
                        },
                    }
                },
                _ => {
                    self.abort(BringUpFailure::BinnerAllocationFailed);
                },
            },
            Stage::Releasing => {
                self.abort(BringUpFailure::BinnerAllocationFailed);
            },
            Stage::Ready => {},
            Stage::Failed => {},
        }
    }

    /// The device of a bring-up that is ready; `None` of any other.
    pub fn finish(self) -> (device: Option<GpuDevice>)
        requires
            self.wf(),
        ensures
            match self@ {
                BringUpView::Ready(view) => device matches Some(d) && d@ == view && d.wf(),
                _ => device is None,
            },
    {
        match self.stage {
            Stage::Ready => self.device,
            _ => None,
        }
    }
}

/// Installs the device of a finished bring-up in `slot`, the place where the one device of
/// the system is kept, and says whether it did. A bring-up that is not ready leaves `slot`
/// as it was: no device that is not complete is ever installed.
pub fn init(slot: &mut Option<GpuDevice>, bring_up: BringUp) -> (installed: bool)
    requires
        bring_up.wf(),
    ensures
        match bring_up@ {
            BringUpView::Ready(view) => installed && (*final(slot) matches Some(d) && d@ == view
                && d.wf()),
            _ => !installed && *final(slot) == *old(slot),
        },
{
    match bring_up.finish() {
        Some(device) => {
            *slot = Some(device);
            true
        },
        None => false,
    }
}

} // verus!
