//! The device: the buffer-object store, the two reserved buffer objects, and the dispatcher of
//! control requests.
//!
//! The device decides and its caller acts. A control request goes in through `io_control`; what
//! comes back is an `Effect`: either the reply, which ends the request, or something that only
//! the caller can do (ask for memory, read a control list, store the image, touch a register,
//! hand memory back). The caller does it and passes what came of it to `resume`, which gives
//! the next effect, until a reply comes.

use crate::bo::{page_round, page_span, Allocation, BoKind, BoStore, BufferObject};
use crate::error::GpuError;
use crate::regs::RegisterOp;
use crate::render::{build, image_of, Job, Phase, BINNER_PACKET_LEN, POLL_LIMIT};
use crate::request::{decode, declared, decoded, read_handles, Reply, Request, Source};
use crate::validate::{validate, validated};
use vstd::prelude::*;

verus! {

/// Whose memory an address lies in.
#[derive(Clone, Copy, Debug, PartialEq, Eq, Structural)]
pub enum Origin {
    /// Memory of the caller of the control request.
    Caller,
    /// Memory of a buffer object, at its mapped address.
    Device,
}

/// A run of bytes to be read.
#[derive(Clone, Copy, Debug, PartialEq, Eq, Structural)]
pub struct Span {
    pub origin: Origin,
    pub address: u64,
    pub length: u32,
}

/// What the device asks of its caller.
#[derive(Clone, Copy, Debug, PartialEq, Eq)]
pub enum Effect {
    /// The request is over: pass this on to its issuer.
    Reply(Result<Reply, GpuError>),
    /// Ask the memory collaborator for `bytes` bytes; answer with `Answer::Memory`.
    Allocate { bytes: u32 },
    /// Read the two control lists; answer with `Answer::Lists`.
    Fetch { bin: Span, render: Span },
    /// Copy the `length` bytes of the device's image to `mapped_address`; answer with
    /// `Answer::Done`.
    Store { mapped_address: usize, length: u32 },
    /// Write `value` to the register at `offset`; answer with `Answer::Done`.
    Write { offset: u32, value: u32 },
    /// Read the register at `offset`; answer with `Answer::Value`.
    Read { offset: u32 },
    /// Hand the memory at `physical_address` back to the memory collaborator; answer
    /// with `Answer::Done`.
    Release { physical_address: u32 },
}

/// What came of an effect.
#[derive(Debug, PartialEq, Eq)]
pub enum Answer {
    /// The effect has been carried out.
    Done,
    /// The memory that was asked for, or `None` where none is left.
    Memory(Option<Allocation>),
    /// The bytes of the two control lists.
    Lists { bin: Vec<u8>, render: Vec<u8> },
    /// What the register read.
    Value(u32),
}

/// The request that is under way, and what is known of it.
pub enum Pending {
    /// None is.
    Idle,
    /// A creation waits for its memory.
    Creating { size: u32, kind: BoKind },
    /// A submission waits for its control lists.
    Fetching { pinned: Seq<u32>, table: Seq<BufferObject>, bin: Span, render: Span },
    /// A submission waits for the memory that its image goes to.
    Allocating { pinned: Seq<u32>, image: Seq<u8>, split: u32 },
    /// A submission waits for its image to be stored.
    Storing { pinned: Seq<u32>, image: Seq<u8>, split: u32, scratch: Allocation },
    /// A submission is with the accelerator.
    Running { pinned: Seq<u32>, scratch: Allocation, job: Job },
    /// Memory is on its way back; then `outcome` is the reply.
    Closing { pinned: Seq<u32>, physical_address: u32, outcome: Result<Reply, GpuError> },
}

/// The device as its contracts see it.
pub struct DeviceView {
    /// The live buffer objects by handle.
    pub objects: Map<u32, BufferObject>,
    /// The handle that the next created buffer object gets.
    pub next_handle: u32,
    /// Handle of the buffer object that stands for the framebuffer.
    pub framebuffer: u32,
    /// Handle of the binner's buffer object.
    pub binner: u32,
    /// The request under way.
    pub pending: Pending,
}

/// The effect that makes a register access. None is left to make only for a job that is over,
/// and no submission that is with the accelerator holds such a job.
pub open spec fn access(op: Option<RegisterOp>) -> Effect {
    match op {
        Some(RegisterOp::Write { offset, value }) => Effect::Write { offset, value },
        Some(RegisterOp::Read { offset }) => Effect::Read { offset },
        None => Effect::Reply(Err(GpuError::HardwareTimeout)),
    }
}

/// The handle that a source keeps from being freed, if it is a buffer object.
pub open spec fn source_pin(source: Source) -> Seq<u32> {
    match source {
        Source::Inline { .. } => Seq::empty(),
        Source::Buffer { handle, .. } => seq![handle],
    }
}

impl DeviceView {
    /// The handles that the submission under way refers to.
    pub open spec fn pinned(self) -> Seq<u32> {
        match self.pending {
            Pending::Idle => Seq::empty(),
            Pending::Creating { .. } => Seq::empty(),
            Pending::Fetching { pinned, .. } => pinned,
            Pending::Allocating { pinned, .. } => pinned,
            Pending::Storing { pinned, .. } => pinned,
            Pending::Running { pinned, .. } => pinned,
            Pending::Closing { pinned, .. } => pinned,
        }
    }

    /// Whether every handle of `handles` names a live buffer object.
    pub open spec fn resolves(self, handles: Seq<u32>) -> bool {
        forall|i: int| 0 <= i < handles.len() ==> self.objects.contains_key(#[trigger] handles[i])
    }

    /// The buffer objects that `handles` name, in the order of the handles.
    pub open spec fn table_of(self, handles: Seq<u32>) -> Seq<BufferObject> {
        Seq::new(handles.len(), |i: int| self.objects[handles[i]])
    }

    /// The store holds well-formed objects under their own handles, all below the counter; the
    /// framebuffer and the binner are two of them; every handle that the submission under way
    /// refers to is live, and the resolved table holds the buffer objects as the store has
    /// them; and what is known of the request under way fits together.
    pub open spec fn wf(self) -> bool {
        &&& self.objects.dom().finite()
        &&& self.next_handle >= 1
        &&& forall|h: u32| #[trigger]
            self.objects.contains_key(h) ==> {
                &&& h < self.next_handle
                &&& self.objects[h].handle == h
                &&& self.objects[h].wf()
            }
        &&& self.objects.contains_key(self.framebuffer)
        &&& self.objects.contains_key(self.binner)
        &&& self.framebuffer != self.binner
        &&& self.resolves(self.pinned())
        &&& match self.pending {
            Pending::Idle => true,
            Pending::Creating { size, .. } => {
                &&& size > 0
                &&& page_span(size as int) <= u32::MAX
                &&& self.next_handle < u32::MAX
            },
            Pending::Fetching { pinned, table, .. } => {
                &&& table.len() <= pinned.len()
                &&& forall|i: int|
                    0 <= i < table.len() ==> #[trigger] table[i] == self.objects[pinned[i]]
            },
            Pending::Allocating { image, split, .. } => {
                &&& split <= image.len()
                &&& page_span(image.len() as int) <= u32::MAX
            },
            Pending::Storing { image, split, scratch, .. } => {
                &&& split <= image.len()
                &&& scratch.physical_address + page_span(image.len() as int) <= u32::MAX
            },
            Pending::Running { job, .. } => !job.done() && job.polls < POLL_LIMIT,
            Pending::Closing { outcome, .. } => outcome is Err || outcome == Ok::<
                Reply,
                GpuError,
            >(Reply::Submitted),
        }
    }

    /// Handles that are resolved in two parts are resolved together, and the other way
    /// round.
    pub proof fn lemma_resolves_both(self, a: Seq<u32>, b: Seq<u32>)
        ensures
            self.resolves(a + b) <==> self.resolves(a) && self.resolves(b),
    {
        if self.resolves(a + b) {
            assert forall|i: int| 0 <= i < a.len() implies self.objects.contains_key(
                #[trigger] a[i],
            ) by {
                assert((a + b)[i] == a[i]);
            }
            assert forall|i: int| 0 <= i < b.len() implies self.objects.contains_key(
                #[trigger] b[i],
            ) by {
                assert((a + b)[a.len() + i] == b[i]);
            }
        }
    }

    /// An upper bound on the answers that the request under way still takes.
    pub open spec fn budget(self) -> int {
        match self.pending {
            Pending::Idle => 0,
            Pending::Closing { .. } => 1,
            Pending::Creating { .. } => 2,
            Pending::Running { job, .. } => job.budget() + 2,
            Pending::Storing { .. } => 10 + 2 * POLL_LIMIT,
            Pending::Allocating { .. } => 11 + 2 * POLL_LIMIT,
            Pending::Fetching { .. } => 12 + 2 * POLL_LIMIT,
        }
    }

    /// Whether `handle` may not be freed: it names the framebuffer or the binner, or the
    /// submission under way refers to it.
    pub open spec fn protected(self, handle: u32) -> bool {
        handle == self.framebuffer || handle == self.binner || self.pinned().contains(handle)
    }

    /// The same device with no request under way.
    pub open spec fn idle(self) -> DeviceView {
        DeviceView { pending: Pending::Idle, ..self }
    }

    /// The request under way ends with the failure `error`, and nothing else changes.
    pub open spec fn fail(self, error: GpuError) -> (DeviceView, Effect) {
        (self.idle(), Effect::Reply(Err(error)))
    }

    /// The memory at `physical_address` goes back; after that `outcome` is the reply.
    pub open spec fn close(
        self,
        pinned: Seq<u32>,
        physical_address: u32,
        outcome: Result<Reply, GpuError>,
    ) -> (DeviceView, Effect) {
        (
            DeviceView { pending: Pending::Closing { pinned, physical_address, outcome }, ..self },
            Effect::Release { physical_address },
        )
    }

    /// Map-BO: where `handle` is mapped and how large it is, or `HandleNotFound`.
    pub open spec fn map_bo(self, handle: u32) -> Result<Reply, GpuError> {
        if self.objects.contains_key(handle) {
            Ok(
                Reply::Mapped {
                    mapped_address: self.objects[handle].mapped_address,
                    size: self.objects[handle].size,
                },
            )
        } else {
            Err(GpuError::HandleNotFound)
        }
    }

    /// Free-BO: `HandleNotFound` for a handle that names nothing, `Protected` for one that
    /// may not be freed; else the entry goes and the reply names its memory.
    pub open spec fn free_bo(self, handle: u32) -> (DeviceView, Effect) {
        if !self.objects.contains_key(handle) {
            (self, Effect::Reply(Err(GpuError::HandleNotFound)))
        } else if self.protected(handle) {
            (self, Effect::Reply(Err(GpuError::Protected)))
        } else {
            (
                DeviceView { objects: self.objects.remove(handle), ..self },
                Effect::Reply(
                    Ok(Reply::Freed { physical_address: self.objects[handle].physical_address }),
                ),
            )
        }
    }

    /// Create-BO, first half: `Busy` while another request is under way, `AllocationFailure`
    /// for a size of 0, a size whose page span is no 32-bit number, or when no handle is left;
    /// else memory for the page span is asked for.
    pub open spec fn create_bo(self, size: u32, kind: BoKind) -> (DeviceView, Effect) {
        if !(self.pending is Idle) {
            (self, Effect::Reply(Err(GpuError::Busy)))
        } else if size == 0 || page_span(size as int) > u32::MAX || self.next_handle
            == u32::MAX {
            (self, Effect::Reply(Err(GpuError::AllocationFailure)))
        } else {
            (
                DeviceView { pending: Pending::Creating { size, kind }, ..self },
                Effect::Allocate { bytes: page_span(size as int) as u32 },
            )
        }
    }

    /// Where a source is to be read: an inline source where it says, a buffer object at its
    /// mapped address. `HandleNotFound` for a handle that names nothing, `OutOfBounds` for a
    /// length beyond the size of the buffer object.
    pub open spec fn locate(self, source: Source) -> Result<Span, GpuError> {
        match source {
            Source::Inline { address, length } => Ok(
                Span { origin: Origin::Caller, address, length },
            ),
            Source::Buffer { handle, length } => if !self.objects.contains_key(handle) {
                Err(GpuError::HandleNotFound)
            } else if length > self.objects[handle].size {
                Err(GpuError::OutOfBounds)
            } else {
                Ok(
                    Span {
                        origin: Origin::Device,
                        address: self.objects[handle].mapped_address as u64,
                        length,
                    },
                )
            },
        }
    }

    /// Submit-Command-List, first step. The declared handles, and the handles of lists that
    /// lie in buffer objects, are resolved before anything else is looked at: one that names
    /// nothing is `HandleNotFound`. Then the two sources are located, then `Busy` is answered
    /// while another request is under way. Else the handles are pinned and the two lists are
    /// asked for.
    pub open spec fn submit_cl(self, bin: Source, render: Source, handles: Seq<u32>) -> (
        DeviceView,
        Effect,
    ) {
        let pins = handles + source_pin(bin) + source_pin(render);
        if !self.resolves(pins) {
            (self, Effect::Reply(Err(GpuError::HandleNotFound)))
        } else {
            match (self.locate(bin), self.locate(render)) {
                (Err(e), _) => (self, Effect::Reply(Err(e))),
                (Ok(_), Err(e)) => (self, Effect::Reply(Err(e))),
                (Ok(b), Ok(r)) => if !(self.pending is Idle) {
                    (self, Effect::Reply(Err(GpuError::Busy)))
                } else {
                    (
                        DeviceView {
                            pending: Pending::Fetching {
                                pinned: pins,
                                table: self.table_of(handles),
                                bin: b,
                                render: r,
                            },
                            ..self
                        },
                        Effect::Fetch { bin: b, render: r },
                    )
                },
            }
        }
    }

    /// What a control request does to the device, and what it asks of the caller first.
    ///
    /// A request that cannot be decoded fails as `decoded` says and changes nothing.
    pub open spec fn control(self, cmd: u32, record: Seq<u8>) -> (DeviceView, Effect) {
        match decoded(cmd, record) {
            Err(e) => (self, Effect::Reply(Err(e))),
            Ok(Request::MapBo { handle }) => (self, Effect::Reply(self.map_bo(handle))),
            Ok(Request::FreeBo { handle }) => self.free_bo(handle),
            Ok(Request::CreateBo { size, kind }) => self.create_bo(size, kind),
            Ok(Request::SubmitCl { bin, render, handles }) => self.submit_cl(
                bin,
                render,
                declared(record, handles),
            ),
        }
    }

    /// Create-BO, second half: with memory that can back the object, the object is entered
    /// under the next handle and the counter moves on. With none, `AllocationFailure`; with
    /// memory that cannot back it, the memory goes back first.
    pub open spec fn created(self, size: u32, kind: BoKind, answer: Answer) -> (
        DeviceView,
        Effect,
    ) {
        match answer {
            Answer::Memory(Some(memory)) => if BoStore::usable(size, memory) {
                (
                    DeviceView {
                        objects: self.objects.insert(
                            self.next_handle,
                            BufferObject {
                                size,
                                handle: self.next_handle,
                                physical_address: memory.physical_address,
                                mapped_address: memory.mapped_address,
                                kind,
                            },
                        ),
                        next_handle: (self.next_handle + 1) as u32,
                        pending: Pending::Idle,
                        ..self
                    },
                    Effect::Reply(Ok(Reply::Created { handle: self.next_handle })),
                )
            } else {
                self.close(
                    Seq::empty(),
                    memory.physical_address,
                    Err(GpuError::AllocationFailure),
                )
            },
            Answer::Memory(None) => self.fail(GpuError::AllocationFailure),
            _ => self.fail(GpuError::BadPayload),
        }
    }

    /// Submit-Command-List, with the lists at hand: each is validated against the resolved
    /// table, the bin-phase list first, and the first rejection ends the request with its
    /// error. Lists of another length than was asked for are `BadPayload`. From two lists
    /// that pass, the image is built, and memory for its page span is asked for;
    /// `AllocationFailure` where that span is no 32-bit number.
    pub open spec fn fetched(
        self,
        pinned: Seq<u32>,
        table: Seq<BufferObject>,
        bin: Span,
        render: Span,
        answer: Answer,
    ) -> (DeviceView, Effect) {
        match answer {
            Answer::Lists { bin: b, render: r } => if b@.len() != bin.length || r@.len()
                != render.length {
                self.fail(GpuError::BadPayload)
            } else {
                match (validated(b@, table), validated(r@, table)) {
                    (Err(rejection), _) => self.fail(rejection.error),
                    (Ok(_), Err(rejection)) => self.fail(rejection.error),
                    (Ok(vb), Ok(vr)) => {
                        let image = image_of(vb, vr, self.objects[self.binner]);
                        if page_span(image.len() as int) > u32::MAX {
                            self.fail(GpuError::AllocationFailure)
                        } else {
                            (
                                DeviceView {
                                    pending: Pending::Allocating {
                                        pinned,
                                        image,
                                        split: (vb.len() + BINNER_PACKET_LEN) as u32,
                                    },
                                    ..self
                                },
                                Effect::Allocate { bytes: page_span(image.len() as int) as u32 },
                            )
                        }
                    },
                }
            },
            _ => self.fail(GpuError::BadPayload),
        }
    }

    /// Submit-Command-List, with the memory for the image: the image is to be stored there.
    /// With none, `AllocationFailure`; memory that the image does not fit goes back first.
    pub open spec fn allocated(self, pinned: Seq<u32>, image: Seq<u8>, split: u32, answer: Answer) -> (
        DeviceView,
        Effect,
    ) {
        match answer {
            Answer::Memory(Some(memory)) => if memory.physical_address + page_span(
                image.len() as int,
            ) <= u32::MAX {
                (
                    DeviceView {
                        pending: Pending::Storing { pinned, image, split, scratch: memory },
                        ..self
                    },
                    Effect::Store {
                        mapped_address: memory.mapped_address,
                        length: image.len() as u32,
                    },
                )
            } else {
                self.close(pinned, memory.physical_address, Err(GpuError::AllocationFailure))
            },
            Answer::Memory(None) => self.fail(GpuError::AllocationFailure),
            _ => self.fail(GpuError::BadPayload),
        }
    }

    /// Submit-Command-List, with the image stored: the job starts with its first register
    /// access.
    pub open spec fn stored(
        self,
        pinned: Seq<u32>,
        image: Seq<u8>,
        split: u32,
        scratch: Allocation,
        answer: Answer,
    ) -> (DeviceView, Effect) {
        match answer {
            Answer::Done => {
                let job = Job::starting(scratch.physical_address, split, image.len() as u32);
                (
                    DeviceView { pending: Pending::Running { pinned, scratch, job }, ..self },
                    access(job.pending()),
                )
            },
            _ => self.close(pinned, scratch.physical_address, Err(GpuError::BadPayload)),
        }
    }

    /// What a register access of the job gave, if `answer` is the answer to it: 0 for a
    /// write that was made, the value for a read.
    pub open spec fn observed(job: Job, answer: Answer) -> Option<u32> {
        match (job.pending(), answer) {
            (Some(RegisterOp::Write { .. }), Answer::Done) => Some(0),
            (Some(RegisterOp::Read { .. }), Answer::Value(value)) => Some(value),
            _ => None,
        }
    }

    /// Submit-Command-List, with the accelerator: the job moves on by one register access.
    /// When it has finished or timed out, the memory of the image goes back, and the reply is
    /// `Submitted` or `HardwareTimeout`.
    pub open spec fn ran(self, pinned: Seq<u32>, scratch: Allocation, job: Job, answer: Answer) -> (
        DeviceView,
        Effect,
    ) {
        match Self::observed(job, answer) {
            None => self.close(pinned, scratch.physical_address, Err(GpuError::BadPayload)),
            Some(value) => {
                let next = job.after(value);
                if next.phase == Phase::Finished {
                    self.close(pinned, scratch.physical_address, Ok(Reply::Submitted))
                } else if next.phase == Phase::TimedOut {
                    self.close(
                        pinned,
                        scratch.physical_address,
                        Err(GpuError::HardwareTimeout),
                    )
                } else {
                    (
                        DeviceView {
                            pending: Pending::Running { pinned, scratch, job: next },
                            ..self
                        },
                        access(next.pending()),
                    )
                }
            },
        }
    }

    /// What the answer to the last effect does to the device, and the effect that follows.
    ///
    /// With no request under way, and for an answer that is not the answer to the last
    /// effect, the reply is `BadPayload`; memory that the request holds goes back first.
    pub open spec fn resume(self, answer: Answer) -> (DeviceView, Effect) {
        match self.pending {
            Pending::Idle => self.fail(GpuError::BadPayload),
            Pending::Creating { size, kind } => self.created(size, kind, answer),
            Pending::Fetching { pinned, table, bin, render } => self.fetched(
                pinned,
                table,
                bin,
                render,
                answer,
            ),
            Pending::Allocating { pinned, image, split } => self.allocated(
                pinned,
                image,
                split,
                answer,
            ),
            Pending::Storing { pinned, image, split, scratch } => self.stored(
                pinned,
                image,
                split,
                scratch,
                answer,
            ),
            Pending::Running { pinned, scratch, job } => self.ran(pinned, scratch, job, answer),
            Pending::Closing { outcome, .. } => (self.idle(), Effect::Reply(outcome)),
        }
    }
}

/// Which kind of request is under way.
#[derive(Clone, Copy, PartialEq, Eq, Structural)]
enum Stage {
    Idle,
    Creating,
    Fetching,
    Allocating,
    Storing,
    Running,
    Closing,
}

/// The accelerator's device: the store of buffer objects, the handles of the framebuffer and
/// of the binner, and the control request that is under way.
pub struct GpuDevice {
    store: BoStore,
    framebuffer: u32,
    binner: u32,
    stage: Stage,
    size: u32,
    kind: BoKind,
    pinned: Vec<u32>,
    table: Vec<BufferObject>,
    bin: Span,
    render: Span,
    image: Vec<u8>,
    split: u32,
    scratch: Allocation,
    job: Job,
    outcome: Result<Reply, GpuError>,
}

impl View for GpuDevice {
    type V = DeviceView;

    closed spec fn view(&self) -> DeviceView {
        DeviceView {
            objects: self.store@,
            next_handle: self.store.next_handle(),
            framebuffer: self.framebuffer,
            binner: self.binner,
            pending: match self.stage {
                Stage::Idle => Pending::Idle,
                Stage::Creating => Pending::Creating { size: self.size, kind: self.kind },
                Stage::Fetching => Pending::Fetching {
                    pinned: self.pinned@,
                    table: self.table@,
                    bin: self.bin,
                    render: self.render,
                },
                Stage::Allocating => Pending::Allocating {
                    pinned: self.pinned@,
                    image: self.image@,
                    split: self.split,
                },
                Stage::Storing => Pending::Storing {
                    pinned: self.pinned@,
                    image: self.image@,
                    split: self.split,
                    scratch: self.scratch,
                },
                Stage::Running => Pending::Running {
                    pinned: self.pinned@,
                    scratch: self.scratch,
                    job: self.job,
                },
                Stage::Closing => Pending::Closing {
                    pinned: self.pinned@,
                    physical_address: self.scratch.physical_address,
                    outcome: self.outcome,
                },
            },
        }
    }
}

/// The effect that makes the register access `op`.
fn effect_of(op: Option<RegisterOp>) -> (effect: Effect)
    ensures
        effect == access(op),
{
    match op {
        Some(RegisterOp::Write { offset, value }) => Effect::Write { offset, value },
        Some(RegisterOp::Read { offset }) => Effect::Read { offset },
        None => Effect::Reply(Err(GpuError::HardwareTimeout)),
    }
}

impl GpuDevice {
    /// The invariant of the device; see `DeviceView::wf`.
    pub open spec fn wf(&self) -> bool {
        self@.wf()
    }

    /// A device with the buffer objects of `store`, of which `framebuffer` and `binner` are
    /// two, and no request under way.
    pub(crate) fn assemble(store: BoStore, framebuffer: u32, binner: u32) -> (device: GpuDevice)
        requires
            store.wf(),
            store@.contains_key(framebuffer),
            store@.contains_key(binner),
            framebuffer != binner,
        ensures
            device.wf(),
            device@ == (DeviceView {
                objects: store@,
                next_handle: store.next_handle(),
                framebuffer,
                binner,
                pending: Pending::Idle,
            }),
    {
        let nowhere = Span { origin: Origin::Caller, address: 0, length: 0 };
        let device = GpuDevice {
            store,
            framebuffer,
            binner,
            stage: Stage::Idle,
            size: 0,
            kind: BoKind::Normal,
            pinned: Vec::new(),
            table: Vec::new(),
            bin: nowhere,
            render: nowhere,
            image: Vec::new(),
            split: 0,
            scratch: Allocation { physical_address: 0, mapped_address: 0 },
            job: Job::start(0, 0, 0),
            outcome: Ok(Reply::Submitted),
        };
        device
    }

    /// Handle of the buffer object that stands for the framebuffer.
    pub fn framebuffer(&self) -> (handle: u32)
        ensures
            handle == self@.framebuffer,
    {
        self.framebuffer
    }

    /// Handle of the binner's buffer object.
    pub fn binner(&self) -> (handle: u32)
        ensures
            handle == self@.binner,
    {
        self.binner
    }

    /// Number of live buffer objects.
    pub fn len(&self) -> (n: usize)
        requires
            self.wf(),
        ensures
            n == self@.objects.len(),
    {
        self.store.len()
    }

    /// The handle that the next created buffer object gets.
    pub fn upcoming(&self) -> (handle: u32)
        ensures
            handle == self@.next_handle,
    {
        self.store.upcoming()
    }

    /// Whether no request is under way.
    pub fn is_idle(&self) -> (idle: bool)
        ensures
            idle == (self@.pending is Idle),
    {
        self.stage == Stage::Idle
    }

    /// The buffer object that `handle` names; `HandleNotFound` where it names none.
    pub fn lookup(&self, handle: u32) -> (found: Result<BufferObject, GpuError>)
        ensures
            self@.objects.contains_key(handle) ==> found == Ok::<BufferObject, GpuError>(
                self@.objects[handle],
            ),
            !self@.objects.contains_key(handle) ==> found == Err::<BufferObject, GpuError>(
                GpuError::HandleNotFound,
            ),
    {
        self.store.lookup(handle)
    }

    /// The image of the submission under way, for the caller to store where `Effect::Store`
    /// says.
    pub fn image(&self) -> (image: &Vec<u8>)
        ensures
            self@.pending matches Pending::Storing { image: held, .. } ==> image@ == held,
    {
        &self.image
    }

    /// Resolves the declared handles of a submission against the store: the buffer objects
    /// in the order of the handles, or `HandleNotFound` as soon as one names nothing. No
    /// control list is looked at, nor asked for.
    pub fn resolve(&self, handles: &[u32]) -> (table: Result<Vec<BufferObject>, GpuError>)
        ensures
            match table {
                Ok(t) => self@.resolves(handles@) && t@ == self@.table_of(handles@),
                Err(e) => e == GpuError::HandleNotFound && !self@.resolves(handles@),
            },
    {
        let mut table: Vec<BufferObject> = Vec::new();
        let mut i: usize = 0;
        while i < handles.len()
            invariant
                i <= handles@.len(),
                table@.len() == i,
                forall|j: int| 0 <= j < i ==> self@.objects.contains_key(#[trigger] handles@[j]),
                forall|j: int| 0 <= j < i ==> table@[j] == self@.objects[handles@[j]],
            decreases handles@.len() - i,
        {
            match self.store.lookup(handles[i]) {
                Ok(bo) => {
                    table.push(bo);
                },
                Err(e) => {
                    return Err(e);
                },
            }
            i += 1;
        }
        Ok(table)
    }

    /// Where a source is to be read; see `DeviceView::locate`.
    pub fn locate(&self, source: Source) -> (span: Result<Span, GpuError>)
        ensures
            span == self@.locate(source),
    {
        match source {
            Source::Inline { address, length } => Ok(
                Span { origin: Origin::Caller, address, length },
            ),
            Source::Buffer { handle, length } => match self.store.lookup(handle) {
                Err(e) => Err(e),
                Ok(bo) => if length > bo.size {
                    Err(GpuError::OutOfBounds)
                } else {
                    Ok(
                        Span {
                            origin: Origin::Device,
                            address: bo.mapped_address as u64,
                            length,
                        },
                    )
                },
            },
        }
    }

    fn fail(&mut self, error: GpuError) -> (effect: Effect)
        requires
            old(self).wf(),
        ensures
            final(self).wf(),
            (final(self)@, effect) == old(self)@.fail(error),
    {
        self.stage = Stage::Idle;
        self.pinned = Vec::new();
        self.table = Vec::new();
        self.image = Vec::new();
        Effect::Reply(Err(error))
    }

    fn close(&mut self, physical_address: u32, outcome: Result<Reply, GpuError>) -> (effect:
        Effect)
        requires
            old(self).wf(),
            old(self)@.resolves(old(self).pinned@),
            outcome is Err || outcome == Ok::<Reply, GpuError>(Reply::Submitted),
        ensures
            final(self).wf(),
            (final(self)@, effect) == old(self)@.close(
                old(self).pinned@,
                physical_address,
                outcome,
            ),
    {
        self.stage = Stage::Closing;
        self.scratch = Allocation { physical_address, mapped_address: self.scratch.mapped_address };
        self.outcome = outcome;
        self.table = Vec::new();
        self.image = Vec::new();
        Effect::Release { physical_address }
    }

    fn submit(&mut self, bin: Source, render: Source, handles: Vec<u32>) -> (effect: Effect)
        requires
            old(self).wf(),
        ensures
            final(self).wf(),
            (final(self)@, effect) == old(self)@.submit_cl(bin, render, handles@),
    {
        proof {
            self@.lemma_resolves_both(handles@, source_pin(bin));
            self@.lemma_resolves_both(handles@ + source_pin(bin), source_pin(render));
        }
        let table = match self.resolve(handles.as_slice()) {
            Ok(table) => table,
            Err(e) => {
                return Effect::Reply(Err(e));
            },
        };
        let ghost declared = handles@;
        let mut pinned = handles;
        if let Source::Buffer { handle, .. } = bin {
            if !self.store.contains(handle) {
                assert(source_pin(bin)[0] == handle);
                return Effect::Reply(Err(GpuError::HandleNotFound));
            }
            pinned.push(handle);
        }
        if let Source::Buffer { handle, .. } = render {
            if !self.store.contains(handle) {
                assert(source_pin(render)[0] == handle);
                return Effect::Reply(Err(GpuError::HandleNotFound));
            }
            pinned.push(handle);
        }
        assert(pinned@ == declared + source_pin(bin) + source_pin(render));
        let b = match self.locate(bin) {
            Ok(span) => span,
            Err(e) => {
                return Effect::Reply(Err(e));
            },
        };
        let r = match self.locate(render) {
            Ok(span) => span,
            Err(e) => {
                return Effect::Reply(Err(e));
            },
        };
        if self.stage != Stage::Idle {
            return Effect::Reply(Err(GpuError::Busy));
        }
        self.pinned = pinned;
        self.table = table;
        self.bin = b;
        self.render = r;
        self.stage = Stage::Fetching;
        Effect::Fetch { bin: b, render: r }
    }

    /// Takes a control request: decodes the record that goes with the request code and
    /// starts the operation it names. The device changes, and the effect is, as
    /// `DeviceView::control` says.
    ///
    /// `MMAP_BO` and `FREE_BO` are answered at once. `CREATE_BO` and `SUBMIT_CL` that are
    /// in order ask something of the caller, who goes on with `resume`. A request that fails
    /// leaves the device as it was.
    pub fn io_control(&mut self, cmd: u32, payload: &[u8]) -> (effect: Effect)
        requires
            old(self).wf(),
        ensures
            final(self).wf(),
            (final(self)@, effect) == old(self)@.control(cmd, payload@),
    {
        match decode(cmd, payload) {
            Err(e) => Effect::Reply(Err(e)),
            Ok(Request::MapBo { handle }) => match self.store.map(handle) {
                Ok((mapped_address, size)) => Effect::Reply(
                    Ok(Reply::Mapped { mapped_address, size }),
                ),
                Err(e) => Effect::Reply(Err(e)),
            },
            Ok(Request::FreeBo { handle }) => {
                if !self.store.contains(handle) {
                    return Effect::Reply(Err(GpuError::HandleNotFound));
                }
                if handle == self.framebuffer || handle == self.binner || (self.stage
                    != Stage::Idle && self.stage != Stage::Creating && holds(
                    self.pinned.as_slice(),
                    handle,
                )) {
                    return Effect::Reply(Err(GpuError::Protected));
                }
                match self.store.free(handle) {
                    Ok(bo) => Effect::Reply(
                        Ok(Reply::Freed { physical_address: bo.physical_address }),
                    ),
                    Err(e) => Effect::Reply(Err(e)),
                }
            },
            Ok(Request::CreateBo { size, kind }) => {
                if self.stage != Stage::Idle {
                    return Effect::Reply(Err(GpuError::Busy));
                }
                match self.store.plan(size) {
                    Err(e) => Effect::Reply(Err(e)),
                    Ok(bytes) => {
                        self.size = size;
                        self.kind = kind;
                        self.stage = Stage::Creating;
                        Effect::Allocate { bytes }
                    },
                }
            },
            Ok(Request::SubmitCl { bin, render, handles }) => {
                let declared = read_handles(payload, handles);
                self.submit(bin, render, declared)
            },
        }
    }

    fn created(&mut self, answer: Answer) -> (effect: Effect)
        requires
            old(self).wf(),
            old(self).stage == Stage::Creating,
        ensures
            final(self).wf(),
            (final(self)@, effect) == old(self)@.created(old(self).size, old(self).kind, answer),
    {
        match answer {
            Answer::Memory(Some(memory)) => {
                match self.store.create(self.size, self.kind, memory) {
                    Ok(handle) => {
                        self.stage = Stage::Idle;
                        Effect::Reply(Ok(Reply::Created { handle }))
                    },
                    Err(_) => {
                        self.pinned = Vec::new();
                        self.close(memory.physical_address, Err(GpuError::AllocationFailure))
                    },
                }
            },
            Answer::Memory(None) => self.fail(GpuError::AllocationFailure),
            _ => self.fail(GpuError::BadPayload),
        }
    }

    fn fetched(&mut self, answer: Answer) -> (effect: Effect)
        requires
            old(self).wf(),
            old(self).stage == Stage::Fetching,
        ensures
            final(self).wf(),
            (final(self)@, effect) == old(self)@.fetched(
                old(self).pinned@,
                old(self).table@,
                old(self).bin,
                old(self).render,
                answer,
            ),
    {
        match answer {
            Answer::Lists { bin, render } => {
                if bin.len() != self.bin.length as usize || render.len()
                    != self.render.length as usize {
                    return self.fail(GpuError::BadPayload);
                }
                let vb = match validate(bin.as_slice(), self.table.as_slice()) {
                    Ok(list) => list,
                    Err(rejection) => {
                        return self.fail(rejection.error);
                    },
                };
                let vr = match validate(render.as_slice(), self.table.as_slice()) {
                    Ok(list) => list,
                    Err(rejection) => {
                        return self.fail(rejection.error);
                    },
                };
                let binner = match self.store.lookup(self.binner) {
                    Ok(bo) => bo,
                    Err(e) => {
                        return self.fail(e);
                    },
                };
                let image = build(vb.as_slice(), vr.as_slice(), binner);
                let bytes = match page_round(image.len()) {
                    Some(bytes) => bytes,
                    None => {
                        return self.fail(GpuError::AllocationFailure);
                    },
                };
                self.split = (vb.len() + BINNER_PACKET_LEN) as u32;
                self.image = image;
                self.table = Vec::new();
                self.stage = Stage::Allocating;
                Effect::Allocate { bytes }
            },
            _ => self.fail(GpuError::BadPayload),
        }
    }

    fn allocated(&mut self, answer: Answer) -> (effect: Effect)
        requires
            old(self).wf(),
            old(self).stage == Stage::Allocating,
        ensures
            final(self).wf(),
            (final(self)@, effect) == old(self)@.allocated(
                old(self).pinned@,
                old(self).image@,
                old(self).split,
                answer,
            ),
    {
        match answer {
            Answer::Memory(Some(memory)) => {
                let length: u32 = self.image.len() as u32;
                let bytes: u32 = match page_round(self.image.len()) {
                    Some(bytes) => bytes,
                    None => 0,
                };
                if memory.physical_address as u64 + bytes as u64 > 0xFFFF_FFFF {
                    self.close(memory.physical_address, Err(GpuError::AllocationFailure))
                } else {
                    self.scratch = memory;
                    self.stage = Stage::Storing;
                    Effect::Store { mapped_address: memory.mapped_address, length }
                }
            },
            Answer::Memory(None) => self.fail(GpuError::AllocationFailure),
            _ => self.fail(GpuError::BadPayload),
        }
    }

    fn stored(&mut self, answer: Answer) -> (effect: Effect)
        requires
            old(self).wf(),
            old(self).stage == Stage::Storing,
        ensures
            final(self).wf(),
            (final(self)@, effect) == old(self)@.stored(
                old(self).pinned@,
                old(self).image@,
                old(self).split,
                old(self).scratch,
                answer,
            ),
    {
        match answer {
            Answer::Done => {
                let length: u32 = self.image.len() as u32;
                let job = Job::start(self.scratch.physical_address, self.split, length);
                self.job = job;
                self.image = Vec::new();
                self.stage = Stage::Running;
                effect_of(job.op())
            },
            _ => self.close(self.scratch.physical_address, Err(GpuError::BadPayload)),
        }
    }

    fn ran(&mut self, answer: Answer) -> (effect: Effect)
        requires
            old(self).wf(),
            old(self).stage == Stage::Running,
        ensures
            final(self).wf(),
            (final(self)@, effect) == old(self)@.ran(
                old(self).pinned@,
                old(self).scratch,
                old(self).job,
                answer,
            ),
    {
        let observed = match (self.job.op(), answer) {
            (Some(RegisterOp::Write { .. }), Answer::Done) => Some(0u32),
            (Some(RegisterOp::Read { .. }), Answer::Value(value)) => Some(value),
            _ => None,
        };
        match observed {
            None => self.close(self.scratch.physical_address, Err(GpuError::BadPayload)),
            Some(value) => {
                proof {
                    self.job.lemma_bounded(value);
                }
                let next = self.job.advance(value);
                match next.phase {
                    Phase::Finished => self.close(
                        self.scratch.physical_address,
                        Ok(Reply::Submitted),
                    ),
                    Phase::TimedOut => self.close(
                        self.scratch.physical_address,
                        Err(GpuError::HardwareTimeout),
                    ),
                    _ => {
                        self.job = next;
                        effect_of(next.op())
                    },
                }
            },
        }
    }

    /// Takes the answer to the last effect and gives the next one. The device changes, and
    /// the effect is, as `DeviceView::resume` says.
    pub fn resume(&mut self, answer: Answer) -> (effect: Effect)
        requires
            old(self).wf(),
        ensures
            final(self).wf(),
            (final(self)@, effect) == old(self)@.resume(answer),
    {
        match self.stage {
            Stage::Idle => self.fail(GpuError::BadPayload),
            Stage::Creating => self.created(answer),
            Stage::Fetching => self.fetched(answer),
            Stage::Allocating => self.allocated(answer),
            Stage::Storing => self.stored(answer),
            Stage::Running => self.ran(answer),
            Stage::Closing => {
                let outcome = self.outcome;
                self.stage = Stage::Idle;
                self.pinned = Vec::new();
                Effect::Reply(outcome)
            },
        }
    }
}

/// Whether `handle` is one of `handles`.
fn holds(handles: &[u32], handle: u32) -> (found: bool)
    ensures
        found == handles@.contains(handle),
{
    let mut i: usize = 0;
    while i < handles.len()
        invariant
            i <= handles@.len(),
            forall|j: int| 0 <= j < i ==> handles@[j] != handle,
        decreases handles@.len() - i,
    {
        if handles[i] == handle {
            return true;
        }
        i += 1;
    }
    false
}

} // verus!
