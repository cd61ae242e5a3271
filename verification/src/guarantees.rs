//! What holds of the device whatever requests and answers it is given.

use crate::bo::{lemma_page_span_covers, BufferObject};
use crate::device::{source_pin, Answer, DeviceView, Effect, Pending, Span};
use crate::error::GpuError;
use crate::request::{declared, decoded, Reply, Request, Source, FREE_BO};
use crate::render::image_of;
use crate::validate::{
    confined, lemma_spill_is_out_of_bounds, lemma_validated_is_confined, spills_at, validated,
    Rejection,
};
use vstd::prelude::*;

verus! {

/// Whether `effect` touches a register.
pub open spec fn touches_register(effect: Effect) -> bool {
    effect is Write || effect is Read
}

/// A control request leaves the device well formed.
pub proof fn lemma_control_preserves_wf(device: DeviceView, cmd: u32, record: Seq<u8>)
    requires
        device.wf(),
    ensures
        device.control(cmd, record).0.wf(),
{
}

/// An answer leaves the device well formed.
pub proof fn lemma_resume_preserves_wf(device: DeviceView, answer: Answer)
    requires
        device.wf(),
    ensures
        device.resume(answer).0.wf(),
{
    match device.pending {
        Pending::Running { job, .. } => {
            if let Some(value) = DeviceView::observed(job, answer) {
                job.lemma_bounded(value);
            }
        },
        Pending::Storing { image, .. } => {
            lemma_page_span_covers(image.len() as int);
        },
        _ => {},
    }
}

/// A created buffer object gets a handle that is not 0 and that names no buffer object
/// that was live before; it is live afterwards, and every other buffer object stays as it
/// was.
pub proof fn lemma_created_handle_is_fresh(device: DeviceView, answer: Answer, handle: u32)
    requires
        device.wf(),
        device.resume(answer).1 == Effect::Reply(Ok(Reply::Created { handle })),
    ensures
        handle != 0,
        !device.objects.contains_key(handle),
        device.resume(answer).0.objects.contains_key(handle),
        device.resume(answer).0.objects.remove(handle) == device.objects,
        device.resume(answer).0.next_handle > handle,
{
    match device.pending {
        Pending::Running { job, .. } => {
            if let Some(value) = DeviceView::observed(job, answer) {
                job.lemma_bounded(value);
            }
        },
        _ => {},
    }
}

/// Whether `handle` lies below the handle counter and names no live buffer object. The
/// counter only moves up, so no request gives such a handle to a buffer object again.
pub open spec fn retired(device: DeviceView, handle: u32) -> bool {
    handle < device.next_handle && !device.objects.contains_key(handle)
}

/// A freed handle is retired.
pub proof fn lemma_free_retires(device: DeviceView, handle: u32)
    requires
        device.wf(),
        device.free_bo(handle).1 is Reply,
        device.free_bo(handle).1->Reply_0 is Ok,
    ensures
        retired(device.free_bo(handle).0, handle),
        device.objects.contains_key(handle),
        device.free_bo(handle).0.objects == device.objects.remove(handle),
{
}

/// A retired handle stays retired through every control request.
pub proof fn lemma_retired_through_control(
    device: DeviceView,
    handle: u32,
    cmd: u32,
    record: Seq<u8>,
)
    requires
        device.wf(),
        retired(device, handle),
    ensures
        retired(device.control(cmd, record).0, handle),
{
}

/// A retired handle stays retired through every answer.
pub proof fn lemma_retired_through_resume(device: DeviceView, handle: u32, answer: Answer)
    requires
        device.wf(),
        retired(device, handle),
    ensures
        retired(device.resume(answer).0, handle),
{
}

/// After Free-BO of a handle has gone well, Map-BO of that handle, and every submission that
/// refers to it, among its declared handles or as the place of one of its lists, fails with
/// `HandleNotFound` and changes nothing.
pub proof fn lemma_freed_handle_is_not_found(
    device: DeviceView,
    handle: u32,
    bin: Source,
    render: Source,
    handles: Seq<u32>,
)
    requires
        device.wf(),
        device.free_bo(handle).1 is Reply,
        device.free_bo(handle).1->Reply_0 is Ok,
    ensures
        device.free_bo(handle).0.map_bo(handle) == Err::<Reply, GpuError>(
            GpuError::HandleNotFound,
        ),
        handles.contains(handle) || source_pin(bin).contains(handle) || source_pin(
            render,
        ).contains(handle) ==> device.free_bo(handle).0.submit_cl(bin, render, handles) == (
            device.free_bo(handle).0,
            Effect::Reply(Err(GpuError::HandleNotFound)),
        ),
{
    let after = device.free_bo(handle).0;
    if handles.contains(handle) || source_pin(bin).contains(handle) || source_pin(
        render,
    ).contains(handle) {
        lemma_unresolved_submission_fails(after, bin, render, handles, handle);
    }
}

/// Map-BO is a lookup and nothing else: whatever it replies, the device stays as it was.
pub proof fn lemma_map_changes_nothing(device: DeviceView, cmd: u32, record: Seq<u8>)
    requires
        decoded(cmd, record) matches Ok(Request::MapBo { .. }),
    ensures
        device.control(cmd, record).0 == device,
        device.control(cmd, record).1 is Reply,
{
}

/// Map-BO of a retired handle fails with `HandleNotFound`.
pub proof fn lemma_retired_cannot_be_mapped(device: DeviceView, handle: u32)
    requires
        retired(device, handle),
    ensures
        device.map_bo(handle) == Err::<Reply, GpuError>(GpuError::HandleNotFound),
{
}

/// A submission that refers to a handle that names nothing, among its declared handles or as
/// the place of one of its lists, fails with `HandleNotFound`; the device stays as it was, and
/// neither list is asked for.
pub proof fn lemma_unresolved_submission_fails(
    device: DeviceView,
    bin: Source,
    render: Source,
    handles: Seq<u32>,
    handle: u32,
)
    requires
        !device.objects.contains_key(handle),
        handles.contains(handle) || source_pin(bin).contains(handle) || source_pin(
            render,
        ).contains(handle),
    ensures
        device.submit_cl(bin, render, handles) == (
            device,
            Effect::Reply(Err(GpuError::HandleNotFound)),
        ),
{
    device.lemma_resolves_both(handles, source_pin(bin));
    device.lemma_resolves_both(handles + source_pin(bin), source_pin(render));
}

/// Whether one of the declared handles names nothing decides alone that a submission fails
/// with `HandleNotFound`: what the two sources say, and what the lists hold, is not looked at.
pub proof fn lemma_unresolved_handle_decides(
    device: DeviceView,
    bin: Source,
    render: Source,
    handles: Seq<u32>,
)
    requires
        !device.resolves(handles),
    ensures
        device.submit_cl(bin, render, handles) == (
            device,
            Effect::Reply(Err(GpuError::HandleNotFound)),
        ),
{
    device.lemma_resolves_both(handles, source_pin(bin));
    device.lemma_resolves_both(handles + source_pin(bin), source_pin(render));
}

/// Free-BO of the framebuffer's handle or of the binner's fails with `Protected`, and the
/// device stays as it was.
pub proof fn lemma_reserved_are_protected(device: DeviceView, handle: u32)
    requires
        device.wf(),
        handle == device.framebuffer || handle == device.binner,
    ensures
        device.free_bo(handle) == (device, Effect::Reply(Err(GpuError::Protected))),
{
}

/// Free-BO of a handle that the submission under way refers to fails with `Protected`.
pub proof fn lemma_pinned_are_protected(device: DeviceView, handle: u32)
    requires
        device.wf(),
        device.pinned().contains(handle),
    ensures
        device.free_bo(handle) == (device, Effect::Reply(Err(GpuError::Protected))),
{
}

/// A submission of which a list is rejected ends there with the error of the rejection, the
/// bin-phase list's before the render-phase list's: the store stays as it was, no request
/// is under way any more, and no register is touched.
pub proof fn lemma_rejected_list_ends_submission(
    device: DeviceView,
    answer: Answer,
    rejection: Rejection,
)
    requires
        device.pending matches Pending::Fetching { table, bin, render, .. } && answer matches Answer::Lists {
            bin: b,
            render: r,
        } && b@.len() == bin.length && r@.len() == render.length && (validated(b@, table) == Err::<
            Seq<u8>,
            Rejection,
        >(rejection) || (validated(b@, table) is Ok && validated(r@, table) == Err::<
            Seq<u8>,
            Rejection,
        >(rejection))),
    ensures
        device.resume(answer) == (device.idle(), Effect::Reply(Err(rejection.error))),
        !touches_register(device.resume(answer).1),
{
}

/// A submission with a list in which an address field spills fails with `OutOfBounds`, where
/// no fault of another kind comes before the spill: the store stays as it was, no request is
/// under way any more, and no register has been or is touched for the submission.
pub proof fn lemma_spilling_submission_fails(device: DeviceView, answer: Answer, count: nat)
    requires
        device.pending matches Pending::Fetching { table, bin, render, .. } && answer matches Answer::Lists {
            bin: b,
            render: r,
        } && b@.len() == bin.length && r@.len() == render.length && (spills_at(b@, table, count)
            || (validated(b@, table) is Ok && spills_at(r@, table, count))),
    ensures
        device.resume(answer) == (device.idle(), Effect::Reply(Err(GpuError::OutOfBounds))),
{
    if let Pending::Fetching { table, .. } = device.pending {
        if let Answer::Lists { bin: b, render: r } = answer {
            if spills_at(b@, table, count) {
                lemma_spill_is_out_of_bounds(b@, table, count);
            } else {
                lemma_spill_is_out_of_bounds(r@, table, count);
            }
        }
    }
}

/// The buffer objects that the handles declared in a submission request name; empty for any
/// other request.
pub open spec fn declared_table(device: DeviceView, cmd: u32, record: Seq<u8>) -> Seq<
    BufferObject,
> {
    match decoded(cmd, record) {
        Ok(Request::SubmitCl { handles, .. }) => device.table_of(declared(record, handles)),
        _ => Seq::empty(),
    }
}

/// A submission, from its request to its end: where the request is taken up and one of the
/// lists that the caller then hands over holds an address field that spills, with no fault
/// of another kind before it, the submission fails with `OutOfBounds`, no register has been
/// touched, and the device is again exactly what it was before the request.
pub proof fn lemma_spilling_request_leaves_no_trace(
    device: DeviceView,
    cmd: u32,
    record: Seq<u8>,
    answer: Answer,
    count: nat,
)
    requires
        device.wf(),
        device.pending is Idle,
        device.control(cmd, record).1 matches Effect::Fetch { bin, render } && answer matches Answer::Lists {
            bin: b,
            render: r,
        } && b@.len() == bin.length && r@.len() == render.length && (spills_at(
            b@,
            declared_table(device, cmd, record),
            count,
        ) || (validated(b@, declared_table(device, cmd, record)) is Ok && spills_at(
            r@,
            declared_table(device, cmd, record),
            count,
        ))),
    ensures
        !touches_register(device.control(cmd, record).1),
        device.control(cmd, record).0.resume(answer) == (
            device,
            Effect::Reply(Err(GpuError::OutOfBounds)),
        ),
{
    lemma_spilling_submission_fails(device.control(cmd, record).0, answer, count);
}

/// A submission request that declares a handle that names nothing fails with
/// `HandleNotFound` at once: the device stays as it was and nothing is asked of the caller,
/// so that no byte of a control list is read, let alone scanned.
pub proof fn lemma_unresolved_request_fails_at_once(device: DeviceView, cmd: u32, record: Seq<u8>)
    requires
        decoded(cmd, record) matches Ok(Request::SubmitCl { handles, .. }) && !device.resolves(
            declared(record, handles),
        ),
    ensures
        device.control(cmd, record) == (device, Effect::Reply(Err(GpuError::HandleNotFound))),
{
    if let Ok(Request::SubmitCl { bin, render, handles }) = decoded(cmd, record) {
        lemma_unresolved_handle_decides(device, bin, render, declared(record, handles));
    }
}

/// A request to free the framebuffer or the binner fails with `Protected`, whatever else
/// is the case, and the device stays as it was.
pub proof fn lemma_free_request_of_reserved_fails(device: DeviceView, cmd: u32, record: Seq<u8>)
    requires
        device.wf(),
        decoded(cmd, record) matches Ok(Request::FreeBo { handle }) && (handle
            == device.framebuffer || handle == device.binner),
    ensures
        device.control(cmd, record) == (device, Effect::Reply(Err(GpuError::Protected))),
{
}

/// Once a request to free a handle has gone well, a request to map that handle, and a
/// submission request that refers to it, fails with `HandleNotFound` and changes nothing.
pub proof fn lemma_requests_after_free_fail(
    device: DeviceView,
    freeing: Seq<u8>,
    cmd: u32,
    record: Seq<u8>,
)
    requires
        device.wf(),
        decoded(FREE_BO, freeing) is Ok,
        device.control(FREE_BO, freeing).1 matches Effect::Reply(Ok(_)),
        decoded(FREE_BO, freeing) matches Ok(Request::FreeBo { handle }) && (decoded(
            cmd,
            record,
        ) matches Ok(request) && match request {
            Request::MapBo { handle: named } => named == handle,
            Request::SubmitCl { bin, render, handles } => declared(record, handles).contains(
                handle,
            ) || source_pin(bin).contains(handle) || source_pin(render).contains(handle),
            _ => false,
        }),
    ensures
        device.control(FREE_BO, freeing).0.control(cmd, record) == (
            device.control(FREE_BO, freeing).0,
            Effect::Reply(Err(GpuError::HandleNotFound)),
        ),
{
    let after = device.control(FREE_BO, freeing).0;
    if let Ok(Request::FreeBo { handle }) = decoded(FREE_BO, freeing) {
        if let Ok(Request::SubmitCl { bin, render, handles }) = decoded(cmd, record) {
            lemma_freed_handle_is_not_found(device, handle, bin, render, declared(record, handles));
        }
    }
}

/// The image that a submission hands to the accelerator reaches no memory but that of live
/// buffer objects: it is the relocated bin-phase list, the binner packet and the relocated
/// render-phase list; every address of the two lists lies, with all that its packet refers
/// to, inside one buffer object of the resolved table; and every buffer object of that table
/// is live, and stays so until the submission is over.
pub proof fn lemma_image_is_confined(device: DeviceView, answer: Answer)
    requires
        device.wf(),
        device.pending is Fetching,
        device.resume(answer).0.pending is Allocating,
    ensures
        answer is Lists,
        validated(answer->bin@, device.pending->Fetching_table) matches Ok(bin) && validated(
            answer->render@,
            device.pending->Fetching_table,
        ) matches Ok(render) && {
            &&& device.resume(answer).0.pending->Allocating_image == image_of(
                bin,
                render,
                device.objects[device.binner],
            )
            &&& confined(bin, device.pending->Fetching_table, 0)
            &&& confined(render, device.pending->Fetching_table, 0)
        },
        forall|i: int|
            0 <= i < device.pending->Fetching_table.len() ==> device.objects.contains_key(
                (#[trigger] device.pending->Fetching_table[i]).handle,
            ) && device.objects[device.pending->Fetching_table[i].handle]
                == device.pending->Fetching_table[i] && device.protected(
                device.pending->Fetching_table[i].handle,
            ),
{
    let table = device.pending->Fetching_table;
    lemma_validated_is_confined(answer->bin@, table);
    lemma_validated_is_confined(answer->render@, table);
}

/// A register is touched only for a submission whose two lists have passed validation and
/// whose image has been stored: the effect that follows a control request, and the one that
/// follows an answer while a creation waits for memory or a submission waits for its lists or
/// for memory, is never a register access.
pub proof fn lemma_registers_only_after_store(
    device: DeviceView,
    cmd: u32,
    record: Seq<u8>,
    answer: Answer,
)
    requires
        device.wf(),
    ensures
        !touches_register(device.control(cmd, record).1),
        !(device.pending is Storing || device.pending is Running) ==> !touches_register(
            device.resume(answer).1,
        ),
{
}

/// A request that ends in a failure leaves every buffer object and the handle counter as
/// they were.
pub proof fn lemma_failure_changes_nothing(
    device: DeviceView,
    cmd: u32,
    record: Seq<u8>,
    answer: Answer,
)
    requires
        device.wf(),
    ensures
        device.control(cmd, record).1 matches Effect::Reply(Err(_)) ==> device.control(
            cmd,
            record,
        ).0 == device,
        device.resume(answer).1 matches Effect::Reply(Err(_)) ==> {
            &&& device.resume(answer).0.objects == device.objects
            &&& device.resume(answer).0.next_handle == device.next_handle
            &&& device.resume(answer).0.pending is Idle
        },
{
    match device.pending {
        Pending::Running { job, .. } => {
            if let Some(value) = DeviceView::observed(job, answer) {
                job.lemma_bounded(value);
            }
        },
        _ => {},
    }
}

/// The framebuffer and the binner stay what they are: no control request and no answer
/// gives the device another framebuffer or binner, takes their buffer objects away, or changes
/// anything about them, their size and their addresses included.
pub proof fn lemma_reserved_objects_stay(
    device: DeviceView,
    cmd: u32,
    record: Seq<u8>,
    answer: Answer,
)
    requires
        device.wf(),
    ensures
        device.control(cmd, record).0.framebuffer == device.framebuffer,
        device.control(cmd, record).0.binner == device.binner,
        device.control(cmd, record).0.objects[device.framebuffer]
            == device.objects[device.framebuffer],
        device.control(cmd, record).0.objects[device.binner] == device.objects[device.binner],
        device.resume(answer).0.framebuffer == device.framebuffer,
        device.resume(answer).0.binner == device.binner,
        device.resume(answer).0.objects[device.framebuffer] == device.objects[device.framebuffer],
        device.resume(answer).0.objects[device.binner] == device.objects[device.binner],
{
    match device.pending {
        Pending::Running { job, .. } => {
            if let Some(value) = DeviceView::observed(job, answer) {
                job.lemma_bounded(value);
            }
        },
        _ => {},
    }
}

/// Every answer brings the request under way closer to its reply: a request takes no more
/// answers than its budget, so every request comes to an end.
pub proof fn lemma_requests_end(device: DeviceView, answer: Answer)
    requires
        device.wf(),
        !(device.pending is Idle),
    ensures
        0 <= device.resume(answer).0.budget() < device.budget(),
        device.resume(answer).1 is Reply <==> device.resume(answer).0.pending is Idle,
{
    match device.pending {
        Pending::Running { job, .. } => {
            if let Some(value) = DeviceView::observed(job, answer) {
                job.lemma_bounded(value);
            }
        },
        _ => {},
    }
}

} // verus!
