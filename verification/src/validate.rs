//! The command-list validator.
//!
//! One forward pass over a control list: every packet is looked up in the packet table, every
//! address field is checked against the buffer object it points into and rewritten to a physical
//! address. The first violation rejects the whole list.

use crate::bo::BufferObject;
use crate::bytes::{le32, le32_bytes, lemma_le32_round_trip, patched, push_le32, read_le32};
use crate::error::GpuError;
use crate::packet::{address_at, address_field, describe, layout, operand_len, referenced_span, span, Role};
use vstd::prelude::*;

verus! {

/// Why, and at which byte of the list, a control list was rejected.
#[derive(Clone, Copy, Debug, PartialEq, Eq, Structural)]
pub struct Rejection {
    /// `MalformedStream` or `OutOfBounds`.
    pub error: GpuError,
    /// Offset of the opcode of the offending packet.
    pub offset: usize,
}

/// What the validator decides about one packet.
pub enum Verdict {
    /// The list is rejected at this packet.
    Reject(GpuError),
    /// The packet is in order.
    Accept {
        /// What is passed on in its place.
        emitted: Seq<u8>,
        /// The selection of handles that holds after it.
        selection: (u32, u32),
    },
}

/// The verdict on the packet whose opcode stands at `pos` in `stream`, where `selection` holds
/// the indices, into `table`, that the last selection packet picked.
///
/// - An opcode outside the packet table, or a packet that the list ends in the middle of, is
///   `MalformedStream`.
/// - So is an address field while the first selected index names no entry of `table`.
/// - An address field whose offset plus referenced span exceeds the size of the selected buffer
///   object is `OutOfBounds`; so is one whose physical address would not be a 32-bit number.
/// - A selection packet is dropped; any other packet is passed on, an address field as the
///   physical address of the buffer object plus the offset that the field held.
pub open spec fn inspect(
    stream: Seq<u8>,
    table: Seq<BufferObject>,
    pos: int,
    selection: (u32, u32),
) -> Verdict {
    match layout(stream[pos]) {
        None => Verdict::Reject(GpuError::MalformedStream),
        Some(l) => {
            let end = pos + 1 + l.operands;
            if end > stream.len() {
                Verdict::Reject(GpuError::MalformedStream)
            } else if l.role == Role::SelectHandles {
                Verdict::Accept {
                    emitted: Seq::empty(),
                    selection: (le32(stream, pos + 1) as u32, le32(stream, pos + 5) as u32),
                }
            } else {
                match address_at(l.role) {
                    None => Verdict::Accept { emitted: stream.subrange(pos, end), selection },
                    Some(at) => {
                        if selection.0 >= table.len() {
                            Verdict::Reject(GpuError::MalformedStream)
                        } else {
                            let bo = table[selection.0 as int];
                            let offset = le32(stream, pos + 1 + at);
                            if offset + referenced_span(l.role, stream, pos + 1) > bo.size
                                || bo.physical_address + offset > u32::MAX {
                                Verdict::Reject(GpuError::OutOfBounds)
                            } else {
                                Verdict::Accept {
                                    emitted: patched(
                                        stream.subrange(pos, end),
                                        1 + at,
                                        (bo.physical_address + offset) as u32,
                                    ),
                                    selection,
                                }
                            }
                        }
                    },
                }
            }
        },
    }
}

/// What comes of `rest` once `head` has been passed on before it.
pub open spec fn after(head: Seq<u8>, rest: Result<Seq<u8>, Rejection>) -> Result<
    Seq<u8>,
    Rejection,
> {
    match rest {
        Ok(tail) => Ok(head + tail),
        Err(r) => Err(r),
    }
}

/// Passing on `a` and then `b` before `rest` is passing on `a + b` before it.
pub proof fn lemma_after_joins(a: Seq<u8>, b: Seq<u8>, rest: Result<Seq<u8>, Rejection>)
    ensures
        after(a, after(b, rest)) == after(a + b, rest),
{
    if let Ok(tail) = rest {
        assert(a + (b + tail) == (a + b) + tail);
    }
}

/// The outcome of scanning `stream` from `pos` on: the bytes passed on, or the first
/// rejection.
pub open spec fn scan(
    stream: Seq<u8>,
    table: Seq<BufferObject>,
    pos: int,
    selection: (u32, u32),
) -> Result<Seq<u8>, Rejection>
    decreases stream.len() - pos,
{
    if pos < 0 || pos >= stream.len() {
        Ok(Seq::empty())
    } else {
        match inspect(stream, table, pos, selection) {
            Verdict::Reject(error) => Err(Rejection { error, offset: pos as usize }),
            Verdict::Accept { emitted, selection } => after(
                emitted,
                scan(stream, table, pos + 1 + operand_len(stream[pos]), selection),
            ),
        }
    }
}

/// The outcome of validating a whole control list against the resolved handle table: the
/// relocated list, or the first rejection. Before the first selection packet both selected
/// indices are 0.
pub open spec fn validated(stream: Seq<u8>, table: Seq<BufferObject>) -> Result<
    Seq<u8>,
    Rejection,
> {
    scan(stream, table, 0, (0, 0))
}

/// Appends the bytes of `stream` from `from` up to `to` to `out`.
fn push_range(out: &mut Vec<u8>, stream: &[u8], from: usize, to: usize)
    requires
        from <= to <= stream@.len(),
    ensures
        final(out)@ == old(out)@ + stream@.subrange(from as int, to as int),
{
    let mut i: usize = from;
    while i < to
        invariant
            from <= i <= to <= stream@.len(),
            out@ == old(out)@ + stream@.subrange(from as int, i as int),
        decreases to - i,
    {
        out.push(stream[i]);
        i += 1;
    }
}

/// Validates the control list `stream` against the resolved handle table `table` and returns
/// the relocated copy, or the first rejection with the offset of the offending packet.
///
/// Nothing but the two arguments is read and nothing is changed: a rejected list leaves no
/// trace.
pub fn validate(stream: &[u8], table: &[BufferObject]) -> (outcome: Result<Vec<u8>, Rejection>)
    ensures
        match outcome {
            Ok(out) => validated(stream@, table@) == Ok::<Seq<u8>, Rejection>(out@),
            Err(r) => validated(stream@, table@) == Err::<Seq<u8>, Rejection>(r),
        },
{
    let n: usize = stream.len();
    let mut out: Vec<u8> = Vec::new();
    let mut pos: usize = 0;
    let mut first: u32 = 0;
    let mut second: u32 = 0;
    while pos < n
        invariant
            n == stream@.len(),
            pos <= n,
            validated(stream@, table@) == after(out@, scan(stream@, table@, pos as int, (first, second))),
        decreases n - pos,
    {
        let ghost before = out@;
        let ghost held = (first, second);
        let l = match describe(stream[pos]) {
            Some(l) => l,
            None => {
                return Err(Rejection { error: GpuError::MalformedStream, offset: pos });
            },
        };
        if l.operands > n - pos - 1 {
            return Err(Rejection { error: GpuError::MalformedStream, offset: pos });
        }
        let end: usize = pos + 1 + l.operands;
        match l.role {
            Role::SelectHandles => {
                first = read_le32(stream, pos + 1);
                second = read_le32(stream, pos + 5);
            },
            _ => {
                match address_field(l.role) {
                    None => {
                        push_range(&mut out, stream, pos, end);
                    },
                    Some(at) => {
                        if first as usize >= table.len() {
                            return Err(
                                Rejection { error: GpuError::MalformedStream, offset: pos },
                            );
                        }
                        let bo = table[first as usize];
                        let offset: u32 = read_le32(stream, pos + 1 + at);
                        let reach: u64 = span(l.role, stream, pos + 1);
                        if offset as u64 + reach > bo.size as u64 || bo.physical_address as u64
                            + offset as u64 > 0xFFFF_FFFF {
                            return Err(Rejection { error: GpuError::OutOfBounds, offset: pos });
                        }
                        push_range(&mut out, stream, pos, pos + 1 + at);
                        push_le32(&mut out, bo.physical_address + offset);
                        push_range(&mut out, stream, pos + 1 + at + 4, end);
                        proof {
                            let packet = stream@.subrange(pos as int, end as int);
                            assert(packet.subrange(0, 1 + at) == stream@.subrange(
                                pos as int,
                                pos + 1 + at,
                            ));
                            assert(packet.subrange(1 + at + 4, packet.len() as int)
                                == stream@.subrange(pos + 1 + at + 4, end as int));
                        }
                    },
                }
            },
        }
        proof {
            let verdict = inspect(stream@, table@, pos as int, held);
            assert(out@ == before + verdict->emitted);
            lemma_after_joins(
                before,
                verdict->emitted,
                scan(stream@, table@, end as int, (first, second)),
            );
        }
        pos = end;
    }
    Ok(out)
}

/// Where the scan stands after `count` packets have passed: the offset of the next opcode and
/// the selection that holds there; `None` where the list is over or rejected before.
pub open spec fn reach(stream: Seq<u8>, table: Seq<BufferObject>, count: nat) -> Option<
    (int, (u32, u32)),
>
    decreases count,
{
    if count == 0 {
        Some((0, (0, 0)))
    } else {
        match reach(stream, table, (count - 1) as nat) {
            None => None,
            Some((pos, selection)) => if pos >= stream.len() {
                None
            } else {
                match inspect(stream, table, pos, selection) {
                    Verdict::Reject(_) => None,
                    Verdict::Accept { selection, .. } => Some(
                        (pos + 1 + operand_len(stream[pos]), selection),
                    ),
                }
            },
        }
    }
}

/// A rejection that the scan meets from a place it has reached is the outcome of the whole
/// validation: nothing that passed before it is handed out.
pub proof fn lemma_rejection_is_final(
    stream: Seq<u8>,
    table: Seq<BufferObject>,
    count: nat,
    rejection: Rejection,
)
    requires
        reach(stream, table, count) matches Some((pos, selection)) && scan(
            stream,
            table,
            pos,
            selection,
        ) == Err::<Seq<u8>, Rejection>(rejection),
    ensures
        validated(stream, table) == Err::<Seq<u8>, Rejection>(rejection),
    decreases count,
{
    if count > 0 {
        lemma_reach_is_forward(stream, table, (count - 1) as nat);
        let (before, held) = reach(stream, table, (count - 1) as nat)->Some_0;
        lemma_rejection_is_final(stream, table, (count - 1) as nat, rejection);
    }
}

/// The first packet that the validator finds fault with decides: the list is rejected with
/// the error of that packet at the offset of its opcode.
pub proof fn lemma_first_violation_rejects(
    stream: Seq<u8>,
    table: Seq<BufferObject>,
    count: nat,
    error: GpuError,
)
    requires
        reach(stream, table, count) matches Some((pos, selection)) && pos < stream.len()
            && inspect(stream, table, pos, selection) == Verdict::Reject(error),
    ensures
        validated(stream, table) == Err::<Seq<u8>, Rejection>(
            Rejection { error, offset: reach(stream, table, count)->Some_0.0 as usize },
        ),
{
    let (pos, selection) = reach(stream, table, count)->Some_0;
    lemma_reach_is_forward(stream, table, count);
    lemma_rejection_is_final(stream, table, count, Rejection { error, offset: pos as usize });
}

/// The scan never stands before the start of the list.
pub proof fn lemma_reach_is_forward(stream: Seq<u8>, table: Seq<BufferObject>, count: nat)
    ensures
        reach(stream, table, count) matches Some((pos, _)) ==> pos >= 0,
    decreases count,
{
    if count > 0 {
        lemma_reach_is_forward(stream, table, (count - 1) as nat);
    }
}

/// Whether the scan reaches, with `count` packets passed and no fault before, a packet
/// whose address field spills: the packet is whole, the selected index names a buffer object of
/// the table, and the offset in the field plus the span that the packet refers to exceeds the
/// size of that buffer object.
pub open spec fn spills_at(stream: Seq<u8>, table: Seq<BufferObject>, count: nat) -> bool {
    reach(stream, table, count) matches Some((pos, selection)) && pos < stream.len() && (layout(
        stream[pos],
    ) matches Some(l) && pos + 1 + l.operands <= stream.len() && (address_at(
        l.role,
    ) matches Some(at) && selection.0 < table.len() && le32(stream, pos + 1 + at)
        + referenced_span(l.role, stream, pos + 1) > table[selection.0 as int].size))
}

/// A list with an address field that spills is rejected with `OutOfBounds` at the packet of
/// that field.
pub proof fn lemma_spill_is_out_of_bounds(
    stream: Seq<u8>,
    table: Seq<BufferObject>,
    count: nat,
)
    requires
        spills_at(stream, table, count),
    ensures
        validated(stream, table) == Err::<Seq<u8>, Rejection>(
            Rejection {
                error: GpuError::OutOfBounds,
                offset: reach(stream, table, count)->Some_0.0 as usize,
            },
        ),
{
    lemma_first_violation_rejects(stream, table, count, GpuError::OutOfBounds);
}

/// Whether the `span` bytes from `address` on lie inside `bo`.
pub open spec fn within(bo: BufferObject, address: int, span: int) -> bool {
    bo.physical_address <= address && address + span <= bo.physical_address + bo.size
}

/// Whether `list`, read from `pos` on, is made of whole packets of the packet table, none of
/// them a selection of handles, and every address field in it points, with all that the packet
/// refers to, inside one buffer object of `table`.
pub open spec fn confined(list: Seq<u8>, table: Seq<BufferObject>, pos: int) -> bool
    decreases list.len() - pos,
{
    if pos < 0 || pos >= list.len() {
        true
    } else {
        match layout(list[pos]) {
            None => false,
            Some(l) => {
                &&& pos + 1 + l.operands <= list.len()
                &&& l.role != Role::SelectHandles
                &&& address_at(l.role) matches Some(at) ==> exists|i: int|
                    0 <= i < table.len() && #[trigger] within(
                        table[i],
                        le32(list, pos + 1 + at),
                        referenced_span(l.role, list, pos + 1),
                    )
                &&& confined(list, table, pos + 1 + l.operands)
            },
        }
    }
}

/// What a list holds from `pos` on does not depend on what stands before `pos`.
proof fn lemma_confined_tail(head: Seq<u8>, tail: Seq<u8>, table: Seq<BufferObject>, pos: int)
    requires
        0 <= pos,
    ensures
        confined(head + tail, table, head.len() + pos) == confined(tail, table, pos),
    decreases tail.len() - pos,
{
    let whole = head + tail;
    let shifted = head.len() + pos;
    if pos < tail.len() {
        if let Some(l) = layout(tail[pos]) {
            if pos + 1 + l.operands <= tail.len() {
                if let Some(at) = address_at(l.role) {
                    assert(le32(whole, shifted + 1 + at) == le32(tail, pos + 1 + at));
                    assert(referenced_span(l.role, whole, shifted + 1) == referenced_span(
                        l.role,
                        tail,
                        pos + 1,
                    ));
                }
                lemma_confined_tail(head, tail, table, pos + 1 + l.operands);
            }
        }
    }
}

/// One whole packet that is in order, followed by a confined list, is a confined list.
proof fn lemma_confined_packet(
    packet: Seq<u8>,
    rest: Seq<u8>,
    table: Seq<BufferObject>,
)
    requires
        packet.len() > 0,
        layout(packet[0]) matches Some(l) && packet.len() == 1 + l.operands && l.role
            != Role::SelectHandles && (address_at(l.role) matches Some(at) ==> exists|i: int|
            0 <= i < table.len() && #[trigger] within(
                table[i],
                le32(packet, 1 + at),
                referenced_span(l.role, packet, 1),
            )),
        confined(rest, table, 0),
    ensures
        confined(packet + rest, table, 0),
{
    let whole = packet + rest;
    let l = layout(packet[0])->Some_0;
    if let Some(at) = address_at(l.role) {
        assert(le32(whole, 1 + at) == le32(packet, 1 + at));
        assert(referenced_span(l.role, whole, 1) == referenced_span(l.role, packet, 1));
    }
    lemma_confined_tail(packet, rest, table, 0);
}

/// A patched packet holds the new address in its field and, outside the field, what it held.
proof fn lemma_patched(packet: Seq<u8>, at: int, address: u32)
    requires
        0 <= at,
        at + 4 <= packet.len(),
    ensures
        patched(packet, at, address).len() == packet.len(),
        le32(patched(packet, at, address), at) == address,
        forall|k: int|
            0 <= k < packet.len() && !(at <= k < at + 4) ==> #[trigger] patched(
                packet,
                at,
                address,
            )[k] == packet[k],
{
    lemma_le32_round_trip(address);
}

/// What the scan passes on from any place is confined.
proof fn lemma_scan_confines(
    stream: Seq<u8>,
    table: Seq<BufferObject>,
    pos: int,
    selection: (u32, u32),
)
    requires
        0 <= pos,
    ensures
        scan(stream, table, pos, selection) matches Ok(list) ==> confined(list, table, 0),
    decreases stream.len() - pos,
{
    if pos < stream.len() {
        if let Verdict::Accept { emitted, selection: next } = inspect(
            stream,
            table,
            pos,
            selection,
        ) {
            let l = layout(stream[pos])->Some_0;
            let end = pos + 1 + l.operands;
            lemma_scan_confines(stream, table, end, next);
            if let Ok(rest) = scan(stream, table, end, next) {
                let packet = stream.subrange(pos, end);
                if l.role != Role::SelectHandles {
                    if let Some(at) = address_at(l.role) {
                        let bo = table[selection.0 as int];
                        let address = (bo.physical_address + le32(stream, pos + 1 + at)) as u32;
                        lemma_patched(packet, 1 + at, address);
                        assert(referenced_span(l.role, emitted, 1) == referenced_span(
                            l.role,
                            stream,
                            pos + 1,
                        )) by {
                            assert forall|k: int|
                                0 <= k < packet.len() && !(1 + at <= k < 5 + at) implies emitted[k]
                                    == stream[pos + k] by {}
                        }
                        assert(within(
                            bo,
                            le32(emitted, 1 + at),
                            referenced_span(l.role, emitted, 1),
                        ));
                    }
                    lemma_confined_packet(emitted, rest, table);
                }
            }
        }
    }
}

/// No list that passes validation lets the accelerator reach outside a buffer object: the
/// relocated list is made of whole packets of the packet table, holds no selection of handles,
/// and every address in it lies, with all that its packet refers to, inside one buffer object
/// of the resolved table.
pub proof fn lemma_validated_is_confined(stream: Seq<u8>, table: Seq<BufferObject>)
    ensures
        validated(stream, table) matches Ok(list) ==> confined(list, table, 0),
{
    lemma_scan_confines(stream, table, 0, (0, 0));
}

} // verus!
