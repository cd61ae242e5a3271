//! The records of the control interface and how they are read.
//!
//! A control request is a request code and a record of fixed length, all fields little-endian:
//!
//! | request | length | fields |
//! |---|---|---|
//! | `SUBMIT_CL` | 104 | bin-phase source at 0, render-phase source at 16, number of handles at 32, sixteen handles from 40 on |
//! | `CREATE_BO` | 16 | size at 0, kind at 4 |
//! | `MMAP_BO` | 16 | handle at 0 |
//! | `FREE_BO` | 8 | handle at 0 |
//!
//! A source is 16 bytes: what it is at 0 (0 for bytes in the caller's memory, 1 for a buffer
//! object), its length in bytes at 4, and at 8, as a 64-bit number, the caller's address or the
//! handle.

use crate::bo::BoKind;
use crate::bytes::{le32, le64, patch_le32, patched, read_le32, read_le64};
use crate::error::GpuError;
use vstd::prelude::*;

verus! {

/// Request code: validate, build and execute a pair of control lists.
pub const SUBMIT_CL: u32 = 0xC068_6440;

/// Request code: create a buffer object.
pub const CREATE_BO: u32 = 0xC010_6443;

/// Request code: tell where a buffer object is mapped.
pub const MMAP_BO: u32 = 0xC010_6444;

/// Request code: release a buffer object.
pub const FREE_BO: u32 = 0xC008_6445;

/// Number of handles that a submission can declare.
pub const MAX_HANDLES: u32 = 16;

/// Where a control list is to be read from.
#[derive(Clone, Copy, Debug, PartialEq, Eq, Structural)]
pub enum Source {
    /// `length` bytes at `address` in the caller's memory.
    Inline { address: u64, length: u32 },
    /// The first `length` bytes of the buffer object `handle`.
    Buffer { handle: u32, length: u32 },
}

/// A decoded control request. The handles that a submission declares stay in the record; see
/// `declared`.
#[derive(Clone, Copy, Debug, PartialEq, Eq, Structural)]
pub enum Request {
    SubmitCl { bin: Source, render: Source, handles: u32 },
    CreateBo { size: u32, kind: BoKind },
    MapBo { handle: u32 },
    FreeBo { handle: u32 },
}

/// What a control request that went well gives back.
#[derive(Clone, Copy, Debug, PartialEq, Eq, Structural)]
pub enum Reply {
    /// A buffer object was created under `handle`.
    Created { handle: u32 },
    /// The buffer object is mapped at `mapped_address` and `size` bytes long.
    Mapped { mapped_address: usize, size: u32 },
    /// The buffer object is gone; its memory, at `physical_address`, is the caller's to hand
    /// back to the memory collaborator.
    Freed { physical_address: u32 },
    /// The accelerator has executed the submission.
    Submitted,
}

/// Length of the record that goes with a request code; `None` for a code that names no
/// operation.
pub open spec fn record_len(cmd: u32) -> Option<int> {
    if cmd == SUBMIT_CL {
        Some(104)
    } else if cmd == CREATE_BO || cmd == MMAP_BO {
        Some(16)
    } else if cmd == FREE_BO {
        Some(8)
    } else {
        None
    }
}

/// The kind of buffer object that a number in a record stands for.
pub open spec fn kind_of(code: int) -> Option<BoKind> {
    if code == 0 {
        Some(BoKind::Normal)
    } else if code == 1 {
        Some(BoKind::Binner)
    } else if code == 2 {
        Some(BoKind::Framebuffer)
    } else {
        None
    }
}

/// The source that stands at `at` in `record`; `None` where the 16 bytes do not describe one.
pub open spec fn source_at(record: Seq<u8>, at: int) -> Option<Source> {
    let what = le32(record, at);
    let length = le32(record, at + 4) as u32;
    let place = le64(record, at + 8);
    if what == 0 {
        Some(Source::Inline { address: place as u64, length })
    } else if what == 1 && place <= u32::MAX {
        Some(Source::Buffer { handle: place as u32, length })
    } else {
        None
    }
}

/// The handles that a submission record declares, in their order, where `count` is the number
/// it gives.
pub open spec fn declared(record: Seq<u8>, count: u32) -> Seq<u32> {
    Seq::new(count as nat, |i: int| le32(record, 40 + 4 * i) as u32)
}

/// What a request code and its record mean.
///
/// A code that names no operation is `Unsupported`, whatever the record holds. A record that
/// has not the length that goes with the code, a kind or a source that is none, and a
/// submission that declares more than `MAX_HANDLES` handles are `BadPayload`.
pub open spec fn decoded(cmd: u32, record: Seq<u8>) -> Result<Request, GpuError> {
    match record_len(cmd) {
        None => Err(GpuError::Unsupported),
        Some(n) => if record.len() != n {
            Err(GpuError::BadPayload)
        } else if cmd == CREATE_BO {
            match kind_of(le32(record, 4)) {
                Some(kind) => Ok(Request::CreateBo { size: le32(record, 0) as u32, kind }),
                None => Err(GpuError::BadPayload),
            }
        } else if cmd == MMAP_BO {
            Ok(Request::MapBo { handle: le32(record, 0) as u32 })
        } else if cmd == FREE_BO {
            Ok(Request::FreeBo { handle: le32(record, 0) as u32 })
        } else {
            match (source_at(record, 0), source_at(record, 16)) {
                (Some(bin), Some(render)) => if le32(record, 32) <= MAX_HANDLES {
                    Ok(Request::SubmitCl { bin, render, handles: le32(record, 32) as u32 })
                } else {
                    Err(GpuError::BadPayload)
                },
                _ => Err(GpuError::BadPayload),
            }
        },
    }
}

/// Length of the record that goes with a request code.
pub fn payload_len(cmd: u32) -> (n: Option<usize>)
    ensures
        n matches Some(n) ==> record_len(cmd) == Some(n as int),
        n is None ==> record_len(cmd) is None,
{
    if cmd == SUBMIT_CL {
        Some(104)
    } else if cmd == CREATE_BO || cmd == MMAP_BO {
        Some(16)
    } else if cmd == FREE_BO {
        Some(8)
    } else {
        None
    }
}

fn read_source(record: &[u8], at: usize) -> (source: Option<Source>)
    requires
        at + 16 <= record@.len(),
    ensures
        source == source_at(record@, at as int),
{
    let n: usize = record.len();
    let what = read_le32(record, at);
    let length = read_le32(record, at + 4);
    let place = read_le64(record, at + 8);
    if what == 0 {
        Some(Source::Inline { address: place, length })
    } else if what == 1 && place <= 0xFFFF_FFFF {
        Some(Source::Buffer { handle: place as u32, length })
    } else {
        None
    }
}

/// Reads a control request from its code and its record.
pub fn decode(cmd: u32, record: &[u8]) -> (request: Result<Request, GpuError>)
    ensures
        request == decoded(cmd, record@),
{
    let n = match payload_len(cmd) {
        Some(n) => n,
        None => {
            return Err(GpuError::Unsupported);
        },
    };
    if record.len() != n {
        return Err(GpuError::BadPayload);
    }
    if cmd == CREATE_BO {
        let code = read_le32(record, 4);
        let kind = if code == 0 {
            BoKind::Normal
        } else if code == 1 {
            BoKind::Binner
        } else if code == 2 {
            BoKind::Framebuffer
        } else {
            return Err(GpuError::BadPayload);
        };
        Ok(Request::CreateBo { size: read_le32(record, 0), kind })
    } else if cmd == MMAP_BO {
        Ok(Request::MapBo { handle: read_le32(record, 0) })
    } else if cmd == FREE_BO {
        Ok(Request::FreeBo { handle: read_le32(record, 0) })
    } else {
        let bin = match read_source(record, 0) {
            Some(s) => s,
            None => {
                return Err(GpuError::BadPayload);
            },
        };
        let render = match read_source(record, 16) {
            Some(s) => s,
            None => {
                return Err(GpuError::BadPayload);
            },
        };
        let handles = read_le32(record, 32);
        if handles > MAX_HANDLES {
            return Err(GpuError::BadPayload);
        }
        Ok(Request::SubmitCl { bin, render, handles })
    }
}

/// Reads the handles that a submission record declares.
pub fn read_handles(record: &[u8], count: u32) -> (handles: Vec<u32>)
    requires
        record@.len() == 104,
        count <= MAX_HANDLES,
    ensures
        handles@ == declared(record@, count),
{
    let mut handles: Vec<u32> = Vec::new();
    let mut i: usize = 0;
    while i < count as usize
        invariant
            record@.len() == 104,
            count <= MAX_HANDLES,
            i <= count,
            handles@ == declared(record@, i as u32),
        decreases count - i,
    {
        handles.push(read_le32(record, 40 + 4 * i));
        i += 1;
    }
    handles
}

/// The record of a request after its reply has been entered: the handle of a created buffer
/// object at 8; of a mapping, the size at 4 and the mapped address, as a 64-bit number, at 8.
/// Nothing is entered for other replies, nor in a record that is too short.
pub open spec fn answered(record: Seq<u8>, reply: Reply) -> Seq<u8> {
    match reply {
        Reply::Created { handle } => if record.len() >= 12 {
            patched(record, 8, handle)
        } else {
            record
        },
        Reply::Mapped { mapped_address, size } => if record.len() >= 16 {
            patched(
                patched(patched(record, 4, size), 8, (mapped_address as int % 0x1_0000_0000) as u32),
                12,
                (mapped_address as int / 0x1_0000_0000 % 0x1_0000_0000) as u32,
            )
        } else {
            record
        },
        _ => record,
    }
}

/// Enters a reply in the record of its request, for the issuer to read.
pub fn answer(record: &mut Vec<u8>, reply: Reply)
    ensures
        final(record)@ == answered(old(record)@, reply),
{
    match reply {
        Reply::Created { handle } => {
            if record.len() >= 12 {
                patch_le32(record, 8, handle);
            }
        },
        Reply::Mapped { mapped_address, size } => {
            if record.len() >= 16 {
                let address: u64 = mapped_address as u64;
                patch_le32(record, 4, size);
                patch_le32(record, 8, (address % 0x1_0000_0000) as u32);
                patch_le32(record, 12, (address / 0x1_0000_0000) as u32);
            }
        },
        _ => {},
    }
}

} // verus!
