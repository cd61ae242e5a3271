//! The packets of a control list: their opcodes, how many operand bytes follow each opcode,
//! and which operand fields are addresses.
//!
//! Only packets listed here are let through to the accelerator. A packet that carries an address
//! is listed only where the packet itself says how many bytes the accelerator will touch from
//! that address on.

use crate::bytes::{le16, le32, read_le16, read_le32};
use vstd::prelude::*;

verus! {

pub const HALT: u8 = 0;
pub const NOP: u8 = 1;
pub const FLUSH: u8 = 4;
pub const FLUSH_ALL: u8 = 5;
pub const START_TILE_BINNING: u8 = 6;
pub const INCREMENT_SEMAPHORE: u8 = 7;
pub const WAIT_ON_SEMAPHORE: u8 = 8;
pub const STORE_MS_TILE_BUFFER: u8 = 24;
pub const STORE_MS_TILE_BUFFER_AND_EOF: u8 = 25;
pub const GL_INDEXED_PRIMITIVE: u8 = 32;
pub const GL_ARRAY_PRIMITIVE: u8 = 33;
pub const PRIMITIVE_LIST_FORMAT: u8 = 56;
pub const CONFIGURATION_BITS: u8 = 96;
pub const FLAT_SHADE_FLAGS: u8 = 97;
pub const POINT_SIZE: u8 = 98;
pub const LINE_WIDTH: u8 = 99;
pub const RHT_X_BOUNDARY: u8 = 100;
pub const DEPTH_OFFSET: u8 = 101;
pub const CLIP_WINDOW: u8 = 102;
pub const VIEWPORT_OFFSET: u8 = 103;
pub const CLIPPER_XY_SCALING: u8 = 105;
pub const CLIPPER_Z_SCALING: u8 = 106;
pub const TILE_BINNING_MODE_CONFIG: u8 = 112;
pub const TILE_RENDERING_MODE_CONFIG: u8 = 113;
pub const CLEAR_COLORS: u8 = 114;
pub const TILE_COORDINATES: u8 = 115;
pub const GEM_HANDLES: u8 = 254;

/// What the validator has to do with a packet.
#[derive(Clone, Copy, Debug, PartialEq, Eq, Structural)]
pub enum Role {
    /// No operand is an address: the packet is passed on as it is.
    Plain,
    /// The operands pick, out of the declared handles, the buffer objects that the address
    /// fields of later packets point into. The packet itself is not passed on.
    SelectHandles,
    /// A draw call that reads its indices from a buffer object.
    IndexData,
    /// The configuration of the surface that the render phase writes.
    RenderSurface,
}

/// Shape of one kind of packet.
#[derive(Clone, Copy, Debug, PartialEq, Eq, Structural)]
pub struct Layout {
    /// Number of bytes that follow the opcode.
    pub operands: usize,
    /// What the validator does with the packet.
    pub role: Role,
}

/// The shape of the packets that begin with `opcode`, or `None` where the opcode is not one
/// that may be passed on.
pub open spec fn layout(opcode: u8) -> Option<Layout> {
    if opcode == HALT || opcode == NOP || opcode == FLUSH || opcode == FLUSH_ALL || opcode
        == START_TILE_BINNING || opcode == INCREMENT_SEMAPHORE || opcode == WAIT_ON_SEMAPHORE
        || opcode == STORE_MS_TILE_BUFFER || opcode == STORE_MS_TILE_BUFFER_AND_EOF {
        Some(Layout { operands: 0, role: Role::Plain })
    } else if opcode == PRIMITIVE_LIST_FORMAT {
        Some(Layout { operands: 1, role: Role::Plain })
    } else if opcode == RHT_X_BOUNDARY || opcode == TILE_COORDINATES {
        Some(Layout { operands: 2, role: Role::Plain })
    } else if opcode == CONFIGURATION_BITS {
        Some(Layout { operands: 3, role: Role::Plain })
    } else if opcode == FLAT_SHADE_FLAGS || opcode == POINT_SIZE || opcode == LINE_WIDTH || opcode
        == DEPTH_OFFSET || opcode == VIEWPORT_OFFSET {
        Some(Layout { operands: 4, role: Role::Plain })
    } else if opcode == CLIP_WINDOW || opcode == CLIPPER_XY_SCALING || opcode
        == CLIPPER_Z_SCALING {
        Some(Layout { operands: 8, role: Role::Plain })
    } else if opcode == GL_ARRAY_PRIMITIVE {
        Some(Layout { operands: 9, role: Role::Plain })
    } else if opcode == CLEAR_COLORS {
        Some(Layout { operands: 13, role: Role::Plain })
    } else if opcode == GEM_HANDLES {
        Some(Layout { operands: 8, role: Role::SelectHandles })
    } else if opcode == GL_INDEXED_PRIMITIVE {
        Some(Layout { operands: 13, role: Role::IndexData })
    } else if opcode == TILE_RENDERING_MODE_CONFIG {
        Some(Layout { operands: 10, role: Role::RenderSurface })
    } else {
        None
    }
}

/// Number of operand bytes of the packets that begin with `opcode`; 0 for an opcode that is
/// not passed on.
pub open spec fn operand_len(opcode: u8) -> nat {
    match layout(opcode) {
        Some(l) => l.operands as nat,
        None => 0,
    }
}

/// Where among the operands the 32-bit address field of a packet with this role stands.
pub open spec fn address_at(role: Role) -> Option<int> {
    match role {
        Role::IndexData => Some(5),
        Role::RenderSurface => Some(0),
        _ => None,
    }
}

/// Bytes per index, as the mode byte of an indexed draw call gives it.
pub open spec fn index_width(mode: u8) -> int {
    if mode / 16 != 0 {
        2
    } else {
        1
    }
}

/// Bytes per pixel, as the configuration word of a render surface gives it.
pub open spec fn pixel_width(config: int) -> int {
    if config / 4 % 4 == 1 {
        4
    } else {
        2
    }
}

/// Number of bytes that the accelerator touches from the address of a packet on, where the
/// operands of the packet begin at `base` in `stream`.
///
/// An indexed draw call reads as many indices as its count field says, each of the width that
/// its mode byte says. A render surface is written over its width times its height in pixels.
pub open spec fn referenced_span(role: Role, stream: Seq<u8>, base: int) -> int {
    match role {
        Role::IndexData => le32(stream, base + 1) * index_width(stream[base]),
        Role::RenderSurface => le16(stream, base + 4) * le16(stream, base + 6) * pixel_width(
            le16(stream, base + 8),
        ),
        _ => 0,
    }
}

/// Looks `opcode` up in the table of packets.
pub fn describe(opcode: u8) -> (found: Option<Layout>)
    ensures
        found == layout(opcode),
        found matches Some(l) ==> l.operands <= 13 && (address_at(l.role) matches Some(at) ==> at
            + 4 <= l.operands),
{
    if opcode == HALT || opcode == NOP || opcode == FLUSH || opcode == FLUSH_ALL || opcode
        == START_TILE_BINNING || opcode == INCREMENT_SEMAPHORE || opcode == WAIT_ON_SEMAPHORE
        || opcode == STORE_MS_TILE_BUFFER || opcode == STORE_MS_TILE_BUFFER_AND_EOF {
        Some(Layout { operands: 0, role: Role::Plain })
    } else if opcode == PRIMITIVE_LIST_FORMAT {
        Some(Layout { operands: 1, role: Role::Plain })
    } else if opcode == RHT_X_BOUNDARY || opcode == TILE_COORDINATES {
        Some(Layout { operands: 2, role: Role::Plain })
    } else if opcode == CONFIGURATION_BITS {
        Some(Layout { operands: 3, role: Role::Plain })
    } else if opcode == FLAT_SHADE_FLAGS || opcode == POINT_SIZE || opcode == LINE_WIDTH || opcode
        == DEPTH_OFFSET || opcode == VIEWPORT_OFFSET {
        Some(Layout { operands: 4, role: Role::Plain })
    } else if opcode == CLIP_WINDOW || opcode == CLIPPER_XY_SCALING || opcode
        == CLIPPER_Z_SCALING {
        Some(Layout { operands: 8, role: Role::Plain })
    } else if opcode == GL_ARRAY_PRIMITIVE {
        Some(Layout { operands: 9, role: Role::Plain })
    } else if opcode == CLEAR_COLORS {
        Some(Layout { operands: 13, role: Role::Plain })
    } else if opcode == GEM_HANDLES {
        Some(Layout { operands: 8, role: Role::SelectHandles })
    } else if opcode == GL_INDEXED_PRIMITIVE {
        Some(Layout { operands: 13, role: Role::IndexData })
    } else if opcode == TILE_RENDERING_MODE_CONFIG {
        Some(Layout { operands: 10, role: Role::RenderSurface })
    } else {
        None
    }
}

/// Where among the operands the address field of a packet with this role stands.
pub fn address_field(role: Role) -> (at: Option<usize>)
    ensures
        at matches Some(a) ==> address_at(role) == Some(a as int),
        at is None ==> address_at(role) is None,
{
    match role {
        Role::IndexData => Some(5),
        Role::RenderSurface => Some(0),
        _ => None,
    }
}

/// Computes the span that a packet refers to; its operands begin at `base` in `stream`.
pub fn span(role: Role, stream: &[u8], base: usize) -> (bytes: u64)
    requires
        base + 13 <= stream@.len() || (role != Role::IndexData && (base + 10 <= stream@.len()
            || role != Role::RenderSurface)),
    ensures
        bytes == referenced_span(role, stream@, base as int),
        bytes <= 0x4_0000_0000,
{
    let n: usize = stream.len();
    match role {
        Role::IndexData => {
            let count: u64 = read_le32(stream, base + 1) as u64;
            let width: u64 = if stream[base] / 16 != 0 {
                2
            } else {
                1
            };
            assert(count * width <= 0x2_0000_0000) by (nonlinear_arith)
                requires
                    count <= 0xFFFF_FFFF,
                    width <= 2,
            ;
            count * width
        },
        Role::RenderSurface => {
            let width: u64 = read_le16(stream, base + 4) as u64;
            let height: u64 = read_le16(stream, base + 6) as u64;
            let config: u16 = read_le16(stream, base + 8);
            let pixel: u64 = if config / 4 % 4 == 1 {
                4
            } else {
                2
            };
            assert(width * height <= 0xFFFF * 0xFFFF) by (nonlinear_arith)
                requires
                    width <= 0xFFFF,
                    height <= 0xFFFF,
            ;
            assert(width * height * pixel <= 0xFFFF * 0xFFFF * 4) by (nonlinear_arith)
                requires
                    width * height <= 0xFFFF * 0xFFFF,
                    pixel <= 4,
            ;
            width * height * pixel
        },
        _ => 0,
    }
}

} // verus!
