//! The control registers of the accelerator that the driver touches, by their offset in the
//! register window, and the value by which the accelerator identifies itself.

use vstd::prelude::*;

verus! {

/// Identification register.
pub const IDENT0: u32 = 0x0000;

/// What `IDENT0` reads when the 3D pipeline is powered: the letters "V3D" and the number 2.
pub const IDENT0_MAGIC: u32 = 0x0244_3356;

/// Current address of the bin-phase control list; writing it sets where the list begins.
pub const CT0CA: u32 = 0x0110;

/// End address of the bin-phase control list; writing it starts the list.
pub const CT0EA: u32 = 0x0108;

/// Current address of the render-phase control list.
pub const CT1CA: u32 = 0x0114;

/// End address of the render-phase control list; writing it starts the list.
pub const CT1EA: u32 = 0x010c;

/// Number of bin-phase lists flushed; writing 1 clears it.
pub const BFC: u32 = 0x0134;

/// Number of frames rendered; writing 1 clears it.
pub const RFC: u32 = 0x0138;

/// Size of the register window in bytes.
pub const WINDOW_BYTES: u32 = 0x1000;

/// Whether `offset` is the offset of a register: a multiple of 4 inside the window.
pub open spec fn is_register(offset: u32) -> bool {
    offset % 4 == 0 && offset < WINDOW_BYTES
}

/// Whether `offset` is the offset of a register. The register interface makes no access at
/// any other offset.
pub fn in_window(offset: u32) -> (ok: bool)
    ensures
        ok == is_register(offset),
{
    offset % 4 == 0 && offset < WINDOW_BYTES
}

/// One access to the register window.
#[derive(Clone, Copy, Debug, PartialEq, Eq, Structural)]
pub enum RegisterOp {
    /// Store `value` in the register at `offset`.
    Write { offset: u32, value: u32 },
    /// Load the register at `offset`.
    Read { offset: u32 },
}

impl RegisterOp {
    /// The offset that the access goes to.
    pub open spec fn target(self) -> u32 {
        match self {
            RegisterOp::Write { offset, .. } => offset,
            RegisterOp::Read { offset } => offset,
        }
    }
}

} // verus!
