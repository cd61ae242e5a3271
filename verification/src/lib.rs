//! Decision core of a driver for the VideoCore IV 3D accelerator.
//!
//! The driver turns the accelerator on, keeps track of the memory that the accelerator may
//! address (the buffer objects), and takes rendering work from its callers as control lists,
//! which it validates before the accelerator sees them.
//!
//! Nothing in this crate touches hardware, firmware or memory other than its own. Where
//! something has to be done outside, the crate says what (`bringup::Probe`,
//! `device::Effect`) and is told what came of it (`bringup::Finding`, `device::Answer`).
//!
//! - `bo`: buffer objects and their store.
//! - `bringup`: the start-up sequence that ends with a device.
//! - `device`: the device and the dispatcher of control requests.
//! - `request`: the records of the control interface.
//! - `packet`: the packets of a control list.
//! - `validate`: the command-list validator.
//! - `render`: the image of a submission and its way through the accelerator.
//! - `regs`: the registers of the accelerator.
//! - `guarantees`: what holds of the device whatever it is given.
//! - `memory`: which page frames the kernel may hand out, and the frame allocator that
//!   holds them.
//! - `bytes`, `error`: little-endian fields; failure classes.

pub mod bo;
pub mod bringup;
pub mod bytes;
pub mod device;
pub mod error;
pub mod guarantees;
pub mod memory;
pub mod packet;
pub mod regs;
pub mod render;
pub mod request;
pub mod validate;
