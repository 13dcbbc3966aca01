//! USB Mass Storage for device firmware: the Bulk Only Transport and the SCSI and UFI command sets on
//! top of it, with the states, the byte formats and the buffer handling stated as contracts.
//!
//! # Subclasses
//! * [`subclass::scsi`] - SCSI transparent command set
//! * [`subclass::ufi`] - USB Floppy Interface
//!
//! # Transports
//! * [`transport::bbb`] - Bulk Only Transport
//!
//! The transport does no bus I/O of its own. It exchanges packets and stall requests with the USB
//! peripheral driver through the two pipes of [`transport::pipe`].
use vstd::prelude::*;

pub mod buffer;
pub mod bytes;
pub mod subclass;
pub mod transport;

verus! {

/// USB Mass Storage Class code
pub const CLASS_MASS_STORAGE: u8 = 0x08;

} // verus!
