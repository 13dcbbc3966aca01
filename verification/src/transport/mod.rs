//! USB Mass Storage transports
pub mod bbb;
pub mod cbw;
pub mod model;
pub mod pipe;
pub mod theorems;

use usb_device::control::{Recipient, Request, RequestType};
use usb_device::{UsbDirection, UsbError};
use vstd::prelude::*;

verus! {

/// Interface protocol for specific transports
pub const TRANSPORT_VENDOR_SPECIFIC: u8 = 0xFF;

/// Makes `usb_device::UsbError`, the error of the USB stack, known to the verifier. Nothing is
/// claimed of it: the variants are read from the crate, and contracts tell them apart by name.
#[verifier::external_type_specification]
pub struct ExUsbError(UsbError);

/// Makes `usb_device::UsbDirection` known to the verifier, for the `direction` field of a control
/// request. Nothing is claimed of it: the variants are read from the crate.
#[verifier::external_type_specification]
pub struct ExUsbDirection(UsbDirection);

/// Makes `usb_device::control::RequestType` known to the verifier. Nothing is claimed of it: the
/// variants are read from the crate, and contracts tell them apart by name.
#[verifier::external_type_specification]
pub struct ExRequestType(RequestType);

/// Makes `usb_device::control::Recipient` known to the verifier. Nothing is claimed of it: the
/// variants are read from the crate, and contracts tell them apart by name.
#[verifier::external_type_specification]
pub struct ExRecipient(Recipient);

/// Makes `usb_device::control::Request`, a control request as it is read from a SETUP packet, known
/// to the verifier. Nothing is claimed of it: its fields are public and are read from the crate.
#[verifier::external_type_specification]
pub struct ExRequest(Request);

/// What a transport answers to a control request with direction device-to-host.
#[derive(Copy, Clone, Debug, PartialEq, Eq, Structural)]
pub enum ControlReply {
    /// The request is not for this transport: it is left to the other classes of the device.
    Ignored,
    /// The request is accepted and no data follows.
    Accept,
    /// The request is accepted and answered with one byte.
    AcceptWith(u8),
}

/// USB Mass Storage transport.
///
/// An implementation of this trait can be used as underlying transport for subclasses
/// defined in [subclass] module .
///
/// [subclass]: crate::subclass
pub trait Transport: Sized {
    /// Interface protocol code
    const PROTO: u8;

    /// What holds of the transport between any two of its operations.
    spec fn wf(&self) -> bool;

    /// Whether `after` is what a bus reset makes of this transport.
    spec fn resets_to(&self, after: &Self) -> bool;

    /// Whether this transport answers `reply` to the control request `req` and is `after` then.
    spec fn answers(&self, req: Request, reply: ControlReply, after: &Self) -> bool;

    /// Called after a USB reset after the bus reset sequence is complete.
    fn reset(&mut self)
        requires
            old(self).wf(),
        ensures
            final(self).wf(),
            old(self).resets_to(final(self)),
    ;

    /// Called when a control request is received with direction DeviceToHost.
    fn control_in(&mut self, req: &Request) -> (reply: ControlReply)
        requires
            old(self).wf(),
        ensures
            final(self).wf(),
            old(self).answers(*req, reply, final(self)),
    ;
}

/// Generic error type that could be used by [Transport] impls.
#[derive(Debug)]
pub enum TransportError<E> {
    /// USB stack error
    Usb(UsbError),
    /// Transport-specific error
    Error(E),
}

/// The status of a Mass Storage command.
#[derive(Copy, Clone, Debug, PartialEq, Eq, Structural)]
pub enum CommandStatus {
    Passed,
    Failed,
    PhaseError,
}

impl CommandStatus {
    /// The byte that stands for the status in a Command Status Wrapper.
    pub open spec fn code(self) -> u8 {
        match self {
            CommandStatus::Passed => 0x00,
            CommandStatus::Failed => 0x01,
            CommandStatus::PhaseError => 0x02,
        }
    }

    /// The status that the byte `code` stands for, if it stands for one.
    pub open spec fn with_code(code: u8) -> Option<CommandStatus> {
        if code == 0x00 {
            Some(CommandStatus::Passed)
        } else if code == 0x01 {
            Some(CommandStatus::Failed)
        } else if code == 0x02 {
            Some(CommandStatus::PhaseError)
        } else {
            None
        }
    }

    /// The byte that stands for the status in a Command Status Wrapper.
    pub fn to_code(self) -> (code: u8)
        ensures
            code == self.code(),
    {
        match self {
            CommandStatus::Passed => 0x00,
            CommandStatus::Failed => 0x01,
            CommandStatus::PhaseError => 0x02,
        }
    }

    /// The status that the byte `code` stands for, if it stands for one.
    pub fn from_code(code: u8) -> (status: Option<CommandStatus>)
        ensures
            status == Self::with_code(code),
    {
        match code {
            0x00 => Some(CommandStatus::Passed),
            0x01 => Some(CommandStatus::Failed),
            0x02 => Some(CommandStatus::PhaseError),
            _ => None,
        }
    }
}

impl Default for CommandStatus {
    fn default() -> (status: CommandStatus)
        ensures
            status == CommandStatus::Passed,
    {
        CommandStatus::Passed
    }
}

} // verus!
