//! USB Mass Storage subclasses
use crate::subclass::scsi::{Scsi, ScsiCommand};
use crate::subclass::ufi::{Ufi, UfiCommand};
use crate::transport::bbb::{BulkOnly, BulkOnlyError};
use crate::transport::model::TransportResult;
use crate::transport::theorems::{lemma_drive_results, lemma_read_keeps_wf, lemma_write_keeps_wf};
use crate::transport::{CommandStatus, TransportError};
use usb_device::UsbError;
use vstd::prelude::*;

pub mod scsi;
pub mod ufi;

verus! {

/// The subclass' command and a LUN it is addressed to
pub struct Command<'a, Kind, Class> {
    /// The subclass that received the command
    pub class: &'a mut Class,
    pub kind: Kind,
    pub lun: u8,
}

/// The codes by which an interface of a subclass over a transport is known to the host.
#[derive(Copy, Clone, Debug, PartialEq, Eq, Structural)]
pub struct InterfaceCodes {
    /// Class code
    pub class: u8,
    /// Subclass code
    pub sub_class: u8,
    /// Interface protocol code
    pub protocol: u8,
}

/// What is handed on of the answer `res` of a transport: stack errors other than `WouldBlock`.
pub open spec fn ignored<T>(res: TransportResult<T>) -> Result<(), UsbError> {
    match res {
        Err(TransportError::Usb(err)) => if err == UsbError::WouldBlock {
            Ok(())
        } else {
            Err(err)
        },
        _ => Ok(()),
    }
}

/// Passes over what a transport answers when there is nothing to do or nothing can be done now, and
/// hands on the errors of the USB stack.
pub fn map_ignore<T>(res: TransportResult<T>) -> (out: Result<(), UsbError>)
    ensures
        out == ignored(res),
{
    match res {
        Ok(_) | Err(TransportError::Usb(UsbError::WouldBlock)) | Err(TransportError::Error(_)) => Ok(
            (),
        ),
        Err(TransportError::Usb(err)) => Err(err),
    }
}

/// Drives `transport` in both directions before the user acts: a packet is read, then a packet is
/// written. What the transport answers is passed over, but for errors of the USB stack.
pub fn drive(transport: &mut BulkOnly<'_>) -> (res: Result<(), UsbError>)
    requires
        old(transport).wf(),
    ensures
        final(transport).wf(),
        final(transport)@ == old(transport)@.driven(),
        res is Ok,
{
    proof {
        transport.lemma_wf_view();
        lemma_read_keeps_wf(transport@);
        lemma_drive_results(transport@);
        lemma_drive_results(transport@.read().0);
    }
    map_ignore(transport.read())?;
    map_ignore(transport.write())?;
    Ok(())
}

/// Drives `transport` in both directions after the user has acted: a packet is written and then,
/// unless the transport asks for more data first, a packet is read. The answer says whether it asks
/// for more data. What else the transport answers is passed over, but for errors of the USB stack.
pub fn settle(transport: &mut BulkOnly<'_>) -> (res: Result<bool, UsbError>)
    requires
        old(transport).wf(),
    ensures
        final(transport).wf(),
        final(transport)@ == old(transport)@.settled(),
        res == Ok::<bool, UsbError>(old(transport)@.wants_data()),
{
    proof {
        transport.lemma_wf_view();
        lemma_write_keeps_wf(transport@);
        lemma_drive_results(transport@);
        lemma_drive_results(transport@.write().0);
    }
    match transport.write() {
        Err(TransportError::Error(BulkOnlyError::FullPacketExpected)) => {
            return Ok(true);
        },
        Ok(_) | Err(TransportError::Error(_)) | Err(TransportError::Usb(UsbError::WouldBlock)) => {
            /* ignore */
        },
        Err(TransportError::Usb(err)) => {
            return Err(err);
        },
    };
    map_ignore(transport.read())?;
    Ok(false)
}

/// [UFI] over [Bulk Only Transport] command
///
/// [UFI]: crate::subclass::ufi::Ufi
/// [Bulk Only Transport]: crate::transport::bbb::BulkOnly
impl<'a, 'buf> Command<'a, UfiCommand, Ufi<BulkOnly<'buf>>> {
    /// [crate::transport::bbb::BulkOnly::read_data]
    pub fn read_data(&mut self, dst: &mut [u8]) -> (res: TransportResult<usize>)
        requires
            old(self).class.transport.wf(),
        ensures
            final(self).class.transport.wf(),
            final(self).kind == old(self).kind,
            final(self).lun == old(self).lun,
            *final(final(self).class) == *final(old(self).class),
            final(self).class.transport@ == old(self).class.transport@.read_data(
                old(dst)@.len() as int,
            ).0,
            res == old(self).class.transport@.read_data(old(dst)@.len() as int).1,
            final(dst)@.len() == old(dst)@.len(),
            res matches Ok(count) ==> final(dst)@ == old(self).class.transport@.buf.stored().subrange(
                0,
                count as int,
            ) + old(dst)@.subrange(count as int, old(dst)@.len() as int),
            res is Err ==> final(dst)@ == old(dst)@,
    {
        self.class.transport.read_data(dst)
    }

    /// [crate::transport::bbb::BulkOnly::write_data]
    pub fn write_data(&mut self, src: &[u8]) -> (res: TransportResult<usize>)
        requires
            old(self).class.transport.wf(),
        ensures
            final(self).class.transport.wf(),
            final(self).kind == old(self).kind,
            final(self).lun == old(self).lun,
            *final(final(self).class) == *final(old(self).class),
            final(self).class.transport@ == old(self).class.transport@.write_data(src@).0,
            res == old(self).class.transport@.write_data(src@).1,
    {
        self.class.transport.write_data(src)
    }

    /// [crate::transport::bbb::BulkOnly::try_write_data_all]
    pub fn try_write_data_all(&mut self, src: &[u8]) -> (res: TransportResult<()>)
        requires
            old(self).class.transport.wf(),
        ensures
            final(self).class.transport.wf(),
            final(self).kind == old(self).kind,
            final(self).lun == old(self).lun,
            *final(final(self).class) == *final(old(self).class),
            final(self).class.transport@ == old(self).class.transport@.try_write_data_all(src@).0,
            res == old(self).class.transport@.try_write_data_all(src@).1,
    {
        self.class.transport.try_write_data_all(src)
    }

    /// Sets the status `Passed`: [crate::transport::bbb::BulkOnly::set_status]. Bytes from the host
    /// that were not read are dropped.
    pub fn pass(self)
        requires
            self.class.transport.wf(),
        ensures
            final(self.class).transport.wf(),
            final(self.class).transport@ == old(self.class).transport@.set_status(CommandStatus::Passed),
    {
        self.class.transport.set_status(CommandStatus::Passed);
    }

    /// Sets the status `Failed`: [crate::transport::bbb::BulkOnly::set_status]. Bytes from the host
    /// that were not read are dropped.
    pub fn fail(self)
        requires
            self.class.transport.wf(),
        ensures
            final(self.class).transport.wf(),
            final(self.class).transport@ == old(self.class).transport@.set_status(CommandStatus::Failed),
    {
        self.class.transport.set_status(CommandStatus::Failed);
    }

    /// Sets the status `PhaseError`: [crate::transport::bbb::BulkOnly::set_status]. Bytes from the
    /// host that were not read are dropped.
    pub fn fail_phase(self)
        requires
            self.class.transport.wf(),
        ensures
            final(self.class).transport.wf(),
            final(self.class).transport@ == old(self.class).transport@.set_status(
                CommandStatus::PhaseError,
            ),
    {
        self.class.transport.set_status(CommandStatus::PhaseError);
    }
}

/// [SCSI] over [Bulk Only Transport] command
///
/// [SCSI]: crate::subclass::scsi::Scsi
/// [Bulk Only Transport]: crate::transport::bbb::BulkOnly
impl<'a, 'buf> Command<'a, ScsiCommand, Scsi<BulkOnly<'buf>>> {
    /// [crate::transport::bbb::BulkOnly::read_data]
    pub fn read_data(&mut self, dst: &mut [u8]) -> (res: TransportResult<usize>)
        requires
            old(self).class.transport.wf(),
        ensures
            final(self).class.transport.wf(),
            final(self).kind == old(self).kind,
            final(self).lun == old(self).lun,
            *final(final(self).class) == *final(old(self).class),
            final(self).class.transport@ == old(self).class.transport@.read_data(
                old(dst)@.len() as int,
            ).0,
            res == old(self).class.transport@.read_data(old(dst)@.len() as int).1,
            final(dst)@.len() == old(dst)@.len(),
            res matches Ok(count) ==> final(dst)@ == old(self).class.transport@.buf.stored().subrange(
                0,
                count as int,
            ) + old(dst)@.subrange(count as int, old(dst)@.len() as int),
            res is Err ==> final(dst)@ == old(dst)@,
    {
        self.class.transport.read_data(dst)
    }

    /// [crate::transport::bbb::BulkOnly::write_data]
    pub fn write_data(&mut self, src: &[u8]) -> (res: TransportResult<usize>)
        requires
            old(self).class.transport.wf(),
        ensures
            final(self).class.transport.wf(),
            final(self).kind == old(self).kind,
            final(self).lun == old(self).lun,
            *final(final(self).class) == *final(old(self).class),
            final(self).class.transport@ == old(self).class.transport@.write_data(src@).0,
            res == old(self).class.transport@.write_data(src@).1,
    {
        self.class.transport.write_data(src)
    }

    /// [crate::transport::bbb::BulkOnly::try_write_data_all]
    pub fn try_write_data_all(&mut self, src: &[u8]) -> (res: TransportResult<()>)
        requires
            old(self).class.transport.wf(),
        ensures
            final(self).class.transport.wf(),
            final(self).kind == old(self).kind,
            final(self).lun == old(self).lun,
            *final(final(self).class) == *final(old(self).class),
            final(self).class.transport@ == old(self).class.transport@.try_write_data_all(src@).0,
            res == old(self).class.transport@.try_write_data_all(src@).1,
    {
        self.class.transport.try_write_data_all(src)
    }

    /// Sets the status `Passed`: [crate::transport::bbb::BulkOnly::set_status]. Bytes from the host
    /// that were not read are dropped.
    pub fn pass(self)
        requires
            self.class.transport.wf(),
        ensures
            final(self.class).transport.wf(),
            final(self.class).transport@ == old(self.class).transport@.set_status(CommandStatus::Passed),
    {
        self.class.transport.set_status(CommandStatus::Passed);
    }

    /// Sets the status `Failed`: [crate::transport::bbb::BulkOnly::set_status]. Bytes from the host
    /// that were not read are dropped.
    pub fn fail(self)
        requires
            self.class.transport.wf(),
        ensures
            final(self.class).transport.wf(),
            final(self.class).transport@ == old(self.class).transport@.set_status(CommandStatus::Failed),
    {
        self.class.transport.set_status(CommandStatus::Failed);
    }

    /// Sets the status `PhaseError`: [crate::transport::bbb::BulkOnly::set_status]. Bytes from the
    /// host that were not read are dropped.
    pub fn fail_phase(self)
        requires
            self.class.transport.wf(),
        ensures
            final(self.class).transport.wf(),
            final(self.class).transport@ == old(self.class).transport@.set_status(
                CommandStatus::PhaseError,
            ),
    {
        self.class.transport.set_status(CommandStatus::PhaseError);
    }
}

} // verus!
