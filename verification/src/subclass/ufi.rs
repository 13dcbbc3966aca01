//! USB Floppy Interface
use crate::bytes::{be16_at, be32_at, read_be16, read_be32};
use crate::subclass::{drive, settle, Command, InterfaceCodes};
use crate::transport::bbb::{BulkOnly, BulkOnlyError};
use crate::transport::cbw::CBW_LEN;
use crate::transport::model::{calls_of_poll, calls_so_far, valid_packet_size, BulkOnlyView};
use crate::transport::theorems::lemma_drive_results;
use crate::transport::{ControlReply, Transport};
use crate::CLASS_MASS_STORAGE;
use usb_device::control::Request;
use usb_device::UsbError;
use vstd::prelude::*;

verus! {

/// UFI device subclass code
pub const SUBCLASS_UFI: u8 = 0x04;  // UFI command set

pub const FORMAT_UNIT: u8 = 0x04;

pub const INQUIRY: u8 = 0x12;

pub const MODE_SELECT: u8 = 0x55;

pub const MODE_SENSE: u8 = 0x5A;

pub const PREVENT_ALLOW_MEDIUM_REMOVAL: u8 = 0x1E;

pub const READ_10: u8 = 0x28;

pub const READ_12: u8 = 0xA8;

pub const READ_CAPACITY: u8 = 0x25;

pub const READ_FORMAT_CAPACITIES: u8 = 0x23;

pub const REQUEST_SENSE: u8 = 0x03;

pub const REZERO_UNIT: u8 = 0x01;

pub const SEEK_10: u8 = 0x2B;

pub const SEND_DIAGNOSTIC: u8 = 0x1D;

pub const START_STOP: u8 = 0x1B;

pub const TEST_UNIT_READY: u8 = 0x00;

pub const VERIFY: u8 = 0x2F;

pub const WRITE_10: u8 = 0x2A;

pub const WRITE_12: u8 = 0xAA;

pub const WRITE_AND_VERIFY: u8 = 0x2E;

/// Sector of the logical block `lba` on its track, counted from 1, on a medium with `sec_trk` sectors
/// on each track.
pub fn lba_to_sector(lba: u32, sec_trk: u8) -> (sector: u32)
    requires
        sec_trk > 0,
    ensures
        sector == lba as int % sec_trk as int + 1,
{
    lba % sec_trk as u32 + 1
}

/// Head under which the logical block `lba` lies, on a medium with `sec_trk` sectors on each track and
/// `head_trk` heads.
pub fn lba_to_head(lba: u32, sec_trk: u8, head_trk: u8) -> (head: u32)
    requires
        sec_trk > 0,
        head_trk > 0,
    ensures
        head == (lba as int / sec_trk as int) % head_trk as int,
{
    (lba / sec_trk as u32) % head_trk as u32
}

/// Track on which the logical block `lba` lies, on a medium with `sec_trk` sectors on each track and
/// `head_trk` heads.
pub fn lba_to_track(lba: u32, sec_trk: u8, head_trk: u8) -> (track: u32)
    requires
        sec_trk > 0,
        head_trk > 0,
    ensures
        track == (lba as int / sec_trk as int) / head_trk as int,
{
    (lba / sec_trk as u32) / head_trk as u32
}

/// UFI command
///
/// Refer to the USB Mass Storage Class UFI Command Specification
#[derive(Copy, Clone, Debug, PartialEq, Eq, Structural)]
#[allow(inconsistent_fields)]
pub enum UfiCommand {
    Unknown,
    FormatUnit { track: u8, parameter_list_len: u16 },
    Inquiry { alloc_len: u8 },
    TestUnitReady,
    PreventAllowMediumRemoval { prevent: bool },
    ReadCapacity,
    RequestSense { alloc_len: u8 },
    ModeSense { page_control: u8, page_code: u8, param_list_len: u16 },
    ModeSelect { parameter_list_len: u16 },
    StartStop { start: bool, eject: bool },
    Read { lba: u32, len: u32 },
    Write { lba: u32, len: u32, verify: bool },
    ReadFormatCapacities { alloc_len: u16 },
    RezeroUnit,
    Seek { lba: u32 },
    SendDiagnostic { default: bool },
    Verify { lba: u32, len: u16 },
}

/// Number of bytes that the fields of the command with operation code `opcode` span; 1 for a code
/// that is not known.
pub open spec fn command_len(opcode: u8) -> int {
    if opcode == SEND_DIAGNOSTIC {
        2
    } else if opcode == REQUEST_SENSE || opcode == INQUIRY || opcode == PREVENT_ALLOW_MEDIUM_REMOVAL
        || opcode == START_STOP {
        5
    } else if opcode == SEEK_10 {
        6
    } else if opcode == MODE_SENSE || opcode == READ_10 || opcode == WRITE_10 || opcode
        == WRITE_AND_VERIFY || opcode == FORMAT_UNIT || opcode == MODE_SELECT || opcode
        == READ_FORMAT_CAPACITIES || opcode == VERIFY {
        9
    } else if opcode == READ_12 || opcode == WRITE_12 {
        10
    } else {
        1
    }
}

/// The command that the command block `cb` holds. The operation code is its first byte. A block that
/// is empty, has an operation code that is not known, or ends before the last field of its command,
/// holds `Unknown`.
pub open spec fn command_of(cb: Seq<u8>) -> UfiCommand {
    if cb.len() == 0 || cb.len() < command_len(cb[0]) {
        UfiCommand::Unknown
    } else if cb[0] == REQUEST_SENSE {
        UfiCommand::RequestSense { alloc_len: cb[4] }
    } else if cb[0] == INQUIRY {
        UfiCommand::Inquiry { alloc_len: cb[4] }
    } else if cb[0] == TEST_UNIT_READY {
        UfiCommand::TestUnitReady
    } else if cb[0] == READ_CAPACITY {
        UfiCommand::ReadCapacity
    } else if cb[0] == PREVENT_ALLOW_MEDIUM_REMOVAL {
        UfiCommand::PreventAllowMediumRemoval { prevent: cb[4] != 0 }
    } else if cb[0] == MODE_SENSE {
        UfiCommand::ModeSense {
            page_control: cb[2] >> 6,
            page_code: cb[2] & 0b0011_1111,
            param_list_len: be16_at(cb, 7),
        }
    } else if cb[0] == READ_10 {
        UfiCommand::Read { lba: be32_at(cb, 2), len: be16_at(cb, 7) as u32 }
    } else if cb[0] == READ_12 {
        UfiCommand::Read { lba: be32_at(cb, 2), len: be32_at(cb, 6) }
    } else if cb[0] == WRITE_10 {
        UfiCommand::Write { lba: be32_at(cb, 2), len: be16_at(cb, 7) as u32, verify: false }
    } else if cb[0] == WRITE_12 {
        UfiCommand::Write { lba: be32_at(cb, 2), len: be32_at(cb, 6), verify: false }
    } else if cb[0] == WRITE_AND_VERIFY {
        UfiCommand::Write { lba: be32_at(cb, 2), len: be16_at(cb, 7) as u32, verify: true }
    } else if cb[0] == FORMAT_UNIT {
        UfiCommand::FormatUnit { track: cb[2], parameter_list_len: be16_at(cb, 7) }
    } else if cb[0] == MODE_SELECT {
        UfiCommand::ModeSelect { parameter_list_len: be16_at(cb, 7) }
    } else if cb[0] == READ_FORMAT_CAPACITIES {
        UfiCommand::ReadFormatCapacities { alloc_len: be16_at(cb, 7) }
    } else if cb[0] == REZERO_UNIT {
        UfiCommand::RezeroUnit
    } else if cb[0] == SEEK_10 {
        UfiCommand::Seek { lba: be32_at(cb, 2) }
    } else if cb[0] == SEND_DIAGNOSTIC {
        UfiCommand::SendDiagnostic { default: cb[1] & 0b0000_0100 != 0 }
    } else if cb[0] == START_STOP {
        UfiCommand::StartStop { start: cb[4] & 0b0000_0001 != 0, eject: cb[4] == 2 }
    } else if cb[0] == VERIFY {
        UfiCommand::Verify { lba: be32_at(cb, 2), len: be16_at(cb, 7) }
    } else {
        UfiCommand::Unknown
    }
}

/// Number of bytes that the fields of the command with operation code `opcode` span.
fn min_len(opcode: u8) -> (n: usize)
    ensures
        n == command_len(opcode),
{
    match opcode {
        SEND_DIAGNOSTIC => 2,
        REQUEST_SENSE | INQUIRY | PREVENT_ALLOW_MEDIUM_REMOVAL | START_STOP => 5,
        SEEK_10 => 6,
        MODE_SENSE
        | READ_10
        | WRITE_10
        | WRITE_AND_VERIFY
        | FORMAT_UNIT
        | MODE_SELECT
        | READ_FORMAT_CAPACITIES
        | VERIFY => 9,
        READ_12 | WRITE_12 => 10,
        _ => 1,
    }
}

/// Reads the UFI command out of a raw command block.
pub fn parse_cb(cb: &[u8]) -> (cmd: UfiCommand)
    ensures
        cmd == command_of(cb@),
{
    if cb.len() == 0 || cb.len() < min_len(cb[0]) {
        return UfiCommand::Unknown;
    }
    match cb[0] {
        REQUEST_SENSE => UfiCommand::RequestSense { alloc_len: cb[4] },
        INQUIRY => UfiCommand::Inquiry { alloc_len: cb[4] },
        TEST_UNIT_READY => UfiCommand::TestUnitReady,
        READ_CAPACITY => UfiCommand::ReadCapacity,
        PREVENT_ALLOW_MEDIUM_REMOVAL => UfiCommand::PreventAllowMediumRemoval {
            prevent: cb[4] != 0,
        },
        MODE_SENSE => UfiCommand::ModeSense {
            page_control: cb[2] >> 6,
            page_code: cb[2] & 0b0011_1111,
            param_list_len: read_be16(cb, 7),
        },
        READ_10 => UfiCommand::Read { lba: read_be32(cb, 2), len: read_be16(cb, 7) as u32 },
        READ_12 => UfiCommand::Read { lba: read_be32(cb, 2), len: read_be32(cb, 6) },
        WRITE_10 => UfiCommand::Write {
            lba: read_be32(cb, 2),
            len: read_be16(cb, 7) as u32,
            verify: false,
        },
        WRITE_12 => UfiCommand::Write {
            lba: read_be32(cb, 2),
            len: read_be32(cb, 6),
            verify: false,
        },
        WRITE_AND_VERIFY => UfiCommand::Write {
            lba: read_be32(cb, 2),
            len: read_be16(cb, 7) as u32,
            verify: true,
        },
        FORMAT_UNIT => UfiCommand::FormatUnit {
            track: cb[2],
            parameter_list_len: read_be16(cb, 7),
        },
        MODE_SELECT => UfiCommand::ModeSelect { parameter_list_len: read_be16(cb, 7) },
        READ_FORMAT_CAPACITIES => UfiCommand::ReadFormatCapacities { alloc_len: read_be16(cb, 7) },
        REZERO_UNIT => UfiCommand::RezeroUnit,
        SEEK_10 => UfiCommand::Seek { lba: read_be32(cb, 2) },
        SEND_DIAGNOSTIC => UfiCommand::SendDiagnostic { default: (cb[1] & 0b0000_0100) != 0 },
        START_STOP => UfiCommand::StartStop { start: (cb[4] & 0b0000_0001) != 0, eject: cb[4] == 2 },
        VERIFY => UfiCommand::Verify { lba: read_be32(cb, 2), len: read_be16(cb, 7) },
        _ => UfiCommand::Unknown,
    }
}

/// UFI subclass
pub struct Ufi<T: Transport> {
    /// The transport that carries the commands
    pub transport: T,
}

impl<T: Transport> Ufi<T> {
    /// The codes to report for the interface in the configuration descriptors: with them go one
    /// interface association of this one interface, the interface itself and the endpoints of the
    /// transport.
    pub fn interface_codes(&self) -> (codes: InterfaceCodes)
        ensures
            codes == (InterfaceCodes {
                class: CLASS_MASS_STORAGE,
                sub_class: SUBCLASS_UFI,
                protocol: T::PROTO,
            }),
    {
        InterfaceCodes { class: CLASS_MASS_STORAGE, sub_class: SUBCLASS_UFI, protocol: T::PROTO }
    }

    /// Called after a USB reset after the bus reset sequence is complete.
    pub fn reset(&mut self)
        requires
            old(self).transport.wf(),
        ensures
            final(self).transport.wf(),
            old(self).transport.resets_to(&final(self).transport),
    {
        self.transport.reset()
    }

    /// Called when a control request is received with direction DeviceToHost.
    pub fn control_in(&mut self, req: &Request) -> (reply: ControlReply)
        requires
            old(self).transport.wf(),
        ensures
            final(self).transport.wf(),
            old(self).transport.answers(*req, reply, &final(self).transport),
    {
        self.transport.control_in(req)
    }
}

/// UFI subclass implementation with [Bulk Only Transport]
///
/// [Bulk Only Transport]: crate::transport::bbb::BulkOnly
impl<'buf> Ufi<BulkOnly<'buf>> {
    /// Creates a UFI over Bulk Only Transport instance
    ///
    /// # Arguments
    /// * `packet_size` - Maximum USB packet size. Allowed values: 8,16,32,64
    /// * `buf` - The underlying IO buffer. It is **required** to fit at least a `CBW` and/or a single
    /// packet. It is **recommended** that buffer fits at least one sector
    ///
    /// # Errors
    /// * [BufferTooSmall]
    ///
    /// [BufferTooSmall]: crate::transport::bbb::BulkOnlyError::BufferTooSmall
    pub fn new(packet_size: u16, buf: &'buf mut [u8]) -> (res: Result<Self, BulkOnlyError>)
        requires
            valid_packet_size(packet_size),
        ensures
            old(buf)@.len() < CBW_LEN || old(buf)@.len() < packet_size ==> res == Err::<Self, _>(
                BulkOnlyError::BufferTooSmall,
            ),
            old(buf)@.len() >= CBW_LEN && old(buf)@.len() >= packet_size ==> ({
                &&& res matches Ok(ufi)
                &&& ufi.transport.wf()
                &&& ufi.transport@ == BulkOnlyView::initial(packet_size, 0, old(buf)@)
            }),
    {
        match BulkOnly::new(packet_size, 0, buf) {
            Ok(transport) => Ok(Self { transport }),
            Err(e) => Err(e),
        }
    }

    /// Drive subclass in both directions
    ///
    /// The passed closure may or may not be called after each time this function is called.
    /// Moreover, it may be called multiple times, if subclass is unable to proceed further.
    ///
    /// The transport is driven once in each direction: a packet is read, then a packet is written.
    /// If no command waits for a status then, that is all. Otherwise the closure is called with the
    /// command, on the transport as it was driven. After each call a packet is written. If the
    /// transport then expects a full packet of data that the IO buffer does not hold yet, the
    /// closure is called again, with the same command and on the transport as the call before left
    /// it. After the first call that is not followed by another a packet is read, and `poll`
    /// returns.
    ///
    /// So a closure that is called for a command with data for the host has to bring data, or to set
    /// a status, in the end: `poll` goes on calling it until then. Only after as many calls as a
    /// `usize` can count does `poll` return with the transport still expecting data.
    ///
    /// # Arguments
    /// * `callback` - closure, in which the UFI command is processed
    pub fn poll<F>(&mut self, mut callback: F) -> (res: Result<(), UsbError>) where
        F: FnMut(Command<'_, UfiCommand, Ufi<BulkOnly<'buf>>>),

        requires
            old(self).transport.wf(),
            forall|c: Command<'_, UfiCommand, Ufi<BulkOnly<'buf>>>|
                Self::hands(old(self).transport@.driven(), c) ==> #[trigger] call_requires(
                    callback,
                    (c,),
                ),
            forall|c: Command<'_, UfiCommand, Ufi<BulkOnly<'buf>>>|
                c.class.transport.wf() && #[trigger] call_ensures(callback, (c,), ())
                    ==> final(c.class).transport.wf(),
        ensures
            final(self).transport.wf(),
            res is Ok,
            !old(self).transport@.driven().asks_user()
                ==> final(self).transport@ == old(self).transport@.driven(),
            old(self).transport@.driven().asks_user() ==> (exists|
                before: Seq<BulkOnlyView>,
                after: Seq<BulkOnlyView>,
            |
                {
                    &&& calls_of_poll(old(self).transport@.driven(), before, after)
                    &&& forall|i: int|
                        0 <= i < after.len() ==> (#[trigger] after[i]).wf() && (exists|
                            c: Command<'_, UfiCommand, Ufi<BulkOnly<'buf>>>,
                        |
                            {
                                &&& Self::hands(old(self).transport@.driven(), c)
                                &&& c.class.transport@ == before[i]
                                &&& #[trigger] call_ensures(callback, (c,), ())
                                &&& final(c.class).transport@ == after[i]
                            })
                    &&& final(self).transport@ == after.last().settled()
                }),
    {
        // drive transport in both directions before user action
        drive(&mut self.transport)?;
        let ghost driven = self.transport@;

        let (kind, lun) = match self.transport.get_command() {
            Some(raw_cb) => (parse_cb(raw_cb.bytes), raw_cb.lun),
            None => {
                return Ok(());
            },
        };
        // exec callback only if user action required
        if self.transport.has_status() {
            return Ok(());
        }
        let ghost callback_before = callback;
        let ghost mut before: Seq<BulkOnlyView> = Seq::empty();
        let ghost mut after: Seq<BulkOnlyView> = Seq::empty();
        let mut calls: usize = 0;
        loop
            invariant_except_break
                self.transport.wf(),
                self.transport@.asks_user(),
                calls_so_far(driven, before, after, self.transport@),
                calls < usize::MAX,
            invariant
                calls == before.len(),
                callback == callback_before,
                kind == command_of(driven.cbw.block),
                lun == driven.cbw.lun,
                driven == old(self).transport@.driven(),
                driven.asks_user(),
                forall|c: Command<'_, UfiCommand, Ufi<BulkOnly<'buf>>>|
                    Self::hands(driven, c) ==> #[trigger] call_requires(callback, (c,)),
                forall|c: Command<'_, UfiCommand, Ufi<BulkOnly<'buf>>>|
                    c.class.transport.wf() && #[trigger] call_ensures(callback, (c,), ())
                        ==> final(c.class).transport.wf(),
                before.len() == after.len(),
                forall|i: int|
                    0 <= i < after.len() ==> (#[trigger] after[i]).wf() && (exists|
                        c: Command<'_, UfiCommand, Ufi<BulkOnly<'buf>>>,
                    |
                        {
                            &&& Self::hands(driven, c)
                            &&& c.class.transport@ == before[i]
                            &&& #[trigger] call_ensures(callback, (c,), ())
                            &&& final(c.class).transport@ == after[i]
                        }),
            ensures
                self.transport.wf(),
                calls_of_poll(driven, before, after),
                self.transport@ == after.last().settled(),
            decreases usize::MAX - calls,
        {
            let ghost found = self.transport@;
            callback(Command { class: self, kind, lun });
            calls = calls + 1;
            let ghost left = self.transport@;
            proof {
                self.transport.lemma_wf_view();
                lemma_drive_results(left);
                before = before.push(found);
                after = after.push(left);
            }
            // drive transport in both directions after user action.
            // exec callback again if not enough data
            if settle(&mut self.transport)? && calls < usize::MAX {
                continue ;
            }
            break ;
        }
        Ok(())
    }

    /// What the closure can rely on in every call by `poll`, where the transport, driven once in each
    /// direction, is `driven`: `command` is the command that `driven` holds, with its LUN, on a
    /// well-formed transport that waits for the user to act. The transport is `driven` itself, or one
    /// that expects a full packet of data which the IO buffer does not hold. Which transport each
    /// call finds is stated by `poll`.
    pub open spec fn hands(
        driven: BulkOnlyView,
        command: Command<'_, UfiCommand, Ufi<BulkOnly<'buf>>>,
    ) -> bool {
        &&& command.class.transport.wf()
        &&& command.class.transport@.asks_user()
        &&& command.class.transport@ == driven || command.class.transport@.wants_data()
        &&& command.kind == command_of(driven.cbw.block)
        &&& command.lun == driven.cbw.lun
    }
}

} // verus!
