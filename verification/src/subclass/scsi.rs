//! USB SCSI
use crate::bytes::{be16_at, be32_at, be64_at, read_be16, read_be32, read_be64};
use crate::subclass::{drive, settle, Command, InterfaceCodes};
use crate::transport::bbb::{BulkOnly, BulkOnlyError};
use crate::transport::cbw::CBW_LEN;
use crate::transport::model::{calls_of_poll, calls_so_far, valid_packet_size, BulkOnlyView};
use crate::transport::theorems::lemma_drive_results;
use crate::transport::{ControlReply, Transport};
use crate::CLASS_MASS_STORAGE;
use usb_device::control::Request;
use usb_device::UsbError;
use vstd::prelude::*;

verus! {

/// SCSI device subclass code
pub const SUBCLASS_SCSI: u8 = 0x06;  // SCSI Transparent command set

/* SPC */
pub const TEST_UNIT_READY: u8 = 0x00;

pub const REQUEST_SENSE: u8 = 0x03;

pub const INQUIRY: u8 = 0x12;

pub const MODE_SENSE_6: u8 = 0x1A;

pub const MODE_SENSE_10: u8 = 0x5A;

/* SBC */
pub const READ_10: u8 = 0x28;

pub const READ_16: u8 = 0x88;

pub const READ_CAPACITY_10: u8 = 0x25;

pub const READ_CAPACITY_16: u8 = 0x9E;

pub const WRITE_10: u8 = 0x2A;

/* MMC */
pub const READ_FORMAT_CAPACITIES: u8 = 0x23;

/// SCSI command
///
/// Refer to the T10 standards (SPC, SAM, SBC, MMC, etc.)
#[derive(Copy, Clone, Debug, PartialEq, Eq, Structural)]
#[non_exhaustive]
#[allow(inconsistent_fields)]
pub enum ScsiCommand {
    Unknown,
    /* SPC */
    Inquiry { evpd: bool, page_code: u8, alloc_len: u16 },
    TestUnitReady,
    RequestSense { desc: bool, alloc_len: u8 },
    ModeSense6 { dbd: bool, page_control: PageControl, page_code: u8, subpage_code: u8, alloc_len: u8 },
    ModeSense10 {
        dbd: bool,
        page_control: PageControl,
        page_code: u8,
        subpage_code: u8,
        alloc_len: u16,
    },
    /* SBC */
    ReadCapacity10,
    ReadCapacity16 { alloc_len: u32 },
    Read { lba: u64, len: u64 },
    Write { lba: u64, len: u64 },
    /* MMC */
    ReadFormatCapacities { alloc_len: u16 },
}

/// Which values of a mode page a MODE SENSE command asks for.
#[derive(Copy, Clone, Debug, PartialEq, Eq, Structural)]
pub enum PageControl {
    CurrentValues,
    ChangeableValues,
    DefaultValues,
    SavedValues,
}

impl PageControl {
    /// The page control with the two-bit code `bits`.
    pub open spec fn with_code(bits: u8) -> Option<PageControl> {
        if bits == 0 {
            Some(PageControl::CurrentValues)
        } else if bits == 1 {
            Some(PageControl::ChangeableValues)
        } else if bits == 2 {
            Some(PageControl::DefaultValues)
        } else if bits == 3 {
            Some(PageControl::SavedValues)
        } else {
            None
        }
    }

    /// The page control that the two top bits of `byte` name.
    pub open spec fn in_byte(byte: u8) -> PageControl {
        Self::with_code(byte >> 6).unwrap()
    }

    /// The page control with the two-bit code `bits`, if `bits` is one.
    pub fn from_code(bits: u8) -> (pc: Option<PageControl>)
        ensures
            pc == Self::with_code(bits),
    {
        match bits {
            0 => Some(PageControl::CurrentValues),
            1 => Some(PageControl::ChangeableValues),
            2 => Some(PageControl::DefaultValues),
            3 => Some(PageControl::SavedValues),
            _ => None,
        }
    }

    /// The page control that the two top bits of `byte` name.
    pub fn from_byte(byte: u8) -> (pc: PageControl)
        ensures
            pc == Self::in_byte(byte),
    {
        let bits = byte >> 6;
        assert(bits <= 3) by (bit_vector)
            requires
                bits == byte >> 6,
        ;
        match Self::from_code(bits) {
            Some(pc) => pc,
            None => PageControl::SavedValues,
        }
    }
}

/// Number of bytes that the fields of the command with operation code `opcode` span; 1 for a code
/// that is not known.
pub open spec fn command_len(opcode: u8) -> int {
    if opcode == INQUIRY || opcode == REQUEST_SENSE || opcode == MODE_SENSE_6 {
        5
    } else if opcode == READ_10 || opcode == WRITE_10 || opcode == MODE_SENSE_10 || opcode
        == READ_FORMAT_CAPACITIES {
        9
    } else if opcode == READ_16 || opcode == READ_CAPACITY_16 {
        14
    } else {
        1
    }
}

/// The command that the command block `cb` holds. The operation code is its first byte. A block that
/// is empty, has an operation code that is not known, or ends before the last field of its command,
/// holds `Unknown`.
pub open spec fn command_of(cb: Seq<u8>) -> ScsiCommand {
    if cb.len() == 0 || cb.len() < command_len(cb[0]) {
        ScsiCommand::Unknown
    } else if cb[0] == TEST_UNIT_READY {
        ScsiCommand::TestUnitReady
    } else if cb[0] == INQUIRY {
        ScsiCommand::Inquiry {
            evpd: cb[1] & 0b0000_0001 != 0,
            page_code: cb[2],
            alloc_len: be16_at(cb, 3),
        }
    } else if cb[0] == REQUEST_SENSE {
        ScsiCommand::RequestSense { desc: cb[1] & 0b0000_0001 != 0, alloc_len: cb[4] }
    } else if cb[0] == READ_CAPACITY_10 {
        ScsiCommand::ReadCapacity10
    } else if cb[0] == READ_CAPACITY_16 {
        ScsiCommand::ReadCapacity16 { alloc_len: be32_at(cb, 10) }
    } else if cb[0] == READ_10 {
        ScsiCommand::Read { lba: be32_at(cb, 2) as u64, len: be16_at(cb, 7) as u64 }
    } else if cb[0] == READ_16 {
        ScsiCommand::Read { lba: be64_at(cb, 2), len: be32_at(cb, 10) as u64 }
    } else if cb[0] == WRITE_10 {
        ScsiCommand::Write { lba: be32_at(cb, 2) as u64, len: be16_at(cb, 7) as u64 }
    } else if cb[0] == MODE_SENSE_6 {
        ScsiCommand::ModeSense6 {
            dbd: cb[1] & 0b0000_1000 != 0,
            page_control: PageControl::in_byte(cb[2]),
            page_code: cb[2] & 0b0011_1111,
            subpage_code: cb[3],
            alloc_len: cb[4],
        }
    } else if cb[0] == MODE_SENSE_10 {
        ScsiCommand::ModeSense10 {
            dbd: cb[1] & 0b0000_1000 != 0,
            page_control: PageControl::in_byte(cb[2]),
            page_code: cb[2] & 0b0011_1111,
            subpage_code: cb[3],
            alloc_len: be16_at(cb, 7),
        }
    } else if cb[0] == READ_FORMAT_CAPACITIES {
        ScsiCommand::ReadFormatCapacities { alloc_len: be16_at(cb, 7) }
    } else {
        ScsiCommand::Unknown
    }
}

/// Number of bytes that the fields of the command with operation code `opcode` span.
fn min_len(opcode: u8) -> (n: usize)
    ensures
        n == command_len(opcode),
{
    match opcode {
        INQUIRY | REQUEST_SENSE | MODE_SENSE_6 => 5,
        READ_10 | WRITE_10 | MODE_SENSE_10 | READ_FORMAT_CAPACITIES => 9,
        READ_16 | READ_CAPACITY_16 => 14,
        _ => 1,
    }
}

/// Reads the SCSI command out of a raw command block.
pub fn parse_cb(cb: &[u8]) -> (cmd: ScsiCommand)
    ensures
        cmd == command_of(cb@),
{
    if cb.len() == 0 || cb.len() < min_len(cb[0]) {
        return ScsiCommand::Unknown;
    }
    match cb[0] {
        TEST_UNIT_READY => ScsiCommand::TestUnitReady,
        INQUIRY => ScsiCommand::Inquiry {
            evpd: (cb[1] & 0b0000_0001) != 0,
            page_code: cb[2],
            alloc_len: read_be16(cb, 3),
        },
        REQUEST_SENSE => ScsiCommand::RequestSense {
            desc: (cb[1] & 0b0000_0001) != 0,
            alloc_len: cb[4],
        },
        READ_CAPACITY_10 => ScsiCommand::ReadCapacity10,
        READ_CAPACITY_16 => ScsiCommand::ReadCapacity16 { alloc_len: read_be32(cb, 10) },
        READ_10 => ScsiCommand::Read { lba: read_be32(cb, 2) as u64, len: read_be16(cb, 7) as u64 },
        READ_16 => ScsiCommand::Read { lba: read_be64(cb, 2), len: read_be32(cb, 10) as u64 },
        WRITE_10 => ScsiCommand::Write {
            lba: read_be32(cb, 2) as u64,
            len: read_be16(cb, 7) as u64,
        },
        MODE_SENSE_6 => ScsiCommand::ModeSense6 {
            dbd: (cb[1] & 0b0000_1000) != 0,
            page_control: PageControl::from_byte(cb[2]),
            page_code: cb[2] & 0b0011_1111,
            subpage_code: cb[3],
            alloc_len: cb[4],
        },
        MODE_SENSE_10 => ScsiCommand::ModeSense10 {
            dbd: (cb[1] & 0b0000_1000) != 0,
            page_control: PageControl::from_byte(cb[2]),
            page_code: cb[2] & 0b0011_1111,
            subpage_code: cb[3],
            alloc_len: read_be16(cb, 7),
        },
        READ_FORMAT_CAPACITIES => ScsiCommand::ReadFormatCapacities { alloc_len: read_be16(cb, 7) },
        _ => ScsiCommand::Unknown,
    }
}

/// SCSI USB Mass Storage subclass
pub struct Scsi<T: Transport> {
    /// The transport that carries the commands
    pub transport: T,
}

impl<T: Transport> Scsi<T> {
    /// The codes to report for the interface in the configuration descriptors: with them go one
    /// interface association of this one interface, the interface itself and the endpoints of the
    /// transport.
    pub fn interface_codes(&self) -> (codes: InterfaceCodes)
        ensures
            codes == (InterfaceCodes {
                class: CLASS_MASS_STORAGE,
                sub_class: SUBCLASS_SCSI,
                protocol: T::PROTO,
            }),
    {
        InterfaceCodes { class: CLASS_MASS_STORAGE, sub_class: SUBCLASS_SCSI, protocol: T::PROTO }
    }

    /// Called after a USB reset after the bus reset sequence is complete.
    pub fn reset(&mut self)
        requires
            old(self).transport.wf(),
        ensures
            final(self).transport.wf(),
            old(self).transport.resets_to(&final(self).transport),
    {
        self.transport.reset()
    }

    /// Called when a control request is received with direction DeviceToHost.
    pub fn control_in(&mut self, req: &Request) -> (reply: ControlReply)
        requires
            old(self).transport.wf(),
        ensures
            final(self).transport.wf(),
            old(self).transport.answers(*req, reply, &final(self).transport),
    {
        self.transport.control_in(req)
    }
}

/// SCSI subclass implementation with [Bulk Only Transport]
///
/// [Bulk Only Transport]: crate::transport::bbb::BulkOnly
impl<'buf> Scsi<BulkOnly<'buf>> {
    /// Creates an SCSI over Bulk Only Transport instance
    ///
    /// # Arguments
    /// * `packet_size` - Maximum USB packet size. Allowed values: 8,16,32,64
    /// * `max_lun` - The max index of the Logical Unit
    /// * `buf` - The underlying IO buffer. It is **required** to fit at least a `CBW` and/or a single
    /// packet. It is **recommended** that buffer fits at least one sector
    ///
    /// # Errors
    /// * [InvalidMaxLun]
    /// * [BufferTooSmall]
    ///
    /// [InvalidMaxLun]: crate::transport::bbb::BulkOnlyError::InvalidMaxLun
    /// [BufferTooSmall]: crate::transport::bbb::BulkOnlyError::BufferTooSmall
    pub fn new(packet_size: u16, max_lun: u8, buf: &'buf mut [u8]) -> (res: Result<
        Self,
        BulkOnlyError,
    >)
        requires
            valid_packet_size(packet_size),
        ensures
            max_lun > 0x0F ==> res == Err::<Self, _>(BulkOnlyError::InvalidMaxLun),
            max_lun <= 0x0F && (old(buf)@.len() < CBW_LEN || old(buf)@.len() < packet_size) ==> res
                == Err::<Self, _>(BulkOnlyError::BufferTooSmall),
            max_lun <= 0x0F && old(buf)@.len() >= CBW_LEN && old(buf)@.len() >= packet_size ==> ({
                &&& res matches Ok(scsi)
                &&& scsi.transport.wf()
                &&& scsi.transport@ == BulkOnlyView::initial(packet_size, max_lun, old(buf)@)
            }),
    {
        match BulkOnly::new(packet_size, max_lun, buf) {
            Ok(transport) => Ok(Self { transport }),
            Err(e) => Err(e),
        }
    }

    /// Drive subclass in both directions
    ///
    /// The passed closure may or may not be called after each time this function is called.
    /// Moreover, it may be called multiple times, if subclass is unable to proceed further.
    ///
    /// The transport is driven once in each direction: a packet is read, then a packet is written.
    /// If no command waits for a status then, that is all. Otherwise the closure is called with the
    /// command, on the transport as it was driven. After each call a packet is written. If the
    /// transport then expects a full packet of data that the IO buffer does not hold yet, the
    /// closure is called again, with the same command and on the transport as the call before left
    /// it. After the first call that is not followed by another a packet is read, and `poll`
    /// returns.
    ///
    /// So a closure that is called for a command with data for the host has to bring data, or to set
    /// a status, in the end: `poll` goes on calling it until then. Only after as many calls as a
    /// `usize` can count does `poll` return with the transport still expecting data.
    ///
    /// # Arguments
    /// * `callback` - closure, in which the SCSI command is processed
    pub fn poll<F>(&mut self, mut callback: F) -> (res: Result<(), UsbError>) where
        F: FnMut(Command<'_, ScsiCommand, Scsi<BulkOnly<'buf>>>),

        requires
            old(self).transport.wf(),
            forall|c: Command<'_, ScsiCommand, Scsi<BulkOnly<'buf>>>|
                Self::hands(old(self).transport@.driven(), c) ==> #[trigger] call_requires(
                    callback,
                    (c,),
                ),
            forall|c: Command<'_, ScsiCommand, Scsi<BulkOnly<'buf>>>|
                c.class.transport.wf() && #[trigger] call_ensures(callback, (c,), ())
                    ==> final(c.class).transport.wf(),
        ensures
            final(self).transport.wf(),
            res is Ok,
            !old(self).transport@.driven().asks_user()
                ==> final(self).transport@ == old(self).transport@.driven(),
            old(self).transport@.driven().asks_user() ==> (exists|
                before: Seq<BulkOnlyView>,
                after: Seq<BulkOnlyView>,
            |
                {
                    &&& calls_of_poll(old(self).transport@.driven(), before, after)
                    &&& forall|i: int|
                        0 <= i < after.len() ==> (#[trigger] after[i]).wf() && (exists|
                            c: Command<'_, ScsiCommand, Scsi<BulkOnly<'buf>>>,
                        |
                            {
                                &&& Self::hands(old(self).transport@.driven(), c)
                                &&& c.class.transport@ == before[i]
                                &&& #[trigger] call_ensures(callback, (c,), ())
                                &&& final(c.class).transport@ == after[i]
                            })
                    &&& final(self).transport@ == after.last().settled()
                }),
    {
        // drive transport in both directions before user action
        drive(&mut self.transport)?;
        let ghost driven = self.transport@;

        let (kind, lun) = match self.transport.get_command() {
            Some(raw_cb) => (parse_cb(raw_cb.bytes), raw_cb.lun),
            None => {
                return Ok(());
            },
        };
        // exec callback only if user action required
        if self.transport.has_status() {
            return Ok(());
        }
        let ghost callback_before = callback;
        let ghost mut before: Seq<BulkOnlyView> = Seq::empty();
        let ghost mut after: Seq<BulkOnlyView> = Seq::empty();
        let mut calls: usize = 0;
        loop
            invariant_except_break
                self.transport.wf(),
                self.transport@.asks_user(),
                calls_so_far(driven, before, after, self.transport@),
                calls < usize::MAX,
            invariant
                calls == before.len(),
                callback == callback_before,
                kind == command_of(driven.cbw.block),
                lun == driven.cbw.lun,
                driven == old(self).transport@.driven(),
                driven.asks_user(),
                forall|c: Command<'_, ScsiCommand, Scsi<BulkOnly<'buf>>>|
                    Self::hands(driven, c) ==> #[trigger] call_requires(callback, (c,)),
                forall|c: Command<'_, ScsiCommand, Scsi<BulkOnly<'buf>>>|
                    c.class.transport.wf() && #[trigger] call_ensures(callback, (c,), ())
                        ==> final(c.class).transport.wf(),
                before.len() == after.len(),
                forall|i: int|
                    0 <= i < after.len() ==> (#[trigger] after[i]).wf() && (exists|
                        c: Command<'_, ScsiCommand, Scsi<BulkOnly<'buf>>>,
                    |
                        {
                            &&& Self::hands(driven, c)
                            &&& c.class.transport@ == before[i]
                            &&& #[trigger] call_ensures(callback, (c,), ())
                            &&& final(c.class).transport@ == after[i]
                        }),
            ensures
                self.transport.wf(),
                calls_of_poll(driven, before, after),
                self.transport@ == after.last().settled(),
            decreases usize::MAX - calls,
        {
            let ghost found = self.transport@;
            callback(Command { class: self, kind, lun });
            calls = calls + 1;
            let ghost left = self.transport@;
            proof {
                self.transport.lemma_wf_view();
                lemma_drive_results(left);
                before = before.push(found);
                after = after.push(left);
            }
            // drive transport in both directions after user action.
            // exec callback again if not enough data
            if settle(&mut self.transport)? && calls < usize::MAX {
                continue ;
            }
            break ;
        }
        Ok(())
    }

    /// What the closure can rely on in every call by `poll`, where the transport, driven once in each
    /// direction, is `driven`: `command` is the command that `driven` holds, with its LUN, on a
    /// well-formed transport that waits for the user to act. The transport is `driven` itself, or one
    /// that expects a full packet of data which the IO buffer does not hold. Which transport each
    /// call finds is stated by `poll`.
    pub open spec fn hands(
        driven: BulkOnlyView,
        command: Command<'_, ScsiCommand, Scsi<BulkOnly<'buf>>>,
    ) -> bool {
        &&& command.class.transport.wf()
        &&& command.class.transport@.asks_user()
        &&& command.class.transport@ == driven || command.class.transport@.wants_data()
        &&& command.kind == command_of(driven.cbw.block)
        &&& command.lun == driven.cbw.lun
    }
}

} // verus!
