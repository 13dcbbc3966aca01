//! Bulk Only Transport (BBB/BOT)
use crate::buffer::{copy_to_front, lemma_cleaned, Buffer};
use crate::bytes::read_le32;
use crate::transport::cbw::{
    encode_csw, CommandBlockWrapper, CommandStatusWrapper, DataDirection, InvalidCbwError,
    CBW_LEN, CBW_SIGNATURE, MAX_CB_LEN,
};
use crate::transport::model::{valid_packet_size, BulkOnlyView, TransportResult};
use crate::transport::pipe::Pipe;
use crate::transport::theorems::{
    lemma_read_keeps_wf, lemma_set_status_keeps_wf, lemma_write_keeps_wf,
};
use crate::transport::{CommandStatus, ControlReply, Transport, TransportError};
use usb_device::control::{Recipient, Request, RequestType};
use usb_device::UsbError;
use vstd::prelude::*;
use vstd::slice::slice_subrange;

verus! {

/// Bulk Only Transport interface protocol
pub const TRANSPORT_BBB: u8 = 0x50;

pub const CLASS_SPECIFIC_BULK_ONLY_MASS_STORAGE_RESET: u8 = 0xFF;

pub const CLASS_SPECIFIC_GET_MAX_LUN: u8 = 0xFE;

/// Bulk Only Transport error
#[derive(Copy, Clone, Debug, PartialEq, Eq, Structural)]
pub enum BulkOnlyError {
    /// Not enough space to fit additional data
    IoBufferOverflow,
    /// Invalid MAX_LUN value. Refer to USB BBB doc
    InvalidMaxLun,
    /// Transport is not in Data Transfer state
    InvalidState,
    /// Data Transfer expects a full packet to be sent next but not enough data available
    FullPacketExpected,
    /// The IO buffer cannot fit a CBW or a single full packet
    BufferTooSmall,
}

/// Raw Command Block bytes
///
/// The `bytes` field is a truncated slice
pub struct CommandBlock<'a> {
    pub bytes: &'a [u8],
    pub lun: u8,
}

#[derive(Copy, Clone, Debug, PartialEq, Eq, Structural)]
pub enum State {
    /// no active transfer
    Idle,
    /// reading CBW packets
    CommandTransfer,
    /// writing bytes to host
    DataTransferToHost,
    /// reading bytes from host
    DataTransferFromHost,
    /// data transfer not expected
    DataTransferNoData,
    /// writing CSW packets
    StatusTransfer,
}

/// Bulk Only Transport
///
/// Expected to be driven via [write] and [read] methods.
/// All data goes through an underlying IO buffer in both directions.
/// During a Data Transfer, data could be read or written via [read_data], [write_data]
/// and [try_write_data_all] methods.
///
/// [write]: crate::transport::bbb::BulkOnly::write
/// [read]: crate::transport::bbb::BulkOnly::read
/// [read_data]: crate::transport::bbb::BulkOnly::read_data
/// [write_data]: crate::transport::bbb::BulkOnly::write_data
/// [try_write_data_all]: crate::transport::bbb::BulkOnly::try_write_data_all
pub struct BulkOnly<'a> {
    in_ep: Pipe,
    out_ep: Pipe,
    buf: Buffer<'a>,
    state: State,
    cbw: CommandBlockWrapper,
    cs: Option<CommandStatus>,
    max_lun: u8,
}

impl<'a> View for BulkOnly<'a> {
    type V = BulkOnlyView;

    closed spec fn view(&self) -> BulkOnlyView {
        BulkOnlyView {
            in_ep: self.in_ep@,
            out_ep: self.out_ep@,
            buf: self.buf@,
            state: self.state,
            cbw: self.cbw@,
            cs: self.cs,
            max_lun: self.max_lun,
        }
    }
}

impl<'a> BulkOnly<'a> {
    /// What holds of the fields whatever the state.
    spec fn sound(&self) -> bool {
        &&& self@.sound()
        &&& self.in_ep.wf()
        &&& self.out_ep.wf()
        &&& self.cbw.block_len <= MAX_CB_LEN
    }

    /// What holds of the transport between any two of its public operations.
    pub closed spec fn wf(&self) -> bool {
        &&& self.sound()
        &&& self@.wf()
    }

    /// A well-formed transport has a well-formed view.
    pub proof fn lemma_wf_view(&self)
        requires
            self.wf(),
        ensures
            self@.wf(),
    {
    }

    /// Creates a Bulk Only Transport instance
    ///
    /// # Arguments
    /// * `packet_size` - Maximum USB packet size. Allowed values: 8,16,32,64
    /// * `max_lun` - The max index of the Logical Unit
    /// * `buf` - The underlying IO buffer. It is **required** to fit at least a `CBW` and/or a single
    /// packet. It is **recommended** that buffer fits at least one `LBA` size
    ///
    /// # Errors
    /// * [InvalidMaxLun]
    /// * [BufferTooSmall]
    ///
    /// [InvalidMaxLun]: crate::transport::bbb::BulkOnlyError::InvalidMaxLun
    /// [BufferTooSmall]: crate::transport::bbb::BulkOnlyError::BufferTooSmall
    pub fn new(packet_size: u16, max_lun: u8, buf: &'a mut [u8]) -> (res: Result<
        BulkOnly<'a>,
        BulkOnlyError,
    >)
        requires
            valid_packet_size(packet_size),
        ensures
            max_lun > 0x0F ==> res == Err::<BulkOnly<'a>, _>(BulkOnlyError::InvalidMaxLun),
            max_lun <= 0x0F && (old(buf)@.len() < CBW_LEN || old(buf)@.len() < packet_size) ==> res
                == Err::<BulkOnly<'a>, _>(BulkOnlyError::BufferTooSmall),
            max_lun <= 0x0F && old(buf)@.len() >= CBW_LEN && old(buf)@.len() >= packet_size ==> ({
                &&& res matches Ok(transport)
                &&& transport.wf()
                &&& transport@ == BulkOnlyView::initial(packet_size, max_lun, old(buf)@)
            }),
    {
        if max_lun > 0x0F {
            return Err(BulkOnlyError::InvalidMaxLun);
        }
        let buf_len = buf.len();
        if buf_len < CBW_LEN || buf_len < packet_size as usize {
            return Err(BulkOnlyError::BufferTooSmall);
        }
        Ok(
            BulkOnly {
                in_ep: Pipe::new(packet_size),
                out_ep: Pipe::new(packet_size),
                buf: Buffer::new(buf),
                state: State::Idle,
                cbw: Default::default(),
                cs: None,
                max_lun,
            },
        )
    }

    /// Drives a transport by reading a single packet
    ///
    /// While no command is in progress the packet is taken as part of a `CBW`. With its 31 bytes
    /// complete, a valid `CBW` for a LUN up to the largest one starts the Data Transfer of its
    /// command; for any other both endpoints are stalled and the transport is idle again. During an
    /// OUT Data Transfer the packet is data, unless a status was set: then no packet is read and the
    /// transfer ends, and bytes in the IO buffer that were not read are dropped. In any other state
    /// nothing happens.
    ///
    /// # Errors
    /// * `WouldBlock` - no packet has come, or an empty one
    /// * [BulkOnlyError::IoBufferOverflow] - the IO buffer has no room for a full packet
    pub fn read(&mut self) -> (res: TransportResult<()>)
        requires
            old(self).wf(),
        ensures
            final(self).wf(),
            final(self)@ == old(self)@.read().0,
            res == old(self)@.read().1,
    {
        proof {
            lemma_read_keeps_wf(self@);
        }
        match self.state {
            State::Idle | State::CommandTransfer => self.handle_read_cbw(),
            State::DataTransferFromHost => self.handle_read_from_host(),
            _ => Ok(()),
        }
    }

    /// Drives a transport by writing a single packet
    ///
    /// During an IN Data Transfer the packet is data from the IO buffer; once a status is set and
    /// the IO buffer is empty the transfer ends. A Data Transfer without data ends once a status is
    /// set. At the end the endpoint of a transfer that fell short is stalled and the `CSW` follows,
    /// packet by packet; with its last packet the transport is idle. In any other state nothing
    /// happens.
    ///
    /// # Errors
    /// * `WouldBlock` - the packet before this one, or a stall, has not been taken yet
    /// * [BulkOnlyError::FullPacketExpected] - the host expects at least a full packet more, no
    ///   status is set, and the IO buffer holds less than a full packet. Nothing is sent
    pub fn write(&mut self) -> (res: TransportResult<()>)
        requires
            old(self).wf(),
        ensures
            final(self).wf(),
            final(self)@ == old(self)@.write().0,
            res == old(self)@.write().1,
    {
        proof {
            lemma_write_keeps_wf(self@);
        }
        match self.state {
            State::StatusTransfer => self.handle_write_csw(),
            State::DataTransferToHost => self.handle_write_to_host(),
            State::DataTransferNoData => self.handle_no_data_transfer(),
            _ => Ok(()),
        }
    }

    /// Sets a `status` of the current command
    ///
    /// A status can be set once for a command, during its Data Transfer. In any other state, and
    /// once a status is set, the call changes nothing.
    ///
    /// With a status set, whichever it is, the Data Transfer comes to its end:
    /// * Nothing more is read from the host, and further writes to the IO buffer fail.
    /// * An OUT Data Transfer ends whatever the IO buffer still holds: bytes from the host that were
    ///   not read with [read_data](BulkOnly::read_data) are dropped.
    /// * An IN Data Transfer ends once the IO buffer is empty: bytes that wait in it for the host are
    ///   still sent.
    /// * At the end the endpoint of a transfer that fell short is stalled, and the `CSW` is sent.
    ///
    /// After [CommandStatus::Passed] the end comes with the next [read](BulkOnly::read) or
    /// [write](BulkOnly::write). [CommandStatus::Failed] and [CommandStatus::PhaseError] end the Data
    /// Transfer at once, within this call, unless bytes still wait in the IO buffer for the host.
    pub fn set_status(&mut self, status: CommandStatus)
        requires
            old(self).wf(),
        ensures
            final(self).wf(),
            final(self)@ == old(self)@.set_status(status),
    {
        proof {
            lemma_set_status_keeps_wf(self@, status);
        }
        let in_data_phase = matches!(
            self.state,
            State::DataTransferToHost | State::DataTransferFromHost | State::DataTransferNoData
        );
        if in_data_phase && !self.status_present() {
            self.cs = Some(status);
            if let CommandStatus::PhaseError | CommandStatus::Failed = status {
                let _ = self.check_end_data_transfer();
            }
        }
    }

    /// Returns a Command Block if present
    pub fn get_command(&self) -> (command: Option<CommandBlock<'_>>)
        requires
            self.wf(),
        ensures
            command is Some == self@.has_command(),
            command matches Some(cb) ==> self@.command() == Some((cb.bytes@, cb.lun)),
    {
        match self.state {
            State::Idle | State::CommandTransfer => None,
            _ => Some(
                CommandBlock {
                    bytes: slice_subrange(self.cbw.block.as_slice(), 0, self.cbw.block_len),
                    lun: self.cbw.lun,
                },
            ),
        }
    }

    /// Reads data from the IO buffer returning the number of bytes actually read
    ///
    /// The oldest bytes of the IO buffer go to the front of `dst`, as many as there are and fit.
    ///
    /// # Arguments
    /// * `dst` - buffer, to read bytes into
    ///
    /// # Errors
    /// Returns [BulkOnlyError::InvalidState] if called
    /// during any but OUT Data Transfer state.
    ///
    /// [BulkOnlyError::InvalidState]: crate::transport::bbb::BulkOnlyError::InvalidState
    pub fn read_data(&mut self, dst: &mut [u8]) -> (res: TransportResult<usize>)
        requires
            old(self).wf(),
        ensures
            final(self).wf(),
            final(self)@ == old(self)@.read_data(old(dst)@.len() as int).0,
            res == old(self)@.read_data(old(dst)@.len() as int).1,
            final(dst)@.len() == old(dst)@.len(),
            res matches Ok(count) ==> final(dst)@ == old(self)@.buf.stored().subrange(0, count as int)
                + old(dst)@.subrange(count as int, old(dst)@.len() as int),
            res is Err ==> final(dst)@ == old(dst)@,
    {
        if !matches!(self.state, State::DataTransferFromHost) {
            return Err(TransportError::Error(BulkOnlyError::InvalidState));
        }
        let data = self.buf.peek();
        let size = if dst.len() < data.len() {
            dst.len()
        } else {
            data.len()
        };
        copy_to_front(dst, slice_subrange(data, 0, size));
        let count = self.buf.consume(size);
        Ok(count)
    }

    /// Writes data to the IO buffer returning the number of bytes actually written
    ///
    /// Of `src` no more is taken than the host still expects, and no more than the IO buffer has
    /// room for.
    ///
    /// # Arguments
    /// * `src` - bytes to write
    ///
    /// # Errors
    /// Returns [BulkOnlyError::InvalidState] if called
    /// during any but IN Data Transfer state, or after a status was set.
    ///
    /// [BulkOnlyError::InvalidState]: crate::transport::bbb::BulkOnlyError::InvalidState
    pub fn write_data(&mut self, src: &[u8]) -> (res: TransportResult<usize>)
        requires
            old(self).wf(),
        ensures
            final(self).wf(),
            final(self)@ == old(self)@.write_data(src@).0,
            res == old(self)@.write_data(src@).1,
    {
        if !matches!(self.state, State::DataTransferToHost) {
            return Err(TransportError::Error(BulkOnlyError::InvalidState));
        }
        if !self.status_present() {
            let expected = if src.len() <= self.cbw.data_transfer_len as usize {
                src.len()
            } else {
                self.cbw.data_transfer_len as usize
            };
            let data = slice_subrange(src, 0, expected);
            assert(data@ =~= old(self)@.expected(src@));
            let count = self.buf.write(data);
            Ok(count)
        } else {
            Err(TransportError::Error(BulkOnlyError::InvalidState))
        }
    }

    /// Tries to write all data from `src` into the IO buffer
    ///
    /// # Errors
    /// * [BulkOnlyError::InvalidState] - if called during any but IN Data Transfer state, or after a
    ///   status was set
    /// * [BulkOnlyError::IoBufferOverflow] - if not enough space is available. Nothing is written
    ///
    /// [BulkOnlyError::IoBufferOverflow]: crate::transport::bbb::BulkOnlyError::IoBufferOverflow
    /// [BulkOnlyError::InvalidState]: crate::transport::bbb::BulkOnlyError::InvalidState
    pub fn try_write_data_all(&mut self, src: &[u8]) -> (res: TransportResult<()>)
        requires
            old(self).wf(),
        ensures
            final(self).wf(),
            final(self)@ == old(self)@.try_write_data_all(src@).0,
            res == old(self)@.try_write_data_all(src@).1,
    {
        if !matches!(self.state, State::DataTransferToHost) {
            return Err(TransportError::Error(BulkOnlyError::InvalidState));
        }
        if !self.status_present() {
            let fill = |dst: &mut [u8]| -> (out: TransportResult<usize>)
                requires
                    src@.len() <= old(dst)@.len(),
                ensures
                    final(dst)@.len() == old(dst)@.len(),
                    out == Ok::<usize, TransportError<BulkOnlyError>>(src@.len() as usize),
                    final(dst)@ == src@ + old(dst)@.subrange(
                        src@.len() as int,
                        old(dst)@.len() as int,
                    ),
                {
                    copy_to_front(dst, src);
                    Ok(src.len())
                };
            let ghost before = self.buf@;
            let filled = self.buf.write_all(
                src.len(),
                TransportError::Error(BulkOnlyError::IoBufferOverflow),
                fill,
            );
            proof {
                if before.fits(src@.len() as int) {
                    assert(self.buf@.mem =~= before.reserved(src@.len() as int).appended(src@).mem);
                }
            }
            match filled {
                Ok(_) => Ok(()),
                Err(e) => Err(e),
            }
        } else {
            Err(TransportError::Error(BulkOnlyError::InvalidState))
        }
    }

    /// Hands the transport a packet that the host sent to the OUT endpoint. The transport takes it
    /// into the IO buffer with [read](BulkOnly::read).
    ///
    /// # Errors
    /// * `BufferOverflow` - the packet is longer than the packet size
    /// * `WouldBlock` - the packet before this one has not been read, or a request to stall the OUT
    ///   endpoint has not been taken
    pub fn deliver(&mut self, packet: &[u8]) -> (res: Result<usize, UsbError>)
        requires
            old(self).wf(),
        ensures
            final(self).wf(),
            final(self)@ == old(self)@.deliver(packet@).0,
            res == old(self)@.deliver(packet@).1,
    {
        self.out_ep.write(packet)
    }

    /// Whether [deliver](BulkOnly::deliver) would take a packet of the packet size or less now: the
    /// packet before it has been read, and no request to stall the OUT endpoint waits to be taken
    pub fn awaits_packet(&self) -> (free: bool)
        requires
            self.wf(),
        ensures
            free == self@.out_ep.takes_packet(),
            free ==> forall|packet: Seq<u8>|
                packet.len() <= self@.packet_size() ==> (#[trigger] self@.deliver(packet)).1 is Ok,
    {
        self.out_ep.takes_packet()
    }

    /// The packet that waits to be sent to the host on the IN endpoint, if any
    pub fn pending(&self) -> (packet: Option<&[u8]>)
        requires
            self.wf(),
        ensures
            packet is Some == self@.in_ep.packet is Some,
            packet matches Some(p) ==> p@ == self@.in_ep.packet.unwrap(),
    {
        self.in_ep.packet()
    }

    /// Tells the transport that the packet that waited for the host was sent
    pub fn sent(&mut self)
        requires
            old(self).wf(),
        ensures
            final(self).wf(),
            final(self)@ == old(self)@.sent(),
    {
        self.in_ep.discard()
    }

    /// Takes the request to stall or unstall the IN endpoint that the transport made last, if it was
    /// not taken before: `Some(true)` to stall it, `Some(false)` to unstall it
    ///
    /// While a packet waits to be sent, no request is handed out: the packet goes first.
    pub fn take_in_halt(&mut self) -> (halt: Option<bool>)
        requires
            old(self).wf(),
        ensures
            final(self).wf(),
            final(self)@ == old(self)@.in_halt_taken(),
            halt == old(self)@.in_halt(),
    {
        if self.in_ep.is_full() {
            None
        } else {
            self.in_ep.take_halt()
        }
    }

    /// Takes the request to stall or unstall the OUT endpoint that the transport made last, if it was
    /// not taken before: `Some(true)` to stall it, `Some(false)` to unstall it
    pub fn take_out_halt(&mut self) -> (halt: Option<bool>)
        requires
            old(self).wf(),
        ensures
            final(self).wf(),
            final(self)@ == old(self)@.out_halt_taken(),
            halt == old(self)@.out_ep.halt,
    {
        self.out_ep.take_halt()
    }

    /// Whether a Command Status has been set
    pub fn has_status(&self) -> (b: bool)
        ensures
            b == self@.cs is Some,
    {
        self.status_present()
    }

    #[inline]
    fn status_present(&self) -> (b: bool)
        ensures
            b == self@.cs is Some,
    {
        self.cs.is_some()
    }

    #[inline]
    fn packet_size(&self) -> (size: usize)
        ensures
            size == self@.packet_size(),
    {
        self.in_ep.max_packet_size() as usize  // same for both In and Out EPs
    }

    #[inline]
    fn stall_in_ep(&mut self)
        requires
            old(self).sound(),
        ensures
            final(self).sound(),
            final(self)@ == old(self)@.in_stalled(),
    {
        self.in_ep.stall();
    }

    #[inline]
    fn stall_out_ep(&mut self)
        requires
            old(self).sound(),
        ensures
            final(self).sound(),
            final(self)@ == old(self)@.out_stalled(),
    {
        self.out_ep.stall();
    }

    #[inline]
    fn stall_eps(&mut self)
        requires
            old(self).sound(),
        ensures
            final(self).sound(),
            final(self)@ == old(self)@.in_stalled().out_stalled(),
    {
        self.stall_in_ep();
        self.stall_out_ep();
    }

    /// Takes up `state`. On the way to `Idle` the command, its status and the buffer are cleared.
    #[inline]
    fn enter_state(&mut self, state: State)
        requires
            old(self).sound(),
        ensures
            final(self).sound(),
            state == State::Idle ==> final(self)@ == old(self)@.idle(),
            state != State::Idle ==> final(self)@ == (BulkOnlyView { state, ..old(self)@ }),
    {
        // clean if going Idle
        if matches!(state, State::Idle) {
            self.buf.clean();
            self.cbw = Default::default();
            self.cs = None;
        }
        self.state = state;
    }

    fn handle_read_cbw(&mut self) -> (res: TransportResult<()>)
        requires
            old(self).sound(),
        ensures
            final(self).sound(),
            final(self)@ == old(self)@.handle_read_cbw().0,
            res == old(self)@.handle_read_cbw().1,
    {
        self.read_packet()?;  // propagate if error or WouldBlock
        if self.buf.available_read() >= CBW_LEN {
            // try parse CBW if enough data available
            match self.try_parse_cbw() {
                Ok(cbw) => {
                    self.start_data_transfer(cbw);
                },
                Err(_) => {
                    // USB Mass Storage Bulk-Only Transport, 6.6.1: both pipes stall until reset recovery
                    self.stall_eps();
                    self.enter_state(State::Idle);
                },
            }
        } else {
            // we've read something but it's not enough yet
            self.enter_state(State::CommandTransfer)
        }
        Ok(())
    }

    fn handle_read_from_host(&mut self) -> (res: TransportResult<()>)
        requires
            old(self).sound(),
        ensures
            final(self).sound(),
            final(self)@ == old(self)@.handle_read_from_host().0,
            res == old(self)@.handle_read_from_host().1,
    {
        if !self.status_present() {
            let count = self.read_packet()?;  // propagate if error or WouldBlock
            self.count_moved(count);
        }
        self.check_end_data_transfer()
    }

    fn handle_write_to_host(&mut self) -> (res: TransportResult<()>)
        requires
            old(self).sound(),
        ensures
            final(self).sound(),
            final(self)@ == old(self)@.handle_write_to_host().0,
            res == old(self)@.handle_write_to_host().1,
    {
        // Do not send a short packet if there is not enough data in the buffer. Some drivers
        // consider this as an error.
        // If the next packet is expected to be full (according to data residue) but it isn't,
        // return an error
        let max_packet_size = self.packet_size();
        let full_packet_expected = self.cbw.data_transfer_len as usize >= max_packet_size
            && !self.status_present();
        let full_packet = self.buf.available_read() >= max_packet_size;
        let full_packet_or_zero = full_packet || !full_packet_expected;

        if full_packet_or_zero {
            // attempt to send data from buffer if any
            if self.buf.available_read() > 0 {
                let count = self.write_packet()?;  // propagate if error
                self.count_moved(count);
            }
            self.check_end_data_transfer()
        } else {
            Err(TransportError::Error(BulkOnlyError::FullPacketExpected))
        }
    }

    fn handle_no_data_transfer(&mut self) -> (res: TransportResult<()>)
        requires
            old(self).sound(),
        ensures
            final(self).sound(),
            final(self)@ == old(self)@.check_end_data_transfer().0,
            res == old(self)@.check_end_data_transfer().1,
    {
        self.check_end_data_transfer()
    }

    fn handle_write_csw(&mut self) -> (res: TransportResult<()>)
        requires
            old(self).sound(),
        ensures
            final(self).sound(),
            final(self)@ == old(self)@.handle_write_csw().0,
            res == old(self)@.handle_write_csw().1,
    {
        self.write_packet()?;  // propagate if error
        if self.buf.available_read() == 0 {
            // done with status transfer
            self.enter_state(State::Idle)
        }
        Ok(())
    }

    fn check_end_data_transfer(&mut self) -> (res: TransportResult<()>)
        requires
            old(self).sound(),
        ensures
            final(self).sound(),
            final(self)@ == old(self)@.check_end_data_transfer().0,
            res == old(self)@.check_end_data_transfer().1,
    {
        if self.status_present() {
            match self.state {
                State::DataTransferNoData | State::DataTransferFromHost => {
                    self.end_data_transfer()?;
                },
                State::DataTransferToHost => {
                    if self.buf.available_read() == 0 {
                        self.end_data_transfer()?;
                    }
                },
                _ => {},
            }
        }
        Ok(())
    }

    fn end_data_transfer(&mut self) -> (res: TransportResult<()>)
        requires
            old(self).sound(),
            old(self)@.cs is Some,
        ensures
            final(self).sound(),
            final(self)@ == old(self)@.end_data_transfer().0,
            res == old(self)@.end_data_transfer().1,
    {
        // USB Mass Storage Bulk-Only Transport, 6.7.2 and 6.7.3
        if self.cbw.data_transfer_len > 0 {
            match self.state {
                State::DataTransferToHost => {
                    self.stall_in_ep();
                },
                State::DataTransferFromHost => {
                    self.stall_out_ep();
                },
                _ => {},
            }
        }
        // write CSW into buffer

        let csw = self.build_csw().unwrap();
        self.buf.clean();
        self.buf.write(csw.as_slice());

        self.enter_state(State::StatusTransfer);
        // flush
        self.handle_write_csw()
    }

    fn build_csw(&self) -> (csw: Option<[u8; 13]>)
        ensures
            csw is Some == self@.cs is Some,
            csw matches Some(bytes) ==> bytes@ == encode_csw(self@.csw()),
    {
        match self.cs {
            Some(status) => Some(
                CommandStatusWrapper {
                    tag: self.cbw.tag,
                    data_residue: self.cbw.data_transfer_len,
                    status,
                }.to_le_bytes(),
            ),
            None => None,
        }
    }

    /// The caller must ensure that there is enough data available
    fn try_parse_cbw(&mut self) -> (res: Result<CommandBlockWrapper, InvalidCbwError>)
        requires
            old(self).sound(),
            old(self)@.buf.available_read() >= CBW_LEN,
        ensures
            final(self).sound(),
            final(self)@ == (BulkOnlyView {
                buf: old(self)@.buf.consumed(CBW_LEN as int),
                ..old(self)@
            }),
            res is Ok == old(self)@.command_in(
                old(self)@.buf.stored().subrange(0, CBW_LEN as int),
            ) is Some,
            res matches Ok(cbw) ==> cbw@ == old(self)@.command_in(
                old(self)@.buf.stored().subrange(0, CBW_LEN as int),
            ).unwrap() && cbw.block_len <= MAX_CB_LEN,
    {
        // read CBW from buf
        let raw_cbw = slice_subrange(self.buf.peek(), 0, CBW_LEN);
        // check if CBW is valid. USB Mass Storage Bulk-Only Transport, 6.2.1
        let res = if read_le32(raw_cbw, 0) != CBW_SIGNATURE {
            Err(InvalidCbwError)
        } else {
            // parse CBW (skipping signature)
            match CommandBlockWrapper::from_le_bytes(slice_subrange(raw_cbw, 4, CBW_LEN)) {
                Ok(cbw) => if cbw.lun <= self.max_lun {
                    Ok(cbw)
                } else {
                    Err(InvalidCbwError)
                },
                Err(e) => Err(e),
            }
        };
        self.buf.consume(CBW_LEN);
        res
    }

    fn start_data_transfer(&mut self, cbw: CommandBlockWrapper)
        requires
            old(self).sound(),
            cbw.block_len <= MAX_CB_LEN,
        ensures
            final(self).sound(),
            final(self)@ == old(self)@.start_data_transfer(cbw@),
    {
        let mut cbw = cbw;
        // build new state
        match cbw.direction {
            DataDirection::Out => {
                self.enter_state(State::DataTransferFromHost);
            },
            DataDirection::In => {
                self.enter_state(State::DataTransferToHost);
            },
            DataDirection::NotExpected => {
                self.enter_state(State::DataTransferNoData);
                cbw.data_transfer_len = 0;  // whatever the wrapper said
            },
        };
        self.cbw = cbw;
    }

    /// Takes `count` bytes off the data residue.
    fn count_moved(&mut self, count: usize)
        requires
            old(self).sound(),
        ensures
            final(self).sound(),
            final(self)@ == old(self)@.counted(count as int),
    {
        let count = if count > u32::MAX as usize {
            u32::MAX
        } else {
            count as u32
        };
        self.cbw.data_transfer_len = self.cbw.data_transfer_len.saturating_sub(count);
    }

    fn read_packet(&mut self) -> (res: TransportResult<usize>)
        requires
            old(self).sound(),
        ensures
            final(self).sound(),
            final(self)@ == old(self)@.read_packet().0,
            res == old(self)@.read_packet().1,
    {
        let packet_size = self.packet_size();
        let packet = self.out_ep.packet();
        let take = |buf: &mut [u8]| -> (out: TransportResult<usize>)
            requires
                packet matches Some(p) ==> p@.len() <= old(buf)@.len(),
            ensures
                final(buf)@.len() == old(buf)@.len(),
                packet is None ==> final(buf)@ == old(buf)@ && out == Ok::<
                    usize,
                    TransportError<BulkOnlyError>,
                >(0),
                packet matches Some(p) ==> final(buf)@ == p@ + old(buf)@.subrange(
                    p@.len() as int,
                    old(buf)@.len() as int,
                ) && out == Ok::<usize, TransportError<BulkOnlyError>>(p@.len() as usize),
            {
                match packet {
                    Some(p) => {
                        copy_to_front(buf, p);
                        Ok(p.len())
                    },
                    None => Ok(0),
                }
            };
        let ghost before = self.buf@;
        let taken = self.buf.write_all(
            packet_size,
            TransportError::Error(BulkOnlyError::IoBufferOverflow),
            take,
        );
        proof {
            if before.fits(packet_size as int) {
                let at = before.reserved(packet_size as int);
                match old(self)@.out_ep.packet {
                    Some(p) => {
                        assert(self.buf@.mem =~= at.appended(p).mem);
                    },
                    None => {
                        assert(self.buf@.mem =~= at.mem);
                    },
                }
            }
        }
        let count = taken?;
        if self.out_ep.is_full() {
            self.out_ep.discard();
        }
        if count == 0 {
            Err(TransportError::Usb(UsbError::WouldBlock))
        } else {
            Ok(count)
        }
    }

    /// Write single packet from [buf] returning number of bytes actually written
    fn write_packet(&mut self) -> (res: TransportResult<usize>)
        requires
            old(self).sound(),
        ensures
            final(self).sound(),
            final(self)@ == old(self)@.write_packet().0,
            res == old(self)@.write_packet().1,
    {
        let packet_size = self.packet_size();
        let buf = self.buf.peek();
        let sent = if !buf.is_empty() {
            let len = if packet_size < buf.len() {
                packet_size
            } else {
                buf.len()
            };
            let packet = slice_subrange(buf, 0, len);
            assert(packet@ =~= old(self)@.next_packet());
            match self.in_ep.write(packet) {
                Ok(count) => Ok(count),
                Err(UsbError::WouldBlock) => Ok(0),
                Err(err) => Err(TransportError::Usb(err)),
            }
        } else {
            // not enough data in buf, though it's not an error
            Ok(0)
        };
        let count = self.buf.consume(sent?);
        if count == 0 {
            Err(TransportError::Usb(UsbError::WouldBlock))
        } else {
            Ok(count)
        }
    }
}

impl<'a> Transport for BulkOnly<'a> {
    const PROTO: u8 = TRANSPORT_BBB;

    open spec fn wf(&self) -> bool {
        BulkOnly::wf(self)
    }

    open spec fn resets_to(&self, after: &Self) -> bool {
        after@ == self@.reset()
    }

    open spec fn answers(&self, req: Request, reply: ControlReply, after: &Self) -> bool {
        after@ == self@ && reply == self@.control_reply(req)
    }

    fn reset(&mut self) {
        proof {
            lemma_cleaned(self@.buf);
        }
        self.in_ep.discard();
        self.in_ep.unstall();
        self.out_ep.discard();
        self.out_ep.unstall();
        self.enter_state(State::Idle);
    }

    fn control_in(&mut self, req: &Request) -> (reply: ControlReply) {
        // not interested in this request
        if !(matches!(req.request_type, RequestType::Class) && matches!(
            req.recipient,
            Recipient::Interface
        )) {
            return ControlReply::Ignored;
        }
        match req.request {
            // USB Mass Storage Bulk-Only Transport, 3.1
            CLASS_SPECIFIC_BULK_ONLY_MASS_STORAGE_RESET => ControlReply::Accept,
            // USB Mass Storage Bulk-Only Transport, 3.2
            CLASS_SPECIFIC_GET_MAX_LUN => {
                // always respond with LUN
                ControlReply::AcceptWith(self.max_lun)
            },
            _ => ControlReply::Ignored,
        }
    }
}

} // verus!
