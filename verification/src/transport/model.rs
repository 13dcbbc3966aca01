//! The Bulk Only Transport as a state machine over plain values: what each operation of
//! [`BulkOnly`](crate::transport::bbb::BulkOnly) makes of the transport's state, and what it answers.
use crate::buffer::BufferView;
use crate::transport::bbb::{
    BulkOnlyError, State, CLASS_SPECIFIC_BULK_ONLY_MASS_STORAGE_RESET, CLASS_SPECIFIC_GET_MAX_LUN,
};
use crate::transport::cbw::{
    decode_cbw, encode_csw, CbwView, CommandStatusWrapper, DataDirection, CBW_LEN, CSW_LEN, MAX_CB_LEN,
    MIN_CB_LEN,
};
use crate::transport::pipe::PipeView;
use crate::transport::{CommandStatus, ControlReply, TransportError};
use usb_device::control::{Recipient, Request, RequestType};
use usb_device::UsbError;
use vstd::prelude::*;

verus! {

/// What an operation of the transport answers.
pub type TransportResult<T> = Result<T, TransportError<BulkOnlyError>>;

/// What a [`BulkOnly`](crate::transport::bbb::BulkOnly) holds.
pub struct BulkOnlyView {
    /// The pipe of the IN endpoint, filled by the transport
    pub in_ep: PipeView,
    /// The pipe of the OUT endpoint, emptied by the transport
    pub out_ep: PipeView,
    /// The IO buffer, through which all data goes in both directions
    pub buf: BufferView,
    pub state: State,
    /// The wrapper of the command in progress. Its `data_transfer_len` counts down the bytes that are
    /// still to move: it is the data residue.
    pub cbw: CbwView,
    /// The status that was set for the command in progress
    pub cs: Option<CommandStatus>,
    pub max_lun: u8,
}

/// `residue` less `count`, and 0 where `count` is the larger.
pub open spec fn residue_after(residue: u32, count: int) -> u32 {
    if count >= residue {
        0
    } else {
        (residue - count) as u32
    }
}

/// The sizes that a packet of a full-speed bulk endpoint can be limited to.
pub open spec fn valid_packet_size(size: u16) -> bool {
    size == 8 || size == 16 || size == 32 || size == 64
}

impl BulkOnlyView {
    pub open spec fn packet_size(self) -> int {
        self.in_ep.max_packet_size as int
    }

    /// What holds of the parts whatever the state: the buffer and the pipes are well-formed, both
    /// pipes take packets of the one allowed size, and the buffer can hold a Command Block Wrapper and
    /// a packet.
    pub open spec fn sound(self) -> bool {
        &&& self.in_ep.wf()
        &&& self.out_ep.wf()
        &&& self.buf.wf()
        &&& self.in_ep.max_packet_size == self.out_ep.max_packet_size
        &&& valid_packet_size(self.in_ep.max_packet_size)
        &&& self.buf.capacity() >= CBW_LEN
        &&& self.buf.capacity() >= self.packet_size()
        &&& self.max_lun <= 0x0F
        &&& self.cbw.block.len() <= MAX_CB_LEN
    }

    /// A command was received and its status has not been sent in full.
    pub open spec fn has_command(self) -> bool {
        self.state != State::Idle && self.state != State::CommandTransfer
    }

    /// The transport is in the data phase of a command.
    pub open spec fn in_data_phase(self) -> bool {
        self.has_command() && self.state != State::StatusTransfer
    }

    /// The Command Status Wrapper for the command in progress as it stands: its tag, the bytes still
    /// to move and the status that was set.
    pub open spec fn csw(self) -> CommandStatusWrapper {
        CommandStatusWrapper {
            tag: self.cbw.tag,
            data_residue: self.cbw.data_transfer_len,
            status: self.cs.unwrap(),
        }
    }

    /// The parts are sound and fit the state.
    ///
    /// * A command has a command block of 1 to 16 bytes and a LUN up to the largest one.
    /// * Without a command there is no status and no wrapper, and the buffer holds the bytes of a
    ///   wrapper that is still incomplete: none when idle.
    /// * In a data phase the state follows the direction of the command.
    /// * While the status is sent, the buffer holds what is left to send of the Command Status
    ///   Wrapper: all of it as long as a request to halt the IN endpoint has not been taken.
    pub open spec fn wf(self) -> bool {
        &&& self.sound()
        &&& self.has_command() ==> MIN_CB_LEN <= self.cbw.block.len() && self.cbw.lun <= self.max_lun
        &&& match self.state {
            State::Idle => self.cs is None && self.cbw == CbwView::empty()
                && self.buf.available_read() == 0,
            State::CommandTransfer => self.cs is None && self.cbw == CbwView::empty() && 0
                < self.buf.available_read() < CBW_LEN,
            State::DataTransferToHost => self.cbw.direction == DataDirection::In,
            State::DataTransferFromHost => self.cbw.direction == DataDirection::Out,
            State::DataTransferNoData => self.cbw.direction == DataDirection::NotExpected
                && self.cbw.data_transfer_len == 0,
            State::StatusTransfer => self.cs is Some && 0 < self.buf.available_read() <= CSW_LEN
                && self.buf.stored() == encode_csw(self.csw()).subrange(
                CSW_LEN - self.buf.available_read(),
                CSW_LEN as int,
            ) && (self.in_ep.halt == Some(true) ==> self.buf.available_read() == CSW_LEN),
        }
    }

    /// The transport as it is made: idle, with an empty buffer over `mem` and empty pipes.
    pub open spec fn initial(packet_size: u16, max_lun: u8, mem: Seq<u8>) -> BulkOnlyView {
        BulkOnlyView {
            in_ep: PipeView { max_packet_size: packet_size, packet: None, halt: None },
            out_ep: PipeView { max_packet_size: packet_size, packet: None, halt: None },
            buf: BufferView { mem, rpos: 0, wpos: 0 },
            state: State::Idle,
            cbw: CbwView::empty(),
            cs: None,
            max_lun,
        }
    }

    /// The transport back in `Idle`: no command, no status, nothing in the buffer.
    pub open spec fn idle(self) -> BulkOnlyView {
        BulkOnlyView {
            buf: self.buf.cleaned(),
            cbw: CbwView::empty(),
            cs: None,
            state: State::Idle,
            ..self
        }
    }

    /// The transport with the halt condition asked for on the IN endpoint.
    pub open spec fn in_stalled(self) -> BulkOnlyView {
        BulkOnlyView { in_ep: PipeView { halt: Some(true), ..self.in_ep }, ..self }
    }

    /// The transport with the halt condition asked for on the OUT endpoint.
    pub open spec fn out_stalled(self) -> BulkOnlyView {
        BulkOnlyView { out_ep: PipeView { halt: Some(true), ..self.out_ep }, ..self }
    }

    /// The transport after a bus reset: the halt conditions are to be cleared, the pipes are empty,
    /// and it is idle.
    pub open spec fn reset(self) -> BulkOnlyView {
        BulkOnlyView {
            in_ep: PipeView { halt: Some(false), packet: None, ..self.in_ep },
            out_ep: PipeView { halt: Some(false), packet: None, ..self.out_ep },
            ..self
        }.idle()
    }

    /// Moving the packet of the OUT pipe, if there is one, behind the bytes of the buffer.
    ///
    /// Room for a full packet is made first; without it nothing is taken and the answer is
    /// `IoBufferOverflow`. The answer is the length of the packet; `WouldBlock` where it is 0 or there
    /// is no packet.
    pub open spec fn read_packet(self) -> (BulkOnlyView, TransportResult<usize>) {
        let buf = self.buf.reserved(self.packet_size());
        if !self.buf.fits(self.packet_size()) {
            (
                BulkOnlyView { buf, ..self },
                Err(TransportError::Error(BulkOnlyError::IoBufferOverflow)),
            )
        } else {
            match self.out_ep.packet {
                None => (BulkOnlyView { buf, ..self }, Err(TransportError::Usb(UsbError::WouldBlock))),
                Some(p) => (
                    BulkOnlyView {
                        buf: buf.appended(p),
                        out_ep: PipeView { packet: None, ..self.out_ep },
                        ..self
                    },
                    if p.len() == 0 {
                        Err(TransportError::Usb(UsbError::WouldBlock))
                    } else {
                        Ok(p.len() as usize)
                    },
                ),
            }
        }
    }

    /// The bytes that make the next packet for the host: the oldest of the buffer, a full packet of
    /// them or all there are.
    pub open spec fn next_packet(self) -> Seq<u8> {
        if self.buf.available_read() < self.packet_size() {
            self.buf.stored()
        } else {
            self.buf.stored().subrange(0, self.packet_size())
        }
    }

    /// Moving the next packet from the buffer into the IN pipe.
    ///
    /// The answer is the length of the packet; `WouldBlock` where the buffer is empty or the pipe
    /// takes no packet: it still holds the packet before, or a request to halt the endpoint.
    pub open spec fn write_packet(self) -> (BulkOnlyView, TransportResult<usize>) {
        if self.buf.available_read() == 0 || !self.in_ep.takes_packet() {
            (self, Err(TransportError::Usb(UsbError::WouldBlock)))
        } else {
            (
                BulkOnlyView {
                    in_ep: PipeView { packet: Some(self.next_packet()), ..self.in_ep },
                    buf: self.buf.consumed(self.next_packet().len() as int),
                    ..self
                },
                Ok(self.next_packet().len() as usize),
            )
        }
    }

    /// The transport with `count` more bytes moved in the data phase.
    pub open spec fn counted(self, count: int) -> BulkOnlyView {
        BulkOnlyView {
            cbw: CbwView {
                data_transfer_len: residue_after(self.cbw.data_transfer_len, count),
                ..self.cbw
            },
            ..self
        }
    }

    /// Entering the data phase of the command that `cbw` describes.
    pub open spec fn start_data_transfer(self, cbw: CbwView) -> BulkOnlyView {
        match cbw.direction {
            DataDirection::Out => BulkOnlyView { state: State::DataTransferFromHost, cbw, ..self },
            DataDirection::In => BulkOnlyView { state: State::DataTransferToHost, cbw, ..self },
            DataDirection::NotExpected => BulkOnlyView {
                state: State::DataTransferNoData,
                cbw: CbwView { data_transfer_len: 0, ..cbw },
                ..self
            },
        }
    }

    /// The wrapper that the transport takes up from the 31 bytes `frame`, if they hold one for it:
    /// a valid wrapper for a LUN up to the largest one.
    pub open spec fn command_in(self, frame: Seq<u8>) -> Option<CbwView> {
        match decode_cbw(frame) {
            Some(cbw) => if cbw.lun <= self.max_lun {
                Some(cbw)
            } else {
                None
            },
            None => None,
        }
    }

    /// Taking a Command Block Wrapper out of the buffer, which holds at least its 31 bytes.
    ///
    /// A valid wrapper for a LUN of the device starts the data phase of its command. For any other
    /// the halt condition is asked for on both endpoints and the transport is idle again.
    pub open spec fn accept_cbw(self) -> BulkOnlyView {
        let taken = BulkOnlyView { buf: self.buf.consumed(CBW_LEN as int), ..self };
        match self.command_in(self.buf.stored().subrange(0, CBW_LEN as int)) {
            Some(cbw) => taken.start_data_transfer(cbw),
            None => taken.in_stalled().out_stalled().idle(),
        }
    }

    /// Reading a packet while a Command Block Wrapper is awaited.
    pub open spec fn handle_read_cbw(self) -> (BulkOnlyView, TransportResult<()>) {
        let (read, res) = self.read_packet();
        match res {
            Err(e) => (read, Err(e)),
            Ok(_) => if read.buf.available_read() >= CBW_LEN {
                (read.accept_cbw(), Ok(()))
            } else {
                (BulkOnlyView { state: State::CommandTransfer, ..read }, Ok(()))
            },
        }
    }

    /// Whether the data phase is over: a status was set and, in a phase towards the host, the buffer
    /// holds nothing more to send. A phase from the host is over with the status, whatever the buffer
    /// still holds: once a status is set the user is not asked again, so bytes that were not read
    /// by then are dropped.
    pub open spec fn data_phase_over(self) -> bool {
        &&& self.cs is Some
        &&& self.state == State::DataTransferNoData || self.state == State::DataTransferFromHost || (
        self.state == State::DataTransferToHost && self.buf.available_read() == 0)
    }

    /// The transport with the halt condition asked for on the endpoint of the data phase, where
    /// bytes were left to move.
    pub open spec fn stalled_short(self) -> BulkOnlyView {
        if self.cbw.data_transfer_len > 0 && self.state == State::DataTransferToHost {
            self.in_stalled()
        } else if self.cbw.data_transfer_len > 0 && self.state == State::DataTransferFromHost {
            self.out_stalled()
        } else {
            self
        }
    }

    /// The end of the data phase, before anything of the status is sent: the endpoint of a phase
    /// that fell short is to halt, and the buffer holds the Command Status Wrapper and nothing else.
    pub open spec fn status_queued(self) -> BulkOnlyView {
        let short = self.stalled_short();
        BulkOnlyView {
            buf: short.buf.cleaned().written(encode_csw(self.csw())),
            state: State::StatusTransfer,
            ..short
        }
    }

    /// Sending a packet of the Command Status Wrapper; with its last byte the transport is idle.
    pub open spec fn handle_write_csw(self) -> (BulkOnlyView, TransportResult<()>) {
        let (sent, res) = self.write_packet();
        match res {
            Err(e) => (sent, Err(e)),
            Ok(_) => if sent.buf.available_read() == 0 {
                (sent.idle(), Ok(()))
            } else {
                (sent, Ok(()))
            },
        }
    }

    /// Ending the data phase and sending the first packet of the status.
    pub open spec fn end_data_transfer(self) -> (BulkOnlyView, TransportResult<()>) {
        self.status_queued().handle_write_csw()
    }

    /// Ending the data phase if it is over.
    pub open spec fn check_end_data_transfer(self) -> (BulkOnlyView, TransportResult<()>) {
        if self.data_phase_over() {
            self.end_data_transfer()
        } else {
            (self, Ok(()))
        }
    }

    /// Reading a packet of data from the host. Once a status is set no more is read.
    pub open spec fn handle_read_from_host(self) -> (BulkOnlyView, TransportResult<()>) {
        if self.cs is None {
            let (read, res) = self.read_packet();
            match res {
                Err(e) => (read, Err(e)),
                Ok(count) => read.counted(count as int).check_end_data_transfer(),
            }
        } else {
            self.check_end_data_transfer()
        }
    }

    /// Whether the next packet for the host has to be a full one: as many bytes are still to move,
    /// and no status was set.
    pub open spec fn full_packet_expected(self) -> bool {
        self.cbw.data_transfer_len >= self.packet_size() && self.cs is None
    }

    /// Sending a packet of data to the host. A packet that has to be full is not sent short.
    pub open spec fn handle_write_to_host(self) -> (BulkOnlyView, TransportResult<()>) {
        if self.full_packet_expected() && self.buf.available_read() < self.packet_size() {
            (self, Err(TransportError::Error(BulkOnlyError::FullPacketExpected)))
        } else if self.buf.available_read() > 0 {
            let (sent, res) = self.write_packet();
            match res {
                Err(e) => (sent, Err(e)),
                Ok(count) => sent.counted(count as int).check_end_data_transfer(),
            }
        } else {
            self.check_end_data_transfer()
        }
    }

    /// Driving the transport by reading a single packet.
    pub open spec fn read(self) -> (BulkOnlyView, TransportResult<()>) {
        match self.state {
            State::Idle | State::CommandTransfer => self.handle_read_cbw(),
            State::DataTransferFromHost => self.handle_read_from_host(),
            _ => (self, Ok(())),
        }
    }

    /// Driving the transport by writing a single packet.
    pub open spec fn write(self) -> (BulkOnlyView, TransportResult<()>) {
        match self.state {
            State::StatusTransfer => self.handle_write_csw(),
            State::DataTransferToHost => self.handle_write_to_host(),
            State::DataTransferNoData => self.check_end_data_transfer(),
            _ => (self, Ok(())),
        }
    }

    /// Setting the status of the command in progress.
    ///
    /// The status is set once, in the data phase; elsewhere nothing changes. `Failed` and
    /// `PhaseError` end the data phase on the spot, unless bytes for the host are still in the
    /// buffer: these go out first. After `Passed` the data phase ends with the next read or write.
    /// Whichever the status, bytes from the host that were not read are dropped at the end.
    pub open spec fn set_status(self, status: CommandStatus) -> BulkOnlyView {
        if self.in_data_phase() && self.cs is None {
            let set = BulkOnlyView { cs: Some(status), ..self };
            if status == CommandStatus::Passed {
                set
            } else {
                set.check_end_data_transfer().0
            }
        } else {
            self
        }
    }

    /// The command block in progress and the LUN that it is for.
    pub open spec fn command(self) -> Option<(Seq<u8>, u8)> {
        if self.has_command() {
            Some((self.cbw.block, self.cbw.lun))
        } else {
            None
        }
    }

    /// Number of bytes that `read_data` hands out when there is room for `room` of them.
    pub open spec fn read_data_count(self, room: int) -> int {
        self.buf.consume_count(room)
    }

    /// Handing the oldest bytes of the buffer to the user, who has room for `room` of them.
    pub open spec fn read_data(self, room: int) -> (BulkOnlyView, TransportResult<usize>) {
        if self.state == State::DataTransferFromHost {
            (
                BulkOnlyView { buf: self.buf.consumed(room), ..self },
                Ok(self.read_data_count(room) as usize),
            )
        } else {
            (self, Err(TransportError::Error(BulkOnlyError::InvalidState)))
        }
    }

    /// Whether the user may put data for the host into the buffer: the data phase goes towards the
    /// host and no status was set.
    pub open spec fn takes_data(self) -> bool {
        self.state == State::DataTransferToHost && self.cs is None
    }

    /// The bytes of `src` that the host still expects: all of them, or as many as are still to move.
    pub open spec fn expected(self, src: Seq<u8>) -> Seq<u8> {
        if src.len() <= self.cbw.data_transfer_len {
            src
        } else {
            src.subrange(0, self.cbw.data_transfer_len as int)
        }
    }

    /// Taking from the user as much of `src` as the host still expects and the buffer has room for.
    pub open spec fn write_data(self, src: Seq<u8>) -> (BulkOnlyView, TransportResult<usize>) {
        if self.takes_data() {
            (
                BulkOnlyView { buf: self.buf.written(self.expected(src)), ..self },
                Ok(self.buf.write_count(self.expected(src).len() as int) as usize),
            )
        } else {
            (self, Err(TransportError::Error(BulkOnlyError::InvalidState)))
        }
    }

    /// Taking all of `src` from the user, or nothing.
    pub open spec fn try_write_data_all(self, src: Seq<u8>) -> (BulkOnlyView, TransportResult<()>) {
        if !self.takes_data() {
            (self, Err(TransportError::Error(BulkOnlyError::InvalidState)))
        } else if !self.buf.fits(src.len() as int) {
            (
                BulkOnlyView { buf: self.buf.reserved(src.len() as int), ..self },
                Err(TransportError::Error(BulkOnlyError::IoBufferOverflow)),
            )
        } else {
            (BulkOnlyView { buf: self.buf.reserved(src.len() as int).appended(src), ..self }, Ok(()))
        }
    }

    /// The answer to the control request `req`, which goes from device to host.
    ///
    /// Only requests of the class to the interface are answered: Get Max LUN with the largest LUN, and
    /// Bulk-Only Mass Storage Reset without data.
    pub open spec fn control_reply(self, req: Request) -> ControlReply {
        if !(req.request_type == RequestType::Class && req.recipient == Recipient::Interface) {
            ControlReply::Ignored
        } else if req.request == CLASS_SPECIFIC_BULK_ONLY_MASS_STORAGE_RESET {
            ControlReply::Accept
        } else if req.request == CLASS_SPECIFIC_GET_MAX_LUN {
            ControlReply::AcceptWith(self.max_lun)
        } else {
            ControlReply::Ignored
        }
    }

    /// The peripheral driver handing over `packet`, which the host sent.
    pub open spec fn deliver(self, packet: Seq<u8>) -> (BulkOnlyView, Result<usize, UsbError>) {
        (
            BulkOnlyView { out_ep: self.out_ep.written(packet), ..self },
            self.out_ep.write_result(packet.len() as int),
        )
    }

    /// The transport once the peripheral driver has sent the packet that waited for the host.
    pub open spec fn sent(self) -> BulkOnlyView {
        BulkOnlyView { in_ep: PipeView { packet: None, ..self.in_ep }, ..self }
    }

    /// The request to set or clear the halt condition of the IN endpoint that the peripheral driver
    /// can take now: none while a packet waits in the pipe, which has to go first.
    pub open spec fn in_halt(self) -> Option<bool> {
        if self.in_ep.packet is Some {
            None
        } else {
            self.in_ep.halt
        }
    }

    /// The transport once the peripheral driver has taken the request for the halt condition of the
    /// IN endpoint, if it could take one.
    pub open spec fn in_halt_taken(self) -> BulkOnlyView {
        if self.in_ep.packet is Some {
            self
        } else {
            BulkOnlyView { in_ep: PipeView { halt: None, ..self.in_ep }, ..self }
        }
    }

    /// The transport once the peripheral driver has taken the request for the halt condition of the
    /// OUT endpoint.
    pub open spec fn out_halt_taken(self) -> BulkOnlyView {
        BulkOnlyView { out_ep: PipeView { halt: None, ..self.out_ep }, ..self }
    }

    /// The transport after it was driven once in each direction: a packet read, then a packet
    /// written.
    pub open spec fn driven(self) -> BulkOnlyView {
        self.read().0.write().0
    }

    /// Whether the command in progress waits for the user to act: there is one, and it has no status.
    pub open spec fn asks_user(self) -> bool {
        self.has_command() && self.cs is None
    }

    /// Whether the user has to bring more data before the transport can go on: writing a packet
    /// answers `FullPacketExpected`.
    pub open spec fn wants_data(self) -> bool {
        self.write().1 == Err::<(), _>(TransportError::Error(BulkOnlyError::FullPacketExpected))
    }

    /// The transport after it was driven once the user has acted: a packet written and, unless more
    /// data has to come first, a packet read.
    pub open spec fn settled(self) -> BulkOnlyView {
        if self.wants_data() {
            self.write().0
        } else {
            self.write().0.read().0
        }
    }

    /// The transport after the operation `op`.
    pub open spec fn apply(self, op: Op) -> BulkOnlyView {
        match op {
            Op::Read => self.read().0,
            Op::Write => self.write().0,
            Op::SetStatus(status) => self.set_status(status),
            Op::ReadData(room) => self.read_data(room as int).0,
            Op::WriteData(src) => self.write_data(src).0,
            Op::TryWriteDataAll(src) => self.try_write_data_all(src).0,
            Op::Reset => self.reset(),
            Op::Deliver(packet) => self.deliver(packet).0,
            Op::Sent => self.sent(),
            Op::TakeInHalt => self.in_halt_taken(),
            Op::TakeOutHalt => self.out_halt_taken(),
        }
    }

    /// The transport after the operations `ops`, first to last.
    pub open spec fn run(self, ops: Seq<Op>) -> BulkOnlyView
        decreases ops.len(),
    {
        if ops.len() == 0 {
            self
        } else {
            self.run(ops.drop_last()).apply(ops.last())
        }
    }

    /// Number of bytes that the operation `op` moves in the data phase, between the host and the
    /// buffer: the length of the packet that a read takes from the OUT pipe on the way from the host,
    /// or that a write puts into the IN pipe on the way to the host.
    pub open spec fn moves(self, op: Op) -> int {
        match op {
            Op::Read => if self.state == State::DataTransferFromHost && self.cs is None {
                match self.read_packet().1 {
                    Ok(count) => count as int,
                    Err(_) => 0,
                }
            } else {
                0
            },
            Op::Write => if self.state == State::DataTransferToHost && self.handle_write_to_host().1
                != Err::<(), _>(TransportError::Error(BulkOnlyError::FullPacketExpected)) {
                match self.write_packet().1 {
                    Ok(count) => count as int,
                    Err(_) => 0,
                }
            } else {
                0
            },
            _ => 0,
        }
    }

    /// Number of bytes that the operations `ops` move in the data phase.
    pub open spec fn moved(self, ops: Seq<Op>) -> int
        decreases ops.len(),
    {
        if ops.len() == 0 {
            0
        } else {
            self.moved(ops.drop_last()) + self.run(ops.drop_last()).moves(ops.last())
        }
    }

    /// Whether the transport has a command before, between and after the operations `ops`: they all
    /// work on the one command.
    pub open spec fn within_command(self, ops: Seq<Op>) -> bool
        decreases ops.len(),
    {
        if ops.len() == 0 {
            self.has_command()
        } else {
            self.within_command(ops.drop_last()) && self.run(ops).has_command()
        }
    }
}

/// Whether `before` and `after` are what the calls of the user's closure in one `poll` found and
/// left, in order, so far, with `now` for the next call to find: the first call found `driven`, each
/// later call found what the call before had left, and every call left a transport that asked for
/// more data.
pub open spec fn calls_so_far(
    driven: BulkOnlyView,
    before: Seq<BulkOnlyView>,
    after: Seq<BulkOnlyView>,
    now: BulkOnlyView,
) -> bool {
    &&& before.len() == after.len()
    &&& forall|i: int| 0 <= i < after.len() ==> (#[trigger] after[i]).wants_data()
    &&& forall|i: int|
        0 <= i < before.len() ==> #[trigger] before[i] == if i == 0 {
            driven
        } else {
            after[i - 1]
        }
    &&& now == if after.len() == 0 {
        driven
    } else {
        after.last()
    }
}

/// Whether `before` and `after` are what all the calls of the user's closure in one `poll` found and
/// left, in order: there is at least one call, the first call found `driven`, and each later call
/// found what the call before had left. A call is followed by another exactly where it leaves a
/// transport that asks for more data; only the call that no `usize` can count beyond is the last in
/// any case.
pub open spec fn calls_of_poll(
    driven: BulkOnlyView,
    before: Seq<BulkOnlyView>,
    after: Seq<BulkOnlyView>,
) -> bool {
    &&& before.len() == after.len()
    &&& 1 <= before.len() <= usize::MAX
    &&& forall|i: int|
        0 <= i < before.len() ==> #[trigger] before[i] == if i == 0 {
            driven
        } else {
            after[i - 1]
        }
    &&& forall|i: int| 0 <= i < after.len() - 1 ==> (#[trigger] after[i]).wants_data()
    &&& !after.last().wants_data() || after.len() == usize::MAX
}

/// An operation on the transport: one of those of the user and of the subclass, or one of those by
/// which the peripheral driver moves packets and takes requests.
pub enum Op {
    Read,
    Write,
    SetStatus(CommandStatus),
    /// `read_data` into as many bytes
    ReadData(nat),
    WriteData(Seq<u8>),
    TryWriteDataAll(Seq<u8>),
    Reset,
    Deliver(Seq<u8>),
    Sent,
    TakeInHalt,
    TakeOutHalt,
}

} // verus!
