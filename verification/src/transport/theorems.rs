//! What holds of the Bulk Only Transport in every state and over every operation.
use crate::buffer::{lemma_appended, lemma_cleaned, lemma_consumed, lemma_reserved, lemma_written};
use crate::bytes::le32_at;
use crate::transport::bbb::{BulkOnlyError, State};
use crate::transport::cbw::{
    decode_cbw, decode_csw, encode_csw, lemma_csw_round_trip, CbwView, CommandStatusWrapper,
    DataDirection, CBW_LEN, CBW_SIGNATURE, CSW_LEN, MAX_CB_LEN, MIN_CB_LEN,
};
use crate::transport::model::{calls_of_poll, residue_after, BulkOnlyView, Op};
use crate::transport::{CommandStatus, TransportError};
use usb_device::UsbError;
use vstd::prelude::*;

verus! {

/// A packet from the host is stored behind the bytes of the buffer; nothing else changes but the OUT
/// pipe, which is empty afterwards. Without a packet of at least one byte the buffer holds what it
/// held.
pub proof fn lemma_read_packet(v: BulkOnlyView)
    requires
        v.sound(),
    ensures
        ({
            let (w, res) = v.read_packet();
            &&& w.sound()
            &&& w == BulkOnlyView { buf: w.buf, out_ep: w.out_ep, ..v }
            &&& w.out_ep.halt == v.out_ep.halt
            &&& w.buf.capacity() == v.buf.capacity()
            &&& res matches Ok(count) ==> {
                &&& v.out_ep.packet matches Some(p)
                &&& 0 < count == p.len() <= v.packet_size()
                &&& w.buf.stored() == v.buf.stored() + p
                &&& w.out_ep.packet is None
            }
            &&& res is Err ==> w.buf.stored() == v.buf.stored()
        }),
{
    let size = v.packet_size();
    lemma_reserved(v.buf, size);
    if v.buf.fits(size) {
        if let Some(p) = v.out_ep.packet {
            lemma_appended(v.buf.reserved(size), p);
            if p.len() == 0 {
                assert(v.buf.stored() + p =~= v.buf.stored());
            }
        }
    }
}

/// The packet for the host is made of the oldest bytes of the buffer, which leave it; nothing else
/// changes. Where no packet can go, nothing changes at all.
pub proof fn lemma_write_packet(v: BulkOnlyView)
    requires
        v.sound(),
    ensures
        ({
            let (w, res) = v.write_packet();
            &&& w.sound()
            &&& w == BulkOnlyView { buf: w.buf, in_ep: w.in_ep, ..v }
            &&& w.in_ep.halt == v.in_ep.halt
            &&& w.buf.capacity() == v.buf.capacity()
            &&& res matches Ok(count) ==> {
                &&& v.in_ep.takes_packet()
                &&& 0 < count <= v.packet_size()
                &&& count == if v.buf.available_read() < v.packet_size() {
                    v.buf.available_read()
                } else {
                    v.packet_size()
                }
                &&& w.in_ep.packet == Some(v.buf.stored().subrange(0, count as int))
                &&& w.buf.stored() == v.buf.stored().subrange(
                    count as int,
                    v.buf.available_read(),
                )
            }
            &&& res is Err ==> w == v
        }),
{
    let packet = v.next_packet();
    lemma_consumed(v.buf, packet.len() as int);
    assert(packet =~= v.buf.stored().subrange(0, packet.len() as int));
}

/// The end of a data phase leaves the transport well-formed: it sends the status, or has sent all of
/// it and is idle.
pub proof fn lemma_end_data_transfer(v: BulkOnlyView)
    requires
        v.wf(),
        v.in_data_phase(),
        v.cs is Some,
    ensures
        v.status_queued().wf(),
        v.status_queued().buf.stored() == encode_csw(v.csw()),
        v.end_data_transfer().0.wf(),
{
    let csw = encode_csw(v.csw());
    lemma_csw_round_trip(v.csw());
    let short = v.stalled_short();
    lemma_cleaned(short.buf);
    lemma_written(short.buf.cleaned(), csw);
    let queued = v.status_queued();
    assert(queued.buf.stored() =~= csw);
    assert(queued.csw() == v.csw());
    assert(queued.buf.stored() =~= csw.subrange(0, CSW_LEN as int));
    assert(queued.wf());
    lemma_handle_write_csw(queued);
}

/// Sending a packet of the status leaves the transport well-formed.
pub proof fn lemma_handle_write_csw(v: BulkOnlyView)
    requires
        v.wf(),
        v.state == State::StatusTransfer,
    ensures
        v.handle_write_csw().0.wf(),
{
    lemma_write_packet(v);
    let (sent, res) = v.write_packet();
    if let Ok(count) = res {
        if sent.buf.available_read() == 0 {
            lemma_cleaned(sent.buf);
        } else {
            assert(sent.csw() == v.csw());
            let left = v.buf.available_read();
            assert(sent.buf.stored() =~= encode_csw(v.csw()).subrange(
                CSW_LEN - sent.buf.available_read(),
                CSW_LEN as int,
            ));
        }
    }
}

/// Looking whether the data phase is over leaves the transport well-formed.
pub proof fn lemma_check_end_data_transfer(v: BulkOnlyView)
    requires
        v.wf(),
        v.in_data_phase(),
    ensures
        v.check_end_data_transfer().0.wf(),
{
    if v.data_phase_over() {
        lemma_end_data_transfer(v);
    }
}

/// Taking a Command Block Wrapper out of the buffer leaves the transport well-formed.
pub proof fn lemma_accept_cbw(v: BulkOnlyView)
    requires
        v.sound(),
        !v.has_command(),
        v.cs is None,
        v.buf.available_read() >= CBW_LEN,
    ensures
        v.accept_cbw().wf(),
{
    lemma_consumed(v.buf, CBW_LEN as int);
    let taken = BulkOnlyView { buf: v.buf.consumed(CBW_LEN as int), ..v };
    if v.command_in(v.buf.stored().subrange(0, CBW_LEN as int)) is None {
        lemma_cleaned(taken.buf);
    }
}

/// Reading a packet leaves a well-formed transport well-formed.
pub proof fn lemma_read_keeps_wf(v: BulkOnlyView)
    requires
        v.wf(),
    ensures
        v.read().0.wf(),
{
    match v.state {
        State::Idle | State::CommandTransfer => {
            lemma_read_packet(v);
            let (read, res) = v.read_packet();
            if res is Ok {
                if read.buf.available_read() >= CBW_LEN {
                    lemma_accept_cbw(read);
                }
            }
        },
        State::DataTransferFromHost => {
            if v.cs is None {
                lemma_read_packet(v);
                let (read, res) = v.read_packet();
                if let Ok(count) = res {
                    lemma_check_end_data_transfer(read.counted(count as int));
                }
            } else {
                lemma_check_end_data_transfer(v);
            }
        },
        _ => {},
    }
}

/// Writing a packet leaves a well-formed transport well-formed.
pub proof fn lemma_write_keeps_wf(v: BulkOnlyView)
    requires
        v.wf(),
    ensures
        v.write().0.wf(),
{
    match v.state {
        State::StatusTransfer => {
            lemma_handle_write_csw(v);
        },
        State::DataTransferToHost => {
            lemma_write_packet(v);
            let (sent, res) = v.write_packet();
            if let Ok(count) = res {
                lemma_check_end_data_transfer(sent.counted(count as int));
            }
            lemma_check_end_data_transfer(v);
        },
        State::DataTransferNoData => {
            lemma_check_end_data_transfer(v);
        },
        _ => {},
    }
}

/// Setting a status leaves a well-formed transport well-formed.
pub proof fn lemma_set_status_keeps_wf(v: BulkOnlyView, status: CommandStatus)
    requires
        v.wf(),
    ensures
        v.set_status(status).wf(),
{
    if v.in_data_phase() && v.cs is None {
        lemma_check_end_data_transfer(BulkOnlyView { cs: Some(status), ..v });
    }
}

/// The transport hands on no error of the USB stack but `WouldBlock`, and asks for more data only by
/// leaving everything as it is.
pub proof fn lemma_drive_results(v: BulkOnlyView)
    requires
        v.wf(),
    ensures
        v.read().1 matches Err(TransportError::Usb(e)) ==> e == UsbError::WouldBlock,
        v.write().1 matches Err(TransportError::Usb(e)) ==> e == UsbError::WouldBlock,
        v.wants_data() ==> v.write().0 == v && v.state == State::DataTransferToHost && v.cs is None
            && v.buf.available_read() < v.packet_size(),
{
    lemma_read_packet(v);
    lemma_write_packet(v);
    match v.state {
        State::DataTransferFromHost => {
            if v.cs is None {
                let (read, res) = v.read_packet();
                if let Ok(count) = res {
                    lemma_end_results(read.counted(count as int));
                }
            } else {
                lemma_end_results(v);
            }
        },
        State::DataTransferToHost => {
            let (sent, res) = v.write_packet();
            if let Ok(count) = res {
                lemma_end_results(sent.counted(count as int));
            }
            lemma_end_results(v);
        },
        State::DataTransferNoData => {
            lemma_end_results(v);
        },
        _ => {},
    }
}

/// The end of a data phase answers `Ok` or `WouldBlock`.
pub proof fn lemma_end_results(v: BulkOnlyView)
    requires
        v.sound(),
    ensures
        v.check_end_data_transfer().1 matches Err(e) ==> e == TransportError::<BulkOnlyError>::Usb(
            UsbError::WouldBlock,
        ),
{
}

/// Handing data to the user or taking data from the user leaves a well-formed transport
/// well-formed.
pub proof fn lemma_data_keeps_wf(v: BulkOnlyView, room: int, src: Seq<u8>)
    requires
        v.wf(),
        0 <= room,
    ensures
        v.read_data(room).0.wf(),
        v.write_data(src).0.wf(),
        v.try_write_data_all(src).0.wf(),
{
    lemma_consumed(v.buf, room);
    lemma_written(v.buf, v.expected(src));
    lemma_reserved(v.buf, src.len() as int);
    if v.buf.fits(src.len() as int) {
        lemma_appended(v.buf.reserved(src.len() as int), src);
    }
}

/// What the peripheral driver does to the pipes leaves a well-formed transport well-formed.
pub proof fn lemma_bus_keeps_wf(v: BulkOnlyView, packet: Seq<u8>)
    requires
        v.wf(),
    ensures
        v.deliver(packet).0.wf(),
        v.sent().wf(),
        v.in_halt_taken().wf(),
        v.out_halt_taken().wf(),
{
}

/// A bus reset leaves a well-formed transport well-formed.
pub proof fn lemma_reset_keeps_wf(v: BulkOnlyView)
    requires
        v.wf(),
    ensures
        v.reset().wf(),
{
    lemma_cleaned(v.buf);
}

/// Every operation leaves a well-formed transport well-formed.
pub proof fn lemma_apply_keeps_wf(v: BulkOnlyView, op: Op)
    requires
        v.wf(),
    ensures
        v.apply(op).wf(),
{
    match op {
        Op::Read => lemma_read_keeps_wf(v),
        Op::Write => lemma_write_keeps_wf(v),
        Op::SetStatus(status) => lemma_set_status_keeps_wf(v, status),
        Op::ReadData(room) => lemma_data_keeps_wf(v, room as int, Seq::empty()),
        Op::WriteData(src) => lemma_data_keeps_wf(v, 0, src),
        Op::TryWriteDataAll(src) => lemma_data_keeps_wf(v, 0, src),
        Op::Reset => lemma_reset_keeps_wf(v),
        Op::Deliver(packet) => lemma_bus_keeps_wf(v, packet),
        Op::Sent => lemma_bus_keeps_wf(v, Seq::empty()),
        Op::TakeInHalt => lemma_bus_keeps_wf(v, Seq::empty()),
        Op::TakeOutHalt => lemma_bus_keeps_wf(v, Seq::empty()),
    }
}

/// Taking bytes off a residue twice is taking their sum off.
pub proof fn lemma_residue_after_twice(residue: u32, first: int, second: int)
    requires
        0 <= first,
        0 <= second,
    ensures
        residue_after(residue_after(residue, first), second) == residue_after(
            residue,
            first + second,
        ),
{
}

/// An operation that finds a command and leaves one leaves the same command: the tag, the LUN, the
/// direction and the command block are what they were, and the data residue is less by the bytes
/// that the operation moved in the data phase.
pub proof fn lemma_apply_within_command(v: BulkOnlyView, op: Op)
    requires
        v.wf(),
        v.has_command(),
        v.apply(op).has_command(),
    ensures
        v.apply(op).cbw == (CbwView {
            data_transfer_len: residue_after(v.cbw.data_transfer_len, v.moves(op)),
            ..v.cbw
        }),
        0 <= v.moves(op) <= v.packet_size(),
        v.state == State::StatusTransfer ==> v.apply(op).state == State::StatusTransfer
            && v.apply(op).cs == v.cs,
{
    lemma_read_packet(v);
    lemma_write_packet(v);
    match op {
        Op::Read => {
            if v.state == State::DataTransferFromHost && v.cs is None {
                let (read, res) = v.read_packet();
                if let Ok(count) = res {
                    lemma_end_within_command(read.counted(count as int));
                }
            } else if v.state == State::DataTransferFromHost {
                lemma_end_within_command(v);
            }
        },
        Op::Write => {
            if v.state == State::DataTransferToHost {
                let (sent, res) = v.write_packet();
                if let Ok(count) = res {
                    lemma_end_within_command(sent.counted(count as int));
                }
                lemma_end_within_command(v);
            } else if v.state == State::DataTransferNoData {
                lemma_end_within_command(v);
            }
        },
        Op::SetStatus(status) => {
            lemma_end_within_command(BulkOnlyView { cs: Some(status), ..v });
        },
        _ => {},
    }
}

/// The end of the data phase, where it leaves a command, leaves its wrapper as it is.
pub proof fn lemma_end_within_command(v: BulkOnlyView)
    requires
        v.sound(),
    ensures
        v.check_end_data_transfer().0.has_command() ==> v.check_end_data_transfer().0.cbw == v.cbw,
{
    if v.data_phase_over() {
        lemma_write_packet(v.status_queued());
    }
}

/// Over the operations on one command, the data residue is the data transfer length of the command
/// less the bytes that were moved in its data phase, and 0 where more were moved. The tag, the LUN,
/// the direction and the command block stay what they are.
pub proof fn theorem_residue(v: BulkOnlyView, ops: Seq<Op>)
    requires
        v.wf(),
        v.within_command(ops),
    ensures
        v.run(ops).wf(),
        0 <= v.moved(ops),
        v.run(ops).cbw == (CbwView {
            data_transfer_len: residue_after(v.cbw.data_transfer_len, v.moved(ops)),
            ..v.cbw
        }),
    decreases ops.len(),
{
    if ops.len() > 0 {
        let before = v.run(ops.drop_last());
        theorem_residue(v, ops.drop_last());
        lemma_apply_keeps_wf(before, ops.last());
        lemma_apply_within_command(before, ops.last());
        lemma_residue_after_twice(
            v.cbw.data_transfer_len,
            v.moved(ops.drop_last()),
            before.moves(ops.last()),
        );
    }
}

/// Every sequence of operations leaves a well-formed transport well-formed.
pub proof fn theorem_wf(v: BulkOnlyView, ops: Seq<Op>)
    requires
        v.wf(),
    ensures
        v.run(ops).wf(),
    decreases ops.len(),
{
    if ops.len() > 0 {
        theorem_wf(v, ops.drop_last());
        lemma_apply_keeps_wf(v.run(ops.drop_last()), ops.last());
    }
}

/// The status that ends a data phase is the Command Status Wrapper of the command: the bytes queued
/// for the host read back as the tag of the command, the data residue and the status that was set.
pub proof fn theorem_status_echoes_command(v: BulkOnlyView)
    requires
        v.wf(),
        v.in_data_phase(),
        v.cs is Some,
    ensures
        decode_csw(v.status_queued().buf.stored()) == Some(
            CommandStatusWrapper {
                tag: v.cbw.tag,
                data_residue: v.cbw.data_transfer_len,
                status: v.cs.unwrap(),
            },
        ),
{
    lemma_end_data_transfer(v);
    lemma_csw_round_trip(v.csw());
}

/// While the status is sent, each packet for the host is the next piece of the Command Status
/// Wrapper, and what stays in the buffer is the rest of it.
pub proof fn theorem_status_in_order(v: BulkOnlyView)
    requires
        v.wf(),
        v.state == State::StatusTransfer,
        v.write().1 is Ok,
    ensures
        ({
            let csw = encode_csw(v.csw());
            let from = CSW_LEN - v.buf.available_read();
            exists|len: int|
                0 < len <= v.buf.available_read() && v.write().0.in_ep.packet == Some(
                    #[trigger] csw.subrange(from, from + len),
                ) && (len < v.buf.available_read() ==> v.write().0.buf.stored() == csw.subrange(
                    from + len,
                    CSW_LEN as int,
                ))
        }),
{
    lemma_write_packet(v);
    let csw = encode_csw(v.csw());
    let from = CSW_LEN - v.buf.available_read();
    let (sent, res) = v.write_packet();
    let len = res.unwrap() as int;
    assert(v.buf.stored().subrange(0, len) =~= csw.subrange(from, from + len));
    if len < v.buf.available_read() {
        assert(sent.buf.stored() =~= csw.subrange(from + len, CSW_LEN as int));
    }
}

/// A wrapper with a data transfer length of 0 starts a command without a data phase, whatever its
/// direction bit says.
pub proof fn theorem_direction_forcing(v: BulkOnlyView)
    requires
        v.sound(),
        v.buf.available_read() >= CBW_LEN,
        v.command_in(v.buf.stored().subrange(0, CBW_LEN as int)) is Some,
        le32_at(v.buf.stored().subrange(0, CBW_LEN as int), 8) == 0,
    ensures
        v.accept_cbw().state == State::DataTransferNoData,
        v.accept_cbw().cbw.direction == DataDirection::NotExpected,
        v.accept_cbw().cbw.data_transfer_len == 0,
        forall|room: int| #[trigger] v.accept_cbw().read_data(room).1 is Err,
        forall|src: Seq<u8>| #[trigger] v.accept_cbw().write_data(src).1 is Err,
        forall|src: Seq<u8>| #[trigger] v.accept_cbw().try_write_data_all(src).1 is Err,
{
    let frame = v.buf.stored().subrange(0, CBW_LEN as int);
    let body = frame.subrange(4, CBW_LEN as int);
    assert(le32_at(body, 4) == le32_at(frame, 8));
}

/// A read that completes 31 bytes which are no Command Block Wrapper for the transport asks for the
/// halt condition on both endpoints and leaves the transport idle. The 31 bytes are none where they
/// do not start with the signature, give a command block length outside 1 to 16, or name a LUN above
/// the largest one.
pub proof fn theorem_invalid_cbw(v: BulkOnlyView)
    requires
        v.wf(),
        !v.has_command(),
        v.read_packet().1 is Ok,
        v.read_packet().0.buf.available_read() >= CBW_LEN,
        ({
            let frame = v.read_packet().0.buf.stored().subrange(0, CBW_LEN as int);
            ||| le32_at(frame, 0) != CBW_SIGNATURE
            ||| !(MIN_CB_LEN <= frame[14] <= MAX_CB_LEN)
            ||| frame[13] & 0x0F > v.max_lun
        }),
    ensures
        v.read().1 is Ok,
        v.read().0.state == State::Idle,
        v.read().0.in_ep.halt == Some(true),
        v.read().0.out_ep.halt == Some(true),
        v.read().0.in_ep.packet == v.in_ep.packet,
        v.read().0.buf.available_read() == 0,
        v.read().0.cs is None,
{
    lemma_read_packet(v);
    let frame = v.read_packet().0.buf.stored().subrange(0, CBW_LEN as int);
    assert(frame.subrange(4, CBW_LEN as int)[10] == frame[14]);
    assert(frame.subrange(4, CBW_LEN as int)[9] == frame[13]);
}

/// In a data phase towards the host in which at least a full packet is still to move and no status
/// is set, no operation but the setting of a status puts a packet into the IN pipe that is shorter
/// than a full one. A write that finds less than a full packet in the buffer changes nothing and asks
/// for more data.
pub proof fn theorem_full_packet(v: BulkOnlyView, op: Op)
    requires
        v.wf(),
        v.state == State::DataTransferToHost,
        v.cbw.data_transfer_len >= v.packet_size(),
        v.cs is None,
        !(op is SetStatus),
    ensures
        v.apply(op).in_ep.packet == v.in_ep.packet || v.apply(op).in_ep.packet is None || (v.apply(
            op,
        ).in_ep.packet matches Some(p) && p.len() == v.packet_size()),
        op is Write && v.buf.available_read() < v.packet_size() ==> v.apply(op) == v
            && v.wants_data(),
{
    lemma_write_packet(v);
}

/// Only the user sets a status: after any other operation a status is set only if it was set before.
/// Without a command no status is set.
pub proof fn theorem_status_only_by_user(v: BulkOnlyView, op: Op)
    requires
        v.wf(),
        !(op is SetStatus),
    ensures
        v.apply(op).cs is Some ==> v.cs is Some,
        !v.has_command() ==> v.cs is None,
{
    lemma_read_packet(v);
    lemma_write_packet(v);
}

/// A read that completes the 31 bytes of a valid Command Block Wrapper for a LUN up to the largest
/// one starts the data phase of its command, in the direction that the wrapper gives, and asks for
/// no halt condition.
pub proof fn theorem_valid_cbw(v: BulkOnlyView)
    requires
        v.wf(),
        !v.has_command(),
        v.read_packet().1 is Ok,
        v.read_packet().0.buf.available_read() >= CBW_LEN,
        decode_cbw(v.read_packet().0.buf.stored().subrange(0, CBW_LEN as int)) matches Some(cbw)
            && cbw.lun <= v.max_lun,
    ensures
        ({
            let cbw = decode_cbw(
                v.read_packet().0.buf.stored().subrange(0, CBW_LEN as int),
            ).unwrap();
            let w = v.read().0;
            &&& v.read().1 is Ok
            &&& w.cbw == cbw
            &&& w.cs is None
            &&& w.state == match cbw.direction {
                DataDirection::In => State::DataTransferToHost,
                DataDirection::Out => State::DataTransferFromHost,
                DataDirection::NotExpected => State::DataTransferNoData,
            }
            &&& w.in_ep == v.in_ep
            &&& w.out_ep.halt == v.out_ep.halt
            &&& w.buf.stored() == v.read_packet().0.buf.stored().subrange(
                CBW_LEN as int,
                v.read_packet().0.buf.available_read(),
            )
        }),
{
    lemma_read_packet(v);
    lemma_consumed(v.read_packet().0.buf, CBW_LEN as int);
}

/// Where a data phase towards the host ends short, the halt condition is asked for on the IN
/// endpoint before anything of the status is sent: the whole Command Status Wrapper is still in the
/// buffer, the pipe holds what it held, which can only be data, and it takes no packet until the
/// request is taken. The request in turn is not handed out before that data is sent.
pub proof fn theorem_stall_before_status(v: BulkOnlyView)
    requires
        v.wf(),
        v.state == State::DataTransferToHost,
        v.cs is Some,
        v.buf.available_read() == 0,
        v.cbw.data_transfer_len > 0,
    ensures
        ({
            let (w, res) = v.write();
            &&& res == Err::<(), _>(TransportError::<BulkOnlyError>::Usb(UsbError::WouldBlock))
            &&& w.state == State::StatusTransfer
            &&& w.in_ep.halt == Some(true)
            &&& w.in_ep.packet == v.in_ep.packet
            &&& w.buf.stored() == encode_csw(v.csw())
            &&& w.write() == (w, res)
            &&& w.in_ep.packet is Some ==> w.in_halt() is None
            &&& w.out_ep == v.out_ep
        }),
{
    lemma_end_data_transfer(v);
    lemma_write_packet(v.status_queued());
}

/// In a data phase from the host a status that is set, whichever it is, ends the phase with the
/// next read, whatever the buffer still holds: no packet is read, the bytes that were not read are
/// dropped, and the buffer holds the Command Status Wrapper, or what is left of it to send.
pub proof fn theorem_status_ends_phase_from_host(v: BulkOnlyView)
    requires
        v.wf(),
        v.state == State::DataTransferFromHost,
        v.cs is Some,
    ensures
        v.read() == v.end_data_transfer(),
        v.status_queued().buf.stored() == encode_csw(v.csw()),
        v.read().0.out_ep.packet == v.out_ep.packet,
        v.read().0.state == State::StatusTransfer || v.read().0.state == State::Idle,
        v.read().0.buf.available_read() <= CSW_LEN,
{
    lemma_end_data_transfer(v);
    lemma_write_packet(v.status_queued());
    lemma_cleaned(v.status_queued().write_packet().0.buf);
}

/// A write in a data phase towards the host that can send a packet sends the oldest bytes of the
/// buffer, a full packet of them or all there are, and takes them off the data residue. Where this
/// leaves bytes in the buffer, or no status is set, the data phase goes on. Where a status is set and
/// the packet takes the last byte, the data phase ends behind it: the halt condition is asked for if
/// bytes were left to move, and the whole Command Status Wrapper waits in the buffer until the packet
/// and the request are taken.
pub proof fn theorem_data_packet(v: BulkOnlyView)
    requires
        v.wf(),
        v.state == State::DataTransferToHost,
        v.in_ep.takes_packet(),
        v.buf.available_read() > 0,
        !(v.full_packet_expected() && v.buf.available_read() < v.packet_size()),
    ensures
        ({
            let (w, res) = v.write();
            let count = v.next_packet().len() as int;
            let residue = residue_after(v.cbw.data_transfer_len, count);
            &&& 0 < count <= v.packet_size()
            &&& v.next_packet() == v.buf.stored().subrange(0, count)
            &&& w.in_ep.packet == Some(v.next_packet())
            &&& w.cbw == CbwView { data_transfer_len: residue, ..v.cbw }
            &&& w.cs == v.cs
            &&& w.out_ep == v.out_ep
            &&& v.cs is None || count < v.buf.available_read() ==> {
                &&& res is Ok
                &&& w.state == State::DataTransferToHost
                &&& w.in_ep.halt == v.in_ep.halt
                &&& w.buf.stored() == v.buf.stored().subrange(count, v.buf.available_read())
            }
            &&& v.cs is Some && count == v.buf.available_read() ==> {
                &&& res == Err::<(), _>(TransportError::<BulkOnlyError>::Usb(UsbError::WouldBlock))
                &&& w.state == State::StatusTransfer
                &&& w.in_ep.halt == if residue > 0 {
                    Some(true)
                } else {
                    v.in_ep.halt
                }
                &&& w.buf.stored() == encode_csw(
                    CommandStatusWrapper {
                        tag: v.cbw.tag,
                        data_residue: residue,
                        status: v.cs.unwrap(),
                    },
                )
            }
        }),
{
    lemma_write_packet(v);
    let (sent, res) = v.write_packet();
    let count = v.next_packet().len() as int;
    let counted = sent.counted(count);
    assert(v.next_packet() =~= v.buf.stored().subrange(0, count));
    if v.cs is Some && count == v.buf.available_read() {
        lemma_end_data_transfer(counted);
        lemma_write_packet(counted.status_queued());
    }
}

/// A call of the user's closure that leaves a status set is the last call in its `poll`, and so is a
/// call that leaves the transport in any state but a data phase towards the host.
pub proof fn theorem_status_ends_calls(
    driven: BulkOnlyView,
    before: Seq<BulkOnlyView>,
    after: Seq<BulkOnlyView>,
    i: int,
)
    requires
        calls_of_poll(driven, before, after),
        0 <= i < after.len(),
        after[i].wf(),
        after[i].cs is Some || after[i].state != State::DataTransferToHost,
    ensures
        i == after.len() - 1,
{
    lemma_drive_results(after[i]);
}

/// Where the first call of the user's closure in a `poll` leaves a transport that does not ask for
/// more data, it is the only call, and it found the transport as it was driven.
pub proof fn theorem_one_call(
    driven: BulkOnlyView,
    before: Seq<BulkOnlyView>,
    after: Seq<BulkOnlyView>,
)
    requires
        calls_of_poll(driven, before, after),
        !after[0].wants_data(),
    ensures
        before.len() == 1,
        before[0] == driven,
        after.last() == after[0],
{
    assert(before[0] == driven);
}

/// The operation that ends a data phase towards the host with bytes left to move asks for the halt
/// condition on the IN endpoint and hands nothing of the status to the IN pipe: the whole Command
/// Status Wrapper is in the buffer, and the pipe holds what it held or the last packet of data. The
/// OUT endpoint is left alone.
pub proof fn theorem_short_phase_to_host(v: BulkOnlyView, op: Op)
    requires
        v.wf(),
        v.state == State::DataTransferToHost,
        !(op is Reset),
        v.apply(op).state != State::DataTransferToHost,
        residue_after(v.cbw.data_transfer_len, v.moves(op)) > 0,
    ensures
        ({
            let w = v.apply(op);
            &&& op is Write || op is SetStatus
            &&& w.state == State::StatusTransfer
            &&& w.cbw == CbwView {
                data_transfer_len: residue_after(v.cbw.data_transfer_len, v.moves(op)),
                ..v.cbw
            }
            &&& w.cs is Some
            &&& w.in_ep.halt == Some(true)
            &&& w.buf.stored() == encode_csw(w.csw())
            &&& w.in_ep.packet == v.in_ep.packet || (op is Write && w.in_ep.packet == Some(
                v.next_packet(),
            ))
            &&& w.out_ep == v.out_ep
        }),
{
    lemma_read_packet(v);
    lemma_write_packet(v);
    match op {
        Op::Write => {
            let (sent, res) = v.write_packet();
            if let Ok(count) = res {
                let counted = sent.counted(count as int);
                if counted.data_phase_over() {
                    lemma_end_data_transfer(counted);
                    lemma_write_packet(counted.status_queued());
                }
            }
            if v.data_phase_over() {
                lemma_end_data_transfer(v);
                lemma_write_packet(v.status_queued());
            }
        },
        Op::SetStatus(status) => {
            let set = BulkOnlyView { cs: Some(status), ..v };
            if set.data_phase_over() {
                lemma_end_data_transfer(set);
                lemma_write_packet(set.status_queued());
            }
        },
        _ => {},
    }
}

/// The operation that ends a data phase from the host with bytes left to move asks for the halt
/// condition on the OUT endpoint and queues the status of the command: what it hands to the IN pipe
/// is the first piece of the Command Status Wrapper, and the rest is in the buffer. The request
/// stands by the time that piece is in the pipe. The IN endpoint is not halted.
pub proof fn theorem_short_phase_from_host(v: BulkOnlyView, op: Op)
    requires
        v.wf(),
        v.state == State::DataTransferFromHost,
        !(op is Reset),
        v.apply(op).state != State::DataTransferFromHost,
        residue_after(v.cbw.data_transfer_len, v.moves(op)) > 0,
    ensures
        ({
            let w = v.apply(op);
            let status = match op {
                Op::SetStatus(status) => status,
                _ => v.cs.unwrap(),
            };
            let csw = encode_csw(
                CommandStatusWrapper {
                    tag: v.cbw.tag,
                    data_residue: v.cbw.data_transfer_len,
                    status,
                },
            );
            &&& op is Read || op is SetStatus
            &&& op is Read ==> v.cs is Some
            &&& v.moves(op) == 0
            &&& w.out_ep.halt == Some(true)
            &&& w.out_ep.packet == v.out_ep.packet
            &&& w.in_ep.halt == v.in_ep.halt
            &&& w.state == State::StatusTransfer || w.state == State::Idle
            &&& w.state == State::Idle ==> w.in_ep.packet == Some(csw)
            &&& w.state == State::StatusTransfer ==> {
                &&& w.buf.stored() == csw.subrange(
                    CSW_LEN - w.buf.available_read(),
                    CSW_LEN as int,
                )
                &&& w.in_ep.packet == v.in_ep.packet || w.in_ep.packet == Some(
                    csw.subrange(0, CSW_LEN - w.buf.available_read()),
                )
            }
        }),
{
    lemma_read_packet(v);
    let set = match op {
        Op::SetStatus(status) => BulkOnlyView { cs: Some(status), ..v },
        _ => v,
    };
    if set.data_phase_over() {
        lemma_end_data_transfer(set);
        let queued = set.status_queued();
        lemma_write_packet(queued);
        let csw = encode_csw(set.csw());
        let (sent, res) = queued.write_packet();
        if let Ok(count) = res {
            assert(queued.buf.stored().subrange(0, count as int) =~= csw.subrange(0, count as int));
            assert(csw.subrange(0, CSW_LEN as int) =~= csw);
        }
    }
}

/// Whatever is done to a well-formed transport: as long as a request to halt the IN endpoint that
/// was made before or with the end of a data phase has not been taken, nothing of the status has been
/// handed to the IN pipe, and the whole Command Status Wrapper is in the buffer.
pub proof fn theorem_status_behind_stall(v: BulkOnlyView, ops: Seq<Op>)
    requires
        v.wf(),
        v.run(ops).state == State::StatusTransfer,
        v.run(ops).in_ep.halt == Some(true),
    ensures
        v.run(ops).buf.stored() == encode_csw(v.run(ops).csw()),
        v.run(ops).write() == (
            v.run(ops),
            Err::<(), _>(TransportError::<BulkOnlyError>::Usb(UsbError::WouldBlock)),
        ),
{
    theorem_wf(v, ops);
    lemma_status_blocked(v.run(ops));
}

/// While the status is to be sent and a request to halt the IN endpoint stands, the whole Command
/// Status Wrapper is in the buffer and a write sends nothing.
pub proof fn lemma_status_blocked(v: BulkOnlyView)
    requires
        v.wf(),
        v.state == State::StatusTransfer,
        v.in_ep.halt == Some(true),
    ensures
        v.buf.stored() == encode_csw(v.csw()),
        v.write() == (v, Err::<(), _>(TransportError::<BulkOnlyError>::Usb(UsbError::WouldBlock))),
{
    lemma_write_packet(v);
    assert(v.buf.stored() =~= encode_csw(v.csw()));
}

/// While the status is to be sent and the request to halt the IN endpoint has not been taken, no
/// operation but a bus reset hands anything of the status to the IN pipe: the whole Command Status
/// Wrapper stays in the buffer. The request stays until it is taken, and it is taken only once the
/// pipe is empty.
pub proof fn theorem_status_waits_for_stall(v: BulkOnlyView, op: Op)
    requires
        v.wf(),
        v.state == State::StatusTransfer,
        v.in_ep.halt == Some(true),
        !(op is Reset),
    ensures
        ({
            let w = v.apply(op);
            &&& v.buf.stored() == encode_csw(v.csw())
            &&& w.state == State::StatusTransfer
            &&& w.buf.stored() == v.buf.stored()
            &&& w.cbw == v.cbw
            &&& w.cs == v.cs
            &&& w.in_ep.packet == v.in_ep.packet || w.in_ep.packet is None
            &&& w.in_ep.halt == if op is TakeInHalt && v.in_ep.packet is None {
                None
            } else {
                Some(true)
            }
        }),
{
    lemma_write_packet(v);
    assert(v.buf.stored() =~= encode_csw(v.csw()));
}

/// The transport asks for the halt condition on an endpoint only where it is due: on both endpoints
/// for 31 bytes that are no Command Block Wrapper for it, and at the end of a data phase on the
/// endpoint of that phase.
pub proof fn theorem_stall_where_due(v: BulkOnlyView, op: Op)
    requires
        v.wf(),
    ensures
        v.apply(op).in_ep.halt == Some(true) && v.in_ep.halt != Some(true) ==> {
            ||| !v.has_command() && op is Read
            ||| v.state == State::DataTransferToHost && (op is Write || op is SetStatus)
        },
        v.apply(op).out_ep.halt == Some(true) && v.out_ep.halt != Some(true) ==> {
            ||| !v.has_command() && op is Read
            ||| v.state == State::DataTransferFromHost && (op is Read || op is SetStatus)
        },
{
    lemma_read_packet(v);
    lemma_write_packet(v);
    match op {
        Op::Read => {
            if v.state == State::DataTransferFromHost && v.cs is None {
                let (read, res) = v.read_packet();
                if let Ok(count) = res {
                    lemma_end_stalls(read.counted(count as int));
                }
            } else {
                lemma_end_stalls(v);
            }
        },
        Op::Write => {
            let (sent, res) = v.write_packet();
            if let Ok(count) = res {
                lemma_end_stalls(sent.counted(count as int));
            }
            lemma_end_stalls(v);
        },
        Op::SetStatus(status) => {
            lemma_end_stalls(BulkOnlyView { cs: Some(status), ..v });
        },
        _ => {},
    }
}

/// The end of a data phase asks for the halt condition on the endpoint of that phase only.
pub proof fn lemma_end_stalls(v: BulkOnlyView)
    requires
        v.sound(),
    ensures
        ({
            let w = v.check_end_data_transfer().0;
            &&& v.state != State::DataTransferToHost ==> w.in_ep.halt == v.in_ep.halt
            &&& v.state != State::DataTransferFromHost ==> w.out_ep.halt == v.out_ep.halt
        }),
{
    if v.data_phase_over() {
        lemma_write_packet(v.status_queued());
    }
}

} // verus!
