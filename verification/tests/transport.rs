use usb_device::control::{Recipient, Request, RequestType};
use usb_device::{UsbDirection, UsbError};
use usbd_storage::subclass::{drive, map_ignore, settle, InterfaceCodes};
use usbd_storage::subclass::scsi::Scsi;
use usbd_storage::subclass::ufi::{Ufi, UfiCommand};
use usbd_storage::transport::bbb::{BulkOnly, BulkOnlyError};
use usbd_storage::transport::cbw::{CommandBlockWrapper, CommandStatusWrapper, DataDirection};
use usbd_storage::transport::pipe::Pipe;
use usbd_storage::transport::{CommandStatus, ControlReply, Transport, TransportError};

/// The bytes of a Command Block Wrapper for LUN 1
fn cbw(tag: u32, data_transfer_len: u32, direction: DataDirection, block: &[u8]) -> [u8; 31] {
    cbw_for(1, tag, data_transfer_len, direction, block)
}

fn cbw_for(
    lun: u8,
    tag: u32,
    data_transfer_len: u32,
    direction: DataDirection,
    block: &[u8],
) -> [u8; 31] {
    let mut padded = [0u8; 16];
    padded[..block.len()].copy_from_slice(block);
    CommandBlockWrapper {
        tag,
        data_transfer_len,
        direction,
        lun,
        block_len: block.len(),
        block: padded,
    }
    .to_le_bytes()
}

/// A transport for packets of 64 bytes that has just taken up the command of `frame`
fn with_command<'a>(buf: &'a mut [u8], frame: &[u8; 31]) -> BulkOnly<'a> {
    let mut transport = BulkOnly::new(64, 3, buf).unwrap();
    assert_eq!(Ok(31), transport.deliver(frame));
    assert!(transport.read().is_ok());
    assert!(transport.get_command().is_some());
    transport
}

/// Takes the packet that waits for the host
fn collect(transport: &mut BulkOnly) -> Option<Vec<u8>> {
    let packet = transport.pending().map(|p| p.to_vec());
    if packet.is_some() {
        transport.sent();
    }
    packet
}

fn class_request(request: u8) -> Request {
    Request {
        direction: UsbDirection::In,
        request_type: RequestType::Class,
        recipient: Recipient::Interface,
        request,
        value: 0,
        index: 0,
        length: 1,
    }
}

#[test]
fn new_refuses_max_lun_above_15() {
    let mut buf = [0u8; 64];
    assert!(matches!(BulkOnly::new(64, 16, &mut buf), Err(BulkOnlyError::InvalidMaxLun)));
    assert!(matches!(BulkOnly::new(64, 255, &mut buf), Err(BulkOnlyError::InvalidMaxLun)));
    assert!(BulkOnly::new(64, 15, &mut buf).is_ok());
    assert!(BulkOnly::new(64, 0, &mut buf).is_ok());
    // the largest LUN is looked at first
    let mut small = [0u8; 8];
    assert!(matches!(BulkOnly::new(64, 16, &mut small), Err(BulkOnlyError::InvalidMaxLun)));
}

#[test]
fn new_refuses_buffer_too_small() {
    let mut buf = [0u8; 64];
    assert!(matches!(BulkOnly::new(8, 0, &mut buf[..30]), Err(BulkOnlyError::BufferTooSmall)));
    assert!(BulkOnly::new(8, 0, &mut buf[..31]).is_ok());
    assert!(matches!(BulkOnly::new(32, 0, &mut buf[..31]), Err(BulkOnlyError::BufferTooSmall)));
    assert!(BulkOnly::new(32, 0, &mut buf[..32]).is_ok());
    assert!(matches!(BulkOnly::new(64, 0, &mut buf[..63]), Err(BulkOnlyError::BufferTooSmall)));
    assert!(BulkOnly::new(64, 0, &mut buf[..64]).is_ok());
    assert!(matches!(Scsi::new(64, 0, &mut buf[..63]), Err(BulkOnlyError::BufferTooSmall)));
    assert!(matches!(Scsi::new(64, 16, &mut buf[..64]), Err(BulkOnlyError::InvalidMaxLun)));
    assert!(matches!(Ufi::new(64, &mut buf[..63]), Err(BulkOnlyError::BufferTooSmall)));
    assert!(Ufi::new(64, &mut buf[..64]).is_ok());
}

#[test]
fn new_transport_is_idle() {
    let mut buf = [0u8; 64];
    let mut transport = BulkOnly::new(16, 2, &mut buf).unwrap();
    assert!(transport.get_command().is_none());
    assert!(!transport.has_status());
    assert!(transport.awaits_packet());
    assert!(transport.pending().is_none());
    assert_eq!(None, transport.take_in_halt());
    assert_eq!(None, transport.take_out_halt());
    // nothing to read, nothing to write
    assert!(matches!(transport.read(), Err(TransportError::Usb(UsbError::WouldBlock))));
    assert!(transport.write().is_ok());
    // no data phase: the data operations are refused
    let mut scratch = [0u8; 4];
    assert!(matches!(
        transport.read_data(&mut scratch),
        Err(TransportError::Error(BulkOnlyError::InvalidState))
    ));
    assert!(matches!(
        transport.write_data(&scratch),
        Err(TransportError::Error(BulkOnlyError::InvalidState))
    ));
    assert!(matches!(
        transport.try_write_data_all(&scratch),
        Err(TransportError::Error(BulkOnlyError::InvalidState))
    ));
}

#[test]
fn get_max_lun() {
    let mut buf = [0u8; 64];
    let mut transport = BulkOnly::new(64, 3, &mut buf).unwrap();
    assert_eq!(ControlReply::AcceptWith(0x03), transport.control_in(&class_request(0xFE)));
    let mut buf = [0u8; 64];
    let mut scsi = Scsi::new(64, 3, &mut buf).unwrap();
    assert_eq!(ControlReply::AcceptWith(0x03), scsi.control_in(&class_request(0xFE)));
    let mut buf = [0u8; 64];
    let mut ufi = Ufi::new(64, &mut buf).unwrap();
    assert_eq!(ControlReply::AcceptWith(0x00), ufi.control_in(&class_request(0xFE)));
}

#[test]
fn control_in_answers_class_requests_to_the_interface() {
    let mut buf = [0u8; 64];
    let mut transport = BulkOnly::new(64, 7, &mut buf).unwrap();
    assert_eq!(ControlReply::Accept, transport.control_in(&class_request(0xFF)));
    assert_eq!(ControlReply::Ignored, transport.control_in(&class_request(0x00)));
    assert_eq!(ControlReply::Ignored, transport.control_in(&class_request(0xFD)));
    for request_type in [RequestType::Standard, RequestType::Vendor, RequestType::Reserved] {
        let req = Request { request_type, ..class_request(0xFE) };
        assert_eq!(ControlReply::Ignored, transport.control_in(&req));
    }
    for recipient in [
        Recipient::Device,
        Recipient::Endpoint,
        Recipient::Other,
        Recipient::Reserved,
    ] {
        let req = Request { recipient, ..class_request(0xFE) };
        assert_eq!(ControlReply::Ignored, transport.control_in(&req));
    }
    // a control request changes nothing
    assert!(transport.get_command().is_none());
}

#[test]
fn interface_codes() {
    let mut buf = [0u8; 64];
    let scsi = Scsi::new(64, 0, &mut buf).unwrap();
    assert_eq!(
        InterfaceCodes { class: 0x08, sub_class: 0x06, protocol: 0x50 },
        scsi.interface_codes()
    );
    let mut buf = [0u8; 64];
    let ufi = Ufi::new(64, &mut buf).unwrap();
    assert_eq!(
        InterfaceCodes { class: 0x08, sub_class: 0x04, protocol: 0x50 },
        ufi.interface_codes()
    );
    assert_eq!(0x50, <BulkOnly as Transport>::PROTO);
    assert_eq!(0x08, usbd_storage::CLASS_MASS_STORAGE);
}

#[test]
fn command_arrives_in_several_packets() {
    let mut buf = [0u8; 64];
    let mut transport = BulkOnly::new(8, 3, &mut buf).unwrap();
    let frame = cbw(5, 64, DataDirection::In, &[0x12, 0, 0, 0, 36, 0]);
    for chunk in frame.chunks(8) {
        assert!(transport.get_command().is_none());
        assert_eq!(Ok(chunk.len()), transport.deliver(chunk));
        // the pipe is full until the transport has read
        assert!(!transport.awaits_packet());
        assert_eq!(Err(UsbError::WouldBlock), transport.deliver(chunk));
        assert!(transport.read().is_ok());
        assert!(transport.awaits_packet());
    }
    let command = transport.get_command().unwrap();
    assert_eq!(&[0x12, 0, 0, 0, 36, 0], command.bytes);
    assert_eq!(1, command.lun);
    assert!(!transport.has_status());
}

#[test]
fn deliver_refuses_a_packet_that_is_too_long() {
    let mut buf = [0u8; 64];
    let mut transport = BulkOnly::new(8, 3, &mut buf).unwrap();
    assert_eq!(Err(UsbError::BufferOverflow), transport.deliver(&[0u8; 9]));
    assert!(transport.awaits_packet());
    assert_eq!(Ok(8), transport.deliver(&[0u8; 8]));
}

#[test]
fn empty_packet_is_no_progress() {
    let mut buf = [0u8; 64];
    let mut transport = BulkOnly::new(8, 3, &mut buf).unwrap();
    assert_eq!(Ok(0), transport.deliver(&[]));
    assert!(matches!(transport.read(), Err(TransportError::Usb(UsbError::WouldBlock))));
    // the packet is gone all the same
    assert!(transport.awaits_packet());
    assert!(transport.get_command().is_none());
}

#[test]
fn invalid_cbw_stalls_both_endpoints() {
    let good = cbw(5, 64, DataDirection::In, &[0x12, 0, 0, 0, 36, 0]);
    let mut wrong_signature = good;
    wrong_signature[0] = 0x56;
    let mut no_block = good;
    no_block[14] = 0;
    let mut long_block = good;
    long_block[14] = 17;
    for frame in [wrong_signature, no_block, long_block] {
        let mut buf = [0u8; 64];
        let mut transport = BulkOnly::new(64, 3, &mut buf).unwrap();
        assert_eq!(Ok(31), transport.deliver(&frame));
        assert!(transport.read().is_ok());
        assert!(transport.get_command().is_none());
        assert!(!transport.has_status());
        // no packet is taken before the request to stall the OUT endpoint is
        assert!(!transport.awaits_packet());
        assert_eq!(Err(UsbError::WouldBlock), transport.deliver(&good));
        assert_eq!(Some(true), transport.take_in_halt());
        assert_eq!(Some(true), transport.take_out_halt());
        assert!(transport.awaits_packet());
        // taken once
        assert_eq!(None, transport.take_in_halt());
        assert_eq!(None, transport.take_out_halt());
        assert!(transport.pending().is_none());
        assert!(transport.write().is_ok());
        assert!(transport.pending().is_none());
        // the next wrapper is taken up
        assert_eq!(Ok(31), transport.deliver(&good));
        assert!(transport.read().is_ok());
        assert!(transport.get_command().is_some());
    }
}

#[test]
fn cbw_for_a_lun_that_is_not_there_stalls_both_endpoints() {
    for (max_lun, lun, taken) in [(0u8, 0u8, true), (0, 1, false), (3, 3, true), (3, 4, false), (15, 15, true)] {
        let mut buf = [0u8; 64];
        let mut transport = BulkOnly::new(64, max_lun, &mut buf).unwrap();
        let frame = cbw_for(lun, 5, 64, DataDirection::In, &[0x12, 0, 0, 0, 36, 0]);
        assert_eq!(Ok(31), transport.deliver(&frame));
        assert!(transport.read().is_ok());
        if taken {
            assert_eq!(lun, transport.get_command().unwrap().lun);
            assert_eq!(None, transport.take_in_halt());
            assert_eq!(None, transport.take_out_halt());
        } else {
            assert!(transport.get_command().is_none());
            assert_eq!(Some(true), transport.take_in_halt());
            assert_eq!(Some(true), transport.take_out_halt());
        }
    }
}

#[test]
fn full_packet_expected() {
    let mut buf = [0u8; 256];
    let mut transport = with_command(&mut buf, &cbw(5, 100, DataDirection::In, &[0x28; 10]));
    assert!(matches!(
        transport.write(),
        Err(TransportError::Error(BulkOnlyError::FullPacketExpected))
    ));
    assert_eq!(Ok(63), transport.write_data(&[7u8; 63]).map_err(|_| ()));
    assert!(matches!(
        transport.write(),
        Err(TransportError::Error(BulkOnlyError::FullPacketExpected))
    ));
    assert!(transport.pending().is_none());
    assert_eq!(Ok(1), transport.write_data(&[8u8; 1]).map_err(|_| ()));
    assert!(transport.write().is_ok());
    let mut expected = vec![7u8; 63];
    expected.push(8);
    assert_eq!(Some(expected), collect(&mut transport));
    // 36 bytes are left to move: less than a packet, so a short packet goes
    assert_eq!(Ok(10), transport.write_data(&[9u8; 10]).map_err(|_| ()));
    assert!(transport.write().is_ok());
    assert_eq!(Some(vec![9u8; 10]), collect(&mut transport));
}

#[test]
fn write_data_takes_what_the_host_expects() {
    let mut buf = [0u8; 256];
    let mut transport = with_command(&mut buf, &cbw(5, 10, DataDirection::In, &[0x28; 10]));
    assert_eq!(Ok(10), transport.write_data(&[1u8; 50]).map_err(|_| ()));
    assert!(transport.write().is_ok());
    assert_eq!(Some(vec![1u8; 10]), collect(&mut transport));
    // nothing is left to move
    assert_eq!(Ok(0), transport.write_data(&[1u8; 50]).map_err(|_| ()));
}

#[test]
fn write_data_takes_what_fits() {
    let mut buf = [0u8; 64];
    let mut transport = with_command(&mut buf, &cbw(5, 1000, DataDirection::In, &[0x28; 10]));
    assert_eq!(Ok(64), transport.write_data(&[1u8; 100]).map_err(|_| ()));
    assert_eq!(Ok(0), transport.write_data(&[1u8; 100]).map_err(|_| ()));
}

#[test]
fn try_write_data_all_takes_all_or_nothing() {
    let mut buf = [0u8; 64];
    let mut transport = with_command(&mut buf, &cbw(5, 1000, DataDirection::In, &[0x28; 10]));
    assert!(matches!(
        transport.try_write_data_all(&[1u8; 65]),
        Err(TransportError::Error(BulkOnlyError::IoBufferOverflow))
    ));
    assert!(transport.try_write_data_all(&[1u8; 40]).is_ok());
    assert!(matches!(
        transport.try_write_data_all(&[2u8; 25]),
        Err(TransportError::Error(BulkOnlyError::IoBufferOverflow))
    ));
    assert!(transport.try_write_data_all(&[2u8; 24]).is_ok());
    assert!(transport.write().is_ok());
    let mut expected = vec![1u8; 40];
    expected.extend_from_slice(&[2u8; 24]);
    assert_eq!(Some(expected), collect(&mut transport));
}

#[test]
fn writes_are_refused_once_a_status_is_set() {
    let mut buf = [0u8; 256];
    let mut transport = with_command(&mut buf, &cbw(5, 100, DataDirection::In, &[0x28; 10]));
    assert_eq!(Ok(10), transport.write_data(&[1u8; 10]).map_err(|_| ()));
    transport.set_status(CommandStatus::Passed);
    assert!(transport.has_status());
    assert!(matches!(
        transport.write_data(&[1u8; 10]),
        Err(TransportError::Error(BulkOnlyError::InvalidState))
    ));
    assert!(matches!(
        transport.try_write_data_all(&[1u8; 10]),
        Err(TransportError::Error(BulkOnlyError::InvalidState))
    ));
}

#[test]
fn read_data_hands_out_what_came() {
    let mut buf = [0u8; 256];
    let mut transport = with_command(&mut buf, &cbw(5, 100, DataDirection::Out, &[0x2A; 10]));
    let mut dst = [0u8; 8];
    assert_eq!(Ok(0), transport.read_data(&mut dst).map_err(|_| ()));
    assert_eq!(Ok(5), transport.deliver(&[1, 2, 3, 4, 5]));
    assert!(transport.read().is_ok());
    assert_eq!(Ok(3), transport.deliver(&[6, 7, 8]));
    assert!(transport.read().is_ok());
    let mut dst = [0xEEu8; 6];
    assert_eq!(Ok(6), transport.read_data(&mut dst).map_err(|_| ()));
    assert_eq!([1, 2, 3, 4, 5, 6], dst);
    let mut dst = [0xEEu8; 6];
    assert_eq!(Ok(2), transport.read_data(&mut dst).map_err(|_| ()));
    assert_eq!([7, 8, 0xEE, 0xEE, 0xEE, 0xEE], dst);
    // writing is for the other direction
    assert!(matches!(
        transport.write_data(&dst),
        Err(TransportError::Error(BulkOnlyError::InvalidState))
    ));
}

#[test]
fn read_waits_for_room_in_the_buffer() {
    let mut buf = [0u8; 64];
    let mut transport = with_command(&mut buf, &cbw(5, 1000, DataDirection::Out, &[0x2A; 10]));
    assert_eq!(Ok(64), transport.deliver(&[1u8; 64]));
    assert!(transport.read().is_ok());
    assert_eq!(Ok(64), transport.deliver(&[2u8; 64]));
    assert!(matches!(
        transport.read(),
        Err(TransportError::Error(BulkOnlyError::IoBufferOverflow))
    ));
    assert!(!transport.awaits_packet());
    let mut dst = [0u8; 64];
    assert_eq!(Ok(64), transport.read_data(&mut dst).map_err(|_| ()));
    assert_eq!([1u8; 64], dst);
    assert!(transport.read().is_ok());
    assert_eq!(Ok(64), transport.read_data(&mut dst).map_err(|_| ()));
    assert_eq!([2u8; 64], dst);
}

#[test]
fn residue_counts_down_and_stops_at_zero() {
    let mut buf = [0u8; 256];
    let mut transport = with_command(&mut buf, &cbw(9, 100, DataDirection::Out, &[0x2A; 10]));
    for _ in 0..3 {
        assert_eq!(Ok(64), transport.deliver(&[1u8; 64]));
        assert!(transport.read().is_ok());
    }
    // 192 bytes came for a command of 100
    transport.set_status(CommandStatus::Passed);
    assert!(transport.read().is_ok());
    let csw = CommandStatusWrapper::from_le_bytes(&collect(&mut transport).unwrap()).unwrap();
    assert_eq!(CommandStatusWrapper { tag: 9, data_residue: 0, status: CommandStatus::Passed }, csw);
    assert_eq!(None, transport.take_out_halt());
}

#[test]
fn residue_is_what_was_not_moved() {
    let mut buf = [0u8; 256];
    let mut transport = with_command(&mut buf, &cbw(9, 100, DataDirection::Out, &[0x2A; 10]));
    assert_eq!(Ok(64), transport.deliver(&[1u8; 64]));
    assert!(transport.read().is_ok());
    assert_eq!(Ok(7), transport.deliver(&[1u8; 7]));
    assert!(transport.read().is_ok());
    transport.set_status(CommandStatus::Passed);
    assert!(transport.read().is_ok());
    let csw = CommandStatusWrapper::from_le_bytes(&collect(&mut transport).unwrap()).unwrap();
    assert_eq!(CommandStatusWrapper { tag: 9, data_residue: 29, status: CommandStatus::Passed }, csw);
    // the transfer fell short: the OUT endpoint is to stall
    assert_eq!(Some(true), transport.take_out_halt());
    assert_eq!(None, transport.take_in_halt());
    // with the status sent the transport is idle
    assert!(transport.get_command().is_none());
    assert!(!transport.has_status());
}

#[test]
fn status_goes_out_in_packets() {
    let mut buf = [0u8; 64];
    let mut transport = BulkOnly::new(8, 3, &mut buf).unwrap();
    let frame = cbw(0xA1B2C3D4, 0, DataDirection::NotExpected, &[0x00; 6]);
    for chunk in frame.chunks(8) {
        assert_eq!(Ok(chunk.len()), transport.deliver(chunk));
        assert!(transport.read().is_ok());
    }
    transport.set_status(CommandStatus::PhaseError);
    // the first packet went out with the status
    let mut bytes = collect(&mut transport).unwrap();
    assert_eq!(8, bytes.len());
    assert!(transport.get_command().is_some());
    assert!(transport.has_status());
    assert!(transport.write().is_ok());
    bytes.extend_from_slice(&collect(&mut transport).unwrap());
    assert_eq!(
        vec![0x55, 0x53, 0x42, 0x53, 0xD4, 0xC3, 0xB2, 0xA1, 0, 0, 0, 0, 0x02],
        bytes
    );
    assert!(transport.get_command().is_none());
    assert!(!transport.has_status());
    assert_eq!(None, transport.take_in_halt());
    assert_eq!(None, transport.take_out_halt());
}

#[test]
fn write_blocks_while_the_pipe_is_full() {
    let mut buf = [0u8; 256];
    let mut transport = with_command(&mut buf, &cbw(5, 200, DataDirection::In, &[0x28; 10]));
    assert!(transport.try_write_data_all(&[3u8; 128]).is_ok());
    assert!(transport.write().is_ok());
    assert!(matches!(transport.write(), Err(TransportError::Usb(UsbError::WouldBlock))));
    assert_eq!(Some(vec![3u8; 64]), collect(&mut transport));
    assert!(transport.write().is_ok());
    assert_eq!(Some(vec![3u8; 64]), collect(&mut transport));
}

#[test]
fn status_waits_behind_the_stall() {
    let mut buf = [0u8; 256];
    let mut transport = with_command(&mut buf, &cbw(5, 200, DataDirection::In, &[0x28; 10]));
    transport.set_status(CommandStatus::Failed);
    // nothing was sent: the IN endpoint is to stall, and the status waits until the request is taken
    assert!(transport.pending().is_none());
    assert!(matches!(transport.write(), Err(TransportError::Usb(UsbError::WouldBlock))));
    assert_eq!(Some(true), transport.take_in_halt());
    assert!(transport.write().is_ok());
    let csw = CommandStatusWrapper::from_le_bytes(&collect(&mut transport).unwrap()).unwrap();
    assert_eq!(CommandStatusWrapper { tag: 5, data_residue: 200, status: CommandStatus::Failed }, csw);
}

#[test]
fn set_status_is_taken_once_and_only_for_a_command() {
    let mut buf = [0u8; 256];
    let mut transport = BulkOnly::new(64, 3, &mut buf).unwrap();
    transport.set_status(CommandStatus::Failed);
    assert!(!transport.has_status());
    assert!(transport.pending().is_none());

    assert_eq!(Ok(31), transport.deliver(&cbw(5, 8, DataDirection::Out, &[0x2A; 10])));
    assert!(transport.read().is_ok());
    transport.set_status(CommandStatus::Passed);
    transport.set_status(CommandStatus::Failed);
    assert!(transport.read().is_ok());
    let csw = CommandStatusWrapper::from_le_bytes(&collect(&mut transport).unwrap()).unwrap();
    assert_eq!(CommandStatus::Passed, csw.status);
}

#[test]
fn reset_makes_idle() {
    let mut buf = [0u8; 256];
    let mut transport = with_command(&mut buf, &cbw(5, 200, DataDirection::In, &[0x28; 10]));
    assert!(transport.try_write_data_all(&[3u8; 128]).is_ok());
    assert!(transport.write().is_ok());
    transport.set_status(CommandStatus::Passed);
    assert_eq!(Ok(4), transport.deliver(&[1, 2, 3, 4]));
    // the request for the IN endpoint waits behind the packet
    assert!(transport.pending().is_some());
    assert_eq!(None, transport.take_in_halt());
    transport.reset();
    assert!(transport.get_command().is_none());
    assert!(!transport.has_status());
    assert!(transport.pending().is_none());
    assert!(transport.awaits_packet());
    assert_eq!(Some(false), transport.take_in_halt());
    assert_eq!(Some(false), transport.take_out_halt());
    // the next command starts from scratch
    assert_eq!(Ok(31), transport.deliver(&cbw(6, 0, DataDirection::NotExpected, &[0x00; 6])));
    assert!(transport.read().is_ok());
    assert_eq!(&[0u8; 6], transport.get_command().unwrap().bytes);

    let mut buf = [0u8; 64];
    let mut scsi = Scsi::new(64, 0, &mut buf).unwrap();
    assert_eq!(Ok(4), scsi.transport.deliver(&[1, 2, 3, 4]));
    scsi.reset();
    assert!(scsi.transport.awaits_packet());
    assert_eq!(Some(false), scsi.transport.take_out_halt());
}

#[test]
fn map_ignore_hands_on_stack_errors() {
    assert_eq!(Ok(()), map_ignore::<u8>(Ok(5)));
    assert_eq!(Ok(()), map_ignore::<()>(Err(TransportError::Usb(UsbError::WouldBlock))));
    for error in [
        BulkOnlyError::IoBufferOverflow,
        BulkOnlyError::InvalidMaxLun,
        BulkOnlyError::InvalidState,
        BulkOnlyError::FullPacketExpected,
        BulkOnlyError::BufferTooSmall,
    ] {
        assert_eq!(Ok(()), map_ignore::<()>(Err(TransportError::Error(error))));
    }
    for error in [
        UsbError::ParseError,
        UsbError::BufferOverflow,
        UsbError::EndpointOverflow,
        UsbError::EndpointMemoryOverflow,
        UsbError::InvalidEndpoint,
        UsbError::Unsupported,
        UsbError::InvalidState,
    ] {
        assert_eq!(Err(error), map_ignore::<()>(Err(TransportError::Usb(error))));
    }
}

#[test]
fn drive_and_settle() {
    let mut buf = [0u8; 256];
    let mut transport = BulkOnly::new(64, 3, &mut buf).unwrap();
    assert_eq!(Ok(31), transport.deliver(&cbw(5, 100, DataDirection::In, &[0x28; 10])));
    assert_eq!(Ok(()), drive(&mut transport));
    assert!(transport.get_command().is_some());
    // no data yet: more has to come
    assert_eq!(Ok(true), settle(&mut transport));
    assert!(transport.try_write_data_all(&[3u8; 64]).is_ok());
    assert_eq!(Ok(false), settle(&mut transport));
    assert_eq!(Some(vec![3u8; 64]), collect(&mut transport));
}

#[test]
fn pipe_holds_one_packet() {
    let mut pipe = Pipe::new(8);
    assert_eq!(8, pipe.max_packet_size());
    assert!(pipe.takes_packet());
    assert!(!pipe.is_full());
    assert!(pipe.packet().is_none());
    assert_eq!(Err(UsbError::BufferOverflow), pipe.write(&[0u8; 9]));
    assert_eq!(Ok(3), pipe.write(&[1, 2, 3]));
    assert!(pipe.is_full());
    assert_eq!(Some([1u8, 2, 3].as_slice()), pipe.packet());
    assert_eq!(Err(UsbError::WouldBlock), pipe.write(&[4]));
    assert_eq!(Some([1u8, 2, 3].as_slice()), pipe.packet());
    pipe.discard();
    assert!(pipe.packet().is_none());
    assert_eq!(Ok(0), pipe.write(&[]));
    assert_eq!(Some([].as_slice()), pipe.packet());
}

#[test]
fn pipe_halt_requests() {
    let mut pipe = Pipe::new(64);
    assert_eq!(None, pipe.take_halt());
    assert_eq!(Ok(2), pipe.write(&[1, 2]));
    pipe.stall();
    // the packet that was there stays; no other is taken before the request is
    assert_eq!(Some([1u8, 2].as_slice()), pipe.packet());
    pipe.discard();
    assert!(!pipe.takes_packet());
    assert_eq!(Err(UsbError::WouldBlock), pipe.write(&[3]));
    assert_eq!(Some(true), pipe.take_halt());
    assert!(pipe.takes_packet());
    assert_eq!(None, pipe.take_halt());
    assert_eq!(Ok(1), pipe.write(&[3]));
    pipe.discard();
    pipe.stall();
    pipe.unstall();
    assert_eq!(Ok(1), pipe.write(&[4]));
    assert_eq!(Some(false), pipe.take_halt());
}

#[test]
fn ufi_poll_hands_out_the_command() {
    let mut buf = [0u8; 64];
    let mut ufi = Ufi::new(64, &mut buf).unwrap();
    let frame = cbw_for(0, 5, 12, DataDirection::In, &[0x03, 0, 0, 0, 12, 0, 0, 0, 0, 0, 0, 0]);
    assert_eq!(Ok(31), ufi.transport.deliver(&frame));
    let mut seen = vec![];
    ufi.poll(|mut command| {
        seen.push((command.kind, command.lun));
        assert_eq!(Ok(12), command.write_data(&[0x70; 12]).map_err(|_| ()));
        command.pass();
    })
    .unwrap();
    assert_eq!(vec![(UfiCommand::RequestSense { alloc_len: 12 }, 0)], seen);
    assert_eq!(Some(vec![0x70u8; 12]), collect(&mut ufi.transport));
    ufi.poll(|_| panic!("the command has its status")).unwrap();
    let csw = CommandStatusWrapper::from_le_bytes(&collect(&mut ufi.transport).unwrap()).unwrap();
    assert_eq!(CommandStatusWrapper { tag: 5, data_residue: 0, status: CommandStatus::Passed }, csw);
    assert_eq!(None, ufi.transport.take_in_halt());
}

#[test]
fn ufi_command_fail_and_fail_phase() {
    for phase in [false, true] {
        let mut buf = [0u8; 64];
        let mut ufi = Ufi::new(64, &mut buf).unwrap();
        let frame =
            cbw_for(0, 5, 12, DataDirection::Out, &[0x55, 0, 0, 0, 0, 0, 0, 0, 12, 0, 0, 0]);
        assert_eq!(Ok(31), ufi.transport.deliver(&frame));
        ufi.poll(|_| {}).unwrap();
        assert_eq!(Ok(12), ufi.transport.deliver(&[9u8; 12]));
        let mut called = 0;
        ufi.poll(|mut command| {
            called += 1;
            assert_eq!(UfiCommand::ModeSelect { parameter_list_len: 12 }, command.kind);
            let mut list = [0u8; 12];
            assert_eq!(Ok(12), command.read_data(&mut list).map_err(|_| ()));
            assert_eq!([9u8; 12], list);
            assert!(command.try_write_data_all(&list).is_err());
            if phase {
                command.fail_phase()
            } else {
                command.fail()
            }
        })
        .unwrap();
        assert_eq!(1, called);
        let csw =
            CommandStatusWrapper::from_le_bytes(&collect(&mut ufi.transport).unwrap()).unwrap();
        let status = if phase { CommandStatus::PhaseError } else { CommandStatus::Failed };
        assert_eq!(CommandStatusWrapper { tag: 5, data_residue: 0, status }, csw);
    }
}

#[test]
fn stall_waits_behind_the_last_data_packet() {
    let mut buf = [0u8; 256];
    let mut transport = with_command(&mut buf, &cbw(5, 200, DataDirection::In, &[0x28; 10]));
    assert_eq!(Ok(10), transport.write_data(&[4u8; 10]).map_err(|_| ()));
    transport.set_status(CommandStatus::Failed);
    // the data goes out first; the status waits behind the stall
    assert!(transport.pending().is_none());
    assert!(matches!(transport.write(), Err(TransportError::Usb(UsbError::WouldBlock))));
    assert_eq!(Some([4u8; 10].as_slice()), transport.pending());
    assert_eq!(None, transport.take_in_halt());
    assert_eq!(None, transport.take_out_halt());
    assert_eq!(Some(vec![4u8; 10]), collect(&mut transport));
    assert!(matches!(transport.write(), Err(TransportError::Usb(UsbError::WouldBlock))));
    assert!(transport.pending().is_none());
    assert_eq!(Some(true), transport.take_in_halt());
    assert!(transport.write().is_ok());
    let csw = CommandStatusWrapper::from_le_bytes(&collect(&mut transport).unwrap()).unwrap();
    assert_eq!(CommandStatusWrapper { tag: 5, data_residue: 190, status: CommandStatus::Failed }, csw);
    assert!(transport.get_command().is_none());
}
