use std::collections::VecDeque;
use std::sync::{Arc, Mutex};
use usb_device::bus::{PollResult, UsbBus, UsbBusAllocator};
use usb_device::class_prelude::{EndpointAddress, EndpointType};
use usb_device::device::{UsbDeviceBuilder, UsbVidPid};
use usb_device::endpoint::{Endpoint, In, Out};
use usb_device::{UsbDirection, UsbError};
use usbd_storage::subclass::scsi::{Scsi, ScsiCommand};
use usbd_storage::subclass::Command;
use usbd_storage::transport::bbb::BulkOnly;
use usbd_storage::transport::cbw::{CommandBlockWrapper, CommandStatusWrapper, DataDirection};
use usbd_storage::transport::CommandStatus;

const EP_OUT_ADDR: u8 = 0x01;
const EP_IN_ADDR: u8 = 0x81;

/// What happened on the IN endpoint, as the host sees it
#[derive(Debug, Clone, PartialEq, Eq)]
enum OnWire {
    Packet(Vec<u8>),
    Stall,
    Unstall,
}

struct Wires {
    enabled: bool,
    max_packet_size: usize,
    /// packets from the host that the device has not read
    out_packets: VecDeque<Vec<u8>>,
    /// what the device did to the IN endpoint
    in_wire: Vec<OnWire>,
    in_stalled: bool,
    out_stalled: bool,
    /// the IN endpoint takes one packet at a time: the host has to fetch it
    in_busy: bool,
}

/// A bus in memory with one bulk endpoint in each direction
#[derive(Clone)]
struct MemoryBus {
    wires: Arc<Mutex<Wires>>,
}

impl MemoryBus {
    fn new() -> Self {
        MemoryBus {
            wires: Arc::new(Mutex::new(Wires {
                enabled: false,
                max_packet_size: 0,
                out_packets: VecDeque::new(),
                in_wire: Vec::new(),
                in_stalled: false,
                out_stalled: false,
                in_busy: false,
            })),
        }
    }

    fn host_writes(&self, bytes: &[u8]) {
        let mut wires = self.wires.lock().unwrap();
        let size = wires.max_packet_size;
        for chunk in bytes.chunks(size) {
            wires.out_packets.push_back(chunk.to_vec());
        }
    }

    /// The host fetches the packet that waits on the IN endpoint
    fn host_fetches(&self) {
        self.wires.lock().unwrap().in_busy = false;
    }

    fn in_wire(&self) -> Vec<OnWire> {
        self.wires.lock().unwrap().in_wire.clone()
    }

    fn stalled(&self) -> (bool, bool) {
        let wires = self.wires.lock().unwrap();
        (wires.in_stalled, wires.out_stalled)
    }
}

impl UsbBus for MemoryBus {
    fn alloc_ep(
        &mut self,
        ep_dir: UsbDirection,
        _ep_addr: Option<EndpointAddress>,
        ep_type: EndpointType,
        max_packet_size: u16,
        _interval: u8,
    ) -> usb_device::Result<EndpointAddress> {
        let mut wires = self.wires.lock().unwrap();
        assert!(!wires.enabled);
        if matches!(ep_type, EndpointType::Control) {
            return Ok(EndpointAddress::from(match ep_dir {
                UsbDirection::Out => 0x00,
                UsbDirection::In => 0x80,
            }));
        }
        wires.max_packet_size = max_packet_size as usize;
        Ok(EndpointAddress::from(match ep_dir {
            UsbDirection::Out => EP_OUT_ADDR,
            UsbDirection::In => EP_IN_ADDR,
        }))
    }

    fn enable(&mut self) {
        self.wires.lock().unwrap().enabled = true;
    }

    fn reset(&self) {}

    fn set_device_address(&self, _addr: u8) {}

    fn write(&self, ep_addr: EndpointAddress, buf: &[u8]) -> usb_device::Result<usize> {
        let mut wires = self.wires.lock().unwrap();
        if u8::from(ep_addr) != EP_IN_ADDR {
            return Err(UsbError::InvalidEndpoint);
        }
        if buf.len() > wires.max_packet_size {
            return Err(UsbError::BufferOverflow);
        }
        if wires.in_busy {
            return Err(UsbError::WouldBlock);
        }
        wires.in_busy = true;
        wires.in_wire.push(OnWire::Packet(buf.to_vec()));
        Ok(buf.len())
    }

    fn read(&self, ep_addr: EndpointAddress, buf: &mut [u8]) -> usb_device::Result<usize> {
        let mut wires = self.wires.lock().unwrap();
        if u8::from(ep_addr) != EP_OUT_ADDR {
            return Err(UsbError::InvalidEndpoint);
        }
        match wires.out_packets.front() {
            None => Err(UsbError::WouldBlock),
            Some(packet) if packet.len() > buf.len() => Err(UsbError::BufferOverflow),
            Some(_) => {
                let packet = wires.out_packets.pop_front().unwrap();
                buf[..packet.len()].copy_from_slice(&packet);
                Ok(packet.len())
            }
        }
    }

    fn set_stalled(&self, ep_addr: EndpointAddress, stalled: bool) {
        let mut wires = self.wires.lock().unwrap();
        match u8::from(ep_addr) {
            EP_IN_ADDR => {
                wires.in_stalled = stalled;
                wires.in_wire.push(if stalled { OnWire::Stall } else { OnWire::Unstall });
            }
            EP_OUT_ADDR => wires.out_stalled = stalled,
            _ => {}
        }
    }

    fn is_stalled(&self, ep_addr: EndpointAddress) -> bool {
        let wires = self.wires.lock().unwrap();
        match u8::from(ep_addr) {
            EP_IN_ADDR => wires.in_stalled,
            EP_OUT_ADDR => wires.out_stalled,
            _ => false,
        }
    }

    fn suspend(&self) {}

    fn resume(&self) {}

    fn poll(&self) -> PollResult {
        PollResult::None
    }
}

/// The subclass with the endpoints that serve the pipes of its transport
struct Device<'alloc, 'buf> {
    in_ep: Endpoint<'alloc, MemoryBus, In>,
    out_ep: Endpoint<'alloc, MemoryBus, Out>,
    scsi: Scsi<BulkOnly<'buf>>,
}

impl<'alloc, 'buf> Device<'alloc, 'buf> {
    fn new(alloc: &'alloc UsbBusAllocator<MemoryBus>, packet_size: u16, buf: &'buf mut [u8]) -> Self {
        Device {
            scsi: Scsi::new(packet_size, 0, buf).unwrap(),
            in_ep: alloc.bulk(packet_size),
            out_ep: alloc.bulk(packet_size),
        }
    }

    fn receive(&mut self) -> Result<(), UsbError> {
        if !self.scsi.transport.awaits_packet() {
            return Ok(());
        }
        let mut packet = [0u8; 64];
        let room = self.out_ep.max_packet_size() as usize;
        match self.out_ep.read(&mut packet[..room]) {
            Ok(count) => self.scsi.transport.deliver(&packet[..count]).map(|_| ()),
            Err(UsbError::WouldBlock) => Ok(()),
            Err(err) => Err(err),
        }
    }

    fn transmit(&mut self) -> Result<(), UsbError> {
        match self.scsi.transport.take_out_halt() {
            Some(true) => self.out_ep.stall(),
            Some(false) => self.out_ep.unstall(),
            None => {}
        }
        let written = self.scsi.transport.pending().map(|packet| self.in_ep.write(packet));
        match written {
            Some(Ok(_)) => self.scsi.transport.sent(),
            Some(Err(UsbError::WouldBlock)) => {}
            Some(Err(err)) => return Err(err),
            None => {}
        }
        match self.scsi.transport.take_in_halt() {
            Some(true) => self.in_ep.stall(),
            Some(false) => self.in_ep.unstall(),
            None => {}
        }
        Ok(())
    }

    fn poll<F>(&mut self, callback: F) -> Result<(), UsbError>
    where
        F: FnMut(Command<'_, ScsiCommand, Scsi<BulkOnly<'buf>>>),
    {
        self.receive()?;
        let polled = self.scsi.poll(callback);
        self.transmit()?;
        polled
    }
}

fn cbw(tag: u32, data_transfer_len: u32, direction: DataDirection, block: &[u8]) -> [u8; 31] {
    let mut padded = [0u8; 16];
    padded[..block.len()].copy_from_slice(block);
    CommandBlockWrapper {
        tag,
        data_transfer_len,
        direction,
        lun: 0,
        block_len: block.len(),
        block: padded,
    }
    .to_le_bytes()
}

/// The bytes of the packets among `wire`
fn bytes_of(wire: &[OnWire]) -> Vec<u8> {
    wire.iter()
        .flat_map(|seen| match seen {
            OnWire::Packet(packet) => packet.clone(),
            _ => vec![],
        })
        .collect()
}

#[test]
fn read_10_over_usb_device_endpoints() {
    for packet_size in [8u16, 16, 32, 64] {
        let bus = MemoryBus::new();
        let alloc = UsbBusAllocator::new(bus.clone());
        let mut io_buf = [0u8; 128];
        let mut device = Device::new(&alloc, packet_size, &mut io_buf);
        let _usb_dev = UsbDeviceBuilder::new(&alloc, UsbVidPid(0xabcd, 0xabcd)).build();

        bus.host_writes(&cbw(1, 512, DataDirection::In, &[0x28, 0, 0, 0, 0, 0, 0, 0, 1, 0]));
        let mut written = 0;
        for _ in 0..1000 {
            device
                .poll(|mut command| {
                    assert_eq!(ScsiCommand::Read { lba: 0, len: 1 }, command.kind);
                    let block = [0xFFu8; 512];
                    written += command.write_data(&block[written..]).unwrap();
                    if written == 512 {
                        command.pass();
                    }
                })
                .unwrap();
            bus.host_fetches();
        }
        let wire = bus.in_wire();
        assert!(wire.iter().all(|seen| matches!(seen, OnWire::Packet(_))));
        let bytes = bytes_of(&wire);
        assert_eq!(512 + 13, bytes.len());
        assert_eq!(vec![0xFFu8; 512], bytes[..512]);
        assert_eq!(
            Some(CommandStatusWrapper { tag: 1, data_residue: 0, status: CommandStatus::Passed }),
            CommandStatusWrapper::from_le_bytes(&bytes[512..])
        );
        assert_eq!((false, false), bus.stalled());
    }
}

#[test]
fn short_read_10_over_usb_device_endpoints() {
    for packet_size in [8u16, 16, 32, 64] {
        let bus = MemoryBus::new();
        let alloc = UsbBusAllocator::new(bus.clone());
        let mut io_buf = [0u8; 1024];
        let mut device = Device::new(&alloc, packet_size, &mut io_buf);
        let _usb_dev = UsbDeviceBuilder::new(&alloc, UsbVidPid(0xabcd, 0xabcd)).build();

        bus.host_writes(&cbw(2, 512, DataDirection::In, &[0x28, 0, 0, 0, 0, 0, 0, 0, 1, 0]));
        let mut calls = 0;
        for _ in 0..1000 {
            device
                .poll(|mut command| {
                    calls += 1;
                    assert_eq!(256, command.write_data(&[0xFFu8; 256]).unwrap());
                    command.fail();
                })
                .unwrap();
            bus.host_fetches();
        }
        assert_eq!(1, calls);
        // the data, then the stall, then the status
        let wire = bus.in_wire();
        let stall_at = wire.iter().position(|seen| *seen == OnWire::Stall).unwrap();
        assert_eq!(vec![0xFFu8; 256], bytes_of(&wire[..stall_at]));
        assert_eq!(
            Some(CommandStatusWrapper { tag: 2, data_residue: 256, status: CommandStatus::Failed }),
            CommandStatusWrapper::from_le_bytes(&bytes_of(&wire[stall_at + 1..]))
        );
        assert_eq!((true, false), bus.stalled());
    }
}

#[test]
fn invalid_cbw_over_usb_device_endpoints() {
    let bus = MemoryBus::new();
    let alloc = UsbBusAllocator::new(bus.clone());
    let mut io_buf = [0u8; 64];
    let mut device = Device::new(&alloc, 64, &mut io_buf);
    let _usb_dev = UsbDeviceBuilder::new(&alloc, UsbVidPid(0xabcd, 0xabcd)).build();

    let mut frame = cbw(3, 0, DataDirection::NotExpected, &[0x00; 6]);
    frame[3] = 0x00;
    bus.host_writes(&frame);
    for _ in 0..10 {
        device.poll(|_| panic!("no command")).unwrap();
        bus.host_fetches();
    }
    assert_eq!((true, true), bus.stalled());
    assert_eq!(vec![OnWire::Stall], bus.in_wire());

    // a reset makes both endpoints work again
    device.scsi.reset();
    device.transmit().unwrap();
    assert_eq!((false, false), bus.stalled());
    assert_eq!(vec![OnWire::Stall, OnWire::Unstall], bus.in_wire());
}

#[test]
fn write_10_over_usb_device_endpoints() {
    for packet_size in [8u16, 16, 32, 64] {
        let bus = MemoryBus::new();
        let alloc = UsbBusAllocator::new(bus.clone());
        let mut io_buf = [0u8; 128];
        let mut device = Device::new(&alloc, packet_size, &mut io_buf);
        let _usb_dev = UsbDeviceBuilder::new(&alloc, UsbVidPid(0xabcd, 0xabcd)).build();

        bus.host_writes(&cbw(4, 512, DataDirection::Out, &[0x2A, 0, 0, 0, 0, 0, 0, 0, 1, 0]));
        let block: Vec<u8> = (0..512u32).map(|i| (i % 251) as u8).collect();
        bus.host_writes(&block);
        let mut received = vec![];
        for _ in 0..1000 {
            device
                .poll(|mut command| {
                    assert_eq!(ScsiCommand::Write { lba: 0, len: 1 }, command.kind);
                    let mut chunk = [0u8; 100];
                    let count = command.read_data(&mut chunk).unwrap();
                    received.extend_from_slice(&chunk[..count]);
                    if received.len() == 512 {
                        command.pass();
                    }
                })
                .unwrap();
            bus.host_fetches();
        }
        assert_eq!(block, received);
        assert_eq!(
            Some(CommandStatusWrapper { tag: 4, data_residue: 0, status: CommandStatus::Passed }),
            CommandStatusWrapper::from_le_bytes(&bytes_of(&bus.in_wire()))
        );
        assert_eq!((false, false), bus.stalled());
    }
}
