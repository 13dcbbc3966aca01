//! The packet slot through which a transport and the USB peripheral driver hand each other the
//! packets of one bulk endpoint.
//!
//! A pipe holds at most one packet. One side puts a packet in with [`Pipe::write`], the other looks
//! at it with [`Pipe::packet`] and takes it out with [`Pipe::discard`]. For the OUT endpoint the
//! driver writes and the transport reads; for the IN endpoint it is the other way round. The
//! transport asks for the endpoint's halt condition to be set or cleared with [`Pipe::stall`] and
//! [`Pipe::unstall`]; the driver takes the request with [`Pipe::take_halt`] and carries it out.
//!
//! A pipe takes no packet while a request to set the halt condition waits in it. So a packet that
//! waits beside such a request was written before the request was made: the packet is to go first
//! and the endpoint to halt after it.
use crate::buffer::copy_to_front;
use usb_device::UsbError;
use vstd::prelude::*;
use vstd::slice::slice_subrange;

verus! {

/// Size of the largest packet of a full-speed bulk endpoint.
pub const MAX_PACKET_SIZE: usize = 64;

/// What a [`Pipe`] holds.
pub struct PipeView {
    /// Size of the largest packet that the pipe takes.
    pub max_packet_size: u16,
    /// The packet that waits to be taken out, if any.
    pub packet: Option<Seq<u8>>,
    /// The change of the halt condition that was asked for and not taken yet: `Some(true)` to set it,
    /// `Some(false)` to clear it.
    pub halt: Option<bool>,
}

impl PipeView {
    /// The packet, if any, is no longer than the pipe allows.
    pub open spec fn wf(self) -> bool {
        &&& self.max_packet_size <= MAX_PACKET_SIZE
        &&& self.packet matches Some(p) ==> p.len() <= self.max_packet_size
    }

    /// Whether the pipe takes a packet now: it holds none, and no request to set the halt condition.
    pub open spec fn takes_packet(self) -> bool {
        self.packet is None && self.halt != Some(true)
    }

    /// What `write` answers to a packet of `len` bytes.
    pub open spec fn write_result(self, len: int) -> Result<usize, UsbError> {
        if len > self.max_packet_size {
            Err(UsbError::BufferOverflow)
        } else if !self.takes_packet() {
            Err(UsbError::WouldBlock)
        } else {
            Ok(len as usize)
        }
    }

    /// The pipe after `write` was asked to take the packet `data`.
    pub open spec fn written(self, data: Seq<u8>) -> PipeView {
        if self.write_result(data.len() as int) is Ok {
            PipeView { packet: Some(data), ..self }
        } else {
            self
        }
    }
}

/// One bulk endpoint as the transport and the peripheral driver share it.
pub struct Pipe {
    max_packet_size: u16,
    halt: Option<bool>,
    full: bool,
    len: usize,
    data: [u8; 64],
}

impl View for Pipe {
    type V = PipeView;

    closed spec fn view(&self) -> PipeView {
        PipeView {
            max_packet_size: self.max_packet_size,
            packet: if self.full {
                Some(self.data@.subrange(0, self.len as int))
            } else {
                None
            },
            halt: self.halt,
        }
    }
}

impl Pipe {
    /// What holds of a pipe between any two of its operations.
    pub closed spec fn wf(&self) -> bool {
        &&& self@.wf()
        &&& self.len <= self.max_packet_size
    }

    /// An empty pipe for packets of up to `max_packet_size` bytes.
    pub fn new(max_packet_size: u16) -> (pipe: Pipe)
        requires
            max_packet_size <= MAX_PACKET_SIZE,
        ensures
            pipe.wf(),
            pipe@ == (PipeView { max_packet_size, packet: None, halt: None }),
    {
        Pipe { max_packet_size, halt: None, full: false, len: 0, data: [0u8; 64] }
    }

    /// Gets the maximum packet size for the endpoint.
    pub fn max_packet_size(&self) -> (size: u16)
        ensures
            size == self@.max_packet_size,
    {
        self.max_packet_size
    }

    /// Whether a packet waits to be taken out.
    pub fn is_full(&self) -> (full: bool)
        ensures
            full == self@.packet is Some,
    {
        self.full
    }

    /// Whether the pipe takes a packet now: it holds none, and no request to set the halt condition.
    pub fn takes_packet(&self) -> (free: bool)
        ensures
            free == self@.takes_packet(),
    {
        !self.full && !matches!(self.halt, Some(true))
    }

    /// Puts a single packet of data into the pipe and returns the number of bytes taken, which is all
    /// of them.
    ///
    /// # Errors
    ///
    /// * `BufferOverflow` - The data is longer than the `max_packet_size` of the pipe.
    /// * `WouldBlock` - The packet before this one has not been taken out yet, or a request to set
    ///   the halt condition has not been taken yet.
    pub fn write(&mut self, data: &[u8]) -> (res: Result<usize, UsbError>)
        requires
            old(self).wf(),
        ensures
            final(self).wf(),
            res == old(self)@.write_result(data@.len() as int),
            final(self)@ == old(self)@.written(data@),
    {
        if data.len() > self.max_packet_size as usize {
            return Err(UsbError::BufferOverflow);
        }
        if !self.takes_packet() {
            return Err(UsbError::WouldBlock);
        }
        copy_to_front(&mut self.data, data);
        self.len = data.len();
        self.full = true;
        assert(self.data@.subrange(0, self.len as int) =~= data@);
        Ok(data.len())
    }

    /// The packet that waits to be taken out, if any. It stays in the pipe.
    pub fn packet(&self) -> (packet: Option<&[u8]>)
        requires
            self.wf(),
        ensures
            packet is Some == self@.packet is Some,
            packet matches Some(p) ==> p@ == self@.packet.unwrap(),
    {
        if self.full {
            Some(slice_subrange(self.data.as_slice(), 0, self.len))
        } else {
            None
        }
    }

    /// Drops the packet that waits to be taken out, if any.
    pub fn discard(&mut self)
        requires
            old(self).wf(),
        ensures
            final(self).wf(),
            final(self)@ == (PipeView { packet: None, ..old(self)@ }),
    {
        self.full = false;
    }

    /// Asks for the halt condition of the endpoint to be set.
    pub fn stall(&mut self)
        requires
            old(self).wf(),
        ensures
            final(self).wf(),
            final(self)@ == (PipeView { halt: Some(true), ..old(self)@ }),
    {
        self.halt = Some(true);
    }

    /// Asks for the halt condition of the endpoint to be cleared.
    pub fn unstall(&mut self)
        requires
            old(self).wf(),
        ensures
            final(self).wf(),
            final(self)@ == (PipeView { halt: Some(false), ..old(self)@ }),
    {
        self.halt = Some(false);
    }

    /// Takes the change of the halt condition that was asked for last, if it was not taken before.
    pub fn take_halt(&mut self) -> (halt: Option<bool>)
        requires
            old(self).wf(),
        ensures
            final(self).wf(),
            halt == old(self)@.halt,
            final(self)@ == (PipeView { halt: None, ..old(self)@ }),
    {
        let halt = self.halt;
        self.halt = None;
        halt
    }
}

} // verus!
