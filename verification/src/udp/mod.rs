//! USB device port (UDP): the endpoint state machine that turns the endpoint
//! registers into bus events, and the USB types it speaks of.
use vstd::prelude::*;

pub mod endpoint;

verus! {

/// Transfer type of an endpoint.
#[derive(Clone, Copy, Debug, PartialEq, Eq, Structural)]
pub enum EndpointType {
    Control,
    Isochronous,
    Bulk,
    Interrupt,
}

/// Direction of a transfer, as the host sees it.
#[derive(Clone, Copy, Debug, PartialEq, Eq, Structural)]
pub enum UsbDirection {
    /// Host to device.
    Out,
    /// Device to host.
    In,
}

/// The direction bit (bit 7) of an endpoint address or request type.
pub open spec fn spec_direction_bit(dir: UsbDirection) -> u8 {
    match dir {
        UsbDirection::Out => 0x00,
        UsbDirection::In => 0x80,
    }
}

/// The direction that bit 7 of `byte` encodes.
pub open spec fn spec_direction_of(byte: u8) -> UsbDirection {
    if byte & 0x80 == 0 { UsbDirection::Out } else { UsbDirection::In }
}

impl UsbDirection {
    /// The direction encoded in bit 7 of a request type or endpoint address byte.
    pub fn from_byte(byte: u8) -> (r: UsbDirection)
        ensures r == spec_direction_of(byte),
    {
        if byte & 0x80 == 0 { UsbDirection::Out } else { UsbDirection::In }
    }
}

/// An endpoint address: the endpoint number in the low bits and the direction in
/// bit 7.
#[derive(Clone, Copy, Debug, PartialEq, Eq, Structural)]
pub struct EndpointAddress(pub u8);

impl EndpointAddress {
    /// The address of endpoint `index` in direction `dir`.
    pub fn from_parts(index: u8, dir: UsbDirection) -> (r: EndpointAddress)
        ensures r.0 == index | spec_direction_bit(dir),
    {
        let bit: u8 = match dir {
            UsbDirection::Out => 0x00,
            UsbDirection::In => 0x80,
        };
        EndpointAddress(index | bit)
    }
}

/// Errors of USB bus operations.
#[derive(Clone, Copy, Debug, PartialEq, Eq, Structural)]
pub enum UsbError {
    /// Nothing to read, or no room to write, right now.
    WouldBlock,
    ParseError,
    /// The packet does not fit in the buffer.
    BufferOverflow,
    EndpointOverflow,
    /// The packet or the requested packet size does not fit the endpoint.
    EndpointMemoryOverflow,
    /// The endpoint is not allocated or cannot serve the request.
    InvalidEndpoint,
    /// The endpoint hardware cannot do what was asked.
    Unsupported,
    /// The endpoint is in a state that does not allow the operation.
    InvalidState,
}

/// What polling the bus found.
#[derive(Clone, Copy, Debug, PartialEq, Eq, Structural)]
pub enum PollResult {
    /// Nothing happened.
    Idle,
    Reset,
    /// Bit masks (bit n for endpoint n) of endpoints with an OUT packet received,
    /// an IN packet sent, and a SETUP packet received.
    Data { ep_out: u16, ep_in_complete: u16, ep_setup: u16 },
    Suspend,
    Resume,
}

/// The frame number field (bits 0..=10) of `UDP_FRM_NUM`.
pub fn frm_num(frm_num_register: u32) -> (r: u16)
    ensures r == frm_num_register & 0x07FF,
{
    let v = frm_num_register & 0x07FF;
    proof {
        assert(v <= 0x07FF) by (bit_vector)
            requires v == frm_num_register & 0x07FF;
    }
    v as u16
}

} // verus!
