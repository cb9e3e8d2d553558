//! Peripheral DMA controller (PDC): the transfer direction markers, the wrappers
//! that hand a peripheral to the PDC, and the transfer interface.
use vstd::prelude::*;
use core::marker::PhantomData;

verus! {

/// Read transfer (memory to peripheral).
pub struct R;

/// Write transfer (peripheral to memory).
pub struct W;

/// A peripheral that receives through the PDC.
pub struct RxDma<PAYLOAD> {
    pub payload: PAYLOAD,
}

/// A peripheral that transmits through the PDC.
pub struct TxDma<PAYLOAD> {
    pub payload: PAYLOAD,
}

/// A peripheral that receives and transmits through the PDC.
pub struct RxTxDma<PAYLOAD> {
    pub payload: PAYLOAD,
}

/// A PDC receiver and the word it receives.
pub trait Receive {
    type TransmittedWord;
}

/// A PDC transmitter and the word it transmits.
pub trait Transmit {
    type ReceivedWord;
}

/// Starts, stops and checks the PDC transfer of a peripheral.
pub trait TransferPayload {
    fn start(&mut self);
    fn stop(&mut self);
    fn in_progress(&self) -> bool;
}

/// Reads from the peripheral into a buffer.
pub trait ReadDma<B, RS>: Receive + Sized + TransferPayload {
    fn read(self, buffer: B) -> Transfer<W, B, Self>;
}

/// Reads from the peripheral into a buffer, starting paused.
pub trait ReadDmaPaused<B, RS>: Receive + Sized + TransferPayload {
    fn read_paused(self, buffer: B) -> Transfer<W, B, Self>;
}

/// Writes a buffer to the peripheral.
pub trait WriteDma<B, TS>: Transmit + Sized + TransferPayload {
    fn write(self, buffer: B) -> Transfer<R, B, Self>;
}

/// Reads and writes in one operation; both buffers have the same length.
pub trait ReadWriteDma<RXB, TXB, TS>: Transmit + Receive + Sized + TransferPayload {
    fn read_write(self, rx_buffer: RXB, tx_buffer: TXB) -> Transfer<W, (RXB, TXB), Self>;
}

/// Reads and writes with lengths given apart from the buffers.
pub trait ReadWriteDmaLen<RXB, TXB, TS>: Transmit + Receive + Sized + TransferPayload {
    fn read_write_len(self, rx_buffer: RXB, rx_buf_len: usize, tx_buffer: TXB, tx_buf_len: usize)
        -> Transfer<W, (RXB, TXB), Self>;
}

/// A PDC transfer in progress: the buffer and the peripheral belong to it until it
/// ends.
pub struct Transfer<MODE, BUFFER, PAYLOAD> {
    _mode: PhantomData<MODE>,
    buffer: BUFFER,
    payload: PAYLOAD,
}

impl<BUFFER, PAYLOAD> Transfer<R, BUFFER, PAYLOAD> {
    /// A read transfer of `buffer` by `payload`.
    pub fn r(buffer: BUFFER, payload: PAYLOAD) -> (t: Self)
        ensures t.buffer() == buffer, t.payload() == payload,
    {
        Transfer { _mode: PhantomData, buffer, payload }
    }
}

impl<BUFFER, PAYLOAD> Transfer<W, BUFFER, PAYLOAD> {
    /// A write transfer into `buffer` by `payload`.
    pub fn w(buffer: BUFFER, payload: PAYLOAD) -> (t: Self)
        ensures t.buffer() == buffer, t.payload() == payload,
    {
        Transfer { _mode: PhantomData, buffer, payload }
    }
}

impl<MODE, BUFFER, PAYLOAD> Transfer<MODE, BUFFER, PAYLOAD> {
    /// The buffer of the transfer.
    pub closed spec fn buffer(self) -> BUFFER {
        self.buffer
    }

    /// The peripheral of the transfer.
    pub closed spec fn payload(self) -> PAYLOAD {
        self.payload
    }

    /// Ends the transfer and hands back the buffer and the peripheral.
    pub fn release(self) -> (r: (BUFFER, PAYLOAD))
        ensures r.0 == self.buffer(), r.1 == self.payload(),
    {
        (self.buffer, self.payload)
    }
}

} // verus!
