//! One UDP endpoint: its allocation, and the decisions it takes from the values of
//! its control and status register (`UDP_CSRx`) and of the interrupt registers.
//! Each operation returns the register action the caller performs.
use vstd::prelude::*;
use super::{EndpointAddress, EndpointType, PollResult, UsbDirection, UsbError, spec_direction_bit};

verus! {

/// Which receive bank of a dual-bank endpoint is read next. Both banks can be full
/// when interrupts are served late, and the registers do not tell which came first.
#[derive(Clone, Copy, Debug, PartialEq, Eq, Structural)]
pub enum NextBank {
    Bank0,
    Bank1,
}

/// The state of an endpoint.
#[derive(Clone, Copy, Debug, PartialEq, Eq, Structural)]
pub struct EndpointModel {
    pub index: u8,
    pub interval: u8,
    pub max_packet_size: u16,
    pub ep_type: EndpointType,
    pub ep_dir: UsbDirection,
    pub next_bank: NextBank,
    pub allocated: bool,
    pub txbanks_free: u8,
    pub stalled: bool,
    pub next_out_zlp: bool,
}

/// A UDP endpoint. The hardware keeps the buffers and most of the configuration in
/// the endpoint's registers; this keeps what the registers cannot tell.
pub struct Endpoint {
    index: u8,
    interval: u8,
    max_packet_size: u16,
    ep_type: EndpointType,
    ep_dir: UsbDirection,
    next_bank: NextBank,
    allocated: bool,
    txbanks_free: u8,
    stalled: bool,
    next_out_zlp: bool,
}

impl View for Endpoint {
    type V = EndpointModel;

    closed spec fn view(&self) -> EndpointModel {
        EndpointModel {
            index: self.index,
            interval: self.interval,
            max_packet_size: self.max_packet_size,
            ep_type: self.ep_type,
            ep_dir: self.ep_dir,
            next_bank: self.next_bank,
            allocated: self.allocated,
            txbanks_free: self.txbanks_free,
            stalled: self.stalled,
            next_out_zlp: self.next_out_zlp,
        }
    }
}

// Bits of UDP_CSRx.
/// `TXCOMP` (bit 0): an IN packet was sent.
pub open spec fn csr_txcomp(csr: u32) -> bool { csr & 0x01 != 0 }
/// `RX_DATA_BK0` (bit 1): an OUT packet is in bank 0.
pub open spec fn csr_rx_data_bk0(csr: u32) -> bool { csr & 0x02 != 0 }
/// `RXSETUP` (bit 2): a SETUP packet was received.
pub open spec fn csr_rxsetup(csr: u32) -> bool { csr & 0x04 != 0 }
/// `STALLSENT` (bit 3): a STALL was sent.
pub open spec fn csr_stallsent(csr: u32) -> bool { csr & 0x08 != 0 }
/// `TXPKTRDY` (bit 4): a packet is waiting to be sent.
pub open spec fn csr_txpktrdy(csr: u32) -> bool { csr & 0x10 != 0 }
/// `RX_DATA_BK1` (bit 6): an OUT packet is in bank 1.
pub open spec fn csr_rx_data_bk1(csr: u32) -> bool { csr & 0x40 != 0 }
/// `EPTYPE` (bits 8..=10).
pub open spec fn csr_eptype(csr: u32) -> u32 { (csr >> 8u32) & 0x7 }
/// `RXBYTECNT` (bits 16..=26): bytes in the receive FIFO.
pub open spec fn csr_rxbytecnt(csr: u32) -> u32 { (csr >> 16u32) & 0x07FF }

/// `EPTYPE` codes.
pub const EPTYPE_CTRL: u32 = 0;
pub const EPTYPE_ISO_OUT: u32 = 1;
pub const EPTYPE_BULK_OUT: u32 = 2;
pub const EPTYPE_INT_OUT: u32 = 3;
pub const EPTYPE_ISO_IN: u32 = 5;
pub const EPTYPE_BULK_IN: u32 = 6;
pub const EPTYPE_INT_IN: u32 = 7;

/// Whether the interrupt bit of endpoint `index` (bits 0..=7 of `UDP_ISR` / `UDP_IMR`)
/// is set; there is none for other indices.
pub open spec fn spec_endpoint_bit(reg: u32, index: u8) -> bool {
    index <= 7 && reg & (1u32 << (index as u32)) != 0
}

/// FIFO size of endpoint `index`: 64 bytes, 512 for endpoints 4 and 5, none for
/// indices the hardware lacks.
pub open spec fn spec_hardware_packet_size(index: u8) -> u16 {
    if index <= 3 || index == 6 || index == 7 {
        64
    } else if index == 4 || index == 5 {
        512
    } else {
        0
    }
}

/// The largest packet the endpoint takes: its configured size within the FIFO.
pub open spec fn spec_max_packet_size(m: EndpointModel) -> u16 {
    let hw = spec_hardware_packet_size(m.index);
    if hw <= m.max_packet_size { hw } else { m.max_packet_size }
}

/// Endpoints 0 and 3 have a single bank; the others two.
pub open spec fn spec_dual_bank(index: u8) -> bool {
    !(index == 0 || index == 3)
}

/// The number of transmit banks of an endpoint.
pub open spec fn spec_tx_banks(index: u8) -> u8 {
    if spec_dual_bank(index) { 2 } else { 1 }
}

/// The endpoint's bit in the masks of a poll result.
pub open spec fn spec_ep_mask(index: u8) -> u16 {
    (1u16 << (index as u16))
}

/// The register action that a poll asks for.
#[derive(Clone, Copy, Debug, PartialEq, Eq, Structural)]
pub enum PollAction {
    Nothing,
    /// Acknowledge a sent STALL: clear `STALLSENT`.
    ClearStallSent,
    /// Acknowledge a sent IN packet: clear `TXCOMP`.
    ClearTxComp,
    /// Acknowledge a zero length OUT packet at once: clear `RX_DATA_BK0`.
    ClearRxDataBk0,
}

/// What polling does: the new state, the result and the register action.
pub open spec fn spec_poll(m: EndpointModel, imr: u32, isr: u32, csr: u32) -> (EndpointModel, PollResult, PollAction) {
    let bit = spec_ep_mask(m.index);
    if !m.allocated {
        (m, PollResult::Idle, PollAction::Nothing)
    } else if !spec_endpoint_bit(imr, m.index) && m.ep_type != EndpointType::Control {
        (m, PollResult::Idle, PollAction::Nothing)
    } else if !spec_endpoint_bit(isr, m.index) {
        (m, PollResult::Idle, PollAction::Nothing)
    } else if csr_stallsent(csr) {
        (EndpointModel { stalled: false, ..m }, PollResult::Idle, PollAction::ClearStallSent)
    } else if m.ep_type == EndpointType::Control {
        if csr_rxsetup(csr) {
            (m, PollResult::Data { ep_out: 0, ep_in_complete: 0, ep_setup: bit }, PollAction::Nothing)
        } else if csr_txcomp(csr) {
            (EndpointModel { txbanks_free: (m.txbanks_free + 1) as u8, ..m },
                PollResult::Data { ep_out: 0, ep_in_complete: bit, ep_setup: 0 }, PollAction::ClearTxComp)
        } else if csr_rx_data_bk0(csr) {
            if csr_rxbytecnt(csr) == 0 {
                (EndpointModel { next_out_zlp: true, ..m },
                    PollResult::Data { ep_out: bit, ep_in_complete: 0, ep_setup: 0 }, PollAction::ClearRxDataBk0)
            } else {
                (m, PollResult::Data { ep_out: bit, ep_in_complete: 0, ep_setup: 0 }, PollAction::Nothing)
            }
        } else {
            (m, PollResult::Idle, PollAction::Nothing)
        }
    } else {
        let out = csr_rx_data_bk0(csr) || csr_rx_data_bk1(csr);
        let sent = csr_txcomp(csr);
        let m2 = if sent { EndpointModel { txbanks_free: (m.txbanks_free + 1) as u8, ..m } } else { m };
        let action = if sent { PollAction::ClearTxComp } else { PollAction::Nothing };
        if out || sent {
            (m2, PollResult::Data {
                ep_out: if out { bit } else { 0 },
                ep_in_complete: if sent { bit } else { 0 },
                ep_setup: 0,
            }, action)
        } else {
            (m2, PollResult::Idle, action)
        }
    }
}

/// The register action that a write asks for.
#[derive(Clone, Copy, Debug, PartialEq, Eq, Structural)]
pub enum WriteAction {
    Nothing,
    /// Data arrived on the control endpoint: clear `TXCOMP` (a zero length packet
    /// goes out) and abort.
    ClearTxComp,
    /// Copy the data into the FIFO and set `TXPKTRDY`.
    Send,
}

/// What writing a packet of `len` bytes does: the new state, the result and the
/// register action.
pub open spec fn spec_write(m: EndpointModel, len: usize, csr: u32) -> (EndpointModel, Result<usize, UsbError>, WriteAction) {
    if !m.allocated {
        (m, Err(UsbError::InvalidEndpoint), WriteAction::Nothing)
    } else if m.txbanks_free == 0 || (m.txbanks_free == 1 && csr_txpktrdy(csr)) {
        (m, Err(UsbError::WouldBlock), WriteAction::Nothing)
    } else if len > spec_max_packet_size(m) {
        (m, Err(UsbError::EndpointMemoryOverflow), WriteAction::Nothing)
    } else if csr_rx_data_bk0(csr) {
        (m, Err(UsbError::InvalidState), WriteAction::ClearTxComp)
    } else {
        (EndpointModel { txbanks_free: (m.txbanks_free - 1) as u8, ..m }, Ok(len), WriteAction::Send)
    }
}

/// The register action that a read asks for.
#[derive(Clone, Copy, Debug, PartialEq, Eq, Structural)]
pub enum ReadAction {
    Nothing,
    /// Drop the SETUP packet: clear `RXSETUP`.
    ClearRxSetup,
    /// Drop the packet in bank 0: clear `RX_DATA_BK0`.
    ClearBank0,
    /// Drop the packet in bank 1: clear `RX_DATA_BK1`.
    ClearBank1,
    /// Copy the 8 byte SETUP packet from the FIFO, set `DIR` from bit 7 of its first
    /// byte, then clear `RXSETUP`.
    ReadSetup,
    /// Copy the packet in bank 0 from the FIFO, then clear `RX_DATA_BK0`.
    ReadBank0,
    /// Copy the packet in bank 1 from the FIFO, then clear `RX_DATA_BK1`.
    ReadBank1,
}

/// The bank a non-control endpoint reads: the remembered one when both are full.
pub open spec fn spec_read_bank(m: EndpointModel, csr: u32) -> Option<NextBank> {
    if csr_rx_data_bk0(csr) && csr_rx_data_bk1(csr) {
        Some(m.next_bank)
    } else if csr_rx_data_bk0(csr) {
        Some(NextBank::Bank0)
    } else if spec_dual_bank(m.index) && csr_rx_data_bk1(csr) {
        Some(NextBank::Bank1)
    } else {
        None
    }
}

/// What reading a packet into a buffer of `len` bytes does: the new state, the
/// result (the packet's length) and the register action.
pub open spec fn spec_read(m: EndpointModel, len: usize, csr: u32) -> (EndpointModel, Result<usize, UsbError>, ReadAction) {
    let rxbytes = csr_rxbytecnt(csr);
    if !m.allocated {
        (m, Err(UsbError::InvalidEndpoint), ReadAction::Nothing)
    } else if csr_eptype(csr) == EPTYPE_CTRL {
        if m.next_out_zlp {
            (EndpointModel { next_out_zlp: false, ..m }, Ok(0usize), ReadAction::Nothing)
        } else if csr_rxsetup(csr) {
            if rxbytes > len {
                (m, Err(UsbError::BufferOverflow), ReadAction::ClearRxSetup)
            } else if rxbytes != 8 {
                (m, Err(UsbError::InvalidState), ReadAction::ClearRxSetup)
            } else {
                (m, Ok(rxbytes as usize), ReadAction::ReadSetup)
            }
        } else if csr_rx_data_bk0(csr) {
            if rxbytes > len {
                (m, Err(UsbError::BufferOverflow), ReadAction::ClearBank0)
            } else {
                (m, Ok(rxbytes as usize), ReadAction::ReadBank0)
            }
        } else {
            (m, Err(UsbError::WouldBlock), ReadAction::Nothing)
        }
    } else if !(csr_eptype(csr) == EPTYPE_BULK_OUT || csr_eptype(csr) == EPTYPE_INT_OUT
        || csr_eptype(csr) == EPTYPE_ISO_OUT) {
        (m, Err(UsbError::InvalidEndpoint), ReadAction::Nothing)
    } else {
        match spec_read_bank(m, csr) {
            None => (m, Err(UsbError::WouldBlock), ReadAction::Nothing),
            Some(NextBank::Bank0) => (EndpointModel { next_bank: NextBank::Bank1, ..m },
                if rxbytes > len { Err(UsbError::BufferOverflow) } else { Ok(rxbytes as usize) },
                if rxbytes > len { ReadAction::ClearBank0 } else { ReadAction::ReadBank0 }),
            Some(NextBank::Bank1) => (EndpointModel { next_bank: NextBank::Bank0, ..m },
                if rxbytes > len { Err(UsbError::BufferOverflow) } else { Ok(rxbytes as usize) },
                if rxbytes > len { ReadAction::ClearBank1 } else { ReadAction::ReadBank1 }),
        }
    }
}

/// The `EPTYPE` code for an endpoint type and direction; control endpoints have one
/// code for both directions.
pub open spec fn spec_eptype_code(ep_type: EndpointType, dir: UsbDirection) -> u32 {
    match ep_type {
        EndpointType::Control => EPTYPE_CTRL,
        EndpointType::Bulk => if dir == UsbDirection::In { EPTYPE_BULK_IN } else { EPTYPE_BULK_OUT },
        EndpointType::Interrupt => if dir == UsbDirection::In { EPTYPE_INT_IN } else { EPTYPE_INT_OUT },
        EndpointType::Isochronous => if dir == UsbDirection::In { EPTYPE_ISO_IN } else { EPTYPE_ISO_OUT },
    }
}

/// How to bring an allocated endpoint's registers to its configuration: clear the
/// CSR, toggle `TXPKTRDY` once per bank to flush the FIFO, reset the FIFO, write the
/// `EPTYPE` code (a control endpoint also clears `DIR`, starting in the OUT
/// direction), set `EPEDS` and enable the endpoint's interrupt.
#[derive(Clone, Copy, Debug, PartialEq, Eq, Structural)]
pub struct ResetPlan {
    pub flush_toggles: u8,
    pub eptype: u32,
    pub clear_dir: bool,
}

/// The flags of `UDP_CSRx` that a write of 1 leaves unchanged and a write of 0
/// clears: `TXCOMP`, `RX_DATA_BK0`, `RXSETUP`, `STALLSENT`, `RX_DATA_BK1`.
pub const CSR_NO_EFFECT: u32 = 0x0000_004F;

/// The value to write to `UDP_CSRx` so that only intended bits change: the
/// write-to-clear flags are written as 1.
pub fn csr_no_change(csr: u32) -> (r: u32)
    ensures r == csr | CSR_NO_EFFECT,
{
    csr | CSR_NO_EFFECT
}

/// `DIR` (bit 7), `EPEDS` (bit 15), `FORCESTALL` (bit 5), `TXPKTRDY` (bit 4) and
/// `EPTYPE` (bits 8..=10).
pub const CSR_CONFIG_MASK: u32 = 0x0000_87B0;

/// The value that clears the direction, enable, stall, packet ready and type fields
/// (type control) without touching the flags.
pub fn csr_clear(csr: u32) -> (r: u32)
    ensures r == (csr | CSR_NO_EFFECT) & !CSR_CONFIG_MASK,
{
    csr_no_change(csr) & !CSR_CONFIG_MASK
}

/// The value that sets (`set`) or clears the bits of `mask`, the flags untouched.
pub fn csr_write(csr: u32, mask: u32, set: bool) -> (r: u32)
    ensures r == (if set { csr | CSR_NO_EFFECT | mask } else { (csr | CSR_NO_EFFECT) & !mask }),
{
    if set {
        csr_no_change(csr) | mask
    } else {
        csr_no_change(csr) & !mask
    }
}

impl Endpoint {
    /// A free endpoint with the given number.
    pub fn new(index: u8) -> (r: Self)
        ensures
            r@ == (EndpointModel {
                index,
                interval: 1,
                max_packet_size: 8,
                ep_type: EndpointType::Interrupt,
                ep_dir: UsbDirection::Out,
                next_bank: NextBank::Bank0,
                allocated: false,
                txbanks_free: 0,
                stalled: false,
                next_out_zlp: false,
            }),
    {
        Self {
            index,
            interval: 1,
            max_packet_size: 8,
            ep_type: EndpointType::Interrupt,
            ep_dir: UsbDirection::Out,
            next_bank: NextBank::Bank0,
            allocated: false,
            txbanks_free: 0,
            stalled: false,
            next_out_zlp: false,
        }
    }

    /// Whether the endpoint's interrupt is pending, given `UDP_ISR`.
    pub fn interrupt(&self, isr: u32) -> (r: bool)
        ensures r == spec_endpoint_bit(isr, self@.index),
    {
        self.index <= 7 && isr & (1u32 << (self.index as u32)) != 0
    }

    /// Whether the endpoint's interrupt is enabled, given `UDP_IMR`.
    pub fn interrupt_enabled(&self, imr: u32) -> (r: bool)
        ensures r == spec_endpoint_bit(imr, self@.index),
    {
        self.index <= 7 && imr & (1u32 << (self.index as u32)) != 0
    }

    /// The bit to write to `UDP_IER` (or `UDP_IDR`) to enable (or disable) the
    /// endpoint's interrupt; none for indices the hardware lacks.
    pub fn interrupt_set(&self) -> (r: Option<u32>)
        ensures
            self@.index <= 7 ==> r == Some(1u32 << (self@.index as u32)),
            self@.index > 7 ==> r is None,
    {
        if self.index <= 7 {
            Some(1u32 << (self.index as u32))
        } else {
            None
        }
    }

    /// Whether the endpoint has two banks.
    fn dual_bank(&self) -> (r: bool)
        ensures r == spec_dual_bank(self@.index),
    {
        !(self.index == 0 || self.index == 3)
    }

    /// The number of transmit banks.
    fn tx_banks(&self) -> (r: u8)
        ensures r == spec_tx_banks(self@.index),
    {
        if self.dual_bank() { 2 } else { 1 }
    }

    /// Allocates the endpoint for a transfer type, direction, packet size and poll
    /// interval. Endpoint 0 only serves control transfers; a control endpoint that is
    /// already allocated is handed out again; control transfers need a single-bank
    /// endpoint (0 or 3), isochronous ones a dual-bank endpoint; the packet size must
    /// fit the endpoint's FIFO (the requested size is kept even when it does not).
    pub fn allocate(&mut self, ep_type: EndpointType, ep_dir: UsbDirection, max_packet_size: u16, interval: u8)
        -> (r: Result<EndpointAddress, UsbError>)
        ensures
            ({
                let m = old(self)@;
                let address = EndpointAddress((m.index | spec_direction_bit(ep_dir)) as u8);
                let sized = EndpointModel { max_packet_size, ..m };
                if ep_type != EndpointType::Control && m.index == 0 {
                    r == Err::<EndpointAddress, UsbError>(UsbError::InvalidEndpoint) && final(self)@ == m
                } else if m.allocated {
                    final(self)@ == m && r == (if ep_type == EndpointType::Control {
                        Ok::<EndpointAddress, UsbError>(address)
                    } else {
                        Err(UsbError::InvalidEndpoint)
                    })
                } else if max_packet_size > spec_hardware_packet_size(m.index) {
                    r == Err::<EndpointAddress, UsbError>(UsbError::EndpointMemoryOverflow) && final(self)@ == sized
                } else if (ep_type == EndpointType::Control && spec_dual_bank(m.index))
                    || (ep_type == EndpointType::Isochronous && !spec_dual_bank(m.index)) {
                    r == Err::<EndpointAddress, UsbError>(UsbError::Unsupported) && final(self)@ == sized
                } else {
                    &&& r == Ok::<EndpointAddress, UsbError>(address)
                    &&& final(self)@ == EndpointModel {
                        ep_type,
                        ep_dir,
                        txbanks_free: spec_tx_banks(m.index),
                        allocated: true,
                        interval,
                        ..sized
                    }
                }
            }),
    {
        let address = EndpointAddress::from_parts(self.index, ep_dir);

        // Endpoint 0 must be a control endpoint.
        if ep_type != EndpointType::Control && self.index == 0 {
            return Err(UsbError::InvalidEndpoint);
        }

        if self.allocated {
            // Control endpoints may be handed out again.
            if ep_type == EndpointType::Control {
                return Ok(address);
            }
            return Err(UsbError::InvalidEndpoint);
        }

        self.max_packet_size = max_packet_size;
        if max_packet_size > self.max_packet_size() {
            return Err(UsbError::EndpointMemoryOverflow);
        }

        match ep_type {
            EndpointType::Bulk => {},
            EndpointType::Control => {
                // Only the single-bank endpoints 0 and 3 serve control transfers.
                if self.dual_bank() {
                    return Err(UsbError::Unsupported);
                }
            },
            EndpointType::Interrupt => {},
            EndpointType::Isochronous => {
                // Isochronous transfers need both banks.
                if !self.dual_bank() {
                    return Err(UsbError::Unsupported);
                }
            },
        }
        self.ep_type = ep_type;
        self.ep_dir = ep_dir;
        self.txbanks_free = self.tx_banks();
        self.allocated = true;
        self.interval = interval;
        Ok(address)
    }

    /// The endpoint address, with the direction bit.
    pub fn address(&self) -> (r: EndpointAddress)
        ensures r.0 == self@.index | spec_direction_bit(self@.ep_dir),
    {
        EndpointAddress::from_parts(self.index, self.ep_dir)
    }

    /// The largest packet the endpoint takes.
    pub fn max_packet_size(&self) -> (r: u16)
        ensures r == spec_max_packet_size(self@),
    {
        let hardware: u16 = if self.index <= 3 || self.index == 6 || self.index == 7 {
            64
        } else if self.index == 4 || self.index == 5 {
            512
        } else {
            0
        };
        if hardware <= self.max_packet_size { hardware } else { self.max_packet_size }
    }

    /// The poll interval of an interrupt endpoint.
    pub fn interval(&self) -> (r: u8)
        ensures r == self@.interval,
    {
        self.interval
    }

    /// Whether the endpoint is allocated.
    pub fn is_allocated(&self) -> (r: bool)
        ensures r == self@.allocated,
    {
        self.allocated
    }

    /// Sets the STALL condition; returns whether `FORCESTALL` must be set (it is
    /// not when the endpoint is already stalled).
    pub fn stall(&mut self) -> (r: bool)
        ensures
            r == !old(self)@.stalled,
            final(self)@ == (EndpointModel { stalled: true, ..old(self)@ }),
    {
        if !self.stalled {
            self.stalled = true;
            true
        } else {
            false
        }
    }

    /// Clears the STALL condition (the caller clears `FORCESTALL`) and recharges the
    /// transmit banks.
    pub fn unstall(&mut self)
        ensures
            final(self)@ == (EndpointModel {
                stalled: false,
                txbanks_free: spec_tx_banks(old(self)@.index),
                ..old(self)@
            }),
    {
        self.stalled = false;
        self.txbanks_free = self.tx_banks();
    }

    /// Whether the STALL condition is set.
    pub fn is_stalled(&self) -> (r: bool)
        ensures r == self@.stalled,
    {
        self.stalled
    }

    /// Whether enabling the endpoint sets `EPEDS`: only an allocated endpoint is
    /// enabled.
    pub fn enable(&self) -> (r: bool)
        ensures r == self@.allocated,
    {
        self.allocated
    }

    /// The endpoint's bit in `UDP_RST_EP`, which is set to reset its FIFO and cleared
    /// again once the reset is done; none for an index the hardware lacks (nothing is
    /// reset then).
    pub fn clear_fifo(&self) -> (r: Option<u32>)
        ensures
            self@.index <= 7 ==> r == Some(1u32 << (self@.index as u32)),
            self@.index > 7 ==> r is None,
    {
        if self.index <= 7 {
            Some(1u32 << (self.index as u32))
        } else {
            None
        }
    }

    /// Whether a FIFO reset is still to be waited for, from the values of
    /// `UDP_RST_EP` and of the endpoint's CSR: while the endpoint's reset bit reads
    /// clear and its receive FIFO still holds bytes.
    pub fn fifo_reset_pending(&self, rst_ep: u32, csr: u32) -> (r: bool)
        ensures
            r == (!spec_endpoint_bit(rst_ep, self@.index) && csr_rxbytecnt(csr) != 0),
    {
        let bit = self.index <= 7 && rst_ep & (1u32 << (self.index as u32)) != 0;
        !bit && (csr >> 16u32) & 0x07FF != 0
    }

    /// Resets an allocated endpoint to its configuration: recharges the transmit
    /// banks and returns how to set up its registers; a free endpoint is left alone.
    pub fn reset(&mut self) -> (r: Option<ResetPlan>)
        ensures
            !old(self)@.allocated ==> r is None && final(self)@ == old(self)@,
            old(self)@.allocated ==> ({
                &&& r == Some(ResetPlan {
                    flush_toggles: spec_tx_banks(old(self)@.index),
                    eptype: spec_eptype_code(old(self)@.ep_type, old(self)@.ep_dir),
                    clear_dir: old(self)@.ep_type == EndpointType::Control,
                })
                &&& final(self)@ == (EndpointModel { txbanks_free: spec_tx_banks(old(self)@.index), ..old(self)@ })
            }),
    {
        if !self.allocated {
            return None;
        }
        let flush_toggles = self.tx_banks();
        self.txbanks_free = self.tx_banks();
        let eptype: u32 = match self.ep_type {
            EndpointType::Bulk => match self.ep_dir {
                UsbDirection::In => EPTYPE_BULK_IN,
                UsbDirection::Out => EPTYPE_BULK_OUT,
            },
            // A control endpoint starts out in the OUT direction.
            EndpointType::Control => EPTYPE_CTRL,
            EndpointType::Interrupt => match self.ep_dir {
                UsbDirection::In => EPTYPE_INT_IN,
                UsbDirection::Out => EPTYPE_INT_OUT,
            },
            EndpointType::Isochronous => match self.ep_dir {
                UsbDirection::In => EPTYPE_ISO_IN,
                UsbDirection::Out => EPTYPE_ISO_OUT,
            },
        };
        let clear_dir = match self.ep_type {
            EndpointType::Control => true,
            _ => false,
        };
        Some(ResetPlan { flush_toggles, eptype, clear_dir })
    }

    /// Polls the endpoint with the values of `UDP_IMR`, `UDP_ISR` and the endpoint's
    /// CSR: reports a received SETUP or OUT packet or a sent IN packet, and returns
    /// the flag to acknowledge. A free endpoint, a masked non-control endpoint and an
    /// endpoint without a pending interrupt report nothing; a sent STALL is
    /// acknowledged and ends the stall.
    pub fn poll(&mut self, imr: u32, isr: u32, csr: u32) -> (r: (PollResult, PollAction))
        requires
            old(self)@.txbanks_free < 255,
        ensures
            ({
                let (m, result, action) = spec_poll(old(self)@, imr, isr, csr);
                final(self)@ == m && r.0 == result && r.1 == action
            }),
    {
        if !self.allocated {
            return (PollResult::Idle, PollAction::Nothing);
        }
        let index = self.index;
        let enabled = index <= 7 && imr & (1u32 << (index as u32)) != 0;
        // Control endpoints are served whether their interrupt is enabled or not.
        if !enabled && self.ep_type != EndpointType::Control {
            return (PollResult::Idle, PollAction::Nothing);
        }
        let pending = index <= 7 && isr & (1u32 << (index as u32)) != 0;
        if !pending {
            return (PollResult::Idle, PollAction::Nothing);
        }
        let bit: u16 = 1u16 << (index as u16);

        if csr & 0x08 != 0 {
            // A STALL was sent: acknowledge it.
            self.stalled = false;
            return (PollResult::Idle, PollAction::ClearStallSent);
        }

        match self.ep_type {
            EndpointType::Control => {
                if csr & 0x04 != 0 {
                    // SETUP packet received.
                    return (PollResult::Data { ep_out: 0, ep_in_complete: 0, ep_setup: bit }, PollAction::Nothing);
                }
                if csr & 0x01 != 0 {
                    // IN packet sent.
                    self.txbanks_free = self.txbanks_free + 1;
                    return (PollResult::Data { ep_out: 0, ep_in_complete: bit, ep_setup: 0 }, PollAction::ClearTxComp);
                }
                if csr & 0x02 != 0 {
                    // OUT packet received; a zero length one (status stage of a
                    // control write) is acknowledged at once and read as empty.
                    let rxbytecnt = (csr >> 16u32) & 0x07FF;
                    if rxbytecnt == 0 {
                        self.next_out_zlp = true;
                        return (PollResult::Data { ep_out: bit, ep_in_complete: 0, ep_setup: 0 }, PollAction::ClearRxDataBk0);
                    }
                    return (PollResult::Data { ep_out: bit, ep_in_complete: 0, ep_setup: 0 }, PollAction::Nothing);
                }
                (PollResult::Idle, PollAction::Nothing)
            },
            _ => {
                let out = csr & 0x02 != 0 || csr & 0x40 != 0;
                let ep_out: u16 = if out { bit } else { 0 };
                let sent = csr & 0x01 != 0;
                let action = if sent {
                    self.txbanks_free = self.txbanks_free + 1;
                    PollAction::ClearTxComp
                } else {
                    PollAction::Nothing
                };
                let ep_in_complete: u16 = if sent { bit } else { 0 };
                if out || sent {
                    (PollResult::Data { ep_out, ep_in_complete, ep_setup: 0 }, action)
                } else {
                    (PollResult::Idle, action)
                }
            },
        }
    }

    /// Decides on writing a packet of `len` bytes, given the endpoint's CSR: a free
    /// endpoint, a full FIFO and a packet larger than the endpoint are refused; data
    /// received on the endpoint aborts the write. Otherwise a transmit bank is taken
    /// and the caller copies the data and sets `TXPKTRDY`.
    pub fn write(&mut self, len: usize, csr: u32) -> (r: (Result<usize, UsbError>, WriteAction))
        ensures
            ({
                let (m, result, action) = spec_write(old(self)@, len, csr);
                final(self)@ == m && r.0 == result && r.1 == action
            }),
    {
        if !self.allocated {
            return (Err(UsbError::InvalidEndpoint), WriteAction::Nothing);
        }
        let txpktrdy = csr & 0x10 != 0;
        if self.txbanks_free == 0 || (self.txbanks_free == 1 && txpktrdy) {
            return (Err(UsbError::WouldBlock), WriteAction::Nothing);
        }
        if len > self.max_packet_size() as usize {
            return (Err(UsbError::EndpointMemoryOverflow), WriteAction::Nothing);
        }
        if csr & 0x02 != 0 {
            // Data was received on the (control) endpoint: send a zero length packet.
            return (Err(UsbError::InvalidState), WriteAction::ClearTxComp);
        }
        self.txbanks_free = self.txbanks_free - 1;
        (Ok(len), WriteAction::Send)
    }

    /// Decides on reading a packet into a buffer of `len` bytes, given the endpoint's
    /// CSR. A control endpoint first hands out a zero length packet noted by `poll`,
    /// then a SETUP packet (which must be 8 bytes), then an OUT packet in bank 0. An
    /// OUT endpoint reads the full bank, the remembered one first when both are full,
    /// and alternates. A packet larger than the buffer is dropped.
    pub fn read(&mut self, len: usize, csr: u32) -> (r: (Result<usize, UsbError>, ReadAction))
        ensures
            ({
                let (m, result, action) = spec_read(old(self)@, len, csr);
                final(self)@ == m && r.0 == result && r.1 == action
            }),
    {
        if !self.allocated {
            return (Err(UsbError::InvalidEndpoint), ReadAction::Nothing);
        }
        let rxbytecnt = (csr >> 16u32) & 0x07FF;
        proof {
            assert(rxbytecnt <= 0x07FF) by (bit_vector)
                requires rxbytecnt == (csr >> 16u32) & 0x07FF;
        }
        let rxbytes = rxbytecnt as usize;
        let eptype = (csr >> 8u32) & 0x7;
        let bk0 = csr & 0x02 != 0;
        let bk1 = csr & 0x40 != 0;

        if eptype == EPTYPE_CTRL {
            if self.next_out_zlp {
                self.next_out_zlp = false;
                return (Ok(0), ReadAction::Nothing);
            }
            if csr & 0x04 != 0 {
                if rxbytes > len {
                    return (Err(UsbError::BufferOverflow), ReadAction::ClearRxSetup);
                }
                // Every SETUP packet has 8 bytes.
                if rxbytes != 8 {
                    return (Err(UsbError::InvalidState), ReadAction::ClearRxSetup);
                }
                return (Ok(rxbytes), ReadAction::ReadSetup);
            }
            if bk0 {
                if rxbytes > len {
                    return (Err(UsbError::BufferOverflow), ReadAction::ClearBank0);
                }
                return (Ok(rxbytes), ReadAction::ReadBank0);
            }
            return (Err(UsbError::WouldBlock), ReadAction::Nothing);
        }

        if !(eptype == EPTYPE_BULK_OUT || eptype == EPTYPE_INT_OUT || eptype == EPTYPE_ISO_OUT) {
            return (Err(UsbError::InvalidEndpoint), ReadAction::Nothing);
        }

        let bank = if bk0 && bk1 {
            self.next_bank
        } else if bk0 {
            NextBank::Bank0
        } else if self.dual_bank() && bk1 {
            NextBank::Bank1
        } else {
            return (Err(UsbError::WouldBlock), ReadAction::Nothing);
        };

        let overflow = rxbytes > len;
        match bank {
            NextBank::Bank0 => {
                self.next_bank = NextBank::Bank1;
                if overflow {
                    (Err(UsbError::BufferOverflow), ReadAction::ClearBank0)
                } else {
                    (Ok(rxbytes), ReadAction::ReadBank0)
                }
            },
            NextBank::Bank1 => {
                self.next_bank = NextBank::Bank0;
                if overflow {
                    (Err(UsbError::BufferOverflow), ReadAction::ClearBank1)
                } else {
                    (Ok(rxbytes), ReadAction::ReadBank1)
                }
            },
        }
    }
}

} // verus!

verus! {

/// A zero length OUT packet that polling a control endpoint acknowledged at once is
/// what the next read of that endpoint returns: an empty packet.
pub proof fn lemma_zero_length_packet_read_after_poll(
    m: EndpointModel,
    imr: u32,
    isr: u32,
    csr: u32,
    len: usize,
    next_csr: u32,
)
    requires
        spec_poll(m, imr, isr, csr).2 == PollAction::ClearRxDataBk0,
        csr_eptype(next_csr) == EPTYPE_CTRL,
    ensures
        spec_read(spec_poll(m, imr, isr, csr).0, len, next_csr).1 == Ok::<usize, UsbError>(0),
        !spec_read(spec_poll(m, imr, isr, csr).0, len, next_csr).0.next_out_zlp,
{
}

/// The transmit bank that a written packet takes is given back when polling sees
/// that the packet was sent (a non-control endpoint with its interrupt enabled and
/// pending, and no STALL sent).
pub proof fn lemma_sent_packet_returns_bank(
    m: EndpointModel,
    len: usize,
    write_csr: u32,
    imr: u32,
    isr: u32,
    poll_csr: u32,
)
    requires
        spec_write(m, len, write_csr).1 is Ok,
        m.ep_type != EndpointType::Control,
        spec_endpoint_bit(imr, m.index),
        spec_endpoint_bit(isr, m.index),
        !csr_stallsent(poll_csr),
        csr_txcomp(poll_csr),
    ensures
        spec_poll(spec_write(m, len, write_csr).0, imr, isr, poll_csr).0.txbanks_free == m.txbanks_free,
        spec_poll(spec_write(m, len, write_csr).0, imr, isr, poll_csr).2 == PollAction::ClearTxComp,
{
}

/// Reading packets from an OUT endpoint with both banks full alternates between the
/// banks: each read that finds both full takes the bank the previous read did not.
pub proof fn lemma_full_banks_read_alternately(m: EndpointModel, len: usize, csr: u32)
    requires
        m.allocated,
        csr_eptype(csr) == EPTYPE_BULK_OUT || csr_eptype(csr) == EPTYPE_INT_OUT || csr_eptype(csr) == EPTYPE_ISO_OUT,
        csr_rx_data_bk0(csr),
        csr_rx_data_bk1(csr),
    ensures
        spec_read(m, len, csr).0.next_bank != m.next_bank,
        spec_read_bank(m, csr) == Some(m.next_bank),
        spec_read_bank(spec_read(m, len, csr).0, csr) == Some(spec_read(m, len, csr).0.next_bank),
{
}

} // verus!
