//! The decisions of the base station's radio round: how long to wait after sending a
//! command, and what an event of the transceiver means while an answer is awaited.
use vstd::prelude::*;

verus! {

/// What an interrupt status of the transceiver reports.
#[derive(Clone, Copy, Debug, PartialEq, Eq, Structural)]
pub enum RadioEvent {
    /// A packet was sent.
    TxDone,
    /// A packet was received.
    RxDone,
    /// Sending or receiving timed out.
    Timeout,
    /// Nothing yet.
    Pending,
}

/// What to do while an answer is awaited.
#[derive(Clone, Copy, Debug, PartialEq, Eq, Structural)]
pub enum ReceiveStep {
    /// Poll the transceiver again.
    Wait,
    /// A packet arrived: take it if its status shows no error.
    Received,
    /// No answer came: go on with the next robot.
    GiveUp,
}

/// Whether the wait after sending a command ends: once the packet is sent, or the
/// sending timed out.
pub fn transmit_finished(event: RadioEvent) -> (r: bool)
    ensures
        r == (event == RadioEvent::TxDone || event == RadioEvent::Timeout),
{
    match event {
        RadioEvent::TxDone | RadioEvent::Timeout => true,
        _ => false,
    }
}

/// What an event means while an answer is awaited: a received packet ends the wait,
/// so does a timeout; anything else is waited past.
pub fn receive_step(event: RadioEvent) -> (r: ReceiveStep)
    ensures
        r == (match event {
            RadioEvent::RxDone => ReceiveStep::Received,
            RadioEvent::Timeout => ReceiveStep::GiveUp,
            _ => ReceiveStep::Wait,
        }),
{
    match event {
        RadioEvent::RxDone => ReceiveStep::Received,
        RadioEvent::Timeout => ReceiveStep::GiveUp,
        _ => ReceiveStep::Wait,
    }
}

/// Whether a received packet is read: only when its status shows no CRC, length or
/// abort error.
pub fn packet_accepted(crc_error: bool, length_error: bool, abort_error: bool) -> (r: bool)
    ensures
        r == !(crc_error || length_error || abort_error),
{
    !(crc_error || length_error || abort_error)
}

} // verus!
