use luhbots::udp::endpoint::{
    csr_clear, csr_no_change, csr_write, Endpoint, NextBank, PollAction, ReadAction, ResetPlan, WriteAction,
};
use luhbots::udp::{frm_num, EndpointAddress, EndpointType, PollResult, UsbDirection, UsbError};

#[test]
fn endpoint_zero_is_control_only() {
    let mut ep = Endpoint::new(0);
    assert_eq!(ep.allocate(EndpointType::Bulk, UsbDirection::In, 64, 0), Err(UsbError::InvalidEndpoint));
    assert_eq!(ep.allocate(EndpointType::Control, UsbDirection::Out, 64, 0), Ok(EndpointAddress(0)));
    assert!(ep.is_allocated());
    // A control endpoint can be handed out again, nothing else.
    assert_eq!(ep.allocate(EndpointType::Control, UsbDirection::In, 64, 0), Ok(EndpointAddress(0x80)));
    assert_eq!(ep.allocate(EndpointType::Interrupt, UsbDirection::In, 8, 0), Err(UsbError::InvalidEndpoint));
}

#[test]
fn allocation_checks_the_hardware() {
    let mut ep = Endpoint::new(1);
    assert_eq!(ep.allocate(EndpointType::Bulk, UsbDirection::In, 65, 0), Err(UsbError::EndpointMemoryOverflow));
    assert!(!ep.is_allocated());
    assert_eq!(ep.allocate(EndpointType::Control, UsbDirection::In, 64, 0), Err(UsbError::Unsupported));
    let mut ep3 = Endpoint::new(3);
    assert_eq!(ep3.allocate(EndpointType::Isochronous, UsbDirection::In, 64, 0), Err(UsbError::Unsupported));
    let mut ep4 = Endpoint::new(4);
    assert_eq!(ep4.allocate(EndpointType::Isochronous, UsbDirection::In, 512, 1), Ok(EndpointAddress(0x84)));
    assert_eq!(ep4.max_packet_size(), 512);
    assert_eq!(ep.allocate(EndpointType::Bulk, UsbDirection::Out, 32, 5), Ok(EndpointAddress(1)));
    assert_eq!(ep.interval(), 5);
    assert_eq!(ep.max_packet_size(), 32);
    assert_eq!(ep.address(), EndpointAddress(1));
}

#[test]
fn poll_control_endpoint() {
    let mut ep = Endpoint::new(0);
    ep.allocate(EndpointType::Control, UsbDirection::Out, 64, 0).unwrap();
    // Not pending: nothing.
    assert_eq!(ep.poll(0, 0, 0x04), (PollResult::Idle, PollAction::Nothing));
    // SETUP received (masked interrupt does not matter for control endpoints).
    assert_eq!(
        ep.poll(0, 1, 0x04),
        (PollResult::Data { ep_out: 0, ep_in_complete: 0, ep_setup: 1 }, PollAction::Nothing)
    );
    // Zero length OUT packet: acknowledged at once, read back as empty.
    assert_eq!(
        ep.poll(1, 1, 0x02),
        (PollResult::Data { ep_out: 1, ep_in_complete: 0, ep_setup: 0 }, PollAction::ClearRxDataBk0)
    );
    assert_eq!(ep.read(64, 0x0000_0000), (Ok(0), ReadAction::Nothing));
    // STALL sent.
    assert!(ep.stall());
    assert!(!ep.stall());
    assert!(ep.is_stalled());
    assert_eq!(ep.poll(1, 1, 0x08), (PollResult::Idle, PollAction::ClearStallSent));
    assert!(!ep.is_stalled());
}

#[test]
fn write_takes_and_poll_returns_a_bank() {
    let mut ep = Endpoint::new(2);
    ep.allocate(EndpointType::Bulk, UsbDirection::In, 64, 0).unwrap();
    assert_eq!(ep.write(65, 0), (Err(UsbError::EndpointMemoryOverflow), WriteAction::Nothing));
    assert_eq!(ep.write(10, 0), (Ok(10), WriteAction::Send));
    assert_eq!(ep.write(10, 0x10), (Err(UsbError::WouldBlock), WriteAction::Nothing));
    assert_eq!(ep.write(10, 0), (Ok(10), WriteAction::Send));
    assert_eq!(ep.write(10, 0), (Err(UsbError::WouldBlock), WriteAction::Nothing));
    assert_eq!(
        ep.poll(0x4, 0x4, 0x01),
        (PollResult::Data { ep_out: 0, ep_in_complete: 4, ep_setup: 0 }, PollAction::ClearTxComp)
    );
    assert_eq!(ep.write(10, 0), (Ok(10), WriteAction::Send));
    // Masked interrupt on a non-control endpoint: nothing.
    assert_eq!(ep.poll(0, 0x4, 0x01), (PollResult::Idle, PollAction::Nothing));
    // Data received meanwhile aborts a write.
    let mut ctl = Endpoint::new(0);
    ctl.allocate(EndpointType::Control, UsbDirection::Out, 8, 0).unwrap();
    assert_eq!(ctl.write(0, 0x02), (Err(UsbError::InvalidState), WriteAction::ClearTxComp));
    let mut free = Endpoint::new(5);
    assert_eq!(free.write(1, 0), (Err(UsbError::InvalidEndpoint), WriteAction::Nothing));
}

#[test]
fn read_setup_and_banks() {
    let mut ctl = Endpoint::new(0);
    ctl.allocate(EndpointType::Control, UsbDirection::Out, 64, 0).unwrap();
    assert_eq!(ctl.read(8, (8 << 16) | 0x04), (Ok(8), ReadAction::ReadSetup));
    assert_eq!(ctl.read(4, (8 << 16) | 0x04), (Err(UsbError::BufferOverflow), ReadAction::ClearRxSetup));
    assert_eq!(ctl.read(64, (7 << 16) | 0x04), (Err(UsbError::InvalidState), ReadAction::ClearRxSetup));
    assert_eq!(ctl.read(64, (3 << 16) | 0x02), (Ok(3), ReadAction::ReadBank0));
    assert_eq!(ctl.read(64, 0), (Err(UsbError::WouldBlock), ReadAction::Nothing));

    let mut out = Endpoint::new(1);
    out.allocate(EndpointType::Bulk, UsbDirection::Out, 64, 0).unwrap();
    let both = (5 << 16) | (2 << 8) | 0x42;
    assert_eq!(out.read(64, both), (Ok(5), ReadAction::ReadBank0));
    assert_eq!(out.read(64, both), (Ok(5), ReadAction::ReadBank1));
    assert_eq!(out.read(64, both), (Ok(5), ReadAction::ReadBank0));
    assert_eq!(out.read(4, (5 << 16) | (2 << 8) | 0x40), (Err(UsbError::BufferOverflow), ReadAction::ClearBank1));
    // An IN endpoint type cannot be read.
    assert_eq!(out.read(64, (6 << 8) | 0x02), (Err(UsbError::InvalidEndpoint), ReadAction::Nothing));
    let _ = NextBank::Bank0;
}

#[test]
fn reset_plan() {
    let mut ep = Endpoint::new(1);
    assert_eq!(ep.reset(), None);
    ep.allocate(EndpointType::Interrupt, UsbDirection::In, 64, 0).unwrap();
    assert_eq!(ep.reset(), Some(ResetPlan { flush_toggles: 2, eptype: 7, clear_dir: false }));
    let mut ctl = Endpoint::new(3);
    ctl.allocate(EndpointType::Control, UsbDirection::In, 64, 0).unwrap();
    assert_eq!(ctl.reset(), Some(ResetPlan { flush_toggles: 1, eptype: 0, clear_dir: true }));
    assert!(ctl.enable());
    assert_eq!(ctl.interrupt_set(), Some(8));
    assert!(ctl.interrupt(8));
    assert!(!ctl.interrupt_enabled(7));
    assert_eq!(Endpoint::new(9).interrupt_set(), None);
}

#[test]
fn unstall_recharges_banks() {
    let mut ep = Endpoint::new(2);
    ep.allocate(EndpointType::Bulk, UsbDirection::In, 64, 0).unwrap();
    ep.write(1, 0);
    ep.write(1, 0);
    assert_eq!(ep.write(1, 0).0, Err(UsbError::WouldBlock));
    ep.unstall();
    assert_eq!(ep.write(1, 0).0, Ok(1));
}

#[test]
fn registers() {
    assert_eq!(frm_num(0xFFFF_F123), 0x123);
    assert_eq!(csr_no_change(0x8000), 0x804F);
    assert_eq!(csr_clear(0xFFFF_FFFF), 0xFFFF_784F);
    assert_eq!(csr_write(0, 0x10, true), 0x5F);
    assert_eq!(csr_write(0xFF, 0x02, false), 0xFD);
    assert_eq!(UsbDirection::from_byte(0x80), UsbDirection::In);
    assert_eq!(UsbDirection::from_byte(0x21), UsbDirection::Out);
    assert_eq!(EndpointAddress::from_parts(3, UsbDirection::In), EndpointAddress(0x83));
}

#[test]
fn fifo_reset_bit_and_wait() {
    let ep = Endpoint::new(5);
    assert_eq!(ep.clear_fifo(), Some(1 << 5));
    // Waits while the reset bit reads clear and bytes are left in the FIFO.
    assert!(ep.fifo_reset_pending(0, 3 << 16));
    assert!(!ep.fifo_reset_pending(1 << 5, 3 << 16));
    assert!(!ep.fifo_reset_pending(0, 0));
    assert_eq!(Endpoint::new(8).clear_fifo(), None);
}
