use luhbots::ethernet::builder::Builder;
use luhbots::ethernet::controller::{
    address_registers, alternate_address_register, configure_step, configured_dcfgr, configured_ncfgr,
    disable_all_interrupts, link_up_steps, mdc_clock_code, ncfgr_for_link, ncr_disable_receive_and_transmit,
    ncr_enable_receive_and_transmit, phy_read_data, phy_read_frame, phy_write_frame, reset_steps, ur_with_mii,
    GmacRegister, GmacStep,
};
use luhbots::ethernet::descriptor_table::DescriptorTable;
use luhbots::ethernet::eui48::Identifier;
use luhbots::ethernet::phy::bmcr::{Reader as BmcrReader, Writer as BmcrWriter};
use luhbots::ethernet::phy::bmsr::Reader as BmsrReader;
use luhbots::ethernet::phy::{
    bmcr_isolated_for_negotiation, bmcr_negotiation_enabled, bmcr_negotiation_restarted, link_state,
    negotiated_link, LinkType, Register,
};
use luhbots::ethernet::receiver::Receiver;
use luhbots::ethernet::rx::{Descriptor as RxDescriptor, Reader as RxReader, Writer as RxWriter};
use luhbots::ethernet::transmitter::Transmitter;
use luhbots::ethernet::tx::{Descriptor as TxDescriptor, Reader as TxReader, Writer as TxWriter};

#[test]
fn identifiers() {
    let id = Identifier::default();
    assert_eq!(id.as_bytes(), [2, 0, 0, 0, 0, 0]);
    // The default identifier is locally administered (bit 1 of the first octet).
    assert!(id.is_locally_administered());
    assert!(!id.is_universally_administered());
    assert!(!Identifier::new([0, 0, 0, 0, 0, 2]).is_locally_administered());
    assert!(Identifier::new([1, 0, 0, 0, 0, 0]).is_universally_administered());
}

#[test]
fn builder_settings() {
    let b = Builder::new();
    assert_eq!(b.ethernet_address().as_bytes(), [2, 0, 0, 0, 0, 0]);
    assert_eq!(b.alternate_ethernet_address_count(), 0);
    assert!(!b.has_disable_broadcast());
    assert_eq!(b.phy_address(), 0);
    let b = b
        .set_ethernet_address(Identifier::new([1, 2, 3, 4, 5, 6]))
        .add_alternate_ethernet_address(Identifier::new([7, 7, 7, 7, 7, 7]))
        .add_alternate_ethernet_address(Identifier::new([8, 8, 8, 8, 8, 8]))
        .disable_broadcast()
        .set_phy_address(3);
    assert_eq!(b.ethernet_address().as_bytes(), [1, 2, 3, 4, 5, 6]);
    assert_eq!(b.alternate_ethernet_address_count(), 2);
    assert_eq!(b.alternate_ethernet_address(1).as_bytes(), [8; 6]);
    assert!(b.has_disable_broadcast());
    assert_eq!(b.phy_address(), 3);
}

#[test]
fn network_configuration() {
    assert_eq!(mdc_clock_code(240_000_000), 5);
    assert_eq!(mdc_clock_code(120_000_000), 3);
    assert_eq!(mdc_clock_code(120_000_001), 4);
    assert_eq!(mdc_clock_code(20_000_000), 0);
    // From the reset value: CAF, MAXFS, PEN, RXCOEN and MCK/48.
    assert_eq!(configured_ncfgr(0x0008_0000, 120_000_000), 0x010C_2110);
    assert_eq!(ncfgr_for_link(0x3, LinkType::HalfDuplex10), 0);
    assert_eq!(ncfgr_for_link(0x1, LinkType::FullDuplex10), 0x2);
    assert_eq!(ncfgr_for_link(0x2, LinkType::HalfDuplex100), 0x1);
    assert_eq!(ncfgr_for_link(0, LinkType::FullDuplex100), 0x3);
    assert_eq!(configured_dcfgr(0x0002_0004), 0x0018_0004);
    assert_eq!(disable_all_interrupts(), 0x17FC_FCFF);
    assert_eq!(ncr_enable_receive_and_transmit(0x10), 0x1C);
    assert_eq!(ncr_disable_receive_and_transmit(0x1C), 0x10);
    assert_eq!(ur_with_mii(0), 1);
}

#[test]
fn management_frames() {
    // Read of the BMSR of PHY 1.
    assert_eq!(phy_read_frame(Register::Bmsr, 1), 0x6086_0000);
    // Write of 0x1234 to the ANAR of PHY 0.
    assert_eq!(phy_write_frame(Register::Anar, 0, 0x1234), 0x5012_1234);
    assert_eq!(phy_read_data(0x6086_BEEF), 0xBEEF);
    assert_eq!(Register::Pcr1.address(), 0x1E);
}

#[test]
fn address_registers_words() {
    let id = Identifier::new([0x11, 0x22, 0x33, 0x44, 0x55, 0x66]);
    assert_eq!(address_registers(&id), (0x4433_2211, 0x6655));
    assert_eq!(alternate_address_register(0), 2);
    assert_eq!(alternate_address_register(2), 4);
}

#[test]
fn reset_sequence() {
    let steps = reset_steps();
    assert_eq!(steps.len(), 9);
    assert_eq!(steps[0], GmacStep::Reset(GmacRegister::Ncr));
    assert_eq!(steps[1], GmacStep::Write(GmacRegister::Idr, 0x17FC_FCFF));
    assert_eq!(steps[4], GmacStep::Write(GmacRegister::Tsr, 0x17F));
    assert_eq!(steps[5], GmacStep::ReadIsr);
    assert_eq!(steps[8], GmacStep::Modify { register: GmacRegister::Ncr, clear: 0x8, set: 0 });
    assert_eq!(
        configure_step(150_000_000),
        GmacStep::Modify { register: GmacRegister::Ncfgr, clear: 0x001C_0000, set: 0x0110_2110 }
    );
}

#[test]
fn bring_up_after_the_link() {
    let b = Builder::new()
        .set_ethernet_address(Identifier::new([1, 2, 3, 4, 5, 6]))
        .add_alternate_ethernet_address(Identifier::new([9, 9, 9, 9, 9, 9]));
    let steps = link_up_steps(LinkType::FullDuplex100, &b, 0x2000_0000, 0x2000_1000);
    assert_eq!(
        steps,
        vec![
            GmacStep::Modify { register: GmacRegister::Ncfgr, clear: 0, set: 3 },
            GmacStep::Modify { register: GmacRegister::Ur, clear: 0, set: 1 },
            GmacStep::Write(GmacRegister::Sab(1), 0x0403_0201),
            GmacStep::Write(GmacRegister::Sat(1), 0x0605),
            GmacStep::Write(GmacRegister::Sab(2), 0x0909_0909),
            GmacStep::Write(GmacRegister::Sat(2), 0x0909),
            GmacStep::Write(GmacRegister::Rbqb, 0x2000_0000),
            GmacStep::Write(GmacRegister::Tbqb, 0x2000_1000),
            GmacStep::Modify { register: GmacRegister::Dcfgr, clear: 0x00FF_00DF, set: 0x0018_0004 },
            GmacStep::Modify { register: GmacRegister::Ncr, clear: 0, set: 0x4 },
            GmacStep::Modify { register: GmacRegister::Ncr, clear: 0, set: 0x8 },
        ]
    );
}

#[test]
fn phy_registers() {
    let status = BmsrReader::new(0x6024);
    assert!(status.link_detected());
    assert!(status.auto_negotiation_complete());
    assert!(status.is_100mbit());
    assert!(!status._is_10mbit());
    assert!(!status._is_full_duplex());
    assert_eq!(status._speed(), 100);
    assert_eq!(BmsrReader::new(0x1804)._speed(), 10);
    assert_eq!(link_state(status), Some(100));
    assert_eq!(link_state(BmsrReader::new(0x1804)), Some(10));
    assert_eq!(link_state(BmsrReader::new(0x6000)), None);
    assert!(BmcrReader::new(0x8000).reset().is_set());
    assert!(!BmcrReader::new(0x7FFF).reset().is_set());
    assert_eq!(BmcrWriter::new(0).set_reset().0, 0x8000);
}

#[test]
fn auto_negotiation() {
    assert_eq!(bmcr_isolated_for_negotiation(0x5800), 0x0400);
    assert_eq!(bmcr_negotiation_enabled(0x0400), 0x3500);
    assert_eq!(bmcr_negotiation_restarted(0x3500), 0x3300);
    assert_eq!(negotiated_link(true, true, true), LinkType::FullDuplex100);
    assert_eq!(negotiated_link(false, true, true), LinkType::HalfDuplex100);
    assert_eq!(negotiated_link(false, false, true), LinkType::FullDuplex10);
    assert_eq!(negotiated_link(false, false, false), LinkType::HalfDuplex10);
}

#[test]
fn descriptor_words() {
    let r = RxReader(0x1, 0x0040_05EA);
    assert!(r.owned());
    assert_eq!(r.buffer_size(), 0x5EA);
    assert!(r.checksum_checked());
    assert!(!RxReader(0, 0x0080_0000).checksum_checked());
    let w = RxWriter(0, 0).set_address(0x2000_0100).set_owned().set_wrap();
    assert_eq!((w.0, w.1), (0x2000_0103, 0));
    let w = w.clear_owned();
    assert_eq!(w.0, 0x2000_0102);
    let t = TxReader(0, 0xB800_0000);
    assert!(t.used());
    assert!(t.retry_exceeded());
    assert!(t.underran());
    assert!(t.corrupted());
    assert!(!t.collided());
    let w = TxWriter(0, 0).set_buffer_size(64).set_last().set_used().set_wrap();
    assert_eq!(w.1, 0xC000_8040);
    let w = w.clear_used().clear_crc();
    assert_eq!(w.1, 0x4000_8040);
    let mut d = TxDescriptor(0, 0);
    d.write(|w| w.set_address(0x100).set_used());
    assert_eq!((d.0, d.1), (0x100, 0x8000_0000));
    d.modify(|w| w.set_buffer_size(10));
    assert_eq!(d.read().1, 0x8000_000A);
    let mut r = RxDescriptor(0x4, 0x7);
    r.modify(|w| w.set_owned());
    assert_eq!((r.0, r.1), (0x5, 0x7));
}

#[test]
fn receiving_through_the_table() {
    let mut table: DescriptorTable<RxDescriptor, 2> = DescriptorTable::new();
    table.initialize(&[0x100, 0x200]);
    assert_eq!(table.next_entry(), 0);
    assert_eq!((table.next_descriptor().0, table.next_descriptor().1), (0x100, 0));
    let mut rx = Receiver::new(table);
    assert!(!rx.can_receive());
    assert_eq!(rx.receive(1536), None);
    // The controller hands over a frame of 60 bytes in entry 0.
    rx.descriptors.set_next_descriptor(RxDescriptor(0x101, 60));
    assert!(rx.can_receive());
    assert_eq!(rx.receive(1536), Some(60));
    assert_eq!(rx.descriptors.next_entry(), 1);
    // The second entry is the last one and wraps back.
    assert_eq!(rx.descriptors.next_descriptor().0, 0x202);
    rx.descriptors.consume_next_descriptor();
    assert_eq!(rx.descriptors.next_entry(), 0);
    assert_eq!(rx.descriptors.next_descriptor().0, 0x100);
}

#[test]
fn transmitting_through_the_table() {
    let mut table: DescriptorTable<TxDescriptor, 2> = DescriptorTable::new();
    table.initialize(&[0x100, 0x200]);
    let mut tx = Transmitter::new(table);
    assert!(tx.can_transmit());
    assert!(tx.send(60));
    let d = tx.descriptors.next_descriptor();
    assert_eq!((d.0, d.1), (0x100, 0x0000_803C));
    // The controller owns the descriptor now.
    assert!(!tx.can_transmit());
    assert!(!tx.send(60));
}
