use luhbots::generic_smi::{GenericSMI, StationManagement, PHY_REG_BCR, PHY_REG_BSR};

// A management interface that logs its writes and answers reads from a table.
struct Bus {
    writes: Vec<(u8, u16)>,
    bsr: u16,
    reads: Vec<u8>,
}

impl StationManagement for Bus {
    fn write_count(&self) -> usize {
        self.writes.len()
    }

    fn write_at(&self, i: usize) -> (u8, u16) {
        self.writes[i]
    }

    fn read_value(&self, reg: u8) -> u16 {
        if reg == PHY_REG_BSR {
            self.bsr
        } else {
            0
        }
    }

    fn smi_read(&mut self, reg: u8) -> u16 {
        self.reads.push(reg);
        if reg == PHY_REG_BSR {
            self.bsr
        } else {
            0
        }
    }

    fn smi_write(&mut self, reg: u8, val: u16) {
        self.writes.push((reg, val));
    }
}

#[test]
fn phy_init_writes() {
    let mut bus = Bus { writes: Vec::new(), bsr: 0, reads: Vec::new() };
    GenericSMI::phy_init(&mut bus);
    assert_eq!(bus.writes, vec![(0x0D, 0x0003), (0x0E, 0x8010), (0x0D, 0x4003), (0x0E, 0), (0x00, 0x3200)]);
    assert_eq!(GenericSMI::init_sequence(), bus.writes);
}

#[test]
fn extended_register_write() {
    let mut bus = Bus { writes: Vec::new(), bsr: 0, reads: Vec::new() };
    GenericSMI::smi_write_ext(&mut bus, 0x1234, 0xBEEF);
    assert_eq!(bus.writes, GenericSMI::write_ext_sequence(0x1234, 0xBEEF));
    assert_eq!(bus.writes[3], (0x0E, 0xBEEF));
}

#[test]
fn link_detection() {
    let mut bus = Bus { writes: Vec::new(), bsr: 0x0024, reads: Vec::new() };
    assert!(GenericSMI::poll_link(&mut bus));
    bus.bsr = 0x0020;
    assert!(!GenericSMI::poll_link(&mut bus));
    bus.bsr = 0x0004;
    assert!(!GenericSMI::poll_link(&mut bus));
    assert_eq!(bus.reads, vec![PHY_REG_BSR; 3]);
    assert!(bus.writes.is_empty());
}

#[test]
fn phy_reset() {
    let mut bus = Bus { writes: Vec::new(), bsr: 0, reads: Vec::new() };
    GenericSMI::phy_reset(&mut bus);
    assert_eq!(bus.writes, vec![(PHY_REG_BCR, 0x8000)]);
    assert!(!GenericSMI::reset_done(0x8000));
    assert!(GenericSMI::reset_done(0x3100));
}
