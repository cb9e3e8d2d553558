use luhbots::efc::{EfcError, Efc, FlashCommandPort, FlashErrorKind, FLASH0_ADDR, FLASH0_SIZE};
use std::collections::VecDeque;

// A controller that records the commands written to it, ends each with the next
// queued status (ready by default) and answers result reads from a queue.
struct Port {
    commands: Vec<u32>,
    statuses: VecDeque<u32>,
    results: VecDeque<u32>,
    sequences: Vec<(u32, u32, usize)>,
}

impl Port {
    fn new() -> Port {
        Port { commands: Vec::new(), statuses: VecDeque::new(), results: VecDeque::new(), sequences: Vec::new() }
    }
}

impl FlashCommandPort for Port {
    fn perform_fcr(&mut self, fcr: u32) -> u32 {
        self.commands.push(fcr);
        self.statuses.pop_front().unwrap_or(1)
    }

    fn read_result(&mut self) -> u32 {
        self.results.pop_front().unwrap_or(0)
    }

    fn wait_ready(&mut self) {}

    fn perform_read_sequence(&mut self, start_cmd: u32, stop_cmd: u32, buf: &mut [u32], len: usize) -> u32 {
        self.sequences.push((start_cmd, stop_cmd, len));
        for (i, w) in buf[..len].iter_mut().enumerate() {
            *w = 0xA0 + i as u32;
        }
        0
    }
}

fn efc(port: Port, words: usize) -> Efc<Port> {
    Efc::new(port, Box::leak(vec![0u32; words].into_boxed_slice()))
}

#[test]
fn gpnvm_bits() {
    let mut port = Port::new();
    port.results.push_back(0b10);
    let mut e = efc(port, 4);
    assert_eq!(e.is_gpnvm_set(1), Ok(true));
    assert_eq!(e.is_gpnvm_set(2), Err(EfcError::InvalidGpnvmBitError));
    let (port, _) = e.free();
    // GGPB with argument 1.
    assert_eq!(port.commands, vec![0x5A00_010D]);
}

#[test]
fn setting_a_gpnvm_bit_only_when_it_differs() {
    let mut e = efc(Port::new(), 4);
    // The query reads 0: the bit is clear, so it is set.
    assert_eq!(e.set_gpnvm(1), Ok(()));
    let (mut port, storage) = e.free();
    assert_eq!(port.commands, vec![0x5A00_010D, 0x5A00_010B]);
    port.commands.clear();
    port.results.push_back(0b1);
    let mut e = Efc::new(port, storage);
    assert_eq!(e.enable_security_bit(), Ok(()));
    assert_eq!(e.free().0.commands, vec![0x5A00_000D]);
}

#[test]
fn command_errors() {
    let mut port = Port::new();
    port.statuses.push_back(0x3);
    port.statuses.push_back(0x5);
    port.statuses.push_back(0x9);
    let mut e = efc(port, 4);
    assert_eq!(e.clear_gpnvm(0), Err(EfcError::CommandError));
    assert_eq!(e.erase_user_signature(), Err(EfcError::LockError));
    assert_eq!(e.is_security_bit_enabled(), Err(EfcError::FlashError));
    assert_eq!(e.free().0.commands, vec![0x5A00_000D, 0x5A00_0013, 0x5A00_000D]);
}

#[test]
fn unique_id_and_user_signature() {
    let mut e = efc(Port::new(), 4);
    assert_eq!(e.read_unique_id(), Ok([0xA0, 0xA1, 0xA2, 0xA3]));
    let mut sig = [0u32; 3];
    assert_eq!(e.read_user_signature(&mut sig, 2), Ok(()));
    assert_eq!(sig, [0xA0, 0xA1, 0]);
    assert_eq!(e.read_user_signature(&mut sig, 4), Err(EfcError::InvalidBufferSizeError));
    assert_eq!(e.read_user_signature(&mut sig, 129), Err(EfcError::InvalidUserSignatureSizeError));
    assert_eq!(e.write_user_signature(&[5, 6]), Ok(()));
    assert_eq!(e.write_user_signature(&[0; 129]), Err(EfcError::InvalidUserSignatureSizeError));
    let (port, storage) = e.free();
    assert_eq!(port.sequences, vec![(14, 15, 4), (20, 21, 2)]);
    assert_eq!(port.commands, vec![0x5A00_0012]);
    assert_eq!(&storage[..], &[5, 6, 0, 0][..]);
}

#[test]
fn locking_whole_regions() {
    let mut e = efc(Port::new(), 4);
    assert_eq!(e.lock(FLASH0_ADDR + 100, FLASH0_ADDR + 200), Ok((FLASH0_ADDR, FLASH0_ADDR + 0x1FFF)));
    assert_eq!(e.unlock(FLASH0_ADDR + 0x4_0000, FLASH0_ADDR + 0x4_2000), Ok((FLASH0_ADDR + 0x4_0000, FLASH0_ADDR + 0x4_3FFF)));
    assert_eq!(e.lock(0x10_0000, 0x10_0010), Err(EfcError::AddressBoundsError));
    // One command for the first page of each region in the range: SLB for page 0,
    // CLB for pages 512 and 528.
    assert_eq!(e.free().0.commands, vec![0x5A00_0008, 0x5A02_0009, 0x5A02_1009]);
}

#[test]
fn a_failing_lock_stops() {
    let mut port = Port::new();
    port.statuses.push_back(1);
    port.statuses.push_back(0x5);
    let mut e = efc(port, 4);
    assert_eq!(e.lock(FLASH0_ADDR, FLASH0_ADDR + 0x6000), Err(EfcError::LockError));
    assert_eq!(e.free().0.commands, vec![0x5A00_0008, 0x5A00_1008]);
}

#[test]
fn reading_words_big_endian() {
    let storage = Box::leak(vec![0x0102_0304u32, 0x0506_0708, 0x090A_0B0C].into_boxed_slice());
    let mut e = Efc::new(Port::new(), storage);
    let mut bytes = [0u8; 8];
    assert_eq!(e.read(0, &mut bytes), Ok(()));
    assert_eq!(bytes, [1, 2, 3, 4, 5, 6, 7, 8]);
    assert_eq!(e.read(2, &mut bytes), Err(EfcError::Unaligned));
    assert_eq!(e.read(FLASH0_SIZE - 4, &mut bytes), Err(EfcError::Unaligned));
    assert!(e.free().0.commands.is_empty());
}

#[test]
fn writing_words() {
    let mut e = efc(Port::new(), 4);
    assert_eq!(e.write(0, &[1, 2, 3, 4, 5, 6, 7, 8]), Ok(()));
    assert_eq!(e.write(0, &[1, 2, 3]), Err(EfcError::Unaligned));
    assert_eq!(e.write(2, &[1, 2, 3, 4]), Err(EfcError::Unaligned));
    assert_eq!(e.write(FLASH0_SIZE - 4, &[0; 8]), Err(EfcError::AddressBoundsError));
    let (port, storage) = e.free();
    // Two words within a page commit nothing.
    assert!(port.commands.is_empty());
    assert_eq!(&storage[..2], &[0x0102_0304, 0x0506_0708][..]);
    // A single word commits its page.
    let mut e = Efc::new(port, storage);
    assert_eq!(e.write(0, &[9, 9, 9, 9]), Ok(()));
    let (port, storage) = e.free();
    assert_eq!(port.commands, vec![0x5A00_0001]);
    assert_eq!(storage[0], 0x0909_0909);
}

#[test]
fn erasing() {
    let mut e = efc(Port::new(), 4);
    assert_eq!(e.erase(0, 0), Ok(()));
    assert_eq!(e.erase(4096, 0), Err(EfcError::AddressBoundsError));
    assert_eq!(e.erase(1, 4096), Err(EfcError::NotWithinFlashPageBoundsError));
    assert_eq!(e.erase(0, 0x10_0000), Err(EfcError::AddressBoundsError));
    assert_eq!(e.capacity(), 0x10_0000);
    let (port, _) = e.free();
    assert!(port.commands.is_empty());
}

#[test]
fn erasing_aligned_blocks_issues_one_page_erase_each() {
    let mut e = efc(Port::new(), 4);
    assert_eq!(e.erase(0, 4096), Ok(()));
    assert_eq!(e.erase(4096, 12288), Ok(()));
    let (port, _) = e.free();
    // EPA with eight pages (code 1) from pages 0, 8 and 16.
    assert_eq!(port.commands, vec![0x5A00_0107, 0x5A00_0907, 0x5A00_1107]);
}

#[test]
fn erasing_stops_at_the_first_failing_block() {
    let mut port = Port::new();
    port.statuses.push_back(1);
    port.statuses.push_back(4);
    let mut e = efc(port, 4);
    assert_eq!(e.erase(0, 16384), Err(EfcError::LockError));
    let (port, _) = e.free();
    assert_eq!(port.commands, vec![0x5A00_0107, 0x5A00_0907]);
}

#[test]
fn out_of_range_lock_queries() {
    let mut e = efc(Port::new(), 4);
    assert_eq!(e.is_locked(0, 0x10), Err(EfcError::AddressBoundsError));
    assert_eq!(EfcError::Unaligned.kind(), FlashErrorKind::NotAligned);
    assert_eq!(EfcError::AddressBoundsError.kind(), FlashErrorKind::OutOfBounds);
    assert_eq!(EfcError::LockError.kind(), FlashErrorKind::Other);
}

#[test]
fn read_gives_back_what_was_written() {
    let mut e = efc(Port::new(), 4);
    let data = [0xDE, 0xAD, 0xBE, 0xEF, 0x00, 0x01, 0x02, 0x03];
    assert_eq!(e.write(0, &data), Ok(()));
    let mut back = [0u8; 8];
    assert_eq!(e.read(0, &mut back), Ok(()));
    assert_eq!(back, data);
}

#[test]
fn a_lock_in_the_upper_flash() {
    let mut e = efc(Port::new(), 4);
    // The last region of the flash: pages 2032..=2047.
    assert_eq!(
        e.lock(FLASH0_ADDR + FLASH0_SIZE - 0x100, FLASH0_ADDR + FLASH0_SIZE - 1),
        Ok((FLASH0_ADDR + FLASH0_SIZE - 0x2000, FLASH0_ADDR + FLASH0_SIZE - 1))
    );
    assert_eq!(e.free().0.commands, vec![0x5A00_0008 | (2032 << 8)]);
}

#[test]
fn counting_locked_regions() {
    let mut port = Port::new();
    port.results.push_back(0b101);
    let mut e = efc(port, 4);
    // Regions 0..=16 are in the first lock bit word; regions 0 and 2 are locked.
    assert_eq!(e.is_locked(FLASH0_ADDR, FLASH0_ADDR + 0x2_0000), Ok(2));
    let (mut port, storage) = e.free();
    assert_eq!(port.commands, vec![0x5A00_000A]);
    // Regions 31..=33 span two words.
    port.commands.clear();
    port.results.push_back(0x8000_0000);
    port.results.push_back(0b10);
    let mut e = Efc::new(port, storage);
    assert_eq!(e.is_locked(FLASH0_ADDR + 0x3_E000, FLASH0_ADDR + 0x4_2000), Ok(2));
    // A failing lock bit query.
    let (mut port, storage) = e.free();
    port.statuses.push_back(0x3);
    let mut e = Efc::new(port, storage);
    assert_eq!(e.is_locked(FLASH0_ADDR, FLASH0_ADDR + 4), Err(EfcError::CommandError));
}
