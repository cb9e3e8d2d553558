use luhbots::pdc::{Transfer, R, W};

#[test]
fn transfers_hand_back_buffer_and_peripheral() {
    let t: Transfer<R, [u8; 3], u32> = Transfer::r([1, 2, 3], 7);
    assert_eq!(t.release(), ([1, 2, 3], 7));
    let t: Transfer<W, Vec<u16>, &str> = Transfer::w(vec![9], "spi");
    assert_eq!(t.release(), (vec![9], "spi"));
}
