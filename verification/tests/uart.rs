use luhbots::uart::{append_crc, decode_frame, frame_message, FrameError};

#[test]
fn crc_is_appended_big_endian() {
    assert_eq!(append_crc(&[1, 2], 0xABCD), vec![1, 2, 0xAB, 0xCD]);
    assert_eq!(append_crc(&[], 0x0001), vec![0, 1]);
}

#[test]
fn frames_are_cobs_encoded_and_end_with_zero() {
    let frame = frame_message::<16>(&[1, 0, 2]).unwrap();
    // The checksum of no data (0x6363) is appended, then the whole is encoded.
    assert_eq!(frame, vec![0x02, 0x01, 0x04, 0x02, 0x63, 0x63, 0x00]);
    assert_eq!(frame.len(), 3 + 4);
    assert!(frame[..frame.len() - 1].iter().all(|b| *b != 0));
}

#[test]
fn frames_decode_to_the_message_and_checksum() {
    let frame = frame_message::<16>(&[7, 0, 0, 9]).unwrap();
    assert_eq!(decode_frame(&frame[..frame.len() - 1]).unwrap(), vec![7, 0, 0, 9, 0x63, 0x63]);
}

#[test]
fn frames_that_do_not_fit() {
    assert_eq!(frame_message::<7>(&[1, 0, 2]).map(|f| f.len()), Ok(7));
    assert_eq!(frame_message::<6>(&[1, 0, 2]), Err(FrameError::SerializeBufferFull));
}

#[test]
fn invalid_frames() {
    // A code byte that points past the end of the frame.
    assert_eq!(decode_frame(&[0x05, 0x01]), Err(FrameError::Cobs));
}

#[test]
fn long_frames_decode_back() {
    // Messages across the 254 byte block boundary, with and without zeros.
    for len in [252usize, 253, 254, 255, 300, 600] {
        for with_zeros in [false, true] {
            let payload: Vec<u8> = (0..len).map(|i| if with_zeros && i % 97 == 3 { 0 } else { (i % 251 + 1) as u8 }).collect();
            let frame = frame_message::<1024>(&payload).unwrap();
            assert_eq!(*frame.last().unwrap(), 0);
            assert!(frame[..frame.len() - 1].iter().all(|b| *b != 0));
            let mut expected = payload.clone();
            expected.extend_from_slice(&[0x63, 0x63]);
            assert_eq!(decode_frame(&frame).unwrap(), expected);
            assert_eq!(decode_frame(&frame[..frame.len() - 1]).unwrap(), expected);
        }
    }
}
