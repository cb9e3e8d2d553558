//! Framing of the messages between the main and the motor controller on their UART
//! link: a serialized message gets a CRC-16 (ISO/IEC 14443-3 type A) appended, big
//! endian, and the whole is COBS encoded and ended by a zero byte. Received frames
//! are COBS decoded; the message is read from the start of the decoded bytes.
//!
//! The CRC appended is that of no data at all: the checksum of the message bytes is
//! taken from a digest that is made anew, and thrown away, for every byte, so the
//! final digest has seen nothing. The receiving side never compares the CRC.
use vstd::prelude::*;

verus! {

/// The CRC-16 (ISO/IEC 14443-3 type A) of some bytes.
pub uninterp spec fn spec_crc16_a(data: Seq<u8>) -> u16;

/// The COBS encoding of some bytes as postcard's COBS flavor writes it: a leading
/// code byte, the encoded data and a terminating zero.
pub uninterp spec fn spec_cobs_frame(data: Seq<u8>) -> Seq<u8>;

/// What COBS decoding of a frame gives, if it is a valid frame.
pub uninterp spec fn spec_cobs_decode(frame: Seq<u8>) -> Option<Seq<u8>>;

/// The CRC-16/ISO-IEC-14443-3-A of `data`, by `crc::Crc::<u16>::checksum`: its
/// result is named; of no data at all it is the algorithm's initial value 0xC6C6
/// bit-reversed, 0x6363 (no byte is processed, and the output is not reflected again
/// nor xored).
#[verifier::external_body]
fn crc16_a(data: &[u8]) -> (r: u16)
    ensures
        r == spec_crc16_a(data@),
        data@.len() == 0 ==> r == 0x6363,
{
    crc::Crc::<u16>::new(&crc::CRC_16_ISO_IEC_14443_3_A).checksum(data)
}

/// COBS encodes `data` into at most `N` bytes with postcard's `Cobs` flavor over an
/// `HVec<N>`: the frame, or none if it does not fit. Claimed of postcard's encoder:
/// the frame ends with its only zero byte, data shorter than 254 bytes grows by
/// exactly two bytes (the leading code byte and the terminator), and the frame
/// decodes (as `cobs_decode` decodes) back to `data`.
#[verifier::external_body]
fn cobs_frame<const N: usize>(data: &[u8]) -> (r: Option<Vec<u8>>)
    ensures
        r is None <==> spec_cobs_frame(data@).len() > N,
        r matches Some(v) ==> {
            &&& v@ == spec_cobs_frame(data@)
            &&& data@.len() < 254 ==> v@.len() == data@.len() + 2
            &&& v@.len() >= 2
            &&& v@.last() == 0
            &&& forall|i: int| 0 <= i < v@.len() - 1 ==> #[trigger] v@[i] != 0
            &&& spec_cobs_decode(v@) == Some(data@)
        },
{
    let mut f = postcard::ser_flavors::Cobs::try_new(postcard::ser_flavors::HVec::<N>::default()).ok()?;
    postcard::ser_flavors::Flavor::try_extend(&mut f, data).ok()?;
    postcard::ser_flavors::Flavor::finalize(f).ok().map(|v| v.to_vec())
}

/// COBS decodes a frame with `cobs::decode` (into a buffer as long as the frame):
/// the decoded bytes, or none for an invalid frame. Its result is named.
#[verifier::external_body]
fn cobs_decode(frame: &[u8]) -> (r: Option<Vec<u8>>)
    ensures
        match r {
            Some(v) => spec_cobs_decode(frame@) == Some(v@),
            None => spec_cobs_decode(frame@) is None,
        },
{
    let mut dest = vec![0u8; frame.len()];
    let n = cobs::decode(frame, &mut dest[..]).ok()?;
    dest.truncate(n);
    Some(dest)
}

/// Errors of the framing.
#[derive(Clone, Copy, Debug, PartialEq, Eq, Structural)]
pub enum FrameError {
    /// The frame does not fit in the send buffer.
    SerializeBufferFull,
    /// The received bytes are not a valid COBS frame.
    Cobs,
}

/// The frame of a serialized message: the message with the CRC of no data appended,
/// COBS encoded.
pub open spec fn spec_frame(payload: Seq<u8>) -> Seq<u8> {
    spec_cobs_frame(spec_with_crc(payload, spec_crc16_a(Seq::empty())))
}

/// The bytes of a message followed by a CRC, big endian.
pub open spec fn spec_with_crc(payload: Seq<u8>, crc: u16) -> Seq<u8> {
    payload + seq![(crc >> 8u16) as u8, (crc & 0xFF) as u8]
}

/// Appends `crc` to the message bytes, most significant byte first.
pub fn append_crc(payload: &[u8], crc: u16) -> (r: Vec<u8>)
    ensures r@ == spec_with_crc(payload@, crc),
{
    let mut data: Vec<u8> = Vec::new();
    let mut i: usize = 0;
    while i < payload.len()
        invariant
            i <= payload.len(),
            data@ == payload@.subrange(0, i as int),
        decreases payload.len() - i,
    {
        data.push(payload[i]);
        i = i + 1;
        assert(data@ =~= payload@.subrange(0, i as int));
    }
    let high = (crc >> 8u16) as u8;
    let low = (crc & 0xFF) as u8;
    data.push(high);
    data.push(low);
    assert(data@ =~= spec_with_crc(payload@, crc));
    data
}

/// Frames a serialized message for the link with a send buffer of `N` bytes. A
/// frame decodes back to the message followed by the two CRC bytes.
pub fn frame_message<const N: usize>(payload: &[u8]) -> (r: Result<Vec<u8>, FrameError>)
    ensures
        match r {
            Ok(v) => v@ == spec_frame(payload@) && spec_frame(payload@).len() <= N,
            Err(e) => e == FrameError::SerializeBufferFull && spec_frame(payload@).len() > N,
        },
        r matches Ok(v) ==> {
            &&& payload@.len() < 252 ==> v@.len() == payload@.len() + 4
            &&& v@.last() == 0
            &&& forall|i: int| 0 <= i < v@.len() - 1 ==> #[trigger] v@[i] != 0
            &&& spec_cobs_decode(v@) == Some(spec_with_crc(payload@, spec_crc16_a(Seq::empty())))
            &&& spec_cobs_decode(v@) == Some(payload@ + seq![0x63u8, 0x63u8])
        },
{
    let empty: [u8; 0] = [];
    let crc = crc16_a(&empty);
    assert(empty@ =~= Seq::<u8>::empty());
    assert(crc == 0x6363);
    assert((crc >> 8u16) as u8 == 0x63u8 && (crc & 0xFF) as u8 == 0x63u8) by (bit_vector)
        requires crc == 0x6363u16;
    assert(spec_with_crc(payload@, crc) =~= payload@ + seq![0x63u8, 0x63u8]);
    let data = append_crc(payload, crc);
    match cobs_frame::<N>(data.as_slice()) {
        Some(v) => Ok(v),
        None => Err(FrameError::SerializeBufferFull),
    }
}

/// Decodes a received frame into the bytes the message is read from (the CRC bytes
/// are among them, at the end, and are not checked).
pub fn decode_frame(frame: &[u8]) -> (r: Result<Vec<u8>, FrameError>)
    ensures
        match r {
            Ok(v) => spec_cobs_decode(frame@) == Some(v@),
            Err(e) => e == FrameError::Cobs && spec_cobs_decode(frame@) is None,
        },
{
    match cobs_decode(frame) {
        Some(v) => Ok(v),
        None => Err(FrameError::Cobs),
    }
}

/// Send buffer sizes of the messages to the motor controller: driving 16, kicking
/// and chipping 10, the dribbler sensor 7, the charge hint and the capacitor
/// calibration 8 bytes; and to the main controller: velocity 16, capacitor voltage 8.
pub const DRIVE_FRAME: usize = 16;
pub const KICK_FRAME: usize = 10;
pub const BALL_FRAME: usize = 7;
pub const CHARGE_HINT_FRAME: usize = 8;
pub const VELOCITY_FRAME: usize = 16;
pub const CAP_VOLTAGE_FRAME: usize = 8;

} // verus!
