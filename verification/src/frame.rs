//! Frame codec: building and parsing the two frame kinds.
//!
//! A frame is laid out as
//! `[ start ][ type ][ length ][ payload.. ][ crc_lo ][ crc_hi ][ end ]`
//! with a one-byte start sentinel 0x7f, a one-byte end sentinel 0xfe, a
//! type byte (0x44 data, 0x43 control), an 8-bit payload length, and a
//! 16-bit CRC over the payload bytes alone, stored low byte first.
//!
//! Although the length field could name up to 255 payload bytes, the
//! implementation caps whole frames at 86 bytes, so the effective payload
//! ceiling is 80 bytes; both the build and the parse side enforce it.
//! Control frames carry a single discriminant byte as payload and are
//! always exactly 7 bytes long.

use vstd::prelude::*;

use crate::crc16::{crc16, crc16_spec};

verus! {

/// First byte of every frame.
pub const FRAME_START: u8 = 0x7f;

/// Last byte of every frame.
pub const FRAME_END: u8 = 0xfe;

/// Type byte of a frame carrying an application payload.
pub const FRAME_TYPE_DATA: u8 = 0x44;

/// Type byte of a frame carrying a control discriminant.
pub const FRAME_TYPE_CTRL: u8 = 0x43;

/// Largest whole frame the implementation accepts.
pub const FRAME_SIZE_MAX: usize = 86;

/// Control frames are always exactly this long.
pub const FRAME_CTRL_SIZE: usize = 7;

/// Effective payload ceiling: the frame cap less the six header and
/// trailer bytes.
pub const PAYLOAD_MAX: usize = FRAME_SIZE_MAX - 6;

/// The discriminants carried by control frames: one acknowledgment, three
/// failure signals, and a liveness probe.
#[derive(Clone, Copy, Debug, PartialEq, Eq, Structural)]
pub enum ControlType {
    Ack,
    CRCFail,
    Oversize,
    InvalidFrame,
    Heartbeat,
}

/// The ways a byte sequence can fail to be a well-formed frame.
#[derive(Clone, Copy, Debug, PartialEq, Eq, Structural)]
pub enum FrameError {
    /// The declared payload length exceeds the effective ceiling.
    Oversize,
    /// A sentinel, the type byte, the length, or (for control frames) the
    /// discriminant is wrong.
    InvalidFrame,
    /// The stored CRC does not match one recomputed over the payload.
    CRCFail,
}

/// The wire byte standing for a control discriminant.
pub open spec fn ctrl_value_spec(c: ControlType) -> u8 {
    match c {
        ControlType::Ack => 0x01,
        ControlType::CRCFail => 0x02,
        ControlType::Oversize => 0x03,
        ControlType::InvalidFrame => 0x04,
        ControlType::Heartbeat => 0x05,
    }
}

/// The control discriminant a wire byte stands for, if any.
pub open spec fn ctrl_from_value_spec(b: u8) -> Option<ControlType> {
    match b {
        0x01 => Some(ControlType::Ack),
        0x02 => Some(ControlType::CRCFail),
        0x03 => Some(ControlType::Oversize),
        0x04 => Some(ControlType::InvalidFrame),
        0x05 => Some(ControlType::Heartbeat),
        _ => None,
    }
}

impl ControlType {
    /// The wire byte of this discriminant.
    pub fn value(&self) -> (b: u8)
        ensures
            b == ctrl_value_spec(*self),
    {
        match *self {
            ControlType::Ack => 0x01,
            ControlType::CRCFail => 0x02,
            ControlType::Oversize => 0x03,
            ControlType::InvalidFrame => 0x04,
            ControlType::Heartbeat => 0x05,
        }
    }

    /// The discriminant a wire byte stands for; `None` on a byte no
    /// control frame may carry.
    pub fn from_value(b: u8) -> (r: Option<ControlType>)
        ensures
            r == ctrl_from_value_spec(b),
    {
        match b {
            0x01 => Some(ControlType::Ack),
            0x02 => Some(ControlType::CRCFail),
            0x03 => Some(ControlType::Oversize),
            0x04 => Some(ControlType::InvalidFrame),
            0x05 => Some(ControlType::Heartbeat),
            _ => None,
        }
    }
}

/// Low byte of a CRC, as stored first in the trailer.
pub open spec fn crc_lo(c: u16) -> u8 {
    (c & 0xff) as u8
}

/// High byte of a CRC, as stored second in the trailer.
pub open spec fn crc_hi(c: u16) -> u8 {
    (c >> 8) as u8
}

/// The wire bytes of a frame of type `ftype` around `payload`.
pub open spec fn frame_spec(ftype: u8, payload: Seq<u8>) -> Seq<u8> {
    seq![FRAME_START, ftype, payload.len() as u8] + payload + seq![
        crc_lo(crc16_spec(payload)),
        crc_hi(crc16_spec(payload)),
        FRAME_END,
    ]
}

/// The wire bytes of a data frame around `payload`.
pub open spec fn data_frame_spec(payload: Seq<u8>) -> Seq<u8> {
    frame_spec(FRAME_TYPE_DATA, payload)
}

/// The wire bytes of the control frame carrying `c`.
pub open spec fn control_frame_spec(c: ControlType) -> Seq<u8> {
    frame_spec(FRAME_TYPE_CTRL, seq![ctrl_value_spec(c)])
}

/// The 16-bit CRC stored in a frame whose payload is `n` bytes long,
/// read low byte first.
pub open spec fn stored_crc_spec(f: Seq<u8>, n: int) -> u16 {
    (f[n + 3] as u16) | ((f[n + 4] as u16) << 8)
}

/// What parsing a byte sequence as a data frame yields: the payload, or
/// the first failed validation in the order the receive path checks them
/// (declared length against the ceiling, then structure, then CRC).
pub open spec fn parse_data_spec(f: Seq<u8>) -> Result<Seq<u8>, FrameError> {
    if f.len() < 3 {
        Err(FrameError::InvalidFrame)
    } else if f[2] > PAYLOAD_MAX as u8 {
        Err(FrameError::Oversize)
    } else if f.len() != f[2] + 6 {
        Err(FrameError::InvalidFrame)
    } else if f[0] != FRAME_START || f[1] != FRAME_TYPE_DATA || f[f.len() - 1] != FRAME_END {
        Err(FrameError::InvalidFrame)
    } else if stored_crc_spec(f, f[2] as int) != crc16_spec(f.subrange(3, 3 + f[2])) {
        Err(FrameError::CRCFail)
    } else {
        Ok(f.subrange(3, 3 + f[2]))
    }
}

/// What parsing a byte sequence as a control frame yields: the
/// discriminant, or the first failed validation (structure, then CRC,
/// then the discriminant itself).
pub open spec fn parse_control_spec(f: Seq<u8>) -> Result<ControlType, FrameError> {
    if f.len() != FRAME_CTRL_SIZE {
        Err(FrameError::InvalidFrame)
    } else if f[0] != FRAME_START || f[1] != FRAME_TYPE_CTRL || f[2] != 1 || f[6] != FRAME_END {
        Err(FrameError::InvalidFrame)
    } else if stored_crc_spec(f, 1) != crc16_spec(seq![f[3]]) {
        Err(FrameError::CRCFail)
    } else {
        match ctrl_from_value_spec(f[3]) {
            Some(c) => Ok(c),
            None => Err(FrameError::InvalidFrame),
        }
    }
}

/// Build the data frame around a payload.
pub fn make_data_frame(payload: &[u8]) -> (f: Vec<u8>)
    requires
        payload@.len() <= PAYLOAD_MAX,
    ensures
        f@ == data_frame_spec(payload@),
        f@.len() == payload@.len() + 6,
{
    let mut frame: Vec<u8> = Vec::new();
    frame.push(FRAME_START);
    frame.push(FRAME_TYPE_DATA);
    frame.push(payload.len() as u8);
    let mut i: usize = 0;
    while i < payload.len()
        invariant
            i <= payload@.len(),
            payload@.len() <= PAYLOAD_MAX,
            frame@ == seq![FRAME_START, FRAME_TYPE_DATA, payload@.len() as u8] + payload@.take(
                i as int,
            ),
        decreases payload@.len() - i,
    {
        frame.push(payload[i]);
        proof {
            assert(payload@.take(i + 1) =~= payload@.take(i as int).push(payload@[i as int]));
        }
        i = i + 1;
    }
    proof {
        assert(payload@.take(payload@.len() as int) =~= payload@);
    }
    let crc = crc16(payload);
    proof {
        assert(crc & 0xff <= 0xff) by (bit_vector);
        assert(crc >> 8 <= 0xff) by (bit_vector);
    }
    frame.push((crc & 0xff) as u8);
    frame.push((crc >> 8) as u8);
    frame.push(FRAME_END);
    proof {
        assert(frame@ =~= data_frame_spec(payload@));
    }
    frame
}

/// Build the 7-byte control frame carrying a discriminant.
pub fn make_control_frame(ctype: ControlType) -> (f: Vec<u8>)
    ensures
        f@ == control_frame_spec(ctype),
        f@.len() == FRAME_CTRL_SIZE,
{
    let mut frame: Vec<u8> = Vec::new();
    frame.push(FRAME_START);
    frame.push(FRAME_TYPE_CTRL);
    frame.push(0x01);
    frame.push(ctype.value());
    let mut one: Vec<u8> = Vec::new();
    one.push(ctype.value());
    proof {
        assert(one@ =~= seq![ctrl_value_spec(ctype)]);
    }
    let crc = crc16(one.as_slice());
    proof {
        assert(crc & 0xff <= 0xff) by (bit_vector);
        assert(crc >> 8 <= 0xff) by (bit_vector);
    }
    frame.push((crc & 0xff) as u8);
    frame.push((crc >> 8) as u8);
    frame.push(FRAME_END);
    proof {
        assert(frame@ =~= control_frame_spec(ctype));
    }
    frame
}

/// Parse a byte sequence as a data frame, yielding its payload.
///
/// Validation order follows the receive path: the declared length is held
/// to the effective ceiling before anything else, the sentinels and the
/// type byte next, and the CRC only after all structural checks pass.
pub fn parse_data_frame(frame: &[u8]) -> (r: Result<Vec<u8>, FrameError>)
    ensures
        match r {
            Ok(p) => parse_data_spec(frame@) == Ok::<Seq<u8>, FrameError>(p@),
            Err(e) => parse_data_spec(frame@) == Err::<Seq<u8>, FrameError>(e),
        },
{
    if frame.len() < 3 {
        return Err(FrameError::InvalidFrame);
    }
    let declared = frame[2] as usize;
    if declared > PAYLOAD_MAX {
        return Err(FrameError::Oversize);
    }
    if frame.len() != declared + 6 {
        return Err(FrameError::InvalidFrame);
    }
    if frame[0] != FRAME_START || frame[1] != FRAME_TYPE_DATA || frame[frame.len() - 1] != FRAME_END
    {
        return Err(FrameError::InvalidFrame);
    }
    let payload_slice = vstd::slice::slice_subrange(frame, 3, 3 + declared);
    let check = crc16(payload_slice);
    let stored: u16 = (frame[declared + 3] as u16) | ((frame[declared + 4] as u16) << 8);
    if stored != check {
        return Err(FrameError::CRCFail);
    }
    let payload = vstd::slice::slice_to_vec(payload_slice);
    Ok(payload)
}

/// Parse a byte sequence as a control frame, yielding its discriminant.
pub fn parse_control_frame(frame: &[u8]) -> (r: Result<ControlType, FrameError>)
    ensures
        r == parse_control_spec(frame@),
{
    if frame.len() != FRAME_CTRL_SIZE {
        return Err(FrameError::InvalidFrame);
    }
    if frame[0] != FRAME_START || frame[1] != FRAME_TYPE_CTRL || frame[2] != 1 || frame[6]
        != FRAME_END {
        return Err(FrameError::InvalidFrame);
    }
    let mut one: Vec<u8> = Vec::new();
    one.push(frame[3]);
    proof {
        assert(one@ =~= seq![frame@[3]]);
    }
    let check = crc16(one.as_slice());
    let stored: u16 = (frame[4] as u16) | ((frame[5] as u16) << 8);
    if stored != check {
        return Err(FrameError::CRCFail);
    }
    match ControlType::from_value(frame[3]) {
        Some(c) => Ok(c),
        None => Err(FrameError::InvalidFrame),
    }
}

/// Round trip: parsing the data frame built around any payload within
/// the effective ceiling yields exactly that payload — and, because the
/// frame passed the CRC check, the CRC stored in it necessarily equals a
/// freshly computed CRC over the payload.
pub proof fn lemma_data_frame_round_trip(p: Seq<u8>)
    requires
        p.len() <= PAYLOAD_MAX,
    ensures
        parse_data_spec(data_frame_spec(p)) == Ok::<Seq<u8>, FrameError>(p),
        stored_crc_spec(data_frame_spec(p), p.len() as int) == crc16_spec(p),
{
    let f = data_frame_spec(p);
    assert(f.len() == p.len() + 6);
    assert(f[2] == p.len() as u8);
    assert(f.subrange(3, 3 + f[2]) =~= p);
    let c = crc16_spec(p);
    assert((((c & 0xff) as u8) as u16) | ((((c >> 8) as u8) as u16) << 8) == c) by (bit_vector);
    assert(f[p.len() as int + 3] == crc_lo(c));
    assert(f[p.len() as int + 4] == crc_hi(c));
    assert(stored_crc_spec(f, p.len() as int) == c);
    assert(f[f.len() - 1] == FRAME_END);
}

/// Corruption is detected: flip any single bit of any payload byte of a
/// built data frame, leave the stored CRC as it was, and parsing reports
/// the checksum mismatch — the receive path then answers with a CRCFail
/// control frame instead of handing the payload on.
pub proof fn lemma_corrupted_payload_detected(p: Seq<u8>, i: int, k: u8)
    requires
        p.len() <= PAYLOAD_MAX,
        0 <= i < p.len(),
        k < 8,
    ensures
        parse_data_spec(data_frame_spec(p).update(3 + i, data_frame_spec(p)[3 + i] ^ (1u8 << k)))
            == Err::<Seq<u8>, FrameError>(FrameError::CRCFail),
{
    let f = data_frame_spec(p);
    let f2 = f.update(3 + i, f[3 + i] ^ (1u8 << k));
    let p2 = p.update(i, p[i] ^ (1u8 << k));
    assert(f[3 + i] == p[i]);
    assert(f2.len() == p.len() + 6);
    assert(f2[2] == p.len() as u8);
    assert(f2[0] == FRAME_START && f2[1] == FRAME_TYPE_DATA);
    assert(f2[f2.len() - 1] == FRAME_END);
    assert(f2.subrange(3, 3 + f2[2]) =~= p2);
    lemma_data_frame_round_trip(p);
    assert(stored_crc_spec(f2, p.len() as int) == crc16_spec(p));
    crate::crc16::lemma_crc16_detects_bit_flip(p, i, k);
}

/// Round trip for control frames: parsing the control frame built around
/// any discriminant yields that discriminant back.
pub proof fn lemma_control_frame_round_trip(c: ControlType)
    ensures
        parse_control_spec(control_frame_spec(c)) == Ok::<ControlType, FrameError>(c),
{
    let f = control_frame_spec(c);
    assert(f.len() == 7);
    assert(f[3] == ctrl_value_spec(c));
    assert(f.subrange(3, 4) =~= seq![ctrl_value_spec(c)]);
    let cc = crc16_spec(seq![ctrl_value_spec(c)]);
    assert((((cc & 0xff) as u8) as u16) | ((((cc >> 8) as u8) as u16) << 8) == cc) by (bit_vector);
    assert(f[4] == crc_lo(cc));
    assert(f[5] == crc_hi(cc));
    assert(stored_crc_spec(f, 1) == cc);
}

} // verus!
