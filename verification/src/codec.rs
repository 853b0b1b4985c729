//! Wire codec for the two device channels.
//!
//! The protocol byte order is network order (big-endian) for every field;
//! this is the fixed protocol contract. An attitude notification payload
//! is exactly 12 bytes: three 32-bit floats (pitch, roll, yaw). A throttle
//! command payload is exactly 8 bytes: four signed 16-bit integers (pitch,
//! roll, yaw, vertical). Values are not range-checked: callers clamp
//! before encoding, and integer narrowing follows two's-complement
//! wrapping semantics.

use vstd::prelude::*;

use crate::Attitude;
use crate::Throttle;

verus! {

/// Error from decoding a payload.
#[derive(Clone, Copy, Debug, PartialEq, Eq, Structural)]
pub enum DecodeError {
    /// The payload held fewer bytes than the fixed wire layout requires.
    Truncated,
}

/// Exact size in bytes of an attitude notification payload.
pub const ATTITUDE_PAYLOAD_LEN: usize = 12;

/// Exact size in bytes of a throttle command payload.
pub const THROTTLE_PAYLOAD_LEN: usize = 8;

/// The 16-bit value carried by two bytes in network order.
pub open spec fn u16_be(hi: u8, lo: u8) -> u16 {
    (((hi as u16) << 8) | (lo as u16)) as u16
}

/// The 32-bit value carried by four bytes in network order.
pub open spec fn u32_be(b0: u8, b1: u8, b2: u8, b3: u8) -> u32 {
    (((b0 as u32) << 24) | ((b1 as u32) << 16) | ((b2 as u32) << 8) | (b3 as u32)) as u32
}

/// The signed 16-bit value carried by two bytes in network order:
/// the two's-complement reading of the unsigned value.
pub open spec fn i16_be(hi: u8, lo: u8) -> i16 {
    u16_be(hi, lo) as i16
}

/// The two network-order bytes of a signed 16-bit value.
pub open spec fn i16_be_bytes(v: i16) -> Seq<u8> {
    seq![((v as u16) >> 8) as u8, (v as u16) as u8]
}

/// The full throttle command payload: pitch, roll, yaw, vertical.
pub open spec fn throttle_bytes(t: Throttle) -> Seq<u8> {
    i16_be_bytes(t.pitch) + i16_be_bytes(t.roll) + i16_be_bytes(t.yaw) + i16_be_bytes(t.vertical)
}

/// The attitude carried by the first 12 bytes of a payload.
pub open spec fn attitude_of(b: Seq<u8>) -> Attitude
    recommends
        b.len() >= ATTITUDE_PAYLOAD_LEN,
{
    Attitude {
        pitch: u32_be(b[0], b[1], b[2], b[3]),
        roll: u32_be(b[4], b[5], b[6], b[7]),
        yaw: u32_be(b[8], b[9], b[10], b[11]),
    }
}

/// The throttle carried by the first 8 bytes of a payload.
pub open spec fn throttle_of(b: Seq<u8>) -> Throttle
    recommends
        b.len() >= THROTTLE_PAYLOAD_LEN,
{
    Throttle {
        pitch: i16_be(b[0], b[1]),
        roll: i16_be(b[2], b[3]),
        yaw: i16_be(b[4], b[5]),
        vertical: i16_be(b[6], b[7]),
    }
}

/// Appends the two network-order bytes of one axis.
fn push_i16_be(out: &mut Vec<u8>, v: i16)
    ensures
        final(out)@ == old(out)@ + i16_be_bytes(v),
{
    let u: u16 = v as u16;
    out.push((u >> 8) as u8);
    out.push(u as u8);
    proof {
        assert(out@ =~= old(out)@ + i16_be_bytes(v));
    }
}

/// Encodes a throttle command into its fixed 8-byte payload.
/// Pure transformation: no validation, no side effects.
pub fn encode_throttle(t: &Throttle) -> (r: Vec<u8>)
    ensures
        r@ == throttle_bytes(*t),
        r@.len() == THROTTLE_PAYLOAD_LEN,
{
    let mut out: Vec<u8> = Vec::new();
    push_i16_be(&mut out, t.pitch);
    push_i16_be(&mut out, t.roll);
    push_i16_be(&mut out, t.yaw);
    push_i16_be(&mut out, t.vertical);
    proof {
        assert(out@ =~= throttle_bytes(*t));
    }
    out
}

/// Reads a 32-bit network-order value at the given offset.
fn read_u32_be(bytes: &Vec<u8>, offset: usize) -> (r: u32)
    requires
        offset + 4 <= bytes@.len(),
    ensures
        r == u32_be(
            bytes@[offset as int],
            bytes@[offset + 1],
            bytes@[offset + 2],
            bytes@[offset + 3],
        ),
{
    // A vector's length fits in usize, so the offsets below cannot overflow.
    let n: usize = bytes.len();
    ((bytes[offset] as u32) << 24) | ((bytes[offset + 1] as u32) << 16) | ((bytes[offset + 2]
        as u32) << 8) | (bytes[offset + 3] as u32)
}

/// Reads a signed 16-bit network-order value at the given offset.
fn read_i16_be(bytes: &Vec<u8>, offset: usize) -> (r: i16)
    requires
        offset + 2 <= bytes@.len(),
    ensures
        r == i16_be(bytes@[offset as int], bytes@[offset + 1]),
{
    // A vector's length fits in usize, so the offset below cannot overflow.
    let n: usize = bytes.len();
    (((bytes[offset] as u16) << 8) | (bytes[offset + 1] as u16)) as i16
}

/// Decodes an attitude notification payload. Exactly the first 12 bytes
/// are read; a shorter payload fails with `Truncated` and nothing else is
/// validated (NaN and infinity bit patterns pass through: telemetry is
/// trusted).
pub fn decode_attitude(bytes: &Vec<u8>) -> (r: Result<Attitude, DecodeError>)
    ensures
        bytes@.len() < ATTITUDE_PAYLOAD_LEN ==> r == Err::<Attitude, DecodeError>(
            DecodeError::Truncated,
        ),
        bytes@.len() >= ATTITUDE_PAYLOAD_LEN ==> r == Ok::<Attitude, DecodeError>(
            attitude_of(bytes@),
        ),
{
    if bytes.len() < ATTITUDE_PAYLOAD_LEN {
        return Err(DecodeError::Truncated);
    }
    let pitch = read_u32_be(bytes, 0);
    let roll = read_u32_be(bytes, 4);
    let yaw = read_u32_be(bytes, 8);
    Ok(Attitude { pitch, roll, yaw })
}

/// Decodes a throttle command payload: the symmetric reading of the
/// layout written by `encode_throttle`.
pub fn decode_throttle(bytes: &Vec<u8>) -> (r: Result<Throttle, DecodeError>)
    ensures
        bytes@.len() < THROTTLE_PAYLOAD_LEN ==> r == Err::<Throttle, DecodeError>(
            DecodeError::Truncated,
        ),
        bytes@.len() >= THROTTLE_PAYLOAD_LEN ==> r == Ok::<Throttle, DecodeError>(
            throttle_of(bytes@),
        ),
{
    if bytes.len() < THROTTLE_PAYLOAD_LEN {
        return Err(DecodeError::Truncated);
    }
    let pitch = read_i16_be(bytes, 0);
    let roll = read_i16_be(bytes, 2);
    let yaw = read_i16_be(bytes, 4);
    let vertical = read_i16_be(bytes, 6);
    Ok(Throttle { pitch, roll, yaw, vertical })
}

/// One axis survives the trip onto the wire and back unchanged.
proof fn lemma_i16_be_round_trip(v: i16)
    ensures
        i16_be(i16_be_bytes(v)[0], i16_be_bytes(v)[1]) == v,
{
    let u: u16 = v as u16;
    assert((((((u >> 8) as u8) as u16) << 8) | ((u as u8) as u16)) as i16 == v) by (bit_vector)
        requires
            u == v as u16,
    ;
}

/// Codec round trip: decoding the layout written by `encode_throttle`
/// reproduces the original integers of every axis exactly, for every
/// representable throttle value; no axis is narrowed or lost.
pub proof fn lemma_throttle_round_trip(t: Throttle)
    ensures
        throttle_of(throttle_bytes(t)) == t,
{
    let b = throttle_bytes(t);
    assert(b[0] == i16_be_bytes(t.pitch)[0] && b[1] == i16_be_bytes(t.pitch)[1]);
    assert(b[2] == i16_be_bytes(t.roll)[0] && b[3] == i16_be_bytes(t.roll)[1]);
    assert(b[4] == i16_be_bytes(t.yaw)[0] && b[5] == i16_be_bytes(t.yaw)[1]);
    assert(b[6] == i16_be_bytes(t.vertical)[0] && b[7] == i16_be_bytes(t.vertical)[1]);
    lemma_i16_be_round_trip(t.pitch);
    lemma_i16_be_round_trip(t.roll);
    lemma_i16_be_round_trip(t.yaw);
    lemma_i16_be_round_trip(t.vertical);
}

} // verus!
