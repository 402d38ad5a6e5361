//! Wire protocol byte layout: integers travel fixed-width little-endian;
//! a string travels as a length header — 4 bytes on the 32-bit daemon, 8
//! on the 64-bit one — followed by its raw bytes. The descriptor-passing
//! discipline layered over the socket stays with the embedder; the byte
//! layout and its round-trip guarantees live here, verified.
use vstd::prelude::*;

verus! {

/// The little-endian bytes of a 32-bit integer.
pub open spec fn spec_u32_le(v: u32) -> Seq<u8> {
    seq![
        (v & 0xff) as u8,
        ((v >> 8) & 0xff) as u8,
        ((v >> 16) & 0xff) as u8,
        ((v >> 24) & 0xff) as u8,
    ]
}

/// The 32-bit integer read from four little-endian bytes.
pub open spec fn spec_le_u32(b0: u8, b1: u8, b2: u8, b3: u8) -> u32 {
    (b0 as u32) | ((b1 as u32) << 8) | ((b2 as u32) << 16) | ((b3 as u32) << 24)
}

/// The little-endian bytes of a 64-bit integer.
pub open spec fn spec_u64_le(v: u64) -> Seq<u8> {
    seq![
        (v & 0xff) as u8,
        ((v >> 8) & 0xff) as u8,
        ((v >> 16) & 0xff) as u8,
        ((v >> 24) & 0xff) as u8,
        ((v >> 32) & 0xff) as u8,
        ((v >> 40) & 0xff) as u8,
        ((v >> 48) & 0xff) as u8,
        ((v >> 56) & 0xff) as u8,
    ]
}

/// The 64-bit integer read from eight little-endian bytes.
pub open spec fn spec_le_u64(b: Seq<u8>) -> u64
    recommends
        b.len() == 8,
{
    (b[0] as u64) | ((b[1] as u64) << 8) | ((b[2] as u64) << 16) | ((b[3] as u64) << 24) | (
    (b[4] as u64) << 32) | ((b[5] as u64) << 40) | ((b[6] as u64) << 48) | ((b[7] as u64) << 56)
}

/// Serialize a 32-bit integer, least significant byte first.
pub fn encode_u32(v: u32) -> (r: Vec<u8>)
    ensures
        r@ == spec_u32_le(v),
{
    let mut r: Vec<u8> = Vec::new();
    r.push((v & 0xff) as u8);
    r.push(((v >> 8) & 0xff) as u8);
    r.push(((v >> 16) & 0xff) as u8);
    r.push(((v >> 24) & 0xff) as u8);
    proof {
        assert(r@ =~= spec_u32_le(v));
    }
    r
}

/// Read back a 32-bit integer from its four wire bytes.
pub fn decode_u32(b: &Vec<u8>) -> (r: u32)
    requires
        b@.len() == 4,
    ensures
        r == spec_le_u32(b@[0], b@[1], b@[2], b@[3]),
{
    (b[0] as u32) | ((b[1] as u32) << 8) | ((b[2] as u32) << 16) | ((b[3] as u32) << 24)
}

/// Serialize a 64-bit integer, least significant byte first.
pub fn encode_u64(v: u64) -> (r: Vec<u8>)
    ensures
        r@ == spec_u64_le(v),
{
    let mut r: Vec<u8> = Vec::new();
    r.push((v & 0xff) as u8);
    r.push(((v >> 8) & 0xff) as u8);
    r.push(((v >> 16) & 0xff) as u8);
    r.push(((v >> 24) & 0xff) as u8);
    r.push(((v >> 32) & 0xff) as u8);
    r.push(((v >> 40) & 0xff) as u8);
    r.push(((v >> 48) & 0xff) as u8);
    r.push(((v >> 56) & 0xff) as u8);
    proof {
        assert(r@ =~= spec_u64_le(v));
    }
    r
}

/// Read back a 64-bit integer from its eight wire bytes.
pub fn decode_u64(b: &Vec<u8>) -> (r: u64)
    requires
        b@.len() == 8,
    ensures
        r == spec_le_u64(b@),
{
    (b[0] as u64) | ((b[1] as u64) << 8) | ((b[2] as u64) << 16) | ((b[3] as u64) << 24) | ((b[4]
        as u64) << 32) | ((b[5] as u64) << 40) | ((b[6] as u64) << 48) | ((b[7] as u64) << 56)
}

/// Serializing then deserializing a 32-bit integer gives it back.
pub proof fn lemma_u32_round_trip(v: u32)
    ensures
        spec_le_u32(
            spec_u32_le(v)[0],
            spec_u32_le(v)[1],
            spec_u32_le(v)[2],
            spec_u32_le(v)[3],
        ) == v,
{
    assert(((v & 0xff) as u8 as u32) | ((((v >> 8) & 0xff) as u8 as u32) << 8) | ((((v >> 16)
        & 0xff) as u8 as u32) << 16) | ((((v >> 24) & 0xff) as u8 as u32) << 24) == v)
        by (bit_vector);
}

/// Deserializing four bytes then serializing the integer gives the same
/// four bytes back.
pub proof fn lemma_le_u32_round_trip(b0: u8, b1: u8, b2: u8, b3: u8)
    ensures
        spec_u32_le(spec_le_u32(b0, b1, b2, b3)) == seq![b0, b1, b2, b3],
{
    let v = spec_le_u32(b0, b1, b2, b3);
    assert((((b0 as u32) | ((b1 as u32) << 8) | ((b2 as u32) << 16) | ((b3 as u32) << 24)) & 0xff)
        as u8 == b0) by (bit_vector);
    assert(((((b0 as u32) | ((b1 as u32) << 8) | ((b2 as u32) << 16) | ((b3 as u32) << 24)) >> 8)
        & 0xff) as u8 == b1) by (bit_vector);
    assert(((((b0 as u32) | ((b1 as u32) << 8) | ((b2 as u32) << 16) | ((b3 as u32) << 24)) >> 16)
        & 0xff) as u8 == b2) by (bit_vector);
    assert(((((b0 as u32) | ((b1 as u32) << 8) | ((b2 as u32) << 16) | ((b3 as u32) << 24)) >> 24)
        & 0xff) as u8 == b3) by (bit_vector);
    assert(spec_u32_le(v) =~= seq![b0, b1, b2, b3]);
}

/// Serializing then deserializing a 64-bit integer gives it back.
pub proof fn lemma_u64_round_trip(v: u64)
    ensures
        spec_le_u64(spec_u64_le(v)) == v,
{
    assert(((v & 0xff) as u8 as u64) | ((((v >> 8) & 0xff) as u8 as u64) << 8) | ((((v >> 16)
        & 0xff) as u8 as u64) << 16) | ((((v >> 24) & 0xff) as u8 as u64) << 24) | ((((v >> 32)
        & 0xff) as u8 as u64) << 32) | ((((v >> 40) & 0xff) as u8 as u64) << 40) | ((((v >> 48)
        & 0xff) as u8 as u64) << 48) | ((((v >> 56) & 0xff) as u8 as u64) << 56) == v)
        by (bit_vector);
}

/// The length header of a string frame: 4 little-endian bytes on the
/// 32-bit daemon, 8 on the 64-bit one.
pub open spec fn spec_length_header(is_64: bool, n: u64) -> Seq<u8> {
    if is_64 {
        spec_u64_le(n)
    } else {
        spec_u32_le(n as u32)
    }
}

/// A string frame: the length header followed by the raw bytes.
pub open spec fn spec_string_frame(is_64: bool, payload: Seq<u8>) -> Seq<u8> {
    spec_length_header(is_64, payload.len() as u64) + payload
}

/// Frame a string's bytes for the wire: its length, header-width by
/// daemon bitness, then the bytes themselves. A payload too long for the
/// 4-byte header of the 32-bit daemon cannot be framed.
pub fn encode_string_frame(is_64: bool, payload: &Vec<u8>) -> (r: Option<Vec<u8>>)
    ensures
        r is Some <==> (is_64 || payload@.len() <= u32::MAX),
        r matches Some(v) ==> v@ == spec_string_frame(is_64, payload@),
{
    if !is_64 && payload.len() > u32::MAX as usize {
        return Option::None;
    }
    let mut r: Vec<u8> = if is_64 {
        encode_u64(payload.len() as u64)
    } else {
        encode_u32(payload.len() as u32)
    };
    let mut i: usize = 0;
    while i < payload.len()
        invariant
            i <= payload@.len(),
            r@ == spec_length_header(is_64, payload@.len() as u64) + payload@.subrange(0, i as int),
        decreases payload@.len() - i,
    {
        let ghost prev = r@;
        r.push(payload[i]);
        proof {
            assert(r@ =~= spec_length_header(is_64, payload@.len() as u64) + payload@.subrange(
                0,
                i + 1,
            ));
        }
        i = i + 1;
    }
    proof {
        assert(payload@.subrange(0, payload@.len() as int) =~= payload@);
    }
    Option::Some(r)
}

/// Unframe a string from the front of a buffer: read the length header,
/// then that many raw bytes. Yields the payload and how many bytes of the
/// buffer the frame occupied, and nothing when the buffer is shorter than
/// the header or than the length it announces.
pub fn decode_string_frame(is_64: bool, buf: &Vec<u8>) -> (r: Option<(Vec<u8>, usize)>)
    ensures
        ({
            let hw: int = if is_64 {
                8
            } else {
                4
            };
            &&& (r is Some <==> buf@.len() >= hw && spec_le_header(is_64, buf@) <= buf@.len()
                - hw && spec_le_header(is_64, buf@) <= usize::MAX)
            &&& (r matches Some(p) ==> {
                &&& p.1 == hw + spec_le_header(is_64, buf@)
                &&& p.0@ == buf@.subrange(hw, hw + spec_le_header(is_64, buf@))
            })
        }),
{
    let header_width: usize = if is_64 {
        8
    } else {
        4
    };
    if buf.len() < header_width {
        return Option::None;
    }
    let mut header: Vec<u8> = Vec::new();
    let mut i: usize = 0;
    while i < header_width
        invariant
            header_width <= buf@.len(),
            i <= header_width,
            header@ == buf@.subrange(0, i as int),
        decreases header_width - i,
    {
        header.push(buf[i]);
        proof {
            assert(header@ =~= buf@.subrange(0, i + 1));
        }
        i = i + 1;
    }
    let n: u64 = if is_64 {
        decode_u64(&header)
    } else {
        decode_u32(&header) as u64
    };
    proof {
        assert(buf@.subrange(0, header_width as int) =~= header@);
    }
    if n > (usize::MAX) as u64 {
        return Option::None;
    }
    let n: usize = n as usize;
    if buf.len() - header_width < n {
        return Option::None;
    }
    let mut payload: Vec<u8> = Vec::new();
    let mut k: usize = 0;
    while k < n
        invariant
            header_width + n <= buf@.len(),
            buf@.len() <= usize::MAX,
            k <= n,
            payload@ == buf@.subrange(header_width as int, header_width + k),
        decreases n - k,
    {
        payload.push(buf[header_width + k]);
        proof {
            assert(payload@ =~= buf@.subrange(header_width as int, header_width + k + 1));
        }
        k = k + 1;
    }
    Option::Some((payload, header_width + n))
}

/// The length a buffer's header announces, by daemon bitness.
pub open spec fn spec_le_header(is_64: bool, buf: Seq<u8>) -> int {
    if is_64 {
        spec_le_u64(buf.subrange(0, 8)) as int
    } else {
        spec_le_u32(buf[0], buf[1], buf[2], buf[3]) as int
    }
}

/// Framing a string and unframing the result gives the string back, with
/// the whole frame consumed.
pub proof fn lemma_string_frame_round_trip(is_64: bool, payload: Seq<u8>)
    requires
        is_64 ==> payload.len() <= u64::MAX,
        !is_64 ==> payload.len() <= u32::MAX,
    ensures
        ({
            let frame = spec_string_frame(is_64, payload);
            let hw: int = if is_64 {
                8
            } else {
                4
            };
            &&& spec_le_header(is_64, frame) == payload.len()
            &&& frame.subrange(hw, hw + payload.len()) == payload
        }),
{
    let frame = spec_string_frame(is_64, payload);
    let hw: int = if is_64 {
        8
    } else {
        4
    };
    let header = spec_length_header(is_64, payload.len() as u64);
    assert(header.len() == hw);
    if is_64 {
        assert(frame.subrange(0, 8) =~= header);
        lemma_u64_round_trip(payload.len() as u64);
    } else {
        lemma_u32_round_trip(payload.len() as u32);
    }
    assert(frame.subrange(hw, hw + payload.len()) =~= payload);
}

} // verus!
