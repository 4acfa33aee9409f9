//! Framing of the messages between the command line and the running player: each
//! message is its length as four little-endian bytes, then its bytes.

use vstd::prelude::*;

verus! {

/// The name of the local socket the player listens on.
pub open spec fn socket_name_spec() -> Seq<char> {
    "audiocrab.sock"@
}

/// The name of the local socket the player listens on.
pub fn socket_name_text() -> (s: String)
    ensures
        s@ == socket_name_spec(),
{
    String::from_str("audiocrab.sock")
}

/// The four little-endian bytes of `n`.
pub open spec fn le_bytes(n: int) -> Seq<u8> {
    seq![
        (n % 256) as u8,
        ((n / 256) % 256) as u8,
        ((n / 65536) % 256) as u8,
        ((n / 16777216) % 256) as u8,
    ]
}

/// The number four little-endian bytes stand for.
pub open spec fn le_value(b: Seq<u8>) -> int {
    b[0] + 256 * b[1] + 65536 * b[2] + 16777216 * b[3]
}

/// The length field a frame carries for a payload of `len` bytes: the length modulo
/// 2^32, as a cast to `u32` gives it.
pub open spec fn frame_len_field(len: int) -> int {
    len % 0x1_0000_0000
}

/// `u32::to_le_bytes`.
pub fn u32_le_bytes(n: u32) -> (b: [u8; 4])
    ensures
        b@ == le_bytes(n as int),
{
    [(n % 256) as u8, ((n / 256) % 256) as u8, ((n / 65536) % 256) as u8, ((n / 16777216) % 256) as u8]
}

/// `u32::from_le_bytes`.
pub fn u32_from_le(b: [u8; 4]) -> (n: u32)
    ensures
        n as int == le_value(b@),
{
    let v: u32 = b[0] as u32 + 256 * (b[1] as u32) + 65536 * (b[2] as u32) + 16777216 * (b[3] as u32);
    v
}

/// Reading the bytes of a number gives the number back.
pub proof fn law_le_roundtrip(n: int)
    requires
        0 <= n < 0x1_0000_0000,
    ensures
        le_value(le_bytes(n)) == n,
{
    let b = le_bytes(n);
    assert(b[0] as int == n % 256);
    assert(b[1] as int == (n / 256) % 256);
    assert(b[2] as int == (n / 65536) % 256);
    assert(b[3] as int == (n / 16777216) % 256);
    assert(n % 256 + 256 * ((n / 256) % 256) + 65536 * ((n / 65536) % 256) + 16777216 * ((n
        / 16777216) % 256) == n) by (nonlinear_arith)
        requires
            0 <= n < 0x1_0000_0000,
    {
    }
}

/// A message framed for the socket: the payload's length as four little-endian
/// bytes, then the payload.
pub fn encode_frame(payload: &Vec<u8>) -> (f: Vec<u8>)
    ensures
        f@ == le_bytes(frame_len_field(payload.len() as int)) + payload@,
{
    let len: u32 = (payload.len() as u64 % 0x1_0000_0000) as u32;
    let header = u32_le_bytes(len);
    let mut f: Vec<u8> = Vec::new();
    f.push(header[0]);
    f.push(header[1]);
    f.push(header[2]);
    f.push(header[3]);
    let mut i: usize = 0;
    while i < payload.len()
        invariant
            i <= payload.len(),
            f@ == le_bytes(len as int) + payload@.take(i as int),
        decreases payload.len() - i,
    {
        f.push(payload[i]);
        assert(payload@.take(i + 1) == payload@.take(i as int).push(payload@[i as int]));
        i = i + 1;
    }
    assert(payload@.take(payload.len() as int) == payload@);
    f
}

/// The payload length a frame's four header bytes announce.
pub fn frame_length(header: [u8; 4]) -> (n: usize)
    ensures
        n as int == le_value(header@),
{
    u32_from_le(header) as usize
}

/// A frame read back: its header announces the payload's length, and the payload
/// follows the header unchanged.
pub proof fn law_frame_reads_back(payload: Seq<u8>)
    requires
        payload.len() < 0x1_0000_0000,
    ensures
        ({
            let f = le_bytes(frame_len_field(payload.len() as int)) + payload;
            &&& le_value(f.take(4)) == payload.len()
            &&& f.skip(4) == payload
        }),
{
    let f = le_bytes(frame_len_field(payload.len() as int)) + payload;
    law_le_roundtrip(payload.len() as int);
    assert(f.take(4) =~= le_bytes(payload.len() as int));
    assert(f.skip(4) =~= payload);
}

} // verus!
