//! Framing of sign-server packets: a 14-byte big-endian header followed by
//! the encrypted payload.
use vstd::prelude::*;
use vstd::wrapping::u32_specs::{wrapping_add, wrapping_mul};

use crate::crypto::{crypto, crypto_spec, lemma_crypto_roundtrip};

verus! {

/// Length of a packet header in bytes.
pub const HEADER_LEN: usize = 14;

/// The fields of a packet header.
#[derive(Debug, Clone, Copy, PartialEq, Eq)]
pub struct PacketHeader {
    pub pf0: u8,
    pub key_rot_delta: u8,
    pub packet_num: u16,
    pub data_size: u16,
    pub prev_combined_check: u16,
    pub check0: u16,
    pub check1: u16,
    pub check2: u16,
}

/// The big-endian value of two bytes.
pub open spec fn be16(hi: u8, lo: u8) -> u16 {
    (hi as int * 256 + lo as int) as u16
}

/// The header that the 14 bytes `b` hold.
pub open spec fn header_spec(b: Seq<u8>) -> PacketHeader {
    PacketHeader {
        pf0: b[0],
        key_rot_delta: b[1],
        packet_num: be16(b[2], b[3]),
        data_size: be16(b[4], b[5]),
        prev_combined_check: be16(b[6], b[7]),
        check0: be16(b[8], b[9]),
        check1: be16(b[10], b[11]),
        check2: be16(b[12], b[13]),
    }
}

/// The two bytes of `v`, most significant first.
pub open spec fn be16_bytes(v: u16) -> Seq<u8> {
    seq![(v / 256) as u8, (v % 256) as u8]
}

/// The session key after a packet rotates it by `delta` (no rotation for 0).
pub open spec fn rotate_key(key: u32, delta: u8) -> u32 {
    if delta != 0 {
        wrapping_mul(delta as u32, wrapping_add(key, 1))
    } else {
        key
    }
}

/// Size of the payload that a header announces.
pub open spec fn payload_size_spec(h: PacketHeader) -> int {
    h.data_size + (h.pf0 - 3) * 0x1000
}

fn be16_from(hi: u8, lo: u8) -> (r: u16)
    ensures
        r == be16(hi, lo),
{
    let r = ((hi as u16) << 8) | (lo as u16);
    assert(r == (hi as int * 256 + lo as int) as u16) by (bit_vector)
        requires
            r == ((hi as u16) << 8u16) | (lo as u16),
    ;
    r
}

proof fn lemma_be16_bytes(v: u16)
    ensures
        be16(be16_bytes(v)[0], be16_bytes(v)[1]) == v,
{
}

/// Decodes the 14 header bytes `buf`.
pub fn parse_header(buf: &[u8]) -> (h: PacketHeader)
    requires
        buf@.len() == HEADER_LEN,
    ensures
        h == header_spec(buf@),
{
    PacketHeader {
        pf0: buf[0],
        key_rot_delta: buf[1],
        packet_num: be16_from(buf[2], buf[3]),
        data_size: be16_from(buf[4], buf[5]),
        prev_combined_check: be16_from(buf[6], buf[7]),
        check0: be16_from(buf[8], buf[9]),
        check1: be16_from(buf[10], buf[11]),
        check2: be16_from(buf[12], buf[13]),
    }
}

/// Size of the payload that follows `header`: the data size plus 4 KiB for
/// every step of `pf0` above 3.
pub fn payload_size(header: &PacketHeader) -> (n: usize)
    requires
        header.pf0 >= 3,
    ensures
        n == payload_size_spec(*header),
{
    header.data_size as usize + ((header.pf0 as usize) - 3) * 0x1000
}

/// Applies the rotation a packet header announces to the session key.
pub fn rotate_session_key(key: &mut u32, delta: u8)
    ensures
        *final(key) == rotate_key(*old(key), delta),
{
    if delta != 0 {
        *key = (delta as u32).wrapping_mul(key.wrapping_add(1));
    }
}

/// The error that a packet whose checks match under no key gives.
pub open spec fn checksum_mismatch_message() -> Seq<char> {
    "crypto checksum mismatch — data out of sync"@
}

/// Whether the checks of `body` decrypted with the override seed `k`
/// match the header in the order the retry compares them.
pub open spec fn override_matches(header: PacketHeader, body: Seq<u8>, k: u8) -> bool {
    let (_, cc, c0, c1, _) = crypto_spec(body, 0, false, Some(k));
    header.check0 == cc && header.check1 == c0 && header.check2 == c1
}

/// Whether the checks of `body` decrypted with `key` match the header.
pub open spec fn checks_match(header: PacketHeader, body: Seq<u8>, key: u32) -> bool {
    let (_, _, c0, c1, c2) = crypto_spec(body, key, false, None);
    header.check0 == c0 && header.check1 == c1 && header.check2 == c2
}

/// What opening a packet gives, once the session key has been rotated to `key`.
pub open spec fn open_packet_spec(header: PacketHeader, body: Seq<u8>, key: u32) -> Result<
    Seq<u8>,
    Seq<char>,
> {
    if checks_match(header, body, key) {
        Ok(crypto_spec(body, key, false, None).0)
    } else if exists|k: u8| k < 255 && #[trigger] override_matches(header, body, k) {
        let k = choose|k: u8|
            k < 255 && #[trigger] override_matches(header, body, k) && forall|j: u8|
                j < k ==> !override_matches(header, body, j);
        Ok(crypto_spec(body, 0, false, Some(k)).0)
    } else {
        Err(checksum_mismatch_message())
    }
}

/// Rotates the receive key as `header` says and decrypts `body`.  When the
/// checks do not match, the seeds 0 to 254 are tried in turn as overrides
/// and the first whose checks match is used; when none does, the packet is
/// refused.
pub fn open_packet(header: &PacketHeader, body: &[u8], read_key_rot: &mut u32) -> (r: Result<
    Vec<u8>,
    String,
>)
    ensures
        *final(read_key_rot) == rotate_key(*old(read_key_rot), header.key_rot_delta),
        match r {
            Ok(v) => open_packet_spec(*header, body@, *final(read_key_rot)) == Ok::<
                Seq<u8>,
                Seq<char>,
            >(v@),
            Err(e) => open_packet_spec(*header, body@, *final(read_key_rot)) == Err::<
                Seq<u8>,
                Seq<char>,
            >(e@),
        },
{
    rotate_session_key(read_key_rot, header.key_rot_delta);
    let (decrypted, _combined, c0, c1, c2) = crypto(body, *read_key_rot, false, None);
    if header.check0 == c0 && header.check1 == c1 && header.check2 == c2 {
        return Ok(decrypted);
    }
    let mut key: u8 = 0;
    while key < 255
        invariant
            forall|j: u8| j < key ==> !override_matches(*header, body@, j),
            !checks_match(*header, body@, *read_key_rot),
            *read_key_rot == rotate_key(*old(read_key_rot), header.key_rot_delta),
        decreases 255 - key,
    {
        let (alt, alt_c0, alt_c1, alt_c2, _) = crypto(body, 0, false, Some(key));
        if header.check0 == alt_c0 && header.check1 == alt_c1 && header.check2 == alt_c2 {
            proof {
                assert(override_matches(*header, body@, key));
                let k = choose|k: u8|
                    k < 255 && #[trigger] override_matches(*header, body@, k) && forall|j: u8|
                        j < k ==> !override_matches(*header, body@, j);
                assert(k == key) by {
                    if k < key {
                        assert(!override_matches(*header, body@, k));
                    }
                    if key < k {
                        assert(!override_matches(*header, body@, key));
                    }
                }
            }
            return Ok(alt);
        }
        key = key + 1;
    }
    proof {
        assert forall|k: u8| k < 255 implies !#[trigger] override_matches(*header, body@, k) by {}
    }
    Err("crypto checksum mismatch — data out of sync".to_string())
}

/// The first header byte for a payload of `len` bytes.
pub open spec fn pf0_for(len: nat) -> u8 {
    (((len as usize) >> 12usize) & 0xF3usize | 3usize) as u8
}

/// The frame that sealing `data` under the (already rotated) key `key` gives.
pub open spec fn sealed_frame(data: Seq<u8>, key: u32) -> Seq<u8> {
    let (enc, _, c0, c1, c2) = crypto_spec(data, key, true, None);
    seq![pf0_for(data.len()), 3u8, 0u8, 0u8] + be16_bytes(data.len() as u16) + seq![0u8, 0u8]
        + be16_bytes(c0) + be16_bytes(c1) + be16_bytes(c2) + enc
}

fn push_be16(out: &mut Vec<u8>, v: u16)
    ensures
        final(out)@ == old(out)@ + be16_bytes(v),
{
    out.push((v >> 8) as u8);
    out.push(v as u8);
    assert((v >> 8) as u8 == (v / 256) as u8 && v as u8 == (v % 256) as u8) by (bit_vector);
}

/// Rotates the send key by 3, encrypts `data` and frames it with its header.
pub fn seal_packet(data: &[u8], send_key_rot: &mut u32) -> (frame: Vec<u8>)
    requires
        data@.len() <= usize::MAX,
    ensures
        *final(send_key_rot) == rotate_key(*old(send_key_rot), 3),
        frame@ == sealed_frame(data@, *final(send_key_rot)),
{
    let key_rot_delta: u8 = 3;
    rotate_session_key(send_key_rot, key_rot_delta);
    let (enc, _, c0, c1, c2) = crypto(data, *send_key_rot, true, None);
    let len = enc.len();
    let pf0 = ((len >> 12) & 0xF3) | 3;
    let mut frame: Vec<u8> = Vec::new();
    frame.push(pf0 as u8);
    frame.push(key_rot_delta);
    frame.push(0);
    frame.push(0);
    push_be16(&mut frame, len as u16);
    frame.push(0);
    frame.push(0);
    push_be16(&mut frame, c0);
    push_be16(&mut frame, c1);
    push_be16(&mut frame, c2);
    let mut i: usize = 0;
    let ghost head = frame@;
    while i < len
        invariant
            0 <= i <= len,
            len == enc@.len(),
            frame@ == head + enc@.take(i as int),
        decreases len - i,
    {
        frame.push(enc[i]);
        proof {
            assert(enc@.take(i + 1) =~= enc@.take(i as int).push(enc@[i as int]));
        }
        i = i + 1;
    }
    proof {
        assert(enc@.take(len as int) =~= enc@);
        assert(frame@ =~= sealed_frame(data@, *send_key_rot));
    }
    frame
}

proof fn lemma_sealed_header(data: Seq<u8>, k: u32)
    requires
        data.len() < 0x1000,
    ensures
        ({
            let frame = sealed_frame(data, k);
            let (enc, cc, c0, c1, c2) = crypto_spec(data, k, true, None);
            let h = header_spec(frame.take(HEADER_LEN as int));
            &&& frame.len() == HEADER_LEN + data.len()
            &&& frame.skip(HEADER_LEN as int) == enc
            &&& h.pf0 == 3
            &&& h.key_rot_delta == 3
            &&& h.data_size == data.len()
            &&& h.check0 == c0 && h.check1 == c1 && h.check2 == c2
        }),
{
    let frame = sealed_frame(data, k);
    let (enc, cc, c0, c1, c2) = crypto_spec(data, k, true, None);
    crate::crypto::lemma_crypto_len(data, k, true, None);
    let len = data.len();
    let l = len as usize;
    assert(((l >> 12usize) & 0xF3usize | 3usize) == 3usize) by (bit_vector)
        requires
            l < 0x1000,
    ;
    lemma_be16_bytes(len as u16);
    lemma_be16_bytes(c0);
    lemma_be16_bytes(c1);
    lemma_be16_bytes(c2);
    assert(frame.skip(HEADER_LEN as int) =~= enc);
}

/// A payload shorter than 4 KiB, sealed under a session key, reads back as
/// the same payload when the receiver starts from the same session key: the
/// header announces its size, both sides rotate to the same key, and the
/// checks match.
pub proof fn lemma_packet_roundtrip(data: Seq<u8>, key: u32)
    requires
        data.len() < 0x1000,
    ensures
        ({
            let frame = sealed_frame(data, rotate_key(key, 3));
            let h = header_spec(frame.take(HEADER_LEN as int));
            &&& frame.len() == HEADER_LEN + data.len()
            &&& h.pf0 >= 3
            &&& payload_size_spec(h) == data.len()
            &&& rotate_key(key, h.key_rot_delta) == rotate_key(key, 3)
            &&& open_packet_spec(h, frame.skip(HEADER_LEN as int), rotate_key(key, h.key_rot_delta))
                == Ok::<Seq<u8>, Seq<char>>(data)
        }),
{
    let k = rotate_key(key, 3);
    lemma_sealed_header(data, k);
    lemma_crypto_roundtrip(data, k, None);
    let frame = sealed_frame(data, k);
    let h = header_spec(frame.take(HEADER_LEN as int));
    let enc = crypto_spec(data, k, true, None).0;
    assert(checks_match(h, enc, k));
}

} // verus!
