//! The block of shared memory the game client reads its lobby notices and
//! MezFes event from, laid out byte for byte.
use vstd::prelude::*;

use crate::inject::{le32, le32_bytes, min, put, put_bytes, zeros};
use crate::mhf::{stall_code, MezFesStall, MhfConfig, Notice};
use vstd::utf8::encode_utf8;

verus! {

/// The size of the block.
pub const GLOBAL_DATA_SIZE: usize = 0x8ae0;

/// Where the byte lengths of the notices start (one 32-bit word each).
pub const NOTICE_LENGTHS_OFFSET: usize = 0xa0c;

/// Where the notice flags start (one 16-bit word each).
pub const NOTICE_FLAGS_OFFSET: usize = 0xa24;

/// Where the notice texts start.
pub const NOTICE_TEXTS_OFFSET: usize = 0xa2c;

/// The room for each notice text.
pub const NOTICE_TEXT_SIZE: usize = 0x1000;

/// The most notices the block holds.
pub const MAX_NOTICES: usize = 4;

/// Where the MezFes event starts: id, start, end, solo and group tickets,
/// then the stall codes.
pub const MEZ_OFFSET: usize = 0x8aac;

/// The most MezFes stalls the block holds.
pub const MAX_MEZ_STALLS: usize = 8;

/// The bytes of `v`, least significant first.
pub open spec fn le16(v: u16) -> Seq<u8> {
    seq![(v % 256) as u8, (v / 256) as u8]
}

/// `s` with notice `i` written: its byte length, its flags, and as much
/// of its text as fits.
pub open spec fn notice_written(s: Seq<u8>, i: int, n: Notice) -> Seq<u8> {
    let bytes = encode_utf8(n.data@);
    let s1 = put(s, NOTICE_LENGTHS_OFFSET + 4 * i, le32(bytes.len() as u32));
    let s2 = put(s1, NOTICE_FLAGS_OFFSET + 2 * i, le16(n.flags));
    put(s2, NOTICE_TEXTS_OFFSET + NOTICE_TEXT_SIZE * i, bytes.take(min(bytes.len() as int, NOTICE_TEXT_SIZE as int)))
}

/// `s` with the notices `ns` written in order.
pub open spec fn notices_written(s: Seq<u8>, ns: Seq<Notice>) -> Seq<u8>
    decreases ns.len(),
{
    if ns.len() == 0 {
        s
    } else {
        notice_written(notices_written(s, ns.drop_last()), ns.len() - 1, ns.last())
    }
}

/// The code of stall `i`, zero past the last stall.
pub open spec fn stall_word(stalls: Seq<MezFesStall>, i: int) -> u32 {
    if i < stalls.len() {
        stall_code(stalls[i])
    } else {
        0
    }
}

/// The codes of the first `k` stall slots, as bytes.
pub open spec fn stall_words(stalls: Seq<MezFesStall>, k: nat) -> Seq<u8>
    decreases k,
{
    if k == 0 {
        Seq::empty()
    } else {
        stall_words(stalls, (k - 1) as nat) + le32(stall_word(stalls, k - 1))
    }
}

/// The MezFes part of the block.
pub open spec fn mez_bytes(cfg: MhfConfig) -> Seq<u8> {
    le32(cfg.mez_event_id) + le32(cfg.mez_start) + le32(cfg.mez_end) + le32(cfg.mez_solo_tickets) + le32(
        cfg.mez_group_tickets,
    ) + stall_words(cfg.mez_stalls@, MAX_MEZ_STALLS as nat)
}

/// The block for `cfg`: all zeros, then the notices, then the MezFes event.
pub open spec fn global_data_spec(cfg: MhfConfig) -> Seq<u8> {
    put(notices_written(zeros(GLOBAL_DATA_SIZE as nat), cfg.notices@), MEZ_OFFSET as int, mez_bytes(cfg))
}

/// The bytes of `v`, least significant first.
fn le16_bytes(v: u16) -> (b: Vec<u8>)
    ensures
        b@ == le16(v),
{
    let mut b: Vec<u8> = Vec::new();
    b.push((v % 256) as u8);
    b.push((v / 256) as u8);
    assert(b@ =~= le16(v));
    b
}

/// The first `n` bytes of `bytes`.
fn prefix(bytes: &[u8], n: usize) -> (r: Vec<u8>)
    requires
        n <= bytes@.len(),
    ensures
        r@ == bytes@.take(n as int),
{
    let mut r: Vec<u8> = Vec::new();
    let mut i: usize = 0;
    while i < n
        invariant
            n <= bytes@.len(),
            i <= n,
            r@ == bytes@.take(i as int),
        decreases n - i,
    {
        r.push(bytes[i]);
        i = i + 1;
        assert(r@ =~= bytes@.take(i as int));
    }
    r
}

/// Writes notice `i` into `buf`.
fn write_notice(buf: &mut Vec<u8>, i: usize, n: &Notice)
    requires
        i < MAX_NOTICES,
        old(buf)@.len() == GLOBAL_DATA_SIZE,
    ensures
        final(buf)@ == notice_written(old(buf)@, i as int, *n),
{
    let bytes = n.data.as_str().as_bytes();
    let length = le32_bytes(bytes.len() as u32);
    put_bytes(buf, NOTICE_LENGTHS_OFFSET + 4 * i, length.as_slice());
    let flags = le16_bytes(n.flags);
    put_bytes(buf, NOTICE_FLAGS_OFFSET + 2 * i, flags.as_slice());
    let l = if bytes.len() < NOTICE_TEXT_SIZE {
        bytes.len()
    } else {
        NOTICE_TEXT_SIZE
    };
    let text = prefix(bytes, l);
    put_bytes(buf, NOTICE_TEXTS_OFFSET + NOTICE_TEXT_SIZE * i, text.as_slice());
}

/// The MezFes part of the block.
fn mez_block(cfg: &MhfConfig) -> (b: Vec<u8>)
    ensures
        b@ == mez_bytes(*cfg),
        b@.len() == 52,
{
    let mut b = le32_bytes(cfg.mez_event_id);
    let mut next = le32_bytes(cfg.mez_start);
    b.append(&mut next);
    let mut next = le32_bytes(cfg.mez_end);
    b.append(&mut next);
    let mut next = le32_bytes(cfg.mez_solo_tickets);
    b.append(&mut next);
    let mut next = le32_bytes(cfg.mez_group_tickets);
    b.append(&mut next);
    let ghost head = b@;
    let mut k: usize = 0;
    while k < MAX_MEZ_STALLS
        invariant
            k <= MAX_MEZ_STALLS,
            head.len() == 20,
            b@ == head + stall_words(cfg.mez_stalls@, k as nat),
            stall_words(cfg.mez_stalls@, k as nat).len() == 4 * k,
        decreases MAX_MEZ_STALLS - k,
    {
        let code: u32 = if k < cfg.mez_stalls.len() {
            cfg.mez_stalls[k].code()
        } else {
            0
        };
        let mut word = le32_bytes(code);
        b.append(&mut word);
        k = k + 1;
        assert(b@ =~= head + stall_words(cfg.mez_stalls@, k as nat));
    }
    b
}

/// Lays out the shared block the client reads for `cfg`: notice lengths,
/// flags and texts (cut to 0x1000 bytes each), then the MezFes event with
/// up to eight stall codes, zeros everywhere else.  The client has room for
/// four notices.
pub fn global_data_blob(cfg: &MhfConfig) -> (b: Vec<u8>)
    requires
        cfg.notices@.len() <= MAX_NOTICES,
    ensures
        b@ == global_data_spec(*cfg),
        b@.len() == GLOBAL_DATA_SIZE,
{
    let mut buf: Vec<u8> = Vec::new();
    let mut z: usize = 0;
    while z < GLOBAL_DATA_SIZE
        invariant
            z <= GLOBAL_DATA_SIZE,
            buf@ == zeros(z as nat),
        decreases GLOBAL_DATA_SIZE - z,
    {
        buf.push(0u8);
        z = z + 1;
        assert(buf@ =~= zeros(z as nat));
    }
    let mut i: usize = 0;
    while i < cfg.notices.len()
        invariant
            cfg.notices@.len() <= MAX_NOTICES,
            i <= cfg.notices@.len(),
            buf@.len() == GLOBAL_DATA_SIZE,
            buf@ == notices_written(zeros(GLOBAL_DATA_SIZE as nat), cfg.notices@.take(i as int)),
        decreases cfg.notices@.len() - i,
    {
        assert(cfg.notices@.take(i + 1).drop_last() =~= cfg.notices@.take(i as int));
        write_notice(&mut buf, i, &cfg.notices[i]);
        i = i + 1;
    }
    assert(cfg.notices@.take(cfg.notices@.len() as int) =~= cfg.notices@);
    let mez = mez_block(cfg);
    put_bytes(&mut buf, MEZ_OFFSET, mez.as_slice());
    buf
}

} // verus!
