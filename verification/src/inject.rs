//! Writing the friend list into the game client's friend table: the layout
//! of each entry and the check that the table is ready to be written.
use vstd::prelude::*;
use vstd::utf8::encode_utf8;

use crate::friends::{ext_id_chars, make_ext_id, BASE32_CAP};
use crate::mhf::FriendData;

verus! {

/// The size of the friend table.
pub const FRIEND_TABLE_SIZE: usize = 0x1000;

/// The size of one entry of the friend table.
pub const FRIEND_ENTRY_SIZE: usize = 0x30;

/// The most friends the table holds.
pub const MAX_FRIENDS: usize = 50;

/// How far each entry's text moves on from the previous one's.
pub const LEAD_STEP: usize = 4;

/// `s` with `bytes` written from position `pos`.
pub open spec fn put(s: Seq<u8>, pos: int, bytes: Seq<u8>) -> Seq<u8> {
    s.subrange(0, pos) + bytes + s.subrange(pos + bytes.len(), s.len() as int)
}

/// `n` zero bytes.
pub open spec fn zeros(n: nat) -> Seq<u8> {
    Seq::new(n, |i: int| 0u8)
}

/// The bytes of `v`, least significant first.
pub open spec fn le32(v: u32) -> Seq<u8> {
    seq![
        (v % 256) as u8,
        ((v / 256) % 256) as u8,
        ((v / 65536) % 256) as u8,
        (v / 16777216) as u8,
    ]
}

/// The header in front of the entries: 8 bytes for layouts whose first id
/// sits at 0x20, none otherwise.
pub open spec fn header_len(id0_off: int) -> int {
    if id0_off == 0x20 {
        8
    } else {
        0
    }
}

/// The smaller of two integers.
pub open spec fn min(a: int, b: int) -> int {
    if a < b {
        a
    } else {
        b
    }
}

/// `s` with its byte at `p` set to 0 when `p` is before `end`.
pub open spec fn zero_if_room(s: Seq<u8>, p: int, end: int) -> Seq<u8> {
    if p < end {
        s.update(p, 0u8)
    } else {
        s
    }
}

/// `p`, moved on by one when it is before `end`.
pub open spec fn step_if_room(p: int, end: int) -> int {
    if p < end {
        p + 1
    } else {
        p
    }
}

/// Where entry `i` begins, where its text begins and where its id sits.
pub open spec fn entry_offsets(i: int, id0_off: int) -> (int, int, int) {
    let hdr = header_len(id0_off);
    let base = 0x30 * i;
    (base, base + hdr + 4 * i, base + hdr + id0_off + 4 * i)
}

/// `s` with entry `i`'s text area and id cleared, and, for entries after
/// the first of a layout with a header, the two marker bytes set.
pub open spec fn entry_cleared(s: Seq<u8>, i: int, id0_off: int) -> Seq<u8> {
    let (base, start, id_pos) = entry_offsets(i, id0_off);
    let s1 = put(s, start, zeros((id0_off + 4) as nat));
    if header_len(id0_off) != 0 && i != 0 {
        s1.update(base + 3, 1u8).update(base + 4, 1u8)
    } else {
        s1
    }
}

/// `s` with the external id text written from `start`, as far as room
/// before `id_pos` allows, then up to two zero bytes; and the position after.
pub open spec fn ext_written(s: Seq<u8>, start: int, id_pos: int, ext: Seq<u8>) -> (Seq<u8>, int) {
    let n = min(ext.len() as int, id_pos - start);
    let s3 = put(s, start, ext.take(n));
    let c1 = start + n;
    let s4 = zero_if_room(s3, c1, id_pos);
    let c2 = step_if_room(c1, id_pos);
    let s5 = zero_if_room(s4, c2, id_pos);
    (s5, step_if_room(c2, id_pos))
}

/// `s` with the name written from `cur` and ended by a zero byte, as far as
/// room before `id_pos` allows.
pub open spec fn name_written(s: Seq<u8>, cur: int, id_pos: int, name: Seq<u8>) -> Seq<u8> {
    if cur < id_pos {
        let m = min(name.len() as int, id_pos - cur - 1);
        zero_if_room(put(s, cur, name.take(m)), cur + m, id_pos)
    } else {
        s
    }
}

/// The table `s` once entry `i` is written for a friend with external id
/// text `ext`, name bytes `name` and id `id`: the entry's text area and id
/// are cleared; entries after the first of a layout with a header get the
/// two marker bytes; then come the external id, two zero bytes, the name and
/// a zero byte, as far as room before the id allows; then the id.
pub open spec fn entry_written(s: Seq<u8>, i: int, id0_off: int, ext: Seq<u8>, name: Seq<u8>, id: u32) -> Seq<u8> {
    let (base, start, id_pos) = entry_offsets(i, id0_off);
    let (s5, c3) = ext_written(entry_cleared(s, i, id0_off), start, id_pos, ext);
    put(name_written(s5, c3, id_pos, name), id_pos, le32(id))
}

/// How many friends the table `len` bytes long takes: at most fifty, and
/// no more than whole entries fit.
pub open spec fn slots(friends: nat, len: nat) -> int {
    min(min(friends as int, 50), (len / 0x30) as int)
}

/// One past the last byte that writing entry `i` touches: the end of its id.
pub open spec fn entry_end(i: int, id0_off: int) -> int {
    0x30 * i + header_len(id0_off) + id0_off + 4 * i + 4
}

/// Whether every byte that writing the first `k` entries touches lies in a
/// table `len` bytes long.
pub open spec fn entries_fit(len: nat, id0_off: int, k: int) -> bool {
    k <= 0 || entry_end(k - 1, id0_off) <= len
}

/// The table once the first `k` friends are written, one after another.
pub open spec fn table_written(s: Seq<u8>, id0_off: int, friends: Seq<FriendData>, k: int) -> Seq<u8>
    decreases k,
{
    if k <= 0 {
        s
    } else {
        let f = friends[k - 1];
        entry_written(
            table_written(s, id0_off, friends, k - 1),
            k - 1,
            id0_off,
            encode_utf8(ext_id_chars(f.id as nat, 6)),
            encode_utf8(f.name@),
            f.id,
        )
    }
}

/// Writes `bytes` into `buf` from position `pos`.
pub(crate) fn put_bytes(buf: &mut Vec<u8>, pos: usize, bytes: &[u8])
    requires
        pos + bytes@.len() <= old(buf)@.len(),
    ensures
        final(buf)@ == put(old(buf)@, pos as int, bytes@),
{
    let total: usize = buf.len();
    let mut i: usize = 0;
    while i < bytes.len()
        invariant
            pos + bytes@.len() <= buf@.len(),
            buf@.len() <= usize::MAX,
            buf@.len() == old(buf)@.len(),
            i <= bytes@.len(),
            forall|j: int|
                0 <= j < buf@.len() ==> #[trigger] buf@[j] == if pos <= j < pos + i {
                    bytes@[j - pos]
                } else {
                    old(buf)@[j]
                },
        decreases bytes@.len() - i,
    {
        buf.set(pos + i, bytes[i]);
        i = i + 1;
    }
    assert(buf@ =~= put(old(buf)@, pos as int, bytes@));
}

/// Writes `n` zero bytes into `buf` from position `pos`.
fn put_zeros(buf: &mut Vec<u8>, pos: usize, n: usize)
    requires
        pos + n <= old(buf)@.len(),
    ensures
        final(buf)@ == put(old(buf)@, pos as int, zeros(n as nat)),
{
    let total: usize = buf.len();
    let mut i: usize = 0;
    while i < n
        invariant
            pos + n <= buf@.len(),
            buf@.len() <= usize::MAX,
            buf@.len() == old(buf)@.len(),
            i <= n,
            forall|j: int|
                0 <= j < buf@.len() ==> #[trigger] buf@[j] == if pos <= j < pos + i {
                    0u8
                } else {
                    old(buf)@[j]
                },
        decreases n - i,
    {
        buf.set(pos + i, 0u8);
        i = i + 1;
    }
    assert(buf@ =~= put(old(buf)@, pos as int, zeros(n as nat)));
}

/// The bytes of `v`, least significant first.
pub fn le32_bytes(v: u32) -> (b: Vec<u8>)
    ensures
        b@ == le32(v),
{
    let mut b: Vec<u8> = Vec::new();
    b.push((v % 256) as u8);
    b.push(((v / 256) % 256) as u8);
    b.push(((v / 65536) % 256) as u8);
    b.push((v / 16777216) as u8);
    assert(b@ =~= le32(v));
    b
}

/// Clears entry `i` and sets its marker bytes.
fn clear_entry(buf: &mut Vec<u8>, i: usize, id0_off: usize)
    requires
        i < 50,
        entry_end(i as int, id0_off as int) <= old(buf)@.len(),
    ensures
        final(buf)@ == entry_cleared(old(buf)@, i as int, id0_off as int),
{
    let total: usize = buf.len();
    let hdr: usize = if id0_off == 0x20 {
        8
    } else {
        0
    };
    let base = 0x30 * i;
    let start = base + hdr + 4 * i;
    put_zeros(buf, start, id0_off + 4);
    if hdr != 0 && i != 0 {
        buf.set(base + 3, 1u8);
        buf.set(base + 4, 1u8);
    }
}

/// Writes the external id text and the two zero bytes after it.
fn write_ext(buf: &mut Vec<u8>, start: usize, id_pos: usize, ext: &[u8]) -> (cur: usize)
    requires
        start <= id_pos,
        id_pos + 4 <= old(buf)@.len(),
    ensures
        (final(buf)@, cur as int) == ext_written(old(buf)@, start as int, id_pos as int, ext@),
        start <= cur <= id_pos,
{
    let n = if ext.len() < id_pos - start {
        ext.len()
    } else {
        id_pos - start
    };
    put_bytes(buf, start, &ext[0..n]);
    assert(ext@.subrange(0, n as int) =~= ext@.take(n as int));
    let mut cur = start + n;
    if cur < id_pos {
        buf.set(cur, 0u8);
        cur = cur + 1;
    }
    if cur < id_pos {
        buf.set(cur, 0u8);
        cur = cur + 1;
    }
    cur
}

/// Writes the name and the zero byte after it.
fn write_name(buf: &mut Vec<u8>, cur: usize, id_pos: usize, name: &[u8])
    requires
        cur <= id_pos,
        id_pos + 4 <= old(buf)@.len(),
    ensures
        final(buf)@ == name_written(old(buf)@, cur as int, id_pos as int, name@),
{
    if cur < id_pos {
        let m = if name.len() < id_pos - cur - 1 {
            name.len()
        } else {
            id_pos - cur - 1
        };
        put_bytes(buf, cur, &name[0..m]);
        assert(name@.subrange(0, m as int) =~= name@.take(m as int));
        if cur + m < id_pos {
            buf.set(cur + m, 0u8);
        }
    }
}

/// Writes entry `i` of the friend table.
fn write_entry(buf: &mut Vec<u8>, i: usize, id0_off: usize, ext: &[u8], name: &[u8], id: u32)
    requires
        i < 50,
        entry_end(i as int, id0_off as int) <= old(buf)@.len(),
    ensures
        final(buf)@ == entry_written(old(buf)@, i as int, id0_off as int, ext@, name@, id),
{
    let total: usize = buf.len();
    let hdr: usize = if id0_off == 0x20 {
        8
    } else {
        0
    };
    let base = 0x30 * i;
    let start = base + hdr + 4 * i;
    let id_pos = base + hdr + id0_off + 4 * i;
    clear_entry(buf, i, id0_off);
    let cur = write_ext(buf, start, id_pos, ext);
    write_name(buf, cur, id_pos, name);
    let idb = le32_bytes(id);
    put_bytes(buf, id_pos, idb.as_slice());
}

/// Writes the friends into the friend table `buf`, in order, as many as
/// whole entries fit (at most fifty); entries use the layout whose first id
/// sits at `id0_off`, and every byte written must lie in `buf`.
pub fn inject_blob(buf: &mut Vec<u8>, id0_off: usize, friends: &[FriendData])
    requires
        entries_fit(old(buf)@.len(), id0_off as int, slots(friends@.len(), old(buf)@.len())),
        forall|k: int| 0 <= k < friends@.len() ==> (#[trigger] friends@[k]).id < BASE32_CAP,
    ensures
        final(buf)@ == table_written(
            old(buf)@,
            id0_off as int,
            friends@,
            slots(friends@.len(), old(buf)@.len()),
        ),
{
    let mut count = friends.len();
    if count > MAX_FRIENDS {
        count = MAX_FRIENDS;
    }
    if count > buf.len() / FRIEND_ENTRY_SIZE {
        count = buf.len() / FRIEND_ENTRY_SIZE;
    }
    let mut i: usize = 0;
    while i < count
        invariant
            count == slots(friends@.len(), old(buf)@.len()),
            count <= 50,
            count <= friends@.len(),
            entries_fit(old(buf)@.len(), id0_off as int, count as int),
            buf@.len() == old(buf)@.len(),
            i <= count,
            forall|k: int| 0 <= k < friends@.len() ==> (#[trigger] friends@[k]).id < BASE32_CAP,
            buf@ == table_written(old(buf)@, id0_off as int, friends@, i as int),
        decreases count - i,
    {
        let f = &friends[i];
        let ext = make_ext_id(f.id);
        let ext_bytes = ext.as_str().as_bytes();
        let name_bytes = f.name.as_str().as_bytes();
        write_entry(buf, i, id0_off, ext_bytes, name_bytes, f.id);
        i = i + 1;
    }
}

/// Whether the friend table is ready to be written: none of the eight
/// 32-bit words at the start of the entries (`block`, 0x20 bytes) is zero.
pub open spec fn table_ready_spec(block: Seq<u8>) -> bool {
    forall|w: int| 0 <= w < 8 ==> !word_is_zero(block, w)
}

/// Whether the 32-bit word `w` of `block` is zero.
pub open spec fn word_is_zero(block: Seq<u8>, w: int) -> bool {
    block[4 * w] == 0 && block[4 * w + 1] == 0 && block[4 * w + 2] == 0 && block[4 * w + 3] == 0
}

/// Whether the friend table is ready to be written.
pub fn friend_table_ready(block: &[u8]) -> (b: bool)
    requires
        block@.len() == 0x20,
    ensures
        b == table_ready_spec(block@),
{
    let mut w: usize = 0;
    while w < 8
        invariant
            block@.len() == 0x20,
            w <= 8,
            forall|v: int| 0 <= v < w ==> !word_is_zero(block@, v),
        decreases 8 - w,
    {
        if block[4 * w] == 0 && block[4 * w + 1] == 0 && block[4 * w + 2] == 0 && block[4 * w + 3]
            == 0 {
            assert(word_is_zero(block@, w as int));
            return false;
        }
        w = w + 1;
    }
    true
}

} // verus!
