//! The sign-server exchange: the DSGN login request and the parser of the
//! binary reply.
use vstd::prelude::*;
use vstd::utf8::{decode_utf8, valid_utf8};

use crate::cli::{
    AuthView, CharacterView, CliAuthResponse, CliCharacterData, CliFriendData, CliMezFesData,
    CliUserData, FriendView, MezFesView,
};
use crate::cursor::{be32, first_zero, rd_bytes, rd_pascal, rd_u16, rd_u32, rd_u8, truncated_message, ByteCursor};
use crate::packet::be16;
use crate::text::{decimal, decimal_string, from_utf8, from_utf8_lossy, utf8_lossy};

verus! {

/// The text and the "had errors" flag that `encoding_rs::SHIFT_JIS.decode`
/// gives for `bytes`.
pub uninterp spec fn sjis_decode_result(bytes: Seq<u8>) -> (Seq<char>, bool);

/// The bytes that `encoding_rs::SHIFT_JIS.encode` gives for `text`.
pub uninterp spec fn sjis_encode_result(text: Seq<char>) -> Seq<u8>;

/// Wraps `encoding_rs::SHIFT_JIS.decode`: the decoded text and whether
/// malformed sequences were met, named as a function of the bytes.
#[verifier::external_body]
fn shift_jis_decode(bytes: &[u8]) -> (r: (String, bool))
    ensures
        (r.0@, r.1) == sjis_decode_result(bytes@),
{
    let (text, _, malformed) = encoding_rs::SHIFT_JIS.decode(bytes);
    (text.into_owned(), malformed)
}

/// Wraps `encoding_rs::SHIFT_JIS.encode`: the encoded bytes, named as a
/// function of the text.
#[verifier::external_body]
fn shift_jis_encode(input: &str) -> (r: Vec<u8>)
    ensures
        r@ == sjis_encode_result(input@),
{
    let (bytes, _, _) = encoding_rs::SHIFT_JIS.encode(input);
    bytes.into_owned()
}

/// The text of Shift_JIS `bytes`; bytes that are not Shift_JIS are read as
/// UTF-8 instead.
pub open spec fn decode_sjis_spec(bytes: Seq<u8>) -> Seq<char> {
    let (text, malformed) = sjis_decode_result(bytes);
    if malformed {
        utf8_lossy(bytes)
    } else {
        text
    }
}

/// Decodes Shift_JIS text, falling back to UTF-8 when it is malformed.
pub fn decode_sjis(bytes: &[u8]) -> (s: String)
    ensures
        s@ == decode_sjis_spec(bytes@),
{
    let (text, malformed) = shift_jis_decode(bytes);
    if malformed {
        from_utf8_lossy(bytes)
    } else {
        text
    }
}

/// Encodes text as Shift_JIS.
pub fn encode_sjis(input: &str) -> (v: Vec<u8>)
    ensures
        v@ == sjis_encode_result(input@),
{
    shift_jis_encode(input)
}

/// The bytes of the request type "DSGN:041".
pub open spec fn dsgn_tag() -> Seq<u8> {
    seq![68u8, 83u8, 71u8, 78u8, 58u8, 48u8, 52u8, 49u8]
}

/// The DSGN login request for `username` and `password`.
pub open spec fn sign_request_spec(username: Seq<char>, password: Seq<char>) -> Seq<u8> {
    dsgn_tag() + seq![0u8] + sjis_encode_result(username) + seq![0u8] + sjis_encode_result(
        password,
    ) + seq![0u8, 0u8]
}

fn append_bytes(out: &mut Vec<u8>, bytes: &[u8])
    ensures
        final(out)@ == old(out)@ + bytes@,
{
    let mut i: usize = 0;
    let ghost start = out@;
    while i < bytes.len()
        invariant
            i <= bytes@.len(),
            out@ =~= start + bytes@.take(i as int),
        decreases bytes@.len() - i,
    {
        out.push(bytes[i]);
        i = i + 1;
    }
    assert(bytes@.take(bytes@.len() as int) =~= bytes@);
}

/// Builds the DSGN login request: the request type, the user name and the
/// password in Shift_JIS, each ended by a zero byte, and a final zero byte.
pub fn build_sign_request(username: &str, password: &str) -> (payload: Vec<u8>)
    ensures
        payload@ == sign_request_spec(username@, password@),
{
    let user_sjis = encode_sjis(username);
    let pass_sjis = encode_sjis(password);
    let mut payload: Vec<u8> = Vec::new();
    payload.push(68);
    payload.push(83);
    payload.push(71);
    payload.push(78);
    payload.push(58);
    payload.push(48);
    payload.push(52);
    payload.push(49);
    payload.push(0);
    append_bytes(&mut payload, user_sjis.as_slice());
    payload.push(0);
    append_bytes(&mut payload, pass_sjis.as_slice());
    payload.push(0);
    payload.push(0);
    proof {
        assert(payload@ =~= sign_request_spec(username@, password@));
    }
    payload
}

/// The character record that starts at `q` (which must be in range).
pub open spec fn character_at(d: Seq<u8>, q: int) -> CharacterView {
    let name_bytes = d.subrange(q + 16, q + 32);
    CharacterView {
        id: be32(d[q], d[q + 1], d[q + 2], d[q + 3]),
        name: utf8_lossy(name_bytes.take(first_zero(name_bytes))),
        is_female: d[q + 12] != 0,
        weapon: be16(d[q + 6], d[q + 7]) as u32,
        hr: be16(d[q + 4], d[q + 5]) as u32,
        gr: be16(d[q + 64], d[q + 65]) as u32,
        last_login: be32(d[q + 8], d[q + 9], d[q + 10], d[q + 11]),
        is_new: false,
    }
}

/// The `n` character records from `p`.
pub open spec fn characters_at(d: Seq<u8>, p: int, n: nat) -> Seq<CharacterView> {
    Seq::new(n, |k: int| character_at(d, p + 68 * k))
}

/// Skips `n` length-prefixed strings from `p`; `None` when one is cut short.
pub open spec fn skip_pascals(d: Seq<u8>, p: int, n: nat) -> Option<int>
    decreases n,
{
    if n == 0 {
        Some(p)
    } else {
        match skip_pascals(d, p, (n - 1) as nat) {
            None => None,
            Some(q) => match rd_pascal(d, q) {
                None => None,
                Some((_, r)) => Some(r),
            },
        }
    }
}

/// One friend entry at `p`: two `u32` ids and a name.
pub open spec fn friend_at(d: Seq<u8>, p: int) -> Option<(FriendView, int)> {
    match rd_u32(d, p) {
        None => None,
        Some((cid, p1)) => match rd_u32(d, p1) {
            None => None,
            Some((id, p2)) => match rd_pascal(d, p2) {
                None => None,
                Some((name, p3)) => Some((FriendView { cid, id, name }, p3)),
            },
        },
    }
}

/// `n` friend entries from `p`.
pub open spec fn friends_at(d: Seq<u8>, p: int, n: nat) -> Option<(Seq<FriendView>, int)>
    decreases n,
{
    if n == 0 {
        Some((Seq::empty(), p))
    } else {
        match friends_at(d, p, (n - 1) as nat) {
            None => None,
            Some((fs, q)) => match friend_at(d, q) {
                None => None,
                Some((f, r)) => Some((fs.push(f), r)),
            },
        }
    }
}

/// A friend list at `p`: a count byte, where 255 means a `u16` count
/// follows and the list is not read.
pub open spec fn friend_list_at(d: Seq<u8>, p: int) -> Option<(Seq<FriendView>, int)> {
    match rd_u8(d, p) {
        None => None,
        Some((count, p1)) => if count == 255 {
            match rd_u16(d, p1) {
                None => None,
                Some((_, p2)) => Some((Seq::empty(), p2)),
            }
        } else {
            friends_at(d, p1, count as nat)
        },
    }
}

/// The notice section at `p`: a flag byte and, when it is set, two padding
/// bytes, a `u16` length and that many bytes less one of Shift_JIS text.
pub open spec fn notices_at(d: Seq<u8>, p: int) -> Option<(Seq<Seq<char>>, int)> {
    match rd_u8(d, p) {
        None => None,
        Some((flag, p1)) => if flag == 0 {
            Some((Seq::empty(), p1))
        } else {
            match rd_bytes(d, p1, 2) {
                None => None,
                Some((_, p2)) => match rd_u16(d, p2) {
                    None => None,
                    Some((len, p3)) => if len == 0 {
                        Some((Seq::empty(), p3))
                    } else {
                        match rd_bytes(d, p3, len - 1) {
                            None => None,
                            Some((b, p4)) => Some((seq![decode_sjis_spec(b)], p4)),
                        }
                    },
                },
            }
        },
    }
}

/// The length word of a notice section at `p`: the big-endian `u16` after
/// the flag byte and the two padding bytes.
pub open spec fn notice_len_at(d: Seq<u8>, p: int) -> int {
    d[p + 3] as int * 256 + d[p + 4] as int
}

/// The notice section of a sign reply at `p`.  A zero flag byte is the
/// whole section and gives no notice.  Otherwise two padding bytes and a
/// big-endian length L follow; L = 0 gives no notice and ends the section
/// after the length; otherwise the notice is the L - 1 bytes after the
/// length, read as Shift_JIS, so the section takes 1 + 2 + 2 + (L - 1)
/// bytes.  A section that runs past the end of the reply is refused.
pub proof fn lemma_notice_section(d: Seq<u8>, p: int)
    requires
        0 <= p < d.len(),
    ensures
        d[p] == 0 ==> notices_at(d, p) == Some((Seq::<Seq<char>>::empty(), p + 1)),
        d[p] != 0 && p + 5 > d.len() ==> notices_at(d, p) is None,
        d[p] != 0 && p + 5 <= d.len() && notice_len_at(d, p) == 0 ==> notices_at(d, p) == Some(
            (Seq::<Seq<char>>::empty(), p + 5),
        ),
        d[p] != 0 && p + 5 <= d.len() && notice_len_at(d, p) >= 1 && p + 4 + notice_len_at(d, p) <= d.len()
            ==> notices_at(d, p) == Some(
            (
                seq![decode_sjis_spec(d.subrange(p + 5, p + 4 + notice_len_at(d, p)))],
                p + 4 + notice_len_at(d, p),
            ),
        ),
        d[p] != 0 && p + 5 <= d.len() && notice_len_at(d, p) >= 1 && p + 4 + notice_len_at(d, p) > d.len()
            ==> notices_at(d, p) is None,
{
    if p + 5 <= d.len() {
        assert(be16(d[p + 3], d[p + 4]) as int == notice_len_at(d, p));
    }
}

/// In a parsed sign reply, the notices are those of the notice section
/// after the friend and guildmate lists, and the rights are the second
/// big-endian `u32` right after that section: with a notice of length word
/// L at `q`, the notice is the L - 1 bytes from q + 5 and the rights are the
/// four bytes from q + L + 8.
pub proof fn lemma_rights_follow_notice(
    d: Seq<u8>,
    p: int,
    head: (u8, u32, Seq<char>, u32, Seq<CharacterView>),
)
    ensures
        reply_tail(d, p, head) matches Ok(v) ==> {
            let q = friend_list_at(d, friend_list_at(d, p).unwrap().1).unwrap().1;
            &&& notices_at(d, q) matches Some((ns, e)) && v.notices == ns && v.rights == be32(
                d[e + 4],
                d[e + 5],
                d[e + 6],
                d[e + 7],
            )
            &&& (0 <= q < d.len() && d[q] != 0 && q + 5 <= d.len() && notice_len_at(d, q) >= 1) ==> {
                &&& v.notices == seq![decode_sjis_spec(d.subrange(q + 5, q + 4 + notice_len_at(d, q)))]
                &&& v.rights == be32(
                    d[q + notice_len_at(d, q) + 8],
                    d[q + notice_len_at(d, q) + 9],
                    d[q + notice_len_at(d, q) + 10],
                    d[q + notice_len_at(d, q) + 11],
                )
            }
        },
{
    if reply_tail(d, p, head) is Ok {
        let q = friend_list_at(d, friend_list_at(d, p).unwrap().1).unwrap().1;
        if 0 <= q < d.len() {
            lemma_notice_section(d, q);
        }
    }
}

/// The tickets that the MezFes tail lists: the first is the solo count, the
/// second the group count.
pub open spec fn ticket_counts(d: Seq<u8>, p: int, n: nat) -> (u32, u32) {
    (
        if n >= 1 {
            be32(d[p], d[p + 1], d[p + 2], d[p + 3])
        } else {
            0
        },
        if n >= 2 {
            be32(d[p + 4], d[p + 5], d[p + 6], d[p + 7])
        } else {
            0
        },
    )
}

/// The MezFes tail, which takes the last 38 bytes: the expiry time, a
/// reserved word, the event id, start and end, a ticket count and tickets,
/// a stall count and stalls.
pub open spec fn mez_fes_tail(d: Seq<u8>) -> Option<(u32, MezFesView)> {
    let p = d.len() - 38;
    match rd_u32(d, p) {
        None => None,
        Some((expiry, _)) => {
            if d.len() < p + 21 {
                None
            } else {
                let tc = d[p + 20];
                let tp = p + 21;
                if tp + 4 * tc + 1 > d.len() {
                    None
                } else {
                    let sc = d[tp + 4 * tc];
                    let sp = tp + 4 * tc + 1;
                    if sp + sc > d.len() {
                        None
                    } else {
                        let (solo, group) = ticket_counts(d, tp, tc as nat);
                        Some(
                            (
                                expiry,
                                MezFesView {
                                    id: be32(d[p + 8], d[p + 9], d[p + 10], d[p + 11]),
                                    start: be32(d[p + 12], d[p + 13], d[p + 14], d[p + 15]),
                                    end: be32(d[p + 16], d[p + 17], d[p + 18], d[p + 19]),
                                    solo_tickets: solo,
                                    group_tickets: group,
                                    stalls: Seq::new(sc as nat, |k: int| d[sp + k] as u32),
                                },
                            ),
                        )
                    }
                }
            }
        },
    }
}

/// The text of the 16 token bytes: their UTF-8 text when they are valid
/// UTF-8, else the empty text.
pub open spec fn token_text(b: Seq<u8>) -> Seq<char> {
    if valid_utf8(b) {
        decode_utf8(b)
    } else {
        Seq::empty()
    }
}

/// Whether parsing `d` would reach the list of patch-server strings and find
/// one of them cut short (the reply cannot be parsed then at all).
pub open spec fn patch_list_cut_short(d: Seq<u8>) -> bool {
    d.len() >= 28 && d[0] == 1 && skip_pascals(d, 28, d[1] as nat) is None
}

/// The message for a filter blob that runs past the end of the reply.
pub open spec fn filter_message(end: nat, len: nat) -> Seq<char> {
    "truncated filters: filter ends at "@ + decimal(end) + " but data is only "@ + decimal(len)
        + " bytes"@
}

/// The part of the reply after the character records, from `p` (friends
/// onwards), given the fields read before it.
pub open spec fn reply_tail(
    d: Seq<u8>,
    p: int,
    head: (u8, u32, Seq<char>, u32, Seq<CharacterView>),
) -> Result<AuthView, Seq<char>> {
    let (entrance_count, token_id, token, current_ts, characters) = head;
    match friend_list_at(d, p) {
        None => Err(truncated_message()),
        Some((friends, p1)) => match friend_list_at(d, p1) {
            None => Err(truncated_message()),
            Some((_, p2)) => match notices_at(d, p2) {
                None => Err(truncated_message()),
                Some((notices, p3)) => match rd_u32(d, p3) {
                    None => Err(truncated_message()),
                    Some((_, p4)) => match rd_u32(d, p4) {
                        None => Err(truncated_message()),
                        Some((rights, p5)) => match rd_u16(d, p5) {
                            None => Err(truncated_message()),
                            Some((filter_len, _)) => if p5 + 2 + filter_len > d.len() {
                                Err(filter_message((p5 + 2 + filter_len) as nat, d.len()))
                            } else {
                                match mez_fes_tail(d) {
                                    None => Err(truncated_message()),
                                    Some((expiry_ts, mez)) => Ok(
                                        AuthView {
                                            current_ts,
                                            expiry_ts,
                                            entrance_count: entrance_count as u32,
                                            notices,
                                            token_id,
                                            token,
                                            rights,
                                            characters,
                                            mez_fez: Some(mez),
                                            friends,
                                            patch_server: Seq::empty(),
                                        },
                                    ),
                                }
                            },
                        },
                    },
                },
            },
        },
    }
}

/// What parsing the reply `d` gives: the reply, or the message it is refused with.
pub open spec fn sign_response_spec(d: Seq<u8>) -> Result<AuthView, Seq<char>> {
    if d.len() == 0 {
        Err("empty sign response"@)
    } else if d[0] != 1 {
        Err("sign failed with code "@ + decimal(d[0] as nat))
    } else if d.len() < 8 {
        Err(truncated_message())
    } else if d.len() < 24 {
        Err("truncated token"@)
    } else if d.len() < 28 {
        Err(truncated_message())
    } else {
        let patch_count = d[1];
        let entrance_count = d[2];
        let char_count = d[3];
        let token_id = be32(d[4], d[5], d[6], d[7]);
        let token = token_text(d.subrange(8, 24));
        let current_ts = be32(d[24], d[25], d[26], d[27]);
        let p0 = skip_pascals(d, 28, patch_count as nat).unwrap();
        match rd_pascal(d, p0) {
            None => Err(truncated_message()),
            Some((_, p1)) => if p1 + 68 * char_count > d.len() {
                Err(truncated_message())
            } else {
                reply_tail(
                    d,
                    p1 + 68 * char_count,
                    (
                        entrance_count,
                        token_id,
                        token,
                        current_ts,
                        characters_at(d, p1, char_count as nat),
                    ),
                )
            },
        }
    }
}

fn concat_message(a: String, b: &str) -> (r: String)
    ensures
        r@ == a@ + b@,
{
    let mut s = a;
    s.append(b);
    s
}

fn skip_patch_list(cur: &mut ByteCursor, n: u8)
    requires
        skip_pascals(old(cur).data@, old(cur).pos as int, n as nat) is Some,
    ensures
        final(cur).data@ == old(cur).data@,
        final(cur).pos == skip_pascals(old(cur).data@, old(cur).pos as int, n as nat).unwrap(),
        final(cur).pos >= old(cur).pos,
{
    let ghost start = cur.pos as int;
    let mut i: u8 = 0;
    proof {
        lemma_skip_pascals_prefix(cur.data@, start, i as nat, n as nat);
    }
    while i < n
        invariant
            i <= n,
            cur.data@ == old(cur).data@,
            start == old(cur).pos,
            skip_pascals(cur.data@, start, n as nat) is Some,
            skip_pascals(cur.data@, start, i as nat) == Some(cur.pos as int),
            cur.pos >= start,
        decreases n - i,
    {
        proof {
            lemma_skip_pascals_prefix(cur.data@, start, (i + 1) as nat, n as nat);
        }
        cur.skip_pascal_string();
        i = i + 1;
    }
}

proof fn lemma_skip_pascals_prefix(d: Seq<u8>, p: int, i: nat, n: nat)
    requires
        i <= n,
        skip_pascals(d, p, n) is Some,
    ensures
        skip_pascals(d, p, i) is Some,
    decreases n - i,
{
    if i < n {
        lemma_skip_pascals_prefix(d, p, (i + 1) as nat, n);
    }
}

fn read_character(cur: &mut ByteCursor) -> (r: Result<CliCharacterData, String>)
    requires
        old(cur).pos + 68 <= old(cur).data@.len(),
    ensures
        final(cur).data@ == old(cur).data@,
        final(cur).pos == old(cur).pos + 68,
        r matches Ok(c) && c@ == character_at(old(cur).data@, old(cur).pos as int),
{
    let id = cur.read_u32_be()?;
    let hr = cur.read_u16_be()?;
    let weapon = cur.read_u16_be()?;
    let last_login = cur.read_u32_be()?;
    let is_female: bool = cur.read_u8()? != 0;
    let _is_new: u8 = cur.read_u8()?;
    let _old_gr: u8 = cur.read_u8()?;
    let _use_u16_gr: u8 = cur.read_u8()?;
    let name = cur.read_padded_string(16)?;
    cur.skip_bytes(32)?;
    let gr = cur.read_u16_be()?;
    let _unk1: u8 = cur.read_u8()?;
    let _unk2: u8 = cur.read_u8()?;
    Ok(
        CliCharacterData {
            id,
            name,
            is_female,
            weapon: weapon as u32,
            hr: hr as u32,
            gr: gr as u32,
            last_login,
            is_new: false,
        },
    )
}

fn read_characters(cur: &mut ByteCursor, count: u8) -> (r: Result<Vec<CliCharacterData>, String>)
    ensures
        final(cur).data@ == old(cur).data@,
        if old(cur).pos + 68 * count <= old(cur).data@.len() {
            &&& r matches Ok(cs) && cs@.map_values(|c: CliCharacterData| c@) == characters_at(
                old(cur).data@,
                old(cur).pos as int,
                count as nat,
            )
            &&& final(cur).pos == old(cur).pos + 68 * count
        } else {
            r matches Err(e) && e@ == truncated_message()
        },
{
    let start = cur.pos;
    if cur.pos > cur.data.len() || (cur.data.len() - cur.pos) / 68 < count as usize {
        assert(start + 68 * count > cur.data@.len()) by (nonlinear_arith)
            requires
                start > cur.data@.len() || (cur.data@.len() - start) / 68 < count,
        ;
        return Err("truncated data".to_string());
    }
    assert(start + 68 * count <= cur.data@.len()) by (nonlinear_arith)
        requires
            start <= cur.data@.len(),
            (cur.data@.len() - start) / 68 >= count,
    ;
    let mut characters: Vec<CliCharacterData> = Vec::new();
    let mut i: u8 = 0;
    while i < count
        invariant
            i <= count,
            cur.data@ == old(cur).data@,
            start == old(cur).pos,
            start + 68 * count <= cur.data@.len(),
            cur.pos == start + 68 * i,
            characters@.map_values(|c: CliCharacterData| c@) =~= characters_at(
                cur.data@,
                start as int,
                i as nat,
            ),
        decreases count - i,
    {
        assert(cur.pos + 68 <= cur.data@.len()) by (nonlinear_arith)
            requires
                cur.pos == start + 68 * i,
                i < count,
                start + 68 * count <= cur.data@.len(),
        ;
        let c = match read_character(cur) {
            Ok(c) => c,
            Err(e) => return Err(e),
        };
        let ghost before = characters@.map_values(|c: CliCharacterData| c@);
        characters.push(c);
        proof {
            assert(characters@.map_values(|c: CliCharacterData| c@) =~= before.push(c@));
            assert(characters_at(cur.data@, start as int, (i + 1) as nat) =~= characters_at(
                cur.data@,
                start as int,
                i as nat,
            ).push(character_at(cur.data@, start + 68 * i)));
        }
        i = i + 1;
    }
    Ok(characters)
}

fn read_friend(cur: &mut ByteCursor) -> (r: Result<CliFriendData, String>)
    ensures
        final(cur).data@ == old(cur).data@,
        match friend_at(old(cur).data@, old(cur).pos as int) {
            Some((f, p)) => r matches Ok(x) && x@ == f && final(cur).pos == p,
            None => r matches Err(e) && e@ == truncated_message(),
        },
        r is Ok ==> final(cur).pos >= old(cur).pos + 9,
{
    let cid = cur.read_u32_be()?;
    let id = cur.read_u32_be()?;
    let name = cur.read_pascal_string()?;
    Ok(CliFriendData { cid, id, name })
}

fn read_friend_list(cur: &mut ByteCursor) -> (r: Result<Vec<CliFriendData>, String>)
    ensures
        final(cur).data@ == old(cur).data@,
        match friend_list_at(old(cur).data@, old(cur).pos as int) {
            Some((fs, p)) => r matches Ok(x) && x@.map_values(|f: CliFriendData| f@) == fs
                && final(cur).pos == p,
            None => r matches Err(e) && e@ == truncated_message(),
        },
        r is Ok ==> final(cur).pos >= old(cur).pos + 1,
{
    let ghost d = cur.data@;
    let count = cur.read_u8()?;
    let mut friends: Vec<CliFriendData> = Vec::new();
    if count == 255 {
        let _extended: u16 = cur.read_u16_be()?;
        proof {
            assert(friends@.map_values(|f: CliFriendData| f@) =~= Seq::<FriendView>::empty());
        }
        return Ok(friends);
    }
    let ghost p1 = cur.pos as int;
    assert(friend_list_at(d, old(cur).pos as int) == friends_at(d, p1, count as nat));
    let mut i: u8 = 0;
    while i < count
        invariant
            i <= count,
            cur.data@ == d,
            d == old(cur).data@,
            friend_list_at(d, old(cur).pos as int) == friends_at(d, p1, count as nat),
            friends_at(d, p1, i as nat) == Some(
                (friends@.map_values(|f: CliFriendData| f@), cur.pos as int),
            ),
            cur.pos >= p1,
            p1 == old(cur).pos + 1,
        decreases count - i,
    {
        let ghost before = friends@.map_values(|f: CliFriendData| f@);
        let f = match read_friend(cur) {
            Ok(f) => f,
            Err(e) => {
                proof {
                    lemma_friends_at_stops(d, p1, (i + 1) as nat, count as nat);
                }
                return Err(e);
            },
        };
        friends.push(f);
        proof {
            assert(friends@.map_values(|f: CliFriendData| f@) =~= before.push(f@));
        }
        i = i + 1;
    }
    Ok(friends)
}

proof fn lemma_friends_at_stops(d: Seq<u8>, p: int, i: nat, n: nat)
    requires
        i <= n,
        friends_at(d, p, i) is None,
    ensures
        friends_at(d, p, n) is None,
    decreases n - i,
{
    if i < n {
        lemma_friends_at_stops(d, p, (i + 1) as nat, n);
    }
}

fn read_notices(cur: &mut ByteCursor) -> (r: Result<Vec<String>, String>)
    ensures
        final(cur).data@ == old(cur).data@,
        match notices_at(old(cur).data@, old(cur).pos as int) {
            Some((ns, p)) => r matches Ok(x) && x@.map_values(|n: String| n@) == ns
                && final(cur).pos == p,
            None => r matches Err(e) && e@ == truncated_message(),
        },
        r is Ok ==> final(cur).pos >= old(cur).pos + 1,
{
    let mut notices: Vec<String> = Vec::new();
    let has_notice: bool = cur.read_u8()? != 0;
    if has_notice {
        let _pad1: u8 = cur.read_u8()?;
        let _pad2: u8 = cur.read_u8()?;
        let notice_len = cur.read_u16_be()?;
        if notice_len > 0 {
            let notice_bytes = cur.read_bytes((notice_len as usize) - 1)?;
            notices.push(decode_sjis(notice_bytes.as_slice()));
            proof {
                assert(notices@.map_values(|n: String| n@) =~= seq![
                    decode_sjis_spec(notice_bytes@),
                ]);
            }
            return Ok(notices);
        }
    }
    proof {
        assert(notices@.map_values(|n: String| n@) =~= Seq::<Seq<char>>::empty());
    }
    Ok(notices)
}

fn read_mez_fes_tail(data: &[u8]) -> (r: Result<(u32, CliMezFesData), String>)
    requires
        data@.len() >= 42,
    ensures
        match mez_fes_tail(data@) {
            Some((expiry, mez)) => r matches Ok((e, m)) && e == expiry && m@ == mez,
            None => r matches Err(e) && e@ == truncated_message(),
        },
{
    let mut cur = ByteCursor { data, pos: data.len() - 38 };
    let ghost p = data@.len() - 38;
    let expiry_ts = cur.read_u32_be()?;
    let _extra_zero: u32 = cur.read_u32_be()?;
    let mez_event_id = cur.read_u32_be()?;
    let mez_start = cur.read_u32_be()?;
    let mez_end = cur.read_u32_be()?;
    let ticket_count: u8 = cur.read_u8()?;
    let ghost tp = p + 21;
    let mut solo_tickets: u32 = 0;
    let mut group_tickets: u32 = 0;
    let mut i: u8 = 0;
    while i < ticket_count
        invariant
            cur.data@ == data@,
            data@.len() >= 42,
            p == data@.len() - 38,
            tp == p + 21,
            ticket_count == data@[p + 20],
            i <= ticket_count,
            cur.pos == tp + 4 * i,
            tp + 4 * i <= data@.len(),
            i >= 1 ==> solo_tickets == be32(data@[tp], data@[tp + 1], data@[tp + 2], data@[tp + 3]),
            i < 1 ==> solo_tickets == 0,
            i >= 2 ==> group_tickets == be32(
                data@[tp + 4],
                data@[tp + 5],
                data@[tp + 6],
                data@[tp + 7],
            ),
            i < 2 ==> group_tickets == 0,
        decreases ticket_count - i,
    {
        let val = match cur.read_u32_be() {
            Ok(v) => v,
            Err(e) => {
                assert(tp + 4 * ticket_count + 1 > data@.len());
                assert(mez_fes_tail(data@) is None);
                return Err(e);
            },
        };
        if i == 0 {
            solo_tickets = val;
        } else if i == 1 {
            group_tickets = val;
        }
        i = i + 1;
    }
    assert(cur.pos == tp + 4 * ticket_count);
    let stall_count: u8 = match cur.read_u8() {
        Ok(v) => v,
        Err(e) => {
            assert(mez_fes_tail(data@) is None);
            return Err(e);
        },
    };
    assert(stall_count == data@[tp + 4 * ticket_count]);
    let ghost sp = cur.pos as int;
    let mut stalls: Vec<u32> = Vec::new();
    let mut k: u8 = 0;
    while k < stall_count
        invariant
            cur.data@ == data@,
            sp == tp + 4 * ticket_count + 1,
            tp == data@.len() - 17,
            ticket_count == data@[data@.len() - 18],
            stall_count == data@[tp + 4 * ticket_count],
            k <= stall_count,
            cur.pos == sp + k,
            sp + k <= data@.len(),
            stalls@ =~= Seq::new(k as nat, |j: int| data@[sp + j] as u32),
        decreases stall_count - k,
    {
        let b = match cur.read_u8() {
            Ok(b) => b,
            Err(e) => {
                assert(sp + stall_count > data@.len());
                assert(mez_fes_tail(data@) is None);
                return Err(e);
            },
        };
        stalls.push(b as u32);
        k = k + 1;
    }
    let mez = CliMezFesData {
        id: mez_event_id,
        start: mez_start,
        end: mez_end,
        solo_tickets,
        group_tickets,
        stalls,
    };
    proof {
        let d = data@;
        assert(rd_u32(d, p) is Some);
        assert(!(d.len() < p + 21));
        assert(!(tp + 4 * ticket_count + 1 > d.len()));
        assert(!(sp + stall_count > d.len()));
        let (ex, m) = mez_fes_tail(d).unwrap();
        assert(ex == expiry_ts);
        assert(m.id == mez_event_id);
        assert(m.start == mez_start);
        assert(m.end == mez_end);
        assert(m.solo_tickets == solo_tickets);
        assert(m.group_tickets == group_tickets);
        assert(m.stalls =~= stalls@);
    }
    Ok((expiry_ts, mez))
}

/// Parses the sign server's reply to a DSGN request: the result code, the
/// session token, the characters, friends, notice, rights and the MezFes
/// event at the end of the reply.  Patch-server addresses, the entrance
/// address, guildmates and the filter blob are skipped.
pub fn parse_sign_response(data: &[u8]) -> (r: Result<CliAuthResponse, String>)
    requires
        !patch_list_cut_short(data@),
    ensures
        match sign_response_spec(data@) {
            Ok(v) => r matches Ok(a) && a@ == v,
            Err(m) => r matches Err(e) && e@ == m,
        },
{
    if data.len() == 0 {
        return Err("empty sign response".to_string());
    }
    let mut cursor = ByteCursor::new(data);
    let result_code = cursor.read_u8()?;
    if result_code != 1 {
        let code = decimal_string(result_code as u128);
        return Err(concat_message("sign failed with code ".to_string(), code.as_str()));
    }
    let patch_count: u8 = cursor.read_u8()?;
    let entrance_count: u8 = cursor.read_u8()?;
    let char_count: u8 = cursor.read_u8()?;
    let token_id = cursor.read_u32_be()?;
    let token_bytes = match cursor.read_bytes(16) {
        Ok(b) => b,
        Err(_) => return Err("truncated token".to_string()),
    };
    let ghost tb = token_bytes@;
    let token = match from_utf8(token_bytes) {
        Some(t) => t,
        None => String::new(),
    };
    let current_ts = cursor.read_u32_be()?;
    assert(cursor.pos == 28);
    skip_patch_list(&mut cursor, patch_count);
    let _entrance = cursor.read_pascal_string()?;
    let characters = read_characters(&mut cursor, char_count)?;
    let ghost head = (entrance_count, token_id, tb, current_ts, characters@);
    let friends = read_friend_list(&mut cursor)?;
    let _guildmates = read_friend_list(&mut cursor)?;
    let notices = read_notices(&mut cursor)?;
    let _last_cid: u32 = cursor.read_u32_be()?;
    let rights = cursor.read_u32_be()?;
    let filter_start = cursor.pos;
    let filter_len = cursor.read_u16_be()?;
    let filter_end: u128 = (filter_start as u128) + 2 + (filter_len as u128);
    if filter_end > data.len() as u128 {
        let end_text = decimal_string(filter_end);
        let len_text = decimal_string(data.len() as u128);
        let mut msg = concat_message("truncated filters: filter ends at ".to_string(), end_text.as_str());
        msg = concat_message(msg, " but data is only ");
        msg = concat_message(msg, len_text.as_str());
        msg = concat_message(msg, " bytes");
        return Err(msg);
    }
    assert(data@.len() >= 42);
    let (expiry_ts, mez) = read_mez_fes_tail(data)?;
    let response = CliAuthResponse {
        current_ts,
        expiry_ts,
        entrance_count: entrance_count as u32,
        notices,
        user: CliUserData { token_id, token, rights },
        characters,
        mez_fez: Some(mez),
        friends,
        patch_server: String::new(),
    };
    Ok(response)
}


/// Whether the reply `data` can be parsed at all: its list of patch-server
/// strings, when parsing gets that far, is there in full.
pub fn patch_list_readable(data: &[u8]) -> (b: bool)
    ensures
        b == !patch_list_cut_short(data@),
{
    if data.len() < 28 || data[0] != 1 {
        return true;
    }
    let n: u8 = data[1];
    let mut cur = ByteCursor { data, pos: 28 };
    let mut i: u8 = 0;
    while i < n
        invariant
            i <= n,
            n == data@[1],
            data@[0] == 1,
            data@.len() >= 28,
            cur.data@ == data@,
            skip_pascals(data@, 28, i as nat) == Some(cur.pos as int),
        decreases n - i,
    {
        match cur.read_pascal_string() {
            Ok(_) => {},
            Err(_) => {
                proof {
                    assert(skip_pascals(data@, 28, (i + 1) as nat) is None);
                    if skip_pascals(data@, 28, n as nat) is Some {
                        lemma_skip_pascals_prefix(data@, 28, (i + 1) as nat, n as nat);
                    }
                }
                return false;
            },
        }
        i = i + 1;
    }
    true
}

} // verus!
