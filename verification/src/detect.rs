//! Telling which game version a game folder holds from the version strings
//! inside its client libraries.
use vstd::prelude::*;

use crate::text::str_chars;
use crate::version::MhfVersion;

verus! {

/// The version strings the client libraries carry, each with the version it
/// marks, in the order they are tried.  All are ASCII.
pub open spec fn version_signatures_spec() -> Seq<(Seq<char>, MhfVersion)> {
    seq![
        ("MONSTER HUNTER FRONTIER SEASON 6.0"@, MhfVersion::S6),
        ("MONSTER HUNTER FRONTIER SEASON 7.0"@, MhfVersion::S7K),
        ("MONSTER HUNTER FRONTIER ONLINE v1.20_107869"@, MhfVersion::F4),
        ("v1.20_107869"@, MhfVersion::F4),
        ("MONSTER HUNTER FRONTIER FORWARD.4"@, MhfVersion::F4),
        ("MONSTER HUNTER FRONTIER ONLINE v1.20_125635"@, MhfVersion::F5),
        ("MONSTER HUNTER FRONTIER ONLINE v1.20_133710"@, MhfVersion::F5),
        ("v1.20_125635"@, MhfVersion::F5),
        ("v1.20_133710"@, MhfVersion::F5),
        ("MONSTER HUNTER FRONTIER FORWARD.5"@, MhfVersion::F5),
        ("MONSTER HUNTER FRONTIER G v1.22_153077"@, MhfVersion::G1),
        ("v1.22_153077"@, MhfVersion::G1),
        ("MONSTER HUNTER FRONTIER G v1.22_156129"@, MhfVersion::G1),
        ("v1.22_156129"@, MhfVersion::G1),
        ("MONSTER HUNTER FRONTIER G v1.23_187828"@, MhfVersion::G2),
        ("v1.23_187828"@, MhfVersion::G2),
        ("MONSTER HUNTER FRONTIER G3"@, MhfVersion::G3),
        ("MONSTER HUNTER FRONTIER G3.1"@, MhfVersion::G3_1),
        ("MONSTER HUNTER FRONTIER G3.2"@, MhfVersion::G3_2),
        ("MONSTER HUNTER FRONTIER GG"@, MhfVersion::GG),
        ("MONSTER HUNTER FRONTIER G4"@, MhfVersion::GG),
        ("MONSTER HUNTER FRONTIER G5"@, MhfVersion::G5),
        ("MONSTER HUNTER FRONTIER G5.1"@, MhfVersion::G5_1),
        ("MONSTER HUNTER FRONTIER G5.2"@, MhfVersion::G5_2),
        ("MONSTER HUNTER FRONTIER G5.3"@, MhfVersion::G5_2),
        ("MONSTER HUNTER FRONTIER G v1.33_325336"@, MhfVersion::G6),
        ("MONSTER HUNTER FRONTIER G v1.33_326088"@, MhfVersion::G6),
        ("v1.33_325336"@, MhfVersion::G6),
        ("v1.33_326088"@, MhfVersion::G6),
        ("MONSTER HUNTER FRONTIER G6"@, MhfVersion::G6),
        ("MONSTER HUNTER FRONTIER G6.1"@, MhfVersion::G6),
        ("MONSTER HUNTER FRONTIER G7"@, MhfVersion::G7),
        ("MONSTER HUNTER FRONTIER G v1.38.19_e8966870"@, MhfVersion::G9_1),
        ("MONSTER HUNTER FRONTIER G v1.38.19_47c90390"@, MhfVersion::G9_1),
        ("v1.38.19_e8966870"@, MhfVersion::G9_1),
        ("v1.38.19_47c90390"@, MhfVersion::G9_1),
        ("MONSTER HUNTER FRONTIER G9"@, MhfVersion::G9_1),
        ("MONSTER HUNTER FRONTIER G9.1"@, MhfVersion::G9_1),
        ("MONSTER HUNTER FRONTIER G v1.41.30_c730c673"@, MhfVersion::G10_1),
        ("MONSTER HUNTER FRONTIER G v1.41.30_f5ed3a6a"@, MhfVersion::G10_1),
        ("MONSTER HUNTER FRONTIER G v1.41.32_8acc3715"@, MhfVersion::G10_1),
        ("MONSTER HUNTER FRONTIER G v1.41.32_5c06b547"@, MhfVersion::G10_1),
        ("v1.41.30_c730c673"@, MhfVersion::G10_1),
        ("v1.41.30_f5ed3a6a"@, MhfVersion::G10_1),
        ("v1.41.32_8acc3715"@, MhfVersion::G10_1),
        ("v1.41.32_5c06b547"@, MhfVersion::G10_1),
        ("MONSTER HUNTER FRONTIER G10"@, MhfVersion::G10_1),
        ("MONSTER HUNTER FRONTIER G10.1"@, MhfVersion::G10_1),
        ("MONSTER HUNTER FRONTIER Z v1.44.45_15a73eb7"@, MhfVersion::Z1),
        ("MONSTER HUNTER FRONTIER Z v1.44.45_dca95f5f"@, MhfVersion::Z1),
        ("v1.44.45_15a73eb7"@, MhfVersion::Z1),
        ("v1.44.45_dca95f5f"@, MhfVersion::Z1),
        ("MONSTER HUNTER FRONTIER Z1"@, MhfVersion::Z1),
        ("MONSTER HUNTER FRONTIER Z1.1"@, MhfVersion::Z1),
        ("MONSTER HUNTER FRONTIER Z1.2"@, MhfVersion::Z1),
        ("MONSTER HUNTER FRONTIER Z2"@, MhfVersion::Z2),
        ("MONSTER HUNTER FRONTIER Z2.1"@, MhfVersion::Z1),
        ("%c %s G Z2.2.%d:%d"@, MhfVersion::Z2T),
        ("MONSTER HUNTER FRONTIER Z2.2"@, MhfVersion::Z2T),
        ("MONSTER HUNTER FRONTIER Z2.3"@, MhfVersion::Z1),
        ("MONSTER HUNTER FRONTIER Z v1.52.79_73c49f52"@, MhfVersion::ZZ),
        ("MONSTER HUNTER FRONTIER Z v1.52.79_04d16dc4"@, MhfVersion::ZZ),
        ("v1.52.79_73c49f52"@, MhfVersion::ZZ),
        ("v1.52.79_04d16dc4"@, MhfVersion::ZZ),
        ("MONSTER HUNTER FRONTIER Z3"@, MhfVersion::ZZ),
        ("MONSTER HUNTER FRONTIER Z3.1"@, MhfVersion::ZZ),
        ("MONSTER HUNTER FRONTIER ZZ"@, MhfVersion::ZZ),
    ]
}

/// The version strings the client libraries carry, with their versions.
pub fn version_signatures() -> (v: Vec<(&'static str, MhfVersion)>)
    ensures
        v@.len() == version_signatures_spec().len(),
        forall|i: int|
            0 <= i < v@.len() ==> (#[trigger] v@[i]).0@ == version_signatures_spec()[i].0 && v@[i].1
                == version_signatures_spec()[i].1,
{
    let mut v: Vec<(&'static str, MhfVersion)> = Vec::new();
    v.push(("MONSTER HUNTER FRONTIER SEASON 6.0", MhfVersion::S6));
    v.push(("MONSTER HUNTER FRONTIER SEASON 7.0", MhfVersion::S7K));
    v.push(("MONSTER HUNTER FRONTIER ONLINE v1.20_107869", MhfVersion::F4));
    v.push(("v1.20_107869", MhfVersion::F4));
    v.push(("MONSTER HUNTER FRONTIER FORWARD.4", MhfVersion::F4));
    v.push(("MONSTER HUNTER FRONTIER ONLINE v1.20_125635", MhfVersion::F5));
    v.push(("MONSTER HUNTER FRONTIER ONLINE v1.20_133710", MhfVersion::F5));
    v.push(("v1.20_125635", MhfVersion::F5));
    v.push(("v1.20_133710", MhfVersion::F5));
    v.push(("MONSTER HUNTER FRONTIER FORWARD.5", MhfVersion::F5));
    v.push(("MONSTER HUNTER FRONTIER G v1.22_153077", MhfVersion::G1));
    v.push(("v1.22_153077", MhfVersion::G1));
    v.push(("MONSTER HUNTER FRONTIER G v1.22_156129", MhfVersion::G1));
    v.push(("v1.22_156129", MhfVersion::G1));
    v.push(("MONSTER HUNTER FRONTIER G v1.23_187828", MhfVersion::G2));
    v.push(("v1.23_187828", MhfVersion::G2));
    v.push(("MONSTER HUNTER FRONTIER G3", MhfVersion::G3));
    v.push(("MONSTER HUNTER FRONTIER G3.1", MhfVersion::G3_1));
    v.push(("MONSTER HUNTER FRONTIER G3.2", MhfVersion::G3_2));
    v.push(("MONSTER HUNTER FRONTIER GG", MhfVersion::GG));
    v.push(("MONSTER HUNTER FRONTIER G4", MhfVersion::GG));
    v.push(("MONSTER HUNTER FRONTIER G5", MhfVersion::G5));
    v.push(("MONSTER HUNTER FRONTIER G5.1", MhfVersion::G5_1));
    v.push(("MONSTER HUNTER FRONTIER G5.2", MhfVersion::G5_2));
    v.push(("MONSTER HUNTER FRONTIER G5.3", MhfVersion::G5_2));
    v.push(("MONSTER HUNTER FRONTIER G v1.33_325336", MhfVersion::G6));
    v.push(("MONSTER HUNTER FRONTIER G v1.33_326088", MhfVersion::G6));
    v.push(("v1.33_325336", MhfVersion::G6));
    v.push(("v1.33_326088", MhfVersion::G6));
    v.push(("MONSTER HUNTER FRONTIER G6", MhfVersion::G6));
    v.push(("MONSTER HUNTER FRONTIER G6.1", MhfVersion::G6));
    v.push(("MONSTER HUNTER FRONTIER G7", MhfVersion::G7));
    v.push(("MONSTER HUNTER FRONTIER G v1.38.19_e8966870", MhfVersion::G9_1));
    v.push(("MONSTER HUNTER FRONTIER G v1.38.19_47c90390", MhfVersion::G9_1));
    v.push(("v1.38.19_e8966870", MhfVersion::G9_1));
    v.push(("v1.38.19_47c90390", MhfVersion::G9_1));
    v.push(("MONSTER HUNTER FRONTIER G9", MhfVersion::G9_1));
    v.push(("MONSTER HUNTER FRONTIER G9.1", MhfVersion::G9_1));
    v.push(("MONSTER HUNTER FRONTIER G v1.41.30_c730c673", MhfVersion::G10_1));
    v.push(("MONSTER HUNTER FRONTIER G v1.41.30_f5ed3a6a", MhfVersion::G10_1));
    v.push(("MONSTER HUNTER FRONTIER G v1.41.32_8acc3715", MhfVersion::G10_1));
    v.push(("MONSTER HUNTER FRONTIER G v1.41.32_5c06b547", MhfVersion::G10_1));
    v.push(("v1.41.30_c730c673", MhfVersion::G10_1));
    v.push(("v1.41.30_f5ed3a6a", MhfVersion::G10_1));
    v.push(("v1.41.32_8acc3715", MhfVersion::G10_1));
    v.push(("v1.41.32_5c06b547", MhfVersion::G10_1));
    v.push(("MONSTER HUNTER FRONTIER G10", MhfVersion::G10_1));
    v.push(("MONSTER HUNTER FRONTIER G10.1", MhfVersion::G10_1));
    v.push(("MONSTER HUNTER FRONTIER Z v1.44.45_15a73eb7", MhfVersion::Z1));
    v.push(("MONSTER HUNTER FRONTIER Z v1.44.45_dca95f5f", MhfVersion::Z1));
    v.push(("v1.44.45_15a73eb7", MhfVersion::Z1));
    v.push(("v1.44.45_dca95f5f", MhfVersion::Z1));
    v.push(("MONSTER HUNTER FRONTIER Z1", MhfVersion::Z1));
    v.push(("MONSTER HUNTER FRONTIER Z1.1", MhfVersion::Z1));
    v.push(("MONSTER HUNTER FRONTIER Z1.2", MhfVersion::Z1));
    v.push(("MONSTER HUNTER FRONTIER Z2", MhfVersion::Z2));
    v.push(("MONSTER HUNTER FRONTIER Z2.1", MhfVersion::Z1));
    v.push(("%c %s G Z2.2.%d:%d", MhfVersion::Z2T));
    v.push(("MONSTER HUNTER FRONTIER Z2.2", MhfVersion::Z2T));
    v.push(("MONSTER HUNTER FRONTIER Z2.3", MhfVersion::Z1));
    v.push(("MONSTER HUNTER FRONTIER Z v1.52.79_73c49f52", MhfVersion::ZZ));
    v.push(("MONSTER HUNTER FRONTIER Z v1.52.79_04d16dc4", MhfVersion::ZZ));
    v.push(("v1.52.79_73c49f52", MhfVersion::ZZ));
    v.push(("v1.52.79_04d16dc4", MhfVersion::ZZ));
    v.push(("MONSTER HUNTER FRONTIER Z3", MhfVersion::ZZ));
    v.push(("MONSTER HUNTER FRONTIER Z3.1", MhfVersion::ZZ));
    v.push(("MONSTER HUNTER FRONTIER ZZ", MhfVersion::ZZ));
    v
}


/// The bytes of an ASCII text, one per character.
pub open spec fn ascii_bytes(s: Seq<char>) -> Seq<u8> {
    s.map_values(|c: char| c as u8)
}

/// An ASCII text in UTF-16, little-endian.
pub open spec fn utf16le_ascii(s: Seq<char>) -> Seq<u8>
    decreases s.len(),
{
    if s.len() == 0 {
        Seq::empty()
    } else {
        utf16le_ascii(s.drop_last()) + seq![s.last() as u8, 0u8]
    }
}

/// An ASCII text in UTF-16, big-endian.
pub open spec fn utf16be_ascii(s: Seq<char>) -> Seq<u8>
    decreases s.len(),
{
    if s.len() == 0 {
        Seq::empty()
    } else {
        utf16be_ascii(s.drop_last()) + seq![0u8, s.last() as u8]
    }
}

/// Whether `needle` occurs in `hay`.
pub open spec fn occurs_in(hay: Seq<u8>, needle: Seq<u8>) -> bool {
    exists|i: int| 0 <= i && i + needle.len() <= hay.len() && #[trigger] hay.subrange(i, i + needle.len()) == needle
}

/// Whether the library image `img` carries the version string `sig`, in
/// ASCII or in UTF-16 of either byte order.
pub open spec fn marks(img: Seq<u8>, sig: Seq<char>) -> bool {
    occurs_in(img, ascii_bytes(sig)) || occurs_in(img, utf16le_ascii(sig)) || occurs_in(
        img,
        utf16be_ascii(sig),
    )
}

/// The version of the first of `sigs` that `img` carries.
pub open spec fn first_mark(img: Seq<u8>, sigs: Seq<(Seq<char>, MhfVersion)>) -> Option<MhfVersion>
    decreases sigs.len(),
{
    if sigs.len() == 0 {
        None
    } else if marks(img, sigs[0].0) {
        Some(sigs[0].1)
    } else {
        first_mark(img, sigs.drop_first())
    }
}

/// The version a game folder holds, from its HD client library (when there
/// is one) and then its standard one: the first version string found.
pub open spec fn detect_spec(hd: Option<Seq<u8>>, mhfo: Seq<u8>) -> Option<MhfVersion> {
    let from_hd = match hd {
        Some(h) => first_mark(h, version_signatures_spec()),
        None => None,
    };
    if from_hd is Some {
        from_hd
    } else {
        first_mark(mhfo, version_signatures_spec())
    }
}

/// Whether `needle` occurs in `hay`.
pub fn bytes_contain(hay: &[u8], needle: &[u8]) -> (r: bool)
    ensures
        r == occurs_in(hay@, needle@),
{
    if needle.len() > hay.len() {
        return false;
    }
    let mut i: usize = 0;
    while i <= hay.len() - needle.len()
        invariant
            needle@.len() <= hay@.len(),
            i <= hay@.len() - needle@.len() + 1,
            forall|k: int|
                0 <= k < i ==> #[trigger] hay@.subrange(k, k + needle@.len()) != needle@,
        decreases hay@.len() - needle@.len() + 1 - i,
    {
        let mut j: usize = 0;
        let mut same = true;
        while j < needle.len()
            invariant
                i + needle@.len() <= hay@.len(),
                hay@.len() <= usize::MAX,
                j <= needle@.len(),
                same == forall|t: int| 0 <= t < j ==> hay@[i + t] == needle@[t],
            decreases needle@.len() - j,
        {
            if hay[i + j] != needle[j] {
                same = false;
            }
            j = j + 1;
        }
        if same {
            assert(hay@.subrange(i as int, i + needle@.len()) =~= needle@);
            return true;
        }
        proof {
            let t = choose|t: int| 0 <= t < needle@.len() && hay@[i + t] != needle@[t];
            assert(hay@.subrange(i as int, i + needle@.len())[t] == hay@[i + t]);
        }
        i = i + 1;
    }
    assert forall|k: int| 0 <= k && k + needle@.len() <= hay@.len() implies #[trigger] hay@.subrange(
        k,
        k + needle@.len(),
    ) != needle@ by {
        assert(k < i);
    }
    false
}

/// The ASCII bytes of `chars`, one per character.
pub fn ascii_encode(chars: &[char]) -> (r: Vec<u8>)
    ensures
        r@ == ascii_bytes(chars@),
{
    let mut out: Vec<u8> = Vec::new();
    let mut i: usize = 0;
    while i < chars.len()
        invariant
            i <= chars@.len(),
            out@ =~= ascii_bytes(chars@.take(i as int)),
        decreases chars@.len() - i,
    {
        out.push(chars[i] as u8);
        i = i + 1;
    }
    assert(chars@.take(chars@.len() as int) =~= chars@);
    out
}

/// `chars` (ASCII) in UTF-16 of the given byte order.
pub fn utf16_encode(chars: &[char], little_endian: bool) -> (r: Vec<u8>)
    ensures
        r@ == (if little_endian {
            utf16le_ascii(chars@)
        } else {
            utf16be_ascii(chars@)
        }),
{
    let mut out: Vec<u8> = Vec::new();
    let mut i: usize = 0;
    while i < chars.len()
        invariant
            i <= chars@.len(),
            out@ =~= (if little_endian {
                utf16le_ascii(chars@.take(i as int))
            } else {
                utf16be_ascii(chars@.take(i as int))
            }),
        decreases chars@.len() - i,
    {
        let b = chars[i] as u8;
        if little_endian {
            out.push(b);
            out.push(0u8);
        } else {
            out.push(0u8);
            out.push(b);
        }
        assert(chars@.take(i + 1).drop_last() =~= chars@.take(i as int));
        i = i + 1;
    }
    assert(chars@.take(chars@.len() as int) =~= chars@);
    out
}

/// Whether `img` carries the version string `sig`.
pub fn image_marks(img: &[u8], sig: &str) -> (b: bool)
    ensures
        b == marks(img@, sig@),
{
    let chars = str_chars(sig);
    let ascii = ascii_encode(chars.as_slice());
    if bytes_contain(img, ascii.as_slice()) {
        return true;
    }
    let le = utf16_encode(chars.as_slice(), true);
    if bytes_contain(img, le.as_slice()) {
        return true;
    }
    let be = utf16_encode(chars.as_slice(), false);
    bytes_contain(img, be.as_slice())
}

/// The version of the first version string `img` carries.
pub fn first_mark_in(img: &[u8], sigs: &Vec<(&'static str, MhfVersion)>) -> (r: Option<MhfVersion>)
    requires
        sigs@.len() == version_signatures_spec().len(),
        forall|i: int|
            0 <= i < sigs@.len() ==> (#[trigger] sigs@[i]).0@ == version_signatures_spec()[i].0
                && sigs@[i].1 == version_signatures_spec()[i].1,
    ensures
        r == first_mark(img@, version_signatures_spec()),
{
    let ghost table = version_signatures_spec();
    let mut k: usize = 0;
    assert(table.skip(0) =~= table);
    while k < sigs.len()
        invariant
            table == version_signatures_spec(),
            sigs@.len() == table.len(),
            forall|i: int|
                0 <= i < sigs@.len() ==> (#[trigger] sigs@[i]).0@ == table[i].0 && sigs@[i].1
                    == table[i].1,
            k <= table.len(),
            first_mark(img@, table) == first_mark(img@, table.skip(k as int)),
        decreases table.len() - k,
    {
        assert(table.skip(k as int)[0] == table[k as int]);
        assert(table.skip(k as int).drop_first() =~= table.skip(k + 1));
        let (sig, version) = sigs[k];
        if image_marks(img, sig) {
            return Some(version);
        }
        k = k + 1;
    }
    assert(table.skip(k as int) =~= Seq::<(Seq<char>, MhfVersion)>::empty());
    None
}

/// The version a game folder holds, from the bytes of its HD client
/// library (`mhfo-hd.dll`, when it could be read) and of its standard one
/// (`mhfo.dll`).
pub fn detect_version_from_images(hd: Option<&[u8]>, mhfo: &[u8]) -> (r: Option<MhfVersion>)
    ensures
        r == detect_spec(
            match hd {
                Some(h) => Some(h@),
                None => None,
            },
            mhfo@,
        ),
{
    let sigs = version_signatures();
    if let Some(h) = hd {
        if let Some(v) = first_mark_in(h, &sigs) {
            return Some(v);
        }
    }
    first_mark_in(mhfo, &sigs)
}

/// The version of the build whose id ends with the last three characters
/// of `s`, for the build ids that the version strings carry.
spec fn build_tail_version(s: Seq<char>) -> Option<MhfVersion> {
    if s.len() < 3 {
        None
    } else if s[s.len() - 3] == '8' && s[s.len() - 2] == '6' && s[s.len() - 1] == '9' {
        Some(MhfVersion::F4)
    } else if s[s.len() - 3] == '6' && s[s.len() - 2] == '3' && s[s.len() - 1] == '5' {
        Some(MhfVersion::F5)
    } else if s[s.len() - 3] == '7' && s[s.len() - 2] == '1' && s[s.len() - 1] == '0' {
        Some(MhfVersion::F5)
    } else if s[s.len() - 3] == '0' && s[s.len() - 2] == '7' && s[s.len() - 1] == '7' {
        Some(MhfVersion::G1)
    } else if s[s.len() - 3] == '1' && s[s.len() - 2] == '2' && s[s.len() - 1] == '9' {
        Some(MhfVersion::G1)
    } else if s[s.len() - 3] == '8' && s[s.len() - 2] == '2' && s[s.len() - 1] == '8' {
        Some(MhfVersion::G2)
    } else if s[s.len() - 3] == '3' && s[s.len() - 2] == '3' && s[s.len() - 1] == '6' {
        Some(MhfVersion::G6)
    } else if s[s.len() - 3] == '0' && s[s.len() - 2] == '8' && s[s.len() - 1] == '8' {
        Some(MhfVersion::G6)
    } else if s[s.len() - 3] == '8' && s[s.len() - 2] == '7' && s[s.len() - 1] == '0' {
        Some(MhfVersion::G9_1)
    } else if s[s.len() - 3] == '3' && s[s.len() - 2] == '9' && s[s.len() - 1] == '0' {
        Some(MhfVersion::G9_1)
    } else if s[s.len() - 3] == '6' && s[s.len() - 2] == '7' && s[s.len() - 1] == '3' {
        Some(MhfVersion::G10_1)
    } else if s[s.len() - 3] == 'a' && s[s.len() - 2] == '6' && s[s.len() - 1] == 'a' {
        Some(MhfVersion::G10_1)
    } else if s[s.len() - 3] == '7' && s[s.len() - 2] == '1' && s[s.len() - 1] == '5' {
        Some(MhfVersion::G10_1)
    } else if s[s.len() - 3] == '5' && s[s.len() - 2] == '4' && s[s.len() - 1] == '7' {
        Some(MhfVersion::G10_1)
    } else if s[s.len() - 3] == 'e' && s[s.len() - 2] == 'b' && s[s.len() - 1] == '7' {
        Some(MhfVersion::Z1)
    } else if s[s.len() - 3] == 'f' && s[s.len() - 2] == '5' && s[s.len() - 1] == 'f' {
        Some(MhfVersion::Z1)
    } else if s[s.len() - 3] == 'f' && s[s.len() - 2] == '5' && s[s.len() - 1] == '2' {
        Some(MhfVersion::ZZ)
    } else if s[s.len() - 3] == 'd' && s[s.len() - 2] == 'c' && s[s.len() - 1] == '4' {
        Some(MhfVersion::ZZ)
    } else {
        None
    }
}

proof fn lemma_signature_tails()
    ensures
        version_signatures_spec().len() == 67,
        forall|i: int|
            0 <= i < version_signatures_spec().len() ==> (build_tail_version(#[trigger] version_signatures_spec()[i].0)
                matches Some(v) ==> v == version_signatures_spec()[i].1) && (version_signatures_spec()[i].0[0] == 'v'
                ==> build_tail_version(version_signatures_spec()[i].0) is Some),
{
    reveal_strlit("MONSTER HUNTER FRONTIER SEASON 6.0");
    reveal_strlit("MONSTER HUNTER FRONTIER SEASON 7.0");
    reveal_strlit("MONSTER HUNTER FRONTIER ONLINE v1.20_107869");
    reveal_strlit("v1.20_107869");
    reveal_strlit("MONSTER HUNTER FRONTIER FORWARD.4");
    reveal_strlit("MONSTER HUNTER FRONTIER ONLINE v1.20_125635");
    reveal_strlit("MONSTER HUNTER FRONTIER ONLINE v1.20_133710");
    reveal_strlit("v1.20_125635");
    reveal_strlit("v1.20_133710");
    reveal_strlit("MONSTER HUNTER FRONTIER FORWARD.5");
    reveal_strlit("MONSTER HUNTER FRONTIER G v1.22_153077");
    reveal_strlit("v1.22_153077");
    reveal_strlit("MONSTER HUNTER FRONTIER G v1.22_156129");
    reveal_strlit("v1.22_156129");
    reveal_strlit("MONSTER HUNTER FRONTIER G v1.23_187828");
    reveal_strlit("v1.23_187828");
    reveal_strlit("MONSTER HUNTER FRONTIER G3");
    reveal_strlit("MONSTER HUNTER FRONTIER G3.1");
    reveal_strlit("MONSTER HUNTER FRONTIER G3.2");
    reveal_strlit("MONSTER HUNTER FRONTIER GG");
    reveal_strlit("MONSTER HUNTER FRONTIER G4");
    reveal_strlit("MONSTER HUNTER FRONTIER G5");
    reveal_strlit("MONSTER HUNTER FRONTIER G5.1");
    reveal_strlit("MONSTER HUNTER FRONTIER G5.2");
    reveal_strlit("MONSTER HUNTER FRONTIER G5.3");
    reveal_strlit("MONSTER HUNTER FRONTIER G v1.33_325336");
    reveal_strlit("MONSTER HUNTER FRONTIER G v1.33_326088");
    reveal_strlit("v1.33_325336");
    reveal_strlit("v1.33_326088");
    reveal_strlit("MONSTER HUNTER FRONTIER G6");
    reveal_strlit("MONSTER HUNTER FRONTIER G6.1");
    reveal_strlit("MONSTER HUNTER FRONTIER G7");
    reveal_strlit("MONSTER HUNTER FRONTIER G v1.38.19_e8966870");
    reveal_strlit("MONSTER HUNTER FRONTIER G v1.38.19_47c90390");
    reveal_strlit("v1.38.19_e8966870");
    reveal_strlit("v1.38.19_47c90390");
    reveal_strlit("MONSTER HUNTER FRONTIER G9");
    reveal_strlit("MONSTER HUNTER FRONTIER G9.1");
    reveal_strlit("MONSTER HUNTER FRONTIER G v1.41.30_c730c673");
    reveal_strlit("MONSTER HUNTER FRONTIER G v1.41.30_f5ed3a6a");
    reveal_strlit("MONSTER HUNTER FRONTIER G v1.41.32_8acc3715");
    reveal_strlit("MONSTER HUNTER FRONTIER G v1.41.32_5c06b547");
    reveal_strlit("v1.41.30_c730c673");
    reveal_strlit("v1.41.30_f5ed3a6a");
    reveal_strlit("v1.41.32_8acc3715");
    reveal_strlit("v1.41.32_5c06b547");
    reveal_strlit("MONSTER HUNTER FRONTIER G10");
    reveal_strlit("MONSTER HUNTER FRONTIER G10.1");
    reveal_strlit("MONSTER HUNTER FRONTIER Z v1.44.45_15a73eb7");
    reveal_strlit("MONSTER HUNTER FRONTIER Z v1.44.45_dca95f5f");
    reveal_strlit("v1.44.45_15a73eb7");
    reveal_strlit("v1.44.45_dca95f5f");
    reveal_strlit("MONSTER HUNTER FRONTIER Z1");
    reveal_strlit("MONSTER HUNTER FRONTIER Z1.1");
    reveal_strlit("MONSTER HUNTER FRONTIER Z1.2");
    reveal_strlit("MONSTER HUNTER FRONTIER Z2");
    reveal_strlit("MONSTER HUNTER FRONTIER Z2.1");
    reveal_strlit("%c %s G Z2.2.%d:%d");
    reveal_strlit("MONSTER HUNTER FRONTIER Z2.2");
    reveal_strlit("MONSTER HUNTER FRONTIER Z2.3");
    reveal_strlit("MONSTER HUNTER FRONTIER Z v1.52.79_73c49f52");
    reveal_strlit("MONSTER HUNTER FRONTIER Z v1.52.79_04d16dc4");
    reveal_strlit("v1.52.79_73c49f52");
    reveal_strlit("v1.52.79_04d16dc4");
    reveal_strlit("MONSTER HUNTER FRONTIER Z3");
    reveal_strlit("MONSTER HUNTER FRONTIER Z3.1");
    reveal_strlit("MONSTER HUNTER FRONTIER ZZ");
    assert(build_tail_version("MONSTER HUNTER FRONTIER SEASON 6.0"@) is None);
    assert("MONSTER HUNTER FRONTIER SEASON 6.0"@[0] == 'M');
    assert(build_tail_version("MONSTER HUNTER FRONTIER SEASON 7.0"@) is None);
    assert("MONSTER HUNTER FRONTIER SEASON 7.0"@[0] == 'M');
    assert(build_tail_version("MONSTER HUNTER FRONTIER ONLINE v1.20_107869"@) == Some(MhfVersion::F4));
    assert("MONSTER HUNTER FRONTIER ONLINE v1.20_107869"@[0] == 'M');
    assert(build_tail_version("v1.20_107869"@) == Some(MhfVersion::F4));
    assert("v1.20_107869"@[0] == 'v');
    assert(build_tail_version("MONSTER HUNTER FRONTIER FORWARD.4"@) is None);
    assert("MONSTER HUNTER FRONTIER FORWARD.4"@[0] == 'M');
    assert(build_tail_version("MONSTER HUNTER FRONTIER ONLINE v1.20_125635"@) == Some(MhfVersion::F5));
    assert("MONSTER HUNTER FRONTIER ONLINE v1.20_125635"@[0] == 'M');
    assert(build_tail_version("MONSTER HUNTER FRONTIER ONLINE v1.20_133710"@) == Some(MhfVersion::F5));
    assert("MONSTER HUNTER FRONTIER ONLINE v1.20_133710"@[0] == 'M');
    assert(build_tail_version("v1.20_125635"@) == Some(MhfVersion::F5));
    assert("v1.20_125635"@[0] == 'v');
    assert(build_tail_version("v1.20_133710"@) == Some(MhfVersion::F5));
    assert("v1.20_133710"@[0] == 'v');
    assert(build_tail_version("MONSTER HUNTER FRONTIER FORWARD.5"@) is None);
    assert("MONSTER HUNTER FRONTIER FORWARD.5"@[0] == 'M');
    assert(build_tail_version("MONSTER HUNTER FRONTIER G v1.22_153077"@) == Some(MhfVersion::G1));
    assert("MONSTER HUNTER FRONTIER G v1.22_153077"@[0] == 'M');
    assert(build_tail_version("v1.22_153077"@) == Some(MhfVersion::G1));
    assert("v1.22_153077"@[0] == 'v');
    assert(build_tail_version("MONSTER HUNTER FRONTIER G v1.22_156129"@) == Some(MhfVersion::G1));
    assert("MONSTER HUNTER FRONTIER G v1.22_156129"@[0] == 'M');
    assert(build_tail_version("v1.22_156129"@) == Some(MhfVersion::G1));
    assert("v1.22_156129"@[0] == 'v');
    assert(build_tail_version("MONSTER HUNTER FRONTIER G v1.23_187828"@) == Some(MhfVersion::G2));
    assert("MONSTER HUNTER FRONTIER G v1.23_187828"@[0] == 'M');
    assert(build_tail_version("v1.23_187828"@) == Some(MhfVersion::G2));
    assert("v1.23_187828"@[0] == 'v');
    assert(build_tail_version("MONSTER HUNTER FRONTIER G3"@) is None);
    assert("MONSTER HUNTER FRONTIER G3"@[0] == 'M');
    assert(build_tail_version("MONSTER HUNTER FRONTIER G3.1"@) is None);
    assert("MONSTER HUNTER FRONTIER G3.1"@[0] == 'M');
    assert(build_tail_version("MONSTER HUNTER FRONTIER G3.2"@) is None);
    assert("MONSTER HUNTER FRONTIER G3.2"@[0] == 'M');
    assert(build_tail_version("MONSTER HUNTER FRONTIER GG"@) is None);
    assert("MONSTER HUNTER FRONTIER GG"@[0] == 'M');
    assert(build_tail_version("MONSTER HUNTER FRONTIER G4"@) is None);
    assert("MONSTER HUNTER FRONTIER G4"@[0] == 'M');
    assert(build_tail_version("MONSTER HUNTER FRONTIER G5"@) is None);
    assert("MONSTER HUNTER FRONTIER G5"@[0] == 'M');
    assert(build_tail_version("MONSTER HUNTER FRONTIER G5.1"@) is None);
    assert("MONSTER HUNTER FRONTIER G5.1"@[0] == 'M');
    assert(build_tail_version("MONSTER HUNTER FRONTIER G5.2"@) is None);
    assert("MONSTER HUNTER FRONTIER G5.2"@[0] == 'M');
    assert(build_tail_version("MONSTER HUNTER FRONTIER G5.3"@) is None);
    assert("MONSTER HUNTER FRONTIER G5.3"@[0] == 'M');
    assert(build_tail_version("MONSTER HUNTER FRONTIER G v1.33_325336"@) == Some(MhfVersion::G6));
    assert("MONSTER HUNTER FRONTIER G v1.33_325336"@[0] == 'M');
    assert(build_tail_version("MONSTER HUNTER FRONTIER G v1.33_326088"@) == Some(MhfVersion::G6));
    assert("MONSTER HUNTER FRONTIER G v1.33_326088"@[0] == 'M');
    assert(build_tail_version("v1.33_325336"@) == Some(MhfVersion::G6));
    assert("v1.33_325336"@[0] == 'v');
    assert(build_tail_version("v1.33_326088"@) == Some(MhfVersion::G6));
    assert("v1.33_326088"@[0] == 'v');
    assert(build_tail_version("MONSTER HUNTER FRONTIER G6"@) is None);
    assert("MONSTER HUNTER FRONTIER G6"@[0] == 'M');
    assert(build_tail_version("MONSTER HUNTER FRONTIER G6.1"@) is None);
    assert("MONSTER HUNTER FRONTIER G6.1"@[0] == 'M');
    assert(build_tail_version("MONSTER HUNTER FRONTIER G7"@) is None);
    assert("MONSTER HUNTER FRONTIER G7"@[0] == 'M');
    assert(build_tail_version("MONSTER HUNTER FRONTIER G v1.38.19_e8966870"@) == Some(MhfVersion::G9_1));
    assert("MONSTER HUNTER FRONTIER G v1.38.19_e8966870"@[0] == 'M');
    assert(build_tail_version("MONSTER HUNTER FRONTIER G v1.38.19_47c90390"@) == Some(MhfVersion::G9_1));
    assert("MONSTER HUNTER FRONTIER G v1.38.19_47c90390"@[0] == 'M');
    assert(build_tail_version("v1.38.19_e8966870"@) == Some(MhfVersion::G9_1));
    assert("v1.38.19_e8966870"@[0] == 'v');
    assert(build_tail_version("v1.38.19_47c90390"@) == Some(MhfVersion::G9_1));
    assert("v1.38.19_47c90390"@[0] == 'v');
    assert(build_tail_version("MONSTER HUNTER FRONTIER G9"@) is None);
    assert("MONSTER HUNTER FRONTIER G9"@[0] == 'M');
    assert(build_tail_version("MONSTER HUNTER FRONTIER G9.1"@) is None);
    assert("MONSTER HUNTER FRONTIER G9.1"@[0] == 'M');
    assert(build_tail_version("MONSTER HUNTER FRONTIER G v1.41.30_c730c673"@) == Some(MhfVersion::G10_1));
    assert("MONSTER HUNTER FRONTIER G v1.41.30_c730c673"@[0] == 'M');
    assert(build_tail_version("MONSTER HUNTER FRONTIER G v1.41.30_f5ed3a6a"@) == Some(MhfVersion::G10_1));
    assert("MONSTER HUNTER FRONTIER G v1.41.30_f5ed3a6a"@[0] == 'M');
    assert(build_tail_version("MONSTER HUNTER FRONTIER G v1.41.32_8acc3715"@) == Some(MhfVersion::G10_1));
    assert("MONSTER HUNTER FRONTIER G v1.41.32_8acc3715"@[0] == 'M');
    assert(build_tail_version("MONSTER HUNTER FRONTIER G v1.41.32_5c06b547"@) == Some(MhfVersion::G10_1));
    assert("MONSTER HUNTER FRONTIER G v1.41.32_5c06b547"@[0] == 'M');
    assert(build_tail_version("v1.41.30_c730c673"@) == Some(MhfVersion::G10_1));
    assert("v1.41.30_c730c673"@[0] == 'v');
    assert(build_tail_version("v1.41.30_f5ed3a6a"@) == Some(MhfVersion::G10_1));
    assert("v1.41.30_f5ed3a6a"@[0] == 'v');
    assert(build_tail_version("v1.41.32_8acc3715"@) == Some(MhfVersion::G10_1));
    assert("v1.41.32_8acc3715"@[0] == 'v');
    assert(build_tail_version("v1.41.32_5c06b547"@) == Some(MhfVersion::G10_1));
    assert("v1.41.32_5c06b547"@[0] == 'v');
    assert(build_tail_version("MONSTER HUNTER FRONTIER G10"@) is None);
    assert("MONSTER HUNTER FRONTIER G10"@[0] == 'M');
    assert(build_tail_version("MONSTER HUNTER FRONTIER G10.1"@) is None);
    assert("MONSTER HUNTER FRONTIER G10.1"@[0] == 'M');
    assert(build_tail_version("MONSTER HUNTER FRONTIER Z v1.44.45_15a73eb7"@) == Some(MhfVersion::Z1));
    assert("MONSTER HUNTER FRONTIER Z v1.44.45_15a73eb7"@[0] == 'M');
    assert(build_tail_version("MONSTER HUNTER FRONTIER Z v1.44.45_dca95f5f"@) == Some(MhfVersion::Z1));
    assert("MONSTER HUNTER FRONTIER Z v1.44.45_dca95f5f"@[0] == 'M');
    assert(build_tail_version("v1.44.45_15a73eb7"@) == Some(MhfVersion::Z1));
    assert("v1.44.45_15a73eb7"@[0] == 'v');
    assert(build_tail_version("v1.44.45_dca95f5f"@) == Some(MhfVersion::Z1));
    assert("v1.44.45_dca95f5f"@[0] == 'v');
    assert(build_tail_version("MONSTER HUNTER FRONTIER Z1"@) is None);
    assert("MONSTER HUNTER FRONTIER Z1"@[0] == 'M');
    assert(build_tail_version("MONSTER HUNTER FRONTIER Z1.1"@) is None);
    assert("MONSTER HUNTER FRONTIER Z1.1"@[0] == 'M');
    assert(build_tail_version("MONSTER HUNTER FRONTIER Z1.2"@) is None);
    assert("MONSTER HUNTER FRONTIER Z1.2"@[0] == 'M');
    assert(build_tail_version("MONSTER HUNTER FRONTIER Z2"@) is None);
    assert("MONSTER HUNTER FRONTIER Z2"@[0] == 'M');
    assert(build_tail_version("MONSTER HUNTER FRONTIER Z2.1"@) is None);
    assert("MONSTER HUNTER FRONTIER Z2.1"@[0] == 'M');
    assert(build_tail_version("%c %s G Z2.2.%d:%d"@) is None);
    assert("%c %s G Z2.2.%d:%d"@[0] == '%');
    assert(build_tail_version("MONSTER HUNTER FRONTIER Z2.2"@) is None);
    assert("MONSTER HUNTER FRONTIER Z2.2"@[0] == 'M');
    assert(build_tail_version("MONSTER HUNTER FRONTIER Z2.3"@) is None);
    assert("MONSTER HUNTER FRONTIER Z2.3"@[0] == 'M');
    assert(build_tail_version("MONSTER HUNTER FRONTIER Z v1.52.79_73c49f52"@) == Some(MhfVersion::ZZ));
    assert("MONSTER HUNTER FRONTIER Z v1.52.79_73c49f52"@[0] == 'M');
    assert(build_tail_version("MONSTER HUNTER FRONTIER Z v1.52.79_04d16dc4"@) == Some(MhfVersion::ZZ));
    assert("MONSTER HUNTER FRONTIER Z v1.52.79_04d16dc4"@[0] == 'M');
    assert(build_tail_version("v1.52.79_73c49f52"@) == Some(MhfVersion::ZZ));
    assert("v1.52.79_73c49f52"@[0] == 'v');
    assert(build_tail_version("v1.52.79_04d16dc4"@) == Some(MhfVersion::ZZ));
    assert("v1.52.79_04d16dc4"@[0] == 'v');
    assert(build_tail_version("MONSTER HUNTER FRONTIER Z3"@) is None);
    assert("MONSTER HUNTER FRONTIER Z3"@[0] == 'M');
    assert(build_tail_version("MONSTER HUNTER FRONTIER Z3.1"@) is None);
    assert("MONSTER HUNTER FRONTIER Z3.1"@[0] == 'M');
    assert(build_tail_version("MONSTER HUNTER FRONTIER ZZ"@) is None);
    assert("MONSTER HUNTER FRONTIER ZZ"@[0] == 'M');
}

/// Whether `s` ends with `suffix`.
pub open spec fn ends_with_text(s: Seq<char>, suffix: Seq<char>) -> bool {
    suffix.len() <= s.len() && s.subrange(s.len() - suffix.len(), s.len() as int) == suffix
}

/// Every version string that ends with a bare build id (one of the strings
/// that start with 'v', such as "v1.52.79_04d16dc4") marks the same version
/// as that build id: "MONSTER HUNTER FRONTIER Z v1.52.79_04d16dc4" is ZZ as
/// "v1.52.79_04d16dc4" is.
pub proof fn lemma_build_ids_agree()
    ensures
        forall|i: int, j: int|
            0 <= i < version_signatures_spec().len() && 0 <= j < version_signatures_spec().len()
                && version_signatures_spec()[j].0.len() > 0 && version_signatures_spec()[j].0[0] == 'v'
                && ends_with_text(#[trigger] version_signatures_spec()[i].0, #[trigger] version_signatures_spec()[j].0)
                ==> version_signatures_spec()[i].1 == version_signatures_spec()[j].1,
{
    lemma_signature_tails();
    assert forall|i: int, j: int|
        0 <= i < version_signatures_spec().len() && 0 <= j < version_signatures_spec().len()
            && version_signatures_spec()[j].0.len() > 0 && version_signatures_spec()[j].0[0] == 'v'
            && ends_with_text(#[trigger] version_signatures_spec()[i].0, #[trigger] version_signatures_spec()[j].0)
            implies version_signatures_spec()[i].1 == version_signatures_spec()[j].1 by {
        let a = version_signatures_spec()[i].0;
        let b = version_signatures_spec()[j].0;
        assert(build_tail_version(b) is Some);
        assert(b.len() >= 3);
        let t = a.subrange(a.len() - b.len(), a.len() as int);
        assert(a[a.len() - 1] == t[b.len() - 1]);
        assert(a[a.len() - 2] == t[b.len() - 2]);
        assert(a[a.len() - 3] == t[b.len() - 3]);
        assert(build_tail_version(a) == build_tail_version(b));
    }
}

} // verus!
