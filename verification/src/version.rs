//! Game versions: their labels, the names they are read from, their
//! numeric codes and the list of all of them.
use vstd::prelude::*;

use crate::text::{str_chars, str_eq, string_from_chars, trim_chars, trim_spec};

verus! {

/// A Monster Hunter Frontier client version.
#[derive(Debug, Clone, Copy, PartialEq, Eq, Structural, PartialOrd, Ord, Hash)]
pub enum MhfVersion {
    ZZ,
    Z1,
    G10_1,
    G9_1,
    G7,
    G6,
    G5_2,
    GG,
    G3_2,
    G3_1,
    G2,
    G1,
    F5,
    F4,
    S7K,
    S6,
    Z2T,
    G5_1,
    G3,
    G5,
    Z2,
}

impl Default for MhfVersion {
    fn default() -> (v: Self)
        ensures
            v == MhfVersion::ZZ,
    {
        MhfVersion::ZZ
    }
}

/// The numeric code of each version.
pub open spec fn version_code(v: MhfVersion) -> u8 {
    match v {
        MhfVersion::ZZ => 1,
        MhfVersion::Z1 => 2,
        MhfVersion::G10_1 => 3,
        MhfVersion::G9_1 => 4,
        MhfVersion::G7 => 5,
        MhfVersion::G6 => 6,
        MhfVersion::G5_2 => 7,
        MhfVersion::GG => 8,
        MhfVersion::G3_2 => 9,
        MhfVersion::G3_1 => 10,
        MhfVersion::G2 => 11,
        MhfVersion::G1 => 12,
        MhfVersion::F5 => 13,
        MhfVersion::F4 => 14,
        MhfVersion::S7K => 15,
        MhfVersion::S6 => 16,
        MhfVersion::Z2T => 17,
        MhfVersion::G5_1 => 18,
        MhfVersion::G3 => 19,
        MhfVersion::G5 => 20,
        MhfVersion::Z2 => 21,
    }
}

impl MhfVersion {
    /// The numeric code of this version.
    pub fn code(self) -> (c: u8)
        ensures
            c == version_code(self),
    {
        match self {
            MhfVersion::ZZ => 1,
            MhfVersion::Z1 => 2,
            MhfVersion::G10_1 => 3,
            MhfVersion::G9_1 => 4,
            MhfVersion::G7 => 5,
            MhfVersion::G6 => 6,
            MhfVersion::G5_2 => 7,
            MhfVersion::GG => 8,
            MhfVersion::G3_2 => 9,
            MhfVersion::G3_1 => 10,
            MhfVersion::G2 => 11,
            MhfVersion::G1 => 12,
            MhfVersion::F5 => 13,
            MhfVersion::F4 => 14,
            MhfVersion::S7K => 15,
            MhfVersion::S6 => 16,
            MhfVersion::Z2T => 17,
            MhfVersion::G5_1 => 18,
            MhfVersion::G3 => 19,
            MhfVersion::G5 => 20,
            MhfVersion::Z2 => 21,
        }
    }

    /// The version with the numeric code `c`, if there is one.
    pub fn from_code(c: u8) -> (v: Option<MhfVersion>)
        ensures
            match v {
                Some(x) => version_code(x) == c,
                None => forall|x: MhfVersion| version_code(x) != c,
            },
    {
        match c {
            1 => Some(MhfVersion::ZZ),
            2 => Some(MhfVersion::Z1),
            3 => Some(MhfVersion::G10_1),
            4 => Some(MhfVersion::G9_1),
            5 => Some(MhfVersion::G7),
            6 => Some(MhfVersion::G6),
            7 => Some(MhfVersion::G5_2),
            8 => Some(MhfVersion::GG),
            9 => Some(MhfVersion::G3_2),
            10 => Some(MhfVersion::G3_1),
            11 => Some(MhfVersion::G2),
            12 => Some(MhfVersion::G1),
            13 => Some(MhfVersion::F5),
            14 => Some(MhfVersion::F4),
            15 => Some(MhfVersion::S7K),
            16 => Some(MhfVersion::S6),
            17 => Some(MhfVersion::Z2T),
            18 => Some(MhfVersion::G5_1),
            19 => Some(MhfVersion::G3),
            20 => Some(MhfVersion::G5),
            21 => Some(MhfVersion::Z2),
            _ => None,
        }
    }

    /// Every version, in the order the launcher lists them.
    pub fn all_versions() -> (v: Vec<MhfVersion>)
        ensures
            v@ == all_versions_spec(),
    {
        let v: Vec<MhfVersion> = vec![
            MhfVersion::ZZ,
            MhfVersion::Z1,
            MhfVersion::G10_1,
            MhfVersion::G9_1,
            MhfVersion::G7,
            MhfVersion::G6,
            MhfVersion::G5_2,
            MhfVersion::GG,
            MhfVersion::G3_2,
            MhfVersion::G3_1,
            MhfVersion::G2,
            MhfVersion::G1,
            MhfVersion::F5,
            MhfVersion::F4,
            MhfVersion::S7K,
            MhfVersion::S6,
            MhfVersion::Z2T,
            MhfVersion::G5_1,
            MhfVersion::G3,
            MhfVersion::G5,
            MhfVersion::Z2,
        ];
        proof {
            assert(v@ =~= all_versions_spec());
        }
        v
    }
}

/// Every version, in the order the launcher lists them.
pub open spec fn all_versions_spec() -> Seq<MhfVersion> {
    seq![
        MhfVersion::ZZ,
        MhfVersion::Z1,
        MhfVersion::G10_1,
        MhfVersion::G9_1,
        MhfVersion::G7,
        MhfVersion::G6,
        MhfVersion::G5_2,
        MhfVersion::GG,
        MhfVersion::G3_2,
        MhfVersion::G3_1,
        MhfVersion::G2,
        MhfVersion::G1,
        MhfVersion::F5,
        MhfVersion::F4,
        MhfVersion::S7K,
        MhfVersion::S6,
        MhfVersion::Z2T,
        MhfVersion::G5_1,
        MhfVersion::G3,
        MhfVersion::G5,
        MhfVersion::Z2
    ]
}

/// The list of all versions holds every version exactly once, at the
/// position of its numeric code less one.
pub proof fn lemma_all_versions_complete(v: MhfVersion)
    ensures
        all_versions_spec().len() == 21,
        all_versions_spec()[version_code(v) - 1] == v,
        forall|i: int|
            0 <= i < all_versions_spec().len() && all_versions_spec()[i] == v ==> i == version_code(v)
                - 1,
{
    let s = all_versions_spec();
    assert forall|i: int| 0 <= i < s.len() implies version_code(#[trigger] s[i]) == i + 1 by {}
}

/// The label the launcher shows for a version.
pub open spec fn label_spec(v: MhfVersion) -> Seq<char> {
    match v {
        MhfVersion::ZZ => "ZZ"@,
        MhfVersion::Z1 => "Z1"@,
        MhfVersion::G10_1 => "G10.1"@,
        MhfVersion::G9_1 => "G9.1"@,
        MhfVersion::G7 => "G7"@,
        MhfVersion::G6 => "G6"@,
        MhfVersion::G5_2 => "G5.2"@,
        MhfVersion::GG => "GG"@,
        MhfVersion::G3_2 => "G3.2"@,
        MhfVersion::G3_1 => "G3.1"@,
        MhfVersion::G2 => "G2"@,
        MhfVersion::G1 => "G1"@,
        MhfVersion::F5 => "F5"@,
        MhfVersion::F4 => "F4"@,
        MhfVersion::S7K => "S7K"@,
        MhfVersion::S6 => "S6"@,
        MhfVersion::Z2T => "Z2T"@,
        MhfVersion::G5_1 => "G5.1"@,
        MhfVersion::G3 => "G3"@,
        MhfVersion::G5 => "G5"@,
        MhfVersion::Z2 => "Z2"@,
    }
}

/// The label the launcher shows for a version.
pub fn version_to_label(version: MhfVersion) -> (s: &'static str)
    ensures
        s@ == label_spec(version),
{
    match version {
        MhfVersion::ZZ => "ZZ",
        MhfVersion::Z1 => "Z1",
        MhfVersion::G10_1 => "G10.1",
        MhfVersion::G9_1 => "G9.1",
        MhfVersion::G7 => "G7",
        MhfVersion::G6 => "G6",
        MhfVersion::G5_2 => "G5.2",
        MhfVersion::GG => "GG",
        MhfVersion::G3_2 => "G3.2",
        MhfVersion::G3_1 => "G3.1",
        MhfVersion::G2 => "G2",
        MhfVersion::G1 => "G1",
        MhfVersion::F5 => "F5",
        MhfVersion::F4 => "F4",
        MhfVersion::S7K => "S7K",
        MhfVersion::S6 => "S6",
        MhfVersion::Z2T => "Z2T",
        MhfVersion::G5_1 => "G5.1",
        MhfVersion::G3 => "G3",
        MhfVersion::G5 => "G5",
        MhfVersion::Z2 => "Z2",
    }
}

/// The version token that alternative save data is tagged with.
pub open spec fn savedata_token_spec(v: MhfVersion) -> Seq<char> {
    match v {
        MhfVersion::Z2T => "Z2.2"@,
        _ => label_spec(v),
    }
}

/// The version token that alternative save data is tagged with: the label,
/// except "Z2.2" for Z2T.
pub fn version_to_savedata_token(version: MhfVersion) -> (s: &'static str)
    ensures
        s@ == savedata_token_spec(version),
{
    match version {
        MhfVersion::Z2T => "Z2.2",
        _ => version_to_label(version),
    }
}

/// The version a name denotes: each version's label and its other accepted
/// names (such as "Z3" for ZZ or "Season 7.0" for S7K).
pub open spec fn version_named(name: Seq<char>) -> Option<MhfVersion> {
    if name == "ZZ"@ {
        Some(MhfVersion::ZZ)
    } else if name == "Z3"@ {
        Some(MhfVersion::ZZ)
    } else if name == "Z3.1"@ {
        Some(MhfVersion::ZZ)
    } else if name == "Z1"@ {
        Some(MhfVersion::Z1)
    } else if name == "Z1.1"@ {
        Some(MhfVersion::Z1)
    } else if name == "Z1.2"@ {
        Some(MhfVersion::Z1)
    } else if name == "Z2.1"@ {
        Some(MhfVersion::Z1)
    } else if name == "Z2.3"@ {
        Some(MhfVersion::Z1)
    } else if name == "G10.1"@ {
        Some(MhfVersion::G10_1)
    } else if name == "G10_1"@ {
        Some(MhfVersion::G10_1)
    } else if name == "G10"@ {
        Some(MhfVersion::G10_1)
    } else if name == "G9.1"@ {
        Some(MhfVersion::G9_1)
    } else if name == "G9_1"@ {
        Some(MhfVersion::G9_1)
    } else if name == "G9"@ {
        Some(MhfVersion::G9_1)
    } else if name == "G7"@ {
        Some(MhfVersion::G7)
    } else if name == "G6"@ {
        Some(MhfVersion::G6)
    } else if name == "G6.1"@ {
        Some(MhfVersion::G6)
    } else if name == "G5.2"@ {
        Some(MhfVersion::G5_2)
    } else if name == "G5_2"@ {
        Some(MhfVersion::G5_2)
    } else if name == "GG"@ {
        Some(MhfVersion::GG)
    } else if name == "G4"@ {
        Some(MhfVersion::GG)
    } else if name == "G3.2"@ {
        Some(MhfVersion::G3_2)
    } else if name == "G3_2"@ {
        Some(MhfVersion::G3_2)
    } else if name == "G3.1"@ {
        Some(MhfVersion::G3_1)
    } else if name == "G3_1"@ {
        Some(MhfVersion::G3_1)
    } else if name == "G2"@ {
        Some(MhfVersion::G2)
    } else if name == "G1"@ {
        Some(MhfVersion::G1)
    } else if name == "F5"@ {
        Some(MhfVersion::F5)
    } else if name == "F4"@ {
        Some(MhfVersion::F4)
    } else if name == "S7K"@ {
        Some(MhfVersion::S7K)
    } else if name == "Season 7.0"@ {
        Some(MhfVersion::S7K)
    } else if name == "S6"@ {
        Some(MhfVersion::S6)
    } else if name == "Season 6.0"@ {
        Some(MhfVersion::S6)
    } else if name == "Z2T"@ {
        Some(MhfVersion::Z2T)
    } else if name == "Z2.2"@ {
        Some(MhfVersion::Z2T)
    } else if name == "G5.1"@ {
        Some(MhfVersion::G5_1)
    } else if name == "G5_1"@ {
        Some(MhfVersion::G5_1)
    } else if name == "G3"@ {
        Some(MhfVersion::G3)
    } else if name == "G5"@ {
        Some(MhfVersion::G5)
    } else if name == "Z2"@ {
        Some(MhfVersion::Z2)
    }
 else {
        None
    }
}

/// The version named by `label` once surrounding whitespace is removed.
pub fn label_to_version(label: &str) -> (v: Option<MhfVersion>)
    ensures
        v == version_named(trim_spec(label@)),
{
    let chars = str_chars(label);
    let trimmed_chars = trim_chars(chars.as_slice());
    let trimmed = string_from_chars(trimmed_chars.as_slice());
    let name = trimmed.as_str();
    if str_eq(name, "ZZ") {
        Some(MhfVersion::ZZ)
    } else if str_eq(name, "Z3") {
        Some(MhfVersion::ZZ)
    } else if str_eq(name, "Z3.1") {
        Some(MhfVersion::ZZ)
    } else if str_eq(name, "Z1") {
        Some(MhfVersion::Z1)
    } else if str_eq(name, "Z1.1") {
        Some(MhfVersion::Z1)
    } else if str_eq(name, "Z1.2") {
        Some(MhfVersion::Z1)
    } else if str_eq(name, "Z2.1") {
        Some(MhfVersion::Z1)
    } else if str_eq(name, "Z2.3") {
        Some(MhfVersion::Z1)
    } else if str_eq(name, "G10.1") {
        Some(MhfVersion::G10_1)
    } else if str_eq(name, "G10_1") {
        Some(MhfVersion::G10_1)
    } else if str_eq(name, "G10") {
        Some(MhfVersion::G10_1)
    } else if str_eq(name, "G9.1") {
        Some(MhfVersion::G9_1)
    } else if str_eq(name, "G9_1") {
        Some(MhfVersion::G9_1)
    } else if str_eq(name, "G9") {
        Some(MhfVersion::G9_1)
    } else if str_eq(name, "G7") {
        Some(MhfVersion::G7)
    } else if str_eq(name, "G6") {
        Some(MhfVersion::G6)
    } else if str_eq(name, "G6.1") {
        Some(MhfVersion::G6)
    } else if str_eq(name, "G5.2") {
        Some(MhfVersion::G5_2)
    } else if str_eq(name, "G5_2") {
        Some(MhfVersion::G5_2)
    } else if str_eq(name, "GG") {
        Some(MhfVersion::GG)
    } else if str_eq(name, "G4") {
        Some(MhfVersion::GG)
    } else if str_eq(name, "G3.2") {
        Some(MhfVersion::G3_2)
    } else if str_eq(name, "G3_2") {
        Some(MhfVersion::G3_2)
    } else if str_eq(name, "G3.1") {
        Some(MhfVersion::G3_1)
    } else if str_eq(name, "G3_1") {
        Some(MhfVersion::G3_1)
    } else if str_eq(name, "G2") {
        Some(MhfVersion::G2)
    } else if str_eq(name, "G1") {
        Some(MhfVersion::G1)
    } else if str_eq(name, "F5") {
        Some(MhfVersion::F5)
    } else if str_eq(name, "F4") {
        Some(MhfVersion::F4)
    } else if str_eq(name, "S7K") {
        Some(MhfVersion::S7K)
    } else if str_eq(name, "Season 7.0") {
        Some(MhfVersion::S7K)
    } else if str_eq(name, "S6") {
        Some(MhfVersion::S6)
    } else if str_eq(name, "Season 6.0") {
        Some(MhfVersion::S6)
    } else if str_eq(name, "Z2T") {
        Some(MhfVersion::Z2T)
    } else if str_eq(name, "Z2.2") {
        Some(MhfVersion::Z2T)
    } else if str_eq(name, "G5.1") {
        Some(MhfVersion::G5_1)
    } else if str_eq(name, "G5_1") {
        Some(MhfVersion::G5_1)
    } else if str_eq(name, "G3") {
        Some(MhfVersion::G3)
    } else if str_eq(name, "G5") {
        Some(MhfVersion::G5)
    } else if str_eq(name, "Z2") {
        Some(MhfVersion::Z2)
    }
 else {
        None
    }
}

/// Reading a version's label back gives the version.
#[verifier::rlimit(60)]
pub proof fn lemma_label_roundtrip(v: MhfVersion)
    ensures
        version_named(trim_spec(label_spec(v))) == Some(v),
{
    reveal_strlit("ZZ");
    reveal_strlit("Z3");
    reveal_strlit("Z3.1");
    reveal_strlit("Z1");
    reveal_strlit("Z1.1");
    reveal_strlit("Z1.2");
    reveal_strlit("Z2.1");
    reveal_strlit("Z2.3");
    reveal_strlit("G10.1");
    reveal_strlit("G10_1");
    reveal_strlit("G10");
    reveal_strlit("G9.1");
    reveal_strlit("G9_1");
    reveal_strlit("G9");
    reveal_strlit("G7");
    reveal_strlit("G6");
    reveal_strlit("G6.1");
    reveal_strlit("G5.2");
    reveal_strlit("G5_2");
    reveal_strlit("GG");
    reveal_strlit("G4");
    reveal_strlit("G3.2");
    reveal_strlit("G3_2");
    reveal_strlit("G3.1");
    reveal_strlit("G3_1");
    reveal_strlit("G2");
    reveal_strlit("G1");
    reveal_strlit("F5");
    reveal_strlit("F4");
    reveal_strlit("S7K");
    reveal_strlit("Season 7.0");
    reveal_strlit("S6");
    reveal_strlit("Season 6.0");
    reveal_strlit("Z2T");
    reveal_strlit("Z2.2");
    reveal_strlit("G5.1");
    reveal_strlit("G5_1");
    reveal_strlit("G3");
    reveal_strlit("G5");
    reveal_strlit("Z2");
    let l = label_spec(v);
    crate::text::lemma_trim_plain(l);
    assert(trim_spec(l) == l);
    match v {
        MhfVersion::ZZ => {
            assert(version_named(trim_spec(label_spec(v))) == Some(v));
        }
        MhfVersion::Z1 => {
            assert(version_named(trim_spec(label_spec(v))) == Some(v));
        }
        MhfVersion::G10_1 => {
            assert(version_named(trim_spec(label_spec(v))) == Some(v));
        }
        MhfVersion::G9_1 => {
            assert(version_named(trim_spec(label_spec(v))) == Some(v));
        }
        MhfVersion::G7 => {
            assert(version_named(trim_spec(label_spec(v))) == Some(v));
        }
        MhfVersion::G6 => {
            assert(version_named(trim_spec(label_spec(v))) == Some(v));
        }
        MhfVersion::G5_2 => {
            assert("G5.2"@[1] != "G9.1"@[1]);
            assert("G5.2"@[1] != "G9_1"@[1]);
            assert("G5.2"@[1] != "G6.1"@[1]);
            assert(version_named(trim_spec(label_spec(v))) == Some(v));
        }
        MhfVersion::GG => {
            assert(version_named(trim_spec(label_spec(v))) == Some(v));
        }
        MhfVersion::G3_2 => {
            assert("G3.2"@[1] != "G9.1"@[1]);
            assert("G3.2"@[1] != "G9_1"@[1]);
            assert("G3.2"@[1] != "G6.1"@[1]);
            assert("G3.2"@[1] != "G5.2"@[1]);
            assert("G3.2"@[1] != "G5_2"@[1]);
            assert(version_named(trim_spec(label_spec(v))) == Some(v));
        }
        MhfVersion::G3_1 => {
            assert("G3.1"@[1] != "G9.1"@[1]);
            assert("G3.1"@[1] != "G9_1"@[1]);
            assert("G3.1"@[1] != "G6.1"@[1]);
            assert("G3.1"@[1] != "G5.2"@[1]);
            assert("G3.1"@[1] != "G5_2"@[1]);
            assert("G3.1"@[2] != "G3_2"@[2]);
            assert(version_named(trim_spec(label_spec(v))) == Some(v));
        }
        MhfVersion::G2 => {
            assert(version_named(trim_spec(label_spec(v))) == Some(v));
        }
        MhfVersion::G1 => {
            assert(version_named(trim_spec(label_spec(v))) == Some(v));
        }
        MhfVersion::F5 => {
            assert(version_named(trim_spec(label_spec(v))) == Some(v));
        }
        MhfVersion::F4 => {
            assert(version_named(trim_spec(label_spec(v))) == Some(v));
        }
        MhfVersion::S7K => {
            assert(version_named(trim_spec(label_spec(v))) == Some(v));
        }
        MhfVersion::S6 => {
            assert(version_named(trim_spec(label_spec(v))) == Some(v));
        }
        MhfVersion::Z2T => {
            assert(version_named(trim_spec(label_spec(v))) == Some(v));
        }
        MhfVersion::G5_1 => {
            assert("G5.1"@[1] != "G9.1"@[1]);
            assert("G5.1"@[1] != "G9_1"@[1]);
            assert("G5.1"@[1] != "G6.1"@[1]);
            assert("G5.1"@[2] != "G5_2"@[2]);
            assert("G5.1"@[1] != "G3.2"@[1]);
            assert("G5.1"@[1] != "G3_2"@[1]);
            assert("G5.1"@[1] != "G3.1"@[1]);
            assert("G5.1"@[1] != "G3_1"@[1]);
            assert(version_named(trim_spec(label_spec(v))) == Some(v));
        }
        MhfVersion::G3 => {
            assert(version_named(trim_spec(label_spec(v))) == Some(v));
        }
        MhfVersion::G5 => {
            assert(version_named(trim_spec(label_spec(v))) == Some(v));
        }
        MhfVersion::Z2 => {
            assert(version_named(trim_spec(label_spec(v))) == Some(v));
        }
    }
}

} // verus!
