//! Friend-list injection: the memory layouts of the friend table per client
//! build, choosing a layout for a version signature, the external friend
//! ids and the bytes written into the table.
use vstd::prelude::*;

use crate::mhf::{friend_signatures_spec, FriendData};
use crate::text::{ascii_lower, ascii_lower_seq, eq_ignore_ascii_case, str_chars, str_eq, string_from_chars};
use crate::version::MhfVersion;

verus! {

/// Where a client build keeps its friend table: the DLL, the table's offset
/// (an absolute address when it is at least 0x1000_0000) and the offset of
/// the first friend id in an entry.
#[derive(Debug, Clone, Copy)]
pub struct FriendLayout {
    pub dll_name: &'static str,
    pub base_off: usize,
    pub id0_off: usize,
}

/// A friend-table layout and the version signature of the build it belongs to.
#[derive(Debug, Clone, Copy)]
pub struct FriendLayoutSignature {
    pub signature: &'static str,
    pub layout: FriendLayout,
}

/// The groups of builds that share a list of layouts.
#[derive(Debug, Clone, Copy, PartialEq, Eq, Structural)]
pub enum LayoutFamily {
    Season,
    Forward,
    G,
    Late,
    Empty,
}

/// The layout group of a version.
pub open spec fn family_of(version: MhfVersion) -> LayoutFamily {
    match version {
        MhfVersion::S6 | MhfVersion::S7K => LayoutFamily::Season,
        MhfVersion::F4 | MhfVersion::F5 => LayoutFamily::Forward,
        MhfVersion::G1 | MhfVersion::G2 | MhfVersion::G3 | MhfVersion::G3_1 | MhfVersion::G3_2
        | MhfVersion::GG | MhfVersion::G5_1 | MhfVersion::G5_2 => LayoutFamily::G,
        MhfVersion::G6 | MhfVersion::G7 | MhfVersion::G9_1 | MhfVersion::G10_1 | MhfVersion::Z1
        | MhfVersion::ZZ => LayoutFamily::Late,
        MhfVersion::G5 | MhfVersion::Z2 | MhfVersion::Z2T => LayoutFamily::Empty,
    }
}

/// The layouts of a group.
pub open spec fn family_layouts(f: LayoutFamily) -> Seq<FriendLayoutSignature> {
    match f {
        LayoutFamily::Season => seq![
        FriendLayoutSignature {
            signature: "v1.13.3246",
            layout: FriendLayout { dll_name: "mhfo.dll", base_off: 0x136502A0, id0_off: 0x18 },
        },
        FriendLayoutSignature {
            signature: "v7.0.14_2",
            layout: FriendLayout { dll_name: "mhfo.dll", base_off: 0x14A163E0, id0_off: 0x18 },
        },
        ],
        LayoutFamily::Forward => seq![
        FriendLayoutSignature {
            signature: "v1.20_107869",
            layout: FriendLayout { dll_name: "mhfo.dll", base_off: 0x15711F40, id0_off: 0x18 },
        },
        FriendLayoutSignature {
            signature: "v1.20_125635",
            layout: FriendLayout { dll_name: "mhfo.dll", base_off: 0x157B1480, id0_off: 0x18 },
        },
        FriendLayoutSignature {
            signature: "v1.20_133710",
            layout: FriendLayout { dll_name: "mhfo.dll", base_off: 0x157CCA00, id0_off: 0x18 },
        },
        ],
        LayoutFamily::G => seq![
        FriendLayoutSignature {
            signature: "v1.22_153077",
            layout: FriendLayout { dll_name: "mhfo.dll", base_off: 0x15B108A0, id0_off: 0x18 },
        },
        FriendLayoutSignature {
            signature: "v1.22_156129",
            layout: FriendLayout { dll_name: "mhfo.dll", base_off: 0x15B079A0, id0_off: 0x18 },
        },
        FriendLayoutSignature {
            signature: "v1.23_187828",
            layout: FriendLayout { dll_name: "mhfo.dll", base_off: 0x15B537C0, id0_off: 0x18 },
        },
        FriendLayoutSignature {
            signature: "v1.27_211402",
            layout: FriendLayout { dll_name: "mhfo.dll", base_off: 0x1548E960, id0_off: 0x18 },
        },
        FriendLayoutSignature {
            signature: "v1.27_212295",
            layout: FriendLayout { dll_name: "mhfo.dll", base_off: 0x1548E960, id0_off: 0x18 },
        },
        FriendLayoutSignature {
            signature: "v1.27_213258",
            layout: FriendLayout { dll_name: "mhfo.dll", base_off: 0x15496CC0, id0_off: 0x18 },
        },
        FriendLayoutSignature {
            signature: "v1.27_215335",
            layout: FriendLayout { dll_name: "mhfo.dll", base_off: 0x15496CC0, id0_off: 0x18 },
        },
        FriendLayoutSignature {
            signature: "v1.27_217155",
            layout: FriendLayout { dll_name: "mhfo.dll", base_off: 0x15496CC0, id0_off: 0x18 },
        },
        FriendLayoutSignature {
            signature: "v1.27_222273",
            layout: FriendLayout { dll_name: "mhfo.dll", base_off: 0x154A0F20, id0_off: 0x18 },
        },
        FriendLayoutSignature {
            signature: "v1.27_223087",
            layout: FriendLayout { dll_name: "mhfo.dll", base_off: 0x154A0F20, id0_off: 0x18 },
        },
        FriendLayoutSignature {
            signature: "v1.28_246880",
            layout: FriendLayout { dll_name: "mhfo.dll", base_off: 0x1568DE00, id0_off: 0x18 },
        },
        FriendLayoutSignature {
            signature: "v1.30.283838",
            layout: FriendLayout { dll_name: "mhfo.dll", base_off: 0x157216C0, id0_off: 0x18 },
        },
        FriendLayoutSignature {
            signature: "v1.32_302094",
            layout: FriendLayout { dll_name: "mhfo.dll", base_off: 0x15782C80, id0_off: 0x18 },
        },
        ],
        LayoutFamily::Late => seq![
        FriendLayoutSignature {
            signature: "v1.33_325336",
            layout: FriendLayout { dll_name: "mhfo.dll", base_off: 0x1581A680, id0_off: 0x18 },
        },
        FriendLayoutSignature {
            signature: "v1.33_326088",
            layout: FriendLayout { dll_name: "mhfo-hd.dll", base_off: 0x67EE2240, id0_off: 0x18 },
        },
        FriendLayoutSignature {
            signature: "v1.36.05_936940dd",
            layout: FriendLayout { dll_name: "mhfo.dll", base_off: 0x67F173A0, id0_off: 0x18 },
        },
        FriendLayoutSignature {
            signature: "v1.36.05_a924ce4d",
            layout: FriendLayout { dll_name: "mhfo-hd.dll", base_off: 0x67EC2C40, id0_off: 0x18 },
        },
        FriendLayoutSignature {
            signature: "v1.38.19_e8966870",
            layout: FriendLayout { dll_name: "mhfo.dll", base_off: 0x67EED520, id0_off: 0x18 },
        },
        FriendLayoutSignature {
            signature: "v1.38.19_47c90390",
            layout: FriendLayout { dll_name: "mhfo-hd.dll", base_off: 0x67E99CE0, id0_off: 0x18 },
        },
        FriendLayoutSignature {
            signature: "v1.41.30_c730c673",
            layout: FriendLayout { dll_name: "mhfo.dll", base_off: 0x15DCB840, id0_off: 0x18 },
        },
        FriendLayoutSignature {
            signature: "v1.41.30_f5ed3a6a",
            layout: FriendLayout { dll_name: "mhfo-hd.dll", base_off: 0x1EA07FE0, id0_off: 0x18 },
        },
        FriendLayoutSignature {
            signature: "v1.41.32_8acc3715",
            layout: FriendLayout { dll_name: "mhfo.dll", base_off: 0x15DCD860, id0_off: 0x18 },
        },
        FriendLayoutSignature {
            signature: "v1.41.32_5c06b547",
            layout: FriendLayout { dll_name: "mhfo-hd.dll", base_off: 0x1EA0A020, id0_off: 0x18 },
        },
        FriendLayoutSignature {
            signature: "v1.44.45_15a73eb7",
            layout: FriendLayout { dll_name: "mhfo.dll", base_off: 0x15F691A0, id0_off: 0x18 },
        },
        FriendLayoutSignature {
            signature: "v1.44.45_dca95f5f",
            layout: FriendLayout { dll_name: "mhfo-hd.dll", base_off: 0x1EBA3940, id0_off: 0x18 },
        },
        FriendLayoutSignature {
            signature: "v1.52.79_04d16dc4",
            layout: FriendLayout { dll_name: "mhfo.dll", base_off: 0x16142F20, id0_off: 0x18 },
        },
        FriendLayoutSignature {
            signature: "v1.52.79_73c49f52",
            layout: FriendLayout { dll_name: "mhfo-hd.dll", base_off: 0x1ED7D6C0, id0_off: 0x18 },
        },
        ],
        LayoutFamily::Empty => Seq::empty(),
    }
}

/// The friend-table layouts known for the builds of a version.
pub open spec fn layouts_for_version(version: MhfVersion) -> Seq<FriendLayoutSignature> {
    family_layouts(family_of(version))
}

fn season_layouts() -> (v: Vec<FriendLayoutSignature>)
    ensures
        v@ == family_layouts(LayoutFamily::Season),
{
    let v: Vec<FriendLayoutSignature> = vec![
        FriendLayoutSignature {
            signature: "v1.13.3246",
            layout: FriendLayout { dll_name: "mhfo.dll", base_off: 0x136502A0, id0_off: 0x18 },
        },
        FriendLayoutSignature {
            signature: "v7.0.14_2",
            layout: FriendLayout { dll_name: "mhfo.dll", base_off: 0x14A163E0, id0_off: 0x18 },
        },
    ];
    proof {
        assert(v@ =~= family_layouts(LayoutFamily::Season));
    }
    v
}

fn forward_layouts() -> (v: Vec<FriendLayoutSignature>)
    ensures
        v@ == family_layouts(LayoutFamily::Forward),
{
    let v: Vec<FriendLayoutSignature> = vec![
        FriendLayoutSignature {
            signature: "v1.20_107869",
            layout: FriendLayout { dll_name: "mhfo.dll", base_off: 0x15711F40, id0_off: 0x18 },
        },
        FriendLayoutSignature {
            signature: "v1.20_125635",
            layout: FriendLayout { dll_name: "mhfo.dll", base_off: 0x157B1480, id0_off: 0x18 },
        },
        FriendLayoutSignature {
            signature: "v1.20_133710",
            layout: FriendLayout { dll_name: "mhfo.dll", base_off: 0x157CCA00, id0_off: 0x18 },
        },
    ];
    proof {
        assert(v@ =~= family_layouts(LayoutFamily::Forward));
    }
    v
}

fn g_layouts() -> (v: Vec<FriendLayoutSignature>)
    ensures
        v@ == family_layouts(LayoutFamily::G),
{
    let v: Vec<FriendLayoutSignature> = vec![
        FriendLayoutSignature {
            signature: "v1.22_153077",
            layout: FriendLayout { dll_name: "mhfo.dll", base_off: 0x15B108A0, id0_off: 0x18 },
        },
        FriendLayoutSignature {
            signature: "v1.22_156129",
            layout: FriendLayout { dll_name: "mhfo.dll", base_off: 0x15B079A0, id0_off: 0x18 },
        },
        FriendLayoutSignature {
            signature: "v1.23_187828",
            layout: FriendLayout { dll_name: "mhfo.dll", base_off: 0x15B537C0, id0_off: 0x18 },
        },
        FriendLayoutSignature {
            signature: "v1.27_211402",
            layout: FriendLayout { dll_name: "mhfo.dll", base_off: 0x1548E960, id0_off: 0x18 },
        },
        FriendLayoutSignature {
            signature: "v1.27_212295",
            layout: FriendLayout { dll_name: "mhfo.dll", base_off: 0x1548E960, id0_off: 0x18 },
        },
        FriendLayoutSignature {
            signature: "v1.27_213258",
            layout: FriendLayout { dll_name: "mhfo.dll", base_off: 0x15496CC0, id0_off: 0x18 },
        },
        FriendLayoutSignature {
            signature: "v1.27_215335",
            layout: FriendLayout { dll_name: "mhfo.dll", base_off: 0x15496CC0, id0_off: 0x18 },
        },
        FriendLayoutSignature {
            signature: "v1.27_217155",
            layout: FriendLayout { dll_name: "mhfo.dll", base_off: 0x15496CC0, id0_off: 0x18 },
        },
        FriendLayoutSignature {
            signature: "v1.27_222273",
            layout: FriendLayout { dll_name: "mhfo.dll", base_off: 0x154A0F20, id0_off: 0x18 },
        },
        FriendLayoutSignature {
            signature: "v1.27_223087",
            layout: FriendLayout { dll_name: "mhfo.dll", base_off: 0x154A0F20, id0_off: 0x18 },
        },
        FriendLayoutSignature {
            signature: "v1.28_246880",
            layout: FriendLayout { dll_name: "mhfo.dll", base_off: 0x1568DE00, id0_off: 0x18 },
        },
        FriendLayoutSignature {
            signature: "v1.30.283838",
            layout: FriendLayout { dll_name: "mhfo.dll", base_off: 0x157216C0, id0_off: 0x18 },
        },
        FriendLayoutSignature {
            signature: "v1.32_302094",
            layout: FriendLayout { dll_name: "mhfo.dll", base_off: 0x15782C80, id0_off: 0x18 },
        },
    ];
    proof {
        assert(v@ =~= family_layouts(LayoutFamily::G));
    }
    v
}

fn late_layouts() -> (v: Vec<FriendLayoutSignature>)
    ensures
        v@ == family_layouts(LayoutFamily::Late),
{
    let v: Vec<FriendLayoutSignature> = vec![
        FriendLayoutSignature {
            signature: "v1.33_325336",
            layout: FriendLayout { dll_name: "mhfo.dll", base_off: 0x1581A680, id0_off: 0x18 },
        },
        FriendLayoutSignature {
            signature: "v1.33_326088",
            layout: FriendLayout { dll_name: "mhfo-hd.dll", base_off: 0x67EE2240, id0_off: 0x18 },
        },
        FriendLayoutSignature {
            signature: "v1.36.05_936940dd",
            layout: FriendLayout { dll_name: "mhfo.dll", base_off: 0x67F173A0, id0_off: 0x18 },
        },
        FriendLayoutSignature {
            signature: "v1.36.05_a924ce4d",
            layout: FriendLayout { dll_name: "mhfo-hd.dll", base_off: 0x67EC2C40, id0_off: 0x18 },
        },
        FriendLayoutSignature {
            signature: "v1.38.19_e8966870",
            layout: FriendLayout { dll_name: "mhfo.dll", base_off: 0x67EED520, id0_off: 0x18 },
        },
        FriendLayoutSignature {
            signature: "v1.38.19_47c90390",
            layout: FriendLayout { dll_name: "mhfo-hd.dll", base_off: 0x67E99CE0, id0_off: 0x18 },
        },
        FriendLayoutSignature {
            signature: "v1.41.30_c730c673",
            layout: FriendLayout { dll_name: "mhfo.dll", base_off: 0x15DCB840, id0_off: 0x18 },
        },
        FriendLayoutSignature {
            signature: "v1.41.30_f5ed3a6a",
            layout: FriendLayout { dll_name: "mhfo-hd.dll", base_off: 0x1EA07FE0, id0_off: 0x18 },
        },
        FriendLayoutSignature {
            signature: "v1.41.32_8acc3715",
            layout: FriendLayout { dll_name: "mhfo.dll", base_off: 0x15DCD860, id0_off: 0x18 },
        },
        FriendLayoutSignature {
            signature: "v1.41.32_5c06b547",
            layout: FriendLayout { dll_name: "mhfo-hd.dll", base_off: 0x1EA0A020, id0_off: 0x18 },
        },
        FriendLayoutSignature {
            signature: "v1.44.45_15a73eb7",
            layout: FriendLayout { dll_name: "mhfo.dll", base_off: 0x15F691A0, id0_off: 0x18 },
        },
        FriendLayoutSignature {
            signature: "v1.44.45_dca95f5f",
            layout: FriendLayout { dll_name: "mhfo-hd.dll", base_off: 0x1EBA3940, id0_off: 0x18 },
        },
        FriendLayoutSignature {
            signature: "v1.52.79_04d16dc4",
            layout: FriendLayout { dll_name: "mhfo.dll", base_off: 0x16142F20, id0_off: 0x18 },
        },
        FriendLayoutSignature {
            signature: "v1.52.79_73c49f52",
            layout: FriendLayout { dll_name: "mhfo-hd.dll", base_off: 0x1ED7D6C0, id0_off: 0x18 },
        },
    ];
    proof {
        assert(v@ =~= family_layouts(LayoutFamily::Late));
    }
    v
}

/// The friend-table layouts known for the builds of `version`.
pub fn friend_layout_signatures_for_version(version: MhfVersion) -> (v: Vec<FriendLayoutSignature>)
    ensures
        v@ == layouts_for_version(version),
{
    match version {
        MhfVersion::S6 | MhfVersion::S7K => season_layouts(),
        MhfVersion::F4 | MhfVersion::F5 => forward_layouts(),
        MhfVersion::G1 | MhfVersion::G2 | MhfVersion::G3 | MhfVersion::G3_1 | MhfVersion::G3_2
        | MhfVersion::GG | MhfVersion::G5_1 | MhfVersion::G5_2 => g_layouts(),
        MhfVersion::G6 | MhfVersion::G7 | MhfVersion::G9_1 | MhfVersion::G10_1 | MhfVersion::Z1
        | MhfVersion::ZZ => late_layouts(),
        MhfVersion::G5 | MhfVersion::Z2 | MhfVersion::Z2T => {
            let v: Vec<FriendLayoutSignature> = Vec::new();
            v
        },
    }
}

/// Whether a layout entry is the one for `signature` (ignoring ASCII case)
/// and, when a DLL name is given, for that DLL.
pub open spec fn layout_matches(
    candidate: FriendLayoutSignature,
    signature: Seq<char>,
    dll_name: Option<Seq<char>>,
) -> bool {
    &&& match dll_name {
        Some(name) => candidate.layout.dll_name@ == name,
        None => true,
    }
    &&& ascii_lower_seq(candidate.signature@) == ascii_lower_seq(signature)
}

/// The layout of the first entry of `layouts` that matches.
pub open spec fn find_layout_spec(
    signature: Seq<char>,
    dll_name: Option<Seq<char>>,
    layouts: Seq<FriendLayoutSignature>,
) -> Option<FriendLayout>
    decreases layouts.len(),
{
    if layouts.len() == 0 {
        None
    } else if layout_matches(layouts[0], signature, dll_name) {
        Some(layouts[0].layout)
    } else {
        find_layout_spec(signature, dll_name, layouts.drop_first())
    }
}

proof fn lemma_find_layout_some(
    signature: Seq<char>,
    dll_name: Option<Seq<char>>,
    layouts: Seq<FriendLayoutSignature>,
    j: int,
)
    requires
        0 <= j < layouts.len(),
        layout_matches(layouts[j], signature, dll_name),
    ensures
        find_layout_spec(signature, dll_name, layouts) is Some,
    decreases layouts.len(),
{
    if j > 0 && !layout_matches(layouts[0], signature, dll_name) {
        lemma_find_layout_some(signature, dll_name, layouts.drop_first(), j - 1);
    }
}

/// The layout of the first entry of `layouts` whose signature equals
/// `signature` ignoring ASCII case, and whose DLL is `dll_name` when one is given.
pub fn find_layout_for_signature(
    signature: &str,
    dll_name: Option<&str>,
    layouts: &[FriendLayoutSignature],
) -> (r: Option<FriendLayout>)
    ensures
        r == find_layout_spec(
            signature@,
            match dll_name {
                Some(n) => Some(n@),
                None => None,
            },
            layouts@,
        ),
{
    let ghost dll = match dll_name {
        Some(n) => Some(n@),
        None => None::<Seq<char>>,
    };
    let sig_chars = str_chars(signature);
    let mut i: usize = 0;
    assert(layouts@.skip(0) =~= layouts@);
    while i < layouts.len()
        invariant
            i <= layouts@.len(),
            sig_chars@ == signature@,
            dll == match dll_name {
                Some(n) => Some(n@),
                None => None::<Seq<char>>,
            },
            find_layout_spec(signature@, dll, layouts@) == find_layout_spec(
                signature@,
                dll,
                layouts@.skip(i as int),
            ),
        decreases layouts@.len() - i,
    {
        let candidate = layouts[i];
        let dll_ok = match dll_name {
            Some(name) => str_eq(candidate.layout.dll_name, name),
            None => true,
        };
        let cand_chars = str_chars(candidate.signature);
        assert(layouts@.skip(i as int)[0] == candidate);
        if dll_ok && eq_ignore_ascii_case(cand_chars.as_slice(), sig_chars.as_slice()) {
            return Some(candidate.layout);
        }
        proof {
            assert(layouts@.skip(i as int).drop_first() =~= layouts@.skip(i + 1));
        }
        i = i + 1;
    }
    None
}

/// The layout for the selected signature: first among the layouts for the
/// DLL the client loaded, then among all layouts of the version.  No
/// signature selects no layout.
pub open spec fn select_layout_spec(
    version: MhfVersion,
    dll_name: Seq<char>,
    signature: Option<Seq<char>>,
) -> Option<FriendLayout> {
    match signature {
        None => None,
        Some(sig) => match find_layout_spec(sig, Some(dll_name), layouts_for_version(version)) {
            Some(l) => Some(l),
            None => find_layout_spec(sig, None, layouts_for_version(version)),
        },
    }
}

/// Chooses the friend-table layout for the selected version signature:
/// the layout for the loaded DLL when there is one, else any layout with
/// that signature.
pub fn select_friend_layout(version: MhfVersion, dll_name: &str, signature: Option<&str>) -> (r:
    Option<FriendLayout>)
    ensures
        r == select_layout_spec(
            version,
            dll_name@,
            match signature {
                Some(s) => Some(s@),
                None => None,
            },
        ),
{
    let sig = match signature {
        Some(s) => s,
        None => return None,
    };
    let layouts = friend_layout_signatures_for_version(version);
    match find_layout_for_signature(sig, Some(dll_name), layouts.as_slice()) {
        Some(l) => Some(l),
        None => find_layout_for_signature(sig, None, layouts.as_slice()),
    }
}

/// Every version signature offered for a version has a friend-table layout
/// among that version's layouts, so choosing it finds a layout.
pub proof fn lemma_offered_signatures_have_layouts(version: MhfVersion, hd: bool, k: int)
    requires
        0 <= k < friend_signatures_spec(version, hd).len(),
    ensures
        find_layout_spec(friend_signatures_spec(version, hd)[k], None, layouts_for_version(version))
            is Some,
{
    let s = friend_signatures_spec(version, hd);
    let l = layouts_for_version(version);
    match version {
        MhfVersion::S6 => {
            if k == 0 {
                assert(layout_matches(l[0], s[0], None));
                lemma_find_layout_some(s[0], None, l, 0);
            }
        }
        MhfVersion::S7K => {
            if k == 0 {
                assert(layout_matches(l[1], s[0], None));
                lemma_find_layout_some(s[0], None, l, 1);
            }
        }
        MhfVersion::F4 => {
            if k == 0 {
                assert(layout_matches(l[0], s[0], None));
                lemma_find_layout_some(s[0], None, l, 0);
            }
        }
        MhfVersion::F5 => {
            if k == 0 {
                assert(layout_matches(l[1], s[0], None));
                lemma_find_layout_some(s[0], None, l, 1);
            }
            if k == 1 {
                assert(layout_matches(l[2], s[1], None));
                lemma_find_layout_some(s[1], None, l, 2);
            }
        }
        MhfVersion::G1 => {
            if k == 0 {
                assert(layout_matches(l[0], s[0], None));
                lemma_find_layout_some(s[0], None, l, 0);
            }
            if k == 1 {
                assert(layout_matches(l[1], s[1], None));
                lemma_find_layout_some(s[1], None, l, 1);
            }
        }
        MhfVersion::G2 => {
            if k == 0 {
                assert(layout_matches(l[2], s[0], None));
                lemma_find_layout_some(s[0], None, l, 2);
            }
        }
        MhfVersion::G3 => {
            if k == 0 {
                assert(layout_matches(l[3], s[0], None));
                lemma_find_layout_some(s[0], None, l, 3);
            }
            if k == 1 {
                assert(layout_matches(l[4], s[1], None));
                lemma_find_layout_some(s[1], None, l, 4);
            }
        }
        MhfVersion::G3_1 => {
            if k == 0 {
                assert(layout_matches(l[5], s[0], None));
                lemma_find_layout_some(s[0], None, l, 5);
            }
            if k == 1 {
                assert(layout_matches(l[6], s[1], None));
                lemma_find_layout_some(s[1], None, l, 6);
            }
            if k == 2 {
                assert(layout_matches(l[7], s[2], None));
                lemma_find_layout_some(s[2], None, l, 7);
            }
        }
        MhfVersion::G3_2 => {
            if k == 0 {
                assert(layout_matches(l[8], s[0], None));
                lemma_find_layout_some(s[0], None, l, 8);
            }
            if k == 1 {
                assert(layout_matches(l[9], s[1], None));
                lemma_find_layout_some(s[1], None, l, 9);
            }
        }
        MhfVersion::GG => {
            if k == 0 {
                assert(layout_matches(l[10], s[0], None));
                lemma_find_layout_some(s[0], None, l, 10);
            }
        }
        MhfVersion::G5_1 => {
            if k == 0 {
                assert(layout_matches(l[11], s[0], None));
                lemma_find_layout_some(s[0], None, l, 11);
            }
        }
        MhfVersion::G5_2 => {
            if k == 0 {
                assert(layout_matches(l[12], s[0], None));
                lemma_find_layout_some(s[0], None, l, 12);
            }
        }
        MhfVersion::G6 => {
            if hd {
                if k == 0 {
                    assert(layout_matches(l[1], s[0], None));
                    lemma_find_layout_some(s[0], None, l, 1);
                }
            } else {
                if k == 0 {
                    assert(layout_matches(l[0], s[0], None));
                    lemma_find_layout_some(s[0], None, l, 0);
                }
            }
        }
        MhfVersion::G7 => {
            if hd {
                if k == 0 {
                    assert(layout_matches(l[3], s[0], None));
                    lemma_find_layout_some(s[0], None, l, 3);
                }
            } else {
                if k == 0 {
                    assert(layout_matches(l[2], s[0], None));
                    lemma_find_layout_some(s[0], None, l, 2);
                }
            }
        }
        MhfVersion::G9_1 => {
            if hd {
                if k == 0 {
                    assert(layout_matches(l[5], s[0], None));
                    lemma_find_layout_some(s[0], None, l, 5);
                }
            } else {
                if k == 0 {
                    assert(layout_matches(l[4], s[0], None));
                    lemma_find_layout_some(s[0], None, l, 4);
                }
            }
        }
        MhfVersion::G10_1 => {
            if hd {
                if k == 0 {
                    assert(layout_matches(l[7], s[0], None));
                    lemma_find_layout_some(s[0], None, l, 7);
                }
                if k == 1 {
                    assert(layout_matches(l[9], s[1], None));
                    lemma_find_layout_some(s[1], None, l, 9);
                }
            } else {
                if k == 0 {
                    assert(layout_matches(l[6], s[0], None));
                    lemma_find_layout_some(s[0], None, l, 6);
                }
                if k == 1 {
                    assert(layout_matches(l[8], s[1], None));
                    lemma_find_layout_some(s[1], None, l, 8);
                }
            }
        }
        MhfVersion::Z1 => {
            if hd {
                if k == 0 {
                    assert(layout_matches(l[11], s[0], None));
                    lemma_find_layout_some(s[0], None, l, 11);
                }
            } else {
                if k == 0 {
                    assert(layout_matches(l[10], s[0], None));
                    lemma_find_layout_some(s[0], None, l, 10);
                }
            }
        }
        MhfVersion::ZZ => {
            if hd {
                if k == 0 {
                    assert(layout_matches(l[13], s[0], None));
                    lemma_find_layout_some(s[0], None, l, 13);
                }
            } else {
                if k == 0 {
                    assert(layout_matches(l[12], s[0], None));
                    lemma_find_layout_some(s[0], None, l, 12);
                }
            }
        }
        MhfVersion::G5 => {}
        MhfVersion::Z2 => {}
        MhfVersion::Z2T => {}
    }
}

/// The character that tells apart the signatures of the later builds that
/// have the same length: the first of the hash, or the build's last digit
/// for the two short ones.
spec fn late_mark(i: int) -> char {
    if i == 0 {
        '5'
    } else if i == 1 {
        '6'
    } else if i == 2 {
        '9'
    } else if i == 3 {
        'a'
    } else if i == 4 {
        'e'
    } else if i == 5 {
        '4'
    } else if i == 6 {
        'c'
    } else if i == 7 {
        'f'
    } else if i == 8 {
        '8'
    } else if i == 9 {
        '5'
    } else if i == 10 {
        '1'
    } else if i == 11 {
        'd'
    } else if i == 12 {
        '0'
    } else {
        '7'
    }
}

proof fn lemma_late_signature_shape(i: int)
    requires
        0 <= i < 14,
    ensures
        family_layouts(LayoutFamily::Late).len() == 14,
        ascii_lower_seq(family_layouts(LayoutFamily::Late)[i].signature@).len() == if i < 2 {
            12nat
        } else {
            17nat
        },
        ascii_lower_seq(family_layouts(LayoutFamily::Late)[i].signature@)[if i < 2 {
            8int
        } else {
            9int
        }] == late_mark(i),
{
    let s = family_layouts(LayoutFamily::Late)[i].signature@;
    if i == 0 {
        reveal_strlit("v1.33_325336");
    } else if i == 1 {
        reveal_strlit("v1.33_326088");
    } else if i == 2 {
        reveal_strlit("v1.36.05_936940dd");
    } else if i == 3 {
        reveal_strlit("v1.36.05_a924ce4d");
    } else if i == 4 {
        reveal_strlit("v1.38.19_e8966870");
    } else if i == 5 {
        reveal_strlit("v1.38.19_47c90390");
    } else if i == 6 {
        reveal_strlit("v1.41.30_c730c673");
    } else if i == 7 {
        reveal_strlit("v1.41.30_f5ed3a6a");
    } else if i == 8 {
        reveal_strlit("v1.41.32_8acc3715");
    } else if i == 9 {
        reveal_strlit("v1.41.32_5c06b547");
    } else if i == 10 {
        reveal_strlit("v1.44.45_15a73eb7");
    } else if i == 11 {
        reveal_strlit("v1.44.45_dca95f5f");
    } else if i == 12 {
        reveal_strlit("v1.52.79_04d16dc4");
    } else if i == 13 {
        reveal_strlit("v1.52.79_73c49f52");
    }
    let p: int = if i < 2 {
        8
    } else {
        9
    };
    assert(ascii_lower_seq(s)[p] == ascii_lower(s[p]));
}

/// No two layouts of the later builds have the same signature, ignoring case.
proof fn lemma_late_signatures_differ(i: int, j: int)
    requires
        0 <= i < 14,
        0 <= j < 14,
        ascii_lower_seq(family_layouts(LayoutFamily::Late)[i].signature@) == ascii_lower_seq(
            family_layouts(LayoutFamily::Late)[j].signature@,
        ),
    ensures
        i == j,
{
    lemma_late_signature_shape(i);
    lemma_late_signature_shape(j);
}

/// A layout that the search finds is one of the entries that match.
proof fn lemma_find_layout_found(
    signature: Seq<char>,
    dll_name: Option<Seq<char>>,
    layouts: Seq<FriendLayoutSignature>,
)
    ensures
        find_layout_spec(signature, dll_name, layouts) is Some ==> exists|i: int|
            0 <= i < layouts.len() && layout_matches(#[trigger] layouts[i], signature, dll_name)
                && find_layout_spec(signature, dll_name, layouts) == Some(layouts[i].layout),
    decreases layouts.len(),
{
    if layouts.len() > 0 {
        if layout_matches(layouts[0], signature, dll_name) {
            assert(layout_matches(layouts[0], signature, dll_name));
        } else {
            let rest = layouts.drop_first();
            lemma_find_layout_found(signature, dll_name, rest);
            if find_layout_spec(signature, dll_name, layouts) is Some {
                let i = choose|i: int|
                    0 <= i < rest.len() && layout_matches(#[trigger] rest[i], signature, dll_name)
                        && find_layout_spec(signature, dll_name, rest) == Some(rest[i].layout);
                assert(layouts[i + 1] == rest[i]);
            }
        }
    }
}

/// For the versions whose SD and HD clients are separate builds (G6, G7,
/// G9.1, G10.1, Z1 and ZZ), the layout found for every version signature
/// offered is the one of the client DLL that the mode loads: "mhfo-hd.dll"
/// in HD mode, "mhfo.dll" otherwise.
pub proof fn lemma_offered_signatures_pick_mode_dll(version: MhfVersion, hd: bool, k: int)
    requires
        0 <= k < friend_signatures_spec(version, hd).len(),
        family_of(version) == LayoutFamily::Late,
    ensures
        find_layout_spec(friend_signatures_spec(version, hd)[k], None, layouts_for_version(version)) matches Some(
            l,
        ) && l.dll_name@ == (if hd {
            "mhfo-hd.dll"@
        } else {
            "mhfo.dll"@
        }),
{
    let s = friend_signatures_spec(version, hd);
    let ls = family_layouts(LayoutFamily::Late);
    let first: int = match version {
        MhfVersion::G6 => 0,
        MhfVersion::G7 => 2,
        MhfVersion::G9_1 => 4,
        MhfVersion::G10_1 => 6 + 2 * k,
        MhfVersion::Z1 => 10,
        _ => 12,
    };
    let j: int = if hd {
        first + 1
    } else {
        first
    };
    lemma_late_signature_shape(j);
    assert(s[k] == ls[j].signature@);
    lemma_find_layout_some(s[k], None, ls, j);
    lemma_find_layout_found(s[k], None, ls);
    let i = choose|i: int|
        0 <= i < ls.len() && layout_matches(#[trigger] ls[i], s[k], None) && find_layout_spec(s[k], None, ls)
            == Some(ls[i].layout);
    lemma_late_signatures_differ(i, j);
}

/// The 32 digits of external friend ids, least significant first.
pub const BASE32_CHARS: [char; 32] = ['1', '2', '3', '4', '5', '6', '7', '8', '9', 'A', 'B', 'C', 'D', 'E', 'F', 'G', 'H', 'J', 'K', 'L', 'M', 'N', 'P', 'Q', 'R', 'T', 'U', 'V', 'W', 'X', 'Y', 'Z'];

/// External ids are six digits, so ids must stay below 32 to the 6th.
pub const BASE32_CAP: u32 = 1073741824;

/// The first `n` base-32 digits of `id`, least significant first.
pub open spec fn ext_id_chars(id: nat, n: nat) -> Seq<char>
    decreases n,
{
    if n == 0 {
        Seq::empty()
    } else {
        seq![BASE32_CHARS@[(id % 32) as int]] + ext_id_chars(id / 32, (n - 1) as nat)
    }
}

/// 32 to the power `n`.
pub open spec fn pow32(n: nat) -> nat
    decreases n,
{
    if n == 0 {
        1
    } else {
        32 * pow32((n - 1) as nat)
    }
}

proof fn lemma_ext_id_zero(n: nat)
    ensures
        ext_id_chars(0, n) == Seq::new(n, |i: int| '1'),
    decreases n,
{
    if n > 0 {
        lemma_ext_id_zero((n - 1) as nat);
        assert(ext_id_chars(0, n) =~= Seq::new(n, |i: int| '1'));
    }
}

proof fn lemma_ext_id_len(id: nat, n: nat)
    ensures
        ext_id_chars(id, n).len() == n,
    decreases n,
{
    if n > 0 {
        lemma_ext_id_len(id / 32, (n - 1) as nat);
    }
}

/// The external (in-game) id of a friend: six base-32 digits of `id`,
/// least significant first, over the alphabet "123456789ABCDEFGHJKLMNPQRTUVWXYZ".
pub fn make_ext_id(id: u32) -> (s: String)
    requires
        id < BASE32_CAP,
    ensures
        s@ == ext_id_chars(id as nat, 6),
{
    let mut out: Vec<char> = Vec::new();
    let mut rest: u32 = id;
    let mut k: usize = 0;
    while k < 6
        invariant
            k <= 6,
            out@.len() == k,
            out@ + ext_id_chars(rest as nat, (6 - k) as nat) == ext_id_chars(id as nat, 6),
        ensures
            k <= 6,
            out@.len() == k,
            out@ + ext_id_chars(rest as nat, (6 - k) as nat) == ext_id_chars(id as nat, 6),
            k < 6 ==> rest == 0,
        decreases 6 - k,
    {
        let c = BASE32_CHARS[(rest % 32) as usize];
        let ghost before = out@;
        out.push(c);
        proof {
            assert(ext_id_chars(rest as nat, (6 - k) as nat) == seq![c] + ext_id_chars(
                (rest / 32) as nat,
                (6 - k - 1) as nat,
            ));
            assert(out@ + ext_id_chars((rest / 32) as nat, (6 - k - 1) as nat) =~= before
                + ext_id_chars(rest as nat, (6 - k) as nat));
        }
        rest = rest / 32;
        k = k + 1;
        if rest == 0 {
            break;
        }
    }
    while k < 6
        invariant
            k <= 6,
            out@.len() == k,
            out@ + ext_id_chars(rest as nat, (6 - k) as nat) == ext_id_chars(id as nat, 6),
            k < 6 ==> rest == 0,
        decreases 6 - k,
    {
        let ghost before = out@;
        out.push('1');
        proof {
            lemma_ext_id_zero((6 - k) as nat);
            lemma_ext_id_zero((6 - k - 1) as nat);
            assert(out@ + ext_id_chars(0, (6 - k - 1) as nat) =~= before + ext_id_chars(
                0,
                (6 - k) as nat,
            ));
        }
        k = k + 1;
    }
    proof {
        assert(ext_id_chars(rest as nat, 0) =~= Seq::<char>::empty());
        assert(out@ =~= ext_id_chars(id as nat, 6));
    }
    string_from_chars(out.as_slice())
}

proof fn lemma_base32_distinct(a: int, b: int)
    requires
        0 <= a < 32,
        0 <= b < 32,
        BASE32_CHARS@[a] == BASE32_CHARS@[b],
    ensures
        a == b,
{
}

/// Distinct ids below the cap get distinct external ids.
pub proof fn lemma_ext_id_injective(a: nat, b: nat, n: nat)
    requires
        a < pow32(n),
        b < pow32(n),
        ext_id_chars(a, n) == ext_id_chars(b, n),
    ensures
        a == b,
    decreases n,
{
    if n == 0 {
    } else {
        let sa = ext_id_chars(a, n);
        let sb = ext_id_chars(b, n);
        assert(sa[0] == BASE32_CHARS@[(a % 32) as int]);
        assert(sb[0] == BASE32_CHARS@[(b % 32) as int]);
        lemma_base32_distinct((a % 32) as int, (b % 32) as int);
        assert(sa.drop_first() =~= ext_id_chars(a / 32, (n - 1) as nat));
        assert(sb.drop_first() =~= ext_id_chars(b / 32, (n - 1) as nat));
        assert(a / 32 < pow32((n - 1) as nat)) by (nonlinear_arith)
            requires
                a < 32 * pow32((n - 1) as nat),
        ;
        assert(b / 32 < pow32((n - 1) as nat)) by (nonlinear_arith)
            requires
                b < 32 * pow32((n - 1) as nat),
        ;
        lemma_ext_id_injective(a / 32, b / 32, (n - 1) as nat);
        assert(a == 32 * (a / 32) + a % 32) by (nonlinear_arith);
        assert(b == 32 * (b / 32) + b % 32) by (nonlinear_arith);
    }
}

/// The value of one base-32 digit: its place in the alphabet.
pub open spec fn digit_value(c: char) -> int {
    choose|d: int| 0 <= d < 32 && BASE32_CHARS@[d] == c
}

/// The number written by base-32 digits, least significant first.
pub open spec fn base32_value(s: Seq<char>) -> int
    decreases s.len(),
{
    if s.len() == 0 {
        0
    } else {
        digit_value(s[0]) + 32 * base32_value(s.drop_first())
    }
}

/// The first `n` digits of an id below 32 to the `n`th are `n` characters
/// of the alphabet, and read back least significant first they give the id.
pub proof fn lemma_ext_id_digits(id: nat, n: nat)
    requires
        id < pow32(n),
    ensures
        ext_id_chars(id, n).len() == n,
        forall|k: int| 0 <= k < n ==> BASE32_CHARS@.contains(#[trigger] ext_id_chars(id, n)[k]),
        base32_value(ext_id_chars(id, n)) == id,
    decreases n,
{
    lemma_ext_id_len(id, n);
    if n > 0 {
        let s = ext_id_chars(id, n);
        let d = (id % 32) as int;
        assert(id / 32 < pow32((n - 1) as nat)) by (nonlinear_arith)
            requires
                id < 32 * pow32((n - 1) as nat),
        ;
        lemma_ext_id_digits(id / 32, (n - 1) as nat);
        assert(s.drop_first() =~= ext_id_chars(id / 32, (n - 1) as nat));
        assert(s[0] == BASE32_CHARS@[d]);
        let e = digit_value(s[0]);
        assert(0 <= e < 32 && BASE32_CHARS@[e] == s[0]);
        lemma_base32_distinct(d, e);
        assert forall|k: int| 0 <= k < n implies BASE32_CHARS@.contains(#[trigger] s[k]) by {
            if k == 0 {
                assert(BASE32_CHARS@[d] == s[0]);
            } else {
                assert(s[k] == s.drop_first()[k - 1]);
            }
        }
        assert(id == id % 32 + 32 * (id / 32)) by (nonlinear_arith);
    }
}

/// An external friend id is six characters of the alphabet
/// "123456789ABCDEFGHJKLMNPQRTUVWXYZ", and its digits, least significant
/// first, give the id back: the sum over k below six of the place of
/// character k in the alphabet times 32 to the k is the id.
pub proof fn lemma_make_ext_id_digits(id: u32)
    requires
        id < BASE32_CAP,
    ensures
        ext_id_chars(id as nat, 6).len() == 6,
        forall|k: int| 0 <= k < 6 ==> BASE32_CHARS@.contains(#[trigger] ext_id_chars(id as nat, 6)[k]),
        base32_value(ext_id_chars(id as nat, 6)) == id,
{
    reveal_with_fuel(pow32, 7);
    assert(pow32(6) == 1073741824);
    lemma_ext_id_digits(id as nat, 6);
}

/// Two friends whose ids are below the cap and differ get different external ids.
pub proof fn lemma_make_ext_id_injective(a: u32, b: u32)
    requires
        a < BASE32_CAP,
        b < BASE32_CAP,
        ext_id_chars(a as nat, 6) == ext_id_chars(b as nat, 6),
    ensures
        a == b,
{
    reveal_with_fuel(pow32, 7);
    assert(pow32(6) == 1073741824);
    lemma_ext_id_injective(a as nat, b as nat, 6);
}

} // verus!
