//! The record of which game files a server's patch changed: files it
//! replaced (whose originals are backed up) and files it added.
use vstd::prelude::*;

use crate::text::{str_chars, str_eq, string_from_chars};

verus! {

/// The directory, under the game folder, where the records are kept.
pub const MANIFEST_DIR: &'static str = "Mezeporta/Manifests";

/// Whether `c` cannot stand in a file name on some system.
pub open spec fn is_reserved_char(c: char) -> bool {
    c == '\\' || c == '/' || c == ':' || c == '*' || c == '?' || c == '"' || c == '<' || c == '>'
        || c == '|'
}

/// `server` with each character that cannot stand in a file name replaced
/// by '_'.
pub open spec fn sanitize_spec(server: Seq<char>) -> Seq<char> {
    server.map_values(|c: char| if is_reserved_char(c) { '_' } else { c })
}

/// The name a server's files are kept under.
pub fn sanitize_server_key(server: &str) -> (r: String)
    ensures
        r@ == sanitize_spec(server@),
{
    let chars = str_chars(server);
    let mut out: Vec<char> = Vec::new();
    let mut i: usize = 0;
    while i < chars.len()
        invariant
            i <= chars@.len(),
            out@ =~= sanitize_spec(chars@.take(i as int)),
        decreases chars@.len() - i,
    {
        let c = chars[i];
        let reserved = c == '\\' || c == '/' || c == ':' || c == '*' || c == '?' || c == '"' || c
            == '<' || c == '>' || c == '|';
        out.push(if reserved { '_' } else { c });
        i = i + 1;
        assert(sanitize_spec(chars@.take(i as int)) =~= sanitize_spec(chars@.take(i - 1)).push(
            if reserved { '_' } else { c },
        ));
    }
    assert(chars@.take(chars@.len() as int) =~= chars@);
    string_from_chars(out.as_slice())
}

/// The files a server's patch changed.
#[derive(Debug, Default)]
pub struct Manifest {
    pub modified_files: Vec<String>,
    pub added_files: Vec<String>,
}

/// The texts of a list of strings.
pub open spec fn texts(v: Seq<String>) -> Seq<Seq<char>> {
    v.map_values(|s: String| s@)
}

/// `s` without the occurrences of `x`.
pub open spec fn without(s: Seq<Seq<char>>, x: Seq<char>) -> Seq<Seq<char>>
    decreases s.len(),
{
    if s.len() == 0 {
        s
    } else if s.last() == x {
        without(s.drop_last(), x)
    } else {
        without(s.drop_last(), x).push(s.last())
    }
}

/// `s` with `x` added at the end unless it is there already.
pub open spec fn with_entry(s: Seq<Seq<char>>, x: Seq<char>) -> Seq<Seq<char>> {
    if s.contains(x) {
        s
    } else {
        s.push(x)
    }
}

/// Whether no entry of `s` occurs twice.
pub open spec fn no_repeats(s: Seq<Seq<char>>) -> bool {
    forall|i: int, j: int| 0 <= i < j < s.len() ==> s[i] != s[j]
}

/// The record once `rel` is noted as replaced (`modified`) or as added.
pub open spec fn recorded(
    modified_files: Seq<Seq<char>>,
    added_files: Seq<Seq<char>>,
    rel: Seq<char>,
    modified: bool,
) -> (Seq<Seq<char>>, Seq<Seq<char>>) {
    if modified {
        (with_entry(modified_files, rel), without(added_files, rel))
    } else {
        (without(modified_files, rel), with_entry(added_files, rel))
    }
}

impl Manifest {
    /// The two lists of the record, as texts.
    pub open spec fn lists(&self) -> (Seq<Seq<char>>, Seq<Seq<char>>) {
        (texts(self.modified_files@), texts(self.added_files@))
    }

    /// The record's path, relative to the game folder:
    /// "Mezeporta/Manifests/<key>.json".
    pub fn path(server: &str) -> (r: String)
        ensures
            r@ == "Mezeporta/Manifests/"@ + sanitize_spec(server@) + ".json"@,
    {
        let mut r = "Mezeporta/Manifests/".to_string();
        let key = sanitize_server_key(server);
        r.append(key.as_str());
        r.append(".json");
        r
    }
}

proof fn lemma_contains_push(c: Seq<Seq<char>>, z: Seq<char>, y: Seq<char>)
    ensures
        c.push(z).contains(y) <==> (c.contains(y) || z == y),
{
    if c.contains(y) {
        let k = choose|k: int| 0 <= k < c.len() && c[k] == y;
        assert(c.push(z)[k] == y);
    }
    if z == y {
        assert(c.push(z)[c.len() as int] == y);
    }
    if c.push(z).contains(y) {
        let k = choose|k: int| 0 <= k < c.push(z).len() && c.push(z)[k] == y;
        if k < c.len() {
            assert(c[k] == y);
        }
    }
}

proof fn lemma_without_facts(s: Seq<Seq<char>>, x: Seq<char>)
    ensures
        forall|y: Seq<char>| without(s, x).contains(y) <==> (s.contains(y) && y != x),
        no_repeats(s) ==> no_repeats(without(s, x)),
    decreases s.len(),
{
    if s.len() > 0 {
        let d = s.drop_last();
        let r = without(d, x);
        lemma_without_facts(d, x);
        assert(d.push(s.last()) =~= s);
        assert forall|y: Seq<char>| without(s, x).contains(y) <==> (s.contains(y) && y != x) by {
            lemma_contains_push(d, s.last(), y);
            lemma_contains_push(r, s.last(), y);
        }
        if no_repeats(s) && s.last() != x {
            assert forall|i: int, j: int| 0 <= i < j < r.push(s.last()).len() implies r.push(
                s.last(),
            )[i] != r.push(s.last())[j] by {
                if j == r.len() && r[i] == s.last() {
                    assert(r.contains(s.last()));
                    assert(d.contains(s.last()));
                    let t = choose|t: int| 0 <= t < d.len() && d[t] == s.last();
                    assert(s[t] == s[s.len() - 1]);
                }
            }
        }
    }
}

/// Notes `rel` in the record: a replaced file joins the replaced files and
/// leaves the added ones; an added file the other way round.
pub fn record_manifest_entry(manifest: &mut Manifest, rel: &str, modified: bool)
    ensures
        final(manifest).lists() == recorded(
            old(manifest).lists().0,
            old(manifest).lists().1,
            rel@,
            modified,
        ),
{
    if modified {
        remove_entry(&mut manifest.added_files, rel);
        add_entry(&mut manifest.modified_files, rel);
    } else {
        remove_entry(&mut manifest.modified_files, rel);
        add_entry(&mut manifest.added_files, rel);
    }
}

/// Removes the occurrences of `x` from `list`.
fn remove_entry(list: &mut Vec<String>, x: &str)
    ensures
        texts(final(list)@) == without(texts(old(list)@), x@),
{
    let mut kept: Vec<String> = Vec::new();
    let mut i: usize = 0;
    while i < list.len()
        invariant
            i <= list@.len(),
            texts(kept@) == without(texts(list@.take(i as int)), x@),
        decreases list@.len() - i,
    {
        let ghost before = kept@;
        assert(texts(list@.take(i + 1)).drop_last() =~= texts(list@.take(i as int)));
        assert(texts(list@.take(i + 1)).last() == list@[i as int]@);
        if !str_eq(list[i].as_str(), x) {
            kept.push(list[i].clone());
            assert(texts(kept@) =~= texts(before).push(list@[i as int]@));
        }
        i = i + 1;
    }
    assert(list@.take(list@.len() as int) =~= list@);
    *list = kept;
}

/// Adds `x` at the end of `list` unless it is there already.
fn add_entry(list: &mut Vec<String>, x: &str)
    ensures
        texts(final(list)@) == with_entry(texts(old(list)@), x@),
{
    let mut i: usize = 0;
    while i < list.len()
        invariant
            i <= list@.len(),
            forall|j: int| 0 <= j < i ==> texts(list@)[j] != x@,
        decreases list@.len() - i,
    {
        if str_eq(list[i].as_str(), x) {
            assert(texts(list@)[i as int] == x@);
            assert(texts(list@).contains(x@));
            return;
        }
        i = i + 1;
    }
    let ghost before = list@;
    list.push(x.to_string());
    assert(texts(list@) =~= texts(before).push(x@));
}

/// Noting a file in the record leaves it in exactly one of the two lists,
/// touches no other entry, and keeps lists without repeated entries so.
pub proof fn lemma_record_places_entry(
    modified_files: Seq<Seq<char>>,
    added_files: Seq<Seq<char>>,
    rel: Seq<char>,
    modified: bool,
)
    ensures
        ({
            let (m, a) = recorded(modified_files, added_files, rel, modified);
            &&& m.contains(rel) == modified
            &&& a.contains(rel) == !modified
            &&& forall|y: Seq<char>|
                y != rel ==> (m.contains(y) <==> modified_files.contains(y)) && (a.contains(y)
                    <==> added_files.contains(y))
            &&& no_repeats(modified_files) ==> no_repeats(m)
            &&& no_repeats(added_files) ==> no_repeats(a)
        }),
{
    lemma_without_facts(modified_files, rel);
    lemma_without_facts(added_files, rel);
    let (m, a) = recorded(modified_files, added_files, rel, modified);
    if modified {
        if !modified_files.contains(rel) {
            assert(modified_files.push(rel)[modified_files.len() as int] == rel);
            assert forall|y: Seq<char>| y != rel implies (m.contains(y) <==> modified_files.contains(y)) by {
                if m.contains(y) {
                    let k = choose|k: int| 0 <= k < m.len() && m[k] == y;
                    assert(modified_files[k] == y);
                }
                if modified_files.contains(y) {
                    let k = choose|k: int| 0 <= k < modified_files.len() && modified_files[k] == y;
                    assert(m[k] == y);
                }
            }
            assert forall|i: int, j: int| 0 <= i < j < m.len() && no_repeats(modified_files) implies m[i] != m[j] by {
                if j == modified_files.len() {
                    assert(m[i] == modified_files[i]);
                    if m[i] == m[j] {
                        assert(modified_files.contains(rel));
                    }
                }
            }
        }
    } else {
        if !added_files.contains(rel) {
            assert(added_files.push(rel)[added_files.len() as int] == rel);
            assert forall|y: Seq<char>| y != rel implies (a.contains(y) <==> added_files.contains(y)) by {
                if a.contains(y) {
                    let k = choose|k: int| 0 <= k < a.len() && a[k] == y;
                    assert(added_files[k] == y);
                }
                if added_files.contains(y) {
                    let k = choose|k: int| 0 <= k < added_files.len() && added_files[k] == y;
                    assert(a[k] == y);
                }
            }
            assert forall|i: int, j: int| 0 <= i < j < a.len() && no_repeats(added_files) implies a[i] != a[j] by {
                if j == added_files.len() {
                    assert(a[i] == added_files[i]);
                    if a[i] == a[j] {
                        assert(added_files.contains(rel));
                    }
                }
            }
        }
    }
}


/// Whether no entry is in both lists.
pub open spec fn lists_apart(a: Seq<Seq<char>>, b: Seq<Seq<char>>) -> bool {
    forall|y: Seq<char>| a.contains(y) ==> !b.contains(y)
}

proof fn lemma_without_with_entry(s: Seq<Seq<char>>, x: Seq<char>)
    ensures
        without(with_entry(s, x), x) == without(s, x),
{
    if !s.contains(x) {
        assert(s.push(x).drop_last() =~= s);
        assert(s.push(x).last() == x);
    }
}

/// Noting a file leaves every other entry of both lists where it was, in
/// the same order (the lists without the file are the same before and
/// after), and keeps the two lists apart when they were.
pub proof fn lemma_record_keeps_others(
    modified_files: Seq<Seq<char>>,
    added_files: Seq<Seq<char>>,
    rel: Seq<char>,
    modified: bool,
)
    ensures
        ({
            let (m, a) = recorded(modified_files, added_files, rel, modified);
            &&& without(m, rel) == without(modified_files, rel)
            &&& without(a, rel) == without(added_files, rel)
            &&& lists_apart(modified_files, added_files) ==> lists_apart(m, a)
        }),
{
    lemma_without_with_entry(modified_files, rel);
    lemma_without_with_entry(added_files, rel);
    lemma_without_stable(modified_files, rel);
    lemma_without_stable(added_files, rel);
    lemma_record_places_entry(modified_files, added_files, rel, modified);
    let (m, a) = recorded(modified_files, added_files, rel, modified);
    if lists_apart(modified_files, added_files) {
        assert forall|y: Seq<char>| m.contains(y) implies !a.contains(y) by {
            if y != rel {
                assert(modified_files.contains(y));
            }
        }
    }
}

/// A sanitised key is left as it is by sanitising it again.
pub proof fn lemma_sanitize_stable(server: Seq<char>)
    ensures
        sanitize_spec(sanitize_spec(server)) == sanitize_spec(server),
{
    assert(sanitize_spec(sanitize_spec(server)) =~= sanitize_spec(server));
}

proof fn lemma_without_stable(s: Seq<Seq<char>>, x: Seq<char>)
    ensures
        without(without(s, x), x) == without(s, x),
    decreases s.len(),
{
    if s.len() > 0 {
        lemma_without_stable(s.drop_last(), x);
        if s.last() != x {
            let r = without(s.drop_last(), x);
            assert(r.push(s.last()).drop_last() =~= r);
            assert(r.push(s.last()).last() == s.last());
        }
    }
}

/// Noting the same file the same way twice changes nothing the second time.
pub proof fn lemma_record_idempotent(
    modified_files: Seq<Seq<char>>,
    added_files: Seq<Seq<char>>,
    rel: Seq<char>,
    modified: bool,
)
    ensures
        ({
            let (m, a) = recorded(modified_files, added_files, rel, modified);
            recorded(m, a, rel, modified) == (m, a)
        }),
{
    lemma_without_stable(modified_files, rel);
    lemma_without_stable(added_files, rel);
    let (m, a) = recorded(modified_files, added_files, rel, modified);
    lemma_record_places_entry(modified_files, added_files, rel, modified);
}

} // verus!
