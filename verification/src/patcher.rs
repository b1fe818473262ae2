//! Patching the game files for a server: reading the patch list, deciding
//! which files need fetching, naming backups, and deciding how to switch the
//! game folder from one server's files to another's.
use vstd::prelude::*;

use crate::manifest::{sanitize_server_key, sanitize_spec};
use crate::server::{patcher_network_error, trim_start_slash_chars, trim_start_slashes};
use crate::text::{
    chars_end_with, chars_eq, ends_with, find_char, first_index, slice_chars, split_chars, split_spec,
    str_chars, str_eq, string_from_chars, trim_chars, trim_spec,
};

verus! {

/// The message for a patch list or download that failed.
pub const NETWORK_ERROR: &'static str = "patcher-network-error";

/// The message for a file that could not be written or moved.
pub const FILE_ERROR: &'static str = "patcher-file-error";

/// The suffix of the backup of a replaced file.
pub const PRIMARY_BACKUP_SUFFIX: &'static str = ".mezeb";

/// The backup suffix of the launcher's earlier versions.
pub const LEGACY_BACKUP_SUFFIX: &'static str = ".butterold";

/// The backup suffix of the launcher's first versions.
pub const OLDEST_BACKUP_SUFFIX: &'static str = ".buttold";

/// The file, relative to the game folder, naming the server whose files
/// are in place.
pub const ACTIVE_SERVER_FILE: &'static str = "Mezeporta/active_server";

/// The suffixes of the backup of a replaced file: the current one, then
/// those of earlier versions of the launcher.
pub open spec fn backup_suffixes() -> Seq<Seq<char>> {
    seq![".mezeb"@, ".butterold"@, ".buttold"@]
}

/// The file name of the backup of `name` with `suffix`.
pub fn backup_file_name(name: &str, suffix: &str) -> (r: String)
    ensures
        r@ == name@ + suffix@,
{
    let mut r = name.to_string();
    r.append(suffix);
    r
}

/// The file name whose backup `name` is: `name` without the first backup
/// suffix it ends with; `None` when it ends with none.
pub open spec fn original_file_name_spec(name: Seq<char>) -> Option<Seq<char>> {
    if ends_with(name, ".mezeb"@) {
        Some(name.take(name.len() - 6))
    } else if ends_with(name, ".butterold"@) {
        Some(name.take(name.len() - 10))
    } else if ends_with(name, ".buttold"@) {
        Some(name.take(name.len() - 8))
    } else {
        None
    }
}

/// The file name whose backup `name` is, if it is one.
pub fn original_file_name(name: &str) -> (r: Option<String>)
    ensures
        match r {
            Some(o) => original_file_name_spec(name@) == Some(o@),
            None => original_file_name_spec(name@) is None,
        },
{
    let chars = str_chars(name);
    let primary = str_chars(".mezeb");
    let legacy1 = str_chars(".butterold");
    let legacy2 = str_chars(".buttold");
    proof {
        reveal_strlit(".mezeb");
        reveal_strlit(".butterold");
        reveal_strlit(".buttold");
    }
    if chars_end_with(chars.as_slice(), primary.as_slice()) {
        let t = slice_chars(chars.as_slice(), 0, chars.len() - 6);
        return Some(string_from_chars(t.as_slice()));
    }
    if chars_end_with(chars.as_slice(), legacy1.as_slice()) {
        let t = slice_chars(chars.as_slice(), 0, chars.len() - 10);
        return Some(string_from_chars(t.as_slice()));
    }
    if chars_end_with(chars.as_slice(), legacy2.as_slice()) {
        let t = slice_chars(chars.as_slice(), 0, chars.len() - 8);
        return Some(string_from_chars(t.as_slice()));
    }
    None
}

/// A backup, under any of the suffixes, leads back to the file it backs up.
pub proof fn lemma_backup_name_roundtrip(name: Seq<char>, k: int)
    requires
        0 <= k < 3,
    ensures
        original_file_name_spec(name + backup_suffixes()[k]) == Some(name),
{
    reveal_strlit(".mezeb");
    reveal_strlit(".butterold");
    reveal_strlit(".buttold");
    let s = backup_suffixes()[k];
    let b = name + s;
    let n = b.len();
    assert(b.take(name.len() as int) =~= name);
    if k == 0 {
        assert(b.subrange(n - 6, n as int) =~= ".mezeb"@);
    } else if k == 1 {
        assert(b.subrange(n - 10, n as int) =~= ".butterold"@);
        assert(b[n - 1] == 'd' && b[n - 2] == 'l');
        assert(!ends_with(b, ".mezeb"@)) by {
            assert(".mezeb"@[5] == 'b');
            assert(b.subrange(n - 6, n as int)[5] == b[n - 1]);
        }
    } else {
        assert(b.subrange(n - 8, n as int) =~= ".buttold"@);
        assert(!ends_with(b, ".mezeb"@)) by {
            assert(".mezeb"@[5] == 'b');
            assert(b.subrange(n - 6, n as int)[5] == b[n - 1]);
        }
        assert(!ends_with(b, ".butterold"@)) by {
            assert(".butterold"@[5] == 'e');
            assert(b.subrange(n - 8, n as int)[3] == b[n - 5]);
            assert(b[n - 5] == 't');
            if n >= 10 {
                assert(b.subrange(n - 10, n as int)[5] == b[n - 5]);
            }
        }
    }
}

/// The directory, relative to the game folder, where a server's files are
/// cached: "Mezeporta/Servers/<key>".
pub fn server_cache_dir(server: &str) -> (r: String)
    ensures
        r@ == "Mezeporta/Servers/"@ + sanitize_spec(server@),
{
    let mut r = "Mezeporta/Servers/".to_string();
    let key = sanitize_server_key(server);
    r.append(key.as_str());
    r
}

/// The entity tag cached for a server, from the text of its tag file: the
/// trimmed text, unless it is blank.
pub open spec fn cached_etag_spec(text: Option<Seq<char>>) -> Option<Seq<char>> {
    match text {
        Some(t) => if trim_spec(t).len() == 0 {
            None
        } else {
            Some(trim_spec(t))
        },
        None => None,
    }
}

/// The entity tag cached for a server, given the text of its tag file (or
/// `None` when it cannot be read).
pub fn cached_server_etag(text: Option<String>) -> (r: Option<String>)
    ensures
        match text {
            Some(t) => opt_text_eq(r, cached_etag_spec(Some(t@))),
            None => r is None,
        },
{
    match text {
        Some(t) => {
            let chars = str_chars(t.as_str());
            let trimmed = trim_chars(chars.as_slice());
            if trimmed.len() == 0 {
                None
            } else {
                Some(string_from_chars(trimmed.as_slice()))
            }
        },
        None => None,
    }
}

/// The text a patch run writes to a server's tag file for the entity tag
/// `etag`: the tag trimmed; a blank tag writes nothing.
pub open spec fn etag_file_text_spec(etag: Seq<char>) -> Option<Seq<char>> {
    if trim_spec(etag).len() == 0 {
        None
    } else {
        Some(trim_spec(etag))
    }
}

/// The text to write to a server's tag file for the entity tag `etag`, or
/// `None` when the tag is blank and nothing is written.
pub fn etag_file_text(etag: &str) -> (r: Option<String>)
    ensures
        opt_text_eq(r, etag_file_text_spec(etag@)),
{
    let chars = str_chars(etag);
    let trimmed = trim_chars(chars.as_slice());
    if trimmed.len() == 0 {
        None
    } else {
        Some(string_from_chars(trimmed.as_slice()))
    }
}

/// A tag written to a server's tag file reads back as the tag, trimmed:
/// reading the text written for a tag that is not blank gives that tag.
pub proof fn lemma_etag_read_back(etag: Seq<char>)
    ensures
        etag_file_text_spec(etag) matches Some(t) ==> cached_etag_spec(Some(t)) == Some(trim_spec(etag)),
{
    crate::text::lemma_trim_idempotent(etag);
}

/// Whether the optional string `r` has the optional text `t`.
pub open spec fn opt_text_eq(r: Option<String>, t: Option<Seq<char>>) -> bool {
    match r {
        Some(s) => t == Some(s@),
        None => t is None,
    }
}

/// A line of the patch list without its line ending, as `str::lines`
/// leaves it: a final carriage return goes too.
pub open spec fn strip_cr(line: Seq<char>) -> Seq<char> {
    if line.len() > 0 && line.last() == '\r' {
        line.drop_last()
    } else {
        line
    }
}

/// The lines of `text` as `str::lines` gives them: split at line feeds, no
/// empty line after a final line feed, carriage returns before the feeds
/// removed.
pub open spec fn lines_spec(text: Seq<char>) -> Seq<Seq<char>> {
    let parts = split_spec(text, '\n');
    let kept = if parts.last().len() == 0 {
        parts.drop_last()
    } else {
        parts
    };
    kept.map_values(|l: Seq<char>| strip_cr(l))
}

/// An entry of the patch list: the checksum of a file and its path.
pub open spec fn patch_entry_spec(line: Seq<char>) -> Option<(Seq<char>, Seq<char>)> {
    let t = first_index(line, '\t');
    if t >= line.len() {
        None
    } else {
        Some((line.take(t as int), trim_start_slashes(line.skip(t + (1 as int)))))
    }
}

/// The entries of a patch list, one per line, each "checksum TAB path";
/// `None` when a line has no tab.
pub open spec fn patch_entries_spec(lines: Seq<Seq<char>>) -> Option<Seq<(Seq<char>, Seq<char>)>>
    decreases lines.len(),
{
    if lines.len() == 0 {
        Some(Seq::empty())
    } else {
        match patch_entry_spec(lines.last()) {
            None => None,
            Some(e) => match patch_entries_spec(lines.drop_last()) {
                None => None,
                Some(r) => Some(r.push(e)),
            },
        }
    }
}

/// An entry of the patch list.
pub struct PatchEntry {
    pub hash: String,
    pub path: String,
}

/// The checksums and paths of a list of entries.
pub open spec fn entry_texts(v: Seq<PatchEntry>) -> Seq<(Seq<char>, Seq<char>)> {
    v.map_values(|e: PatchEntry| (e.hash@, e.path@))
}

/// The lines of `text`.
fn text_lines(text: &str) -> (r: Vec<Vec<char>>)
    ensures
        r@.len() == lines_spec(text@).len(),
        forall|k: int| 0 <= k < r@.len() ==> #[trigger] r@[k]@ == lines_spec(text@)[k],
{
    let chars = str_chars(text);
    let parts = split_chars(chars.as_slice(), '\n');
    let ghost ps = split_spec(chars@, '\n');
    let mut n = parts.len();
    if n > 0 && parts[n - 1].len() == 0 {
        n = n - 1;
    }
    let ghost kept = if ps.last().len() == 0 {
        ps.drop_last()
    } else {
        ps
    };
    proof {
        assert(ps.len() > 0) by {
            reveal_with_fuel(split_spec, 1);
        }
    }
    let mut out: Vec<Vec<char>> = Vec::new();
    let mut k: usize = 0;
    while k < n
        invariant
            ps == split_spec(text@, '\n'),
            parts@.len() == ps.len(),
            forall|j: int| 0 <= j < ps.len() ==> #[trigger] parts@[j]@ == ps[j],
            n == kept.len(),
            kept == (if ps.last().len() == 0 {
                ps.drop_last()
            } else {
                ps
            }),
            k <= n,
            out@.len() == k,
            forall|j: int| 0 <= j < k ==> #[trigger] out@[j]@ == strip_cr(kept[j]),
        decreases n - k,
    {
        let line = &parts[k];
        assert(line@ == kept[k as int]);
        let m = line.len();
        if m > 0 && line[m - 1] == '\r' {
            let t = slice_chars(line.as_slice(), 0, m - 1);
            assert(t@ =~= line@.drop_last());
            out.push(t);
        } else {
            out.push(slice_chars(line.as_slice(), 0, m));
            assert(out@[k as int]@ =~= line@);
        }
        k = k + 1;
    }
    out
}

/// Reads the patch list `content`: one entry per line, its checksum and
/// path separated by the first tab, leading slashes dropped from the path.
/// A line without a tab makes the list unreadable.
pub fn parse_patch_list(content: &str) -> (r: Result<Vec<PatchEntry>, &'static str>)
    ensures
        match patch_entries_spec(lines_spec(content@)) {
            Some(es) => r matches Ok(v) && entry_texts(v@) == es,
            None => r matches Err(m) && m@ == patcher_network_error(),
        },
{
    let lines = text_lines(content);
    let ghost ls = lines_spec(content@);
    let mut out: Vec<PatchEntry> = Vec::new();
    let mut k: usize = 0;
    while k < lines.len()
        invariant
            ls == lines_spec(content@),
            lines@.len() == ls.len(),
            forall|j: int| 0 <= j < ls.len() ==> #[trigger] lines@[j]@ == ls[j],
            k <= ls.len(),
            patch_entries_spec(ls.take(k as int)) == Some(entry_texts(out@)),
        decreases ls.len() - k,
    {
        let line = &lines[k];
        let t = find_char(line.as_slice(), 0, '\t');
        assert(line@.skip(0) =~= line@);
        assert(ls.take(k + 1).drop_last() =~= ls.take(k as int));
        assert(ls.take(k + 1).last() == line@);
        if t == line.len() {
            proof {
                assert(patch_entries_spec(ls.take(k + 1)) is None);
                lemma_entries_prefix_none(ls, k + 1);
                assert(ls.take(ls.len() as int) =~= ls);
            }
            return Err("patcher-network-error");
        }
        let hash = slice_chars(line.as_slice(), 0, t);
        let rest = slice_chars(line.as_slice(), t + 1, line.len());
        assert(rest@ =~= line@.skip(t + 1));
        let path = trim_start_slash_chars(rest.as_slice());
        let ghost before = out@;
        out.push(
            PatchEntry {
                hash: string_from_chars(hash.as_slice()),
                path: string_from_chars(path.as_slice()),
            },
        );
        assert(entry_texts(out@) =~= entry_texts(before).push((hash@, path@)));
        k = k + 1;
    }
    assert(ls.take(ls.len() as int) =~= ls);
    Ok(out)
}

proof fn lemma_entries_prefix_none(ls: Seq<Seq<char>>, k: int)
    requires
        0 <= k <= ls.len(),
        patch_entries_spec(ls.take(k)) is None,
    ensures
        patch_entries_spec(ls.take(ls.len() as int)) is None,
    decreases ls.len() - k,
{
    if k < ls.len() {
        assert(ls.take(k + 1).drop_last() =~= ls.take(k));
        lemma_entries_prefix_none(ls, k + 1);
    }
}

/// The SHA-256 digest of `bytes`.
pub uninterp spec fn sha256_digest(bytes: Seq<u8>) -> Seq<u8>;

/// Wraps `sha2::Sha256::digest`: the digest of `bytes`, 32 bytes long.
#[verifier::external_body]
fn sha256(bytes: &[u8]) -> (r: Vec<u8>)
    ensures
        r@ == sha256_digest(bytes@),
        r@.len() == 32,
{
    <sha2::Sha256 as sha2::Digest>::digest(bytes).to_vec()
}

/// The lower-case hexadecimal digit of `d`.
pub open spec fn hex_digit(d: u8) -> char {
    if d < 10 {
        (d + 48) as char
    } else {
        (d + 87) as char
    }
}

/// `bytes` in lower-case hexadecimal, two digits per byte.
pub open spec fn lower_hex_spec(bytes: Seq<u8>) -> Seq<char>
    decreases bytes.len(),
{
    if bytes.len() == 0 {
        Seq::empty()
    } else {
        lower_hex_spec(bytes.drop_last()) + seq![
            hex_digit(bytes.last() / 16),
            hex_digit(bytes.last() % 16),
        ]
    }
}

fn hex_char(d: u8) -> (c: char)
    requires
        d < 16,
    ensures
        c == hex_digit(d),
{
    if d < 10 {
        (d + 48) as char
    } else {
        (d + 87) as char
    }
}

/// `bytes` in lower-case hexadecimal.
pub fn lower_hex(bytes: &[u8]) -> (s: String)
    ensures
        s@ == lower_hex_spec(bytes@),
{
    let mut out: Vec<char> = Vec::new();
    let mut i: usize = 0;
    while i < bytes.len()
        invariant
            i <= bytes@.len(),
            out@ == lower_hex_spec(bytes@.take(i as int)),
        decreases bytes@.len() - i,
    {
        let b = bytes[i];
        out.push(hex_char(b / 16));
        out.push(hex_char(b % 16));
        assert(bytes@.take(i + 1).drop_last() =~= bytes@.take(i as int));
        i = i + 1;
        assert(out@ =~= lower_hex_spec(bytes@.take(i as int)));
    }
    assert(bytes@.take(bytes@.len() as int) =~= bytes@);
    string_from_chars(out.as_slice())
}

/// Whether the file in place already has the checksum the patch list
/// names: it could be read, and the hexadecimal SHA-256 of its contents is
/// the checksum.
/// The checksum a patch list names for a file: the SHA-256 digest of its
/// contents in lower-case hexadecimal.
pub fn content_hash(contents: &[u8]) -> (h: String)
    ensures
        h@ == lower_hex_spec(sha256_digest(contents@)),
{
    let digest = sha256(contents);
    lower_hex(digest.as_slice())
}

/// Whether a file with `contents` (none when it cannot be read) has the
/// checksum `hash`.
pub open spec fn file_is_current_spec(hash: Seq<char>, contents: Option<Seq<u8>>) -> bool {
    match contents {
        Some(c) => lower_hex_spec(sha256_digest(c)) == hash,
        None => false,
    }
}

/// Whether the file in place (its contents, when it can be read) already
/// has the checksum the patch list names, so that it need not be fetched.
pub fn file_is_current(hash: &str, contents: Option<&[u8]>) -> (b: bool)
    ensures
        b == file_is_current_spec(
            hash@,
            match contents {
                Some(c) => Some(c@),
                None => None,
            },
        ),
{
    match contents {
        Some(c) => {
            let hex = content_hash(c);
            str_eq(hex.as_str(), hash)
        },
        None => false,
    }
}

/// What the game folder holds for a server switch: the server whose files
/// are in place, whether it and the target have a record of their patch,
/// and whether the target's files are cached.
#[derive(Debug)]
pub struct SwapInfo {
    pub active_server: Option<String>,
    pub active_has_manifest: bool,
    pub target_has_manifest: bool,
    pub target_has_cache: bool,
}

/// How to switch the game folder to a server's files.
#[derive(Debug, PartialEq, Eq, Structural)]
pub enum SwapPlan {
    /// The server's files are in place already.
    AlreadyActive,
    /// The server's files cannot be restored from the cache.
    Unavailable,
    /// Restore the original files, then copy in the cached ones.
    Restore,
}

/// The switch to `target`: nothing when it is active; else its cached files
/// can be used only when it has both a record and a complete cache.
pub open spec fn swap_plan_spec(info_active: Option<Seq<char>>, target_has_manifest: bool, target_has_cache: bool, target: Seq<char>) -> SwapPlan {
    if info_active == Some(target) {
        SwapPlan::AlreadyActive
    } else if !target_has_manifest || !target_has_cache {
        SwapPlan::Unavailable
    } else {
        SwapPlan::Restore
    }
}

/// Decides how to switch the game folder to the files of `target`.
pub fn swap_plan(info: &SwapInfo, target: &str) -> (p: SwapPlan)
    ensures
        p == swap_plan_spec(
            match info.active_server {
                Some(a) => Some(a@),
                None => None,
            },
            info.target_has_manifest,
            info.target_has_cache,
            target@,
        ),
{
    if let Some(active) = &info.active_server {
        if str_eq(active.as_str(), target) {
            return SwapPlan::AlreadyActive;
        }
    }
    if !info.target_has_manifest || !info.target_has_cache {
        SwapPlan::Unavailable
    } else {
        SwapPlan::Restore
    }
}

/// The server whose files are in place, from the text of the file that
/// names it: the trimmed text, unless blank.
pub fn active_server_from(text: Option<String>) -> (r: Option<String>)
    ensures
        match text {
            Some(t) => opt_text_eq(r, cached_etag_spec(Some(t@))),
            None => r is None,
        },
{
    cached_server_etag(text)
}

/// What a patch run does once the patch server has answered.
#[derive(Debug, PartialEq, Eq)]
pub enum PatchPlan {
    /// The target's files are in place and current: mark it active.
    UpToDate,
    /// The target's current files are cached: restore the previous
    /// server's originals (when one was active), then copy in the cache.
    FromCache { restore_previous: bool },
    /// Download the changed files: first restore the originals of the
    /// server `restore` (when one was active), and drop the target's
    /// cached state when it is stale.
    Download { restore: Option<String>, clear_cache: bool },
}

/// A patch plan with its text as a sequence.
pub enum PatchPlanView {
    UpToDate,
    FromCache { restore_previous: bool },
    Download { restore: Option<Seq<char>>, clear_cache: bool },
}

impl View for PatchPlan {
    type V = PatchPlanView;

    open spec fn view(&self) -> PatchPlanView {
        match self {
            PatchPlan::UpToDate => PatchPlanView::UpToDate,
            PatchPlan::FromCache { restore_previous } => PatchPlanView::FromCache {
                restore_previous: *restore_previous,
            },
            PatchPlan::Download { restore, clear_cache } => PatchPlanView::Download {
                restore: match restore {
                    Some(r) => Some(r@),
                    None => None,
                },
                clear_cache: *clear_cache,
            },
        }
    }
}

/// The plan for patching to `target`, given the server whose files are in
/// place (`prev`, trimmed; empty for none), the ETag cached for the target
/// and the one the patch server sent (trimmed): the same server with a
/// matching ETag is up to date; another server with a matching ETag, a
/// record and a complete cache comes from the cache; anything else is
/// downloaded after restoring the server in place, and a cached ETag that
/// differs makes the target's cache stale.
pub open spec fn patch_plan_spec(
    prev: Seq<char>,
    target: Seq<char>,
    local_etag: Seq<char>,
    target_etag: Seq<char>,
    target_has_manifest: bool,
    target_has_cache: bool,
) -> PatchPlanView {
    let same = prev == target;
    let matches = local_etag.len() > 0 && local_etag == target_etag;
    if same && matches {
        PatchPlanView::UpToDate
    } else if !same && matches && target_has_manifest && target_has_cache {
        PatchPlanView::FromCache { restore_previous: prev.len() > 0 }
    } else {
        PatchPlanView::Download {
            restore: if prev.len() > 0 {
                Some(prev)
            } else {
                None
            },
            clear_cache: local_etag.len() > 0 && local_etag != target_etag,
        }
    }
}

/// How a patch run is decided, by what is known of the target:
/// - it is up to date exactly when the target is the active server and its
///   cached ETag is not empty and is the one the patch server sent;
/// - it comes from the cache exactly when the target is another server
///   whose cached ETag matches and that has both a patch record and a
///   complete cache; so a target without a patch record, or without a
///   complete cache, that is not up to date is downloaded;
/// - a run from the cache restores the previous server's originals exactly
///   when a server was active;
/// - a download restores the active server, when there is one, and clears
///   the target's cache exactly when it holds an ETag other than the one
///   sent.
pub proof fn lemma_patch_plan_cases(
    prev: Seq<char>,
    target: Seq<char>,
    local_etag: Seq<char>,
    target_etag: Seq<char>,
    target_has_manifest: bool,
    target_has_cache: bool,
)
    ensures
        ({
            let p = patch_plan_spec(prev, target, local_etag, target_etag, target_has_manifest, target_has_cache);
            &&& (p is UpToDate <==> (prev == target && local_etag.len() > 0 && local_etag == target_etag))
            &&& (p is FromCache <==> (prev != target && local_etag.len() > 0 && local_etag == target_etag
                && target_has_manifest && target_has_cache))
            &&& (!target_has_manifest && !(prev == target && local_etag.len() > 0 && local_etag == target_etag)
                ==> p is Download)
            &&& (p matches PatchPlanView::FromCache { restore_previous } ==> restore_previous == (prev.len() > 0))
            &&& (p matches PatchPlanView::Download { restore, clear_cache } ==> restore == (if prev.len() > 0 {
                Some(prev)
            } else {
                None
            }) && clear_cache == (local_etag.len() > 0 && local_etag != target_etag))
        }),
{
}

/// Decides a patch run to `target`: `active_text` is the text of the file
/// naming the active server (if it could be read), `local_etag` the ETag
/// cached for the target (empty for none), `response_etag` the one the
/// patch server sent.
pub fn patch_plan(
    active_text: Option<&str>,
    target: &str,
    local_etag: &str,
    response_etag: &str,
    target_has_manifest: bool,
    target_has_cache: bool,
) -> (p: PatchPlan)
    ensures
        p@ == patch_plan_spec(
            match active_text {
                Some(t) => trim_spec(t@),
                None => Seq::empty(),
            },
            target@,
            local_etag@,
            trim_spec(response_etag@),
            target_has_manifest,
            target_has_cache,
        ),
        p is FromCache ==> target_has_manifest && target_has_cache,
        !target_has_manifest ==> !(p is FromCache),
        (p is UpToDate) <==> ((match active_text {
            Some(t) => trim_spec(t@),
            None => Seq::empty(),
        }) == target@ && local_etag@.len() > 0 && local_etag@ == trim_spec(response_etag@)),
{
    proof {
        lemma_patch_plan_cases(
            match active_text {
                Some(t) => trim_spec(t@),
                None => Seq::empty(),
            },
            target@,
            local_etag@,
            trim_spec(response_etag@),
            target_has_manifest,
            target_has_cache,
        );
    }
    let prev_chars: Vec<char> = match active_text {
        Some(t) => {
            let chars = str_chars(t);
            trim_chars(chars.as_slice())
        },
        None => Vec::new(),
    };
    let target_chars = str_chars(target);
    let local_chars = str_chars(local_etag);
    let response_chars = str_chars(response_etag);
    let etag_chars = trim_chars(response_chars.as_slice());
    let same = chars_eq(prev_chars.as_slice(), target_chars.as_slice());
    let matches = local_chars.len() > 0 && chars_eq(local_chars.as_slice(), etag_chars.as_slice());
    if same && matches {
        PatchPlan::UpToDate
    } else if !same && matches && target_has_manifest && target_has_cache {
        PatchPlan::FromCache { restore_previous: prev_chars.len() > 0 }
    } else {
        let restore = if prev_chars.len() > 0 {
            Some(string_from_chars(prev_chars.as_slice()))
        } else {
            None
        };
        let clear_cache = local_chars.len() > 0 && !chars_eq(local_chars.as_slice(), etag_chars.as_slice());
        PatchPlan::Download { restore, clear_cache }
    }
}

} // verus!
