//! The launcher's HTTP API: the shapes of its replies, how errors reach the
//! front end, and the addresses and manifests of the patch servers.
use vstd::prelude::*;

use crate::endpoint::{get_url_spec, Endpoint};
use crate::text::{
    decimal, decimal_string, find_char, first_index, parse_uint_spec, parse_usize, ascii_lower_seq, chars_end_with, chars_start_with, ends_with, lower_chars, slice_chars,
    split_chars, split_spec, starts_with, str_chars, string_from_chars, trim_chars, trim_spec,
};

use std::collections::hash_map::DefaultHasher;
use std::hash::Hasher;
use vstd::std_specs::hash::DefaultHasherAdditionalSpecFns;
use vstd::utf8::encode_utf8;

verus! {

/// Why a request to the launcher API failed.
#[derive(Debug)]
pub enum Error {
    Cancellation,
    Server(u16, String),
    Backend(String),
}

impl Error {
    /// The message the front end shows: nothing for a cancelled request,
    /// else the message the error carries.
    pub fn into_frontend(self) -> (s: String)
        ensures
            match self {
                Error::Cancellation => s@ == Seq::<char>::empty(),
                Error::Server(_, msg) => s@ == msg@,
                Error::Backend(msg) => s@ == msg@,
            },
    {
        match self {
            Error::Cancellation => String::new(),
            Error::Server(_, msg) => msg,
            Error::Backend(msg) => msg,
        }
    }
}

/// A banner on the launcher's front page.
#[derive(Debug, Clone)]
pub struct BannerData {
    pub src: String,
    pub link: String,
}

/// Whether a message is marked as new.
#[derive(Debug, Clone, Copy, PartialEq, Eq, Structural)]
pub enum MessageKind {
    Default,
    New,
}

/// A message on the launcher's front page.
#[derive(Debug, Clone)]
pub struct MessageData {
    pub message: String,
    pub date: i32,
    pub link: String,
    pub kind: MessageKind,
}

/// A link on the launcher's front page.
#[derive(Debug, Clone)]
pub struct LinkData {
    pub name: String,
    pub link: String,
    pub icon: String,
}

/// Header images of the PS4-style launcher.
#[derive(Debug, Clone)]
pub struct LauncherPs4Headers {
    pub online: Option<String>,
    pub forward: Option<String>,
    pub g: Option<String>,
    pub z: Option<String>,
    pub zz: Option<String>,
}

/// Images of the PS4-style launcher.
#[derive(Debug, Clone)]
pub struct LauncherPs4Assets {
    pub background: Option<String>,
    pub button: Option<String>,
    pub add_server_button: Option<String>,
    pub capcom: Option<String>,
    pub cog: Option<String>,
    pub emblem: Option<String>,
    pub headers: Option<LauncherPs4Headers>,
}

/// Header images of the classic launcher.
#[derive(Debug, Clone)]
pub struct LauncherHeaders {
    pub online: Option<String>,
    pub forward: Option<String>,
    pub g: Option<String>,
    pub z: Option<String>,
    pub zz: Option<String>,
}

/// The launcher page a server offers.
#[derive(Debug, Clone, Default)]
pub struct LauncherResponse {
    pub banners: Vec<BannerData>,
    pub messages: Vec<MessageData>,
    pub links: Vec<LinkData>,
    pub launcher_tag: Option<String>,
    pub footer_tag: Option<String>,
    pub tag: Option<String>,
    pub server_tag: Option<String>,
    pub background: Option<String>,
    pub cog: Option<String>,
    pub capcom: Option<String>,
    pub button: Option<String>,
    pub classic_add_server_button: Option<String>,
    pub headers: Option<LauncherHeaders>,
    pub dialog: Option<String>,
    pub server_patch: Option<String>,
    pub ps4: Option<LauncherPs4Assets>,
}

/// The account part of a login reply.
#[derive(Debug, Clone)]
pub struct UserData {
    pub token_id: u32,
    pub token: String,
    pub rights: u32,
}

/// A character as the API lists it.
#[derive(Debug, Clone)]
pub struct CharacterData {
    pub id: u32,
    pub name: String,
    pub is_female: bool,
    pub weapon: u32,
    pub hr: u32,
    pub gr: u32,
    pub last_login: u32,
    pub returning: bool,
}

/// The MezFes event as the API reports it.
#[derive(Debug, Clone)]
pub struct MezFesData {
    pub id: u32,
    pub start: u32,
    pub end: u32,
    pub solo_tickets: u32,
    pub group_tickets: u32,
    pub stalls: Vec<u32>,
}

/// A friend as the API lists it.
#[derive(Debug, Clone)]
pub struct FriendData {
    pub cid: u32,
    pub id: u32,
    pub name: String,
}

/// A subscription course.
#[derive(Debug, Clone)]
pub struct CourseData {
    pub id: u16,
    pub name: String,
}

/// The body of a login or registration request.
#[derive(Debug)]
pub struct AuthRequest<'a> {
    pub username: &'a str,
    pub password: &'a str,
}

/// The reply to a login or registration.
#[derive(Debug, Clone)]
pub struct AuthResponse {
    pub current_ts: u32,
    pub expiry_ts: u32,
    pub entrance_count: u32,
    pub notices: Vec<String>,
    pub user: UserData,
    pub characters: Vec<CharacterData>,
    pub mez_fez: Option<MezFesData>,
    pub friends: Vec<FriendData>,
    pub courses: Vec<CourseData>,
    pub patch_server: String,
    pub patch_file_server: String,
    pub alt_savedata_enabled: bool,
}

/// A reply without content.
#[derive(Debug, Clone)]
pub struct EmptyResponse {}

/// What a patch server's check reports.
#[derive(Debug, Clone)]
pub struct PatcherResponse {
    pub etag: String,
    pub content: String,
    pub server_name: String,
    pub queue_position: usize,
    pub download_url: String,
}

/// The message shown for a network failure.
pub open spec fn network_error() -> Seq<char> {
    "launcher-network-error"@
}

/// The front-end message for an API error code, for the codes it knows.
pub open spec fn frontend_code_spec(code: Seq<char>) -> Option<Seq<char>> {
    if code == "invalid_username"@ {
        Some("username-error"@)
    } else if code == "invalid_password"@ {
        Some("password-error"@)
    } else if code == "username_exists"@ {
        Some("username-exists-error"@)
    } else {
        None
    }
}

/// Maps an API error code to its front-end message.
pub fn map_api_error_code_to_frontend(code: &str) -> (r: Option<&'static str>)
    ensures
        match r {
            Some(m) => frontend_code_spec(code@) == Some(m@),
            None => frontend_code_spec(code@) is None,
        },
{
    if crate::text::str_eq(code, "invalid_username") {
        Some("username-error")
    } else if crate::text::str_eq(code, "invalid_password") {
        Some("password-error")
    } else if crate::text::str_eq(code, "username_exists") {
        Some("username-exists-error")
    } else {
        None
    }
}

/// The message of an API error body with the fields `error` and `message`:
/// the front-end message of a known error code, else the message when it
/// is not blank, else the error code when it is not blank.
pub open spec fn api_error_message_spec(error: Seq<char>, message: Seq<char>) -> Option<Seq<char>> {
    match frontend_code_spec(trim_spec(error)) {
        Some(m) => Some(m),
        None => if trim_spec(message).len() != 0 {
            Some(message)
        } else if trim_spec(error).len() != 0 {
            Some(error)
        } else {
            None
        },
    }
}

/// The message of an API error body whose `error` and `message` fields have been read.
pub fn api_error_message(error: &str, message: &str) -> (r: Option<String>)
    ensures
        match r {
            Some(m) => api_error_message_spec(error@, message@) == Some(m@),
            None => api_error_message_spec(error@, message@) is None,
        },
{
    let error_chars = str_chars(error);
    let error_trimmed = trim_chars(error_chars.as_slice());
    let error_text = string_from_chars(error_trimmed.as_slice());
    if let Some(mapped) = map_api_error_code_to_frontend(error_text.as_str()) {
        return Some(mapped.to_string());
    }
    let message_chars = str_chars(message);
    if trim_chars(message_chars.as_slice()).len() != 0 {
        return Some(message.to_string());
    }
    if error_trimmed.len() != 0 {
        return Some(error.to_string());
    }
    None
}

/// The message of a failed request: plain-text bodies are shown as they
/// are (a blank one as a network error); for JSON bodies, and for bodies of
/// other types that still parse as an API error, the API error's message;
/// anything else is a network error.  `parsed` is the API error's message
/// when the body parses as one.
pub open spec fn failure_message_spec(
    content_type: Seq<char>,
    body: Seq<char>,
    parsed: Option<Seq<char>>,
) -> Seq<char> {
    let ct = ascii_lower_seq(content_type);
    if starts_with(ct, "text/plain"@) {
        if trim_spec(body).len() == 0 {
            network_error()
        } else {
            body
        }
    } else {
        match parsed {
            Some(m) => m,
            None => network_error(),
        }
    }
}

/// Chooses the message for a failed request from its content type, its body
/// and the API error message parsed from the body, if any.
pub fn failure_message(content_type: &str, body: String, parsed: Option<String>) -> (m: String)
    ensures
        m@ == failure_message_spec(
            content_type@,
            body@,
            match parsed {
                Some(p) => Some(p@),
                None => None,
            },
        ),
{
    let ct = lower_chars(str_chars(content_type).as_slice());
    let plain = str_chars("text/plain");
    if chars_start_with(ct.as_slice(), plain.as_slice()) {
        let body_chars = str_chars(body.as_str());
        if trim_chars(body_chars.as_slice()).len() == 0 {
            "launcher-network-error".to_string()
        } else {
            body
        }
    } else {
        match parsed {
            Some(p) => p,
            None => "launcher-network-error".to_string(),
        }
    }
}

/// `s` without trailing '/' characters.
pub open spec fn trim_end_slashes(s: Seq<char>) -> Seq<char>
    decreases s.len(),
{
    if s.len() > 0 && s.last() == '/' {
        trim_end_slashes(s.drop_last())
    } else {
        s
    }
}

/// `s` without leading '/' characters.
pub open spec fn trim_start_slashes(s: Seq<char>) -> Seq<char>
    decreases s.len(),
{
    if s.len() > 0 && s[0] == '/' {
        trim_start_slashes(s.drop_first())
    } else {
        s
    }
}

/// `chars` without trailing '/' characters.
pub fn trim_end_slash_chars(chars: &[char]) -> (r: Vec<char>)
    ensures
        r@ == trim_end_slashes(chars@),
{
    let mut end = chars.len();
    assert(chars@.take(end as int) =~= chars@);
    while end > 0 && chars[end - 1] == '/'
        invariant
            end <= chars@.len(),
            trim_end_slashes(chars@) == trim_end_slashes(chars@.take(end as int)),
        decreases end,
    {
        proof {
            assert(chars@.take(end as int).drop_last() =~= chars@.take(end - 1));
        }
        end = end - 1;
    }
    let r = take_chars(chars, end);
    r
}

/// `chars` without leading '/' characters.
pub fn trim_start_slash_chars(chars: &[char]) -> (r: Vec<char>)
    ensures
        r@ == trim_start_slashes(chars@),
{
    let mut start: usize = 0;
    assert(chars@.skip(0) =~= chars@);
    while start < chars.len() && chars[start] == '/'
        invariant
            start <= chars@.len(),
            trim_start_slashes(chars@) == trim_start_slashes(chars@.skip(start as int)),
        decreases chars@.len() - start,
    {
        proof {
            assert(chars@.skip(start as int).drop_first() =~= chars@.skip(start + 1));
        }
        start = start + 1;
    }
    let mut out: Vec<char> = Vec::new();
    let mut i = start;
    while i < chars.len()
        invariant
            start <= i <= chars@.len(),
            out@ =~= chars@.subrange(start as int, i as int),
        decreases chars@.len() - i,
    {
        out.push(chars[i]);
        i = i + 1;
    }
    assert(chars@.skip(start as int) =~= chars@.subrange(start as int, chars@.len() as int));
    out
}

/// The first `n` characters of `chars`.
pub fn take_chars(chars: &[char], n: usize) -> (r: Vec<char>)
    requires
        n <= chars@.len(),
    ensures
        r@ == chars@.take(n as int),
{
    let mut out: Vec<char> = Vec::new();
    let mut i: usize = 0;
    while i < n
        invariant
            n <= chars@.len(),
            i <= n,
            out@ =~= chars@.take(i as int),
        decreases n - i,
    {
        out.push(chars[i]);
        i = i + 1;
    }
    out
}

/// The base address of a patch server given its check address: trimmed,
/// without trailing slashes, and without a final "/check" (in any case).
pub open spec fn normalize_patcher_base_url_spec(url: Seq<char>) -> Seq<char> {
    let trimmed = trim_end_slashes(trim_spec(url));
    if trimmed.len() == 0 {
        Seq::empty()
    } else if ends_with(ascii_lower_seq(trimmed), "/check"@) {
        trim_end_slashes(trimmed.take(trimmed.len() - 6))
    } else {
        trimmed
    }
}

/// Normalises a patch server address to the base that files are fetched from.
pub fn normalize_patcher_base_url(url: &str) -> (r: String)
    ensures
        r@ == normalize_patcher_base_url_spec(url@),
{
    let chars = str_chars(url);
    let t = trim_chars(chars.as_slice());
    let trimmed = trim_end_slash_chars(t.as_slice());
    if trimmed.len() == 0 {
        return String::new();
    }
    let lower = lower_chars(trimmed.as_slice());
    let check = str_chars("/check");
    proof {
        reveal_strlit("/check");
    }
    if chars_end_with(lower.as_slice(), check.as_slice()) {
        let head = take_chars(trimmed.as_slice(), trimmed.len() - 6);
        let r = trim_end_slash_chars(head.as_slice());
        return string_from_chars(r.as_slice());
    }
    string_from_chars(trimmed.as_slice())
}

/// The address a patch check is sent to: the normalised base with "/check",
/// or, when the base is empty, the trimmed address with "/check".
pub open spec fn patcher_check_url_spec(url: Seq<char>) -> Seq<char> {
    let normalized = normalize_patcher_base_url_spec(url);
    if normalized.len() == 0 {
        trim_end_slashes(trim_spec(url)) + "/check"@
    } else {
        normalized + "/check"@
    }
}

/// The address a patch check for the server at `url` is sent to.
pub fn patcher_check_url(url: &str) -> (r: String)
    ensures
        r@ == patcher_check_url_spec(url@),
{
    let normalized = normalize_patcher_base_url(url);
    if normalized.as_str().unicode_len() == 0 {
        let chars = str_chars(url);
        let t = trim_chars(chars.as_slice());
        let base = trim_end_slash_chars(t.as_slice());
        let mut s = string_from_chars(base.as_slice());
        s.append("/check");
        s
    } else {
        let mut s = normalized;
        s.append("/check");
        s
    }
}


/// The message of a patch server that cannot be reached or read.
pub open spec fn patcher_network_error() -> Seq<char> {
    "patcher-network-error"@
}

/// Whether `e` is a back-end error with the message `msg`.
pub open spec fn is_backend_error(e: Error, msg: Seq<char>) -> bool {
    match e {
        Error::Backend(m) => m@ == msg,
        _ => false,
    }
}

/// Whether `c` is an ASCII hexadecimal digit.
pub open spec fn is_hex_digit(c: char) -> bool {
    ('0' <= c && c <= '9') || ('a' <= c && c <= 'f') || ('A' <= c && c <= 'F')
}

/// Whether `s` is a checksum of a native manifest: eight hexadecimal digits.
pub open spec fn valid_checksum(s: Seq<char>) -> bool {
    s.len() == 8 && forall|i: int| 0 <= i < 8 ==> is_hex_digit(#[trigger] s[i])
}

/// `s` with every backslash turned into a slash.
pub open spec fn forward_slashes(s: Seq<char>) -> Seq<char> {
    s.map_values(|c: char| if c == '\\' { '/' } else { c })
}

/// `s` without `prefix` when it starts with it, else `s`.
pub open spec fn strip_prefix_spec(s: Seq<char>, prefix: Seq<char>) -> Seq<char> {
    if starts_with(s, prefix) {
        s.skip(prefix.len() as int)
    } else {
        s
    }
}

/// The entry that a non-blank, trimmed line of a native manifest becomes:
/// its first and fourth comma-separated fields (of at least six) give the
/// checksum and the source path; the target is the source without a leading
/// "exe/" directory.  `None` when the line is malformed.
pub open spec fn native_entry_spec(line: Seq<char>) -> Option<Seq<char>> {
    let fields = split_spec(line, ',');
    if fields.len() < 6 {
        None
    } else {
        let checksum = trim_spec(fields[0]);
        let source0 = trim_start_slashes(forward_slashes(trim_spec(fields[3])));
        let source = strip_prefix_spec(source0, "mhfdat/"@);
        let target = strip_prefix_spec(source, "exe/"@);
        if !valid_checksum(checksum) || source.len() == 0 || target.len() == 0 {
            None
        } else {
            Some(checksum + seq!['\t'] + target + seq!['\t'] + source + seq!['\n'])
        }
    }
}

/// The entries of the lines `lines` of a native manifest, blank lines skipped;
/// `None` when a line is malformed.
pub open spec fn native_lines_spec(lines: Seq<Seq<char>>) -> Option<Seq<char>>
    decreases lines.len(),
{
    if lines.len() == 0 {
        Some(Seq::empty())
    } else {
        let line = trim_spec(lines[0]);
        let rest = native_lines_spec(lines.drop_first());
        if line.len() == 0 {
            rest
        } else {
            match native_entry_spec(line) {
                None => None,
                Some(e) => match rest {
                    None => None,
                    Some(r) => Some(e + r),
                },
            }
        }
    }
}

/// What a native manifest becomes in the patch list format: one line
/// "checksum TAB target TAB source" per entry.
pub open spec fn native_manifest_spec(content: Seq<char>) -> Option<Seq<char>> {
    native_lines_spec(split_spec(content, '\n'))
}

/// `prefix` followed by the text of `rest`, when there is one.
pub open spec fn prefixed(prefix: Seq<char>, rest: Option<Seq<char>>) -> Option<Seq<char>> {
    match rest {
        Some(r) => Some(prefix + r),
        None => None,
    }
}

/// Appends `src` to `out`.
pub fn push_chars(out: &mut Vec<char>, src: &[char])
    ensures
        final(out)@ == old(out)@ + src@,
{
    let mut i: usize = 0;
    while i < src.len()
        invariant
            i <= src@.len(),
            out@ =~= old(out)@ + src@.take(i as int),
        decreases src@.len() - i,
    {
        out.push(src[i]);
        i = i + 1;
    }
    assert(src@.take(src@.len() as int) =~= src@);
}

/// `chars` without `prefix` when it starts with it.
pub fn strip_prefix_chars(chars: &[char], prefix: &[char]) -> (r: Vec<char>)
    ensures
        r@ == strip_prefix_spec(chars@, prefix@),
{
    if chars_start_with(chars, prefix) {
        let r = slice_chars(chars, prefix.len(), chars.len());
        assert(r@ =~= chars@.skip(prefix@.len() as int));
        r
    } else {
        slice_chars(chars, 0, chars.len())
    }
}

/// `chars` with every backslash turned into a slash.
pub fn forward_slash_chars(chars: &[char]) -> (r: Vec<char>)
    ensures
        r@ == forward_slashes(chars@),
{
    let mut out: Vec<char> = Vec::new();
    let mut i: usize = 0;
    while i < chars.len()
        invariant
            i <= chars@.len(),
            out@ =~= forward_slashes(chars@.take(i as int)),
        decreases chars@.len() - i,
    {
        let c = chars[i];
        out.push(if c == '\\' { '/' } else { c });
        i = i + 1;
        assert(forward_slashes(chars@.take(i as int)) =~= forward_slashes(
            chars@.take(i - 1),
        ).push(if c == '\\' { '/' } else { c }));
    }
    assert(chars@.take(chars@.len() as int) =~= chars@);
    out
}

/// Whether `chars` is a valid checksum.
pub fn is_valid_checksum(chars: &[char]) -> (b: bool)
    ensures
        b == valid_checksum(chars@),
{
    if chars.len() != 8 {
        return false;
    }
    let mut i: usize = 0;
    while i < 8
        invariant
            chars@.len() == 8,
            i <= 8,
            forall|j: int| 0 <= j < i ==> is_hex_digit(#[trigger] chars@[j]),
        decreases 8 - i,
    {
        let c = chars[i];
        if !(('0' <= c && c <= '9') || ('a' <= c && c <= 'f') || ('A' <= c && c <= 'F')) {
            assert(!is_hex_digit(chars@[i as int]));
            return false;
        }
        i = i + 1;
    }
    true
}

/// The entry of one non-blank, trimmed line of a native manifest.
pub fn native_entry(line: &[char]) -> (r: Option<Vec<char>>)
    ensures
        match r {
            Some(e) => native_entry_spec(line@) == Some(e@),
            None => native_entry_spec(line@) is None,
        },
{
    let fields = split_chars(line, ',');
    if fields.len() < 6 {
        return None;
    }
    let checksum = trim_chars(fields[0].as_slice());
    if !is_valid_checksum(checksum.as_slice()) {
        return None;
    }
    let f3 = trim_chars(fields[3].as_slice());
    let fwd = forward_slash_chars(f3.as_slice());
    let source0 = trim_start_slash_chars(fwd.as_slice());
    let mhfdat = str_chars("mhfdat/");
    let source = strip_prefix_chars(source0.as_slice(), mhfdat.as_slice());
    let exe = str_chars("exe/");
    let target = strip_prefix_chars(source.as_slice(), exe.as_slice());
    if source.len() == 0 || target.len() == 0 {
        return None;
    }
    let mut out: Vec<char> = Vec::new();
    push_chars(&mut out, checksum.as_slice());
    out.push('\t');
    push_chars(&mut out, target.as_slice());
    out.push('\t');
    push_chars(&mut out, source.as_slice());
    out.push('\n');
    assert(out@ =~= checksum@ + seq!['\t'] + target@ + seq!['\t'] + source@ + seq!['\n']);
    Some(out)
}

/// Turns a native manifest (comma-separated lines) into the patch list
/// format; a malformed line makes the whole manifest fail.
pub fn normalize_native_patch_manifest(content: &str) -> (r: Result<String, Error>)
    ensures
        match r {
            Ok(s) => native_manifest_spec(content@) == Some(s@),
            Err(e) => native_manifest_spec(content@) is None && is_backend_error(
                e,
                patcher_network_error(),
            ),
        },
{
    let chars = str_chars(content);
    let lines = split_chars(chars.as_slice(), '\n');
    let ghost ls = split_spec(chars@, '\n');
    let mut out: Vec<char> = Vec::new();
    let mut k: usize = 0;
    assert(ls.skip(0) =~= ls);
    proof {
        if let Some(r) = native_lines_spec(ls) {
            assert(Seq::<char>::empty() + r =~= r);
        }
    }
    while k < lines.len()
        invariant
            k <= lines@.len(),
            ls == split_spec(content@, '\n'),
            lines@.len() == ls.len(),
            forall|j: int| 0 <= j < ls.len() ==> #[trigger] lines@[j]@ == ls[j],
            native_lines_spec(ls) == prefixed(out@, native_lines_spec(ls.skip(k as int))),
        decreases lines@.len() - k,
    {
        let line = trim_chars(lines[k].as_slice());
        let ghost rest = ls.skip(k as int);
        assert(rest[0] == ls[k as int]);
        assert(rest.drop_first() =~= ls.skip(k + 1));
        if line.len() != 0 {
            match native_entry(line.as_slice()) {
                None => {
                    assert(native_lines_spec(rest) is None);
                    assert(native_lines_spec(ls) is None);
                    return Err(Error::Backend("patcher-network-error".to_string()));
                },
                Some(e) => {
                    let ghost before = out@;
                    push_chars(&mut out, e.as_slice());
                    proof {
                        match native_lines_spec(ls.skip(k + 1)) {
                            Some(r) => {
                                assert(before + (e@ + r) =~= out@ + r);
                            },
                            None => {},
                        }
                    }
                },
            }
        }
        k = k + 1;
    }
    assert(ls.skip(k as int) =~= Seq::<Seq<char>>::empty());
    assert(out@ + Seq::<char>::empty() =~= out@);
    Ok(string_from_chars(out.as_slice()))
}


/// The address a native manifest is fetched from: the trimmed address, with a
/// "key" query parameter added unless one is there already, or unless the
/// address (without a query) names a ".txt" or ".dat" file.
pub open spec fn native_manifest_url_spec(url: Seq<char>) -> Seq<char> {
    let m = trim_spec(url);
    let q = first_index(m, '?');
    if q < m.len() {
        let keys = split_spec(m.skip(q + (1 as int)), '&');
        if exists|k: int| 0 <= k < keys.len() && starts_with(#[trigger] keys[k], "key"@) {
            m
        } else {
            m + "&key"@
        }
    } else if ends_with(ascii_lower_seq(m), ".txt"@) || ends_with(ascii_lower_seq(m), ".dat"@) {
        m
    } else {
        m + "?key"@
    }
}

/// The address a native manifest at `manifest_url` is fetched from.
pub fn native_manifest_url(manifest_url: &str) -> (r: String)
    ensures
        r@ == native_manifest_url_spec(manifest_url@),
{
    let all = str_chars(manifest_url);
    let m = trim_chars(all.as_slice());
    let q = find_char(m.as_slice(), 0, '?');
    assert(m@.skip(0) =~= m@);
    if q < m.len() {
        let query = slice_chars(m.as_slice(), q + 1, m.len());
        assert(query@ =~= m@.skip(q + 1));
        let keys = split_chars(query.as_slice(), '&');
        let key = str_chars("key");
        let mut k: usize = 0;
        let mut found = false;
        while k < keys.len()
            invariant
                k <= keys@.len(),
                keys@.len() == split_spec(query@, '&').len(),
                forall|j: int| 0 <= j < keys@.len() ==> #[trigger] keys@[j]@ == split_spec(query@, '&')[j],
                key@ == "key"@,
                found == exists|j: int| 0 <= j < k && starts_with(#[trigger] split_spec(query@, '&')[j], "key"@),
            decreases keys@.len() - k,
        {
            if chars_start_with(keys[k].as_slice(), key.as_slice()) {
                found = true;
            }
            k = k + 1;
        }
        if found {
            string_from_chars(m.as_slice())
        } else {
            let mut r = string_from_chars(m.as_slice());
            r.append("&key");
            r
        }
    } else {
        let lower = lower_chars(m.as_slice());
        let txt = str_chars(".txt");
        let dat = str_chars(".dat");
        if chars_end_with(lower.as_slice(), txt.as_slice()) || chars_end_with(
            lower.as_slice(),
            dat.as_slice(),
        ) {
            string_from_chars(m.as_slice())
        } else {
            let mut r = string_from_chars(m.as_slice());
            r.append("?key");
            r
        }
    }
}

/// The HTTP method of an API request.
#[derive(Debug, Clone, Copy, PartialEq, Eq, Structural)]
pub enum HttpMethod {
    Get,
    Post,
    Delete,
}

/// A request to a server's API whose reply is JSON, as plain values: the
/// method, the address, the bearer token and the sign-in body (user name
/// and password), where there are any.  The reply's type is chosen when it
/// is sent.
#[derive(Debug)]
pub struct JsonRequest {
    pub method: HttpMethod,
    pub url: String,
    pub bearer: Option<String>,
    pub credentials: Option<(String, String)>,
}

/// The decimal text of a signed number, with a leading '-' when negative.
pub open spec fn signed_decimal(n: int) -> Seq<char> {
    if n < 0 {
        "-"@ + crate::text::decimal((-n) as nat)
    } else {
        crate::text::decimal(n as nat)
    }
}

/// The decimal text of `n`.
fn i32_text(n: i32) -> (s: String)
    ensures
        s@ == signed_decimal(n as int),
{
    if n < 0 {
        let magnitude: i64 = -(n as i64);
        let mut s = "-".to_string();
        let digits = crate::text::decimal_string(magnitude as u128);
        s.append(digits.as_str());
        s
    } else {
        crate::text::decimal_string(n as u128)
    }
}

/// A plain GET of `url`.
pub fn simple_request(url: &str) -> (r: JsonRequest)
    ensures
        r.method == HttpMethod::Get,
        r.url@ == url@,
        r.bearer is None,
        r.credentials is None,
{
    JsonRequest { method: HttpMethod::Get, url: url.to_string(), bearer: None, credentials: None }
}

/// The request for the launcher page of `endpoint`.
pub fn launcher_request(endpoint: &Endpoint) -> (r: JsonRequest)
    ensures
        r.method == HttpMethod::Get,
        r.url@ == get_url_spec(endpoint@, "/v2/launcher"@),
        r.bearer is None,
        r.credentials is None,
{
    JsonRequest { method: HttpMethod::Get, url: endpoint.get_url("/v2/launcher"), bearer: None, credentials: None }
}

/// The sign-in request for `username` at `endpoint`.
pub fn login_request(endpoint: &Endpoint, username: &str, password: &str) -> (r: JsonRequest)
    ensures
        r.method == HttpMethod::Post,
        r.url@ == get_url_spec(endpoint@, "/v2/login"@),
        r.bearer is None,
        r.credentials matches Some(c) && c.0@ == username@ && c.1@ == password@,
{
    JsonRequest {
        method: HttpMethod::Post,
        url: endpoint.get_url("/v2/login"),
        bearer: None,
        credentials: Some((username.to_string(), password.to_string())),
    }
}

/// The registration request for `username` at `endpoint`.
pub fn register_request(endpoint: &Endpoint, username: &str, password: &str) -> (r: JsonRequest)
    ensures
        r.method == HttpMethod::Post,
        r.url@ == get_url_spec(endpoint@, "/v2/register"@),
        r.bearer is None,
        r.credentials matches Some(c) && c.0@ == username@ && c.1@ == password@,
{
    JsonRequest {
        method: HttpMethod::Post,
        url: endpoint.get_url("/v2/register"),
        bearer: None,
        credentials: Some((username.to_string(), password.to_string())),
    }
}

/// The request that deletes the character `character_id` of the session
/// `token`.
pub fn delete_character_request(endpoint: &Endpoint, token: &str, character_id: i32) -> (r: JsonRequest)
    ensures
        r.method == HttpMethod::Delete,
        r.url@ == get_url_spec(endpoint@, "/v2/characters/"@ + signed_decimal(character_id as int)),
        r.bearer matches Some(b) && b@ == token@,
        r.credentials is None,
{
    let mut path = "/v2/characters/".to_string();
    let id = i32_text(character_id);
    path.append(id.as_str());
    JsonRequest {
        method: HttpMethod::Delete,
        url: endpoint.get_url(path.as_str()),
        bearer: Some(token.to_string()),
        credentials: None,
    }
}

/// The request that creates a character for the session `token`.
pub fn create_character_request(endpoint: &Endpoint, token: &str) -> (r: JsonRequest)
    ensures
        r.method == HttpMethod::Post,
        r.url@ == get_url_spec(endpoint@, "/v2/characters"@),
        r.bearer matches Some(b) && b@ == token@,
        r.credentials is None,
{
    JsonRequest {
        method: HttpMethod::Post,
        url: endpoint.get_url("/v2/characters"),
        bearer: Some(token.to_string()),
        credentials: None,
    }
}

/// The request that exports the save data of the character
/// `character_id` of the session `token`.
pub fn export_save_request(endpoint: &Endpoint, token: &str, character_id: i32) -> (r: JsonRequest)
    ensures
        r.method == HttpMethod::Get,
        r.url@ == get_url_spec(endpoint@, "/v2/characters/"@ + signed_decimal(character_id as int) + "/export"@),
        r.bearer matches Some(b) && b@ == token@,
        r.credentials is None,
{
    let mut path = "/v2/characters/".to_string();
    let id = i32_text(character_id);
    path.append(id.as_str());
    path.append("/export");
    JsonRequest {
        method: HttpMethod::Get,
        url: endpoint.get_url(path.as_str()),
        bearer: Some(token.to_string()),
        credentials: None,
    }
}

/// A request to a patch server, as plain values: where the check goes, the
/// entity tag of the files in place, the base address files are fetched from,
/// and whether the reply is a native manifest.
#[derive(Debug)]
pub struct PatcherRequest {
    pub url: String,
    pub client_etag: String,
    pub download_url: String,
    pub native_manifest: bool,
}

impl PatcherRequest {
    /// Whether the request carries an `If-None-Match` header.
    pub open spec fn sends_etag(&self) -> bool {
        self.client_etag@.len() != 0
    }

    /// Whether the request carries an `If-None-Match` header.
    pub fn has_client_etag(&self) -> (b: bool)
        ensures
            b == self.sends_etag(),
    {
        self.client_etag.as_str().unicode_len() != 0
    }
}

/// The request for the patch list of the server at `url`.
pub fn patcher_request(url: &str, client_etag: &str) -> (r: PatcherRequest)
    ensures
        r.url@ == patcher_check_url_spec(url@),
        r.client_etag@ == client_etag@,
        r.download_url@ == normalize_patcher_base_url_spec(url@),
        !r.native_manifest,
{
    PatcherRequest {
        url: patcher_check_url(url),
        client_etag: client_etag.to_string(),
        download_url: normalize_patcher_base_url(url),
        native_manifest: false,
    }
}

/// The request for the native manifest at `manifest_url`, whose files are
/// fetched from `file_url`.
pub fn native_patcher_request(manifest_url: &str, file_url: &str, client_etag: &str) -> (r:
    PatcherRequest)
    ensures
        r.url@ == native_manifest_url_spec(manifest_url@),
        r.client_etag@ == client_etag@,
        r.download_url@ == trim_end_slashes(trim_spec(file_url@)),
        r.native_manifest,
{
    let f = str_chars(file_url);
    let t = trim_chars(f.as_slice());
    let d = trim_end_slash_chars(t.as_slice());
    PatcherRequest {
        url: native_manifest_url(manifest_url),
        client_etag: client_etag.to_string(),
        download_url: string_from_chars(d.as_slice()),
        native_manifest: true,
    }
}

/// The name a patch server goes by: its host, with the port when there is
/// one; empty without a host.
pub open spec fn server_name_spec(host: Seq<char>, port: Option<u16>) -> Seq<char> {
    if host.len() == 0 {
        Seq::empty()
    } else {
        match port {
            Some(p) => host + seq![':'] + decimal(p as nat),
            None => host,
        }
    }
}

/// The name of the patch server at `host` and `port`.
pub fn server_name(host: &str, port: Option<u16>) -> (r: String)
    ensures
        r@ == server_name_spec(host@, port),
{
    if host.unicode_len() == 0 {
        return String::new();
    }
    match port {
        Some(p) => {
            let mut r = host.to_string();
            r.append(":");
            let digits = decimal_string(p as u128);
            r.append(digits.as_str());
            proof {
                reveal_strlit(":");
            }
            r
        },
        None => host.to_string(),
    }
}

/// The queue position a patch server announces in a header: the header's
/// number, or 0 when it is missing or not a number.
pub open spec fn queue_position_spec(header: Option<Seq<char>>) -> int {
    match header {
        Some(h) => match parse_uint_spec(h, usize::MAX as int) {
            Some(v) => v,
            None => 0,
        },
        None => 0,
    }
}

/// Reads the queue position from the value of its header.
pub fn queue_position(header: Option<&str>) -> (n: usize)
    ensures
        n == queue_position_spec(
            match header {
                Some(h) => Some(h@),
                None => None,
            },
        ),
{
    match header {
        Some(h) => match parse_usize(h) {
            Some(v) => v,
            None => 0,
        },
        None => 0,
    }
}

/// The number the standard library's `DefaultHasher` gives for `content`
/// hashed as a `str`: its UTF-8 bytes, then the byte 0xFF.
pub open spec fn content_hash_spec(content: Seq<char>) -> u64 {
    DefaultHasher::spec_finish(seq![encode_utf8(content), seq![0xffu8]])
}

/// Hashes `content` as `Hash` does for a `str` with a fresh `DefaultHasher`:
/// its bytes, then the byte 0xFF that ends a string.
fn default_hash(content: &str) -> (h: u64)
    ensures
        h == content_hash_spec(content@),
{
    let mut hasher = DefaultHasher::new();
    let bytes = content.as_bytes();
    hasher.write(bytes);
    let end: Vec<u8> = vec![0xffu8];
    hasher.write(end.as_slice());
    assert(end@ =~= seq![0xffu8]);
    assert(hasher@ =~~= seq![encode_utf8(content@), seq![0xffu8]]);
    hasher.finish()
}

/// An entity tag derived from a number: its hexadecimal digits between
/// double quotes.
pub open spec fn derived_etag(h: u64) -> Seq<char> {
    seq!['"'] + crate::text::hex(h as nat) + seq!['"']
}

/// The entity tag derived from a patch list that came without one: the
/// hexadecimal hash of the list between double quotes.
fn fallback_patcher_etag(content: &str) -> (r: String)
    ensures
        r@ == derived_etag(content_hash_spec(content@)),
{
    let h = default_hash(content);
    let digits = crate::text::hex_string(h);
    let mut r = "\"".to_string();
    r.append(digits.as_str());
    r.append("\"");
    proof {
        reveal_strlit("\"");
        assert(r@ == derived_etag(h));
    }
    r
}

/// Whether a reply with entity tag `etag` leaves the files in place as
/// they are: the request named a tag and it is the same.
pub open spec fn unchanged(client_etag: Seq<char>, etag: Seq<char>) -> bool {
    client_etag.len() != 0 && client_etag == etag
}

impl PatcherRequest {
    /// What a reply to this request comes to, given its status, its `ETag`
    /// header, its queue position, the name of the server that answered and
    /// its body: nothing for "304 Not Modified" or an unchanged entity tag; a
    /// back-end error for a native manifest that does not parse; else the
    /// patch list.  Without an `ETag` header, the tag is derived from the
    /// list: the hexadecimal `DefaultHasher` hash of it, between double quotes.
    pub fn settle(
        self,
        status: u16,
        etag_header: Option<String>,
        queue_position: usize,
        server_name: String,
        raw_content: String,
    ) -> (r: Result<Option<PatcherResponse>, Error>)
        ensures
            status == 304 ==> r == Ok::<Option<PatcherResponse>, Error>(None),
            status != 304 && self.native_manifest ==> (native_manifest_spec(raw_content@) is None
                <==> r is Err),
            r is Err ==> is_backend_error(r->Err_0, patcher_network_error()),
            match r {
                Ok(Some(resp)) => {
                    &&& status != 304
                    &&& resp.content@ == (if self.native_manifest {
                        native_manifest_spec(raw_content@).unwrap()
                    } else {
                        raw_content@
                    })
                    &&& (etag_header matches Some(t) ==> resp.etag@ == t@)
                    &&& (etag_header is None ==> resp.etag@ == derived_etag(content_hash_spec(resp.content@)))
                    &&& !unchanged(self.client_etag@, resp.etag@)
                    &&& resp.server_name@ == server_name@
                    &&& resp.queue_position == queue_position
                    &&& resp.download_url@ == self.download_url@
                },
                _ => true,
            },
            status != 304 && (!self.native_manifest || native_manifest_spec(raw_content@) is Some)
                ==> (etag_header matches Some(t) ==> (r is Ok && (r->Ok_0 is None <==> unchanged(
                self.client_etag@,
                t@,
            )))),
            status != 304 && (!self.native_manifest || native_manifest_spec(raw_content@) is Some)
                && etag_header is None ==> (r is Ok && (r->Ok_0 is None <==> unchanged(
                self.client_etag@,
                derived_etag(
                    content_hash_spec(
                        if self.native_manifest {
                            native_manifest_spec(raw_content@).unwrap()
                        } else {
                            raw_content@
                        },
                    ),
                ),
            ))),
    {
        if status == 304 {
            return Ok(None);
        }
        let content = if self.native_manifest {
            match normalize_native_patch_manifest(raw_content.as_str()) {
                Ok(c) => c,
                Err(e) => {
                    return Err(e);
                },
            }
        } else {
            raw_content
        };
        let etag = match etag_header {
            Some(t) => t,
            None => fallback_patcher_etag(content.as_str()),
        };
        if self.has_client_etag() && crate::text::str_eq(self.client_etag.as_str(), etag.as_str()) {
            return Ok(None);
        }
        Ok(
            Some(
                PatcherResponse {
                    etag,
                    content,
                    server_name,
                    queue_position,
                    download_url: self.download_url,
                },
            ),
        )
    }
}

} // verus!
