//! The launcher's own preferences and the values it normalises: window
//! styles and sizes, recent resolutions, Wine prefix modes, version
//! signatures, cache paths and the payloads sent to the front end.
use vstd::prelude::*;

use crate::endpoint::{server_key_spec, Endpoint, EndpointView};
use crate::server::{AuthResponse, CharacterData};
use crate::user::{stored_username_spec, UserManager};
use crate::version::{label_spec, version_to_label, MhfVersion};
use crate::text::{
    is_digit, is_unicode_whitespace, lemma_decimal_digits, lemma_first_index,
    lemma_parse_decimal, lemma_trim_idempotent, lemma_trim_plain, ascii_lower_seq, decimal, decimal_string, eq_ignore_ascii_case, find_char, first_index,
    lower_chars, parse_uint_spec, parse_usize, slice_chars, str_chars, str_eq, string_from_chars,
    trim_chars, trim_spec,
};
use vstd::utf8::encode_utf8;

verus! {

/// The classic launcher style.
pub const CLASSIC_STYLE: u32 = 1;

/// The PS4-like launcher style.
pub const PS4_STYLE: u32 = 3;

/// Default width of the classic launcher window.
pub const CLASSIC_DEFAULT_WINDOW_WIDTH: u32 = 1124;

/// Default height of the classic launcher window.
pub const CLASSIC_DEFAULT_WINDOW_HEIGHT: u32 = 600;

/// Default width of the PS4-like launcher window.
pub const PS4_DEFAULT_WINDOW_WIDTH: u32 = 1280;

/// Default height of the PS4-like launcher window.
pub const PS4_DEFAULT_WINDOW_HEIGHT: u32 = 720;

/// The size of the launcher window.
#[derive(Debug, Clone, Copy, PartialEq, Eq, Structural)]
pub struct LauncherWindowSize {
    pub width: u32,
    pub height: u32,
}

/// Whether the window of launcher style `style` can be resized: the classic
/// and the PS4-like styles can.
pub fn launcher_style_is_resizable(style: u32) -> (b: bool)
    ensures
        b == (style == CLASSIC_STYLE || style == PS4_STYLE),
{
    style == CLASSIC_STYLE || style == PS4_STYLE
}

/// The style `style` stands for: the PS4-like style, or else the classic one.
pub open spec fn normalize_style_spec(style: u32) -> u32 {
    if style == PS4_STYLE {
        PS4_STYLE
    } else {
        CLASSIC_STYLE
    }
}

/// The style `style` stands for.
pub fn normalize_launcher_style(style: u32) -> (s: u32)
    ensures
        s == normalize_style_spec(style),
{
    if style == PS4_STYLE {
        PS4_STYLE
    } else {
        CLASSIC_STYLE
    }
}

/// The default window size of the style `style` stands for.
pub open spec fn default_size_spec(style: u32) -> LauncherWindowSize {
    if normalize_style_spec(style) == PS4_STYLE {
        LauncherWindowSize { width: PS4_DEFAULT_WINDOW_WIDTH, height: PS4_DEFAULT_WINDOW_HEIGHT }
    } else {
        LauncherWindowSize {
            width: CLASSIC_DEFAULT_WINDOW_WIDTH,
            height: CLASSIC_DEFAULT_WINDOW_HEIGHT,
        }
    }
}

/// The default window size of a launcher style.
pub fn default_launcher_window_size(style: u32) -> (s: LauncherWindowSize)
    ensures
        s == default_size_spec(style),
{
    if normalize_launcher_style(style) == PS4_STYLE {
        LauncherWindowSize { width: PS4_DEFAULT_WINDOW_WIDTH, height: PS4_DEFAULT_WINDOW_HEIGHT }
    } else {
        LauncherWindowSize {
            width: CLASSIC_DEFAULT_WINDOW_WIDTH,
            height: CLASSIC_DEFAULT_WINDOW_HEIGHT,
        }
    }
}

/// A stored window dimension: unset (0) gives the fallback; anything else
/// is held between 320 and 8192.
pub open spec fn dimension_spec(value: u32, fallback: u32) -> u32 {
    if value == 0 {
        fallback
    } else if value < 320 {
        320
    } else if value > 8192 {
        8192
    } else {
        value
    }
}

/// A stored window dimension, or the fallback when unset.
pub fn normalize_launcher_window_dimension(value: u32, fallback: u32) -> (r: u32)
    ensures
        r == dimension_spec(value, fallback),
{
    if value == 0 {
        fallback
    } else if value < 320 {
        320
    } else if value > 8192 {
        8192
    } else {
        value
    }
}

/// The launcher's interface preferences.
#[derive(Debug)]
pub struct UiPrefs {
    pub sfx_enabled: bool,
    pub sfx_volume: u8,
    pub font_preset: String,
    pub classic_launcher_width: u32,
    pub classic_launcher_height: u32,
    pub classic_launcher_custom_resolution: bool,
    pub classic_launcher_recent_resolutions: Vec<String>,
    pub ps4_launcher_width: u32,
    pub ps4_launcher_height: u32,
    pub ps4_launcher_custom_resolution: bool,
    pub ps4_launcher_recent_resolutions: Vec<String>,
    pub game_version: MhfVersion,
    pub force_game_version: bool,
    pub dev_mode: bool,
    pub server_version_prompt_disabled: bool,
    pub launcher_controller: bool,
    pub linux_hardware_acceleration: bool,
    pub offline_images: bool,
}

impl Default for UiPrefs {
    fn default() -> (p: Self)
        ensures
            !p.sfx_enabled,
            p.sfx_volume == 30,
            p.font_preset@ == "default"@,
            p.classic_launcher_width == CLASSIC_DEFAULT_WINDOW_WIDTH,
            p.classic_launcher_height == CLASSIC_DEFAULT_WINDOW_HEIGHT,
            !p.classic_launcher_custom_resolution,
            p.classic_launcher_recent_resolutions@.len() == 0,
            p.ps4_launcher_width == PS4_DEFAULT_WINDOW_WIDTH,
            p.ps4_launcher_height == PS4_DEFAULT_WINDOW_HEIGHT,
            !p.ps4_launcher_custom_resolution,
            p.ps4_launcher_recent_resolutions@.len() == 0,
            p.game_version == MhfVersion::ZZ,
            !p.force_game_version,
            !p.dev_mode,
            !p.server_version_prompt_disabled,
            p.launcher_controller,
            p.linux_hardware_acceleration,
            !p.offline_images,
    {
        UiPrefs {
            sfx_enabled: false,
            sfx_volume: 30,
            font_preset: "default".to_string(),
            classic_launcher_width: CLASSIC_DEFAULT_WINDOW_WIDTH,
            classic_launcher_height: CLASSIC_DEFAULT_WINDOW_HEIGHT,
            classic_launcher_custom_resolution: false,
            classic_launcher_recent_resolutions: Vec::new(),
            ps4_launcher_width: PS4_DEFAULT_WINDOW_WIDTH,
            ps4_launcher_height: PS4_DEFAULT_WINDOW_HEIGHT,
            ps4_launcher_custom_resolution: false,
            ps4_launcher_recent_resolutions: Vec::new(),
            game_version: MhfVersion::ZZ,
            force_game_version: false,
            dev_mode: false,
            server_version_prompt_disabled: false,
            launcher_controller: true,
            linux_hardware_acceleration: true,
            offline_images: false,
        }
    }
}

impl UiPrefs {
    /// The window size stored for launcher style `style`: the stored
    /// dimensions of the classic or PS4-like window, each normalised; the
    /// default size for any other style.
    pub open spec fn window_size_spec(&self, style: u32) -> LauncherWindowSize {
        if style == CLASSIC_STYLE {
            LauncherWindowSize {
                width: dimension_spec(self.classic_launcher_width, CLASSIC_DEFAULT_WINDOW_WIDTH),
                height: dimension_spec(self.classic_launcher_height, CLASSIC_DEFAULT_WINDOW_HEIGHT),
            }
        } else if style == PS4_STYLE {
            LauncherWindowSize {
                width: dimension_spec(self.ps4_launcher_width, PS4_DEFAULT_WINDOW_WIDTH),
                height: dimension_spec(self.ps4_launcher_height, PS4_DEFAULT_WINDOW_HEIGHT),
            }
        } else {
            default_size_spec(style)
        }
    }

    /// The window size stored for launcher style `style`.
    pub fn launcher_window_size_for_style(&self, style: u32) -> (s: LauncherWindowSize)
        ensures
            s == self.window_size_spec(style),
    {
        if style == CLASSIC_STYLE {
            LauncherWindowSize {
                width: normalize_launcher_window_dimension(
                    self.classic_launcher_width,
                    CLASSIC_DEFAULT_WINDOW_WIDTH,
                ),
                height: normalize_launcher_window_dimension(
                    self.classic_launcher_height,
                    CLASSIC_DEFAULT_WINDOW_HEIGHT,
                ),
            }
        } else if style == PS4_STYLE {
            LauncherWindowSize {
                width: normalize_launcher_window_dimension(
                    self.ps4_launcher_width,
                    PS4_DEFAULT_WINDOW_WIDTH,
                ),
                height: normalize_launcher_window_dimension(
                    self.ps4_launcher_height,
                    PS4_DEFAULT_WINDOW_HEIGHT,
                ),
            }
        } else {
            default_launcher_window_size(style)
        }
    }
}

/// A resolution as text: "WIDTHxHEIGHT".
pub open spec fn resolution_text(width: nat, height: nat) -> Seq<char> {
    decimal(width) + seq!['x'] + decimal(height)
}

/// A resolution as text.
pub fn format_resolution_value(width: u32, height: u32) -> (s: String)
    ensures
        s@ == resolution_text(width as nat, height as nat),
{
    let mut s = decimal_string(width as u128);
    s.append("x");
    let h = decimal_string(height as u128);
    s.append(h.as_str());
    proof {
        reveal_strlit("x");
    }
    s
}

/// What a stored resolution normalises to: its width and height around the
/// first 'x', each trimmed and a whole number up to 2^32 - 1, neither 0.
pub open spec fn resolution_entry_spec(value: Seq<char>) -> Option<Seq<char>> {
    let t = trim_spec(value);
    let x = first_index(t, 'x');
    if x >= t.len() {
        None
    } else {
        let w = parse_uint_spec(trim_spec(t.take(x as int)), u32::MAX as int);
        let h = parse_uint_spec(trim_spec(t.skip(x + (1 as int))), u32::MAX as int);
        if w is None || h is None || w.unwrap() == 0 || h.unwrap() == 0 {
            None
        } else {
            Some(resolution_text(w.unwrap() as nat, h.unwrap() as nat))
        }
    }
}

/// Parses `s` as a `u32` the way `str::parse::<u32>` does.
fn parse_u32(s: &str) -> (r: Option<u32>)
    ensures
        match r {
            Some(n) => parse_uint_spec(s@, u32::MAX as int) == Some(n as int),
            None => parse_uint_spec(s@, u32::MAX as int) is None,
        },
{
    match parse_usize(s) {
        Some(n) => if n <= 0xffff_ffff {
            Some(n as u32)
        } else {
            None
        },
        None => None,
    }
}

/// Normalises a stored resolution, if it is one.
pub fn normalize_recent_resolution_entry(value: &str) -> (r: Option<String>)
    ensures
        match r {
            Some(s) => resolution_entry_spec(value@) == Some(s@),
            None => resolution_entry_spec(value@) is None,
        },
{
    let chars = str_chars(value);
    let t = trim_chars(chars.as_slice());
    let x = find_char(t.as_slice(), 0, 'x');
    assert(t@.skip(0) =~= t@);
    if x == t.len() {
        return None;
    }
    let left = slice_chars(t.as_slice(), 0, x);
    let right = slice_chars(t.as_slice(), x + 1, t.len());
    assert(right@ =~= t@.skip(x + 1));
    let wt = trim_chars(left.as_slice());
    let ht = trim_chars(right.as_slice());
    let w_text = string_from_chars(wt.as_slice());
    let h_text = string_from_chars(ht.as_slice());
    let w = match parse_u32(w_text.as_str()) {
        Some(w) => w,
        None => {
            return None;
        },
    };
    let h = match parse_u32(h_text.as_str()) {
        Some(h) => h,
        None => {
            return None;
        },
    };
    if w == 0 || h == 0 {
        return None;
    }
    Some(format_resolution_value(w, h))
}

/// The recent resolutions kept from `values` after those already in `acc`:
/// each normalised, unreadable ones and repeats skipped, at most five in all.
pub open spec fn recent_resolutions_from(values: Seq<Seq<char>>, acc: Seq<Seq<char>>) -> Seq<
    Seq<char>,
>
    decreases values.len(),
{
    if values.len() == 0 || acc.len() >= 5 {
        acc
    } else {
        match resolution_entry_spec(values[0]) {
            None => recent_resolutions_from(values.drop_first(), acc),
            Some(e) => if acc.contains(e) {
                recent_resolutions_from(values.drop_first(), acc)
            } else {
                recent_resolutions_from(values.drop_first(), acc.push(e))
            },
        }
    }
}

/// The texts of a list of strings.
pub open spec fn texts(v: Seq<String>) -> Seq<Seq<char>> {
    v.map_values(|s: String| s@)
}

/// Whether `e` is in `list`.
fn has_text(list: &Vec<String>, e: &String) -> (b: bool)
    ensures
        b == texts(list@).contains(e@),
{
    let mut i: usize = 0;
    while i < list.len()
        invariant
            i <= list@.len(),
            forall|j: int| 0 <= j < i ==> list@[j]@ != e@,
        decreases list@.len() - i,
    {
        if str_eq(list[i].as_str(), e.as_str()) {
            assert(texts(list@)[i as int] == e@);
            return true;
        }
        i = i + 1;
    }
    assert forall|j: int| 0 <= j < texts(list@).len() implies texts(list@)[j] != e@ by {
        assert(texts(list@)[j] == list@[j]@);
    }
    false
}

/// The recent resolutions worth keeping: normalised, unreadable ones and
/// repeats dropped, the first five.
pub fn normalize_recent_resolution_list(values: &[String]) -> (r: Vec<String>)
    ensures
        texts(r@) == recent_resolutions_from(texts(values@), Seq::empty()),
{
    let ghost vs = texts(values@);
    let mut out: Vec<String> = Vec::new();
    let mut i: usize = 0;
    assert(vs.skip(0) =~= vs);
    assert(texts(out@) =~= Seq::<Seq<char>>::empty());
    while i < values.len() && out.len() < 5
        invariant
            vs == texts(values@),
            i <= values@.len(),
            recent_resolutions_from(vs, Seq::empty()) == recent_resolutions_from(
                vs.skip(i as int),
                texts(out@),
            ),
        decreases values@.len() - i,
    {
        assert(vs.skip(i as int)[0] == values@[i as int]@);
        assert(vs.skip(i as int).drop_first() =~= vs.skip(i + 1));
        match normalize_recent_resolution_entry(values[i].as_str()) {
            Some(e) => {
                if !has_text(&out, &e) {
                    let ghost before = out@;
                    out.push(e);
                    assert(texts(out@) =~= texts(before).push(out@[out@.len() - 1]@));
                }
            },
            None => {},
        }
        i = i + 1;
    }
    proof {
        if i == values@.len() {
            assert(vs.skip(i as int) =~= Seq::<Seq<char>>::empty());
        }
    }
    out
}

/// A Wine prefix mode: "system", "custom" or "proton" in any case and with
/// surrounding whitespace; anything else is "portable".
pub open spec fn wine_prefix_mode_spec(value: Seq<char>) -> Seq<char> {
    let m = ascii_lower_seq(trim_spec(value));
    if m == "system"@ {
        "system"@
    } else if m == "custom"@ {
        "custom"@
    } else if m == "proton"@ {
        "proton"@
    } else {
        "portable"@
    }
}

/// The Wine prefix mode of a new installation.
pub fn default_wine_prefix_mode() -> (s: String)
    ensures
        s@ == "portable"@,
{
    "portable".to_string()
}

/// Normalises a Wine prefix mode.
pub fn normalize_wine_prefix_mode(value: &str) -> (s: String)
    ensures
        s@ == wine_prefix_mode_spec(value@),
{
    let chars = str_chars(value);
    let t = trim_chars(chars.as_slice());
    let lower = lower_chars(t.as_slice());
    let m = string_from_chars(lower.as_slice());
    if str_eq(m.as_str(), "system") {
        "system".to_string()
    } else if str_eq(m.as_str(), "custom") {
        "custom".to_string()
    } else if str_eq(m.as_str(), "proton") {
        "proton".to_string()
    } else {
        "portable".to_string()
    }
}

/// A custom Wine prefix path: trimmed, and none when blank.
pub fn normalize_wine_prefix_custom_path(value: Option<&str>) -> (r: Option<String>)
    ensures
        match value {
            None => r is None,
            Some(v) => if trim_spec(v@).len() == 0 {
                r is None
            } else {
                r matches Some(s) && s@ == trim_spec(v@)
            },
        },
{
    match value {
        None => None,
        Some(v) => {
            let chars = str_chars(v);
            let t = trim_chars(chars.as_slice());
            if t.len() == 0 {
                None
            } else {
                Some(string_from_chars(t.as_slice()))
            }
        },
    }
}

/// The version signature of a new installation: none.
pub fn default_friend_signature() -> (s: String)
    ensures
        s@ == "none"@,
{
    "none".to_string()
}

/// A stored version signature: blank, "none", "detect" and "detect-beta"
/// (in any case) all mean none; anything else is kept, trimmed.
pub open spec fn friend_signature_spec(value: Seq<char>) -> Seq<char> {
    let t = trim_spec(value);
    let l = ascii_lower_seq(t);
    if t.len() == 0 || l == "none"@ || l == "detect"@ || l == "detect-beta"@ {
        "none"@
    } else {
        t
    }
}

/// Normalises a stored version signature.
pub fn normalize_friend_signature(value: &str) -> (s: String)
    ensures
        s@ == friend_signature_spec(value@),
{
    let chars = str_chars(value);
    let t = trim_chars(chars.as_slice());
    let none = str_chars("none");
    let detect = str_chars("detect");
    let detect_beta = str_chars("detect-beta");
    let l = lower_chars(t.as_slice());
    proof {
        reveal_strlit("none");
        reveal_strlit("detect");
        reveal_strlit("detect-beta");
        assert(ascii_lower_seq("none"@) =~= "none"@);
        assert(ascii_lower_seq("detect"@) =~= "detect"@);
        assert(ascii_lower_seq("detect-beta"@) =~= "detect-beta"@);
    }
    if t.len() == 0 || eq_ignore_ascii_case(t.as_slice(), none.as_slice()) || eq_ignore_ascii_case(
        t.as_slice(),
        detect.as_slice(),
    ) || eq_ignore_ascii_case(t.as_slice(), detect_beta.as_slice()) {
        "none".to_string()
    } else {
        string_from_chars(t.as_slice())
    }
}

/// The game version whose mutex the client is started with.
pub fn map_game_version_to_mutex_version(version: MhfVersion) -> (v: MhfVersion)
    ensures
        v == version,
{
    version
}

/// Whether `c` is a control character (`char::is_control`: U+0000 to
/// U+001F and U+007F to U+009F).
pub open spec fn is_control_char(c: char) -> bool {
    (c as u32) <= 0x1f || (0x7f <= (c as u32) && (c as u32) <= 0x9f)
}

/// Whether `c` cannot stand in a file name on some system.
pub open spec fn is_unsafe_path_char(c: char) -> bool {
    c == '\\' || c == '/' || c == ':' || c == '*' || c == '?' || c == '"' || c == '<' || c == '>'
        || c == '|' || is_control_char(c)
}

/// `s` without trailing spaces and dots.
pub open spec fn trim_end_spaces_dots(s: Seq<char>) -> Seq<char>
    decreases s.len(),
{
    if s.len() > 0 && (s.last() == ' ' || s.last() == '.') {
        trim_end_spaces_dots(s.drop_last())
    } else {
        s
    }
}

/// The names Windows reserves for devices.
pub open spec fn reserved_device_names() -> Seq<Seq<char>> {
    seq![
        "CON"@, "PRN"@, "AUX"@, "NUL"@, "COM1"@, "COM2"@, "COM3"@, "COM4"@, "COM5"@, "COM6"@,
        "COM7"@, "COM8"@, "COM9"@, "LPT1"@, "LPT2"@, "LPT3"@, "LPT4"@, "LPT5"@, "LPT6"@, "LPT7"@,
        "LPT8"@, "LPT9"@,
    ]
}

/// The ASCII upper-case form of `c`.
pub open spec fn ascii_upper(c: char) -> char {
    if 'a' <= c && c <= 'z' {
        ((c as u32) - 32) as char
    } else {
        c
    }
}

/// A name made safe as a directory name: trimmed, unsafe characters turned
/// into '_', trailing spaces and dots dropped, the fallback when nothing is
/// left, and a '_' in front of a device name Windows reserves.
pub open spec fn cache_segment_spec(value: Seq<char>, fallback: Seq<char>) -> Seq<char> {
    let mapped = trim_spec(value).map_values(
        |c: char|
            if is_unsafe_path_char(c) {
                '_'
            } else {
                c
            },
    );
    let cut = trim_end_spaces_dots(mapped);
    let named = if cut.len() == 0 {
        fallback
    } else {
        cut
    };
    if reserved_device_names().contains(named.map_values(|c: char| ascii_upper(c))) {
        seq!['_'] + named
    } else {
        named
    }
}

/// Whether `c` cannot stand in a file name.
fn unsafe_path_char(c: char) -> (b: bool)
    ensures
        b == is_unsafe_path_char(c),
{
    c == '\\' || c == '/' || c == ':' || c == '*' || c == '?' || c == '"' || c == '<' || c == '>'
        || c == '|' || (c as u32) <= 0x1f || (0x7f <= (c as u32) && (c as u32) <= 0x9f)
}

/// Whether `upper` is a device name Windows reserves.
fn is_reserved_device_name(upper: &str) -> (b: bool)
    ensures
        b == reserved_device_names().contains(upper@),
{
    let names: [&str; 22] = [
        "CON", "PRN", "AUX", "NUL", "COM1", "COM2", "COM3", "COM4", "COM5", "COM6", "COM7", "COM8",
        "COM9", "LPT1", "LPT2", "LPT3", "LPT4", "LPT5", "LPT6", "LPT7", "LPT8", "LPT9",
    ];
    let ghost table = reserved_device_names();
    assert(names@.map_values(|s: &str| s@) =~= table);
    let mut i: usize = 0;
    while i < 22
        invariant
            i <= 22,
            table == reserved_device_names(),
            names@.map_values(|s: &str| s@) == table,
            forall|j: int| 0 <= j < i ==> table[j] != upper@,
        decreases 22 - i,
    {
        assert(table[i as int] == names@[i as int]@);
        if str_eq(names[i], upper) {
            assert(table[i as int] == upper@);
            return true;
        }
        i = i + 1;
    }
    false
}

/// Makes `value` safe as a directory name, with `fallback` for a name that
/// comes out empty.
pub fn sanitize_cache_path_segment(value: &str, fallback: &str) -> (s: String)
    ensures
        s@ == cache_segment_spec(value@, fallback@),
{
    let chars = str_chars(value);
    let t = trim_chars(chars.as_slice());
    let mut mapped: Vec<char> = Vec::new();
    let mut i: usize = 0;
    while i < t.len()
        invariant
            i <= t@.len(),
            mapped@ =~= t@.take(i as int).map_values(
                |c: char|
                    if is_unsafe_path_char(c) {
                        '_'
                    } else {
                        c
                    },
            ),
        decreases t@.len() - i,
    {
        let c = t[i];
        mapped.push(if unsafe_path_char(c) { '_' } else { c });
        i = i + 1;
    }
    assert(t@.take(t@.len() as int) =~= t@);
    let mut n = mapped.len();
    assert(mapped@.take(n as int) =~= mapped@);
    while n > 0 && (mapped[n - 1] == ' ' || mapped[n - 1] == '.')
        invariant
            n <= mapped@.len(),
            trim_end_spaces_dots(mapped@) == trim_end_spaces_dots(mapped@.take(n as int)),
        decreases n,
    {
        assert(mapped@.take(n as int).drop_last() =~= mapped@.take(n - 1));
        n = n - 1;
    }
    let cut = slice_chars(mapped.as_slice(), 0, n);
    assert(cut@ =~= mapped@.take(n as int));
    let named = if cut.len() == 0 {
        fallback.to_string()
    } else {
        string_from_chars(cut.as_slice())
    };
    let named_chars = str_chars(named.as_str());
    let mut upper: Vec<char> = Vec::new();
    let mut j: usize = 0;
    while j < named_chars.len()
        invariant
            j <= named_chars@.len(),
            upper@ =~= named_chars@.take(j as int).map_values(|c: char| ascii_upper(c)),
        decreases named_chars@.len() - j,
    {
        let c = named_chars[j];
        upper.push(if 'a' <= c && c <= 'z' { ((c as u32) - 32) as u8 as char } else { c });
        j = j + 1;
    }
    assert(named_chars@.take(named_chars@.len() as int) =~= named_chars@);
    let upper_text = string_from_chars(upper.as_slice());
    if is_reserved_device_name(upper_text.as_str()) {
        let mut r = "_".to_string();
        r.append(named.as_str());
        proof {
            reveal_strlit("_");
        }
        r
    } else {
        named
    }
}

/// Who a character's cached save data belongs to.
#[derive(Debug, Clone)]
pub struct AltCharacterCacheIdentity {
    pub server_name: String,
    pub version_label: String,
    pub username: String,
    pub character_name: String,
}

/// The directory of a character's cached save data, relative to the game
/// folder: "Mezeporta/Servers/<server>/<version>/Users/<user>/<character>",
/// each part made safe.
pub open spec fn cache_dir_spec(identity: AltCharacterCacheIdentity) -> Seq<char> {
    "Mezeporta/Servers/"@ + cache_segment_spec(identity.server_name@, "UnknownServer"@) + "/"@
        + cache_segment_spec(identity.version_label@, "UnknownVersion"@) + "/Users/"@
        + cache_segment_spec(identity.username@, "UnknownUser"@) + "/"@ + cache_segment_spec(
        identity.character_name@,
        "UnknownCharacter"@,
    )
}

/// The directory of a character's cached save data, relative to the game
/// folder.
pub fn alt_character_user_cache_dir(identity: &AltCharacterCacheIdentity) -> (s: String)
    ensures
        s@ == cache_dir_spec(*identity),
{
    let mut s = "Mezeporta/Servers/".to_string();
    let a = sanitize_cache_path_segment(identity.server_name.as_str(), "UnknownServer");
    s.append(a.as_str());
    s.append("/");
    let b = sanitize_cache_path_segment(identity.version_label.as_str(), "UnknownVersion");
    s.append(b.as_str());
    s.append("/Users/");
    let c = sanitize_cache_path_segment(identity.username.as_str(), "UnknownUser");
    s.append(c.as_str());
    s.append("/");
    let d = sanitize_cache_path_segment(identity.character_name.as_str(), "UnknownCharacter");
    s.append(d.as_str());
    s
}

/// The file of a character's cached save data, relative to the game folder.
pub fn alt_character_cache_path(identity: &AltCharacterCacheIdentity) -> (s: String)
    ensures
        s@ == cache_dir_spec(*identity) + "/savedata"@,
{
    let mut s = alt_character_user_cache_dir(identity);
    s.append("/savedata");
    s
}

/// The file recording the game version of a character's cached save data,
/// relative to the game folder.
pub fn alt_character_version_path(identity: &AltCharacterCacheIdentity) -> (s: String)
    ensures
        s@ == cache_dir_spec(*identity) + "/GSV.json"@,
{
    let mut s = alt_character_user_cache_dir(identity);
    s.append("/GSV.json");
    s
}

/// A save data version token: trimmed, and none when blank.
pub fn normalize_savedata_version_token(value: Option<&str>) -> (r: Option<String>)
    ensures
        match value {
            None => r is None,
            Some(v) => if trim_spec(v@).len() == 0 {
                r is None
            } else {
                r matches Some(s) && s@ == trim_spec(v@)
            },
        },
{
    normalize_wine_prefix_custom_path(value)
}

/// The cache's version label for a save data version token: "Z2T" for
/// "Z2.2" in any case, else the trimmed token.
pub open spec fn cache_version_label_spec(token: Seq<char>) -> Seq<char> {
    if ascii_lower_seq(trim_spec(token)) == ascii_lower_seq("Z2.2"@) {
        "Z2T"@
    } else {
        trim_spec(token)
    }
}

/// The cache's version label for a save data version token.
pub fn savedata_token_to_cache_version_label(token: &str) -> (s: String)
    ensures
        s@ == cache_version_label_spec(token@),
{
    let chars = str_chars(token);
    let t = trim_chars(chars.as_slice());
    let z = str_chars("Z2.2");
    if eq_ignore_ascii_case(t.as_slice(), z.as_slice()) {
        "Z2T".to_string()
    } else {
        string_from_chars(t.as_slice())
    }
}

/// `identity` with its version label taken from the save data's version
/// token, when there is a non-blank one.
pub fn identity_with_savedata_version(identity: AltCharacterCacheIdentity, savedata_version: Option<&str>) -> (r:
    AltCharacterCacheIdentity)
    ensures
        r.server_name == identity.server_name,
        r.username == identity.username,
        r.character_name == identity.character_name,
        match savedata_version {
            Some(v) => if trim_spec(v@).len() == 0 {
                r.version_label == identity.version_label
            } else {
                r.version_label@ == cache_version_label_spec(trim_spec(v@))
            },
            None => r.version_label == identity.version_label,
        },
{
    let mut identity = identity;
    if let Some(token) = normalize_savedata_version_token(savedata_version) {
        identity.version_label = savedata_token_to_cache_version_label(token.as_str());
    }
    identity
}

/// The first character of `chars` with the id `id`.
pub open spec fn find_character_spec(chars: Seq<CharacterData>, id: u32) -> Option<CharacterData>
    decreases chars.len(),
{
    if chars.len() == 0 {
        None
    } else if chars[0].id == id {
        Some(chars[0])
    } else {
        find_character_spec(chars.drop_first(), id)
    }
}

/// `text` trimmed, or `fallback` when that leaves nothing.
pub open spec fn or_fallback(text: Seq<char>, fallback: Seq<char>) -> Seq<char> {
    if trim_spec(text).len() == 0 {
        fallback
    } else {
        trim_spec(text)
    }
}

/// Who the cached save data of the character `character_id` belongs to:
/// the server's key, the server's version label, the session's user name
/// (else the remembered one, else "User" and the token id) and the
/// character's name (else "Character" and its id).
pub open spec fn cache_identity_spec(
    auth: AuthResponse,
    character: CharacterData,
    session_username: Seq<char>,
    stored_username: Seq<char>,
    endpoint: EndpointView,
) -> AltCharacterCacheIdentityView {
    AltCharacterCacheIdentityView {
        server_name: if trim_spec(server_key_spec(endpoint)).len() == 0 {
            "UnknownServer"@
        } else {
            server_key_spec(endpoint)
        },
        version_label: label_spec(endpoint.version),
        username: or_fallback(
            session_username,
            or_fallback(stored_username, "User"@ + decimal(auth.user.token_id as nat)),
        ),
        character_name: or_fallback(character.name@, "Character"@ + decimal(character.id as nat)),
    }
}

/// A cache identity with its texts as sequences.
pub struct AltCharacterCacheIdentityView {
    pub server_name: Seq<char>,
    pub version_label: Seq<char>,
    pub username: Seq<char>,
    pub character_name: Seq<char>,
}

impl View for AltCharacterCacheIdentity {
    type V = AltCharacterCacheIdentityView;

    open spec fn view(&self) -> AltCharacterCacheIdentityView {
        AltCharacterCacheIdentityView {
            server_name: self.server_name@,
            version_label: self.version_label@,
            username: self.username@,
            character_name: self.character_name@,
        }
    }
}

/// `text` trimmed, or `fallback` when that leaves nothing.
fn trimmed_or(text: &str, fallback: String) -> (r: String)
    ensures
        r@ == or_fallback(text@, fallback@),
{
    let chars = str_chars(text);
    let t = trim_chars(chars.as_slice());
    if t.len() == 0 {
        fallback
    } else {
        string_from_chars(t.as_slice())
    }
}

/// Who the cached save data of the character `character_id` belongs to, for
/// the signed-in session `auth` on `endpoint`; "internal-error" when nobody
/// is signed in or the account has no such character.
pub fn resolve_alt_character_cache_identity(
    auth: Option<&AuthResponse>,
    session_username: &str,
    users: &UserManager,
    endpoint: &Endpoint,
    character_id: u32,
) -> (r: Result<AltCharacterCacheIdentity, String>)
    requires
        users.well_formed(),
    ensures
        auth is None ==> (r matches Err(e) && e@ == "internal-error"@),
        auth is Some ==> (find_character_spec(auth->0.characters@, character_id) is None <==> r is Err),
        r matches Err(e) ==> e@ == "internal-error"@,
        r matches Ok(id) ==> auth is Some && (find_character_spec(auth->0.characters@, character_id) matches Some(
            c,
        ) && id@ == cache_identity_spec(
            *auth->0,
            c,
            session_username@,
            stored_username_spec(*users, *endpoint),
            endpoint@,
        )),
{
    let signed_in = match auth {
        Some(a) => a,
        None => {
            return Err("internal-error".to_string());
        },
    };
    let mut i: usize = 0;
    let mut found: Option<usize> = None;
    assert(signed_in.characters@.subrange(0, signed_in.characters@.len() as int) =~= signed_in.characters@);
    while i < signed_in.characters.len()
        invariant_except_break
            found is None,
        invariant
            i <= signed_in.characters.len(),
            find_character_spec(signed_in.characters@, character_id) == find_character_spec(
                signed_in.characters@.subrange(i as int, signed_in.characters@.len() as int),
                character_id,
            ),
        ensures
            match found {
                Some(k) => k < signed_in.characters.len() && signed_in.characters@[k as int].id == character_id
                    && find_character_spec(signed_in.characters@, character_id) == Some(
                    signed_in.characters@[k as int],
                ),
                None => i == signed_in.characters.len() && find_character_spec(signed_in.characters@, character_id)
                    == find_character_spec(
                    signed_in.characters@.subrange(i as int, signed_in.characters@.len() as int),
                    character_id,
                ),
            },
        decreases signed_in.characters.len() - i,
    {
        let ghost rest = signed_in.characters@.subrange(i as int, signed_in.characters@.len() as int);
        assert(rest.drop_first() =~= signed_in.characters@.subrange(i + 1, signed_in.characters@.len() as int));
        if signed_in.characters[i].id == character_id {
            found = Some(i);
            break;
        }
        i = i + 1;
    }
    proof {
        if found is None {
            assert(signed_in.characters@.subrange(i as int, signed_in.characters@.len() as int) =~= Seq::<
                CharacterData,
            >::empty());
        }
    }
    let k = match found {
        Some(k) => k,
        None => {
            return Err("internal-error".to_string());
        },
    };
    let character = &signed_in.characters[k];
    let stored = users.get_user(endpoint);
    let mut user_fallback = "User".to_string();
    let token_text = decimal_string(signed_in.user.token_id as u128);
    user_fallback.append(token_text.as_str());
    let stored_name = trimmed_or(stored.username.as_str(), user_fallback);
    let username = trimmed_or(session_username, stored_name);
    let mut character_fallback = "Character".to_string();
    let id_text = decimal_string(character_id as u128);
    character_fallback.append(id_text.as_str());
    let character_name = trimmed_or(character.name.as_str(), character_fallback);
    let key = endpoint.server_key();
    let key_chars = str_chars(key.as_str());
    let key_trimmed = trim_chars(key_chars.as_slice());
    let server_name = if key_trimmed.len() == 0 {
        "UnknownServer".to_string()
    } else {
        key
    };
    let version_label = version_to_label(endpoint.version).to_string();
    Ok(AltCharacterCacheIdentity { server_name, version_label, username, character_name })
}

/// A message for the front end's log.
#[derive(Debug, Clone)]
pub struct LogPayload {
    pub level: String,
    pub message: String,
}

impl LogPayload {
    /// An error message.
    pub fn error(message: String) -> (p: Self)
        ensures
            p.level@ == "error"@,
            p.message == message,
    {
        LogPayload { level: "error".to_string(), message }
    }

    /// A warning.
    pub fn warning(message: String) -> (p: Self)
        ensures
            p.level@ == "warning"@,
            p.message == message,
    {
        LogPayload { level: "warning".to_string(), message }
    }
}

/// The server lists sent to the front end.
#[derive(Debug, Default)]
pub struct EndpointsPayload {
    pub endpoints: Option<Vec<Endpoint>>,
    pub remote_endpoints: Option<Vec<Endpoint>>,
}

/// A login reply sent to the front end, with whether a patch is due.
#[derive(Debug)]
pub struct AuthPayload {
    pub response: AuthResponse,
    pub has_patch: bool,
}

/// The text after the style's name in the notes placed in a folder of
/// offline image overrides.
pub const OFFLINE_IMAGES_README_BODY: &'static str = " Offline Image Overrides\n\nPlace replacement launcher images in this folder to override the bundled fallback assets.\nAccepted extensions: .png, .webp, .jpg, .jpeg\n\nSupported files:\n- header\n- background\n- cog\n- capcom\n- server-patch\n- dialogue\n\nExamples:\n- header.png\n- background.webp\n- server-patch.jpg\n\nOnly these launcher-side images are overridden here for now.\nServer-driven banners, messages, and unit cards still come from the server.\n";

/// The notes placed in a folder of offline image overrides for a style.
pub fn offline_images_readme(style_label: &str) -> (s: String)
    ensures
        s@ == "# "@ + style_label@ + OFFLINE_IMAGES_README_BODY@,
{
    let mut s = "# ".to_string();
    s.append(style_label);
    s.append(OFFLINE_IMAGES_README_BODY);
    s
}


/// What the standard base64 engine of the `base64` crate decodes `input`
/// to, or `None` when it refuses it.
pub uninterp spec fn base64_standard_decoded(input: Seq<u8>) -> Option<Seq<u8>>;

/// Wraps `base64::engine::general_purpose::STANDARD.decode`; the decoded
/// bytes are named, not stated.
#[verifier::external_body]
fn base64_decode(input: &[u8]) -> (r: Option<Vec<u8>>)
    ensures
        match r {
            Some(v) => base64_standard_decoded(input@) == Some(v@),
            None => base64_standard_decoded(input@) is None,
        },
{
    base64::Engine::decode(&base64::engine::general_purpose::STANDARD, input).ok()
}

/// The save data a server sends, as base64 text: the decoded bytes of the
/// trimmed text; `None` when it is blank or not valid base64.
pub open spec fn savedata_spec(encoded: Seq<char>) -> Option<Seq<u8>> {
    let t = trim_spec(encoded);
    if t.len() == 0 {
        None
    } else {
        base64_standard_decoded(encode_utf8(t))
    }
}

/// Decodes the save data a server sends; a blank or malformed payload is
/// an internal error.
pub fn decode_savedata(encoded: &str) -> (r: Result<Vec<u8>, String>)
    ensures
        match savedata_spec(encoded@) {
            Some(b) => r matches Ok(v) && v@ == b,
            None => r matches Err(m) && m@ == "internal-error"@,
        },
{
    let chars = str_chars(encoded);
    let t = trim_chars(chars.as_slice());
    if t.len() == 0 {
        return Err("internal-error".to_string());
    }
    let text = string_from_chars(t.as_slice());
    match base64_decode(text.as_str().as_bytes()) {
        Some(v) => Ok(v),
        None => Err("internal-error".to_string()),
    }
}


/// A normalised resolution normalises to itself.
pub proof fn lemma_resolution_entry_stable(width: u32, height: u32)
    requires
        width > 0,
        height > 0,
    ensures
        resolution_entry_spec(resolution_text(width as nat, height as nat)) == Some(
            resolution_text(width as nat, height as nat),
        ),
{
    let w = decimal(width as nat);
    let h = decimal(height as nat);
    let t = w + seq!['x'] + h;
    lemma_decimal_digits(width as nat);
    lemma_decimal_digits(height as nat);
    assert(t[0] == w[0]);
    assert(is_digit(w[0]));
    assert(t.last() == h[h.len() - 1]);
    assert(is_digit(h[h.len() - 1]));
    lemma_trim_plain(t);
    assert forall|j: int| 0 <= j < w.len() implies t[j] != 'x' by {
        assert(t[j] == w[j]);
        assert(is_digit(w[j]));
    }
    lemma_first_index(t, 'x', w.len() as int);
    assert(t.take(w.len() as int) =~= w);
    assert(t.skip(w.len() + (1 as int)) =~= h);
    assert(is_digit(h[0]));
    lemma_trim_plain(w);
    lemma_trim_plain(h);
    lemma_parse_decimal(width as nat, u32::MAX as int);
    lemma_parse_decimal(height as nat, u32::MAX as int);
}

/// The recent resolutions kept are at most five and never repeat.
pub proof fn lemma_recent_resolutions_bounded(values: Seq<Seq<char>>, acc: Seq<Seq<char>>)
    requires
        acc.len() <= 5,
        forall|i: int, j: int| 0 <= i < j < acc.len() ==> acc[i] != acc[j],
    ensures
        recent_resolutions_from(values, acc).len() <= 5,
        forall|i: int, j: int|
            0 <= i < j < recent_resolutions_from(values, acc).len() ==> recent_resolutions_from(
                values,
                acc,
            )[i] != recent_resolutions_from(values, acc)[j],
    decreases values.len(),
{
    if values.len() > 0 && acc.len() < 5 {
        match resolution_entry_spec(values[0]) {
            None => lemma_recent_resolutions_bounded(values.drop_first(), acc),
            Some(e) => if acc.contains(e) {
                lemma_recent_resolutions_bounded(values.drop_first(), acc)
            } else {
                let next = acc.push(e);
                assert forall|i: int, j: int| 0 <= i < j < next.len() implies next[i] != next[j] by {
                    if j == acc.len() {
                        assert(next[i] == acc[i]);
                        if acc[i] == e {
                            assert(acc.contains(e));
                        }
                    }
                }
                lemma_recent_resolutions_bounded(values.drop_first(), next)
            },
        }
    }
}

/// Whether a stored resolution is already in normal form.
pub open spec fn normal_resolution(e: Seq<char>) -> bool {
    resolution_entry_spec(e) == Some(e)
}

/// Every resolution kept is in normal form, when those already kept are.
proof fn lemma_recent_resolutions_normal(values: Seq<Seq<char>>, acc: Seq<Seq<char>>)
    requires
        forall|i: int| 0 <= i < acc.len() ==> normal_resolution(#[trigger] acc[i]),
    ensures
        forall|i: int|
            0 <= i < recent_resolutions_from(values, acc).len() ==> normal_resolution(
                #[trigger] recent_resolutions_from(values, acc)[i],
            ),
    decreases values.len(),
{
    let result = recent_resolutions_from(values, acc);
    if values.len() > 0 && acc.len() < 5 {
        match resolution_entry_spec(values[0]) {
            None => {
                lemma_recent_resolutions_normal(values.drop_first(), acc);
                assert(result == recent_resolutions_from(values.drop_first(), acc));
            },
            Some(e) => if acc.contains(e) {
                lemma_recent_resolutions_normal(values.drop_first(), acc);
                assert(result == recent_resolutions_from(values.drop_first(), acc));
            } else {
                let t = trim_spec(values[0]);
                let x = first_index(t, 'x');
                let w = parse_uint_spec(trim_spec(t.take(x as int)), u32::MAX as int).unwrap();
                let h = parse_uint_spec(trim_spec(t.skip(x + (1 as int))), u32::MAX as int).unwrap();
                lemma_parse_bounded(trim_spec(t.take(x as int)));
                lemma_parse_bounded(trim_spec(t.skip(x + (1 as int))));
                assert(0 < w <= u32::MAX && 0 < h <= u32::MAX);
                assert(e == resolution_text(w as nat, h as nat));
                lemma_resolution_entry_stable(w as u32, h as u32);
                assert(normal_resolution(e));
                let next = acc.push(e);
                assert forall|i: int| 0 <= i < next.len() implies normal_resolution(#[trigger] next[i]) by {
                    if i < acc.len() {
                        assert(next[i] == acc[i]);
                    }
                }
                lemma_recent_resolutions_normal(values.drop_first(), next);
                assert(result == recent_resolutions_from(values.drop_first(), next));
            },
        }
    } else {
        assert(result == acc);
    }
}

/// A number read with a limit is within the limit and not negative.
proof fn lemma_parse_bounded(s: Seq<char>)
    ensures
        parse_uint_spec(s, u32::MAX as int) matches Some(n) ==> 0 <= n <= u32::MAX,
{
    let d = crate::text::unsigned_digits(s);
    if parse_uint_spec(s, u32::MAX as int) is Some {
        crate::text::lemma_digits_value_grows(d, 0);
    }
}

/// Normal, distinct resolutions after those kept, five at most in all,
/// are all kept as they are.
proof fn lemma_recent_resolutions_keep(rest: Seq<Seq<char>>, acc: Seq<Seq<char>>)
    requires
        acc.len() + rest.len() <= 5,
        forall|i: int| 0 <= i < rest.len() ==> normal_resolution(#[trigger] rest[i]),
        forall|i: int, j: int| 0 <= i < j < (acc + rest).len() ==> (acc + rest)[i] != (acc + rest)[j],
    ensures
        recent_resolutions_from(rest, acc) == acc + rest,
    decreases rest.len(),
{
    if rest.len() == 0 {
        assert(acc + rest =~= acc);
    } else {
        let e = rest[0];
        assert(normal_resolution(rest[0]));
        assert(!acc.contains(e)) by {
            if acc.contains(e) {
                let k = choose|k: int| 0 <= k < acc.len() && acc[k] == e;
                assert((acc + rest)[k] == (acc + rest)[acc.len() as int]);
            }
        }
        let next = acc.push(e);
        assert(next + rest.drop_first() =~= acc + rest);
        assert forall|i: int| 0 <= i < rest.drop_first().len() implies normal_resolution(
            #[trigger] rest.drop_first()[i],
        ) by {
            assert(rest.drop_first()[i] == rest[i + 1]);
        }
        lemma_recent_resolutions_keep(rest.drop_first(), next);
    }
}

/// Normalising a list of recent resolutions twice is normalising it once.
pub proof fn lemma_recent_resolutions_stable(values: Seq<Seq<char>>)
    ensures
        recent_resolutions_from(recent_resolutions_from(values, Seq::empty()), Seq::empty())
            == recent_resolutions_from(values, Seq::empty()),
{
    let once = recent_resolutions_from(values, Seq::empty());
    lemma_recent_resolutions_bounded(values, Seq::empty());
    lemma_recent_resolutions_normal(values, Seq::empty());
    assert(Seq::<Seq<char>>::empty() + once =~= once);
    lemma_recent_resolutions_keep(once, Seq::empty());
}

/// Normalising a version signature twice is normalising it once.
pub proof fn lemma_friend_signature_stable(value: Seq<char>)
    ensures
        friend_signature_spec(friend_signature_spec(value)) == friend_signature_spec(value),
{
    reveal_strlit("none");
    let r = friend_signature_spec(value);
    let t = trim_spec(value);
    lemma_trim_idempotent(value);
    if r == "none"@ {
        lemma_trim_plain("none"@);
        assert(ascii_lower_seq("none"@) =~= "none"@);
    } else {
        assert(r == t);
    }
}

/// Normalising a Wine prefix mode twice is normalising it once.
pub proof fn lemma_wine_prefix_mode_stable(value: Seq<char>)
    ensures
        wine_prefix_mode_spec(wine_prefix_mode_spec(value)) == wine_prefix_mode_spec(value),
{
    reveal_strlit("system");
    reveal_strlit("custom");
    reveal_strlit("proton");
    reveal_strlit("portable");
    let r = wine_prefix_mode_spec(value);
    lemma_trim_plain(r);
    assert(ascii_lower_seq(r) =~= r);
}


/// Whether a server is the offline mode: its address is empty or
/// "OFFLINEMODE" in any case.
pub open spec fn is_offline_spec(url: Seq<char>) -> bool {
    url.len() == 0 || ascii_lower_seq(url) == ascii_lower_seq("OFFLINEMODE"@)
}

/// Whether a server is the offline mode.
pub fn is_offline_endpoint(url: &str) -> (b: bool)
    ensures
        b == is_offline_spec(url@),
{
    let chars = str_chars(url);
    let offline = str_chars("OFFLINEMODE");
    chars.len() == 0 || eq_ignore_ascii_case(chars.as_slice(), offline.as_slice())
}

/// Where patches are fetched from after a login: the patch server the
/// reply names, when it names one, else the server's own base address
/// (none in offline mode); normalised either way.
pub open spec fn patcher_base_spec(patch_server: Seq<char>, offline: bool, endpoint_base: Seq<char>) -> Seq<char> {
    if trim_spec(patch_server).len() == 0 {
        if offline {
            Seq::empty()
        } else {
            crate::server::normalize_patcher_base_url_spec(endpoint_base)
        }
    } else {
        crate::server::normalize_patcher_base_url_spec(trim_spec(patch_server))
    }
}

/// Where patches are fetched from after a login.
pub fn patcher_base_for(patch_server: &str, offline: bool, endpoint_base: &str) -> (r: String)
    ensures
        r@ == patcher_base_spec(patch_server@, offline, endpoint_base@),
{
    let chars = str_chars(patch_server);
    let t = trim_chars(chars.as_slice());
    if t.len() == 0 {
        if offline {
            String::new()
        } else {
            crate::server::normalize_patcher_base_url(endpoint_base)
        }
    } else {
        let text = string_from_chars(t.as_slice());
        crate::server::normalize_patcher_base_url(text.as_str())
    }
}

/// The entity tag a patch check sends: the cached one of the server, but
/// only when that server's files are the ones in place.
pub fn etag_for_request(active_server: &str, server_name: &str, cached_etag: &str) -> (r: String)
    ensures
        r@ == (if active_server@ == server_name@ {
            cached_etag@
        } else {
            Seq::empty()
        }),
{
    if str_eq(active_server, server_name) {
        cached_etag.to_string()
    } else {
        String::new()
    }
}

/// Whether a login marks the server's files as the ones in place: online,
/// for a named server, when no patch is due.
pub fn marks_active_server(offline: bool, server_name: &str, patch_due: bool) -> (b: bool)
    ensures
        b == (!offline && server_name@.len() != 0 && !patch_due),
{
    !offline && server_name.unicode_len() != 0 && !patch_due
}

/// The interface sounds the launcher plays.
pub open spec fn ui_sfx_names() -> Set<Seq<char>> {
    set!["hover"@, "select"@, "confirm"@, "start"@, "login"@]
}

/// The interface sound `name` names, trimmed; an error naming it for any
/// other sound.
pub fn ui_sfx_name(name: &str) -> (r: Result<String, String>)
    ensures
        ui_sfx_names().contains(trim_spec(name@)) ==> (r matches Ok(s) && s@ == trim_spec(name@)),
        !ui_sfx_names().contains(trim_spec(name@)) ==> (r matches Err(m) && m@ == "unsupported ui sfx '"@
            + name@ + "'"@),
{
    let chars = str_chars(name);
    let t = trim_chars(chars.as_slice());
    let trimmed = string_from_chars(t.as_slice());
    let n = trimmed.as_str();
    if str_eq(n, "hover") || str_eq(n, "select") || str_eq(n, "confirm") || str_eq(n, "start") || str_eq(
        n,
        "login",
    ) {
        Ok(trimmed)
    } else {
        let mut m = "unsupported ui sfx '".to_string();
        m.append(name);
        m.append("'");
        Err(m)
    }
}

} // verus!
