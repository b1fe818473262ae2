//! Changing the launcher's preferences from the front end: the launcher
//! preferences by a partial update, the interface preferences one named
//! value at a time.
use vstd::prelude::*;

use crate::endpoint::{normalize_remote_url, remote_url_spec};
use crate::launcher::{
    dimension_spec, normalize_launcher_style, normalize_style_spec, friend_signature_spec, normalize_friend_signature,
    normalize_launcher_window_dimension, normalize_recent_resolution_list,
    normalize_wine_prefix_custom_path, normalize_wine_prefix_mode, recent_resolutions_from, texts,
    wine_prefix_mode_spec, UiPrefs, CLASSIC_DEFAULT_WINDOW_HEIGHT, CLASSIC_DEFAULT_WINDOW_WIDTH,
    PS4_DEFAULT_WINDOW_HEIGHT, PS4_DEFAULT_WINDOW_WIDTH,
};
use crate::text::{chars_contain, chars_start_with, contains, starts_with, str_chars, str_eq, trim_spec};
use crate::version::{label_to_version, version_named, MhfVersion};

verus! {

/// How the launcher starts the game.
#[derive(Debug)]
pub struct LauncherPrefs {
    pub preload_controller_dlls: bool,
    pub friend_signature: String,
    pub wine_prefix_mode: String,
    pub wine_prefix_custom_path: Option<String>,
}

impl Default for LauncherPrefs {
    fn default() -> (p: Self)
        ensures
            !p.preload_controller_dlls,
            p.friend_signature@ == "none"@,
            p.wine_prefix_mode@ == "portable"@,
            p.wine_prefix_custom_path is None,
    {
        LauncherPrefs {
            preload_controller_dlls: false,
            friend_signature: "none".to_string(),
            wine_prefix_mode: "portable".to_string(),
            wine_prefix_custom_path: None,
        }
    }
}

/// The launcher preferences a front-end request changes; `None` leaves a
/// preference as it is.
#[derive(Debug)]
pub struct LauncherPrefUpdate {
    pub preload_controller_dlls: Option<bool>,
    pub friend_signature: Option<String>,
    pub wine_prefix_mode: Option<String>,
    pub wine_prefix_custom_path: Option<Option<String>>,
}

impl Default for LauncherPrefUpdate {
    fn default() -> (u: Self)
        ensures
            u.preload_controller_dlls is None,
            u.friend_signature is None,
            u.wine_prefix_mode is None,
            u.wine_prefix_custom_path is None,
    {
        LauncherPrefUpdate {
            preload_controller_dlls: None,
            friend_signature: None,
            wine_prefix_mode: None,
            wine_prefix_custom_path: None,
        }
    }
}

/// A custom Wine prefix path as stored: trimmed, none when blank.
pub open spec fn custom_text_spec(value: Option<Seq<char>>) -> Option<Seq<char>> {
    match value {
        None => None,
        Some(v) => if trim_spec(v).len() == 0 {
            None
        } else {
            Some(trim_spec(v))
        },
    }
}

/// A custom Wine prefix path as stored.
pub open spec fn custom_path_spec(value: Option<String>) -> Option<Seq<char>> {
    custom_text_spec(opt_view(value))
}

/// The text of an optional string.
pub open spec fn opt_view(value: Option<String>) -> Option<Seq<char>> {
    match value {
        Some(v) => Some(v@),
        None => None,
    }
}

/// Applies `update` (none counts as an empty one) to `prefs`: the controller
/// preload flag from the update, else from `preload_controller_dlls`; the
/// friend signature, Wine prefix mode and custom prefix path normalised.
pub fn apply_launcher_pref_update(
    prefs: &mut LauncherPrefs,
    update: Option<LauncherPrefUpdate>,
    preload_controller_dlls: Option<bool>,
)
    ensures
        ({
            let u = update;
            let preload = match u {
                Some(x) if x.preload_controller_dlls is Some => x.preload_controller_dlls,
                _ => preload_controller_dlls,
            };
            &&& final(prefs).preload_controller_dlls == match preload {
                Some(b) => b,
                None => old(prefs).preload_controller_dlls,
            }
            &&& final(prefs).friend_signature@ == match u {
                Some(x) if x.friend_signature is Some => friend_signature_spec(x.friend_signature->0@),
                _ => old(prefs).friend_signature@,
            }
            &&& final(prefs).wine_prefix_mode@ == match u {
                Some(x) if x.wine_prefix_mode is Some => wine_prefix_mode_spec(x.wine_prefix_mode->0@),
                _ => old(prefs).wine_prefix_mode@,
            }
            &&& opt_view(final(prefs).wine_prefix_custom_path) == match u {
                Some(x) if x.wine_prefix_custom_path is Some => custom_path_spec(
                    x.wine_prefix_custom_path->0,
                ),
                _ => opt_view(old(prefs).wine_prefix_custom_path),
            }
        }),
{
    let mut payload = match update {
        Some(u) => u,
        None => LauncherPrefUpdate::default(),
    };
    if payload.preload_controller_dlls.is_none() {
        payload.preload_controller_dlls = preload_controller_dlls;
    }
    if let Some(preload) = payload.preload_controller_dlls {
        prefs.preload_controller_dlls = preload;
    }
    if let Some(signature) = payload.friend_signature {
        prefs.friend_signature = normalize_friend_signature(signature.as_str());
    }
    if let Some(mode) = payload.wine_prefix_mode {
        prefs.wine_prefix_mode = normalize_wine_prefix_mode(mode.as_str());
    }
    if let Some(path) = payload.wine_prefix_custom_path {
        let text: Option<&str> = match &path {
            Some(p) => Some(p.as_str()),
            None => None,
        };
        prefs.wine_prefix_custom_path = normalize_wine_prefix_custom_path(text);
    }
}

/// A value the front end sends for an interface preference: a flag, a
/// number (as a whole number, where it is one), text, a list (its text
/// entries, the others as none), or anything else.
#[derive(Debug)]
pub enum UiPrefValue {
    Bool(bool),
    Number(Option<u64>),
    Text(String),
    List(Vec<Option<String>>),
    Other,
}

/// A preference value with its texts as sequences.
pub enum UiPrefValueView {
    Bool(bool),
    Number(Option<u64>),
    Text(Seq<char>),
    List(Seq<Option<Seq<char>>>),
    Other,
}

impl View for UiPrefValue {
    type V = UiPrefValueView;

    open spec fn view(&self) -> UiPrefValueView {
        match self {
            UiPrefValue::Bool(b) => UiPrefValueView::Bool(*b),
            UiPrefValue::Number(n) => UiPrefValueView::Number(*n),
            UiPrefValue::Text(s) => UiPrefValueView::Text(s@),
            UiPrefValue::List(v) => UiPrefValueView::List(v@.map_values(|e: Option<String>| opt_view(e))),
            UiPrefValue::Other => UiPrefValueView::Other,
        }
    }
}

/// The interface preferences with their texts as sequences.
pub struct UiPrefsView {
    pub sfx_enabled: bool,
    pub sfx_volume: u8,
    pub font_preset: Seq<char>,
    pub classic_launcher_width: u32,
    pub classic_launcher_height: u32,
    pub classic_launcher_custom_resolution: bool,
    pub classic_launcher_recent_resolutions: Seq<Seq<char>>,
    pub ps4_launcher_width: u32,
    pub ps4_launcher_height: u32,
    pub ps4_launcher_custom_resolution: bool,
    pub ps4_launcher_recent_resolutions: Seq<Seq<char>>,
    pub game_version: MhfVersion,
    pub force_game_version: bool,
    pub dev_mode: bool,
    pub server_version_prompt_disabled: bool,
    pub launcher_controller: bool,
    pub linux_hardware_acceleration: bool,
    pub offline_images: bool,
}

impl View for UiPrefs {
    type V = UiPrefsView;

    open spec fn view(&self) -> UiPrefsView {
        UiPrefsView {
            sfx_enabled: self.sfx_enabled,
            sfx_volume: self.sfx_volume,
            font_preset: self.font_preset@,
            classic_launcher_width: self.classic_launcher_width,
            classic_launcher_height: self.classic_launcher_height,
            classic_launcher_custom_resolution: self.classic_launcher_custom_resolution,
            classic_launcher_recent_resolutions: texts(self.classic_launcher_recent_resolutions@),
            ps4_launcher_width: self.ps4_launcher_width,
            ps4_launcher_height: self.ps4_launcher_height,
            ps4_launcher_custom_resolution: self.ps4_launcher_custom_resolution,
            ps4_launcher_recent_resolutions: texts(self.ps4_launcher_recent_resolutions@),
            game_version: self.game_version,
            force_game_version: self.force_game_version,
            dev_mode: self.dev_mode,
            server_version_prompt_disabled: self.server_version_prompt_disabled,
            launcher_controller: self.launcher_controller,
            linux_hardware_acceleration: self.linux_hardware_acceleration,
            offline_images: self.offline_images,
        }
    }
}

/// The text entries of a list, in order.
pub open spec fn present_texts(entries: Seq<Option<Seq<char>>>) -> Seq<Seq<char>>
    decreases entries.len(),
{
    if entries.len() == 0 {
        Seq::empty()
    } else {
        let rest = present_texts(entries.drop_last());
        match entries.last() {
            Some(t) => rest.push(t),
            None => rest,
        }
    }
}

/// Whether a font preset can be stored: "default", "classic", or
/// "custom:" and a name without path separators.
pub open spec fn font_preset_ok(v: Seq<char>) -> bool {
    v == "default"@ || v == "classic"@ || (starts_with(v, "custom:"@) && !contains(v, "/"@) && !contains(
        v,
        "\\"@,
    ))
}

/// A window dimension from the front end, as stored.
pub open spec fn window_dimension(n: Option<u64>, current: u32, fallback: u32) -> u32 {
    match n {
        Some(v) => dimension_spec(v as u32, fallback),
        None => current,
    }
}

/// The interface preferences set by a flag.
pub open spec fn is_bool_pref(name: Seq<char>) -> bool {
    name == "sfxEnabled"@ || name == "classicLauncherCustomResolution"@ || name == "ps4LauncherCustomResolution"@
        || name == "forceGameVersion"@ || name == "devMode"@ || name == "serverVersionPromptDisabled"@ || name
        == "launcherController"@ || name == "linuxHardwareAcceleration"@ || name == "offlineImages"@
}

/// `p` with the flag `name` set to `b`.
pub open spec fn with_bool_pref(p: UiPrefsView, name: Seq<char>, b: bool) -> UiPrefsView {
    if name == "sfxEnabled"@ {
        UiPrefsView { sfx_enabled: b, ..p }
    } else if name == "classicLauncherCustomResolution"@ {
        UiPrefsView { classic_launcher_custom_resolution: b, ..p }
    } else if name == "ps4LauncherCustomResolution"@ {
        UiPrefsView { ps4_launcher_custom_resolution: b, ..p }
    } else if name == "forceGameVersion"@ {
        UiPrefsView { force_game_version: b, ..p }
    } else if name == "devMode"@ {
        UiPrefsView { dev_mode: b, ..p }
    } else if name == "serverVersionPromptDisabled"@ {
        UiPrefsView { server_version_prompt_disabled: b, ..p }
    } else if name == "launcherController"@ {
        UiPrefsView { launcher_controller: b, ..p }
    } else if name == "linuxHardwareAcceleration"@ {
        UiPrefsView { linux_hardware_acceleration: b, ..p }
    } else {
        UiPrefsView { offline_images: b, ..p }
    }
}

/// The interface preferences set by a number.
pub open spec fn is_number_pref(name: Seq<char>) -> bool {
    name == "sfxVolume"@ || name == "classicLauncherWidth"@ || name == "classicLauncherHeight"@ || name
        == "ps4LauncherWidth"@ || name == "ps4LauncherHeight"@
}

/// `p` with the number `name` set from `n`: the volume capped at 255, a
/// window dimension normalised; nothing changes without a whole number.
pub open spec fn with_number_pref(p: UiPrefsView, name: Seq<char>, n: Option<u64>) -> UiPrefsView {
    if name == "sfxVolume"@ {
        match n {
            Some(v) => UiPrefsView {
                sfx_volume: if v > 255 {
                    255u8
                } else {
                    v as u8
                },
                ..p
            },
            None => p,
        }
    } else if name == "classicLauncherWidth"@ {
        UiPrefsView {
            classic_launcher_width: window_dimension(n, p.classic_launcher_width, CLASSIC_DEFAULT_WINDOW_WIDTH),
            ..p
        }
    } else if name == "classicLauncherHeight"@ {
        UiPrefsView {
            classic_launcher_height: window_dimension(n, p.classic_launcher_height, CLASSIC_DEFAULT_WINDOW_HEIGHT),
            ..p
        }
    } else if name == "ps4LauncherWidth"@ {
        UiPrefsView { ps4_launcher_width: window_dimension(n, p.ps4_launcher_width, PS4_DEFAULT_WINDOW_WIDTH), ..p }
    } else {
        UiPrefsView { ps4_launcher_height: window_dimension(n, p.ps4_launcher_height, PS4_DEFAULT_WINDOW_HEIGHT), ..p }
    }
}

/// The preferences and the current server's version after the front end
/// sets the preference `name` to `value`; `None` for a name the launcher
/// does not know or a value of the wrong kind, which changes nothing.
pub open spec fn ui_pref_spec(p: UiPrefsView, version: MhfVersion, name: Seq<char>, value: UiPrefValueView) -> Option<
    (UiPrefsView, MhfVersion),
> {
    if is_bool_pref(name) {
        match value {
            UiPrefValueView::Bool(b) => Some((with_bool_pref(p, name, b), version)),
            _ => None,
        }
    } else if is_number_pref(name) {
        match value {
            UiPrefValueView::Number(n) => Some((with_number_pref(p, name, n), version)),
            _ => None,
        }
    } else if name == "classicLauncherRecentResolutions"@ {
        match value {
            UiPrefValueView::List(entries) => Some(
                (
                    UiPrefsView {
                        classic_launcher_recent_resolutions: recent_resolutions_from(
                            present_texts(entries),
                            Seq::empty(),
                        ),
                        ..p
                    },
                    version,
                ),
            ),
            _ => None,
        }
    } else if name == "ps4LauncherRecentResolutions"@ {
        match value {
            UiPrefValueView::List(entries) => Some(
                (
                    UiPrefsView {
                        ps4_launcher_recent_resolutions: recent_resolutions_from(
                            present_texts(entries),
                            Seq::empty(),
                        ),
                        ..p
                    },
                    version,
                ),
            ),
            _ => None,
        }
    } else if name == "fontPreset"@ {
        match value {
            UiPrefValueView::Text(v) => Some(
                (
                    if font_preset_ok(v) {
                        UiPrefsView { font_preset: v, ..p }
                    } else {
                        p
                    },
                    version,
                ),
            ),
            _ => None,
        }
    } else if name == "gameVersion"@ {
        match value {
            UiPrefValueView::Text(v) => Some(
                match version_named(trim_spec(v)) {
                    Some(named) => (UiPrefsView { game_version: named, ..p }, named),
                    None => (p, version),
                },
            ),
            _ => None,
        }
    } else {
        None
    }
}

/// The text entries of `entries`, in order.
fn list_texts(entries: &Vec<Option<String>>) -> (r: Vec<String>)
    ensures
        texts(r@) == present_texts(entries@.map_values(|e: Option<String>| opt_view(e))),
{
    let ghost es = entries@.map_values(|e: Option<String>| opt_view(e));
    let mut out: Vec<String> = Vec::new();
    let mut i: usize = 0;
    while i < entries.len()
        invariant
            i <= entries.len(),
            es == entries@.map_values(|e: Option<String>| opt_view(e)),
            texts(out@) == present_texts(es.subrange(0, i as int)),
        decreases entries.len() - i,
    {
        assert(es.subrange(0, i + 1).drop_last() =~= es.subrange(0, i as int));
        match &entries[i] {
            Some(t) => {
                out.push(t.clone());
                assert(texts(out@) =~= texts(out@.drop_last()).push(t@));
            },
            None => {},
        }
        i = i + 1;
    }
    assert(es.subrange(0, i as int) =~= es);
    out
}

/// Whether a font preset can be stored.
fn font_preset_allowed(v: &str) -> (b: bool)
    ensures
        b == font_preset_ok(v@),
{
    let chars = str_chars(v);
    let custom = str_chars("custom:");
    let slash = str_chars("/");
    let backslash = str_chars("\\");
    str_eq(v, "default") || str_eq(v, "classic") || (chars_start_with(chars.as_slice(), custom.as_slice())
        && !chars_contain(chars.as_slice(), slash.as_slice()) && !chars_contain(
        chars.as_slice(),
        backslash.as_slice(),
    ))
}

/// Whether `name` is set by a flag.
fn bool_pref_name(name: &str) -> (b: bool)
    ensures
        b == is_bool_pref(name@),
{
    str_eq(name, "sfxEnabled") || str_eq(name, "classicLauncherCustomResolution") || str_eq(
        name,
        "ps4LauncherCustomResolution",
    ) || str_eq(name, "forceGameVersion") || str_eq(name, "devMode") || str_eq(
        name,
        "serverVersionPromptDisabled",
    ) || str_eq(name, "launcherController") || str_eq(name, "linuxHardwareAcceleration") || str_eq(
        name,
        "offlineImages",
    )
}

/// Sets the flag `name` to `b`.
fn set_bool_pref(prefs: &mut UiPrefs, name: &str, b: bool)
    ensures
        final(prefs)@ == with_bool_pref(old(prefs)@, name@, b),
{
    if str_eq(name, "sfxEnabled") {
        prefs.sfx_enabled = b;
    } else if str_eq(name, "classicLauncherCustomResolution") {
        prefs.classic_launcher_custom_resolution = b;
    } else if str_eq(name, "ps4LauncherCustomResolution") {
        prefs.ps4_launcher_custom_resolution = b;
    } else if str_eq(name, "forceGameVersion") {
        prefs.force_game_version = b;
    } else if str_eq(name, "devMode") {
        prefs.dev_mode = b;
    } else if str_eq(name, "serverVersionPromptDisabled") {
        prefs.server_version_prompt_disabled = b;
    } else if str_eq(name, "launcherController") {
        prefs.launcher_controller = b;
    } else if str_eq(name, "linuxHardwareAcceleration") {
        prefs.linux_hardware_acceleration = b;
    } else {
        prefs.offline_images = b;
    }
}

/// Whether `name` is set by a number.
fn number_pref_name(name: &str) -> (b: bool)
    ensures
        b == is_number_pref(name@),
{
    str_eq(name, "sfxVolume") || str_eq(name, "classicLauncherWidth") || str_eq(name, "classicLauncherHeight")
        || str_eq(name, "ps4LauncherWidth") || str_eq(name, "ps4LauncherHeight")
}

/// Sets the number `name` from `n`.
fn set_number_pref(prefs: &mut UiPrefs, name: &str, n: Option<u64>)
    ensures
        final(prefs)@ == with_number_pref(old(prefs)@, name@, n),
{
    let v = match n {
        Some(v) => v,
        None => {
            return;
        },
    };
    if str_eq(name, "sfxVolume") {
        prefs.sfx_volume = if v > 255 {
            255u8
        } else {
            v as u8
        };
    } else if str_eq(name, "classicLauncherWidth") {
        prefs.classic_launcher_width = normalize_launcher_window_dimension(v as u32, CLASSIC_DEFAULT_WINDOW_WIDTH);
    } else if str_eq(name, "classicLauncherHeight") {
        prefs.classic_launcher_height = normalize_launcher_window_dimension(v as u32, CLASSIC_DEFAULT_WINDOW_HEIGHT);
    } else if str_eq(name, "ps4LauncherWidth") {
        prefs.ps4_launcher_width = normalize_launcher_window_dimension(v as u32, PS4_DEFAULT_WINDOW_WIDTH);
    } else {
        prefs.ps4_launcher_height = normalize_launcher_window_dimension(v as u32, PS4_DEFAULT_WINDOW_HEIGHT);
    }
}

/// Sets the interface preference `name` to `value`, and with the game
/// version the current server's version too, as `ui_pref_spec` says;
/// whether the preferences are to be saved (the name and the kind of value
/// are known).
pub fn apply_ui_pref(prefs: &mut UiPrefs, current_version: &mut MhfVersion, name: &str, value: UiPrefValue) -> (saved: bool)
    ensures
        match ui_pref_spec(old(prefs)@, *old(current_version), name@, value@) {
            Some(next) => saved && final(prefs)@ == next.0 && *final(current_version) == next.1,
            None => !saved && final(prefs)@ == old(prefs)@ && *final(current_version) == *old(current_version),
        },
{
    if bool_pref_name(name) {
        match value {
            UiPrefValue::Bool(b) => {
                set_bool_pref(prefs, name, b);
                true
            },
            _ => false,
        }
    } else if number_pref_name(name) {
        match value {
            UiPrefValue::Number(n) => {
                set_number_pref(prefs, name, n);
                true
            },
            _ => false,
        }
    } else if str_eq(name, "classicLauncherRecentResolutions") {
        match value {
            UiPrefValue::List(entries) => {
                let values = list_texts(&entries);
                prefs.classic_launcher_recent_resolutions = normalize_recent_resolution_list(values.as_slice());
                true
            },
            _ => false,
        }
    } else if str_eq(name, "ps4LauncherRecentResolutions") {
        match value {
            UiPrefValue::List(entries) => {
                let values = list_texts(&entries);
                prefs.ps4_launcher_recent_resolutions = normalize_recent_resolution_list(values.as_slice());
                true
            },
            _ => false,
        }
    } else if str_eq(name, "fontPreset") {
        match value {
            UiPrefValue::Text(v) => {
                if font_preset_allowed(v.as_str()) {
                    prefs.font_preset = v;
                }
                true
            },
            _ => false,
        }
    } else if str_eq(name, "gameVersion") {
        match value {
            UiPrefValue::Text(v) => {
                if let Some(version) = label_to_version(v.as_str()) {
                    prefs.game_version = version;
                    *current_version = version;
                }
                true
            },
            _ => false,
        }
    } else {
        false
    }
}

/// Brings settings read from the store to their normal form: the friend
/// signature, Wine prefix mode and custom prefix path of `prefs`, the
/// recent resolutions of `ui`, the launcher style, and the server list and
/// message list addresses (empty unless they are web addresses); whether
/// the style changed, which calls for saving the store.
pub fn normalize_loaded_state(
    prefs: &mut LauncherPrefs,
    ui: &mut UiPrefs,
    style: &mut u32,
    serverlist_url: &mut String,
    messagelist_url: &mut String,
) -> (style_changed: bool)
    ensures
        final(prefs).preload_controller_dlls == old(prefs).preload_controller_dlls,
        final(prefs).friend_signature@ == friend_signature_spec(old(prefs).friend_signature@),
        final(prefs).wine_prefix_mode@ == wine_prefix_mode_spec(old(prefs).wine_prefix_mode@),
        opt_view(final(prefs).wine_prefix_custom_path) == custom_path_spec(old(prefs).wine_prefix_custom_path),
        final(ui)@ == (UiPrefsView {
            classic_launcher_recent_resolutions: recent_resolutions_from(
                old(ui)@.classic_launcher_recent_resolutions,
                Seq::empty(),
            ),
            ps4_launcher_recent_resolutions: recent_resolutions_from(
                old(ui)@.ps4_launcher_recent_resolutions,
                Seq::empty(),
            ),
            ..old(ui)@
        }),
        *final(style) == normalize_style_spec(*old(style)),
        style_changed == (*old(style) != normalize_style_spec(*old(style))),
        final(serverlist_url)@ == match remote_url_spec(old(serverlist_url)@) {
            Some(u) => u,
            None => Seq::empty(),
        },
        final(messagelist_url)@ == match remote_url_spec(old(messagelist_url)@) {
            Some(u) => u,
            None => Seq::empty(),
        },
{
    let list = match normalize_remote_url(serverlist_url.as_str()) {
        Some(u) => u,
        None => String::new(),
    };
    *serverlist_url = list;
    let messages = match normalize_remote_url(messagelist_url.as_str()) {
        Some(u) => u,
        None => String::new(),
    };
    *messagelist_url = messages;
    prefs.friend_signature = normalize_friend_signature(prefs.friend_signature.as_str());
    prefs.wine_prefix_mode = normalize_wine_prefix_mode(prefs.wine_prefix_mode.as_str());
    let custom: Option<String> = {
        let text: Option<&str> = match &prefs.wine_prefix_custom_path {
            Some(p) => Some(p.as_str()),
            None => None,
        };
        normalize_wine_prefix_custom_path(text)
    };
    prefs.wine_prefix_custom_path = custom;
    let classic = normalize_recent_resolution_list(ui.classic_launcher_recent_resolutions.as_slice());
    ui.classic_launcher_recent_resolutions = classic;
    let ps4 = normalize_recent_resolution_list(ui.ps4_launcher_recent_resolutions.as_slice());
    ui.ps4_launcher_recent_resolutions = ps4;
    let normalized = normalize_launcher_style(*style);
    let changed = *style != normalized;
    *style = normalized;
    changed
}

/// A list address as stored: the normalised address, else empty.
pub open spec fn stored_url_spec(value: Seq<char>) -> Seq<char> {
    match remote_url_spec(value) {
        Some(u) => u,
        None => Seq::empty(),
    }
}

/// Settings once brought to normal form are left as they are when loaded
/// and normalised again: the friend signature, the Wine prefix mode and
/// custom path, both lists of recent resolutions, the launcher style and
/// the list addresses.
pub proof fn lemma_loaded_state_stable(
    signature: Seq<char>,
    mode: Seq<char>,
    custom: Option<Seq<char>>,
    classic: Seq<Seq<char>>,
    ps4: Seq<Seq<char>>,
    style: u32,
    serverlist_url: Seq<char>,
    messagelist_url: Seq<char>,
)
    ensures
        friend_signature_spec(friend_signature_spec(signature)) == friend_signature_spec(signature),
        wine_prefix_mode_spec(wine_prefix_mode_spec(mode)) == wine_prefix_mode_spec(mode),
        custom_text_spec(custom_text_spec(custom)) == custom_text_spec(custom),
        recent_resolutions_from(recent_resolutions_from(classic, Seq::empty()), Seq::empty())
            == recent_resolutions_from(classic, Seq::empty()),
        recent_resolutions_from(recent_resolutions_from(ps4, Seq::empty()), Seq::empty())
            == recent_resolutions_from(ps4, Seq::empty()),
        normalize_style_spec(normalize_style_spec(style)) == normalize_style_spec(style),
        stored_url_spec(stored_url_spec(serverlist_url)) == stored_url_spec(serverlist_url),
        stored_url_spec(stored_url_spec(messagelist_url)) == stored_url_spec(messagelist_url),
{
    crate::launcher::lemma_friend_signature_stable(signature);
    crate::launcher::lemma_wine_prefix_mode_stable(mode);
    if let Some(c) = custom {
        crate::text::lemma_trim_idempotent(c);
    }
    crate::launcher::lemma_recent_resolutions_stable(classic);
    crate::launcher::lemma_recent_resolutions_stable(ps4);
    crate::endpoint::lemma_remote_url_stable(serverlist_url);
    crate::endpoint::lemma_remote_url_stable(messagelist_url);
}

} // verus!
