//! Running the game under Wine or Proton: which registry commands set the
//! controller overrides, which tools and audio parts are missing, and how a
//! failed command is reported.
use vstd::prelude::*;

use crate::text::{
    ascii_lower_seq, chars_contain, chars_start_with, contains, lower_chars, starts_with,
    str_chars, string_from_chars, trim_chars, trim_spec,
};

verus! {

/// The registry key of Wine's DLL overrides.
pub const WINE_DLL_OVERRIDES_KEY: &'static str = "HKCU\\Software\\Wine\\DllOverrides";

/// The override that makes Wine load the game's own controller DLLs.
pub const CONTROLLER_DLL_OVERRIDE_VALUE: &'static str = "native,builtin";

/// The controller DLLs whose loading is overridden.
pub open spec fn controller_override_names() -> Seq<Seq<char>> {
    seq!["xinput1_3"@, "dinput"@, "dinput8"@]
}

/// The controller DLLs whose loading is overridden.
pub fn controller_dll_override_names() -> (v: Vec<&'static str>)
    ensures
        v@.map_values(|s: &str| s@) == controller_override_names(),
{
    let mut v: Vec<&'static str> = Vec::new();
    v.push("xinput1_3");
    v.push("dinput");
    v.push("dinput8");
    assert(v@.map_values(|s: &str| s@) =~= controller_override_names());
    v
}

/// Which runtime runs the game.
#[derive(Debug, Clone, Copy, PartialEq, Eq, Structural)]
pub enum WineRuntimeKind {
    Wine,
    Proton,
}

/// The program a runtime kind is known by.
pub fn program_name(kind: WineRuntimeKind) -> (s: &'static str)
    ensures
        s@ == (match kind {
            WineRuntimeKind::Wine => "wine"@,
            WineRuntimeKind::Proton => "proton"@,
        }),
{
    match kind {
        WineRuntimeKind::Wine => "wine",
        WineRuntimeKind::Proton => "proton",
    }
}

/// The arguments of `wine reg` that set (`enabled`) or clear the override
/// for `dll_name`.
pub open spec fn override_args_spec(enabled: bool, dll_name: Seq<char>) -> Seq<Seq<char>> {
    if enabled {
        seq![
            "add"@,
            WINE_DLL_OVERRIDES_KEY@,
            "/v"@,
            dll_name,
            "/t"@,
            "REG_SZ"@,
            "/d"@,
            CONTROLLER_DLL_OVERRIDE_VALUE@,
            "/f"@,
        ]
    } else {
        seq!["delete"@, WINE_DLL_OVERRIDES_KEY@, "/v"@, dll_name, "/f"@]
    }
}

/// The arguments of `wine reg` that set or clear the override for a DLL.
pub fn wine_reg_override_args(enabled: bool, dll_name: &str) -> (v: Vec<String>)
    ensures
        v@.map_values(|s: String| s@) == override_args_spec(enabled, dll_name@),
{
    let mut v: Vec<String> = Vec::new();
    if enabled {
        v.push("add".to_string());
        v.push(WINE_DLL_OVERRIDES_KEY.to_string());
        v.push("/v".to_string());
        v.push(dll_name.to_string());
        v.push("/t".to_string());
        v.push("REG_SZ".to_string());
        v.push("/d".to_string());
        v.push(CONTROLLER_DLL_OVERRIDE_VALUE.to_string());
        v.push("/f".to_string());
    } else {
        v.push("delete".to_string());
        v.push(WINE_DLL_OVERRIDES_KEY.to_string());
        v.push("/v".to_string());
        v.push(dll_name.to_string());
        v.push("/f".to_string());
    }
    assert(v@.map_values(|s: String| s@) =~= override_args_spec(enabled, dll_name@));
    v
}

/// Whether overrides are written at all: setting them always; clearing
/// them only in a Wine prefix that has been set up.
pub fn overrides_need_writing(enabled: bool, prefix_initialized: bool) -> (b: bool)
    ensures
        b == (enabled || prefix_initialized),
{
    enabled || prefix_initialized
}

/// What a failed command is reported with: its trimmed error output, or its
/// exit status when it printed nothing.
pub open spec fn failure_detail_spec(stderr: Seq<char>, status: Seq<char>) -> Seq<char> {
    if trim_spec(stderr).len() == 0 {
        "exit status "@ + status
    } else {
        trim_spec(stderr)
    }
}

/// What a failed command is reported with.
pub fn command_failure_detail(stderr: &str, status: &str) -> (s: String)
    ensures
        s@ == failure_detail_spec(stderr@, status@),
{
    let chars = str_chars(stderr);
    let t = trim_chars(chars.as_slice());
    if t.len() == 0 {
        let mut s = "exit status ".to_string();
        s.append(status);
        s
    } else {
        string_from_chars(t.as_slice())
    }
}

/// The message for an override that could not be set.
pub fn override_failure_message(dll_name: &str, detail: &str) -> (s: String)
    ensures
        s@ == "failed to apply Wine controller override for "@ + dll_name@ + ": "@ + detail@,
{
    let mut s = "failed to apply Wine controller override for ".to_string();
    s.append(dll_name);
    s.append(": ");
    s.append(detail);
    s
}

/// The tools missing to run the game: the runtime's own program, and for
/// Wine also `wineserver` and `winetricks`, each when it is not found.
pub open spec fn missing_tools_spec(
    kind: WineRuntimeKind,
    runtime_found: bool,
    wineserver_found: bool,
    winetricks_found: bool,
) -> Seq<Seq<char>> {
    let first: Seq<Seq<char>> = if runtime_found {
        seq![]
    } else {
        seq![
            match kind {
                WineRuntimeKind::Wine => "wine"@,
                WineRuntimeKind::Proton => "proton"@,
            },
        ]
    };
    if kind is Proton {
        first
    } else {
        first + (if wineserver_found {
            seq![]
        } else {
            seq!["wineserver"@]
        }) + (if winetricks_found {
            seq![]
        } else {
            seq!["winetricks"@]
        })
    }
}

/// The tools missing to run the game.
pub fn find_missing_wine_tools(
    kind: WineRuntimeKind,
    runtime_found: bool,
    wineserver_found: bool,
    winetricks_found: bool,
) -> (v: Vec<String>)
    ensures
        v@.map_values(|s: String| s@) == missing_tools_spec(
            kind,
            runtime_found,
            wineserver_found,
            winetricks_found,
        ),
{
    let mut v: Vec<String> = Vec::new();
    if !runtime_found {
        v.push(program_name(kind).to_string());
    }
    if kind == WineRuntimeKind::Proton {
        assert(v@.map_values(|s: String| s@) =~= missing_tools_spec(
            kind,
            runtime_found,
            wineserver_found,
            winetricks_found,
        ));
        return v;
    }
    if !wineserver_found {
        v.push("wineserver".to_string());
    }
    if !winetricks_found {
        v.push("winetricks".to_string());
    }
    assert(v@.map_values(|s: String| s@) =~= missing_tools_spec(
        kind,
        runtime_found,
        wineserver_found,
        winetricks_found,
    ));
    v
}

/// The GStreamer parts the launcher's sounds need besides a sink.
pub open spec fn audio_components() -> Seq<Seq<char>> {
    seq!["uridecodebin"@, "audioconvert"@, "audioresample"@, "volume"@]
}

/// The parts missing among `audio_components()`, given which were found.
pub open spec fn missing_parts(found: Seq<bool>, n: int) -> Seq<Seq<char>>
    decreases n,
{
    if n <= 0 {
        seq![]
    } else if !found[n - 1] {
        missing_parts(found, n - 1).push(audio_components()[n - 1])
    } else {
        missing_parts(found, n - 1)
    }
}

/// What is missing for the launcher's sounds on Linux, given whether
/// `gst-inspect-1.0` was found, which of `audio_components()` were found,
/// whether this is WSL, and which sinks were found.
pub fn find_missing_linux_audio_runtime(
    inspect_found: bool,
    found: &[bool; 4],
    wsl: bool,
    pulsesink: bool,
    pipewiresink: bool,
) -> (v: Vec<String>)
    ensures
        v@.map_values(|s: String| s@) == (if !inspect_found {
            seq!["gst-inspect-1.0"@]
        } else {
            missing_parts(found@, 4) + (if wsl {
                if pulsesink {
                    seq![]
                } else {
                    seq!["pulsesink"@]
                }
            } else if pulsesink || pipewiresink {
                seq![]
            } else {
                seq!["audio-sink"@]
            })
        }),
{
    let mut v: Vec<String> = Vec::new();
    if !inspect_found {
        v.push("gst-inspect-1.0".to_string());
        assert(v@.map_values(|s: String| s@) =~= seq!["gst-inspect-1.0"@]);
        return v;
    }
    let names: [&str; 4] = ["uridecodebin", "audioconvert", "audioresample", "volume"];
    assert(names@.map_values(|s: &str| s@) =~= audio_components());
    let mut i: usize = 0;
    while i < 4
        invariant
            i <= 4,
            names@.map_values(|s: &str| s@) == audio_components(),
            v@.map_values(|s: String| s@) == missing_parts(found@, i as int),
        decreases 4 - i,
    {
        assert(audio_components()[i as int] == names@[i as int]@);
        if !found[i] {
            let ghost before = v@;
            v.push(names[i].to_string());
            assert(v@.map_values(|s: String| s@) =~= before.map_values(|s: String| s@).push(
                names@[i as int]@,
            ));
        }
        i = i + 1;
    }
    let ghost parts = v@.map_values(|s: String| s@);
    if wsl {
        if !pulsesink {
            v.push("pulsesink".to_string());
        }
    } else if !(pulsesink || pipewiresink) {
        v.push("audio-sink".to_string());
    }
    assert(v@.map_values(|s: String| s@) =~= parts + (if wsl {
        if pulsesink {
            seq![]
        } else {
            seq!["pulsesink"@]
        }
    } else if pulsesink || pipewiresink {
        seq![]
    } else {
        seq!["audio-sink"@]
    }));
    v
}

/// Whether the text of a kernel release or version names WSL.
pub fn mentions_wsl(contents: &str) -> (b: bool)
    ensures
        b == (contains(ascii_lower_seq(contents@), "microsoft"@) || contains(
            ascii_lower_seq(contents@),
            "wsl"@,
        )),
{
    let chars = str_chars(contents);
    let lower = lower_chars(chars.as_slice());
    let ms = str_chars("microsoft");
    let wsl = str_chars("wsl");
    chars_contain(lower.as_slice(), ms.as_slice()) || chars_contain(lower.as_slice(), wsl.as_slice())
}

/// Whether a directory is the short-lived mount of a running AppImage,
/// judged from its path.
pub fn is_ephemeral_appimage_runtime_dir(path: &str) -> (b: bool)
    ensures
        b == (contains(path@, "/.mount_"@) || contains(path@, "/squashfs-root"@) || starts_with(
            path@,
            "/tmp/.mount_"@,
        ) || starts_with(path@, "/run/user/"@)),
{
    let chars = str_chars(path);
    let a = str_chars("/.mount_");
    let b = str_chars("/squashfs-root");
    let c = str_chars("/tmp/.mount_");
    let d = str_chars("/run/user/");
    chars_contain(chars.as_slice(), a.as_slice()) || chars_contain(chars.as_slice(), b.as_slice())
        || chars_start_with(chars.as_slice(), c.as_slice()) || chars_start_with(
        chars.as_slice(),
        d.as_slice(),
    )
}

/// The controller DLLs the game folder may hold, active or disabled.
pub open spec fn controller_dll_file_names() -> Seq<Seq<char>> {
    seq!["XInput1_3.dll"@, "Dinput.dll"@, "Dinput8.dll"@]
}

/// What the game folder holds of one controller DLL: the active file, the
/// one with ".disabled" appended, or both.
#[derive(Debug, Clone, Copy, PartialEq, Eq, Structural)]
pub struct ControllerDllPresence {
    pub active: bool,
    pub disabled: bool,
}

/// What to do with one controller DLL.
#[derive(Debug, Clone, Copy, PartialEq, Eq, Structural)]
pub enum ControllerDllRename {
    Keep,
    /// Rename the disabled file to the active name.
    Enable,
    /// Rename the active file to the disabled name.
    Disable,
}

/// Whether the folder holds every controller DLL in one form or the other.
pub open spec fn controller_dlls_available(files: Seq<ControllerDllPresence>) -> bool {
    forall|i: int| 0 <= i < files.len() ==> (#[trigger] files[i]).active || files[i].disabled
}

/// What to do with a DLL to turn the controller DLLs on (`enabled`) or
/// off: a file present only in the other form is renamed.
pub open spec fn rename_for(f: ControllerDllPresence, enabled: bool) -> ControllerDllRename {
    if enabled {
        if f.disabled && !f.active {
            ControllerDllRename::Enable
        } else {
            ControllerDllRename::Keep
        }
    } else if f.active && !f.disabled {
        ControllerDllRename::Disable
    } else {
        ControllerDllRename::Keep
    }
}

/// Whether the folder holds every controller DLL in one form or the other.
pub fn controller_dlls_present(files: &[ControllerDllPresence]) -> (b: bool)
    ensures
        b == controller_dlls_available(files@),
{
    let mut i: usize = 0;
    while i < files.len()
        invariant
            i <= files@.len(),
            forall|j: int| 0 <= j < i ==> (#[trigger] files@[j]).active || files@[j].disabled,
        decreases files@.len() - i,
    {
        if !files[i].active && !files[i].disabled {
            return false;
        }
        i = i + 1;
    }
    true
}

/// The renames that turn the controller DLLs on (`enabled`) or off, one
/// per DLL in order; none at all unless every DLL is present in one form.
pub fn controller_dll_renames(files: &[ControllerDllPresence], enabled: bool) -> (r: Vec<ControllerDllRename>)
    ensures
        r@.len() == files@.len(),
        forall|i: int|
            0 <= i < files@.len() ==> #[trigger] r@[i] == if controller_dlls_available(files@) {
                rename_for(files@[i], enabled)
            } else {
                ControllerDllRename::Keep
            },
{
    let available = controller_dlls_present(files);
    let mut out: Vec<ControllerDllRename> = Vec::new();
    let mut i: usize = 0;
    while i < files.len()
        invariant
            i <= files@.len(),
            available == controller_dlls_available(files@),
            out@.len() == i,
            forall|j: int|
                0 <= j < i ==> #[trigger] out@[j] == if available {
                    rename_for(files@[j], enabled)
                } else {
                    ControllerDllRename::Keep
                },
        decreases files@.len() - i,
    {
        let f = files[i];
        let step = if !available {
            ControllerDllRename::Keep
        } else if enabled {
            if f.disabled && !f.active {
                ControllerDllRename::Enable
            } else {
                ControllerDllRename::Keep
            }
        } else if f.active && !f.disabled {
            ControllerDllRename::Disable
        } else {
            ControllerDllRename::Keep
        };
        out.push(step);
        i = i + 1;
    }
    out
}

/// The controller DLL file names, in the order the folder is checked.
pub fn controller_dll_files() -> (v: Vec<&'static str>)
    ensures
        v@.map_values(|s: &str| s@) == controller_dll_file_names(),
{
    let mut v: Vec<&'static str> = Vec::new();
    v.push("XInput1_3.dll");
    v.push("Dinput.dll");
    v.push("Dinput8.dll");
    assert(v@.map_values(|s: &str| s@) =~= controller_dll_file_names());
    v
}

/// What the launcher finds out before choosing how to play interface
/// sounds on Linux.
#[derive(Debug, Clone, Copy)]
pub struct AudioProbe {
    pub is_wsl: bool,
    pub pulsesink: bool,
    pub pulse_server: bool,
    pub pipewiresink: bool,
    pub pipewire_server: bool,
    pub fakesink: bool,
}

/// Whether the environment asks for silent interface sounds: "1" or
/// "true" in any case.
pub open spec fn silent_requested_spec(value: Option<Seq<char>>) -> bool {
    match value {
        Some(v) => v == "1"@ || ascii_lower_seq(v) == "true"@,
        None => false,
    }
}

/// Whether the environment asks for silent interface sounds.
pub fn sfx_silent_requested(value: Option<&str>) -> (b: bool)
    ensures
        b == silent_requested_spec(
            match value {
                Some(v) => Some(v@),
                None => None,
            },
        ),
{
    match value {
        None => false,
        Some(v) => {
            let chars = str_chars(v);
            let lower = lower_chars(chars.as_slice());
            let lowered = string_from_chars(lower.as_slice());
            crate::text::str_eq(v, "1") || crate::text::str_eq(lowered.as_str(), "true")
        },
    }
}

/// The GStreamer sink for interface sounds: PulseAudio where its sink and
/// server are there, else PipeWire outside WSL where its sink and server
/// are there, else the silent sink when silence is asked for and it is
/// there, else none.
pub open spec fn audio_sink_spec(p: AudioProbe, silent: bool) -> Option<Seq<char>> {
    if p.pulsesink && p.pulse_server {
        Some("pulsesink"@)
    } else if !p.is_wsl && p.pipewiresink && p.pipewire_server {
        Some("pipewiresink"@)
    } else if silent && p.fakesink {
        Some("fakesink"@)
    } else {
        None
    }
}

/// The GStreamer sink for interface sounds.
pub fn preferred_ui_audio_sink(p: AudioProbe, silent: bool) -> (r: Option<&'static str>)
    ensures
        match r {
            Some(s) => audio_sink_spec(p, silent) == Some(s@),
            None => audio_sink_spec(p, silent) is None,
        },
{
    if p.is_wsl && p.pulsesink && p.pulse_server {
        Some("pulsesink")
    } else if p.pulsesink && p.pulse_server {
        Some("pulsesink")
    } else if !p.is_wsl && p.pipewiresink && p.pipewire_server {
        Some("pipewiresink")
    } else if silent && p.fakesink {
        Some("fakesink")
    } else {
        None
    }
}

/// Where the portable Wine prefix lives, relative to the game folder.
pub const WINE_PREFIX_DIR: &'static str = "Mezeporta/WinePrefix";

/// `rel` joined onto `base` as a path: an absolute `rel` replaces `base`;
/// otherwise a slash goes between them unless `base` is empty or ends in
/// one.
pub open spec fn join_path(base: Seq<char>, rel: Seq<char>) -> Seq<char> {
    if rel.len() > 0 && rel[0] == '/' {
        rel
    } else if base.len() == 0 || base[base.len() - 1] == '/' {
        base + rel
    } else {
        base + "/"@ + rel
    }
}

/// `rel` joined onto `base` as a path.
pub fn join_path_text(base: &str, rel: &str) -> (r: String)
    ensures
        r@ == join_path(base@, rel@),
{
    let b = str_chars(base);
    let rchars = str_chars(rel);
    if rchars.len() > 0 && rchars[0] == '/' {
        return string_from_chars(rchars.as_slice());
    }
    let mut out = string_from_chars(b.as_slice());
    if b.len() == 0 || b[b.len() - 1] == '/' {
        out.append(rel);
    } else {
        out.append("/");
        out.append(rel);
    }
    out
}

/// A path as the user typed it with "~" standing for the home folder:
/// none when blank; "~" alone is the home folder; "~/" and the rest is the
/// rest under the home folder; anything else is the trimmed text.  Without
/// a home folder the first two give none.
pub open spec fn expand_home_spec(path: Seq<char>, home: Option<Seq<char>>) -> Option<Seq<char>> {
    let t = trim_spec(path);
    if t.len() == 0 {
        None
    } else if t == "~"@ {
        home
    } else if starts_with(t, "~/"@) {
        match home {
            Some(h) => Some(join_path(h, t.subrange(2, t.len() as int))),
            None => None,
        }
    } else {
        Some(t)
    }
}

/// A path with "~" standing for the home folder `home`.
pub fn expand_home_path(path: &str, home: Option<&str>) -> (r: Option<String>)
    ensures
        opt_string(r) == expand_home_spec(path@, opt_str(home)),
{
    let chars = str_chars(path);
    let t = trim_chars(chars.as_slice());
    if t.len() == 0 {
        return None;
    }
    let trimmed = string_from_chars(t.as_slice());
    if crate::text::str_eq(trimmed.as_str(), "~") {
        return match home {
            Some(h) => Some(string_from_chars(str_chars(h).as_slice())),
            None => None,
        };
    }
    let prefix = str_chars("~/");
    proof {
        reveal_strlit("~/");
    }
    if chars_start_with(t.as_slice(), prefix.as_slice()) {
        return match home {
            Some(h) => {
                let rest = crate::text::slice_chars(t.as_slice(), 2, t.len());
                let rest_text = string_from_chars(rest.as_slice());
                Some(join_path_text(h, rest_text.as_str()))
            },
            None => None,
        };
    }
    Some(trimmed)
}

/// The text of an optional string.
pub open spec fn opt_string(s: Option<String>) -> Option<Seq<char>> {
    match s {
        Some(t) => Some(t@),
        None => None,
    }
}

/// The text of an optional string slice.
pub open spec fn opt_str(s: Option<&str>) -> Option<Seq<char>> {
    match s {
        Some(t) => Some(t@),
        None => None,
    }
}

/// The first of two settings that is not blank, else `fallback`.
pub open spec fn first_set_spec(a: Option<Seq<char>>, b: Option<Seq<char>>, fallback: Seq<char>) -> Seq<char> {
    match a {
        Some(x) if trim_spec(x).len() > 0 => x,
        _ => match b {
            Some(y) if trim_spec(y).len() > 0 => y,
            _ => fallback,
        },
    }
}

/// `value` when it is set and not blank.
fn set_value(value: Option<&str>) -> (r: Option<String>)
    ensures
        match value {
            Some(v) if trim_spec(v@).len() > 0 => r matches Some(s) && s@ == v@,
            _ => r is None,
        },
{
    match value {
        Some(v) => {
            let chars = str_chars(v);
            let t = trim_chars(chars.as_slice());
            if t.len() > 0 {
                Some(string_from_chars(chars.as_slice()))
            } else {
                None
            }
        },
        None => None,
    }
}

/// The Wine command: the launcher's own setting (`MEZEPORTA_WINE_CMD`),
/// else the game's (`MHF_WINE_CMD`), else "wine"; blank settings count as
/// unset.
pub fn resolve_wine_command(launcher_setting: Option<&str>, game_setting: Option<&str>) -> (r: String)
    ensures
        r@ == first_set_spec(opt_str(launcher_setting), opt_str(game_setting), "wine"@),
{
    match set_value(launcher_setting) {
        Some(v) => v,
        None => match set_value(game_setting) {
            Some(v) => v,
            None => "wine".to_string(),
        },
    }
}

/// The Proton command: the launcher's own setting (`MEZEPORTA_PROTON_CMD`),
/// else `PROTON_CMD`, else "proton"; blank settings count as unset.
pub fn resolve_proton_command(launcher_setting: Option<&str>, proton_setting: Option<&str>) -> (r: String)
    ensures
        r@ == first_set_spec(opt_str(launcher_setting), opt_str(proton_setting), "proton"@),
{
    match set_value(launcher_setting) {
        Some(v) => v,
        None => match set_value(proton_setting) {
            Some(v) => v,
            None => "proton".to_string(),
        },
    }
}

/// The Wine prefix for a launch: none for the system and Proton modes (they
/// bring their own); the custom path with "~" expanded for the custom mode
/// (an error when it is missing or blank); the portable prefix in the game
/// folder otherwise.
pub open spec fn wine_prefix_spec(
    mode: Seq<char>,
    custom_path: Option<Seq<char>>,
    game_root: Seq<char>,
    home: Option<Seq<char>>,
) -> Result<Option<Seq<char>>, Seq<char>> {
    let m = crate::launcher::wine_prefix_mode_spec(mode);
    if m == "system"@ || m == "proton"@ {
        Ok(None)
    } else if m == "custom"@ {
        match custom_path {
            None => Err("custom Wine prefix path is empty"@),
            Some(p) => match expand_home_spec(p, home) {
                Some(x) => Ok(Some(x)),
                None => Err("custom Wine prefix path is empty"@),
            },
        }
    } else {
        Ok(Some(join_path(game_root, "Mezeporta/WinePrefix"@)))
    }
}

/// The Wine prefix for a launch from the game folder `game_root`, the
/// prefix mode and custom path of the launcher preferences, and the home
/// folder.
pub fn resolve_wine_prefix(mode: &str, custom_path: Option<&str>, game_root: &str, home: Option<&str>) -> (r:
    Result<Option<String>, String>)
    ensures
        match wine_prefix_spec(mode@, opt_str(custom_path), game_root@, opt_str(home)) {
            Ok(p) => r matches Ok(x) && opt_string(x) == p,
            Err(m) => r matches Err(e) && e@ == m,
        },
{
    let m = crate::launcher::normalize_wine_prefix_mode(mode);
    if crate::text::str_eq(m.as_str(), "system") || crate::text::str_eq(m.as_str(), "proton") {
        Ok(None)
    } else if crate::text::str_eq(m.as_str(), "custom") {
        match custom_path {
            None => Err("custom Wine prefix path is empty".to_string()),
            Some(p) => match expand_home_path(p, home) {
                Some(x) => Ok(Some(x)),
                None => Err("custom Wine prefix path is empty".to_string()),
            },
        }
    } else {
        Ok(Some(join_path_text(game_root, WINE_PREFIX_DIR)))
    }
}

/// The folders the search path must hold for the runtime's tools.
pub open spec fn default_search_dirs() -> Seq<Seq<char>> {
    seq!["/usr/local/sbin"@, "/usr/local/bin"@, "/usr/sbin"@, "/usr/bin"@, "/sbin"@, "/bin"@]
}

/// `paths` with each default folder of `defaults[k..]` that is missing
/// appended in order.
pub open spec fn with_defaults_from(paths: Seq<Seq<char>>, defaults: Seq<Seq<char>>) -> Seq<Seq<char>>
    decreases defaults.len(),
{
    if defaults.len() == 0 {
        paths
    } else {
        let next = if paths.contains(defaults[0]) {
            paths
        } else {
            paths.push(defaults[0])
        };
        with_defaults_from(next, defaults.drop_first())
    }
}

/// Whether `list` holds `e`.
fn has_dir(list: &Vec<String>, e: &str) -> (b: bool)
    ensures
        b == list@.map_values(|s: String| s@).contains(e@),
{
    let ghost vs = list@.map_values(|s: String| s@);
    let mut i: usize = 0;
    while i < list.len()
        invariant
            i <= list@.len(),
            vs == list@.map_values(|s: String| s@),
            forall|j: int| 0 <= j < i ==> vs[j] != e@,
        decreases list@.len() - i,
    {
        if crate::text::str_eq(list[i].as_str(), e) {
            assert(vs[i as int] == e@);
            return true;
        }
        i = i + 1;
    }
    false
}

/// The search path with the standard folders appended where missing, and
/// whether any was appended.
pub fn search_path_with_defaults(paths: Vec<String>) -> (r: (Vec<String>, bool))
    ensures
        r.0@.map_values(|s: String| s@) == with_defaults_from(paths@.map_values(|s: String| s@), default_search_dirs()),
        r.1 == (r.0@.len() != paths@.len()),
{
    let defaults: [&str; 6] = ["/usr/local/sbin", "/usr/local/bin", "/usr/sbin", "/usr/bin", "/sbin", "/bin"];
    let ghost ds = default_search_dirs();
    assert(defaults@.map_values(|s: &str| s@) =~= ds);
    let ghost start = paths@.map_values(|s: String| s@);
    let start_len = paths.len();
    let mut out = paths;
    let mut k: usize = 0;
    assert(ds.subrange(0, 6) =~= ds);
    while k < 6
        invariant
            k <= 6,
            ds == default_search_dirs(),
            defaults@.map_values(|s: &str| s@) == ds,
            out@.len() >= start.len(),
            start.len() == start_len,
            with_defaults_from(start, ds) == with_defaults_from(
                out@.map_values(|s: String| s@),
                ds.subrange(k as int, 6),
            ),
        decreases 6 - k,
    {
        let ghost rest = ds.subrange(k as int, 6);
        assert(rest.drop_first() =~= ds.subrange(k + 1, 6));
        assert(rest[0] == defaults@[k as int]@);
        let d: &str = defaults[k];
        if !has_dir(&out, d) {
            let ghost before = out@.map_values(|s: String| s@);
            out.push(d.to_string());
            assert(out@.map_values(|s: String| s@) =~= before.push(d@));
        }
        k = k + 1;
    }
    assert(ds.subrange(6, 6) =~= Seq::<Seq<char>>::empty());
    let changed = out.len() != start_len;
    (out, changed)
}

/// Completing a search path keeps what it held and adds every default
/// folder.
proof fn lemma_defaults_added(paths: Seq<Seq<char>>, defaults: Seq<Seq<char>>)
    ensures
        forall|x: Seq<char>| paths.contains(x) ==> #[trigger] with_defaults_from(paths, defaults).contains(x),
        forall|x: Seq<char>| defaults.contains(x) ==> #[trigger] with_defaults_from(paths, defaults).contains(x),
    decreases defaults.len(),
{
    if defaults.len() > 0 {
        let next = if paths.contains(defaults[0]) {
            paths
        } else {
            paths.push(defaults[0])
        };
        lemma_defaults_added(next, defaults.drop_first());
        let result = with_defaults_from(paths, defaults);
        assert(result == with_defaults_from(next, defaults.drop_first()));
        assert forall|x: Seq<char>| paths.contains(x) implies #[trigger] result.contains(x) by {
            let k = choose|k: int| 0 <= k < paths.len() && paths[k] == x;
            assert(next[k] == x);
            assert(next.contains(x));
        }
        assert forall|x: Seq<char>| defaults.contains(x) implies #[trigger] result.contains(x) by {
            let k = choose|k: int| 0 <= k < defaults.len() && defaults[k] == x;
            if k > 0 {
                assert(defaults.drop_first()[k - 1] == x);
                assert(defaults.drop_first().contains(x));
            } else if !paths.contains(defaults[0]) {
                assert(next[paths.len() as int] == defaults[0]);
                assert(next.contains(x));
            } else {
                assert(next.contains(x));
            }
        }
    }
}

/// A search path that holds every default folder is left as it is.
proof fn lemma_defaults_present(paths: Seq<Seq<char>>, defaults: Seq<Seq<char>>)
    requires
        forall|x: Seq<char>| defaults.contains(x) ==> #[trigger] paths.contains(x),
    ensures
        with_defaults_from(paths, defaults) == paths,
    decreases defaults.len(),
{
    if defaults.len() > 0 {
        assert(defaults.contains(defaults[0]));
        assert forall|x: Seq<char>| defaults.drop_first().contains(x) implies #[trigger] paths.contains(x) by {
            let k = choose|k: int| 0 <= k < defaults.drop_first().len() && defaults.drop_first()[k] == x;
            assert(defaults[k + 1] == x);
        }
        lemma_defaults_present(paths, defaults.drop_first());
    }
}

/// Completing a search path a second time changes nothing.
pub proof fn lemma_search_path_complete_stable(paths: Seq<Seq<char>>)
    ensures
        with_defaults_from(with_defaults_from(paths, default_search_dirs()), default_search_dirs())
            == with_defaults_from(paths, default_search_dirs()),
{
    lemma_defaults_added(paths, default_search_dirs());
    lemma_defaults_present(with_defaults_from(paths, default_search_dirs()), default_search_dirs());
}

} // verus!
