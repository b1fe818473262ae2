//! The game's own settings, kept in its ini file: which setting lives under
//! which section and key, how a new value is written there, and what a
//! missing value defaults to.
use configparser::ini::Ini;
use vstd::prelude::*;

use crate::text::{ascii_lower_seq, decimal, str_eq};

verus! {

/// The game's settings, as the launcher shows them.
#[derive(Debug, Default)]
pub struct Settings {
    pub hd_version: bool,
    pub fullscreen: bool,
    pub fullscreen_w: i32,
    pub fullscreen_h: i32,
    pub window_w: i32,
    pub window_h: i32,
    pub brightness: i32,
    pub max_char_display: i32,
    pub texture_compression: bool,
    pub match_monitor_resolution: bool,
    pub disable_sound_output: bool,
    pub sound: i32,
    pub sound_unfocused: i32,
    pub sound_minimized: i32,
    pub sound_frequency: i32,
    pub sound_buffer_num: i32,
    pub game_bgm_volume: i32,
    pub game_se_volume: i32,
    pub controller_vibration: bool,
    pub hd_graphic_shadow_quest: bool,
    pub hd_graphic_shadow_lobby: bool,
    pub hd_graphic_dof: bool,
    pub hd_graphic_bloom: bool,
    pub hd_graphic_ssao: bool,
    pub hd_graphic_godray: bool,
    pub hd_graphic_anti_aliasing: bool,
    pub hd_graphic_soft_particle: bool,
    pub hd_graphic_dof_far_blur_size: i32,
    pub hd_graphic_bloom_dispersion: i32,
    pub hd_graphic_bloom_threshold: i32,
    pub hd_graphic_bloom_color: i32,
    pub hd_graphic_gaussian_blur_dispersion: i32,
    pub hd_graphic_gaussian_blur_blend_rate: i32,
    pub hd_graphic_ssao_density: i32,
    pub hd_graphic_shadowmap_color: i32,
    pub hd_graphic_pl_light_shadow_attenuation: i32,
    pub hd_graphic_bg_light_shadow_attenuation: i32,
    pub hd_graphic_anti_aliasing_weight_scale: i32,
}

/// A value the front end sends for a setting: a flag, a number (as its
/// decimal text), or something else.
#[derive(Debug)]
pub enum SettingValue {
    Bool(bool),
    Number(String),
    Other,
}

/// Where a setting is written in the ini file, and the text written.
#[derive(Debug)]
pub struct SettingEntry {
    pub section: &'static str,
    pub key: &'static str,
    pub value: String,
}

/// Where a setting lives: its section, its key, and whether it is a flag
/// (else a number).
pub open spec fn setting_slot(name: Seq<char>) -> Option<(Seq<char>, Seq<char>, bool)> {
    if name == "hdVersion"@ {
        Some(("VIDEO"@, "GRAPHICS_VER"@, true))
    } else if name == "fullscreen"@ {
        Some(("SCREEN"@, "FULLSCREEN_MODE"@, true))
    } else if name == "fullscreenW"@ {
        Some(("SCREEN"@, "FULLSCREEN_RESOLUTION_W"@, false))
    } else if name == "fullscreenH"@ {
        Some(("SCREEN"@, "FULLSCREEN_RESOLUTION_H"@, false))
    } else if name == "windowW"@ {
        Some(("SCREEN"@, "WINDOW_RESOLUTION_W"@, false))
    } else if name == "windowH"@ {
        Some(("SCREEN"@, "WINDOW_RESOLUTION_H"@, false))
    } else if name == "brightness"@ {
        Some(("SCREEN"@, "BRIGHT"@, false))
    } else if name == "maxCharDisplay"@ {
        Some(("VIDEO"@, "DISP_MAX_CHAR"@, false))
    } else if name == "textureCompression"@ {
        Some(("VIDEO"@, "TEXTURE_DXT_USE"@, true))
    } else if name == "matchMonitorResolution"@ {
        Some(("VIDEO"@, "NOW_MONITOR_WH"@, true))
    } else if name == "disableSoundOutput"@ {
        Some(("SOUND"@, "SOUND_NOTUSE"@, true))
    } else if name == "sound"@ {
        Some(("SOUND"@, "SOUND_VOLUME"@, false))
    } else if name == "soundUnfocused"@ {
        Some(("SOUND"@, "SOUND_VOLUME_INACTIVITY"@, false))
    } else if name == "soundMinimized"@ {
        Some(("SOUND"@, "SOUND_VOLUME_MINIMIZE"@, false))
    } else if name == "soundFrequency"@ {
        Some(("SOUND"@, "SOUND_FREQUENCY"@, false))
    } else if name == "soundBufferNum"@ {
        Some(("SOUND"@, "SOUND_BUFFERNUM"@, false))
    } else if name == "gameBgmVolume"@ {
        Some(("SOUND"@, "SOUND_BGM"@, false))
    } else if name == "gameSeVolume"@ {
        Some(("SOUND"@, "SOUND_SE"@, false))
    } else if name == "controllerVibration"@ {
        Some(("OPTION"@, "VIBRATION"@, true))
    } else if name == "hdGraphicShadowQuest"@ {
        Some(("OPTION"@, "90C_GRAPHIC_SHADOW_QUEST"@, true))
    } else if name == "hdGraphicShadowLobby"@ {
        Some(("OPTION"@, "90C_GRAPHIC_SHADOW_LOBBY"@, true))
    } else if name == "hdGraphicDof"@ {
        Some(("OPTION"@, "90C_GRAPHIC_DOF"@, true))
    } else if name == "hdGraphicBloom"@ {
        Some(("OPTION"@, "90C_GRAPHIC_BLOOM"@, true))
    } else if name == "hdGraphicSsao"@ {
        Some(("OPTION"@, "90C_GRAPHIC_SSAO"@, true))
    } else if name == "hdGraphicGodray"@ {
        Some(("OPTION"@, "90C_GRAPHIC_GODRAY"@, true))
    } else if name == "hdGraphicAntiAliasing"@ {
        Some(("OPTION"@, "90C_GRAPHIC_ANTI_ALIASING"@, true))
    } else if name == "hdGraphicSoftParticle"@ {
        Some(("OPTION"@, "90C_GRAPHIC_SOFTPARTICLE"@, true))
    } else if name == "hdGraphicDofFarBlurSize"@ {
        Some(("OPTION"@, "90C_GRAPHIC_DOF_FARBLURSIZE"@, false))
    } else if name == "hdGraphicBloomDispersion"@ {
        Some(("OPTION"@, "90C_GRAPHIC_BLOOM_DISPERSION"@, false))
    } else if name == "hdGraphicBloomThreshold"@ {
        Some(("OPTION"@, "90C_GRAPHIC_BLOOM_THRESHOLD"@, false))
    } else if name == "hdGraphicBloomColor"@ {
        Some(("OPTION"@, "90C_GRAPHIC_BLOOM_COLOR"@, false))
    } else if name == "hdGraphicGaussianBlurDispersion"@ {
        Some(("OPTION"@, "90C_GRAPHIC_GAUSSIANBLUR_DISPERSION"@, false))
    } else if name == "hdGraphicGaussianBlurBlendRate"@ {
        Some(("OPTION"@, "90C_GRAPHIC_GAUSSIANBLUR_BLENDRATE"@, false))
    } else if name == "hdGraphicSsaoDensity"@ {
        Some(("OPTION"@, "90C_GRAPHIC_SSAO_DENSITY"@, false))
    } else if name == "hdGraphicShadowmapColor"@ {
        Some(("OPTION"@, "90C_GRAPHIC_SHADOWMAP_COLOR"@, false))
    } else if name == "hdGraphicPlLightShadowAttenuation"@ {
        Some(("OPTION"@, "90C_GRAPHIC_PLLIGHT_SHADOWATTENUATION"@, false))
    } else if name == "hdGraphicBgLightShadowAttenuation"@ {
        Some(("OPTION"@, "90C_GRAPHIC_BGLIGHT_SHADOWATTENUATION"@, false))
    } else if name == "hdGraphicAntiAliasingWeightScale"@ {
        Some(("OPTION"@, "90C_GRAPHIC_ANTI_ALIASING_WEIGHTSCALE"@, false))
    } else {
        None
    }
}

/// The text a flag is written as: "1" or "0".
pub open spec fn flag_text(b: bool) -> Seq<char> {
    if b {
        "1"@
    } else {
        "0"@
    }
}

/// What is written for setting `name` given `value`: flags take a flag,
/// numbers a number; anything else, or an unknown name, writes nothing.
pub open spec fn setting_entry_spec(name: Seq<char>, value: SettingValue) -> Option<
    (Seq<char>, Seq<char>, Seq<char>),
> {
    match setting_slot(name) {
        None => None,
        Some((section, key, is_flag)) => if is_flag {
            match value {
                SettingValue::Bool(b) => Some((section, key, flag_text(b))),
                _ => None,
            }
        } else {
            match value {
                SettingValue::Number(t) => Some((section, key, t@)),
                _ => None,
            }
        },
    }
}

/// The text a flag is written as.
pub fn bool_string(value: bool) -> (s: String)
    ensures
        s@ == flag_text(value),
{
    if value {
        "1".to_string()
    } else {
        "0".to_string()
    }
}

/// The number's text, for a number.
pub fn number_string(value: SettingValue) -> (r: Option<String>)
    ensures
        match value {
            SettingValue::Number(t) => r == Some(t),
            _ => r is None,
        },
{
    match value {
        SettingValue::Number(t) => Some(t),
        _ => None,
    }
}

/// A flag setting's entry.
fn flag_entry(section: &'static str, key: &'static str, value: SettingValue) -> (r: Option<SettingEntry>)
    ensures
        match value {
            SettingValue::Bool(b) => r matches Some(e) && e.section@ == section@ && e.key@ == key@
                && e.value@ == flag_text(b),
            _ => r is None,
        },
{
    match value {
        SettingValue::Bool(b) => Some(SettingEntry { section, key, value: bool_string(b) }),
        _ => None,
    }
}

/// A number setting's entry.
fn number_entry(section: &'static str, key: &'static str, value: SettingValue) -> (r: Option<SettingEntry>)
    ensures
        match value {
            SettingValue::Number(t) => r matches Some(e) && e.section@ == section@ && e.key@
                == key@ && e.value@ == t@,
            _ => r is None,
        },
{
    match number_string(value) {
        Some(v) => Some(SettingEntry { section, key, value: v }),
        None => None,
    }
}

/// Where and how setting `name` is written for `value`; `None` for an
/// unknown setting or a value of the wrong kind.
pub fn setting_entry(name: &str, value: SettingValue) -> (r: Option<SettingEntry>)
    ensures
        match setting_entry_spec(name@, value) {
            Some((s, k, v)) => r matches Some(e) && e.section@ == s && e.key@ == k && e.value@ == v,
            None => r is None,
        },
{
    if str_eq(name, "hdVersion") {
        flag_entry("VIDEO", "GRAPHICS_VER", value)
    } else if str_eq(name, "fullscreen") {
        flag_entry("SCREEN", "FULLSCREEN_MODE", value)
    } else if str_eq(name, "fullscreenW") {
        number_entry("SCREEN", "FULLSCREEN_RESOLUTION_W", value)
    } else if str_eq(name, "fullscreenH") {
        number_entry("SCREEN", "FULLSCREEN_RESOLUTION_H", value)
    } else if str_eq(name, "windowW") {
        number_entry("SCREEN", "WINDOW_RESOLUTION_W", value)
    } else if str_eq(name, "windowH") {
        number_entry("SCREEN", "WINDOW_RESOLUTION_H", value)
    } else if str_eq(name, "brightness") {
        number_entry("SCREEN", "BRIGHT", value)
    } else if str_eq(name, "maxCharDisplay") {
        number_entry("VIDEO", "DISP_MAX_CHAR", value)
    } else if str_eq(name, "textureCompression") {
        flag_entry("VIDEO", "TEXTURE_DXT_USE", value)
    } else if str_eq(name, "matchMonitorResolution") {
        flag_entry("VIDEO", "NOW_MONITOR_WH", value)
    } else if str_eq(name, "disableSoundOutput") {
        flag_entry("SOUND", "SOUND_NOTUSE", value)
    } else if str_eq(name, "sound") {
        number_entry("SOUND", "SOUND_VOLUME", value)
    } else if str_eq(name, "soundUnfocused") {
        number_entry("SOUND", "SOUND_VOLUME_INACTIVITY", value)
    } else if str_eq(name, "soundMinimized") {
        number_entry("SOUND", "SOUND_VOLUME_MINIMIZE", value)
    } else if str_eq(name, "soundFrequency") {
        number_entry("SOUND", "SOUND_FREQUENCY", value)
    } else if str_eq(name, "soundBufferNum") {
        number_entry("SOUND", "SOUND_BUFFERNUM", value)
    } else if str_eq(name, "gameBgmVolume") {
        number_entry("SOUND", "SOUND_BGM", value)
    } else if str_eq(name, "gameSeVolume") {
        number_entry("SOUND", "SOUND_SE", value)
    } else if str_eq(name, "controllerVibration") {
        flag_entry("OPTION", "VIBRATION", value)
    } else if str_eq(name, "hdGraphicShadowQuest") {
        flag_entry("OPTION", "90C_GRAPHIC_SHADOW_QUEST", value)
    } else if str_eq(name, "hdGraphicShadowLobby") {
        flag_entry("OPTION", "90C_GRAPHIC_SHADOW_LOBBY", value)
    } else if str_eq(name, "hdGraphicDof") {
        flag_entry("OPTION", "90C_GRAPHIC_DOF", value)
    } else if str_eq(name, "hdGraphicBloom") {
        flag_entry("OPTION", "90C_GRAPHIC_BLOOM", value)
    } else if str_eq(name, "hdGraphicSsao") {
        flag_entry("OPTION", "90C_GRAPHIC_SSAO", value)
    } else if str_eq(name, "hdGraphicGodray") {
        flag_entry("OPTION", "90C_GRAPHIC_GODRAY", value)
    } else if str_eq(name, "hdGraphicAntiAliasing") {
        flag_entry("OPTION", "90C_GRAPHIC_ANTI_ALIASING", value)
    } else if str_eq(name, "hdGraphicSoftParticle") {
        flag_entry("OPTION", "90C_GRAPHIC_SOFTPARTICLE", value)
    } else if str_eq(name, "hdGraphicDofFarBlurSize") {
        number_entry("OPTION", "90C_GRAPHIC_DOF_FARBLURSIZE", value)
    } else if str_eq(name, "hdGraphicBloomDispersion") {
        number_entry("OPTION", "90C_GRAPHIC_BLOOM_DISPERSION", value)
    } else if str_eq(name, "hdGraphicBloomThreshold") {
        number_entry("OPTION", "90C_GRAPHIC_BLOOM_THRESHOLD", value)
    } else if str_eq(name, "hdGraphicBloomColor") {
        number_entry("OPTION", "90C_GRAPHIC_BLOOM_COLOR", value)
    } else if str_eq(name, "hdGraphicGaussianBlurDispersion") {
        number_entry("OPTION", "90C_GRAPHIC_GAUSSIANBLUR_DISPERSION", value)
    } else if str_eq(name, "hdGraphicGaussianBlurBlendRate") {
        number_entry("OPTION", "90C_GRAPHIC_GAUSSIANBLUR_BLENDRATE", value)
    } else if str_eq(name, "hdGraphicSsaoDensity") {
        number_entry("OPTION", "90C_GRAPHIC_SSAO_DENSITY", value)
    } else if str_eq(name, "hdGraphicShadowmapColor") {
        number_entry("OPTION", "90C_GRAPHIC_SHADOWMAP_COLOR", value)
    } else if str_eq(name, "hdGraphicPlLightShadowAttenuation") {
        number_entry("OPTION", "90C_GRAPHIC_PLLIGHT_SHADOWATTENUATION", value)
    } else if str_eq(name, "hdGraphicBgLightShadowAttenuation") {
        number_entry("OPTION", "90C_GRAPHIC_BGLIGHT_SHADOWATTENUATION", value)
    } else if str_eq(name, "hdGraphicAntiAliasingWeightScale") {
        number_entry("OPTION", "90C_GRAPHIC_ANTI_ALIASING_WEIGHTSCALE", value)
    } else {
        None
    }
}

/// The section and key of each setting, in the order of the fields of
/// `Settings`.
pub open spec fn settings_keys_spec() -> Seq<(Seq<char>, Seq<char>)> {
    seq![
        ("VIDEO"@, "GRAPHICS_VER"@),
        ("SCREEN"@, "FULLSCREEN_MODE"@),
        ("SCREEN"@, "FULLSCREEN_RESOLUTION_W"@),
        ("SCREEN"@, "FULLSCREEN_RESOLUTION_H"@),
        ("SCREEN"@, "WINDOW_RESOLUTION_W"@),
        ("SCREEN"@, "WINDOW_RESOLUTION_H"@),
        ("SCREEN"@, "BRIGHT"@),
        ("VIDEO"@, "DISP_MAX_CHAR"@),
        ("VIDEO"@, "TEXTURE_DXT_USE"@),
        ("VIDEO"@, "NOW_MONITOR_WH"@),
        ("SOUND"@, "SOUND_NOTUSE"@),
        ("SOUND"@, "SOUND_VOLUME"@),
        ("SOUND"@, "SOUND_VOLUME_INACTIVITY"@),
        ("SOUND"@, "SOUND_VOLUME_MINIMIZE"@),
        ("SOUND"@, "SOUND_FREQUENCY"@),
        ("SOUND"@, "SOUND_BUFFERNUM"@),
        ("SOUND"@, "SOUND_BGM"@),
        ("SOUND"@, "SOUND_SE"@),
        ("OPTION"@, "VIBRATION"@),
        ("OPTION"@, "90C_GRAPHIC_SHADOW_QUEST"@),
        ("OPTION"@, "90C_GRAPHIC_SHADOW_LOBBY"@),
        ("OPTION"@, "90C_GRAPHIC_DOF"@),
        ("OPTION"@, "90C_GRAPHIC_BLOOM"@),
        ("OPTION"@, "90C_GRAPHIC_SSAO"@),
        ("OPTION"@, "90C_GRAPHIC_GODRAY"@),
        ("OPTION"@, "90C_GRAPHIC_ANTI_ALIASING"@),
        ("OPTION"@, "90C_GRAPHIC_SOFTPARTICLE"@),
        ("OPTION"@, "90C_GRAPHIC_DOF_FARBLURSIZE"@),
        ("OPTION"@, "90C_GRAPHIC_BLOOM_DISPERSION"@),
        ("OPTION"@, "90C_GRAPHIC_BLOOM_THRESHOLD"@),
        ("OPTION"@, "90C_GRAPHIC_BLOOM_COLOR"@),
        ("OPTION"@, "90C_GRAPHIC_GAUSSIANBLUR_DISPERSION"@),
        ("OPTION"@, "90C_GRAPHIC_GAUSSIANBLUR_BLENDRATE"@),
        ("OPTION"@, "90C_GRAPHIC_SSAO_DENSITY"@),
        ("OPTION"@, "90C_GRAPHIC_SHADOWMAP_COLOR"@),
        ("OPTION"@, "90C_GRAPHIC_PLLIGHT_SHADOWATTENUATION"@),
        ("OPTION"@, "90C_GRAPHIC_BGLIGHT_SHADOWATTENUATION"@),
        ("OPTION"@, "90C_GRAPHIC_ANTI_ALIASING_WEIGHTSCALE"@),
    ]
}

/// The section and key of each setting, in the order of the fields of
/// `Settings`.
pub fn settings_keys() -> (v: Vec<(&'static str, &'static str)>)
    ensures
        v@.len() == settings_keys_spec().len(),
        forall|i: int|
            0 <= i < v@.len() ==> (#[trigger] v@[i]).0@ == settings_keys_spec()[i].0 && v@[i].1@
                == settings_keys_spec()[i].1,
{
    let mut v: Vec<(&'static str, &'static str)> = Vec::new();
    v.push(("VIDEO", "GRAPHICS_VER"));
    v.push(("SCREEN", "FULLSCREEN_MODE"));
    v.push(("SCREEN", "FULLSCREEN_RESOLUTION_W"));
    v.push(("SCREEN", "FULLSCREEN_RESOLUTION_H"));
    v.push(("SCREEN", "WINDOW_RESOLUTION_W"));
    v.push(("SCREEN", "WINDOW_RESOLUTION_H"));
    v.push(("SCREEN", "BRIGHT"));
    v.push(("VIDEO", "DISP_MAX_CHAR"));
    v.push(("VIDEO", "TEXTURE_DXT_USE"));
    v.push(("VIDEO", "NOW_MONITOR_WH"));
    v.push(("SOUND", "SOUND_NOTUSE"));
    v.push(("SOUND", "SOUND_VOLUME"));
    v.push(("SOUND", "SOUND_VOLUME_INACTIVITY"));
    v.push(("SOUND", "SOUND_VOLUME_MINIMIZE"));
    v.push(("SOUND", "SOUND_FREQUENCY"));
    v.push(("SOUND", "SOUND_BUFFERNUM"));
    v.push(("SOUND", "SOUND_BGM"));
    v.push(("SOUND", "SOUND_SE"));
    v.push(("OPTION", "VIBRATION"));
    v.push(("OPTION", "90C_GRAPHIC_SHADOW_QUEST"));
    v.push(("OPTION", "90C_GRAPHIC_SHADOW_LOBBY"));
    v.push(("OPTION", "90C_GRAPHIC_DOF"));
    v.push(("OPTION", "90C_GRAPHIC_BLOOM"));
    v.push(("OPTION", "90C_GRAPHIC_SSAO"));
    v.push(("OPTION", "90C_GRAPHIC_GODRAY"));
    v.push(("OPTION", "90C_GRAPHIC_ANTI_ALIASING"));
    v.push(("OPTION", "90C_GRAPHIC_SOFTPARTICLE"));
    v.push(("OPTION", "90C_GRAPHIC_DOF_FARBLURSIZE"));
    v.push(("OPTION", "90C_GRAPHIC_BLOOM_DISPERSION"));
    v.push(("OPTION", "90C_GRAPHIC_BLOOM_THRESHOLD"));
    v.push(("OPTION", "90C_GRAPHIC_BLOOM_COLOR"));
    v.push(("OPTION", "90C_GRAPHIC_GAUSSIANBLUR_DISPERSION"));
    v.push(("OPTION", "90C_GRAPHIC_GAUSSIANBLUR_BLENDRATE"));
    v.push(("OPTION", "90C_GRAPHIC_SSAO_DENSITY"));
    v.push(("OPTION", "90C_GRAPHIC_SHADOWMAP_COLOR"));
    v.push(("OPTION", "90C_GRAPHIC_PLLIGHT_SHADOWATTENUATION"));
    v.push(("OPTION", "90C_GRAPHIC_BGLIGHT_SHADOWATTENUATION"));
    v.push(("OPTION", "90C_GRAPHIC_ANTI_ALIASING_WEIGHTSCALE"));
    v
}

/// The value read for a setting, or its default when there is none.
pub open spec fn read_or(v: Option<i64>, default: i64) -> i64 {
    match v {
        Some(x) => x,
        None => default,
    }
}

fn value_or(v: Option<i64>, default: i64) -> (r: i64)
    ensures
        r == read_or(v, default),
{
    match v {
        Some(x) => x,
        None => default,
    }
}

/// The settings made of the integers read from the ini file, one per entry
/// of `settings_keys()` (`None` where the key is missing or not an
/// integer): a flag is on when its number is positive; a number is taken
/// modulo 2^32 as an `i32`; a missing value takes the setting's default.
pub fn settings_from_values(values: &[Option<i64>]) -> (s: Settings)
    requires
        values@.len() == 38,
    ensures
        s.hd_version == (read_or(values@[0], 1) > 0),
        s.fullscreen == (read_or(values@[1], 1) > 0),
        s.fullscreen_w == read_or(values@[2], 1920) as i32,
        s.fullscreen_h == read_or(values@[3], 1080) as i32,
        s.window_w == read_or(values@[4], 1920) as i32,
        s.window_h == read_or(values@[5], 1080) as i32,
        s.brightness == read_or(values@[6], -128i64) as i32,
        s.max_char_display == read_or(values@[7], 100) as i32,
        s.texture_compression == (read_or(values@[8], 0) > 0),
        s.match_monitor_resolution == (read_or(values@[9], 1) > 0),
        s.disable_sound_output == (read_or(values@[10], 0) > 0),
        s.sound == read_or(values@[11], 0) as i32,
        s.sound_unfocused == read_or(values@[12], 0) as i32,
        s.sound_minimized == read_or(values@[13], 0) as i32,
        s.sound_frequency == read_or(values@[14], 48000) as i32,
        s.sound_buffer_num == read_or(values@[15], 2048) as i32,
        s.game_bgm_volume == read_or(values@[16], 5) as i32,
        s.game_se_volume == read_or(values@[17], 7) as i32,
        s.controller_vibration == (read_or(values@[18], 0) > 0),
        s.hd_graphic_shadow_quest == (read_or(values@[19], 1) > 0),
        s.hd_graphic_shadow_lobby == (read_or(values@[20], 0) > 0),
        s.hd_graphic_dof == (read_or(values@[21], 1) > 0),
        s.hd_graphic_bloom == (read_or(values@[22], 1) > 0),
        s.hd_graphic_ssao == (read_or(values@[23], 1) > 0),
        s.hd_graphic_godray == (read_or(values@[24], 1) > 0),
        s.hd_graphic_anti_aliasing == (read_or(values@[25], 1) > 0),
        s.hd_graphic_soft_particle == (read_or(values@[26], 1) > 0),
        s.hd_graphic_dof_far_blur_size == read_or(values@[27], 100) as i32,
        s.hd_graphic_bloom_dispersion == read_or(values@[28], 100) as i32,
        s.hd_graphic_bloom_threshold == read_or(values@[29], 100) as i32,
        s.hd_graphic_bloom_color == read_or(values@[30], 100) as i32,
        s.hd_graphic_gaussian_blur_dispersion == read_or(values@[31], 100) as i32,
        s.hd_graphic_gaussian_blur_blend_rate == read_or(values@[32], 100) as i32,
        s.hd_graphic_ssao_density == read_or(values@[33], 100) as i32,
        s.hd_graphic_shadowmap_color == read_or(values@[34], 100) as i32,
        s.hd_graphic_pl_light_shadow_attenuation == read_or(values@[35], 100) as i32,
        s.hd_graphic_bg_light_shadow_attenuation == read_or(values@[36], 100) as i32,
        s.hd_graphic_anti_aliasing_weight_scale == read_or(values@[37], 100) as i32,
        s == settings_spec(values@),
{
    proof {
        reveal(settings_spec);
    }
    Settings {
        hd_version: value_or(values[0], 1) > 0,
        fullscreen: value_or(values[1], 1) > 0,
        fullscreen_w: value_or(values[2], 1920) as i32,
        fullscreen_h: value_or(values[3], 1080) as i32,
        window_w: value_or(values[4], 1920) as i32,
        window_h: value_or(values[5], 1080) as i32,
        brightness: value_or(values[6], -128) as i32,
        max_char_display: value_or(values[7], 100) as i32,
        texture_compression: value_or(values[8], 0) > 0,
        match_monitor_resolution: value_or(values[9], 1) > 0,
        disable_sound_output: value_or(values[10], 0) > 0,
        sound: value_or(values[11], 0) as i32,
        sound_unfocused: value_or(values[12], 0) as i32,
        sound_minimized: value_or(values[13], 0) as i32,
        sound_frequency: value_or(values[14], 48000) as i32,
        sound_buffer_num: value_or(values[15], 2048) as i32,
        game_bgm_volume: value_or(values[16], 5) as i32,
        game_se_volume: value_or(values[17], 7) as i32,
        controller_vibration: value_or(values[18], 0) > 0,
        hd_graphic_shadow_quest: value_or(values[19], 1) > 0,
        hd_graphic_shadow_lobby: value_or(values[20], 0) > 0,
        hd_graphic_dof: value_or(values[21], 1) > 0,
        hd_graphic_bloom: value_or(values[22], 1) > 0,
        hd_graphic_ssao: value_or(values[23], 1) > 0,
        hd_graphic_godray: value_or(values[24], 1) > 0,
        hd_graphic_anti_aliasing: value_or(values[25], 1) > 0,
        hd_graphic_soft_particle: value_or(values[26], 1) > 0,
        hd_graphic_dof_far_blur_size: value_or(values[27], 100) as i32,
        hd_graphic_bloom_dispersion: value_or(values[28], 100) as i32,
        hd_graphic_bloom_threshold: value_or(values[29], 100) as i32,
        hd_graphic_bloom_color: value_or(values[30], 100) as i32,
        hd_graphic_gaussian_blur_dispersion: value_or(values[31], 100) as i32,
        hd_graphic_gaussian_blur_blend_rate: value_or(values[32], 100) as i32,
        hd_graphic_ssao_density: value_or(values[33], 100) as i32,
        hd_graphic_shadowmap_color: value_or(values[34], 100) as i32,
        hd_graphic_pl_light_shadow_attenuation: value_or(values[35], 100) as i32,
        hd_graphic_bg_light_shadow_attenuation: value_or(values[36], 100) as i32,
        hd_graphic_anti_aliasing_weight_scale: value_or(values[37], 100) as i32,
    }
}

/// The names of the settings, in the order of the fields of `Settings`.
pub open spec fn setting_names() -> Seq<Seq<char>> {
    seq![
        "hdVersion"@,
        "fullscreen"@,
        "fullscreenW"@,
        "fullscreenH"@,
        "windowW"@,
        "windowH"@,
        "brightness"@,
        "maxCharDisplay"@,
        "textureCompression"@,
        "matchMonitorResolution"@,
        "disableSoundOutput"@,
        "sound"@,
        "soundUnfocused"@,
        "soundMinimized"@,
        "soundFrequency"@,
        "soundBufferNum"@,
        "gameBgmVolume"@,
        "gameSeVolume"@,
        "controllerVibration"@,
        "hdGraphicShadowQuest"@,
        "hdGraphicShadowLobby"@,
        "hdGraphicDof"@,
        "hdGraphicBloom"@,
        "hdGraphicSsao"@,
        "hdGraphicGodray"@,
        "hdGraphicAntiAliasing"@,
        "hdGraphicSoftParticle"@,
        "hdGraphicDofFarBlurSize"@,
        "hdGraphicBloomDispersion"@,
        "hdGraphicBloomThreshold"@,
        "hdGraphicBloomColor"@,
        "hdGraphicGaussianBlurDispersion"@,
        "hdGraphicGaussianBlurBlendRate"@,
        "hdGraphicSsaoDensity"@,
        "hdGraphicShadowmapColor"@,
        "hdGraphicPlLightShadowAttenuation"@,
        "hdGraphicBgLightShadowAttenuation"@,
        "hdGraphicAntiAliasingWeightScale"@,
    ]
}

/// Whether the setting at place `i` of the fields of `Settings` is a flag.
pub open spec fn setting_is_flag(i: int) -> bool {
    i == 0 || i == 1 || i == 8 || i == 9 || i == 10 || i == 18 || i == 19 || i == 20 || i == 21 || i == 22 || i == 23 || i == 24 || i == 25 || i == 26
}

/// The place of a setting name among `setting_names`, read off its length
/// and one character (-1 for other texts).
spec fn name_code(s: Seq<char>) -> int {
    if s.len() == 5 {
        11
    } else if s.len() == 7 {
        if s[6] == 'W' {
            4
        } else if s[6] == 'H' {
            5
        } else {
            -1
        }
    } else if s.len() == 9 {
        0
    } else if s.len() == 10 {
        if s[0] == 'f' {
            1
        } else if s[0] == 'b' {
            6
        } else {
            -1
        }
    } else if s.len() == 11 {
        if s[10] == 'W' {
            2
        } else if s[10] == 'H' {
            3
        } else {
            -1
        }
    } else if s.len() == 12 {
        if s[0] == 'g' {
            17
        } else if s[0] == 'h' {
            21
        } else {
            -1
        }
    } else if s.len() == 13 {
        if s[0] == 'g' {
            16
        } else if s[0] == 'h' {
            23
        } else {
            -1
        }
    } else if s.len() == 14 {
        if s[5] == 'a' {
            7
        } else if s[5] == 'U' {
            12
        } else if s[5] == 'M' {
            13
        } else if s[5] == 'F' {
            14
        } else if s[5] == 'B' {
            15
        } else if s[5] == 'p' {
            22
        } else {
            -1
        }
    } else if s.len() == 15 {
        24
    } else if s.len() == 18 {
        if s[0] == 't' {
            8
        } else if s[0] == 'd' {
            10
        } else {
            -1
        }
    } else if s.len() == 19 {
        if s[0] == 'c' {
            18
        } else if s[0] == 'h' {
            30
        } else {
            -1
        }
    } else if s.len() == 20 {
        if s[15] == 'Q' {
            19
        } else if s[15] == 'L' {
            20
        } else if s[15] == 'n' {
            33
        } else {
            -1
        }
    } else if s.len() == 21 {
        if s[9] == 'A' {
            25
        } else if s[9] == 'S' {
            26
        } else {
            -1
        }
    } else if s.len() == 22 {
        9
    } else if s.len() == 23 {
        if s[9] == 'D' {
            27
        } else if s[9] == 'B' {
            29
        } else if s[9] == 'S' {
            34
        } else {
            -1
        }
    } else if s.len() == 24 {
        28
    } else if s.len() == 30 {
        32
    } else if s.len() == 31 {
        31
    } else if s.len() == 32 {
        37
    } else if s.len() == 33 {
        if s[9] == 'P' {
            35
        } else if s[9] == 'B' {
            36
        } else {
            -1
        }
    } else {
        -1
    }
}

/// The place of an ini key among `settings_keys_spec`, read off its length
/// and one character (-1 for other texts).
spec fn key_code(s: Seq<char>) -> int {
    if s.len() == 6 {
        6
    } else if s.len() == 8 {
        17
    } else if s.len() == 9 {
        if s[0] == 'S' {
            16
        } else if s[0] == 'V' {
            18
        } else {
            -1
        }
    } else if s.len() == 12 {
        if s[6] == 'C' {
            0
        } else if s[6] == 'N' {
            10
        } else if s[6] == 'V' {
            11
        } else {
            -1
        }
    } else if s.len() == 13 {
        7
    } else if s.len() == 14 {
        9
    } else if s.len() == 15 {
        if s[6] == 'R' {
            1
        } else if s[6] == 'E' {
            8
        } else if s[6] == 'F' {
            14
        } else if s[6] == 'B' {
            15
        } else if s[6] == 'A' {
            21
        } else {
            -1
        }
    } else if s.len() == 16 {
        23
    } else if s.len() == 17 {
        22
    } else if s.len() == 18 {
        24
    } else if s.len() == 19 {
        if s[18] == 'W' {
            4
        } else if s[18] == 'H' {
            5
        } else {
            -1
        }
    } else if s.len() == 21 {
        13
    } else if s.len() == 23 {
        if s[22] == 'W' {
            2
        } else if s[22] == 'H' {
            3
        } else if s[22] == 'Y' {
            12
        } else if s[22] == 'R' {
            30
        } else {
            -1
        }
    } else if s.len() == 24 {
        if s[19] == 'Q' {
            19
        } else if s[19] == 'L' {
            20
        } else if s[19] == 'T' {
            26
        } else if s[19] == 'N' {
            33
        } else {
            -1
        }
    } else if s.len() == 25 {
        25
    } else if s.len() == 27 {
        if s[12] == 'D' {
            27
        } else if s[12] == 'B' {
            29
        } else if s[12] == 'S' {
            34
        } else {
            -1
        }
    } else if s.len() == 28 {
        28
    } else if s.len() == 34 {
        32
    } else if s.len() == 35 {
        31
    } else if s.len() == 37 {
        if s[12] == 'P' {
            35
        } else if s[12] == 'B' {
            36
        } else if s[12] == 'A' {
            37
        } else {
            -1
        }
    } else {
        -1
    }
}

proof fn lemma_name_codes()
    ensures
        setting_names().len() == 38,
        forall|i: int| 0 <= i < 38 ==> name_code(#[trigger] setting_names()[i]) == i,
{
    reveal_strlit("hdVersion");
    reveal_strlit("fullscreen");
    reveal_strlit("fullscreenW");
    reveal_strlit("fullscreenH");
    reveal_strlit("windowW");
    reveal_strlit("windowH");
    reveal_strlit("brightness");
    reveal_strlit("maxCharDisplay");
    reveal_strlit("textureCompression");
    reveal_strlit("matchMonitorResolution");
    reveal_strlit("disableSoundOutput");
    reveal_strlit("sound");
    reveal_strlit("soundUnfocused");
    reveal_strlit("soundMinimized");
    reveal_strlit("soundFrequency");
    reveal_strlit("soundBufferNum");
    reveal_strlit("gameBgmVolume");
    reveal_strlit("gameSeVolume");
    reveal_strlit("controllerVibration");
    reveal_strlit("hdGraphicShadowQuest");
    reveal_strlit("hdGraphicShadowLobby");
    reveal_strlit("hdGraphicDof");
    reveal_strlit("hdGraphicBloom");
    reveal_strlit("hdGraphicSsao");
    reveal_strlit("hdGraphicGodray");
    reveal_strlit("hdGraphicAntiAliasing");
    reveal_strlit("hdGraphicSoftParticle");
    reveal_strlit("hdGraphicDofFarBlurSize");
    reveal_strlit("hdGraphicBloomDispersion");
    reveal_strlit("hdGraphicBloomThreshold");
    reveal_strlit("hdGraphicBloomColor");
    reveal_strlit("hdGraphicGaussianBlurDispersion");
    reveal_strlit("hdGraphicGaussianBlurBlendRate");
    reveal_strlit("hdGraphicSsaoDensity");
    reveal_strlit("hdGraphicShadowmapColor");
    reveal_strlit("hdGraphicPlLightShadowAttenuation");
    reveal_strlit("hdGraphicBgLightShadowAttenuation");
    reveal_strlit("hdGraphicAntiAliasingWeightScale");
    assert(name_code("hdVersion"@) == 0);
    assert(name_code("fullscreen"@) == 1);
    assert(name_code("fullscreenW"@) == 2);
    assert(name_code("fullscreenH"@) == 3);
    assert(name_code("windowW"@) == 4);
    assert(name_code("windowH"@) == 5);
    assert(name_code("brightness"@) == 6);
    assert(name_code("maxCharDisplay"@) == 7);
    assert(name_code("textureCompression"@) == 8);
    assert(name_code("matchMonitorResolution"@) == 9);
    assert(name_code("disableSoundOutput"@) == 10);
    assert(name_code("sound"@) == 11);
    assert(name_code("soundUnfocused"@) == 12);
    assert(name_code("soundMinimized"@) == 13);
    assert(name_code("soundFrequency"@) == 14);
    assert(name_code("soundBufferNum"@) == 15);
    assert(name_code("gameBgmVolume"@) == 16);
    assert(name_code("gameSeVolume"@) == 17);
    assert(name_code("controllerVibration"@) == 18);
    assert(name_code("hdGraphicShadowQuest"@) == 19);
    assert(name_code("hdGraphicShadowLobby"@) == 20);
    assert(name_code("hdGraphicDof"@) == 21);
    assert(name_code("hdGraphicBloom"@) == 22);
    assert(name_code("hdGraphicSsao"@) == 23);
    assert(name_code("hdGraphicGodray"@) == 24);
    assert(name_code("hdGraphicAntiAliasing"@) == 25);
    assert(name_code("hdGraphicSoftParticle"@) == 26);
    assert(name_code("hdGraphicDofFarBlurSize"@) == 27);
    assert(name_code("hdGraphicBloomDispersion"@) == 28);
    assert(name_code("hdGraphicBloomThreshold"@) == 29);
    assert(name_code("hdGraphicBloomColor"@) == 30);
    assert(name_code("hdGraphicGaussianBlurDispersion"@) == 31);
    assert(name_code("hdGraphicGaussianBlurBlendRate"@) == 32);
    assert(name_code("hdGraphicSsaoDensity"@) == 33);
    assert(name_code("hdGraphicShadowmapColor"@) == 34);
    assert(name_code("hdGraphicPlLightShadowAttenuation"@) == 35);
    assert(name_code("hdGraphicBgLightShadowAttenuation"@) == 36);
    assert(name_code("hdGraphicAntiAliasingWeightScale"@) == 37);
}

proof fn lemma_key_codes()
    ensures
        settings_keys_spec().len() == 38,
        forall|i: int| 0 <= i < 38 ==> key_code(#[trigger] settings_keys_spec()[i].1) == i,
{
    reveal_strlit("GRAPHICS_VER");
    reveal_strlit("FULLSCREEN_MODE");
    reveal_strlit("FULLSCREEN_RESOLUTION_W");
    reveal_strlit("FULLSCREEN_RESOLUTION_H");
    reveal_strlit("WINDOW_RESOLUTION_W");
    reveal_strlit("WINDOW_RESOLUTION_H");
    reveal_strlit("BRIGHT");
    reveal_strlit("DISP_MAX_CHAR");
    reveal_strlit("TEXTURE_DXT_USE");
    reveal_strlit("NOW_MONITOR_WH");
    reveal_strlit("SOUND_NOTUSE");
    reveal_strlit("SOUND_VOLUME");
    reveal_strlit("SOUND_VOLUME_INACTIVITY");
    reveal_strlit("SOUND_VOLUME_MINIMIZE");
    reveal_strlit("SOUND_FREQUENCY");
    reveal_strlit("SOUND_BUFFERNUM");
    reveal_strlit("SOUND_BGM");
    reveal_strlit("SOUND_SE");
    reveal_strlit("VIBRATION");
    reveal_strlit("90C_GRAPHIC_SHADOW_QUEST");
    reveal_strlit("90C_GRAPHIC_SHADOW_LOBBY");
    reveal_strlit("90C_GRAPHIC_DOF");
    reveal_strlit("90C_GRAPHIC_BLOOM");
    reveal_strlit("90C_GRAPHIC_SSAO");
    reveal_strlit("90C_GRAPHIC_GODRAY");
    reveal_strlit("90C_GRAPHIC_ANTI_ALIASING");
    reveal_strlit("90C_GRAPHIC_SOFTPARTICLE");
    reveal_strlit("90C_GRAPHIC_DOF_FARBLURSIZE");
    reveal_strlit("90C_GRAPHIC_BLOOM_DISPERSION");
    reveal_strlit("90C_GRAPHIC_BLOOM_THRESHOLD");
    reveal_strlit("90C_GRAPHIC_BLOOM_COLOR");
    reveal_strlit("90C_GRAPHIC_GAUSSIANBLUR_DISPERSION");
    reveal_strlit("90C_GRAPHIC_GAUSSIANBLUR_BLENDRATE");
    reveal_strlit("90C_GRAPHIC_SSAO_DENSITY");
    reveal_strlit("90C_GRAPHIC_SHADOWMAP_COLOR");
    reveal_strlit("90C_GRAPHIC_PLLIGHT_SHADOWATTENUATION");
    reveal_strlit("90C_GRAPHIC_BGLIGHT_SHADOWATTENUATION");
    reveal_strlit("90C_GRAPHIC_ANTI_ALIASING_WEIGHTSCALE");
    assert(key_code("GRAPHICS_VER"@) == 0);
    assert(key_code("FULLSCREEN_MODE"@) == 1);
    assert(key_code("FULLSCREEN_RESOLUTION_W"@) == 2);
    assert(key_code("FULLSCREEN_RESOLUTION_H"@) == 3);
    assert(key_code("WINDOW_RESOLUTION_W"@) == 4);
    assert(key_code("WINDOW_RESOLUTION_H"@) == 5);
    assert(key_code("BRIGHT"@) == 6);
    assert(key_code("DISP_MAX_CHAR"@) == 7);
    assert(key_code("TEXTURE_DXT_USE"@) == 8);
    assert(key_code("NOW_MONITOR_WH"@) == 9);
    assert(key_code("SOUND_NOTUSE"@) == 10);
    assert(key_code("SOUND_VOLUME"@) == 11);
    assert(key_code("SOUND_VOLUME_INACTIVITY"@) == 12);
    assert(key_code("SOUND_VOLUME_MINIMIZE"@) == 13);
    assert(key_code("SOUND_FREQUENCY"@) == 14);
    assert(key_code("SOUND_BUFFERNUM"@) == 15);
    assert(key_code("SOUND_BGM"@) == 16);
    assert(key_code("SOUND_SE"@) == 17);
    assert(key_code("VIBRATION"@) == 18);
    assert(key_code("90C_GRAPHIC_SHADOW_QUEST"@) == 19);
    assert(key_code("90C_GRAPHIC_SHADOW_LOBBY"@) == 20);
    assert(key_code("90C_GRAPHIC_DOF"@) == 21);
    assert(key_code("90C_GRAPHIC_BLOOM"@) == 22);
    assert(key_code("90C_GRAPHIC_SSAO"@) == 23);
    assert(key_code("90C_GRAPHIC_GODRAY"@) == 24);
    assert(key_code("90C_GRAPHIC_ANTI_ALIASING"@) == 25);
    assert(key_code("90C_GRAPHIC_SOFTPARTICLE"@) == 26);
    assert(key_code("90C_GRAPHIC_DOF_FARBLURSIZE"@) == 27);
    assert(key_code("90C_GRAPHIC_BLOOM_DISPERSION"@) == 28);
    assert(key_code("90C_GRAPHIC_BLOOM_THRESHOLD"@) == 29);
    assert(key_code("90C_GRAPHIC_BLOOM_COLOR"@) == 30);
    assert(key_code("90C_GRAPHIC_GAUSSIANBLUR_DISPERSION"@) == 31);
    assert(key_code("90C_GRAPHIC_GAUSSIANBLUR_BLENDRATE"@) == 32);
    assert(key_code("90C_GRAPHIC_SSAO_DENSITY"@) == 33);
    assert(key_code("90C_GRAPHIC_SHADOWMAP_COLOR"@) == 34);
    assert(key_code("90C_GRAPHIC_PLLIGHT_SHADOWATTENUATION"@) == 35);
    assert(key_code("90C_GRAPHIC_BGLIGHT_SHADOWATTENUATION"@) == 36);
    assert(key_code("90C_GRAPHIC_ANTI_ALIASING_WEIGHTSCALE"@) == 37);
}

/// The settings that `setting_entry` knows are exactly the fields of
/// `Settings`, by their camel-case names (`setting_names`, in field order):
/// each is written under the section and key that `settings_from_values`
/// reads for that field (`settings_keys_spec`), and as a flag exactly when
/// the field is one; no other name is known; and no two settings share a
/// section and key.
pub proof fn lemma_setting_names_cover_fields()
    ensures
        setting_names().len() == 38,
        forall|i: int|
            0 <= i < 38 ==> #[trigger] setting_slot(setting_names()[i]) == Some(
                (settings_keys_spec()[i].0, settings_keys_spec()[i].1, setting_is_flag(i)),
            ),
        forall|name: Seq<char>|
            #[trigger] setting_slot(name) is Some ==> exists|i: int| 0 <= i < 38 && setting_names()[i] == name,
        forall|i: int, j: int|
            0 <= i < 38 && 0 <= j < 38 && i != j ==> #[trigger] settings_keys_spec()[i] != #[trigger] settings_keys_spec()[j],
{
    lemma_name_codes();
    lemma_key_codes();
    assert forall|i: int| 0 <= i < 38 implies #[trigger] setting_slot(setting_names()[i]) == Some(
        (settings_keys_spec()[i].0, settings_keys_spec()[i].1, setting_is_flag(i)),
    ) by {
        if i == 0 {
        } else if i == 1 {
        } else if i == 2 {
        } else if i == 3 {
        } else if i == 4 {
        } else if i == 5 {
        } else if i == 6 {
        } else if i == 7 {
        } else if i == 8 {
        } else if i == 9 {
        } else if i == 10 {
        } else if i == 11 {
        } else if i == 12 {
        } else if i == 13 {
        } else if i == 14 {
        } else if i == 15 {
        } else if i == 16 {
        } else if i == 17 {
        } else if i == 18 {
        } else if i == 19 {
        } else if i == 20 {
        } else if i == 21 {
        } else if i == 22 {
        } else if i == 23 {
        } else if i == 24 {
        } else if i == 25 {
        } else if i == 26 {
        } else if i == 27 {
        } else if i == 28 {
        } else if i == 29 {
        } else if i == 30 {
        } else if i == 31 {
        } else if i == 32 {
        } else if i == 33 {
        } else if i == 34 {
        } else if i == 35 {
        } else if i == 36 {
        } else if i == 37 {
        }
    }
    assert forall|name: Seq<char>| #[trigger] setting_slot(name) is Some implies exists|i: int|
        0 <= i < 38 && setting_names()[i] == name by {
        if name == "hdVersion"@ {
            assert(setting_names()[0] == name);
        } else if name == "fullscreen"@ {
            assert(setting_names()[1] == name);
        } else if name == "fullscreenW"@ {
            assert(setting_names()[2] == name);
        } else if name == "fullscreenH"@ {
            assert(setting_names()[3] == name);
        } else if name == "windowW"@ {
            assert(setting_names()[4] == name);
        } else if name == "windowH"@ {
            assert(setting_names()[5] == name);
        } else if name == "brightness"@ {
            assert(setting_names()[6] == name);
        } else if name == "maxCharDisplay"@ {
            assert(setting_names()[7] == name);
        } else if name == "textureCompression"@ {
            assert(setting_names()[8] == name);
        } else if name == "matchMonitorResolution"@ {
            assert(setting_names()[9] == name);
        } else if name == "disableSoundOutput"@ {
            assert(setting_names()[10] == name);
        } else if name == "sound"@ {
            assert(setting_names()[11] == name);
        } else if name == "soundUnfocused"@ {
            assert(setting_names()[12] == name);
        } else if name == "soundMinimized"@ {
            assert(setting_names()[13] == name);
        } else if name == "soundFrequency"@ {
            assert(setting_names()[14] == name);
        } else if name == "soundBufferNum"@ {
            assert(setting_names()[15] == name);
        } else if name == "gameBgmVolume"@ {
            assert(setting_names()[16] == name);
        } else if name == "gameSeVolume"@ {
            assert(setting_names()[17] == name);
        } else if name == "controllerVibration"@ {
            assert(setting_names()[18] == name);
        } else if name == "hdGraphicShadowQuest"@ {
            assert(setting_names()[19] == name);
        } else if name == "hdGraphicShadowLobby"@ {
            assert(setting_names()[20] == name);
        } else if name == "hdGraphicDof"@ {
            assert(setting_names()[21] == name);
        } else if name == "hdGraphicBloom"@ {
            assert(setting_names()[22] == name);
        } else if name == "hdGraphicSsao"@ {
            assert(setting_names()[23] == name);
        } else if name == "hdGraphicGodray"@ {
            assert(setting_names()[24] == name);
        } else if name == "hdGraphicAntiAliasing"@ {
            assert(setting_names()[25] == name);
        } else if name == "hdGraphicSoftParticle"@ {
            assert(setting_names()[26] == name);
        } else if name == "hdGraphicDofFarBlurSize"@ {
            assert(setting_names()[27] == name);
        } else if name == "hdGraphicBloomDispersion"@ {
            assert(setting_names()[28] == name);
        } else if name == "hdGraphicBloomThreshold"@ {
            assert(setting_names()[29] == name);
        } else if name == "hdGraphicBloomColor"@ {
            assert(setting_names()[30] == name);
        } else if name == "hdGraphicGaussianBlurDispersion"@ {
            assert(setting_names()[31] == name);
        } else if name == "hdGraphicGaussianBlurBlendRate"@ {
            assert(setting_names()[32] == name);
        } else if name == "hdGraphicSsaoDensity"@ {
            assert(setting_names()[33] == name);
        } else if name == "hdGraphicShadowmapColor"@ {
            assert(setting_names()[34] == name);
        } else if name == "hdGraphicPlLightShadowAttenuation"@ {
            assert(setting_names()[35] == name);
        } else if name == "hdGraphicBgLightShadowAttenuation"@ {
            assert(setting_names()[36] == name);
        } else if name == "hdGraphicAntiAliasingWeightScale"@ {
            assert(setting_names()[37] == name);
        }
    }
    assert forall|i: int, j: int| 0 <= i < 38 && 0 <= j < 38 && i != j implies #[trigger] settings_keys_spec()[i]
        != #[trigger] settings_keys_spec()[j] by {
        if settings_keys_spec()[i] == settings_keys_spec()[j] {
            assert(key_code(settings_keys_spec()[i].1) == key_code(settings_keys_spec()[j].1));
        }
    }
}

/// The settings made of the integers read for each entry of
/// `settings_keys_spec`, as `settings_from_values` makes them.
#[verifier::opaque]
pub open spec fn settings_spec(values: Seq<Option<i64>>) -> Settings {
    Settings {
        hd_version: read_or(values[0], 1) > 0,
        fullscreen: read_or(values[1], 1) > 0,
        fullscreen_w: read_or(values[2], 1920) as i32,
        fullscreen_h: read_or(values[3], 1080) as i32,
        window_w: read_or(values[4], 1920) as i32,
        window_h: read_or(values[5], 1080) as i32,
        brightness: read_or(values[6], -128i64) as i32,
        max_char_display: read_or(values[7], 100) as i32,
        texture_compression: read_or(values[8], 0) > 0,
        match_monitor_resolution: read_or(values[9], 1) > 0,
        disable_sound_output: read_or(values[10], 0) > 0,
        sound: read_or(values[11], 0) as i32,
        sound_unfocused: read_or(values[12], 0) as i32,
        sound_minimized: read_or(values[13], 0) as i32,
        sound_frequency: read_or(values[14], 48000) as i32,
        sound_buffer_num: read_or(values[15], 2048) as i32,
        game_bgm_volume: read_or(values[16], 5) as i32,
        game_se_volume: read_or(values[17], 7) as i32,
        controller_vibration: read_or(values[18], 0) > 0,
        hd_graphic_shadow_quest: read_or(values[19], 1) > 0,
        hd_graphic_shadow_lobby: read_or(values[20], 0) > 0,
        hd_graphic_dof: read_or(values[21], 1) > 0,
        hd_graphic_bloom: read_or(values[22], 1) > 0,
        hd_graphic_ssao: read_or(values[23], 1) > 0,
        hd_graphic_godray: read_or(values[24], 1) > 0,
        hd_graphic_anti_aliasing: read_or(values[25], 1) > 0,
        hd_graphic_soft_particle: read_or(values[26], 1) > 0,
        hd_graphic_dof_far_blur_size: read_or(values[27], 100) as i32,
        hd_graphic_bloom_dispersion: read_or(values[28], 100) as i32,
        hd_graphic_bloom_threshold: read_or(values[29], 100) as i32,
        hd_graphic_bloom_color: read_or(values[30], 100) as i32,
        hd_graphic_gaussian_blur_dispersion: read_or(values[31], 100) as i32,
        hd_graphic_gaussian_blur_blend_rate: read_or(values[32], 100) as i32,
        hd_graphic_ssao_density: read_or(values[33], 100) as i32,
        hd_graphic_shadowmap_color: read_or(values[34], 100) as i32,
        hd_graphic_pl_light_shadow_attenuation: read_or(values[35], 100) as i32,
        hd_graphic_bg_light_shadow_attenuation: read_or(values[36], 100) as i32,
        hd_graphic_anti_aliasing_weight_scale: read_or(values[37], 100) as i32,
    }
}

/// The value of the field at place `i` of `Settings`: a flag as 1 or 0, a
/// number as itself.
#[verifier::opaque]
pub open spec fn field_value(s: Settings, i: int) -> int {
    if i == 0 {
        if s.hd_version {
            1
        } else {
            0
        }
    } else if i == 1 {
        if s.fullscreen {
            1
        } else {
            0
        }
    } else if i == 2 {
        s.fullscreen_w as int
    } else if i == 3 {
        s.fullscreen_h as int
    } else if i == 4 {
        s.window_w as int
    } else if i == 5 {
        s.window_h as int
    } else if i == 6 {
        s.brightness as int
    } else if i == 7 {
        s.max_char_display as int
    } else if i == 8 {
        if s.texture_compression {
            1
        } else {
            0
        }
    } else if i == 9 {
        if s.match_monitor_resolution {
            1
        } else {
            0
        }
    } else if i == 10 {
        if s.disable_sound_output {
            1
        } else {
            0
        }
    } else if i == 11 {
        s.sound as int
    } else if i == 12 {
        s.sound_unfocused as int
    } else if i == 13 {
        s.sound_minimized as int
    } else if i == 14 {
        s.sound_frequency as int
    } else if i == 15 {
        s.sound_buffer_num as int
    } else if i == 16 {
        s.game_bgm_volume as int
    } else if i == 17 {
        s.game_se_volume as int
    } else if i == 18 {
        if s.controller_vibration {
            1
        } else {
            0
        }
    } else if i == 19 {
        if s.hd_graphic_shadow_quest {
            1
        } else {
            0
        }
    } else if i == 20 {
        if s.hd_graphic_shadow_lobby {
            1
        } else {
            0
        }
    } else if i == 21 {
        if s.hd_graphic_dof {
            1
        } else {
            0
        }
    } else if i == 22 {
        if s.hd_graphic_bloom {
            1
        } else {
            0
        }
    } else if i == 23 {
        if s.hd_graphic_ssao {
            1
        } else {
            0
        }
    } else if i == 24 {
        if s.hd_graphic_godray {
            1
        } else {
            0
        }
    } else if i == 25 {
        if s.hd_graphic_anti_aliasing {
            1
        } else {
            0
        }
    } else if i == 26 {
        if s.hd_graphic_soft_particle {
            1
        } else {
            0
        }
    } else if i == 27 {
        s.hd_graphic_dof_far_blur_size as int
    } else if i == 28 {
        s.hd_graphic_bloom_dispersion as int
    } else if i == 29 {
        s.hd_graphic_bloom_threshold as int
    } else if i == 30 {
        s.hd_graphic_bloom_color as int
    } else if i == 31 {
        s.hd_graphic_gaussian_blur_dispersion as int
    } else if i == 32 {
        s.hd_graphic_gaussian_blur_blend_rate as int
    } else if i == 33 {
        s.hd_graphic_ssao_density as int
    } else if i == 34 {
        s.hd_graphic_shadowmap_color as int
    } else if i == 35 {
        s.hd_graphic_pl_light_shadow_attenuation as int
    } else if i == 36 {
        s.hd_graphic_bg_light_shadow_attenuation as int
    } else if i == 37 {
        s.hd_graphic_anti_aliasing_weight_scale as int
    } else {
        0
    }
}

/// The default of the setting at place `i`, taken when nothing is read.
pub open spec fn setting_default(i: int) -> i64 {
    if i == 0 {
        1
    } else if i == 1 {
        1
    } else if i == 2 {
        1920
    } else if i == 3 {
        1080
    } else if i == 4 {
        1920
    } else if i == 5 {
        1080
    } else if i == 6 {
        -128i64
    } else if i == 7 {
        100
    } else if i == 8 {
        0
    } else if i == 9 {
        1
    } else if i == 10 {
        0
    } else if i == 11 {
        0
    } else if i == 12 {
        0
    } else if i == 13 {
        0
    } else if i == 14 {
        48000
    } else if i == 15 {
        2048
    } else if i == 16 {
        5
    } else if i == 17 {
        7
    } else if i == 18 {
        0
    } else if i == 19 {
        1
    } else if i == 20 {
        0
    } else if i == 21 {
        1
    } else if i == 22 {
        1
    } else if i == 23 {
        1
    } else if i == 24 {
        1
    } else if i == 25 {
        1
    } else if i == 26 {
        1
    } else if i == 27 {
        100
    } else if i == 28 {
        100
    } else if i == 29 {
        100
    } else if i == 30 {
        100
    } else if i == 31 {
        100
    } else if i == 32 {
        100
    } else if i == 33 {
        100
    } else if i == 34 {
        100
    } else if i == 35 {
        100
    } else if i == 36 {
        100
    } else {
        100
    }
}

/// The value a field takes from the integer read for it: a flag is on when
/// the integer is positive; a number is the integer as an `i32`.
pub open spec fn field_from_read(read: Option<i64>, i: int) -> int {
    if setting_is_flag(i) {
        if read_or(read, setting_default(i)) > 0 {
            1
        } else {
            0
        }
    } else {
        read_or(read, setting_default(i)) as i32 as int
    }
}

/// The text of an integer in decimal, with a leading '-' when negative.
pub open spec fn int_text(n: int) -> Seq<char> {
    if n < 0 {
        "-"@ + decimal((-n) as nat)
    } else {
        decimal(n as nat)
    }
}

proof fn lemma_field_from_read(values: Seq<Option<i64>>, i: int)
    requires
        values.len() == 38,
        0 <= i < 38,
    ensures
        field_value(settings_spec(values), i) == field_from_read(values[i], i),
{
    reveal(field_value);
    reveal(settings_spec);
}

proof fn lemma_flag_text_is_int_text(b: bool)
    ensures
        flag_text(b) == int_text(if b {
            1int
        } else {
            0int
        }),
{
    reveal_strlit("1");
    reveal_strlit("0");
    assert(decimal(1) =~= "1"@);
    assert(decimal(0) =~= "0"@);
}

proof fn lemma_entry_of_field(name: Seq<char>, value: SettingValue, n: i64, i: int)
    requires
        0 <= i < 38,
        setting_names()[i] == name,
        setting_entry_spec(name, value) is Some,
        match value {
            SettingValue::Bool(b) => n == (if b {
                1i64
            } else {
                0i64
            }),
            SettingValue::Number(t) => t@ == int_text(n as int),
            SettingValue::Other => false,
        },
    ensures
        setting_entry_spec(name, value) matches Some((sec, key, text)) && (sec, key)
            == settings_keys_spec()[i] && text == int_text(n as int),
        setting_is_flag(i) ==> value is Bool,
        !setting_is_flag(i) ==> value is Number,
{
    lemma_setting_names_cover_fields();
    assert(setting_slot(setting_names()[i]) == Some(
        (settings_keys_spec()[i].0, settings_keys_spec()[i].1, setting_is_flag(i)),
    ));
    match value {
        SettingValue::Bool(b) => lemma_flag_text_is_int_text(b),
        _ => {},
    }
}

/// The integer that `configparser` reads from the ini text `text` under
/// `section` and `key`: nothing when the text does not parse, the key is
/// missing or has no value, or the value is not an `i64`.
pub uninterp spec fn ini_int(text: Seq<char>, section: Seq<char>, key: Seq<char>) -> Option<i64>;

/// Reads an integer from ini text with `configparser`: `Ini::new`,
/// `Ini::read` (a text that does not parse leaves nothing read), then
/// `Ini::getint`, an error taken as no value.  The integer is named by
/// `ini_int`, not spelled out.
#[verifier::external_body]
fn ini_getint(text: &str, section: &str, key: &str) -> (r: Option<i64>)
    ensures
        r == ini_int(text@, section@, key@),
{
    let mut ini = Ini::new();
    let _ = ini.read(text.to_string());
    ini.getint(section, key).ok().flatten()
}

/// A character of a plain ini name: an ASCII letter, digit or '_'.
pub open spec fn plain_ini_char(c: char) -> bool {
    ('a' <= c && c <= 'z') || ('A' <= c && c <= 'Z') || ('0' <= c && c <= '9') || c == '_'
}

/// A plain ini name: not empty, and made of plain characters only.
pub open spec fn plain_ini_name(s: Seq<char>) -> bool {
    s.len() > 0 && forall|i: int| 0 <= i < s.len() ==> plain_ini_char(#[trigger] s[i])
}

/// What reading the ini text `after` shows of `value` stored under `section`
/// and `key` in the text `before`, for plain names and a value on one line:
/// the key reads back as the integer that `value` is the decimal text of,
/// and every other plain section and key (ignoring ASCII case) reads as in
/// `before`.
pub open spec fn ini_stores(
    before: Seq<char>,
    after: Seq<char>,
    section: Seq<char>,
    key: Seq<char>,
    value: Seq<char>,
) -> bool {
    plain_ini_name(section) && plain_ini_name(key) && !value.contains('\n') ==> {
        &&& forall|n: i64| value == int_text(n as int) ==> ini_int(after, section, key) == Some(n)
        &&& forall|s2: Seq<char>, k2: Seq<char>|
            plain_ini_name(s2) && plain_ini_name(k2) && (ascii_lower_seq(s2) != ascii_lower_seq(section)
                || ascii_lower_seq(k2) != ascii_lower_seq(key)) ==> #[trigger] ini_int(after, s2, k2)
                == ini_int(before, s2, k2)
    }
}

/// Stores `value` under `section` and `key` in the ini text `text` with
/// `configparser`: `Ini::read` (a text that does not parse taken as empty),
/// `Ini::set`, `Ini::writes`.  The order in which `writes` lists sections
/// and keys follows a `HashMap` and is left unsaid; what is stated is what
/// reading the new text gives back, as `Ini`'s parser and writer show it.
#[verifier::external_body]
fn ini_set(text: &str, section: &str, key: &str, value: &str) -> (r: String)
    ensures
        ini_stores(text@, r@, section@, key@, value@),
{
    let mut ini = Ini::new();
    let _ = ini.read(text.to_string());
    ini.set(section, key, Some(value.to_string()));
    ini.writes()
}

/// The integers the ini text reads under each entry of `settings_keys_spec`.
pub open spec fn ini_values(text: Seq<char>) -> Seq<Option<i64>> {
    Seq::new(38, |i: int| ini_int(text, settings_keys_spec()[i].0, settings_keys_spec()[i].1))
}

/// The game's settings as the ini text `text` holds them: each setting read
/// under its section and key, a missing or unreadable one taking its default.
pub fn settings_from_ini_text(text: &str) -> (s: Settings)
    ensures
        s == settings_spec(ini_values(text@)),
{
    let keys = settings_keys();
    let mut values: Vec<Option<i64>> = Vec::new();
    let mut i: usize = 0;
    while i < keys.len()
        invariant
            keys@.len() == 38,
            forall|j: int| 0 <= j < 38 ==> (#[trigger] keys@[j]).0@ == settings_keys_spec()[j].0 && keys@[j].1@
                == settings_keys_spec()[j].1,
            i <= 38,
            values@.len() == i,
            forall|j: int| 0 <= j < i ==> #[trigger] values@[j] == ini_values(text@)[j],
        decreases 38 - i,
    {
        let (section, key) = keys[i];
        values.push(ini_getint(text, section, key));
        i = i + 1;
    }
    assert(values@ =~= ini_values(text@));
    settings_from_values(values.as_slice())
}

/// Whether the ini text `after` is `before` with setting `name` written for
/// `value`, as `setting_entry` places it.
pub open spec fn setting_written(before: Seq<char>, after: Seq<char>, name: Seq<char>, value: SettingValue) -> bool {
    match setting_entry_spec(name, value) {
        Some((section, key, text)) => ini_stores(before, after, section, key, text),
        None => false,
    }
}

/// The ini text `text` with setting `name` written for `value`; `None`, and
/// nothing to write, for an unknown setting or a value of the wrong kind.
pub fn apply_setting_text(text: &str, name: &str, value: SettingValue) -> (r: Option<String>)
    ensures
        r is None <==> setting_entry_spec(name@, value) is None,
        r matches Some(t) ==> setting_written(text@, t@, name@, value),
{
    match setting_entry(name, value) {
        Some(e) => Some(ini_set(text, e.section, e.key, e.value.as_str())),
        None => None,
    }
}

/// The place of an ini key among `settings_keys_spec`, read off the length
/// and one character of its ASCII lower-case form (-1 for other texts).
spec fn lower_key_code(s: Seq<char>) -> int {
    if s.len() == 6 {
        6
    } else if s.len() == 8 {
        17
    } else if s.len() == 9 {
        if s[0] == 's' {
            16
        } else if s[0] == 'v' {
            18
        } else {
            -1
        }
    } else if s.len() == 12 {
        if s[6] == 'c' {
            0
        } else if s[6] == 'n' {
            10
        } else if s[6] == 'v' {
            11
        } else {
            -1
        }
    } else if s.len() == 13 {
        7
    } else if s.len() == 14 {
        9
    } else if s.len() == 15 {
        if s[6] == 'r' {
            1
        } else if s[6] == 'e' {
            8
        } else if s[6] == 'f' {
            14
        } else if s[6] == 'b' {
            15
        } else if s[6] == 'a' {
            21
        } else {
            -1
        }
    } else if s.len() == 16 {
        23
    } else if s.len() == 17 {
        22
    } else if s.len() == 18 {
        24
    } else if s.len() == 19 {
        if s[18] == 'w' {
            4
        } else if s[18] == 'h' {
            5
        } else {
            -1
        }
    } else if s.len() == 21 {
        13
    } else if s.len() == 23 {
        if s[22] == 'w' {
            2
        } else if s[22] == 'h' {
            3
        } else if s[22] == 'y' {
            12
        } else if s[22] == 'r' {
            30
        } else {
            -1
        }
    } else if s.len() == 24 {
        if s[19] == 'q' {
            19
        } else if s[19] == 'l' {
            20
        } else if s[19] == 't' {
            26
        } else if s[19] == 'n' {
            33
        } else {
            -1
        }
    } else if s.len() == 25 {
        25
    } else if s.len() == 27 {
        if s[12] == 'd' {
            27
        } else if s[12] == 'b' {
            29
        } else if s[12] == 's' {
            34
        } else {
            -1
        }
    } else if s.len() == 28 {
        28
    } else if s.len() == 34 {
        32
    } else if s.len() == 35 {
        31
    } else if s.len() == 37 {
        if s[12] == 'p' {
            35
        } else if s[12] == 'b' {
            36
        } else if s[12] == 'a' {
            37
        } else {
            -1
        }
    } else {
        -1
    }
}

proof fn lemma_setting_keys_plain()
    ensures
        forall|i: int|
            0 <= i < 38 ==> plain_ini_name(#[trigger] settings_keys_spec()[i].0) && plain_ini_name(
                settings_keys_spec()[i].1,
            ),
        forall|i: int|
            0 <= i < 38 ==> lower_key_code(ascii_lower_seq(#[trigger] settings_keys_spec()[i].1)) == i,
{
    reveal_strlit("GRAPHICS_VER");
    reveal_strlit("FULLSCREEN_MODE");
    reveal_strlit("FULLSCREEN_RESOLUTION_W");
    reveal_strlit("FULLSCREEN_RESOLUTION_H");
    reveal_strlit("WINDOW_RESOLUTION_W");
    reveal_strlit("WINDOW_RESOLUTION_H");
    reveal_strlit("BRIGHT");
    reveal_strlit("DISP_MAX_CHAR");
    reveal_strlit("TEXTURE_DXT_USE");
    reveal_strlit("NOW_MONITOR_WH");
    reveal_strlit("SOUND_NOTUSE");
    reveal_strlit("SOUND_VOLUME");
    reveal_strlit("SOUND_VOLUME_INACTIVITY");
    reveal_strlit("SOUND_VOLUME_MINIMIZE");
    reveal_strlit("SOUND_FREQUENCY");
    reveal_strlit("SOUND_BUFFERNUM");
    reveal_strlit("SOUND_BGM");
    reveal_strlit("SOUND_SE");
    reveal_strlit("VIBRATION");
    reveal_strlit("90C_GRAPHIC_SHADOW_QUEST");
    reveal_strlit("90C_GRAPHIC_SHADOW_LOBBY");
    reveal_strlit("90C_GRAPHIC_DOF");
    reveal_strlit("90C_GRAPHIC_BLOOM");
    reveal_strlit("90C_GRAPHIC_SSAO");
    reveal_strlit("90C_GRAPHIC_GODRAY");
    reveal_strlit("90C_GRAPHIC_ANTI_ALIASING");
    reveal_strlit("90C_GRAPHIC_SOFTPARTICLE");
    reveal_strlit("90C_GRAPHIC_DOF_FARBLURSIZE");
    reveal_strlit("90C_GRAPHIC_BLOOM_DISPERSION");
    reveal_strlit("90C_GRAPHIC_BLOOM_THRESHOLD");
    reveal_strlit("90C_GRAPHIC_BLOOM_COLOR");
    reveal_strlit("90C_GRAPHIC_GAUSSIANBLUR_DISPERSION");
    reveal_strlit("90C_GRAPHIC_GAUSSIANBLUR_BLENDRATE");
    reveal_strlit("90C_GRAPHIC_SSAO_DENSITY");
    reveal_strlit("90C_GRAPHIC_SHADOWMAP_COLOR");
    reveal_strlit("90C_GRAPHIC_PLLIGHT_SHADOWATTENUATION");
    reveal_strlit("90C_GRAPHIC_BGLIGHT_SHADOWATTENUATION");
    reveal_strlit("90C_GRAPHIC_ANTI_ALIASING_WEIGHTSCALE");
    reveal_strlit("OPTION");
    reveal_strlit("SCREEN");
    reveal_strlit("SOUND");
    reveal_strlit("VIDEO");
    assert(plain_ini_name("GRAPHICS_VER"@));
    assert(plain_ini_name("FULLSCREEN_MODE"@));
    assert(plain_ini_name("FULLSCREEN_RESOLUTION_W"@));
    assert(plain_ini_name("FULLSCREEN_RESOLUTION_H"@));
    assert(plain_ini_name("WINDOW_RESOLUTION_W"@));
    assert(plain_ini_name("WINDOW_RESOLUTION_H"@));
    assert(plain_ini_name("BRIGHT"@));
    assert(plain_ini_name("DISP_MAX_CHAR"@));
    assert(plain_ini_name("TEXTURE_DXT_USE"@));
    assert(plain_ini_name("NOW_MONITOR_WH"@));
    assert(plain_ini_name("SOUND_NOTUSE"@));
    assert(plain_ini_name("SOUND_VOLUME"@));
    assert(plain_ini_name("SOUND_VOLUME_INACTIVITY"@));
    assert(plain_ini_name("SOUND_VOLUME_MINIMIZE"@));
    assert(plain_ini_name("SOUND_FREQUENCY"@));
    assert(plain_ini_name("SOUND_BUFFERNUM"@));
    assert(plain_ini_name("SOUND_BGM"@));
    assert(plain_ini_name("SOUND_SE"@));
    assert(plain_ini_name("VIBRATION"@));
    assert(plain_ini_name("90C_GRAPHIC_SHADOW_QUEST"@));
    assert(plain_ini_name("90C_GRAPHIC_SHADOW_LOBBY"@));
    assert(plain_ini_name("90C_GRAPHIC_DOF"@));
    assert(plain_ini_name("90C_GRAPHIC_BLOOM"@));
    assert(plain_ini_name("90C_GRAPHIC_SSAO"@));
    assert(plain_ini_name("90C_GRAPHIC_GODRAY"@));
    assert(plain_ini_name("90C_GRAPHIC_ANTI_ALIASING"@));
    assert(plain_ini_name("90C_GRAPHIC_SOFTPARTICLE"@));
    assert(plain_ini_name("90C_GRAPHIC_DOF_FARBLURSIZE"@));
    assert(plain_ini_name("90C_GRAPHIC_BLOOM_DISPERSION"@));
    assert(plain_ini_name("90C_GRAPHIC_BLOOM_THRESHOLD"@));
    assert(plain_ini_name("90C_GRAPHIC_BLOOM_COLOR"@));
    assert(plain_ini_name("90C_GRAPHIC_GAUSSIANBLUR_DISPERSION"@));
    assert(plain_ini_name("90C_GRAPHIC_GAUSSIANBLUR_BLENDRATE"@));
    assert(plain_ini_name("90C_GRAPHIC_SSAO_DENSITY"@));
    assert(plain_ini_name("90C_GRAPHIC_SHADOWMAP_COLOR"@));
    assert(plain_ini_name("90C_GRAPHIC_PLLIGHT_SHADOWATTENUATION"@));
    assert(plain_ini_name("90C_GRAPHIC_BGLIGHT_SHADOWATTENUATION"@));
    assert(plain_ini_name("90C_GRAPHIC_ANTI_ALIASING_WEIGHTSCALE"@));
    assert(plain_ini_name("OPTION"@));
    assert(plain_ini_name("SCREEN"@));
    assert(plain_ini_name("SOUND"@));
    assert(plain_ini_name("VIDEO"@));
    assert(lower_key_code(ascii_lower_seq("GRAPHICS_VER"@)) == 0);
    assert(lower_key_code(ascii_lower_seq("FULLSCREEN_MODE"@)) == 1);
    assert(lower_key_code(ascii_lower_seq("FULLSCREEN_RESOLUTION_W"@)) == 2);
    assert(lower_key_code(ascii_lower_seq("FULLSCREEN_RESOLUTION_H"@)) == 3);
    assert(lower_key_code(ascii_lower_seq("WINDOW_RESOLUTION_W"@)) == 4);
    assert(lower_key_code(ascii_lower_seq("WINDOW_RESOLUTION_H"@)) == 5);
    assert(lower_key_code(ascii_lower_seq("BRIGHT"@)) == 6);
    assert(lower_key_code(ascii_lower_seq("DISP_MAX_CHAR"@)) == 7);
    assert(lower_key_code(ascii_lower_seq("TEXTURE_DXT_USE"@)) == 8);
    assert(lower_key_code(ascii_lower_seq("NOW_MONITOR_WH"@)) == 9);
    assert(lower_key_code(ascii_lower_seq("SOUND_NOTUSE"@)) == 10);
    assert(lower_key_code(ascii_lower_seq("SOUND_VOLUME"@)) == 11);
    assert(lower_key_code(ascii_lower_seq("SOUND_VOLUME_INACTIVITY"@)) == 12);
    assert(lower_key_code(ascii_lower_seq("SOUND_VOLUME_MINIMIZE"@)) == 13);
    assert(lower_key_code(ascii_lower_seq("SOUND_FREQUENCY"@)) == 14);
    assert(lower_key_code(ascii_lower_seq("SOUND_BUFFERNUM"@)) == 15);
    assert(lower_key_code(ascii_lower_seq("SOUND_BGM"@)) == 16);
    assert(lower_key_code(ascii_lower_seq("SOUND_SE"@)) == 17);
    assert(lower_key_code(ascii_lower_seq("VIBRATION"@)) == 18);
    assert(lower_key_code(ascii_lower_seq("90C_GRAPHIC_SHADOW_QUEST"@)) == 19);
    assert(lower_key_code(ascii_lower_seq("90C_GRAPHIC_SHADOW_LOBBY"@)) == 20);
    assert(lower_key_code(ascii_lower_seq("90C_GRAPHIC_DOF"@)) == 21);
    assert(lower_key_code(ascii_lower_seq("90C_GRAPHIC_BLOOM"@)) == 22);
    assert(lower_key_code(ascii_lower_seq("90C_GRAPHIC_SSAO"@)) == 23);
    assert(lower_key_code(ascii_lower_seq("90C_GRAPHIC_GODRAY"@)) == 24);
    assert(lower_key_code(ascii_lower_seq("90C_GRAPHIC_ANTI_ALIASING"@)) == 25);
    assert(lower_key_code(ascii_lower_seq("90C_GRAPHIC_SOFTPARTICLE"@)) == 26);
    assert(lower_key_code(ascii_lower_seq("90C_GRAPHIC_DOF_FARBLURSIZE"@)) == 27);
    assert(lower_key_code(ascii_lower_seq("90C_GRAPHIC_BLOOM_DISPERSION"@)) == 28);
    assert(lower_key_code(ascii_lower_seq("90C_GRAPHIC_BLOOM_THRESHOLD"@)) == 29);
    assert(lower_key_code(ascii_lower_seq("90C_GRAPHIC_BLOOM_COLOR"@)) == 30);
    assert(lower_key_code(ascii_lower_seq("90C_GRAPHIC_GAUSSIANBLUR_DISPERSION"@)) == 31);
    assert(lower_key_code(ascii_lower_seq("90C_GRAPHIC_GAUSSIANBLUR_BLENDRATE"@)) == 32);
    assert(lower_key_code(ascii_lower_seq("90C_GRAPHIC_SSAO_DENSITY"@)) == 33);
    assert(lower_key_code(ascii_lower_seq("90C_GRAPHIC_SHADOWMAP_COLOR"@)) == 34);
    assert(lower_key_code(ascii_lower_seq("90C_GRAPHIC_PLLIGHT_SHADOWATTENUATION"@)) == 35);
    assert(lower_key_code(ascii_lower_seq("90C_GRAPHIC_BGLIGHT_SHADOWATTENUATION"@)) == 36);
    assert(lower_key_code(ascii_lower_seq("90C_GRAPHIC_ANTI_ALIASING_WEIGHTSCALE"@)) == 37);
}

proof fn lemma_decimal_digits(n: nat)
    ensures
        forall|k: int| 0 <= k < decimal(n).len() ==> '0' <= #[trigger] decimal(n)[k] <= '9',
        decimal(n).len() > 0,
    decreases n,
{
    if n >= 10 {
        lemma_decimal_digits(n / 10);
        assert forall|k: int| 0 <= k < decimal(n).len() implies '0' <= #[trigger] decimal(n)[k] <= '9' by {
            if k < decimal(n / 10).len() {
                assert(decimal(n)[k] == decimal(n / 10)[k]);
            }
        }
    }
}

proof fn lemma_int_text_one_line(n: int)
    ensures
        !int_text(n).contains('\n'),
{
    let d = decimal((if n < 0 {
        -n
    } else {
        n
    }) as nat);
    lemma_decimal_digits((if n < 0 {
        -n
    } else {
        n
    }) as nat);
    reveal_strlit("-");
    if int_text(n).contains('\n') {
        let k = choose|k: int| 0 <= k < int_text(n).len() && int_text(n)[k] == '\n';
        if n < 0 {
            assert(int_text(n) == "-"@ + d);
            if k > 0 {
                assert(int_text(n)[k] == d[k - 1]);
            }
        } else {
            assert(int_text(n)[k] == d[k]);
        }
    }
}

/// Writing a setting, then reading the settings back: when `after` is the
/// ini text `before` with setting `name` (the field at place `i` of
/// `Settings`) written for `value` (`apply_setting_text`), and `value` is
/// the integer `n` (1 or 0 for a flag, a number within `i32` in decimal),
/// field `i` of the settings read from `after` is `n` and every other field
/// is as read from `before`.
pub proof fn lemma_setting_read_back(
    name: Seq<char>,
    value: SettingValue,
    n: i64,
    before: Seq<char>,
    after: Seq<char>,
    i: int,
)
    requires
        0 <= i < 38,
        setting_names()[i] == name,
        setting_written(before, after, name, value),
        match value {
            SettingValue::Bool(b) => n == (if b {
                1i64
            } else {
                0i64
            }),
            SettingValue::Number(t) => t@ == int_text(n as int) && i32::MIN <= n <= i32::MAX,
            SettingValue::Other => false,
        },
    ensures
        field_value(settings_spec(ini_values(after)), i) == n,
        forall|j: int|
            0 <= j < 38 && j != i ==> field_value(settings_spec(ini_values(after)), j) == field_value(
                settings_spec(ini_values(before)),
                j,
            ),
{
    lemma_entry_of_field(name, value, n, i);
    lemma_setting_keys_plain();
    lemma_int_text_one_line(n as int);
    let sec = settings_keys_spec()[i].0;
    let key = settings_keys_spec()[i].1;
    assert(ini_stores(before, after, sec, key, int_text(n as int)));
    let va = ini_values(after);
    let vb = ini_values(before);
    assert(va[i] == Some(n));
    lemma_field_from_read(va, i);
    assert forall|j: int| 0 <= j < 38 && j != i implies field_value(settings_spec(va), j) == field_value(
        settings_spec(vb),
        j,
    ) by {
        assert(lower_key_code(ascii_lower_seq(settings_keys_spec()[j].1)) == j);
        assert(lower_key_code(ascii_lower_seq(key)) == i);
        assert(ini_int(after, settings_keys_spec()[j].0, settings_keys_spec()[j].1) == ini_int(
            before,
            settings_keys_spec()[j].0,
            settings_keys_spec()[j].1,
        ));
        assert(va[j] == vb[j]);
        lemma_field_from_read(va, j);
        lemma_field_from_read(vb, j);
    }
}

} // verus!
