//! The game client's launch parameters: configuration, command-line
//! flags, MezFes stalls, friend signatures, external friend ids and the
//! errors a launch can end with.
use vstd::prelude::*;

use vstd::utf8::encode_utf8;
use crate::text::{
    ascii_lower_seq, chars_end_with, decimal, decimal_string, ends_with, lower_chars, str_chars, string_from_chars, trim_chars,
    trim_spec,
};
use crate::version::MhfVersion;

verus! {

/// Why a game launch failed.
#[derive(Debug, Clone, Copy, PartialEq, Eq, Structural)]
pub enum Error {
    GamePath,
    Mutex,
    GlobalAlloc,
    Dll,
    FontMissing,
    FontBootstrap,
    S6ReceiveBufferSetup,
    S6ConsoleOutputFiltering,
    S7KReceiveBufferSetup,
    S7KConsoleOutputFiltering,
    Z2TNameCheck,
    ProcNotFound,
    ThreadJoin,
    TokenLength,
    IniMissing,
    UnsupportedPlatform,
}

/// The text each error is shown with.
pub open spec fn error_message(e: Error) -> Seq<char> {
    match e {
        Error::GamePath => "unable to find path to game"@,
        Error::Mutex => "unable to create or free game mutexes"@,
        Error::GlobalAlloc => "unable to create or free game global alloc"@,
        Error::Dll => "unable to load or free mhfo dll"@,
        Error::FontMissing => "required S7K font file is missing"@,
        Error::FontBootstrap => "unable to prepare or register the S7K font"@,
        Error::S6ReceiveBufferSetup => "unable to prepare the S6"@,
        Error::S6ConsoleOutputFiltering => "unable to configure S6"@,
        Error::S7KReceiveBufferSetup => "unable to prepare the S7K"@,
        Error::S7KConsoleOutputFiltering => "unable to configure S7K"@,
        Error::Z2TNameCheck => "unable to prepare the Z2TW character-name"@,
        Error::ProcNotFound => "unable to find mhDLL_Main proc in mhfo-hd.dll"@,
        Error::ThreadJoin => "game thread panicked"@,
        Error::TokenLength => "user token must have a length of 16"@,
        Error::IniMissing => "ini file not found in the game folder"@,
        Error::UnsupportedPlatform => "meze-butter runtime is only supported on Windows targets"@,
    }
}

impl Error {
    /// The text this error is shown with.
    pub fn message(&self) -> (s: &'static str)
        ensures
            s@ == error_message(*self),
    {
        match self {
            Error::GamePath => "unable to find path to game",
            Error::Mutex => "unable to create or free game mutexes",
            Error::GlobalAlloc => "unable to create or free game global alloc",
            Error::Dll => "unable to load or free mhfo dll",
            Error::FontMissing => "required S7K font file is missing",
            Error::FontBootstrap => "unable to prepare or register the S7K font",
            Error::S6ReceiveBufferSetup => "unable to prepare the S6",
            Error::S6ConsoleOutputFiltering => "unable to configure S6",
            Error::S7KReceiveBufferSetup => "unable to prepare the S7K",
            Error::S7KConsoleOutputFiltering => "unable to configure S7K",
            Error::Z2TNameCheck => "unable to prepare the Z2TW character-name",
            Error::ProcNotFound => "unable to find mhDLL_Main proc in mhfo-hd.dll",
            Error::ThreadJoin => "game thread panicked",
            Error::TokenLength => "user token must have a length of 16",
            Error::IniMissing => "ini file not found in the game folder",
            Error::UnsupportedPlatform => "meze-butter runtime is only supported on Windows targets",
        }
    }
}

/// Command-line flags the game client accepts.
#[derive(Debug, Clone, Copy, PartialEq, Eq, Structural)]
pub enum CliFlags {
    Selfup,
    Restat,
    Autolc,
    Hanres,
    DmmBoot,
    DmmSelfup,
    DmmAutolc,
    DmmReboot,
    Npge,
    NpMhfoTest,
}

/// The stalls a MezFes event can run.
#[derive(Debug, Clone, Copy, PartialEq, Eq, Structural)]
pub enum MezFesStall {
    TokotokoPartnya,
    Pachinko,
    VolpakkunTogether,
    GoocooScoop,
    Nyanrendo,
    HoneyPanic,
    DokkanBattleCats,
    PointStall,
    StallMap,
}

/// The numeric code of each stall.
pub open spec fn stall_code(s: MezFesStall) -> u32 {
    match s {
        MezFesStall::TokotokoPartnya => 2,
        MezFesStall::Pachinko => 3,
        MezFesStall::VolpakkunTogether => 4,
        MezFesStall::GoocooScoop => 5,
        MezFesStall::Nyanrendo => 6,
        MezFesStall::HoneyPanic => 7,
        MezFesStall::DokkanBattleCats => 8,
        MezFesStall::PointStall => 9,
        MezFesStall::StallMap => 10,
    }
}

impl MezFesStall {
    /// The stall with code `v`, if there is one (codes 2 to 10).
    pub fn from_code(v: u32) -> (s: Option<MezFesStall>)
        ensures
            match s {
                Some(x) => stall_code(x) == v,
                None => forall|x: MezFesStall| stall_code(x) != v,
            },
            s is Some <==> 2 <= v <= 10,
    {
        match v {
            2 => Some(MezFesStall::TokotokoPartnya),
            3 => Some(MezFesStall::Pachinko),
            4 => Some(MezFesStall::VolpakkunTogether),
            5 => Some(MezFesStall::GoocooScoop),
            6 => Some(MezFesStall::Nyanrendo),
            7 => Some(MezFesStall::HoneyPanic),
            8 => Some(MezFesStall::DokkanBattleCats),
            9 => Some(MezFesStall::PointStall),
            10 => Some(MezFesStall::StallMap),
            _ => None,
        }
    }

    /// The numeric code of this stall.
    pub fn code(self) -> (c: u32)
        ensures
            c == stall_code(self),
    {
        match self {
            MezFesStall::TokotokoPartnya => 2,
            MezFesStall::Pachinko => 3,
            MezFesStall::VolpakkunTogether => 4,
            MezFesStall::GoocooScoop => 5,
            MezFesStall::Nyanrendo => 6,
            MezFesStall::HoneyPanic => 7,
            MezFesStall::DokkanBattleCats => 8,
            MezFesStall::PointStall => 9,
            MezFesStall::StallMap => 10,
        }
    }
}

/// A notice shown in the game's lobby.
#[derive(Debug)]
pub struct Notice {
    pub flags: u16,
    pub data: String,
}

/// A friend handed to the game client.
#[derive(Debug, Default, Clone)]
pub struct FriendData {
    pub cid: u32,
    pub id: u32,
    pub name: String,
}

/// Everything the game client is launched with.  Paths are kept as text.
#[derive(Debug, Default)]
pub struct MhfConfig {
    pub char_id: u32,
    pub char_name: String,
    pub char_gr: u32,
    pub char_hr: u32,
    pub char_ids: Vec<u32>,
    pub char_new: bool,
    pub user_token_id: u32,
    pub user_token: String,
    pub user_name: String,
    pub user_password: String,
    pub user_rights: u32,
    pub server_host: String,
    pub server_port: u32,
    pub entrance_count: u32,
    pub current_ts: u32,
    pub expiry_ts: u32,
    pub notices: Vec<Notice>,
    pub friends: Vec<FriendData>,
    pub mez_event_id: u32,
    pub mez_start: u32,
    pub mez_end: u32,
    pub mez_solo_tickets: u32,
    pub mez_group_tickets: u32,
    pub mez_stalls: Vec<MezFesStall>,
    pub version: MhfVersion,
    pub mutex_version: MhfVersion,
    pub mutex_fallback_version: Option<MhfVersion>,
    pub preload_controller_dlls: bool,
    pub friend_signature: Option<String>,
    pub enable_font_registration: bool,
    pub mhf_folder: Option<String>,
    pub font_path: Option<String>,
    pub mhf_flags: Option<Vec<CliFlags>>,
}

/// Font registration is on unless a configuration says otherwise.
pub fn default_true() -> (b: bool)
    ensures
        b,
{
    true
}

/// Decides whether `config` can start the game client in this process:
/// the session token must be 16 bytes long, and the client runs in process
/// only on Windows (`on_windows`); elsewhere a well-formed configuration is
/// refused as unsupported.  `Ok` means the checks passed and the client is
/// to be started with `config`; starting it is the caller's work.
pub fn run(config: &MhfConfig, on_windows: bool) -> (r: Result<(), Error>)
    ensures
        encode_utf8(config.user_token@).len() as usize != 16 ==> r == Err::<(), Error>(Error::TokenLength),
        encode_utf8(config.user_token@).len() as usize == 16 && !on_windows ==> r == Err::<(), Error>(
            Error::UnsupportedPlatform,
        ),
        encode_utf8(config.user_token@).len() as usize == 16 && on_windows ==> r is Ok,
{
    if config.user_token.as_str().len() != 16 {
        return Err(Error::TokenLength);
    }
    if !on_windows {
        return Err(Error::UnsupportedPlatform);
    }
    Ok(())
}

/// The command data the client receives, built from its flags.
#[derive(Debug, Clone, Copy, Default, PartialEq, Eq)]
pub struct CmdData {
    pub cmd_flags_1: u32,
    pub cmd_flags_2: u32,
    pub cmd_dmm: u32,
}

/// The session fields the client's shared data takes from the launch
/// configuration and the command data.
#[derive(Debug)]
pub struct SessionFields {
    /// The command number: 1 when neither flag word is set, else the first
    /// flag word.
    pub cmd_number: u32,
    /// The selected character's status: 2 for a new character, else 0.
    pub char_status: u32,
    /// The game server's address, "host:port".
    pub remote_addr: String,
    /// The alternative address Season 6 clients take, "host:8080".
    pub alt_ip_address: String,
    /// The font name put in place of the ini file's, when font registration
    /// is on.
    pub font_name_override: Option<String>,
}

/// The command number for the command data `c`.
pub open spec fn cmd_number_spec(c: CmdData) -> u32 {
    if c.cmd_flags_1 == 0 && c.cmd_flags_2 == 0 {
        1
    } else {
        c.cmd_flags_1
    }
}

/// "host:port" for `host` and the number `port`.
pub open spec fn host_port_text(host: Seq<char>, port: nat) -> Seq<char> {
    host + ":"@ + decimal(port)
}

/// The session fields of the client's shared data for `config` and the
/// command data `cmd`: the command number, the character's status, the
/// server's "host:port" and the Season 6 alternative "host:8080", and the
/// font "MS Gothic" when font registration is on.
pub fn session_fields(config: &MhfConfig, cmd: CmdData) -> (f: SessionFields)
    ensures
        f.cmd_number == cmd_number_spec(cmd),
        f.char_status == (if config.char_new {
            2u32
        } else {
            0u32
        }),
        f.remote_addr@ == host_port_text(config.server_host@, config.server_port as nat),
        f.alt_ip_address@ == host_port_text(config.server_host@, 8080),
        match f.font_name_override {
            Some(n) => config.enable_font_registration && n@ == "MS Gothic"@,
            None => !config.enable_font_registration,
        },
{
    let cmd_number = if cmd.cmd_flags_1 == 0 && cmd.cmd_flags_2 == 0 {
        1
    } else {
        cmd.cmd_flags_1
    };
    let mut remote_addr = config.server_host.clone();
    remote_addr.append(":");
    let port = decimal_string(config.server_port as u128);
    remote_addr.append(port.as_str());
    let mut alt_ip_address = config.server_host.clone();
    alt_ip_address.append(":");
    let alt_port = decimal_string(8080u128);
    alt_ip_address.append(alt_port.as_str());
    let font_name_override = if config.enable_font_registration {
        Some("MS Gothic".to_string())
    } else {
        None
    };
    SessionFields {
        cmd_number,
        char_status: if config.char_new {
            2
        } else {
            0
        },
        remote_addr,
        alt_ip_address,
        font_name_override,
    }
}

/// The command data after one more flag.
pub open spec fn apply_flag(c: CmdData, f: CliFlags) -> CmdData {
    match f {
        CliFlags::Selfup => CmdData { cmd_flags_1: 1, ..c },
        CliFlags::Restat => CmdData { cmd_flags_1: 2, ..c },
        CliFlags::Autolc => CmdData { cmd_flags_1: 3, ..c },
        CliFlags::Hanres => CmdData { cmd_flags_1: 4, ..c },
        CliFlags::DmmBoot => CmdData { cmd_flags_1: 5, cmd_dmm: 1, ..c },
        CliFlags::DmmSelfup => CmdData { cmd_flags_1: 6, cmd_dmm: 1, ..c },
        CliFlags::DmmAutolc => CmdData { cmd_flags_1: 7, cmd_dmm: 1, ..c },
        CliFlags::DmmReboot => CmdData { cmd_flags_1: 8, cmd_dmm: 1, ..c },
        CliFlags::Npge => CmdData { cmd_flags_1: 9, cmd_flags_2: c.cmd_flags_2 | 6, ..c },
        CliFlags::NpMhfoTest => CmdData { cmd_flags_2: c.cmd_flags_2 | 4, ..c },
    }
}

/// The command data after all of `flags`, in order, from all zeros.
pub open spec fn cmd_data_spec(flags: Seq<CliFlags>) -> CmdData
    decreases flags.len(),
{
    if flags.len() == 0 {
        CmdData { cmd_flags_1: 0, cmd_flags_2: 0, cmd_dmm: 0 }
    } else {
        apply_flag(cmd_data_spec(flags.drop_last()), flags.last())
    }
}

/// Whether `f` is one of the DMM launch flags.
pub open spec fn is_dmm_flag(f: CliFlags) -> bool {
    f == CliFlags::DmmBoot || f == CliFlags::DmmSelfup || f == CliFlags::DmmAutolc || f
        == CliFlags::DmmReboot
}

/// The number the client knows a flag by: its place in the list of flags,
/// from 1 for `Selfup` to 10 for `NpMhfoTest`.
pub open spec fn flag_number(f: CliFlags) -> u32 {
    match f {
        CliFlags::Selfup => 1,
        CliFlags::Restat => 2,
        CliFlags::Autolc => 3,
        CliFlags::Hanres => 4,
        CliFlags::DmmBoot => 5,
        CliFlags::DmmSelfup => 6,
        CliFlags::DmmAutolc => 7,
        CliFlags::DmmReboot => 8,
        CliFlags::Npge => 9,
        CliFlags::NpMhfoTest => 10,
    }
}

/// Whether a DMM flag is among `flags`.
pub open spec fn has_dmm_flag(flags: Seq<CliFlags>) -> bool {
    exists|k: int| 0 <= k < flags.len() && is_dmm_flag(#[trigger] flags[k])
}

/// Whether `f` is among `flags`.
pub open spec fn has_flag(flags: Seq<CliFlags>, f: CliFlags) -> bool {
    exists|k: int| 0 <= k < flags.len() && #[trigger] flags[k] == f
}

/// Whether position `k` holds the last flag of `flags` other than NpMhfoTest.
pub open spec fn last_word_flag_at(flags: Seq<CliFlags>, k: int) -> bool {
    &&& 0 <= k < flags.len()
    &&& flags[k] != CliFlags::NpMhfoTest
    &&& forall|m: int| k < m < flags.len() ==> #[trigger] flags[m] == CliFlags::NpMhfoTest
}

proof fn lemma_has_flag_push(init: Seq<CliFlags>, f: CliFlags, g: CliFlags)
    ensures
        has_flag(init.push(f), g) == (has_flag(init, g) || f == g),
        has_dmm_flag(init.push(f)) == (has_dmm_flag(init) || is_dmm_flag(f)),
{
    let s = init.push(f);
    if has_flag(init, g) {
        let k = choose|k: int| 0 <= k < init.len() && #[trigger] init[k] == g;
        assert(s[k] == g);
    }
    if f == g {
        assert(s[init.len() as int] == g);
    }
    if has_flag(s, g) {
        let k = choose|k: int| 0 <= k < s.len() && #[trigger] s[k] == g;
        if k < init.len() {
            assert(init[k] == g);
        }
    }
    if has_dmm_flag(init) {
        let k = choose|k: int| 0 <= k < init.len() && is_dmm_flag(#[trigger] init[k]);
        assert(s[k] == init[k]);
    }
    if is_dmm_flag(f) {
        assert(s[init.len() as int] == f);
    }
    if has_dmm_flag(s) {
        let k = choose|k: int| 0 <= k < s.len() && is_dmm_flag(#[trigger] s[k]);
        if k < init.len() {
            assert(init[k] == s[k]);
        }
    }
}

proof fn lemma_dmm_and_second_word(flags: Seq<CliFlags>)
    ensures
        cmd_data_spec(flags).cmd_dmm == (if has_dmm_flag(flags) {
            1u32
        } else {
            0u32
        }),
        cmd_data_spec(flags).cmd_flags_2 == (if has_flag(flags, CliFlags::Npge) {
            6u32
        } else if has_flag(flags, CliFlags::NpMhfoTest) {
            4u32
        } else {
            0u32
        }),
    decreases flags.len(),
{
    if flags.len() > 0 {
        let init = flags.drop_last();
        let f = flags.last();
        assert(init.push(f) =~= flags);
        lemma_dmm_and_second_word(init);
        lemma_has_flag_push(init, f, CliFlags::Npge);
        lemma_has_flag_push(init, f, CliFlags::NpMhfoTest);
        assert((0u32 | 6u32) == 6u32 && (4u32 | 6u32) == 6u32 && (6u32 | 6u32) == 6u32) by (bit_vector);
        assert((0u32 | 4u32) == 4u32 && (4u32 | 4u32) == 4u32 && (6u32 | 4u32) == 6u32) by (bit_vector);
    }
}

proof fn lemma_first_word(flags: Seq<CliFlags>)
    ensures
        (forall|k: int| 0 <= k < flags.len() ==> #[trigger] flags[k] == CliFlags::NpMhfoTest) ==> cmd_data_spec(
            flags,
        ).cmd_flags_1 == 0,
        forall|k: int| #[trigger] last_word_flag_at(flags, k) ==> cmd_data_spec(flags).cmd_flags_1 == flag_number(flags[k]),
    decreases flags.len(),
{
    if flags.len() > 0 {
        let init = flags.drop_last();
        let f = flags.last();
        let n = (flags.len() - 1) as int;
        lemma_first_word(init);
        if forall|k: int| 0 <= k < flags.len() ==> #[trigger] flags[k] == CliFlags::NpMhfoTest {
            assert(flags[n] == f);
            assert forall|k: int| 0 <= k < init.len() implies #[trigger] init[k] == CliFlags::NpMhfoTest by {
                assert(flags[k] == init[k]);
            }
        }
        assert forall|k: int| #[trigger] last_word_flag_at(flags, k) implies cmd_data_spec(flags).cmd_flags_1
            == flag_number(flags[k]) by {
            if k < n {
                assert(flags[n] == CliFlags::NpMhfoTest);
                assert(init[k] == flags[k]);
                assert forall|m: int| k < m < init.len() implies #[trigger] init[m] == CliFlags::NpMhfoTest by {
                    assert(flags[m] == init[m]);
                }
                assert(last_word_flag_at(init, k));
            }
        }
    }
}

/// What the client flags make of the command data, over the whole list:
/// - the DMM word is 1 exactly when a DMM flag (DmmBoot, DmmSelfup,
///   DmmAutolc or DmmReboot) is among the flags, else 0;
/// - the first flag word is the number of the last flag other than
///   NpMhfoTest, or 0 when there is none;
/// - the second flag word is 6 when Npge is among the flags, else 4 when
///   NpMhfoTest is, else 0.
pub proof fn lemma_cmd_data_words(flags: Seq<CliFlags>)
    ensures
        cmd_data_spec(flags).cmd_dmm == (if has_dmm_flag(flags) {
            1u32
        } else {
            0u32
        }),
        (forall|k: int| 0 <= k < flags.len() ==> #[trigger] flags[k] == CliFlags::NpMhfoTest) ==> cmd_data_spec(
            flags,
        ).cmd_flags_1 == 0,
        forall|k: int| #[trigger] last_word_flag_at(flags, k) ==> cmd_data_spec(flags).cmd_flags_1 == flag_number(flags[k]),
        cmd_data_spec(flags).cmd_flags_2 == (if has_flag(flags, CliFlags::Npge) {
            6u32
        } else if has_flag(flags, CliFlags::NpMhfoTest) {
            4u32
        } else {
            0u32
        }),
{
    lemma_dmm_and_second_word(flags);
    lemma_first_word(flags);
}

/// Folds the client flags into the command data: each flag sets the first
/// flag word (the last such flag wins), the DMM flags set the DMM word, and
/// Npge and NpMhfoTest add bits to the second flag word.
pub fn init_cli(mhf_flags: &[CliFlags]) -> (c: CmdData)
    ensures
        c == cmd_data_spec(mhf_flags@),
        c.cmd_dmm == (if has_dmm_flag(mhf_flags@) {
            1u32
        } else {
            0u32
        }),
        forall|k: int| #[trigger] last_word_flag_at(mhf_flags@, k) ==> c.cmd_flags_1 == flag_number(mhf_flags@[k]),
        (forall|k: int| 0 <= k < mhf_flags@.len() ==> #[trigger] mhf_flags@[k] == CliFlags::NpMhfoTest) ==> c.cmd_flags_1
            == 0,
        c.cmd_flags_2 == (if has_flag(mhf_flags@, CliFlags::Npge) {
            6u32
        } else if has_flag(mhf_flags@, CliFlags::NpMhfoTest) {
            4u32
        } else {
            0u32
        }),
{
    proof {
        lemma_cmd_data_words(mhf_flags@);
    }
    let mut cmd = CmdData { cmd_flags_1: 0, cmd_flags_2: 0, cmd_dmm: 0 };
    let mut i: usize = 0;
    while i < mhf_flags.len()
        invariant
            i <= mhf_flags@.len(),
            cmd == cmd_data_spec(mhf_flags@.take(i as int)),
        decreases mhf_flags@.len() - i,
    {
        match mhf_flags[i] {
            CliFlags::Selfup => cmd.cmd_flags_1 = 1,
            CliFlags::Restat => cmd.cmd_flags_1 = 2,
            CliFlags::Autolc => cmd.cmd_flags_1 = 3,
            CliFlags::Hanres => cmd.cmd_flags_1 = 4,
            CliFlags::DmmBoot => {
                cmd.cmd_flags_1 = 5;
                cmd.cmd_dmm = 1;
            },
            CliFlags::DmmSelfup => {
                cmd.cmd_flags_1 = 6;
                cmd.cmd_dmm = 1;
            },
            CliFlags::DmmAutolc => {
                cmd.cmd_flags_1 = 7;
                cmd.cmd_dmm = 1;
            },
            CliFlags::DmmReboot => {
                cmd.cmd_flags_1 = 8;
                cmd.cmd_dmm = 1;
            },
            CliFlags::Npge => {
                cmd.cmd_flags_1 = 9;
                cmd.cmd_flags_2 = cmd.cmd_flags_2 | 6;
            },
            CliFlags::NpMhfoTest => cmd.cmd_flags_2 = cmd.cmd_flags_2 | 4,
        }
        proof {
            assert(mhf_flags@.take(i + 1).drop_last() =~= mhf_flags@.take(i as int));
        }
        i = i + 1;
    }
    assert(mhf_flags@.take(mhf_flags@.len() as int) =~= mhf_flags@);
    cmd
}

/// Copies the common prefix of `v` into `s`: the first `min(len s, len v)`
/// elements of `s` become those of `v`, the rest of `s` stays.
pub fn bufcopy<T: Copy>(s: &mut Vec<T>, v: &[T])
    ensures
        final(s)@.len() == old(s)@.len(),
        forall|i: int|
            0 <= i < final(s)@.len() ==> #[trigger] final(s)@[i] == if i < v@.len() {
                v@[i]
            } else {
                old(s)@[i]
            },
{
    let l = if s.len() < v.len() {
        s.len()
    } else {
        v.len()
    };
    let mut i: usize = 0;
    while i < l
        invariant
            l <= s@.len(),
            l <= v@.len(),
            l == s@.len() || l == v@.len(),
            i <= l,
            s@.len() == old(s)@.len(),
            forall|j: int|
                0 <= j < s@.len() ==> #[trigger] s@[j] == if j < i {
                    v@[j]
                } else {
                    old(s)@[j]
                },
        decreases l - i,
    {
        s.set(i, v[i]);
        i = i + 1;
    }
}

/// The window-title prefix of the client's mutex names for a version.
pub open spec fn mutex_title_prefix(version: MhfVersion) -> Seq<char> {
    match version {
        MhfVersion::S6 | MhfVersion::S7K | MhfVersion::F4 | MhfVersion::F5 =>
            "MONSTER HUNTER FRONTIER ONLINE"@,
        MhfVersion::Z1 | MhfVersion::Z2 | MhfVersion::Z2T | MhfVersion::ZZ =>
            "MONSTER HUNTER FRONTIER Z"@,
        _ => "MONSTER HUNTER FRONTIER G"@,
    }
}

/// The window-title prefix of the client's mutex names for a version.
pub fn mutex_prefix(version: MhfVersion) -> (s: &'static str)
    ensures
        s@ == mutex_title_prefix(version),
{
    match version {
        MhfVersion::S6 | MhfVersion::S7K | MhfVersion::F4 | MhfVersion::F5 =>
            "MONSTER HUNTER FRONTIER ONLINE",
        MhfVersion::Z1 | MhfVersion::Z2 | MhfVersion::Z2T | MhfVersion::ZZ =>
            "MONSTER HUNTER FRONTIER Z",
        _ => "MONSTER HUNTER FRONTIER G",
    }
}

/// The name of a client mutex: the version's title prefix, the mutex kind
/// and the process id, separated by spaces.
pub fn get_mutex_name(version: MhfVersion, s: &str, pid: u32) -> (name: String)
    ensures
        name@ == mutex_title_prefix(version) + " "@ + s@ + " "@ + crate::text::decimal(pid as nat),
{
    let mut name = mutex_prefix(version).to_string();
    name.append(" ");
    name.append(s);
    name.append(" ");
    let pid_text = crate::text::decimal_string(pid as u128);
    name.append(pid_text.as_str());
    name
}

/// The game folder's name as the client is given it: with a trailing
/// slash unless it ends in a slash or a backslash.
pub open spec fn folder_name_spec(folder: Seq<char>) -> Seq<char> {
    if ends_with(folder, "/"@) || ends_with(folder, "\\"@) {
        folder
    } else {
        folder + "/"@
    }
}

/// The friend signature a launch asks for: the trimmed one, unless it is
/// blank or "none" in any case.
pub open spec fn chosen_signature_spec(signature: Option<Seq<char>>) -> Option<Seq<char>> {
    match signature {
        Some(s) => if trim_spec(s).len() == 0 || ascii_lower_seq(trim_spec(s)) == "none"@ {
            None
        } else {
            Some(trim_spec(s))
        },
        None => None,
    }
}

/// The friends of the character `char_id`, in order.
pub open spec fn friends_of(friends: Seq<FriendData>, char_id: u32) -> Seq<FriendData>
    decreases friends.len(),
{
    if friends.len() == 0 {
        Seq::empty()
    } else {
        let rest = friends_of(friends.drop_last(), char_id);
        if friends.last().cid == char_id {
            rest.push(friends.last())
        } else {
            rest
        }
    }
}

/// What a launch prepares before the client starts: the folder name it is
/// given, the master mutex names (and those of the fallback version where
/// it differs), the command data, the friend signature asked for and the
/// friends of the character.
#[derive(Debug)]
pub struct LaunchPlan {
    pub folder_name: String,
    pub master_mutex: String,
    pub master_ready_mutex: String,
    pub fallback_mutexes: Option<(String, String)>,
    pub cmd_data: CmdData,
    pub friend_signature: Option<String>,
    pub friends: Vec<FriendData>,
}

/// The name of the client mutex `kind` for `version` in process `pid`.
pub open spec fn mutex_name_spec(version: MhfVersion, kind: Seq<char>, pid: u32) -> Seq<char> {
    mutex_title_prefix(version) + " "@ + kind + " "@ + crate::text::decimal(pid as nat)
}

/// The game folder's name as the client is given it.
pub fn mhf_folder_name(folder: &str) -> (r: String)
    ensures
        r@ == folder_name_spec(folder@),
{
    let chars = str_chars(folder);
    let slash = str_chars("/");
    let backslash = str_chars("\\");
    let mut name = string_from_chars(chars.as_slice());
    if !chars_end_with(chars.as_slice(), slash.as_slice()) && !chars_end_with(
        chars.as_slice(),
        backslash.as_slice(),
    ) {
        name.append("/");
    }
    name
}

/// The friend signature a launch asks for.
pub fn chosen_friend_signature(signature: Option<&str>) -> (r: Option<String>)
    ensures
        opt_chars(r) == chosen_signature_spec(opt_str_chars(signature)),
{
    match signature {
        None => None,
        Some(s) => {
            let chars = str_chars(s);
            let t = trim_chars(chars.as_slice());
            let lower = lower_chars(t.as_slice());
            let lowered = string_from_chars(lower.as_slice());
            if t.len() == 0 || crate::text::str_eq(lowered.as_str(), "none") {
                None
            } else {
                Some(string_from_chars(t.as_slice()))
            }
        },
    }
}

/// The text of an optional string.
pub open spec fn opt_chars(s: Option<String>) -> Option<Seq<char>> {
    match s {
        Some(t) => Some(t@),
        None => None,
    }
}

/// The text of an optional string slice.
pub open spec fn opt_str_chars(s: Option<&str>) -> Option<Seq<char>> {
    match s {
        Some(t) => Some(t@),
        None => None,
    }
}

/// The friends of the character `char_id`, in order.
pub fn friends_for_character(friends: &[FriendData], char_id: u32) -> (r: Vec<FriendData>)
    ensures
        r@.len() == friends_of(friends@, char_id).len(),
        forall|i: int|
            0 <= i < r@.len() ==> (#[trigger] r@[i]).cid == friends_of(friends@, char_id)[i].cid && r@[i].id
                == friends_of(friends@, char_id)[i].id && r@[i].name@ == friends_of(friends@, char_id)[i].name@,
{
    let mut out: Vec<FriendData> = Vec::new();
    let mut i: usize = 0;
    while i < friends.len()
        invariant
            i <= friends@.len(),
            out@.len() == friends_of(friends@.subrange(0, i as int), char_id).len(),
            forall|j: int|
                0 <= j < out@.len() ==> (#[trigger] out@[j]).cid == friends_of(
                    friends@.subrange(0, i as int),
                    char_id,
                )[j].cid && out@[j].id == friends_of(friends@.subrange(0, i as int), char_id)[j].id
                    && out@[j].name@ == friends_of(friends@.subrange(0, i as int), char_id)[j].name@,
        decreases friends@.len() - i,
    {
        assert(friends@.subrange(0, i + 1).drop_last() =~= friends@.subrange(0, i as int));
        let f = &friends[i];
        if f.cid == char_id {
            out.push(FriendData { cid: f.cid, id: f.id, name: f.name.clone() });
        }
        i = i + 1;
    }
    assert(friends@.subrange(0, i as int) =~= friends@);
    out
}

/// What a launch of `config` prepares before the client starts, for the
/// game folder `folder` and the process `pid`.
pub fn launch_plan(config: &MhfConfig, folder: &str, pid: u32) -> (p: LaunchPlan)
    ensures
        p.folder_name@ == folder_name_spec(folder@),
        p.master_mutex@ == mutex_name_spec(config.mutex_version, "MHF_MASTER"@, pid),
        p.master_ready_mutex@ == mutex_name_spec(config.mutex_version, "MHF_MASTER_READY"@, pid),
        match config.mutex_fallback_version {
            Some(f) if f != config.mutex_version => p.fallback_mutexes matches Some(names) && names.0@
                == mutex_name_spec(f, "MHF_MASTER"@, pid) && names.1@ == mutex_name_spec(
                f,
                "MHF_MASTER_READY"@,
                pid,
            ),
            _ => p.fallback_mutexes is None,
        },
        p.cmd_data == match config.mhf_flags {
            Some(flags) => cmd_data_spec(flags@),
            None => CmdData { cmd_flags_1: 0, cmd_flags_2: 0, cmd_dmm: 0 },
        },
        opt_chars(p.friend_signature) == chosen_signature_spec(opt_chars(config.friend_signature)),
        p.friends@.len() == friends_of(config.friends@, config.char_id).len(),
        forall|i: int|
            0 <= i < p.friends@.len() ==> (#[trigger] p.friends@[i]).cid == friends_of(
                config.friends@,
                config.char_id,
            )[i].cid && p.friends@[i].id == friends_of(config.friends@, config.char_id)[i].id
                && p.friends@[i].name@ == friends_of(config.friends@, config.char_id)[i].name@,
{
    let fallback_mutexes = match config.mutex_fallback_version {
        Some(f) => {
            if f != config.mutex_version {
                Some((get_mutex_name(f, "MHF_MASTER", pid), get_mutex_name(f, "MHF_MASTER_READY", pid)))
            } else {
                None
            }
        },
        None => None,
    };
    let cmd_data = match &config.mhf_flags {
        Some(flags) => init_cli(flags.as_slice()),
        None => CmdData { cmd_flags_1: 0, cmd_flags_2: 0, cmd_dmm: 0 },
    };
    let signature: Option<&str> = match &config.friend_signature {
        Some(s) => Some(s.as_str()),
        None => None,
    };
    LaunchPlan {
        folder_name: mhf_folder_name(folder),
        master_mutex: get_mutex_name(config.mutex_version, "MHF_MASTER", pid),
        master_ready_mutex: get_mutex_name(config.mutex_version, "MHF_MASTER_READY", pid),
        fallback_mutexes,
        cmd_data,
        friend_signature: chosen_friend_signature(signature),
        friends: friends_for_character(config.friends.as_slice(), config.char_id),
    }
}

/// The layout DLL the client loads: the HD one when the graphics version is 1.
pub fn resolve_layout_dll_name(graphics_ver: u32) -> (s: &'static str)
    ensures
        s@ == if graphics_ver == 1 {
            "mhfo-hd.dll"@
        } else {
            "mhfo.dll"@
        },
{
    if graphics_ver == 1 {
        "mhfo-hd.dll"
    } else {
        "mhfo.dll"
    }
}

/// Length of the S7K font start-up patch.
pub const S7K_FONT_STARTUP_PATCH_LEN: usize = 0x36;

/// The S7K font start-up patch: `mov eax, 1` followed by NOPs.
pub fn s7k_font_startup_patch() -> (p: Vec<u8>)
    ensures
        p@.len() == S7K_FONT_STARTUP_PATCH_LEN,
        p@.take(5) == seq![0xB8u8, 0x01u8, 0x00u8, 0x00u8, 0x00u8],
        forall|i: int| 5 <= i < p@.len() ==> p@[i] == 0x90,
{
    let mut patch: Vec<u8> = Vec::new();
    patch.push(0xB8);
    patch.push(0x01);
    patch.push(0x00);
    patch.push(0x00);
    patch.push(0x00);
    while patch.len() < S7K_FONT_STARTUP_PATCH_LEN
        invariant
            5 <= patch@.len() <= S7K_FONT_STARTUP_PATCH_LEN,
            patch@.take(5) == seq![0xB8u8, 0x01u8, 0x00u8, 0x00u8, 0x00u8],
            forall|i: int| 5 <= i < patch@.len() ==> patch@[i] == 0x90,
        decreases S7K_FONT_STARTUP_PATCH_LEN - patch@.len(),
    {
        let ghost before = patch@;
        patch.push(0x90);
        proof {
            assert(patch@.take(5) =~= before.take(5));
        }
    }
    patch
}

/// The version signatures that friend injection knows for a version, the
/// HD client's where they differ from the SD client's.
pub open spec fn friend_signatures_spec(version: MhfVersion, hd: bool) -> Seq<Seq<char>> {
    match version {
        MhfVersion::S6 => seq!["v1.13.3246"@],
        MhfVersion::S7K => seq!["v7.0.14_2"@],
        MhfVersion::F4 => seq!["v1.20_107869"@],
        MhfVersion::F5 => seq!["v1.20_125635"@, "v1.20_133710"@],
        MhfVersion::G1 => seq!["v1.22_153077"@, "v1.22_156129"@],
        MhfVersion::G2 => seq!["v1.23_187828"@],
        MhfVersion::G3 => seq!["v1.27_211402"@, "v1.27_212295"@],
        MhfVersion::G3_1 => seq!["v1.27_213258"@, "v1.27_215335"@, "v1.27_217155"@],
        MhfVersion::G3_2 => seq!["v1.27_222273"@, "v1.27_223087"@],
        MhfVersion::GG => seq!["v1.28_246880"@],
        MhfVersion::G5_1 => seq!["v1.30.283838"@],
        MhfVersion::G5_2 => seq!["v1.32_302094"@],
        MhfVersion::G6 => if hd {
            seq!["v1.33_326088"@]
        } else {
            seq!["v1.33_325336"@]
        },
        MhfVersion::G7 => if hd {
            seq!["v1.36.05_a924ce4d"@]
        } else {
            seq!["v1.36.05_936940dd"@]
        },
        MhfVersion::G9_1 => if hd {
            seq!["v1.38.19_47c90390"@]
        } else {
            seq!["v1.38.19_e8966870"@]
        },
        MhfVersion::G10_1 => if hd {
            seq!["v1.41.30_f5ed3a6a"@, "v1.41.32_5c06b547"@]
        } else {
            seq!["v1.41.30_c730c673"@, "v1.41.32_8acc3715"@]
        },
        MhfVersion::Z1 => if hd {
            seq!["v1.44.45_dca95f5f"@]
        } else {
            seq!["v1.44.45_15a73eb7"@]
        },
        MhfVersion::ZZ => if hd {
            seq!["v1.52.79_73c49f52"@]
        } else {
            seq!["v1.52.79_04d16dc4"@]
        },
        MhfVersion::G5 => Seq::empty(),
        MhfVersion::Z2 => Seq::empty(),
        MhfVersion::Z2T => Seq::empty(),
    }
}

fn push_signature(out: &mut Vec<String>, s: &str)
    ensures
        final(out)@.map_values(|x: String| x@) == old(out)@.map_values(|x: String| x@).push(s@),
{
    let ghost before = out@;
    out.push(s.to_string());
    proof {
        assert(out@.map_values(|x: String| x@) =~= before.map_values(|x: String| x@).push(s@));
    }
}

/// The version signatures that friend injection knows for `version`; for
/// versions with a separate HD client, `hd` selects its signatures.
pub fn available_friend_signatures(version: MhfVersion, hd: bool) -> (v: Vec<String>)
    ensures
        v@.map_values(|s: String| s@) == friend_signatures_spec(version, hd),
{
    let mut out: Vec<String> = Vec::new();
    proof {
        assert(out@.map_values(|x: String| x@) =~= Seq::<Seq<char>>::empty());
    }
    match version {
        MhfVersion::S6 => {
            push_signature(&mut out, "v1.13.3246");
        },
        MhfVersion::S7K => {
            push_signature(&mut out, "v7.0.14_2");
        },
        MhfVersion::F4 => {
            push_signature(&mut out, "v1.20_107869");
        },
        MhfVersion::F5 => {
            push_signature(&mut out, "v1.20_125635");
            push_signature(&mut out, "v1.20_133710");
        },
        MhfVersion::G1 => {
            push_signature(&mut out, "v1.22_153077");
            push_signature(&mut out, "v1.22_156129");
        },
        MhfVersion::G2 => {
            push_signature(&mut out, "v1.23_187828");
        },
        MhfVersion::G3 => {
            push_signature(&mut out, "v1.27_211402");
            push_signature(&mut out, "v1.27_212295");
        },
        MhfVersion::G3_1 => {
            push_signature(&mut out, "v1.27_213258");
            push_signature(&mut out, "v1.27_215335");
            push_signature(&mut out, "v1.27_217155");
        },
        MhfVersion::G3_2 => {
            push_signature(&mut out, "v1.27_222273");
            push_signature(&mut out, "v1.27_223087");
        },
        MhfVersion::GG => {
            push_signature(&mut out, "v1.28_246880");
        },
        MhfVersion::G5_1 => {
            push_signature(&mut out, "v1.30.283838");
        },
        MhfVersion::G5_2 => {
            push_signature(&mut out, "v1.32_302094");
        },
        MhfVersion::G6 => {
            if hd {
                push_signature(&mut out, "v1.33_326088");
            } else {
                push_signature(&mut out, "v1.33_325336");
            }
        },
        MhfVersion::G7 => {
            if hd {
                push_signature(&mut out, "v1.36.05_a924ce4d");
            } else {
                push_signature(&mut out, "v1.36.05_936940dd");
            }
        },
        MhfVersion::G9_1 => {
            if hd {
                push_signature(&mut out, "v1.38.19_47c90390");
            } else {
                push_signature(&mut out, "v1.38.19_e8966870");
            }
        },
        MhfVersion::G10_1 => {
            if hd {
                push_signature(&mut out, "v1.41.30_f5ed3a6a");
                push_signature(&mut out, "v1.41.32_5c06b547");
            } else {
                push_signature(&mut out, "v1.41.30_c730c673");
                push_signature(&mut out, "v1.41.32_8acc3715");
            }
        },
        MhfVersion::Z1 => {
            if hd {
                push_signature(&mut out, "v1.44.45_dca95f5f");
            } else {
                push_signature(&mut out, "v1.44.45_15a73eb7");
            }
        },
        MhfVersion::ZZ => {
            if hd {
                push_signature(&mut out, "v1.52.79_73c49f52");
            } else {
                push_signature(&mut out, "v1.52.79_04d16dc4");
            }
        },
        MhfVersion::G5 => {
        },
        MhfVersion::Z2 => {
        },
        MhfVersion::Z2T => {
        },
    }
    proof {
        assert(out@.map_values(|x: String| x@) =~= friend_signatures_spec(version, hd));
    }
    out
}

} // verus!
