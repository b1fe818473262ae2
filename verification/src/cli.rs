//! Command-line launch: the options, the authentication reply that the
//! command line works with, and the launch configuration built from them.
use vstd::prelude::*;

use crate::mhf::{stall_code, FriendData, MezFesStall, MhfConfig, Notice};
use crate::text::{
    decimal, decimal_string, parse_uint_spec, parse_usize, str_chars, str_eq, string_from_chars,
    trim_chars, trim_spec,
};
use crate::version::{label_to_version, version_named, MhfVersion};

verus! {

/// Options of a command-line launch.
#[derive(Debug, Clone)]
pub struct CliArgs {
    pub username: String,
    pub password: String,
    pub server_host: String,
    pub launcher_port: u16,
    pub game_port: u16,
    pub version: String,
    pub character_slot: usize,
    pub hd: bool,
    pub sign_server: bool,
    pub friend_signature: Option<String>,
    pub list_versions: bool,
    pub list_signatures: bool,
}

/// The account part of an authentication reply.
#[derive(Debug, Clone)]
pub struct CliUserData {
    pub token_id: u32,
    pub token: String,
    pub rights: u32,
}

/// A character as an authentication reply lists it.
#[derive(Debug, Clone)]
pub struct CliCharacterData {
    pub id: u32,
    pub name: String,
    pub is_female: bool,
    pub weapon: u32,
    pub hr: u32,
    pub gr: u32,
    pub last_login: u32,
    pub is_new: bool,
}

/// The MezFes event part of an authentication reply.
#[derive(Debug, Clone)]
pub struct CliMezFesData {
    pub id: u32,
    pub start: u32,
    pub end: u32,
    pub solo_tickets: u32,
    pub group_tickets: u32,
    pub stalls: Vec<u32>,
}

/// A friend as an authentication reply lists it.
#[derive(Debug, Clone)]
pub struct CliFriendData {
    pub cid: u32,
    pub id: u32,
    pub name: String,
}

/// An authentication reply as the command line uses it.
#[derive(Debug, Clone)]
pub struct CliAuthResponse {
    pub current_ts: u32,
    pub expiry_ts: u32,
    pub entrance_count: u32,
    pub notices: Vec<String>,
    pub user: CliUserData,
    pub characters: Vec<CliCharacterData>,
    pub mez_fez: Option<CliMezFesData>,
    pub friends: Vec<CliFriendData>,
    pub patch_server: String,
}

/// A character with its name as text.
pub struct CharacterView {
    pub id: u32,
    pub name: Seq<char>,
    pub is_female: bool,
    pub weapon: u32,
    pub hr: u32,
    pub gr: u32,
    pub last_login: u32,
    pub is_new: bool,
}

impl View for CliCharacterData {
    type V = CharacterView;

    open spec fn view(&self) -> CharacterView {
        CharacterView {
            id: self.id,
            name: self.name@,
            is_female: self.is_female,
            weapon: self.weapon,
            hr: self.hr,
            gr: self.gr,
            last_login: self.last_login,
            is_new: self.is_new,
        }
    }
}

/// A friend with its name as text.
pub struct FriendView {
    pub cid: u32,
    pub id: u32,
    pub name: Seq<char>,
}

impl View for CliFriendData {
    type V = FriendView;

    open spec fn view(&self) -> FriendView {
        FriendView { cid: self.cid, id: self.id, name: self.name@ }
    }
}

/// The MezFes event with its stalls as a sequence.
pub struct MezFesView {
    pub id: u32,
    pub start: u32,
    pub end: u32,
    pub solo_tickets: u32,
    pub group_tickets: u32,
    pub stalls: Seq<u32>,
}

impl View for CliMezFesData {
    type V = MezFesView;

    open spec fn view(&self) -> MezFesView {
        MezFesView {
            id: self.id,
            start: self.start,
            end: self.end,
            solo_tickets: self.solo_tickets,
            group_tickets: self.group_tickets,
            stalls: self.stalls@,
        }
    }
}

/// An authentication reply with its texts and lists as sequences.
pub struct AuthView {
    pub current_ts: u32,
    pub expiry_ts: u32,
    pub entrance_count: u32,
    pub notices: Seq<Seq<char>>,
    pub token_id: u32,
    pub token: Seq<char>,
    pub rights: u32,
    pub characters: Seq<CharacterView>,
    pub mez_fez: Option<MezFesView>,
    pub friends: Seq<FriendView>,
    pub patch_server: Seq<char>,
}

impl View for CliAuthResponse {
    type V = AuthView;

    open spec fn view(&self) -> AuthView {
        AuthView {
            current_ts: self.current_ts,
            expiry_ts: self.expiry_ts,
            entrance_count: self.entrance_count,
            notices: self.notices@.map_values(|n: String| n@),
            token_id: self.user.token_id,
            token: self.user.token@,
            rights: self.user.rights,
            characters: self.characters@.map_values(|c: CliCharacterData| c@),
            mez_fez: match self.mez_fez {
                Some(m) => Some(m@),
                None => None,
            },
            friends: self.friends@.map_values(|f: CliFriendData| f@),
            patch_server: self.patch_server@,
        }
    }
}


/// Command-line options with texts as sequences.
pub struct CliArgsView {
    pub username: Seq<char>,
    pub password: Seq<char>,
    pub server_host: Seq<char>,
    pub launcher_port: u16,
    pub game_port: u16,
    pub version: Seq<char>,
    pub character_slot: usize,
    pub hd: bool,
    pub sign_server: bool,
    pub friend_signature: Option<Seq<char>>,
    pub list_versions: bool,
    pub list_signatures: bool,
}

/// The text of an optional string.
pub open spec fn opt_text(s: Option<String>) -> Option<Seq<char>> {
    match s {
        Some(t) => Some(t@),
        None => None,
    }
}

impl View for CliArgs {
    type V = CliArgsView;

    open spec fn view(&self) -> CliArgsView {
        CliArgsView {
            username: self.username@,
            password: self.password@,
            server_host: self.server_host@,
            launcher_port: self.launcher_port,
            game_port: self.game_port,
            version: self.version@,
            character_slot: self.character_slot,
            hd: self.hd,
            sign_server: self.sign_server,
            friend_signature: opt_text(self.friend_signature),
            list_versions: self.list_versions,
            list_signatures: self.list_signatures,
        }
    }
}

/// An option that takes a value.
#[derive(Clone, Copy, PartialEq, Eq, Structural)]
pub enum ValueOption {
    Version,
    Username,
    Password,
    Server,
    LauncherPort,
    GamePort,
    Character,
    FriendSignature,
}

/// An option that stands alone.
#[derive(Clone, Copy, PartialEq, Eq, Structural)]
pub enum FlagOption {
    Hd,
    SignServer,
    ListVersions,
    ListSignatures,
}

/// What a command-line argument is.
#[derive(Clone, Copy, PartialEq, Eq, Structural)]
pub enum ArgKind {
    Value(ValueOption),
    Flag(FlagOption),
    Unknown,
}

/// The kind of the argument `a`.
pub open spec fn arg_kind_spec(a: Seq<char>) -> ArgKind {
    if a == "-v"@ || a == "--version"@ {
        ArgKind::Value(ValueOption::Version)
    } else if a == "-u"@ || a == "--username"@ {
        ArgKind::Value(ValueOption::Username)
    } else if a == "-pw"@ || a == "--password"@ {
        ArgKind::Value(ValueOption::Password)
    } else if a == "-s"@ || a == "--server"@ {
        ArgKind::Value(ValueOption::Server)
    } else if a == "-p1"@ || a == "--launcher-port"@ {
        ArgKind::Value(ValueOption::LauncherPort)
    } else if a == "-p2"@ || a == "--game-port"@ {
        ArgKind::Value(ValueOption::GamePort)
    } else if a == "-c"@ || a == "--character"@ {
        ArgKind::Value(ValueOption::Character)
    } else if a == "-HD"@ || a == "--hd"@ {
        ArgKind::Flag(FlagOption::Hd)
    } else if a == "-t"@ || a == "--sign-server"@ {
        ArgKind::Flag(FlagOption::SignServer)
    } else if a == "-fs"@ || a == "--friend-signature"@ {
        ArgKind::Value(ValueOption::FriendSignature)
    } else if a == "--list-versions"@ || a == "--list-version"@ {
        ArgKind::Flag(FlagOption::ListVersions)
    } else if a == "--list-signatures"@ {
        ArgKind::Flag(FlagOption::ListSignatures)
    } else {
        ArgKind::Unknown
    }
}

/// Classifies a command-line argument.
pub fn arg_kind(a: &str) -> (k: ArgKind)
    ensures
        k == arg_kind_spec(a@),
        forall|i: int|
            0 <= i < 12 && (a@ == #[trigger] option_forms()[i].0 || a@ == option_forms()[i].1) ==> k
                == option_kinds()[i],
{
    proof {
        lemma_option_forms();
    }
    if str_eq(a, "-v") || str_eq(a, "--version") {
        ArgKind::Value(ValueOption::Version)
    } else if str_eq(a, "-u") || str_eq(a, "--username") {
        ArgKind::Value(ValueOption::Username)
    } else if str_eq(a, "-pw") || str_eq(a, "--password") {
        ArgKind::Value(ValueOption::Password)
    } else if str_eq(a, "-s") || str_eq(a, "--server") {
        ArgKind::Value(ValueOption::Server)
    } else if str_eq(a, "-p1") || str_eq(a, "--launcher-port") {
        ArgKind::Value(ValueOption::LauncherPort)
    } else if str_eq(a, "-p2") || str_eq(a, "--game-port") {
        ArgKind::Value(ValueOption::GamePort)
    } else if str_eq(a, "-c") || str_eq(a, "--character") {
        ArgKind::Value(ValueOption::Character)
    } else if str_eq(a, "-HD") || str_eq(a, "--hd") {
        ArgKind::Flag(FlagOption::Hd)
    } else if str_eq(a, "-t") || str_eq(a, "--sign-server") {
        ArgKind::Flag(FlagOption::SignServer)
    } else if str_eq(a, "-fs") || str_eq(a, "--friend-signature") {
        ArgKind::Value(ValueOption::FriendSignature)
    } else if str_eq(a, "--list-versions") || str_eq(a, "--list-version") {
        ArgKind::Flag(FlagOption::ListVersions)
    } else if str_eq(a, "--list-signatures") {
        ArgKind::Flag(FlagOption::ListSignatures)
    } else {
        ArgKind::Unknown
    }
}

/// The message for an option given without its value.
pub open spec fn missing_value_spec(o: ValueOption) -> Seq<char> {
    match o {
        ValueOption::Version => "--version requires a value"@,
        ValueOption::Username => "--username requires a value"@,
        ValueOption::Password => "--password requires a value"@,
        ValueOption::Server => "--server requires a value"@,
        ValueOption::LauncherPort => "--launcher-port requires a value"@,
        ValueOption::GamePort => "--game-port requires a value"@,
        ValueOption::Character => "--character requires a value"@,
        ValueOption::FriendSignature => "--friend-signature requires a value"@,
    }
}

/// The message for an option given without its value.
pub fn missing_value_message(o: ValueOption) -> (m: String)
    ensures
        m@ == missing_value_spec(o),
{
    match o {
        ValueOption::Version => "--version requires a value".to_string(),
        ValueOption::Username => "--username requires a value".to_string(),
        ValueOption::Password => "--password requires a value".to_string(),
        ValueOption::Server => "--server requires a value".to_string(),
        ValueOption::LauncherPort => "--launcher-port requires a value".to_string(),
        ValueOption::GamePort => "--game-port requires a value".to_string(),
        ValueOption::Character => "--character requires a value".to_string(),
        ValueOption::FriendSignature => "--friend-signature requires a value".to_string(),
    }
}

/// The options read so far, before the required ones are checked.
pub struct OptionsSeen {
    pub username: Option<Seq<char>>,
    pub password: Option<Seq<char>>,
    pub server: Option<Seq<char>>,
    pub launcher_port: Option<u16>,
    pub game_port: Option<u16>,
    pub version: Option<Seq<char>>,
    pub character_slot: Option<usize>,
    pub hd: bool,
    pub sign_server: bool,
    pub friend_signature: Option<Seq<char>>,
    pub list_versions: bool,
    pub list_signatures: bool,
}

/// Nothing read yet.
pub open spec fn no_options() -> OptionsSeen {
    OptionsSeen {
        username: None,
        password: None,
        server: None,
        launcher_port: None,
        game_port: None,
        version: None,
        character_slot: None,
        hd: false,
        sign_server: false,
        friend_signature: None,
        list_versions: false,
        list_signatures: false,
    }
}

/// `st` with the flag `f` set.
pub open spec fn set_flag(st: OptionsSeen, f: FlagOption) -> OptionsSeen {
    match f {
        FlagOption::Hd => OptionsSeen { hd: true, ..st },
        FlagOption::SignServer => OptionsSeen { sign_server: true, ..st },
        FlagOption::ListVersions => OptionsSeen { list_versions: true, ..st },
        FlagOption::ListSignatures => OptionsSeen { list_signatures: true, ..st },
    }
}

/// `st` with the option `o` given the value `v`, or the message for a value
/// that is not a number where one is due.
pub open spec fn set_value(st: OptionsSeen, o: ValueOption, v: Seq<char>) -> Result<
    OptionsSeen,
    Seq<char>,
> {
    match o {
        ValueOption::Version => Ok(OptionsSeen { version: Some(v), ..st }),
        ValueOption::Username => Ok(OptionsSeen { username: Some(v), ..st }),
        ValueOption::Password => Ok(OptionsSeen { password: Some(v), ..st }),
        ValueOption::Server => Ok(OptionsSeen { server: Some(v), ..st }),
        ValueOption::FriendSignature => Ok(OptionsSeen { friend_signature: Some(v), ..st }),
        ValueOption::LauncherPort => match parse_uint_spec(v, 65535) {
            Some(n) => Ok(OptionsSeen { launcher_port: Some(n as u16), ..st }),
            None => Err("invalid launcher port: "@ + v),
        },
        ValueOption::GamePort => match parse_uint_spec(v, 65535) {
            Some(n) => Ok(OptionsSeen { game_port: Some(n as u16), ..st }),
            None => Err("invalid game port: "@ + v),
        },
        ValueOption::Character => match parse_uint_spec(v, usize::MAX as int) {
            Some(n) => Ok(OptionsSeen { character_slot: Some(n as usize), ..st }),
            None => Err("invalid character slot: "@ + v),
        },
    }
}

/// Reads the arguments from position `i` on into `st`: options one after
/// another, each value right after its option; the first problem ends it.
pub open spec fn read_options(args: Seq<Seq<char>>, i: int, st: OptionsSeen) -> Result<
    OptionsSeen,
    Seq<char>,
>
    decreases args.len() - i,
{
    if i < 0 || i >= args.len() {
        Ok(st)
    } else {
        match arg_kind_spec(args[i]) {
            ArgKind::Flag(f) => read_options(args, i + 1, set_flag(st, f)),
            ArgKind::Value(o) => if i + 1 >= args.len() {
                Err(missing_value_spec(o))
            } else {
                match set_value(st, o, args[i + 1]) {
                    Ok(next) => read_options(args, i + 2, next),
                    Err(e) => Err(e),
                }
            },
            ArgKind::Unknown => Err("unknown option: "@ + args[i]),
        }
    }
}

/// The options once all arguments are read: the required ones must be
/// there; the launcher port defaults to the sign server's or the API's port,
/// the game port to the entrance port.
pub open spec fn finish_options(st: OptionsSeen) -> Result<CliArgsView, Seq<char>> {
    if st.username is None {
        Err("-u/--username is required"@)
    } else if st.password is None {
        Err("-pw/--password is required"@)
    } else if st.server is None {
        Err("-s/--server is required"@)
    } else if st.version is None {
        Err("-v/--version is required"@)
    } else if st.character_slot is None {
        Err("-c/--character is required"@)
    } else {
        Ok(
            CliArgsView {
                username: st.username.unwrap(),
                password: st.password.unwrap(),
                server_host: st.server.unwrap(),
                launcher_port: match st.launcher_port {
                    Some(p) => p,
                    None => if st.sign_server {
                        53312
                    } else {
                        8080
                    },
                },
                game_port: match st.game_port {
                    Some(p) => p,
                    None => 53310,
                },
                version: st.version.unwrap(),
                character_slot: st.character_slot.unwrap(),
                hd: st.hd,
                sign_server: st.sign_server,
                friend_signature: st.friend_signature,
                list_versions: st.list_versions,
                list_signatures: st.list_signatures,
            },
        )
    }
}

/// What the command line `args` (the program's name first) comes to.
pub open spec fn parse_args_spec(args: Seq<Seq<char>>) -> Result<CliArgsView, Seq<char>> {
    match read_options(args, 1, no_options()) {
        Ok(st) => finish_options(st),
        Err(e) => Err(e),
    }
}

/// The texts of a list of strings.
pub open spec fn texts(v: Seq<String>) -> Seq<Seq<char>> {
    v.map_values(|s: String| s@)
}

/// Options read so far, held as values.
struct Seen {
    username: Option<String>,
    password: Option<String>,
    server: Option<String>,
    launcher_port: Option<u16>,
    game_port: Option<u16>,
    version: Option<String>,
    character_slot: Option<usize>,
    hd: bool,
    sign_server: bool,
    friend_signature: Option<String>,
    list_versions: bool,
    list_signatures: bool,
}

impl View for Seen {
    type V = OptionsSeen;

    closed spec fn view(&self) -> OptionsSeen {
        OptionsSeen {
            username: opt_text(self.username),
            password: opt_text(self.password),
            server: opt_text(self.server),
            launcher_port: self.launcher_port,
            game_port: self.game_port,
            version: opt_text(self.version),
            character_slot: self.character_slot,
            hd: self.hd,
            sign_server: self.sign_server,
            friend_signature: opt_text(self.friend_signature),
            list_versions: self.list_versions,
            list_signatures: self.list_signatures,
        }
    }
}

/// `s` followed by `t`.
fn concat(s: &str, t: &str) -> (r: String)
    ensures
        r@ == s@ + t@,
{
    let mut r = s.to_string();
    r.append(t);
    r
}

/// Parses `v` as a port number.
fn parse_port(v: &str) -> (r: Option<u16>)
    ensures
        match r {
            Some(n) => parse_uint_spec(v@, 65535) == Some(n as int),
            None => parse_uint_spec(v@, 65535) is None,
        },
{
    match parse_usize(v) {
        Some(n) => if n <= 65535 {
            Some(n as u16)
        } else {
            None
        },
        None => None,
    }
}

/// Gives the option `o` the value `v`.
fn apply_value(seen: &mut Seen, o: ValueOption, v: &String) -> (r: Result<(), String>)
    ensures
        match set_value(old(seen)@, o, v@) {
            Ok(next) => r is Ok && final(seen)@ == next,
            Err(e) => r matches Err(m) && m@ == e,
        },
{
    proof {
        reveal_strlit("invalid launcher port: ");
        reveal_strlit("invalid game port: ");
        reveal_strlit("invalid character slot: ");
    }
    match o {
        ValueOption::Version => {
            seen.version = Some(v.clone());
        },
        ValueOption::Username => {
            seen.username = Some(v.clone());
        },
        ValueOption::Password => {
            seen.password = Some(v.clone());
        },
        ValueOption::Server => {
            seen.server = Some(v.clone());
        },
        ValueOption::FriendSignature => {
            seen.friend_signature = Some(v.clone());
        },
        ValueOption::LauncherPort => match parse_port(v.as_str()) {
            Some(n) => {
                seen.launcher_port = Some(n);
            },
            None => {
                return Err(concat("invalid launcher port: ", v.as_str()));
            },
        },
        ValueOption::GamePort => match parse_port(v.as_str()) {
            Some(n) => {
                seen.game_port = Some(n);
            },
            None => {
                return Err(concat("invalid game port: ", v.as_str()));
            },
        },
        ValueOption::Character => match parse_usize(v.as_str()) {
            Some(n) => {
                seen.character_slot = Some(n);
            },
            None => {
                return Err(concat("invalid character slot: ", v.as_str()));
            },
        },
    }
    Ok(())
}

/// Reads the command line `args`, the program's name first: each option,
/// with its value where it takes one; then checks that the required options
/// are there and fills in the default ports.
pub fn parse_args(args: &[String]) -> (r: Result<CliArgs, String>)
    ensures
        match parse_args_spec(texts(args@)) {
            Ok(v) => r matches Ok(a) && a@ == v,
            Err(e) => r matches Err(m) && m@ == e,
        },
{
    let ghost a = texts(args@);
    let mut seen = Seen {
        username: None,
        password: None,
        server: None,
        launcher_port: None,
        game_port: None,
        version: None,
        character_slot: None,
        hd: false,
        sign_server: false,
        friend_signature: None,
        list_versions: false,
        list_signatures: false,
    };
    let mut i: usize = 1;
    while i < args.len()
        invariant
            a == texts(args@),
            1 <= i,
            i <= args@.len() + 1,
            read_options(a, 1, no_options()) == read_options(a, i as int, seen@),
        decreases args@.len() + 1 - i,
    {
        assert(a[i as int] == args@[i as int]@);
        match arg_kind(args[i].as_str()) {
            ArgKind::Flag(f) => {
                match f {
                    FlagOption::Hd => {
                        seen.hd = true;
                    },
                    FlagOption::SignServer => {
                        seen.sign_server = true;
                    },
                    FlagOption::ListVersions => {
                        seen.list_versions = true;
                    },
                    FlagOption::ListSignatures => {
                        seen.list_signatures = true;
                    },
                }
                i = i + 1;
            },
            ArgKind::Value(o) => {
                if i + 1 >= args.len() {
                    return Err(missing_value_message(o));
                }
                assert(a[i + 1] == args@[i + 1]@);
                match apply_value(&mut seen, o, &args[i + 1]) {
                    Ok(()) => {},
                    Err(e) => {
                        return Err(e);
                    },
                }
                i = i + 2;
            },
            ArgKind::Unknown => {
                proof {
                    reveal_strlit("unknown option: ");
                }
                return Err(concat("unknown option: ", args[i].as_str()));
            },
        }
    }
    let username = match seen.username {
        Some(u) => u,
        None => {
            return Err("-u/--username is required".to_string());
        },
    };
    let password = match seen.password {
        Some(p) => p,
        None => {
            return Err("-pw/--password is required".to_string());
        },
    };
    let server_host = match seen.server {
        Some(s) => s,
        None => {
            return Err("-s/--server is required".to_string());
        },
    };
    let version = match seen.version {
        Some(v) => v,
        None => {
            return Err("-v/--version is required".to_string());
        },
    };
    let character_slot = match seen.character_slot {
        Some(c) => c,
        None => {
            return Err("-c/--character is required".to_string());
        },
    };
    let launcher_port = match seen.launcher_port {
        Some(p) => p,
        None => if seen.sign_server {
            53312
        } else {
            8080
        },
    };
    let game_port = match seen.game_port {
        Some(p) => p,
        None => 53310,
    };
    Ok(
        CliArgs {
            username,
            password,
            server_host,
            launcher_port,
            game_port,
            version,
            character_slot,
            hd: seen.hd,
            sign_server: seen.sign_server,
            friend_signature: seen.friend_signature,
            list_versions: seen.list_versions,
            list_signatures: seen.list_signatures,
        },
    )
}


/// The stall codes among `codes` that name a stall (2 to 10), in order.
pub open spec fn valid_stall_codes(codes: Seq<u32>) -> Seq<u32>
    decreases codes.len(),
{
    if codes.len() == 0 {
        Seq::empty()
    } else {
        let rest = valid_stall_codes(codes.drop_last());
        if 2 <= codes.last() <= 10 {
            rest.push(codes.last())
        } else {
            rest
        }
    }
}

/// The codes of a list of stalls.
pub open spec fn stall_codes(stalls: Seq<MezFesStall>) -> Seq<u32> {
    stalls.map_values(|s: MezFesStall| stall_code(s))
}

/// The stalls named by `codes`; codes that name no stall are left out.
pub fn stalls_from_codes(codes: &[u32]) -> (r: Vec<MezFesStall>)
    ensures
        stall_codes(r@) == valid_stall_codes(codes@),
{
    let mut out: Vec<MezFesStall> = Vec::new();
    let mut i: usize = 0;
    while i < codes.len()
        invariant
            i <= codes@.len(),
            stall_codes(out@) == valid_stall_codes(codes@.take(i as int)),
        decreases codes@.len() - i,
    {
        let ghost before = out@;
        assert(codes@.take(i + 1).drop_last() =~= codes@.take(i as int));
        match MezFesStall::from_code(codes[i]) {
            Some(st) => {
                out.push(st);
                assert(stall_codes(out@) =~= stall_codes(before).push(codes@[i as int]));
            },
            None => {},
        }
        i = i + 1;
    }
    assert(codes@.take(codes@.len() as int) =~= codes@);
    out
}

/// The message for a version label that names no version.
pub open spec fn unknown_version_spec(label: Seq<char>) -> Seq<char> {
    "unknown version: "@ + label
}

/// The message for a character slot past the end of the list.
pub open spec fn slot_out_of_range_spec(slot: nat, count: nat) -> Seq<char> {
    "character slot "@ + decimal(slot) + " out of range (has "@ + decimal(count)
        + " characters)"@
}

/// Whether `cfg` is the launch configuration for character `c` of `auth`,
/// the options `args`, the game version `v` and the font at `font_path`.
pub open spec fn launch_config_matches(
    cfg: MhfConfig,
    auth: CliAuthResponse,
    args: CliArgs,
    c: CliCharacterData,
    v: MhfVersion,
    font_path: Option<Seq<char>>,
) -> bool {
    &&& cfg.char_id == c.id
    &&& cfg.char_name@ == c.name@
    &&& cfg.char_gr == c.gr
    &&& cfg.char_hr == c.hr
    &&& cfg.char_ids@ == auth.characters@.map_values(|x: CliCharacterData| x.id)
    &&& cfg.char_new == c.is_new
    &&& cfg.user_token_id == auth.user.token_id
    &&& cfg.user_token@ == auth.user.token@
    &&& cfg.user_name@ == args.username@
    &&& cfg.user_password@ == args.password@
    &&& cfg.user_rights == auth.user.rights
    &&& cfg.server_host@ == args.server_host@
    &&& cfg.server_port == args.game_port as u32
    &&& cfg.entrance_count == auth.entrance_count
    &&& cfg.current_ts == auth.current_ts
    &&& cfg.expiry_ts == auth.expiry_ts
    &&& cfg.notices@.len() == auth.notices@.len()
    &&& (forall|i: int|
        0 <= i < auth.notices@.len() ==> (#[trigger] cfg.notices@[i]).flags == 0
            && cfg.notices@[i].data@ == auth.notices@[i]@)
    &&& cfg.friends@.len() == auth.friends@.len()
    &&& (forall|i: int|
        0 <= i < auth.friends@.len() ==> (#[trigger] cfg.friends@[i]).cid == auth.friends@[i].cid
            && cfg.friends@[i].id == auth.friends@[i].id && cfg.friends@[i].name@
            == auth.friends@[i].name@)
    &&& cfg.mez_event_id == 0
    &&& cfg.mez_start == 0
    &&& cfg.mez_end == 0
    &&& cfg.mez_solo_tickets == 0
    &&& cfg.mez_group_tickets == 0
    &&& stall_codes(cfg.mez_stalls@) == valid_stall_codes(
        match auth.mez_fez {
            Some(m) => m.stalls@,
            None => Seq::empty(),
        },
    )
    &&& cfg.version == v
    &&& cfg.mutex_version == v
    &&& cfg.mutex_fallback_version is None
    &&& !cfg.preload_controller_dlls
    &&& opt_text(cfg.friend_signature) == opt_text(args.friend_signature)
    &&& cfg.enable_font_registration
    &&& cfg.mhf_folder is None
    &&& opt_text(cfg.font_path) == font_path
    &&& cfg.mhf_flags is None
}

/// The font the launcher registers for a game version.
pub open spec fn launcher_font_name_spec(v: MhfVersion) -> Seq<char> {
    match v {
        MhfVersion::Z2T => "dft_0.ttc"@,
        _ => "MS Gothic.ttf"@,
    }
}

/// The file name of the font the launcher registers for `version`.
pub fn launcher_font_name(version: MhfVersion) -> (s: &'static str)
    ensures
        s@ == launcher_font_name_spec(version),
{
    match version {
        MhfVersion::Z2T => "dft_0.ttc",
        _ => "MS Gothic.ttf",
    }
}

/// Builds the launch configuration for the character in the chosen slot:
/// the version label must name a version and the slot must hold a
/// character; `font_path` is where the launcher font was found, if anywhere.
pub fn build_cli_launch_config(
    auth_resp: &CliAuthResponse,
    args: &CliArgs,
    font_path: Option<String>,
) -> (r: Result<MhfConfig, String>)
    ensures
        match version_named(trim_spec(args.version@)) {
            None => r matches Err(m) && m@ == unknown_version_spec(args.version@),
            Some(v) => if args.character_slot >= auth_resp.characters@.len() {
                r matches Err(m) && m@ == slot_out_of_range_spec(
                    args.character_slot as nat,
                    auth_resp.characters@.len(),
                )
            } else {
                r matches Ok(cfg) && launch_config_matches(
                    cfg,
                    *auth_resp,
                    *args,
                    auth_resp.characters@[args.character_slot as int],
                    v,
                    opt_text(font_path),
                )
            },
        },
{
    let version = match label_to_version(args.version.as_str()) {
        Some(v) => v,
        None => {
            proof {
                reveal_strlit("unknown version: ");
            }
            let mut m = "unknown version: ".to_string();
            m.append(args.version.as_str());
            return Err(m);
        },
    };
    if args.character_slot >= auth_resp.characters.len() {
        let mut m = "character slot ".to_string();
        let slot = decimal_string(args.character_slot as u128);
        m.append(slot.as_str());
        m.append(" out of range (has ");
        let count = decimal_string(auth_resp.characters.len() as u128);
        m.append(count.as_str());
        m.append(" characters)");
        proof {
            reveal_strlit("character slot ");
            reveal_strlit(" out of range (has ");
            reveal_strlit(" characters)");
        }
        return Err(m);
    }
    let c = &auth_resp.characters[args.character_slot];
    let mut char_ids: Vec<u32> = Vec::new();
    let mut i: usize = 0;
    while i < auth_resp.characters.len()
        invariant
            i <= auth_resp.characters@.len(),
            char_ids@ =~= auth_resp.characters@.take(i as int).map_values(
                |x: CliCharacterData| x.id,
            ),
        decreases auth_resp.characters@.len() - i,
    {
        char_ids.push(auth_resp.characters[i].id);
        i = i + 1;
    }
    assert(auth_resp.characters@.take(auth_resp.characters@.len() as int)
        =~= auth_resp.characters@);
    let mut notices: Vec<Notice> = Vec::new();
    let mut i: usize = 0;
    while i < auth_resp.notices.len()
        invariant
            i <= auth_resp.notices@.len(),
            notices@.len() == i,
            forall|j: int|
                0 <= j < i ==> (#[trigger] notices@[j]).flags == 0 && notices@[j].data@
                    == auth_resp.notices@[j]@,
        decreases auth_resp.notices@.len() - i,
    {
        notices.push(Notice { flags: 0, data: auth_resp.notices[i].clone() });
        i = i + 1;
    }
    let mut friends: Vec<FriendData> = Vec::new();
    let mut i: usize = 0;
    while i < auth_resp.friends.len()
        invariant
            i <= auth_resp.friends@.len(),
            friends@.len() == i,
            forall|j: int|
                0 <= j < i ==> (#[trigger] friends@[j]).cid == auth_resp.friends@[j].cid
                    && friends@[j].id == auth_resp.friends@[j].id && friends@[j].name@
                    == auth_resp.friends@[j].name@,
        decreases auth_resp.friends@.len() - i,
    {
        let f = &auth_resp.friends[i];
        friends.push(FriendData { cid: f.cid, id: f.id, name: f.name.clone() });
        i = i + 1;
    }
    let mez_stalls = match &auth_resp.mez_fez {
        Some(m) => stalls_from_codes(m.stalls.as_slice()),
        None => {
            let v: Vec<MezFesStall> = Vec::new();
            assert(stall_codes(v@) =~= valid_stall_codes(Seq::<u32>::empty()));
            v
        },
    };
    let friend_signature = match &args.friend_signature {
        Some(s) => Some(s.clone()),
        None => None,
    };
    Ok(
        MhfConfig {
            char_id: c.id,
            char_name: c.name.clone(),
            char_gr: c.gr,
            char_hr: c.hr,
            char_ids,
            char_new: c.is_new,
            user_token_id: auth_resp.user.token_id,
            user_token: auth_resp.user.token.clone(),
            user_name: args.username.clone(),
            user_password: args.password.clone(),
            user_rights: auth_resp.user.rights,
            server_host: args.server_host.clone(),
            server_port: args.game_port as u32,
            entrance_count: auth_resp.entrance_count,
            current_ts: auth_resp.current_ts,
            expiry_ts: auth_resp.expiry_ts,
            notices,
            friends,
            mez_event_id: 0,
            mez_start: 0,
            mez_end: 0,
            mez_solo_tickets: 0,
            mez_group_tickets: 0,
            mez_stalls,
            version,
            mutex_version: version,
            mutex_fallback_version: None,
            preload_controller_dlls: false,
            friend_signature,
            enable_font_registration: true,
            mhf_folder: None,
            font_path,
            mhf_flags: None,
        },
    )
}


/// What a command line asks for before anything is launched.
pub enum CliAction {
    /// Print the usage text.
    Help,
    /// List the game versions.
    ListVersions,
    /// List the signatures of the version given after the first "-v" or
    /// "--version", if there is an argument after it.
    ListSignatures(Option<String>),
    /// Parse the options and launch.
    Launch,
    /// No command-line option: start the graphical launcher.
    NotCli,
}

/// Whether some argument of `args` is one of `names`.
pub open spec fn has_arg(args: Seq<Seq<char>>, name: Seq<char>) -> bool {
    exists|i: int| 0 <= i < args.len() && #[trigger] args[i] == name
}

/// Whether `a` is "-v" or "--version".
pub open spec fn is_version_flag(a: Seq<char>) -> bool {
    a == "-v"@ || a == "--version"@
}

/// The position of the first "-v" or "--version" in `args`, if any.
pub open spec fn version_flag_at(args: Seq<Seq<char>>) -> Option<int> {
    if exists|i: int| 0 <= i < args.len() && is_version_flag(#[trigger] args[i]) {
        Some(
            choose|i: int|
                0 <= i < args.len() && is_version_flag(#[trigger] args[i]) && forall|j: int|
                    0 <= j < i ==> !is_version_flag(#[trigger] args[j]),
        )
    } else {
        None
    }
}

/// What the command line `args` (all of them, the program's name too) asks
/// for: help, then the version list, then the signature list, then a launch
/// when any known option is there.
pub open spec fn cli_action_is(args: Seq<Seq<char>>, a: CliAction) -> bool {
    if has_arg(args, "--help"@) || has_arg(args, "-h"@) {
        a is Help
    } else if has_arg(args, "--list-versions"@) || has_arg(args, "--list-version"@) {
        a is ListVersions
    } else if has_arg(args, "--list-signatures"@) {
        a matches CliAction::ListSignatures(v) && opt_text(v) == match version_flag_at(args) {
            Some(p) => if p + 1 < args.len() {
                Some(args[p + 1])
            } else {
                None
            },
            None => None,
        }
    } else if exists|i: int| 0 <= i < args.len() && !(arg_kind_spec(#[trigger] args[i]) is Unknown) {
        a is Launch
    } else {
        a is NotCli
    }
}

/// Whether some argument is `name`.
fn any_arg(args: &[String], name: &str) -> (b: bool)
    ensures
        b == has_arg(texts(args@), name@),
{
    let mut i: usize = 0;
    while i < args.len()
        invariant
            i <= args@.len(),
            forall|j: int| 0 <= j < i ==> args@[j]@ != name@,
        decreases args@.len() - i,
    {
        if str_eq(args[i].as_str(), name) {
            assert(texts(args@)[i as int] == name@);
            return true;
        }
        i = i + 1;
    }
    assert forall|j: int| 0 <= j < texts(args@).len() implies texts(args@)[j] != name@ by {
        assert(texts(args@)[j] == args@[j]@);
    }
    false
}

/// Decides what the command line `args` asks for; a signature listing
/// whose version flag is the last argument has no version.
#[verifier::loop_isolation(false)]
pub fn cli_action(args: &[String]) -> (a: CliAction)
    ensures
        cli_action_is(texts(args@), a),
{
    let ghost t = texts(args@);
    if any_arg(args, "--help") || any_arg(args, "-h") {
        return CliAction::Help;
    }
    if any_arg(args, "--list-versions") || any_arg(args, "--list-version") {
        return CliAction::ListVersions;
    }
    if any_arg(args, "--list-signatures") {
        let mut i: usize = 0;
        while i < args.len()
            invariant
                t == texts(args@),
                i <= args@.len(),
                forall|j: int| 0 <= j < i ==> !is_version_flag(#[trigger] t[j]),
            decreases args@.len() - i,
        {
            assert(t[i as int] == args@[i as int]@);
            if str_eq(args[i].as_str(), "-v") || str_eq(args[i].as_str(), "--version") {
                assert(is_version_flag(t[i as int]));
                let ghost p = version_flag_at(t).unwrap();
                assert(p == i) by {
                    if p < i {
                        assert(!is_version_flag(t[p]));
                    }
                    if p > i {
                        assert(!is_version_flag(t[i as int]));
                    }
                }
                if i + 1 >= args.len() {
                    return CliAction::ListSignatures(None);
                }
                assert(t[i + 1] == args@[i + 1]@);
                return CliAction::ListSignatures(Some(args[i + 1].clone()));
            }
            i = i + 1;
        }
        return CliAction::ListSignatures(None);
    }
    let mut i: usize = 0;
    while i < args.len()
        invariant
            t == texts(args@),
            i <= args@.len(),
            forall|j: int| 0 <= j < i ==> arg_kind_spec(#[trigger] t[j]) is Unknown,
        decreases args@.len() - i,
    {
        assert(t[i as int] == args@[i as int]@);
        match arg_kind(args[i].as_str()) {
            ArgKind::Unknown => {},
            _ => {
                return CliAction::Launch;
            },
        }
        i = i + 1;
    }
    CliAction::NotCli
}

/// The launcher address of a command-line launch: the host alone for the
/// default API port 8080, else "host:port".
pub open spec fn cli_endpoint_url_spec(host: Seq<char>, port: u16) -> Seq<char> {
    if port == 8080 {
        host
    } else {
        host + seq![':'] + decimal(port as nat)
    }
}

/// The launcher address of a command-line launch.
pub fn cli_endpoint_url(host: &str, port: u16) -> (r: String)
    ensures
        r@ == cli_endpoint_url_spec(host@, port),
{
    let mut r = host.to_string();
    if port != 8080 {
        r.append(":");
        let digits = decimal_string(port as u128);
        r.append(digits.as_str());
        proof {
            reveal_strlit(":");
        }
    }
    r
}

/// The signature picked at the prompt from the line `input`: choice 1, or
/// an answer that is not a number, is "none"; choices 2 to `sigs.len() + 1`
/// pick a listed signature; any other number is "none" as well.
pub open spec fn chosen_signature_spec(input: Seq<char>, sigs: Seq<Seq<char>>) -> Seq<char> {
    let n = match parse_uint_spec(trim_spec(input), usize::MAX as int) {
        Some(v) => v,
        None => 1,
    };
    if 2 <= n <= sigs.len() + 1 {
        sigs[n - 2]
    } else {
        "none"@
    }
}

/// The signature picked at the prompt.
pub fn choose_signature(input: &str, sigs: &[String]) -> (r: String)
    ensures
        r@ == chosen_signature_spec(input@, texts(sigs@)),
{
    let chars = str_chars(input);
    let t = trim_chars(chars.as_slice());
    let trimmed = string_from_chars(t.as_slice());
    let n: usize = match parse_usize(trimmed.as_str()) {
        Some(v) => v,
        None => 1,
    };
    if 2 <= n && n - 2 < sigs.len() {
        assert(texts(sigs@)[n - 2] == sigs@[n - 2]@);
        sigs[n - 2].clone()
    } else {
        "none".to_string()
    }
}

/// The error of a login over the API that did not succeed: a refused login
/// (401) has its own message; otherwise the `error`, then the `message` of
/// an error body, when not empty; otherwise the status and the body.
/// `api_error` holds the `error` and `message` fields of the body when it
/// parses as an error body; `status_text` is the status as it prints.
pub open spec fn cli_auth_failure_spec(
    status: u16,
    status_text: Seq<char>,
    body: Seq<char>,
    api_error: Option<(Seq<char>, Seq<char>)>,
) -> Seq<char> {
    if status == 401 {
        "username-password-empty-error"@
    } else {
        match api_error {
            Some((e, m)) => if e.len() != 0 {
                e
            } else if m.len() != 0 {
                m
            } else {
                "server error: "@ + status_text + seq![' '] + body
            },
            None => "server error: "@ + status_text + seq![' '] + body,
        }
    }
}

/// The error of a login over the API that did not succeed.
pub fn cli_auth_failure(
    status: u16,
    status_text: &str,
    body: &str,
    api_error: Option<(String, String)>,
) -> (r: String)
    ensures
        r@ == cli_auth_failure_spec(
            status,
            status_text@,
            body@,
            match api_error {
                Some((e, m)) => Some((e@, m@)),
                None => None,
            },
        ),
{
    if status == 401 {
        return "username-password-empty-error".to_string();
    }
    if let Some((e, m)) = api_error {
        if e.as_str().unicode_len() != 0 {
            return e;
        }
        if m.as_str().unicode_len() != 0 {
            return m;
        }
    }
    let mut r = "server error: ".to_string();
    r.append(status_text);
    r.append(" ");
    r.append(body);
    proof {
        reveal_strlit("server error: ");
        reveal_strlit(" ");
    }
    r
}

/// The documented options, each by its short and its long form (the same
/// text twice for an option with one form), as the usage text lists them.
pub open spec fn option_forms() -> Seq<(Seq<char>, Seq<char>)> {
    seq![
        ("-v"@, "--version"@),
        ("-u"@, "--username"@),
        ("-pw"@, "--password"@),
        ("-s"@, "--server"@),
        ("-p1"@, "--launcher-port"@),
        ("-p2"@, "--game-port"@),
        ("-c"@, "--character"@),
        ("-HD"@, "--hd"@),
        ("-t"@, "--sign-server"@),
        ("-fs"@, "--friend-signature"@),
        ("--list-versions"@, "--list-version"@),
        ("--list-signatures"@, "--list-signatures"@),
    ]
}

/// What each documented option is, in the order of `option_forms`.
pub open spec fn option_kinds() -> Seq<ArgKind> {
    seq![
        ArgKind::Value(ValueOption::Version),
        ArgKind::Value(ValueOption::Username),
        ArgKind::Value(ValueOption::Password),
        ArgKind::Value(ValueOption::Server),
        ArgKind::Value(ValueOption::LauncherPort),
        ArgKind::Value(ValueOption::GamePort),
        ArgKind::Value(ValueOption::Character),
        ArgKind::Flag(FlagOption::Hd),
        ArgKind::Flag(FlagOption::SignServer),
        ArgKind::Value(ValueOption::FriendSignature),
        ArgKind::Flag(FlagOption::ListVersions),
        ArgKind::Flag(FlagOption::ListSignatures),
    ]
}

/// The place of an option name among the documented ones, read off its
/// length and one character (-1 for other texts).
spec fn option_code(s: Seq<char>) -> int {
    if s.len() == 2 {
        if s[1] == 'v' {
            0
        } else if s[1] == 'u' {
            2
        } else if s[1] == 's' {
            6
        } else if s[1] == 'c' {
            12
        } else if s[1] == 't' {
            16
        } else {
            -1
        }
    } else if s.len() == 3 {
        if s[2] == 'w' {
            4
        } else if s[2] == '1' {
            8
        } else if s[2] == '2' {
            10
        } else if s[2] == 'D' {
            14
        } else if s[2] == 's' {
            18
        } else {
            -1
        }
    } else if s.len() == 4 {
        15
    } else if s.len() == 8 {
        7
    } else if s.len() == 9 {
        1
    } else if s.len() == 10 {
        if s[2] == 'u' {
            3
        } else if s[2] == 'p' {
            5
        } else {
            -1
        }
    } else if s.len() == 11 {
        if s[2] == 'g' {
            11
        } else if s[2] == 'c' {
            13
        } else {
            -1
        }
    } else if s.len() == 13 {
        17
    } else if s.len() == 14 {
        21
    } else if s.len() == 15 {
        if s[3] == 'a' {
            9
        } else if s[3] == 'i' {
            20
        } else {
            -1
        }
    } else if s.len() == 17 {
        22
    } else if s.len() == 18 {
        19
    } else {
        -1
    }
}


/// Each documented option is read the same in its short and its long form,
/// as what the usage text says it is (never as an unknown option), and
/// different options are read as different things.
pub proof fn lemma_option_forms()
    ensures
        option_forms().len() == 12,
        forall|i: int|
            0 <= i < 12 ==> arg_kind_spec(#[trigger] option_forms()[i].0) == option_kinds()[i] && arg_kind_spec(
                option_forms()[i].1,
            ) == option_kinds()[i] && !(option_kinds()[i] is Unknown),
        forall|i: int, j: int| 0 <= i < 12 && 0 <= j < 12 && i != j ==> #[trigger] option_kinds()[i] != #[trigger] option_kinds()[j],
{
    reveal_strlit("-v");
    reveal_strlit("--version");
    reveal_strlit("-u");
    reveal_strlit("--username");
    reveal_strlit("-pw");
    reveal_strlit("--password");
    reveal_strlit("-s");
    reveal_strlit("--server");
    reveal_strlit("-p1");
    reveal_strlit("--launcher-port");
    reveal_strlit("-p2");
    reveal_strlit("--game-port");
    reveal_strlit("-c");
    reveal_strlit("--character");
    reveal_strlit("-HD");
    reveal_strlit("--hd");
    reveal_strlit("-t");
    reveal_strlit("--sign-server");
    reveal_strlit("-fs");
    reveal_strlit("--friend-signature");
    reveal_strlit("--list-versions");
    reveal_strlit("--list-version");
    reveal_strlit("--list-signatures");
    assert(option_code("-v"@) == 0);
    assert(option_code("--version"@) == 1);
    assert(option_code("-u"@) == 2);
    assert(option_code("--username"@) == 3);
    assert(option_code("-pw"@) == 4);
    assert(option_code("--password"@) == 5);
    assert(option_code("-s"@) == 6);
    assert(option_code("--server"@) == 7);
    assert(option_code("-p1"@) == 8);
    assert(option_code("--launcher-port"@) == 9);
    assert(option_code("-p2"@) == 10);
    assert(option_code("--game-port"@) == 11);
    assert(option_code("-c"@) == 12);
    assert(option_code("--character"@) == 13);
    assert(option_code("-HD"@) == 14);
    assert(option_code("--hd"@) == 15);
    assert(option_code("-t"@) == 16);
    assert(option_code("--sign-server"@) == 17);
    assert(option_code("-fs"@) == 18);
    assert(option_code("--friend-signature"@) == 19);
    assert(option_code("--list-versions"@) == 20);
    assert(option_code("--list-version"@) == 21);
    assert(option_code("--list-signatures"@) == 22);
    assert(arg_kind_spec("-v"@) == ArgKind::Value(ValueOption::Version));
    assert(arg_kind_spec("--version"@) == ArgKind::Value(ValueOption::Version));
    assert(arg_kind_spec("-u"@) == ArgKind::Value(ValueOption::Username));
    assert(arg_kind_spec("--username"@) == ArgKind::Value(ValueOption::Username));
    assert(arg_kind_spec("-pw"@) == ArgKind::Value(ValueOption::Password));
    assert(arg_kind_spec("--password"@) == ArgKind::Value(ValueOption::Password));
    assert(arg_kind_spec("-s"@) == ArgKind::Value(ValueOption::Server));
    assert(arg_kind_spec("--server"@) == ArgKind::Value(ValueOption::Server));
    assert(arg_kind_spec("-p1"@) == ArgKind::Value(ValueOption::LauncherPort));
    assert(arg_kind_spec("--launcher-port"@) == ArgKind::Value(ValueOption::LauncherPort));
    assert(arg_kind_spec("-p2"@) == ArgKind::Value(ValueOption::GamePort));
    assert(arg_kind_spec("--game-port"@) == ArgKind::Value(ValueOption::GamePort));
    assert(arg_kind_spec("-c"@) == ArgKind::Value(ValueOption::Character));
    assert(arg_kind_spec("--character"@) == ArgKind::Value(ValueOption::Character));
    assert(arg_kind_spec("-HD"@) == ArgKind::Flag(FlagOption::Hd));
    assert(arg_kind_spec("--hd"@) == ArgKind::Flag(FlagOption::Hd));
    assert(arg_kind_spec("-t"@) == ArgKind::Flag(FlagOption::SignServer));
    assert(arg_kind_spec("--sign-server"@) == ArgKind::Flag(FlagOption::SignServer));
    assert(arg_kind_spec("-fs"@) == ArgKind::Value(ValueOption::FriendSignature));
    assert(arg_kind_spec("--friend-signature"@) == ArgKind::Value(ValueOption::FriendSignature));
    assert(arg_kind_spec("--list-versions"@) == ArgKind::Flag(FlagOption::ListVersions));
    assert(arg_kind_spec("--list-version"@) == ArgKind::Flag(FlagOption::ListVersions));
    assert(arg_kind_spec("--list-signatures"@) == ArgKind::Flag(FlagOption::ListSignatures));
}

proof fn lemma_read_options_agree(a1: Seq<Seq<char>>, a2: Seq<Seq<char>>, i: int, st: OptionsSeen)
    requires
        a1.len() == a2.len(),
        i >= 2,
        forall|j: int| 2 <= j < a1.len() ==> a1[j] == a2[j],
    ensures
        read_options(a1, i, st) == read_options(a2, i, st),
    decreases a1.len() - i,
{
    if i < a1.len() {
        assert(a1[i] == a2[i]);
        match arg_kind_spec(a1[i]) {
            ArgKind::Flag(f) => lemma_read_options_agree(a1, a2, i + 1, set_flag(st, f)),
            ArgKind::Value(o) => {
                if i + 1 < a1.len() {
                    assert(a1[i + 1] == a2[i + 1]);
                    match set_value(st, o, a1[i + 1]) {
                        Ok(next) => lemma_read_options_agree(a1, a2, i + 2, next),
                        Err(_) => {},
                    }
                }
            },
            ArgKind::Unknown => {},
        }
    }
}

/// A command line that gives a documented option in its long form is read
/// exactly like the same command line with the short form: for instance
/// "--server V" like "-s V", whatever follows.
pub proof fn lemma_long_forms_parse_like_short(prog: Seq<char>, k: int, rest: Seq<Seq<char>>)
    requires
        0 <= k < 12,
    ensures
        parse_args_spec(seq![prog, option_forms()[k].1] + rest) == parse_args_spec(
            seq![prog, option_forms()[k].0] + rest,
        ),
{
    lemma_option_forms();
    let a1 = seq![prog, option_forms()[k].1] + rest;
    let a2 = seq![prog, option_forms()[k].0] + rest;
    assert(a1[1] == option_forms()[k].1);
    assert(a2[1] == option_forms()[k].0);
    assert forall|j: int| 2 <= j < a1.len() implies a1[j] == a2[j] by {
        assert(a1[j] == rest[j - 2]);
        assert(a2[j] == rest[j - 2]);
    }
    match arg_kind_spec(a1[1]) {
        ArgKind::Flag(f) => lemma_read_options_agree(a1, a2, 2, set_flag(no_options(), f)),
        ArgKind::Value(o) => {
            if 2 < a1.len() {
                match set_value(no_options(), o, a1[2]) {
                    Ok(next) => lemma_read_options_agree(a1, a2, 3, next),
                    Err(_) => {},
                }
            }
        },
        ArgKind::Unknown => {},
    }
}

} // verus!
