//! The servers the launcher knows: their addresses, the keys their files are
//! kept under, and how lists of them are checked, merged and configured.
use vstd::prelude::*;

use crate::version::MhfVersion;
use crate::text::{
    chars_contain, contains, decimal, decimal_string, str_chars, str_eq, string_from_chars, trim_chars, trim_spec,
};

verus! {

/// Per-server settings kept apart from the server list.
#[derive(Debug, Clone, Default)]
pub struct EndpointConfig {
    pub game_folder: Option<String>,
}

/// A server the launcher can connect to.  The game folder is kept as text.
#[derive(Debug, Clone, Default)]
pub struct Endpoint {
    pub url: String,
    pub name: String,
    pub launcher_port: Option<u16>,
    pub game_port: Option<u16>,
    pub game_folder: Option<String>,
    pub version: MhfVersion,
    pub is_remote: bool,
}

/// The text of an optional string.
pub open spec fn opt_text(s: Option<String>) -> Option<Seq<char>> {
    match s {
        Some(t) => Some(t@),
        None => None,
    }
}

/// A server with its texts as sequences.
pub struct EndpointView {
    pub url: Seq<char>,
    pub name: Seq<char>,
    pub launcher_port: Option<u16>,
    pub game_port: Option<u16>,
    pub game_folder: Option<Seq<char>>,
    pub version: MhfVersion,
    pub is_remote: bool,
}

impl View for Endpoint {
    type V = EndpointView;

    open spec fn view(&self) -> EndpointView {
        EndpointView {
            url: self.url@,
            name: self.name@,
            launcher_port: self.launcher_port,
            game_port: self.game_port,
            game_folder: opt_text(self.game_folder),
            version: self.version,
            is_remote: self.is_remote,
        }
    }
}

/// What parsing an address gives that the launcher reads: the scheme, the
/// host, and the port, or the scheme's default port.
pub struct UrlParts {
    pub scheme: String,
    pub host: Option<String>,
    pub port_or_known_default: Option<u16>,
}

/// `UrlParts` with the texts as sequences.
pub struct UrlPartsView {
    pub scheme: Seq<char>,
    pub host: Option<Seq<char>>,
    pub port_or_known_default: Option<u16>,
}

impl View for UrlParts {
    type V = UrlPartsView;

    open spec fn view(&self) -> UrlPartsView {
        UrlPartsView {
            scheme: self.scheme@,
            host: opt_text(self.host),
            port_or_known_default: self.port_or_known_default,
        }
    }
}

/// The scheme, host and port that `reqwest::Url::parse` finds in `raw`, or
/// `None` when it does not parse.
pub uninterp spec fn parsed_url(raw: Seq<char>) -> Option<UrlPartsView>;

/// Wraps `reqwest::Url::parse` followed by `scheme`, `host_str` and
/// `port_or_known_default` on the result.  What the URL standard makes of an
/// address is named, not stated.
#[verifier::external_body]
fn parse_url(raw: &str) -> (r: Option<UrlParts>)
    ensures
        match r {
            Some(p) => parsed_url(raw@) == Some(p@),
            None => parsed_url(raw@) is None,
        },
{
    match reqwest::Url::parse(raw) {
        Ok(url) => Some(
            UrlParts {
                scheme: url.scheme().to_string(),
                host: url.host_str().map(|h| h.to_string()),
                port_or_known_default: url.port_or_known_default(),
            },
        ),
        Err(_) => None,
    }
}

/// A server list or message list address as stored: trimmed, when it parses
/// with the scheme "http" or "https"; none otherwise.
pub open spec fn remote_url_spec(value: Seq<char>) -> Option<Seq<char>> {
    let t = trim_spec(value);
    if t.len() == 0 {
        None
    } else {
        match parsed_url(t) {
            Some(p) => if p.scheme == "http"@ || p.scheme == "https"@ {
                Some(t)
            } else {
                None
            },
            None => None,
        }
    }
}

/// A stored list address stays as it is when normalised again.
pub proof fn lemma_remote_url_stable(value: Seq<char>)
    ensures
        remote_url_spec(value) matches Some(u) ==> remote_url_spec(u) == Some(u),
{
    crate::text::lemma_trim_idempotent(value);
}

/// A server list or message list address as stored.
pub fn normalize_remote_url(value: &str) -> (r: Option<String>)
    ensures
        match r {
            Some(s) => remote_url_spec(value@) == Some(s@),
            None => remote_url_spec(value@) is None,
        },
{
    let chars = str_chars(value);
    let t = trim_chars(chars.as_slice());
    if t.len() == 0 {
        return None;
    }
    let trimmed = string_from_chars(t.as_slice());
    match parse_url(trimmed.as_str()) {
        Some(p) => {
            if str_eq(p.scheme.as_str(), "http") || str_eq(p.scheme.as_str(), "https") {
                Some(trimmed)
            } else {
                None
            }
        },
        None => None,
    }
}

/// The ASCII serialisation of the origin of the address `raw` once its
/// port is set to `port` (when given), as `reqwest::Url` computes it.
pub uninterp spec fn url_origin(raw: Seq<char>, port: Option<u16>) -> Seq<char>;

/// Wraps `reqwest::Url::parse`, `set_port` (when `port` is given; a refusal
/// is ignored) and `origin().ascii_serialization()`.  `None` exactly when the
/// address does not parse; the origin itself is named, not stated.
#[verifier::external_body]
fn origin_of(raw: &str, port: Option<u16>) -> (r: Option<String>)
    ensures
        r is None <==> parsed_url(raw@) is None,
        r matches Some(o) ==> o@ == url_origin(raw@, port),
{
    match reqwest::Url::parse(raw) {
        Ok(mut url) => {
            if let Some(p) = port {
                let _ = url.set_port(Some(p));
            }
            Some(url.origin().ascii_serialization())
        },
        Err(_) => None,
    }
}

/// The address with a scheme: as it is when it has one, else over "http".
pub open spec fn raw_url_spec(url: Seq<char>) -> Seq<char> {
    if contains(url, "://"@) {
        url
    } else {
        "http://"@ + url
    }
}

/// What the address of `e` parses to; nothing for a blank address.
pub open spec fn endpoint_parts(e: EndpointView) -> Option<UrlPartsView> {
    if trim_spec(e.url).len() == 0 {
        None
    } else {
        parsed_url(raw_url_spec(e.url))
    }
}

/// The host of `e`: the parsed host, else the address as it is.
pub open spec fn host_spec(e: EndpointView) -> Seq<char> {
    match endpoint_parts(e) {
        Some(p) => match p.host {
            Some(h) => h,
            None => e.url,
        },
        None => e.url,
    }
}

/// The launcher port of `e`: the configured one, else the address's port or
/// its scheme's default.
pub open spec fn resolved_launcher_port_spec(e: EndpointView) -> Option<u16> {
    match e.launcher_port {
        Some(p) => Some(p),
        None => match endpoint_parts(e) {
            Some(p) => p.port_or_known_default,
            None => None,
        },
    }
}

/// The base address of `e`: the origin of its address with the configured
/// launcher port, or, when the address does not parse, the address with a
/// scheme.
pub open spec fn base_url_spec(e: EndpointView) -> Seq<char> {
    if endpoint_parts(e) is Some {
        url_origin(raw_url_spec(e.url), e.launcher_port)
    } else {
        raw_url_spec(e.url)
    }
}

/// The key the files of `e` are kept under: "host:port", or the host alone
/// without a port; empty without a host.
pub open spec fn server_key_spec(e: EndpointView) -> Seq<char> {
    let host = host_spec(e);
    if host.len() == 0 {
        Seq::empty()
    } else {
        match resolved_launcher_port_spec(e) {
            Some(p) => host + seq![':'] + decimal(p as nat),
            None => host,
        }
    }
}

/// The address of `path` on the server `e`: the base address, then the
/// path, with a slash between them unless the path starts with one.
pub open spec fn get_url_spec(e: EndpointView, path: Seq<char>) -> Seq<char> {
    let base = base_url_spec(e);
    if path.len() == 0 {
        base
    } else if path[0] == '/' {
        base + path
    } else {
        base + seq!['/'] + path
    }
}

impl Endpoint {
    /// Two servers are the same when they have the same name and are both
    /// remote or both local.
    pub open spec fn same_spec(&self, other: &Endpoint) -> bool {
        self.name@ == other.name@ && self.is_remote == other.is_remote
    }

    /// Whether `other` is the same server.
    pub fn same_as(&self, other: &Endpoint) -> (b: bool)
        ensures
            b == self.same_spec(other),
    {
        str_eq(self.name.as_str(), other.name.as_str()) && self.is_remote == other.is_remote
    }

    /// The address with a scheme.
    fn raw_url(&self) -> (r: String)
        ensures
            r@ == raw_url_spec(self.url@),
    {
        let chars = str_chars(self.url.as_str());
        let sep = str_chars("://");
        if chars_contain(chars.as_slice(), sep.as_slice()) {
            self.url.clone()
        } else {
            let mut r = "http://".to_string();
            r.append(self.url.as_str());
            r
        }
    }

    /// Whether the address is blank.
    fn url_is_blank(&self) -> (b: bool)
        ensures
            b == (trim_spec(self.url@).len() == 0),
    {
        let chars = str_chars(self.url.as_str());
        trim_chars(chars.as_slice()).len() == 0
    }

    /// What the address parses to.
    fn parsed(&self) -> (r: Option<UrlParts>)
        ensures
            match r {
                Some(p) => endpoint_parts(self@) == Some(p@),
                None => endpoint_parts(self@) is None,
            },
    {
        if self.url_is_blank() {
            return None;
        }
        let raw = self.raw_url();
        parse_url(raw.as_str())
    }

    /// The host of the server.
    pub fn host(&self) -> (h: String)
        ensures
            h@ == host_spec(self@),
    {
        match self.parsed() {
            Some(p) => match p.host {
                Some(h) => h,
                None => self.url.clone(),
            },
            None => self.url.clone(),
        }
    }

    /// The launcher port of the server.
    pub fn resolved_launcher_port(&self) -> (p: Option<u16>)
        ensures
            p == resolved_launcher_port_spec(self@),
    {
        match self.launcher_port {
            Some(p) => Some(p),
            None => match self.parsed() {
                Some(parts) => parts.port_or_known_default,
                None => None,
            },
        }
    }

    /// The base address of the server.
    pub fn base_url(&self) -> (r: String)
        ensures
            r@ == base_url_spec(self@),
    {
        let raw = self.raw_url();
        if !self.url_is_blank() {
            match origin_of(raw.as_str(), self.launcher_port) {
                Some(o) => {
                    return o;
                },
                None => {},
            }
        }
        raw
    }

    /// The key the files of the server are kept under.
    pub fn server_key(&self) -> (r: String)
        ensures
            r@ == server_key_spec(self@),
    {
        let mut host = self.host();
        if host.as_str().unicode_len() == 0 {
            return String::new();
        }
        match self.resolved_launcher_port() {
            Some(p) => {
                host.append(":");
                let digits = decimal_string(p as u128);
                host.append(digits.as_str());
                proof {
                    reveal_strlit(":");
                }
                host
            },
            None => host,
        }
    }

    /// The address of `path` on the server.
    pub fn get_url(&self, path: &str) -> (r: String)
        ensures
            r@ == get_url_spec(self@, path@),
    {
        let mut base = self.base_url();
        if path.unicode_len() == 0 {
            return base;
        }
        if path.get_char(0) == '/' {
            base.append(path);
        } else {
            base.append("/");
            base.append(path);
            proof {
                reveal_strlit("/");
            }
        }
        base
    }
}

/// The servers a fresh installation knows: the offline mode.
pub fn get_default_endpoints() -> (v: Vec<Endpoint>)
    ensures
        v@.len() == 1,
        v@[0]@.name == "Offline-Mode"@,
        v@[0]@.url == "OFFLINEMODE"@,
        v@[0].is_remote,
        v@[0].launcher_port is None,
        v@[0].game_port is None,
        v@[0].game_folder is None,
        v@[0].version == MhfVersion::ZZ,
{
    let e = Endpoint {
        url: "OFFLINEMODE".to_string(),
        name: "Offline-Mode".to_string(),
        launcher_port: None,
        game_port: None,
        game_folder: None,
        version: MhfVersion::default(),
        is_remote: true,
    };
    let mut v: Vec<Endpoint> = Vec::new();
    v.push(e);
    v
}


/// The views of a list of servers.
pub open spec fn views(v: Seq<Endpoint>) -> Seq<EndpointView> {
    v.map_values(|e: Endpoint| e@)
}

/// Whether some server other than the one at `i` has its name.
pub open spec fn name_taken_elsewhere(eps: Seq<EndpointView>, i: int) -> bool {
    exists|j: int| 0 <= j < eps.len() && j != i && (#[trigger] eps[j]).name == eps[i].name
}

/// What checking the servers from position `i` on finds: the first of them
/// without a name, without an address, with a name another server has, or
/// with a game folder that does not exist (`folder_ok[k]` tells whether the
/// folder of server `k` exists).
pub open spec fn check_from(eps: Seq<EndpointView>, folder_ok: Seq<bool>, i: int) -> Result<
    (),
    Seq<char>,
>
    decreases eps.len() - i,
{
    if i < 0 || i >= eps.len() {
        Ok(())
    } else if eps[i].name.len() == 0 {
        Err("endpoint-name-empty"@)
    } else if eps[i].url.len() == 0 {
        Err("endpoint-host-empty"@)
    } else if name_taken_elsewhere(eps, i) {
        Err("endpoint-unique"@)
    } else if eps[i].game_folder is Some && !folder_ok[i] {
        Err("path-exists-error"@)
    } else {
        check_from(eps, folder_ok, i + 1)
    }
}

/// Whether two servers are the same (same name, both remote or both local).
pub open spec fn same_server(a: EndpointView, b: EndpointView) -> bool {
    a.name == b.name && a.is_remote == b.is_remote
}

/// Whether `list` has a server that is the same as `e`.
pub open spec fn has_server(list: Seq<EndpointView>, e: EndpointView) -> bool {
    exists|k: int| 0 <= k < list.len() && same_server(#[trigger] list[k], e)
}

/// Whether a server may join a list: it has a name and an address.
pub open spec fn is_valid_server(e: EndpointView) -> bool {
    e.name.len() != 0 && e.url.len() != 0
}

/// `list` with the servers of `other` added in order, each one only if it is
/// valid and not yet in the list.
pub open spec fn extend_valid_spec(list: Seq<EndpointView>, other: Seq<EndpointView>) -> Seq<
    EndpointView,
>
    decreases other.len(),
{
    if other.len() == 0 {
        list
    } else {
        let e = other[0];
        let next = if is_valid_server(e) && !has_server(list, e) {
            list.push(e)
        } else {
            list
        };
        extend_valid_spec(next, other.drop_first())
    }
}

/// Whether no two servers of `list` are the same.
pub open spec fn distinct_servers(list: Seq<EndpointView>) -> bool {
    forall|i: int, j: int|
        0 <= i < list.len() && 0 <= j < list.len() && i != j ==> !same_server(
            #[trigger] list[i],
            #[trigger] list[j],
        )
}

/// Merging servers into a list keeps what was there, adds only valid
/// servers, and never makes two entries of the same server out of a list
/// without any.
pub proof fn lemma_extend_valid_keeps_distinct(list: Seq<EndpointView>, other: Seq<EndpointView>)
    requires
        distinct_servers(list),
    ensures
        distinct_servers(extend_valid_spec(list, other)),
        extend_valid_spec(list, other).len() >= list.len(),
        extend_valid_spec(list, other).subrange(0, list.len() as int) == list,
        forall|k: int|
            list.len() <= k < extend_valid_spec(list, other).len() ==> is_valid_server(
                #[trigger] extend_valid_spec(list, other)[k],
            ),
    decreases other.len(),
{
    if other.len() > 0 {
        let e = other[0];
        let next = if is_valid_server(e) && !has_server(list, e) {
            list.push(e)
        } else {
            list
        };
        assert(distinct_servers(next)) by {
            if is_valid_server(e) && !has_server(list, e) {
                assert forall|i: int, j: int|
                    0 <= i < next.len() && 0 <= j < next.len() && i != j implies !same_server(
                    #[trigger] next[i],
                    #[trigger] next[j],
                ) by {
                    if i == list.len() {
                        assert(!same_server(list[j], e));
                    } else if j == list.len() {
                        assert(!same_server(list[i], e));
                    }
                }
            }
        }
        lemma_extend_valid_keeps_distinct(next, other.drop_first());
        let r = extend_valid_spec(next, other.drop_first());
        assert(r.subrange(0, list.len() as int) =~= r.subrange(0, next.len() as int).subrange(
            0,
            list.len() as int,
        ));
        assert(next.subrange(0, list.len() as int) =~= list);
        assert forall|k: int| list.len() <= k < r.len() implies is_valid_server(#[trigger] r[k]) by {
            if k < next.len() {
                assert(r[k] == r.subrange(0, next.len() as int)[k]);
            }
        }
    }
}

/// The settings stored for each server name, as pairs.
pub open spec fn config_pairs(c: Seq<(String, EndpointConfig)>) -> Seq<
    (Seq<char>, Option<Seq<char>>),
> {
    c.map_values(|p: (String, EndpointConfig)| (p.0@, opt_text(p.1.game_folder)))
}

/// The game folder stored for `name`: the first pair with that name.
pub open spec fn lookup_config(pairs: Seq<(Seq<char>, Option<Seq<char>>)>, name: Seq<char>) -> Option<
    Option<Seq<char>>,
>
    decreases pairs.len(),
{
    if pairs.len() == 0 {
        None
    } else if pairs[0].0 == name {
        Some(pairs[0].1)
    } else {
        lookup_config(pairs.drop_first(), name)
    }
}

/// A server once the stored settings are applied: the stored game folder
/// replaces its own when its name has settings.
pub open spec fn configured(e: EndpointView, pairs: Seq<(Seq<char>, Option<Seq<char>>)>) -> EndpointView {
    match lookup_config(pairs, e.name) {
        Some(f) => EndpointView { game_folder: f, ..e },
        None => e,
    }
}

/// What is stored for `name` once `eps` have written their settings over
/// `prev`: each server with a game folder stores it, each without removes
/// what was stored under its name.
pub open spec fn updated_config(prev: Option<Option<Seq<char>>>, eps: Seq<EndpointView>, name: Seq<char>) -> Option<
    Option<Seq<char>>,
>
    decreases eps.len(),
{
    if eps.len() == 0 {
        prev
    } else {
        let e = eps[0];
        let next = if e.name == name {
            if e.game_folder is Some {
                Some(e.game_folder)
            } else {
                None
            }
        } else {
            prev
        };
        updated_config(next, eps.drop_first(), name)
    }
}

proof fn lemma_lookup_push(
    pairs: Seq<(Seq<char>, Option<Seq<char>>)>,
    x: (Seq<char>, Option<Seq<char>>),
    name: Seq<char>,
)
    ensures
        lookup_config(pairs.push(x), name) == (if lookup_config(pairs, name) is Some {
            lookup_config(pairs, name)
        } else if x.0 == name {
            Some(x.1)
        } else {
            None
        }),
    decreases pairs.len(),
{
    if pairs.len() > 0 {
        assert(pairs.push(x)[0] == pairs[0]);
        assert(pairs.push(x).drop_first() =~= pairs.drop_first().push(x));
        lemma_lookup_push(pairs.drop_first(), x, name);
    } else {
        let e = Seq::<(Seq<char>, Option<Seq<char>>)>::empty();
        assert(pairs.push(x)[0] == x);
        assert(pairs.push(x).drop_first() =~= e);
        assert(lookup_config(e, name) is None);
        assert(lookup_config(pairs, name) is None);
    }
}

proof fn lemma_lookup_drop_last(pairs: Seq<(Seq<char>, Option<Seq<char>>)>, name: Seq<char>)
    requires
        pairs.len() > 0,
    ensures
        lookup_config(pairs, name) == (if lookup_config(pairs.drop_last(), name) is Some {
            lookup_config(pairs.drop_last(), name)
        } else if pairs.last().0 == name {
            Some(pairs.last().1)
        } else {
            None
        }),
{
    assert(pairs.drop_last().push(pairs.last()) =~= pairs);
    lemma_lookup_push(pairs.drop_last(), pairs.last(), name);
}

/// `configs` without the pairs stored under `name`.
fn remove_config(configs: &mut Vec<(String, EndpointConfig)>, name: &String)
    ensures
        forall|n: Seq<char>|
            lookup_config(config_pairs(final(configs)@), n) == if n == name@ {
                None
            } else {
                lookup_config(config_pairs(old(configs)@), n)
            },
{
    let mut kept: Vec<(String, EndpointConfig)> = Vec::new();
    let mut i: usize = 0;
    while i < configs.len()
        invariant
            i <= configs@.len(),
            forall|n: Seq<char>|
                lookup_config(config_pairs(kept@), n) == if n == name@ {
                    None
                } else {
                    lookup_config(config_pairs(configs@.take(i as int)), n)
                },
        decreases configs@.len() - i,
    {
        let entry = &configs[i];
        let ghost before = kept@;
        if !str_eq(entry.0.as_str(), name.as_str()) {
            let folder = match &entry.1.game_folder {
                Some(f) => Some(f.clone()),
                None => None,
            };
            kept.push((entry.0.clone(), EndpointConfig { game_folder: folder }));
        }
        proof {
            let t = configs@.take(i + 1);
            assert(config_pairs(t).drop_last() =~= config_pairs(configs@.take(i as int)));
            assert forall|n: Seq<char>|
                lookup_config(config_pairs(kept@), n) == if n == name@ {
                    None
                } else {
                    lookup_config(config_pairs(t), n)
                } by {
                lemma_lookup_drop_last(config_pairs(t), n);
                if configs@[i as int].0@ != name@ {
                    assert(config_pairs(kept@) =~= config_pairs(before).push(
                        config_pairs(t).last(),
                    ));
                    lemma_lookup_push(config_pairs(before), config_pairs(t).last(), n);
                } else {
                    assert(kept@ == before);
                }
            }
        }
        i = i + 1;
    }
    assert(configs@.take(configs@.len() as int) =~= configs@);
    *configs = kept;
}

/// Operations on lists of servers.
pub trait EndpointVecExt: Sized {
    /// The servers of the list.
    spec fn servers(&self) -> Seq<EndpointView>;

    /// Checks the list: every server has a name and an address, no two
    /// share a name, and each game folder exists (`folder_exists[k]` tells
    /// whether the folder of server `k` exists).
    fn check_valid(&self, folder_exists: &[bool]) -> (r: Result<(), &'static str>)
        requires
            folder_exists@.len() == self.servers().len(),
        ensures
            match check_from(self.servers(), folder_exists@, 0) {
                Ok(()) => r is Ok,
                Err(m) => r matches Err(s) && s@ == m,
            },
    ;

    /// Adds the valid servers of `other` that are not in the list yet.
    fn extend_valid(&mut self, other: Self)
        ensures
            final(self).servers() == extend_valid_spec(old(self).servers(), other.servers()),
    ;

    /// Gives each server the game folder stored under its name, if any.
    fn apply_config(&mut self, configs: &Vec<(String, EndpointConfig)>)
        ensures
            final(self).servers().len() == old(self).servers().len(),
            forall|i: int|
                0 <= i < old(self).servers().len() ==> #[trigger] final(self).servers()[i]
                    == configured(old(self).servers()[i], config_pairs(configs@)),
    ;

    /// Stores the game folder of each server under its name, and removes
    /// what is stored for servers without one.
    fn update_config(&self, configs: &mut Vec<(String, EndpointConfig)>)
        ensures
            forall|n: Seq<char>|
                lookup_config(config_pairs(final(configs)@), n) == updated_config(
                    lookup_config(config_pairs(old(configs)@), n),
                    self.servers(),
                    n,
                ),
    ;
}

impl EndpointVecExt for Vec<Endpoint> {
    open spec fn servers(&self) -> Seq<EndpointView> {
        views(self@)
    }

    fn check_valid(&self, folder_exists: &[bool]) -> (r: Result<(), &'static str>) {
        let ghost eps = views(self@);
        let mut i: usize = 0;
        while i < self.len()
            invariant
                eps == views(self@),
                folder_exists@.len() == eps.len(),
                i <= eps.len(),
                check_from(eps, folder_exists@, 0) == check_from(eps, folder_exists@, i as int),
            decreases eps.len() - i,
        {
            let e = &self[i];
            assert(eps[i as int] == e@);
            if e.name.as_str().unicode_len() == 0 {
                return Err("endpoint-name-empty");
            } else if e.url.as_str().unicode_len() == 0 {
                return Err("endpoint-host-empty");
            }
            let mut taken = false;
            let mut j: usize = 0;
            while j < self.len()
                invariant
                    eps == views(self@),
                    i < eps.len(),
                    j <= eps.len(),
                    e@ == eps[i as int],
                    taken == exists|k: int|
                        0 <= k < j && k != i && (#[trigger] eps[k]).name == eps[i as int].name,
                decreases eps.len() - j,
            {
                assert(eps[j as int] == self@[j as int]@);
                if j != i && str_eq(self[j].name.as_str(), e.name.as_str()) {
                    taken = true;
                }
                j = j + 1;
            }
            if taken {
                return Err("endpoint-unique");
            }
            if e.game_folder.is_some() && !folder_exists[i] {
                return Err("path-exists-error");
            }
            i = i + 1;
        }
        Ok(())
    }

    fn extend_valid(&mut self, other: Self) {
        let ghost start = views(self@);
        let ghost others = views(other@);
        let mut k: usize = 0;
        assert(others.skip(0) =~= others);
        while k < other.len()
            invariant
                others == views(other@),
                k <= others.len(),
                extend_valid_spec(start, others) == extend_valid_spec(
                    views(self@),
                    others.skip(k as int),
                ),
            decreases others.len() - k,
        {
            let e = &other[k];
            assert(others.skip(k as int)[0] == e@);
            assert(others.skip(k as int).drop_first() =~= others.skip(k + 1));
            let mut present = false;
            let mut j: usize = 0;
            while j < self.len()
                invariant
                    j <= self@.len(),
                    present == exists|t: int| 0 <= t < j && same_server(#[trigger] views(self@)[t], e@),
                decreases self@.len() - j,
            {
                assert(views(self@)[j as int] == self@[j as int]@);
                if self[j].same_as(e) {
                    present = true;
                }
                j = j + 1;
            }
            if e.name.as_str().unicode_len() != 0 && e.url.as_str().unicode_len() != 0 && !present {
                let f = match &e.game_folder {
                    Some(g) => Some(g.clone()),
                    None => None,
                };
                let copy = Endpoint {
                    url: e.url.clone(),
                    name: e.name.clone(),
                    launcher_port: e.launcher_port,
                    game_port: e.game_port,
                    game_folder: f,
                    version: e.version,
                    is_remote: e.is_remote,
                };
                let ghost before = views(self@);
                self.push(copy);
                assert(views(self@) =~= before.push(e@));
            }
            k = k + 1;
        }
        assert(others.skip(k as int) =~= Seq::<EndpointView>::empty());
    }

    fn apply_config(&mut self, configs: &Vec<(String, EndpointConfig)>) {
        let ghost start = views(self@);
        let ghost pairs = config_pairs(configs@);
        let mut i: usize = 0;
        while i < self.len()
            invariant
                pairs == config_pairs(configs@),
                i <= self@.len(),
                self@.len() == start.len(),
                forall|t: int| 0 <= t < i ==> #[trigger] views(self@)[t] == configured(start[t], pairs),
                forall|t: int| i <= t < self@.len() ==> #[trigger] views(self@)[t] == start[t],
            decreases self@.len() - i,
        {
            let mut j: usize = 0;
            let mut found: Option<Option<String>> = None;
            let ghost name = self@[i as int].name@;
            assert(pairs.skip(0) =~= pairs);
            assert(views(self@)[i as int] == self@[i as int]@);
            while j < configs.len()
                invariant
                    pairs == config_pairs(configs@),
                    j <= configs@.len(),
                    i < self@.len(),
                    name == self@[i as int].name@,
                    lookup_config(pairs, name) == match found {
                        Some(f) => Some(opt_text(f)),
                        None => lookup_config(pairs.skip(j as int), name),
                    },
                decreases configs@.len() - j,
            {
                assert(pairs.skip(j as int)[0] == (configs@[j as int].0@, opt_text(configs@[j as int].1.game_folder)));
                assert(pairs.skip(j as int).drop_first() =~= pairs.skip(j + 1));
                if found.is_none() && str_eq(configs[j].0.as_str(), self[i].name.as_str()) {
                    found = Some(
                        match &configs[j].1.game_folder {
                            Some(g) => Some(g.clone()),
                            None => None,
                        },
                    );
                }
                j = j + 1;
            }
            assert(pairs.skip(j as int) =~= Seq::<(Seq<char>, Option<Seq<char>>)>::empty());
            if let Some(f) = found {
                let ghost before = self@;
                let mut e = self[i].clone_endpoint();
                e.game_folder = f;
                assert(e@ == configured(start[i as int], pairs));
                self.set(i, e);
                assert(views(self@)[i as int] == e@);
                assert forall|t: int| 0 <= t < self@.len() && t != i implies #[trigger] views(self@)[t] == views(before)[t] by {
                    assert(self@[t] == before[t]);
                }
            }
            i = i + 1;
        }
    }

    fn update_config(&self, configs: &mut Vec<(String, EndpointConfig)>) {
        let ghost start = config_pairs(configs@);
        let ghost eps = views(self@);
        let mut i: usize = 0;
        assert(eps.skip(0) =~= eps);
        while i < self.len()
            invariant
                eps == views(self@),
                i <= eps.len(),
                forall|n: Seq<char>|
                    updated_config(lookup_config(start, n), eps, n) == updated_config(
                        lookup_config(config_pairs(configs@), n),
                        eps.skip(i as int),
                        n,
                    ),
            decreases eps.len() - i,
        {
            let e = &self[i];
            assert(eps.skip(i as int)[0] == e@);
            assert(eps.skip(i as int).drop_first() =~= eps.skip(i + 1));
            let ghost before = config_pairs(configs@);
            remove_config(configs, &e.name);
            match &e.game_folder {
                Some(g) => {
                    let ghost removed = config_pairs(configs@);
                    configs.push((e.name.clone(), EndpointConfig { game_folder: Some(g.clone()) }));
                    proof {
                        assert(config_pairs(configs@) =~= removed.push((e.name@, Some(g@))));
                        assert forall|n: Seq<char>|
                            lookup_config(config_pairs(configs@), n) == if n == e.name@ {
                                Some(Some(g@))
                            } else {
                                lookup_config(before, n)
                            } by {
                            lemma_lookup_push(removed, (e.name@, Some(g@)), n);
                        }
                    }
                },
                None => {},
            }
            i = i + 1;
        }
        assert(eps.skip(i as int) =~= Seq::<EndpointView>::empty());
    }
}

impl Endpoint {
    /// A copy of the server.
    pub fn clone_endpoint(&self) -> (r: Endpoint)
        ensures
            r@ == self@,
    {
        Endpoint {
            url: self.url.clone(),
            name: self.name.clone(),
            launcher_port: self.launcher_port,
            game_port: self.game_port,
            game_folder: match &self.game_folder {
                Some(g) => Some(g.clone()),
                None => None,
            },
            version: self.version,
            is_remote: self.is_remote,
        }
    }
}


/// A list of servers that passes the check has names, addresses, and no
/// two servers with one name, so no two entries of the same server.
pub proof fn lemma_checked_servers_distinct(eps: Seq<EndpointView>, folder_ok: Seq<bool>)
    requires
        folder_ok.len() == eps.len(),
        check_from(eps, folder_ok, 0) is Ok,
    ensures
        forall|i: int| 0 <= i < eps.len() ==> is_valid_server(#[trigger] eps[i]),
        forall|i: int, j: int|
            0 <= i < eps.len() && 0 <= j < eps.len() && i != j ==> (#[trigger] eps[i]).name != (
            #[trigger] eps[j]).name,
        distinct_servers(eps),
{
    assert forall|k: int| 0 <= k <= eps.len() implies check_from(eps, folder_ok, k) is Ok && (
    forall|i: int| 0 <= i < k ==> is_valid_server(#[trigger] eps[i]) && !name_taken_elsewhere(eps, i))
    by {
        lemma_check_prefix(eps, folder_ok, k);
    }
    assert forall|i: int, j: int|
        0 <= i < eps.len() && 0 <= j < eps.len() && i != j implies (#[trigger] eps[i]).name != (
        #[trigger] eps[j]).name by {
        lemma_check_prefix(eps, folder_ok, eps.len() as int);
        assert(!name_taken_elsewhere(eps, i));
    }
    lemma_check_prefix(eps, folder_ok, eps.len() as int);
}

proof fn lemma_check_prefix(eps: Seq<EndpointView>, folder_ok: Seq<bool>, k: int)
    requires
        0 <= k <= eps.len(),
        check_from(eps, folder_ok, 0) is Ok,
    ensures
        check_from(eps, folder_ok, k) is Ok,
        forall|i: int| 0 <= i < k ==> is_valid_server(#[trigger] eps[i]) && !name_taken_elsewhere(eps, i),
    decreases k,
{
    if k > 0 {
        lemma_check_prefix(eps, folder_ok, k - 1);
    }
}

} // verus!
