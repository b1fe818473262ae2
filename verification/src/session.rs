//! The servers the launcher knows in a session, and which one is current.
use vstd::prelude::*;

use crate::endpoint::{
    check_from, config_pairs, configured, extend_valid_spec, lookup_config, same_server, updated_config, views,
    Endpoint, EndpointConfig, EndpointVecExt, EndpointView,
};
use crate::version::MhfVersion;
use crate::text::{str_chars, string_from_chars};

verus! {

/// The local and remote server lists, the current server, and the game
/// folder chosen for servers without one of their own.
pub struct EndpointState {
    pub endpoints: Vec<Endpoint>,
    pub remote_endpoints: Vec<Endpoint>,
    pub current_endpoint: Endpoint,
    pub game_folder: Option<String>,
}

/// The first server of `list` that is the same as `e`.
pub open spec fn first_same(list: Seq<EndpointView>, e: EndpointView) -> Option<EndpointView>
    decreases list.len(),
{
    if list.len() == 0 {
        None
    } else if same_server(list[0], e) {
        Some(list[0])
    } else {
        first_same(list.drop_first(), e)
    }
}

/// The first server of `list` that is the same as `e`, by its index.
fn find_same(list: &Vec<Endpoint>, e: &Endpoint) -> (r: Option<usize>)
    ensures
        match r {
            Some(k) => k < list.len() && first_same(views(list@), e@) == Some(list@[k as int]@),
            None => first_same(views(list@), e@) is None,
        },
{
    let ghost vs = views(list@);
    assert(vs.subrange(0, vs.len() as int) =~= vs);
    let mut i: usize = 0;
    while i < list.len()
        invariant
            i <= list.len(),
            vs == views(list@),
            first_same(vs, e@) == first_same(vs.subrange(i as int, vs.len() as int), e@),
        decreases list.len() - i,
    {
        let ghost rest = vs.subrange(i as int, vs.len() as int);
        assert(rest.drop_first() =~= vs.subrange(i + 1, vs.len() as int));
        if list[i].same_as(e) {
            return Some(i);
        }
        i = i + 1;
    }
    assert(vs.subrange(i as int, vs.len() as int) =~= Seq::<EndpointView>::empty());
    None
}

impl EndpointState {
    /// The first remote server, else the first local one.
    pub open spec fn first_spec(&self) -> Option<EndpointView> {
        if self.remote_endpoints.len() > 0 {
            Some(self.remote_endpoints@[0]@)
        } else if self.endpoints.len() > 0 {
            Some(self.endpoints@[0]@)
        } else {
            None
        }
    }

    /// The remote list for `remote`, else the local one.
    pub open spec fn list_for(&self, remote: bool) -> Seq<EndpointView> {
        if remote {
            views(self.remote_endpoints@)
        } else {
            views(self.endpoints@)
        }
    }

    /// The list the current server belongs to.
    pub open spec fn active_list(&self) -> Seq<EndpointView> {
        self.list_for(self.current_endpoint.is_remote)
    }

    /// Every remote server is marked remote and every local one local.
    pub open spec fn lists_marked(&self) -> bool {
        &&& forall|i: int| 0 <= i < self.remote_endpoints.len() ==> #[trigger] self.remote_endpoints@[i].is_remote
        &&& forall|i: int| 0 <= i < self.endpoints.len() ==> !#[trigger] self.endpoints@[i].is_remote
    }

    /// The server that becomes current once the current one is settled: the
    /// entry of its list that is the same server, else the first server.
    pub open spec fn settled_current(&self) -> Option<EndpointView> {
        match first_same(self.active_list(), self.current_endpoint@) {
            Some(e) => Some(e),
            None => self.first_spec(),
        }
    }

    /// The first remote server, else the first local one.
    pub fn first_endpoint(&self) -> (r: Option<&Endpoint>)
        ensures
            match r {
                Some(e) => self.first_spec() == Some(e@),
                None => self.first_spec() is None,
            },
    {
        if self.remote_endpoints.len() > 0 {
            Some(&self.remote_endpoints[0])
        } else if self.endpoints.len() > 0 {
            Some(&self.endpoints[0])
        } else {
            None
        }
    }

    /// Whether the list the current server belongs to holds `endpoint`.
    pub fn contains_endpoint(&self, endpoint: &Endpoint) -> (b: bool)
        ensures
            b == first_same(self.active_list(), endpoint@) is Some,
    {
        let list = if self.current_endpoint.is_remote {
            &self.remote_endpoints
        } else {
            &self.endpoints
        };
        find_same(list, endpoint).is_some()
    }

    /// Makes the current server the entry of its list that is the same
    /// server, else the first server; "internal-error" when there is no
    /// server at all, and then nothing changes.
    pub fn ensure_current_endpoint(&mut self) -> (r: Result<(), &'static str>)
        ensures
            final(self).endpoints@ == old(self).endpoints@,
            final(self).remote_endpoints@ == old(self).remote_endpoints@,
            final(self).game_folder == old(self).game_folder,
            match old(self).settled_current() {
                Some(e) => r is Ok && final(self).current_endpoint@ == e,
                None => (r matches Err(m) && m@ == "internal-error"@) && final(self).current_endpoint
                    == old(self).current_endpoint,
            },
    {
        let next = {
            let list = if self.current_endpoint.is_remote {
                &self.remote_endpoints
            } else {
                &self.endpoints
            };
            match find_same(list, &self.current_endpoint) {
                Some(k) => Some(list[k].clone_endpoint()),
                None => match self.first_endpoint() {
                    Some(e) => Some(e.clone_endpoint()),
                    None => None,
                },
            }
        };
        match next {
            Some(e) => {
                self.current_endpoint = e;
                Ok(())
            },
            None => Err("internal-error"),
        }
    }

    /// Makes `endpoint` the current server, with the game version `version`,
    /// and puts it at the front of its list when the list does not hold it
    /// yet; whether it was put there.  Either way the list the new current
    /// server belongs to then holds it.
    pub fn adopt_current_endpoint(&mut self, endpoint: Endpoint, version: MhfVersion) -> (inserted: bool)
        ensures
            final(self).current_endpoint@ == (EndpointView { version, ..endpoint@ }),
            final(self).game_folder == old(self).game_folder,
            inserted == first_same(old(self).list_for(endpoint.is_remote), endpoint@) is None,
            inserted ==> final(self).list_for(endpoint.is_remote) == seq![endpoint@] + old(self).list_for(
                endpoint.is_remote,
            ),
            !inserted ==> final(self).list_for(endpoint.is_remote) == old(self).list_for(endpoint.is_remote),
            final(self).list_for(!endpoint.is_remote) == old(self).list_for(!endpoint.is_remote),
            first_same(final(self).active_list(), final(self).current_endpoint@) is Some,
    {
        let mut current = endpoint.clone_endpoint();
        current.version = version;
        self.current_endpoint = current;
        let listed = self.contains_endpoint(&endpoint);
        proof {
            lemma_first_same_by_name(old(self).list_for(endpoint.is_remote), endpoint@, self.current_endpoint@);
        }
        if !listed {
            if endpoint.is_remote {
                let ghost before = self.remote_endpoints@;
                self.remote_endpoints.insert(0, endpoint);
                assert(views(self.remote_endpoints@) =~= seq![self.remote_endpoints@[0]@] + views(before));
            } else {
                let ghost before = self.endpoints@;
                self.endpoints.insert(0, endpoint);
                assert(views(self.endpoints@) =~= seq![self.endpoints@[0]@] + views(before));
            }
            proof {
                lemma_first_same_found(self.active_list(), 0, self.current_endpoint@);
            }
        }
        !listed
    }

    /// Puts back the default remote servers: `defaults`, then the current
    /// server where it is remote and not among them, each with the game
    /// folder stored for its name in `configs`.
    pub fn reset_remote_endpoints(&mut self, defaults: Vec<Endpoint>, configs: &Vec<(String, EndpointConfig)>)
        ensures
            ({
                let base = if old(self).current_endpoint.is_remote && first_same(
                    views(defaults@),
                    old(self).current_endpoint@,
                ) is None {
                    views(defaults@).push(old(self).current_endpoint@)
                } else {
                    views(defaults@)
                };
                &&& final(self).remote_endpoints@.len() == base.len()
                &&& forall|i: int|
                    0 <= i < base.len() ==> #[trigger] views(final(self).remote_endpoints@)[i] == configured(
                        base[i],
                        config_pairs(configs@),
                    )
            }),
            final(self).endpoints@ == old(self).endpoints@,
            final(self).current_endpoint == old(self).current_endpoint,
            final(self).game_folder == old(self).game_folder,
    {
        let mut remote = defaults;
        if self.current_endpoint.is_remote && find_same(&remote, &self.current_endpoint).is_none() {
            let ghost before = remote@;
            remote.push(self.current_endpoint.clone_endpoint());
            assert(views(remote@) =~= views(before).push(self.current_endpoint@));
        }
        remote.apply_config(configs);
        self.remote_endpoints = remote;
    }

    /// Takes the remote servers a server list gave (`fetched`, each marked
    /// remote): the defaults, then the valid fetched servers not among them
    /// yet, then the current server where it is remote and missing, each
    /// with the game folder stored for its name in `configs`.
    pub fn merge_remote_endpoints(
        &mut self,
        defaults: Vec<Endpoint>,
        fetched: Vec<Endpoint>,
        configs: &Vec<(String, EndpointConfig)>,
    )
        ensures
            ({
                let marked = views(fetched@).map_values(|e: EndpointView| EndpointView { is_remote: true, ..e });
                let merged = extend_valid_spec(views(defaults@), marked);
                let base = if old(self).current_endpoint.is_remote && first_same(
                    merged,
                    old(self).current_endpoint@,
                ) is None {
                    merged.insert(defaults@.len() as int, old(self).current_endpoint@)
                } else {
                    merged
                };
                &&& final(self).remote_endpoints@.len() == base.len()
                &&& forall|i: int|
                    0 <= i < base.len() ==> #[trigger] views(final(self).remote_endpoints@)[i] == configured(
                        base[i],
                        config_pairs(configs@),
                    )
            }),
            final(self).endpoints@ == old(self).endpoints@,
            final(self).current_endpoint == old(self).current_endpoint,
            final(self).game_folder == old(self).game_folder,
    {
        let ghost marked = views(fetched@).map_values(|e: EndpointView| EndpointView { is_remote: true, ..e });
        let mut incoming = fetched;
        let mut i: usize = 0;
        while i < incoming.len()
            invariant
                i <= incoming@.len(),
                incoming@.len() == marked.len(),
                marked == views(fetched@).map_values(|e: EndpointView| EndpointView { is_remote: true, ..e }),
                forall|t: int| 0 <= t < i ==> #[trigger] views(incoming@)[t] == marked[t],
                forall|t: int| i <= t < incoming@.len() ==> #[trigger] views(incoming@)[t] == views(fetched@)[t],
            decreases incoming@.len() - i,
        {
            let mut e = incoming[i].clone_endpoint();
            e.is_remote = true;
            let ghost before = incoming@;
            let ghost marked_e = e@;
            incoming.set(i, e);
            assert(views(incoming@) =~= views(before).update(i as int, marked_e));
            assert(views(before)[i as int] == views(fetched@)[i as int]);
            assert(marked[i as int] == (EndpointView { is_remote: true, ..views(fetched@)[i as int] }));
            assert(marked_e == marked[i as int]);
            i = i + 1;
        }
        assert(views(incoming@) =~= marked);
        let mut remote = defaults;
        let default_len = remote.len();
        remote.extend_valid(incoming);
        proof {
            lemma_extend_valid_grows(views(defaults@), marked);
        }
        if self.current_endpoint.is_remote && find_same(&remote, &self.current_endpoint).is_none() {
            let ghost before = remote@;
            remote.insert(default_len, self.current_endpoint.clone_endpoint());
            assert(views(remote@) =~= views(before).insert(default_len as int, self.current_endpoint@));
        }
        remote.apply_config(configs);
        self.remote_endpoints = remote;
    }

    /// Replaces the local servers with `endpoints` once they pass the check
    /// (`folder_exists[k]` tells whether the game folder of server `k`
    /// exists), then settles a local current server; the check's error, or
    /// "internal-error" when no server is left, and then nothing changes but
    /// the list.
    pub fn set_local_endpoints(&mut self, endpoints: Vec<Endpoint>, folder_exists: &[bool]) -> (r: Result<
        (),
        &'static str,
    >)
        requires
            folder_exists@.len() == endpoints@.len(),
        ensures
            final(self).remote_endpoints@ == old(self).remote_endpoints@,
            final(self).game_folder == old(self).game_folder,
            match check_from(views(endpoints@), folder_exists@, 0) {
                Err(m) => (r matches Err(s) && s@ == m) && final(self).endpoints@ == old(self).endpoints@
                    && final(self).current_endpoint == old(self).current_endpoint,
                Ok(()) => {
                    let mid = EndpointState { endpoints: endpoints, ..*old(self) };
                    &&& final(self).endpoints@ == endpoints@
                    &&& if old(self).current_endpoint.is_remote {
                        r is Ok && final(self).current_endpoint == old(self).current_endpoint
                    } else {
                        match mid.settled_current() {
                            Some(e) => r is Ok && final(self).current_endpoint@ == e,
                            None => (r matches Err(s) && s@ == "internal-error"@) && final(self).current_endpoint
                                == old(self).current_endpoint,
                        }
                    }
                },
            },
    {
        match endpoints.check_valid(folder_exists) {
            Err(m) => {
                return Err(m);
            },
            Ok(()) => {},
        }
        self.endpoints = endpoints;
        if !self.current_endpoint.is_remote {
            self.ensure_current_endpoint()
        } else {
            Ok(())
        }
    }

    /// Replaces the remote servers with `endpoints` once they pass the check,
    /// settles a remote current server, and stores each remote server's
    /// game folder under its name in `configs` (removing what is stored for
    /// servers without one); on a failed check nothing changes.
    pub fn set_remote_endpoints(
        &mut self,
        endpoints: Vec<Endpoint>,
        folder_exists: &[bool],
        configs: &mut Vec<(String, EndpointConfig)>,
    ) -> (r: Result<(), &'static str>)
        requires
            folder_exists@.len() == endpoints@.len(),
        ensures
            final(self).endpoints@ == old(self).endpoints@,
            final(self).game_folder == old(self).game_folder,
            match check_from(views(endpoints@), folder_exists@, 0) {
                Err(m) => (r matches Err(s) && s@ == m) && final(self).remote_endpoints@
                    == old(self).remote_endpoints@ && final(self).current_endpoint == old(self).current_endpoint
                    && final(configs)@ == old(configs)@,
                Ok(()) => {
                    let mid = EndpointState { remote_endpoints: endpoints, ..*old(self) };
                    &&& final(self).remote_endpoints@ == endpoints@
                    &&& if !old(self).current_endpoint.is_remote {
                        r is Ok && final(self).current_endpoint == old(self).current_endpoint
                    } else {
                        match mid.settled_current() {
                            Some(e) => r is Ok && final(self).current_endpoint@ == e,
                            None => (r matches Err(s) && s@ == "internal-error"@) && final(self).current_endpoint
                                == old(self).current_endpoint,
                        }
                    }
                    &&& r is Ok ==> forall|n: Seq<char>|
                        lookup_config(config_pairs(final(configs)@), n) == updated_config(
                            lookup_config(config_pairs(old(configs)@), n),
                            views(endpoints@),
                            n,
                        )
                    &&& r is Err ==> final(configs)@ == old(configs)@
                },
            },
    {
        match endpoints.check_valid(folder_exists) {
            Err(m) => {
                return Err(m);
            },
            Ok(()) => {},
        }
        self.remote_endpoints = endpoints;
        if self.current_endpoint.is_remote {
            match self.ensure_current_endpoint() {
                Err(m) => {
                    return Err(m);
                },
                Ok(()) => {},
            }
        }
        self.remote_endpoints.update_config(configs);
        Ok(())
    }

    /// The game folder to use: the current server's own, else the chosen
    /// one, else `default_folder`.
    pub fn effective_folder(&self, default_folder: &str) -> (s: String)
        ensures
            s@ == match self.current_endpoint.game_folder {
                Some(g) => g@,
                None => match self.game_folder {
                    Some(g) => g@,
                    None => default_folder@,
                },
            },
    {
        match &self.current_endpoint.game_folder {
            Some(g) => g.clone(),
            None => match &self.game_folder {
                Some(g) => g.clone(),
                None => {
                    let chars = str_chars(default_folder);
                    string_from_chars(chars.as_slice())
                },
            },
        }
    }
}

/// Adding servers never shortens a list.
proof fn lemma_extend_valid_grows(list: Seq<EndpointView>, other: Seq<EndpointView>)
    ensures
        extend_valid_spec(list, other).len() >= list.len(),
    decreases other.len(),
{
    if other.len() > 0 {
        let e = other[0];
        let next = if crate::endpoint::is_valid_server(e) && !crate::endpoint::has_server(list, e) {
            list.push(e)
        } else {
            list
        };
        lemma_extend_valid_grows(next, other.drop_first());
    }
}

/// Whether a server is the same as `x` depends only on the name and the
/// side of `x`.
proof fn lemma_first_same_by_name(list: Seq<EndpointView>, x: EndpointView, y: EndpointView)
    requires
        x.name == y.name,
        x.is_remote == y.is_remote,
    ensures
        first_same(list, x) == first_same(list, y),
    decreases list.len(),
{
    if list.len() > 0 {
        lemma_first_same_by_name(list.drop_first(), x, y);
    }
}

/// The first entry the same as `x` is the same as `x` and is an entry.
proof fn lemma_first_same_is_entry(list: Seq<EndpointView>, x: EndpointView)
    ensures
        first_same(list, x) matches Some(e) ==> same_server(e, x) && exists|k: int|
            0 <= k < list.len() && #[trigger] list[k] == e,
    decreases list.len(),
{
    if list.len() > 0 && !same_server(list[0], x) {
        lemma_first_same_is_entry(list.drop_first(), x);
        if let Some(e) = first_same(list, x) {
            let k = choose|k: int| 0 <= k < list.drop_first().len() && #[trigger] list.drop_first()[k] == e;
            assert(list[k + 1] == e);
        }
    } else if list.len() > 0 {
        assert(list[0] == list[0]);
    }
}

/// A list with an entry that is the same as `x` has a first such entry.
proof fn lemma_first_same_found(list: Seq<EndpointView>, k: int, x: EndpointView)
    requires
        0 <= k < list.len(),
        same_server(list[k], x),
    ensures
        first_same(list, x) is Some,
    decreases list.len(),
{
    if k > 0 && !same_server(list[0], x) {
        lemma_first_same_found(list.drop_first(), k - 1, x);
    }
}

/// When every server is marked as the list it sits in, the server that
/// becomes current once the current one is settled is found again in the
/// list it belongs to.
pub proof fn lemma_settled_current_is_listed(s: EndpointState)
    requires
        s.lists_marked(),
    ensures
        s.settled_current() matches Some(e) ==> first_same(s.list_for(e.is_remote), e) is Some,
{
    match first_same(s.active_list(), s.current_endpoint@) {
        Some(e) => {
            lemma_first_same_is_entry(s.active_list(), s.current_endpoint@);
            let k = choose|k: int| 0 <= k < s.active_list().len() && #[trigger] s.active_list()[k] == e;
            lemma_first_same_found(s.active_list(), k, e);
        },
        None => {
            if s.remote_endpoints.len() > 0 {
                assert(s.remote_endpoints@[0].is_remote);
                lemma_first_same_found(views(s.remote_endpoints@), 0, s.remote_endpoints@[0]@);
            } else if s.endpoints.len() > 0 {
                assert(!s.endpoints@[0].is_remote);
                lemma_first_same_found(views(s.endpoints@), 0, s.endpoints@[0]@);
            }
        },
    }
}

} // verus!
