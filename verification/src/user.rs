//! The accounts remembered for each server: the user name, whether to
//! remember it, and the stored password, kept apart for local and remote
//! servers.
use vstd::prelude::*;

use crate::endpoint::Endpoint;
use crate::entries::NamedEntries;

verus! {

/// The account remembered for a server.
#[derive(Debug, Clone, Default)]
pub struct UserData {
    pub username: String,
    pub remember_me: bool,
}

/// The accounts remembered for each server, by server name: index 0 for
/// local servers, 1 for remote ones.
pub struct UserManager {
    pub data: [NamedEntries<UserData>; 2],
    pub passwords: [NamedEntries<String>; 2],
}

/// The list of local (0) or remote (1) servers.
pub open spec fn side(is_remote: bool) -> int {
    if is_remote {
        1
    } else {
        0
    }
}

/// The user name remembered for `endpoint`, empty when there is none.
pub open spec fn stored_username_spec(users: UserManager, endpoint: Endpoint) -> Seq<char> {
    match users.data[side(endpoint.is_remote)].lookup(endpoint.name@) {
        Some(d) => d.username@,
        None => Seq::empty(),
    }
}

impl UserManager {
    /// Every list stores each name at most once.
    pub open spec fn well_formed(&self) -> bool {
        &&& self.data[0].unique()
        &&& self.data[1].unique()
        &&& self.passwords[0].unique()
        &&& self.passwords[1].unique()
    }

    /// Nothing remembered.
    pub fn new() -> (m: Self)
        ensures
            m.well_formed(),
    {
        UserManager {
            data: [NamedEntries::new(), NamedEntries::new()],
            passwords: [NamedEntries::new(), NamedEntries::new()],
        }
    }

    /// The key a server's password is kept under in the system's key store:
    /// its name, a colon, and "true" or "false" for whether it is remote.
    pub fn get_target(&self, endpoint: &Endpoint) -> (t: String)
        ensures
            t@ == endpoint.name@ + seq![':'] + (if endpoint.is_remote {
                "true"@
            } else {
                "false"@
            }),
    {
        let mut t = endpoint.name.clone();
        t.append(":");
        if endpoint.is_remote {
            t.append("true");
        } else {
            t.append("false");
        }
        proof {
            reveal_strlit(":");
        }
        t
    }

    /// The account remembered for `endpoint`: the stored one, else an empty
    /// user name with "remember me" on.
    pub fn get_user(&self, endpoint: &Endpoint) -> (u: UserData)
        requires
            self.well_formed(),
        ensures
            match self.data[side(endpoint.is_remote)].lookup(endpoint.name@) {
                Some(d) => u == d,
                None => u.username@.len() == 0 && u.remember_me,
            },
    {
        let k: usize = if endpoint.is_remote {
            1
        } else {
            0
        };
        match self.data[k].position(endpoint.name.as_str()) {
            Some(i) => {
                let d = &self.data[k].entries[i].1;
                UserData { username: d.username.clone(), remember_me: d.remember_me }
            },
            None => UserData { username: String::new(), remember_me: true },
        }
    }

    /// The password stored in the launcher's own settings for `endpoint`,
    /// or an empty one.
    pub fn stored_password(&self, endpoint: &Endpoint) -> (p: String)
        requires
            self.well_formed(),
        ensures
            match self.passwords[side(endpoint.is_remote)].lookup(endpoint.name@) {
                Some(s) => p == s,
                None => p@.len() == 0,
            },
    {
        let k: usize = if endpoint.is_remote {
            1
        } else {
            0
        };
        match self.passwords[k].position(endpoint.name.as_str()) {
            Some(i) => self.passwords[k].entries[i].1.clone(),
            None => String::new(),
        }
    }

    /// Remembers (or forgets) the account for `endpoint`.  With "remember
    /// me" the account is stored, and the password too unless the system's
    /// key store holds it (`use_keyring`); without it, both are forgotten.
    pub fn set(&mut self, endpoint: &Endpoint, userdata: UserData, password: String, use_keyring: bool)
        requires
            old(self).well_formed(),
        ensures
            final(self).well_formed(),
            ({
                let s = side(endpoint.is_remote);
                let n = endpoint.name@;
                if userdata.remember_me {
                    &&& final(self).data[s].lookup(n) == Some(userdata)
                    &&& final(self).passwords[s].lookup(n) == (if use_keyring {
                        old(self).passwords[s].lookup(n)
                    } else {
                        Some(password)
                    })
                } else {
                    &&& !final(self).data[s].has(n)
                    &&& !final(self).passwords[s].has(n)
                }
            }),
            forall|m: Seq<char>|
                m != endpoint.name@ ==> final(self).data[side(endpoint.is_remote)].lookup(m) == old(
                    self,
                ).data[side(endpoint.is_remote)].lookup(m) && final(self).passwords[side(
                    endpoint.is_remote,
                )].lookup(m) == old(self).passwords[side(endpoint.is_remote)].lookup(m),
            final(self).data[1 - side(endpoint.is_remote)] == old(self).data[1 - side(
                endpoint.is_remote,
            )],
            final(self).passwords[1 - side(endpoint.is_remote)] == old(self).passwords[1 - side(
                endpoint.is_remote,
            )],
    {
        let k: usize = if endpoint.is_remote {
            1
        } else {
            0
        };
        if userdata.remember_me {
            if !use_keyring {
                let mut p = NamedEntries { entries: Vec::new() };
                std::mem::swap(&mut p, &mut self.passwords[k]);
                p.insert(endpoint.name.clone(), password);
                std::mem::swap(&mut p, &mut self.passwords[k]);
            }
            let mut d = NamedEntries { entries: Vec::new() };
            std::mem::swap(&mut d, &mut self.data[k]);
            d.insert(endpoint.name.clone(), userdata);
            std::mem::swap(&mut d, &mut self.data[k]);
        } else {
            let mut p = NamedEntries { entries: Vec::new() };
            std::mem::swap(&mut p, &mut self.passwords[k]);
            p.remove(endpoint.name.as_str());
            std::mem::swap(&mut p, &mut self.passwords[k]);
            let mut d = NamedEntries { entries: Vec::new() };
            std::mem::swap(&mut d, &mut self.data[k]);
            d.remove(endpoint.name.as_str());
            std::mem::swap(&mut d, &mut self.data[k]);
        }
    }
}

} // verus!
