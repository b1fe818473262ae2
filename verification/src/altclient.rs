//! Statistics an AltClient server reports: the MezFes event, events,
//! online players, and per-character mail, distributions and play time.
use vstd::prelude::*;

use crate::launcher::{is_offline_endpoint, is_offline_spec};
use crate::server::{CharacterData, CourseData};
use crate::text::{str_chars, trim_chars, trim_spec};

verus! {

/// The MezFes event as the statistics report it.
#[derive(Debug, Clone, Default)]
pub struct AltClientMezFes {
    pub id: u32,
    pub start: u32,
    pub end: u32,
    pub solo_tickets: u32,
    pub group_tickets: u32,
    pub stalls: Vec<u32>,
}

/// The featured weapon.
#[derive(Debug, Clone, Copy, Default)]
pub struct AltClientFeaturedWeapon {
    pub start_time: u32,
    pub active_features: u32,
}

/// Which events are running.
#[derive(Debug, Clone, Default)]
pub struct AltClientEvents {
    pub festa_active: bool,
    pub diva_active: bool,
    pub tournament_active: bool,
    pub special_events: Vec<String>,
}

/// The account's currencies.
#[derive(Debug, Clone, Copy, Default)]
pub struct AltClientUserStats {
    pub gacha_premium: u32,
    pub gacha_trial: u32,
    pub frontier_points: u32,
}

/// An item of a distribution.
#[derive(Debug, Clone, Copy, Default)]
pub struct AltClientDistributionItemInfo {
    pub id: u32,
    pub item_type: u8,
    pub item_id: u32,
    pub quantity: u32,
}

/// A distribution waiting to be claimed.
#[derive(Debug, Clone, Default)]
pub struct AltClientDistributionInfo {
    pub id: u32,
    pub event_name: String,
    pub description: String,
    pub distribution_type: i32,
    pub type_label: String,
    pub deadline: i64,
    pub times_acceptable: u32,
    pub min_hr: Option<i32>,
    pub max_hr: Option<i32>,
    pub min_sr: Option<i32>,
    pub max_sr: Option<i32>,
    pub min_gr: Option<i32>,
    pub max_gr: Option<i32>,
    pub items: Vec<AltClientDistributionItemInfo>,
}

/// A page of distributions.
#[derive(Debug, Clone, Default)]
pub struct AltClientDistributionPage {
    pub character_id: u32,
    pub offset: u32,
    pub limit: u32,
    pub total: u32,
    pub entries: Vec<AltClientDistributionInfo>,
}

/// An unread mail.
#[derive(Debug, Clone, Default)]
pub struct AltClientMailInfo {
    pub sender_id: u32,
    pub sender_name: String,
    pub subject: String,
    pub body: String,
    pub has_item: bool,
    pub attached_item: u32,
    pub attached_item_amount: u32,
    pub item_amount: u32,
    pub is_guild_invite: bool,
    pub created_at: i64,
    pub is_system_message: bool,
    pub label: String,
}

/// A character with its statistics.
#[derive(Debug, Clone, Default)]
pub struct AltClientCharacterStats {
    pub id: u32,
    pub name: String,
    pub returning: bool,
    pub courses: Vec<CourseData>,
    pub time_played: u32,
    pub unread_mail: u32,
    pub unread_mail_entries: Vec<AltClientMailInfo>,
    pub unclaimed_distributions: u32,
    pub unclaimed_distribution_names: Vec<String>,
    pub unclaimed_distribution_details: Vec<AltClientDistributionInfo>,
}

/// A friend who is online.
#[derive(Debug, Clone, Default)]
pub struct AltClientOnlineFriend {
    pub cid: u32,
    pub id: u32,
    pub name: String,
    pub server_id: u32,
}

/// A character's statistics as the session reports them.
#[derive(Debug, Clone, Default)]
pub struct AltClientSessionCharacterStats {
    pub id: u32,
    pub time_played: u32,
    pub unread_mail: u32,
    pub unread_mail_entries: Vec<AltClientMailInfo>,
    pub unclaimed_distributions: u32,
    pub unclaimed_distribution_names: Vec<String>,
    pub unclaimed_distribution_details: Vec<AltClientDistributionInfo>,
}

/// What the session statistics report.
#[derive(Debug, Clone, Default)]
pub struct AltClientSessionStatsResponse {
    pub user: AltClientUserStats,
    pub characters: Vec<AltClientSessionCharacterStats>,
    pub online_friends: Vec<AltClientOnlineFriend>,
}

/// Everything the launcher shows of a server's statistics.
#[derive(Debug, Clone, Default)]
pub struct AltClientStats {
    pub mez_fes: Option<AltClientMezFes>,
    pub featured_weapon: Option<AltClientFeaturedWeapon>,
    pub events: AltClientEvents,
    pub enabled_special_events: Vec<String>,
    pub online_players: u32,
    pub user: AltClientUserStats,
    pub characters: Vec<AltClientCharacterStats>,
    pub online_friends: Vec<AltClientOnlineFriend>,
}

/// A copy of a list of strings.
pub fn copy_strings(v: &Vec<String>) -> (r: Vec<String>)
    ensures
        r@ == v@,
{
    let mut out: Vec<String> = Vec::new();
    let mut i: usize = 0;
    while i < v.len()
        invariant
            i <= v@.len(),
            out@ =~= v@.take(i as int),
        decreases v@.len() - i,
    {
        out.push(v[i].clone());
        i = i + 1;
    }
    assert(v@.take(v@.len() as int) =~= v@);
    out
}

/// A copy of a list of courses.
pub fn copy_courses(v: &Vec<CourseData>) -> (r: Vec<CourseData>)
    ensures
        r@ == v@,
{
    let mut out: Vec<CourseData> = Vec::new();
    let mut i: usize = 0;
    while i < v.len()
        invariant
            i <= v@.len(),
            out@ =~= v@.take(i as int),
        decreases v@.len() - i,
    {
        out.push(CourseData { id: v[i].id, name: v[i].name.clone() });
        i = i + 1;
    }
    assert(v@.take(v@.len() as int) =~= v@);
    out
}

/// A copy of a list of mails.
pub fn copy_mails(v: &Vec<AltClientMailInfo>) -> (r: Vec<AltClientMailInfo>)
    ensures
        r@ == v@,
{
    let mut out: Vec<AltClientMailInfo> = Vec::new();
    let mut i: usize = 0;
    while i < v.len()
        invariant
            i <= v@.len(),
            out@ =~= v@.take(i as int),
        decreases v@.len() - i,
    {
        let m = &v[i];
        out.push(
            AltClientMailInfo {
                sender_id: m.sender_id,
                sender_name: m.sender_name.clone(),
                subject: m.subject.clone(),
                body: m.body.clone(),
                has_item: m.has_item,
                attached_item: m.attached_item,
                attached_item_amount: m.attached_item_amount,
                item_amount: m.item_amount,
                is_guild_invite: m.is_guild_invite,
                created_at: m.created_at,
                is_system_message: m.is_system_message,
                label: m.label.clone(),
            },
        );
        i = i + 1;
    }
    assert(v@.take(v@.len() as int) =~= v@);
    out
}

/// A copy of a list of distribution items.
pub fn copy_items(v: &Vec<AltClientDistributionItemInfo>) -> (r: Vec<AltClientDistributionItemInfo>)
    ensures
        r@ == v@,
{
    let mut out: Vec<AltClientDistributionItemInfo> = Vec::new();
    let mut i: usize = 0;
    while i < v.len()
        invariant
            i <= v@.len(),
            out@ =~= v@.take(i as int),
        decreases v@.len() - i,
    {
        out.push(v[i]);
        i = i + 1;
    }
    assert(v@.take(v@.len() as int) =~= v@);
    out
}

/// A copy of a list of distributions.
pub fn copy_distributions(v: &Vec<AltClientDistributionInfo>) -> (r: Vec<AltClientDistributionInfo>)
    ensures
        r@.len() == v@.len(),
        forall|i: int| 0 <= i < v@.len() ==> same_distribution(#[trigger] r@[i], v@[i]),
{
    let mut out: Vec<AltClientDistributionInfo> = Vec::new();
    let mut i: usize = 0;
    while i < v.len()
        invariant
            i <= v@.len(),
            out@.len() == i,
            forall|j: int| 0 <= j < i ==> same_distribution(#[trigger] out@[j], v@[j]),
        decreases v@.len() - i,
    {
        let d = &v[i];
        out.push(
            AltClientDistributionInfo {
                id: d.id,
                event_name: d.event_name.clone(),
                description: d.description.clone(),
                distribution_type: d.distribution_type,
                type_label: d.type_label.clone(),
                deadline: d.deadline,
                times_acceptable: d.times_acceptable,
                min_hr: d.min_hr,
                max_hr: d.max_hr,
                min_sr: d.min_sr,
                max_sr: d.max_sr,
                min_gr: d.min_gr,
                max_gr: d.max_gr,
                items: copy_items(&d.items),
            },
        );
        i = i + 1;
    }
    out
}

/// Whether two distributions hold the same values.
pub open spec fn same_distribution(a: AltClientDistributionInfo, b: AltClientDistributionInfo) -> bool {
    &&& a.id == b.id
    &&& a.event_name == b.event_name
    &&& a.description == b.description
    &&& a.distribution_type == b.distribution_type
    &&& a.type_label == b.type_label
    &&& a.deadline == b.deadline
    &&& a.times_acceptable == b.times_acceptable
    &&& a.min_hr == b.min_hr
    &&& a.max_hr == b.max_hr
    &&& a.min_sr == b.min_sr
    &&& a.max_sr == b.max_sr
    &&& a.min_gr == b.min_gr
    &&& a.max_gr == b.max_gr
    &&& a.items@ == b.items@
}

/// The statistics of one character before the session reports more: its
/// id, name and whether it is returning, the account's courses, and
/// nothing else.
pub open spec fn fresh_stats(s: AltClientCharacterStats, c: CharacterData, courses: Seq<CourseData>) -> bool {
    &&& s.id == c.id
    &&& s.name == c.name
    &&& s.returning == c.returning
    &&& s.courses@ == courses
    &&& s.time_played == 0
    &&& s.unread_mail == 0
    &&& s.unread_mail_entries@.len() == 0
    &&& s.unclaimed_distributions == 0
    &&& s.unclaimed_distribution_names@.len() == 0
    &&& s.unclaimed_distribution_details@.len() == 0
}

/// The statistics of each character, in order, before the session reports
/// more.
pub fn build_character_stats(characters: Vec<CharacterData>, courses: Vec<CourseData>) -> (r: Vec<
    AltClientCharacterStats,
>)
    ensures
        r@.len() == characters@.len(),
        forall|i: int|
            0 <= i < characters@.len() ==> fresh_stats(#[trigger] r@[i], characters@[i], courses@),
{
    let mut out: Vec<AltClientCharacterStats> = Vec::new();
    let mut i: usize = 0;
    while i < characters.len()
        invariant
            i <= characters@.len(),
            out@.len() == i,
            forall|j: int| 0 <= j < i ==> fresh_stats(#[trigger] out@[j], characters@[j], courses@),
        decreases characters@.len() - i,
    {
        let c = &characters[i];
        out.push(
            AltClientCharacterStats {
                id: c.id,
                name: c.name.clone(),
                returning: c.returning,
                courses: copy_courses(&courses),
                time_played: 0,
                unread_mail: 0,
                unread_mail_entries: Vec::new(),
                unclaimed_distributions: 0,
                unclaimed_distribution_names: Vec::new(),
                unclaimed_distribution_details: Vec::new(),
            },
        );
        i = i + 1;
    }
    out
}

/// The position of the last session entry for character `id`, if any: when
/// the session lists a character twice, the later entry counts.
pub open spec fn last_entry_for(entries: Seq<AltClientSessionCharacterStats>, id: u32) -> Option<int> {
    if exists|j: int| 0 <= j < entries.len() && (#[trigger] entries[j]).id == id {
        Some(
            choose|j: int|
                0 <= j < entries.len() && (#[trigger] entries[j]).id == id && forall|k: int|
                    j < k < entries.len() ==> (#[trigger] entries[k]).id != id,
        )
    } else {
        None
    }
}

/// Whether `after` is `before` with the session entry `e` applied.
pub open spec fn with_session(after: AltClientCharacterStats, before: AltClientCharacterStats, e: AltClientSessionCharacterStats) -> bool {
    &&& after.id == before.id
    &&& after.name == before.name
    &&& after.returning == before.returning
    &&& after.courses@ == before.courses@
    &&& after.time_played == e.time_played
    &&& after.unread_mail == e.unread_mail
    &&& after.unread_mail_entries@ == e.unread_mail_entries@
    &&& after.unclaimed_distributions == e.unclaimed_distributions
    &&& after.unclaimed_distribution_names@ == e.unclaimed_distribution_names@
    &&& after.unclaimed_distribution_details@.len() == e.unclaimed_distribution_details@.len()
    &&& forall|i: int|
        0 <= i < e.unclaimed_distribution_details@.len() ==> same_distribution(
            #[trigger] after.unclaimed_distribution_details@[i],
            e.unclaimed_distribution_details@[i],
        )
}

/// The position of the last entry for `id` among the first `n` entries.
fn last_index_for(entries: &Vec<AltClientSessionCharacterStats>, id: u32) -> (r: Option<usize>)
    ensures
        match r {
            Some(j) => last_entry_for(entries@, id) == Some(j as int),
            None => last_entry_for(entries@, id) is None,
        },
        r matches Some(j) ==> j < entries@.len(),
{
    let mut found: Option<usize> = None;
    let mut j: usize = 0;
    while j < entries.len()
        invariant
            j <= entries@.len(),
            match found {
                Some(f) => f < j && entries@[f as int].id == id && forall|k: int|
                    f < k < j ==> (#[trigger] entries@[k]).id != id,
                None => forall|k: int| 0 <= k < j ==> (#[trigger] entries@[k]).id != id,
            },
        decreases entries@.len() - j,
    {
        if entries[j].id == id {
            found = Some(j);
        }
        j = j + 1;
    }
    match found {
        Some(f) => {
            let ghost c = choose|t: int|
                0 <= t < entries@.len() && (#[trigger] entries@[t]).id == id && forall|k: int|
                    t < k < entries@.len() ==> (#[trigger] entries@[k]).id != id;
            assert(c == f) by {
                if c < f {
                    assert(entries@[f as int].id != id);
                }
                if c > f {
                    assert(entries@[c].id != id);
                }
            }
        },
        None => {},
    }
    found
}

/// Takes in the session statistics: the account's currencies and online
/// friends are replaced, and each character the session reports takes its
/// play time, mail and distributions from the session's last entry for it.
pub fn apply_session_stats(out: &mut AltClientStats, stats: AltClientSessionStatsResponse)
    ensures
        final(out).user == stats.user,
        final(out).online_friends@ == stats.online_friends@,
        final(out).mez_fes == old(out).mez_fes,
        final(out).featured_weapon == old(out).featured_weapon,
        final(out).events == old(out).events,
        final(out).enabled_special_events == old(out).enabled_special_events,
        final(out).online_players == old(out).online_players,
        final(out).characters@.len() == old(out).characters@.len(),
        forall|i: int|
            0 <= i < old(out).characters@.len() ==> match last_entry_for(
                stats.characters@,
                old(out).characters@[i].id,
            ) {
                Some(j) => with_session(
                    #[trigger] final(out).characters@[i],
                    old(out).characters@[i],
                    stats.characters@[j],
                ),
                None => final(out).characters@[i] == old(out).characters@[i],
            },
{
    out.user = stats.user;
    out.online_friends = stats.online_friends;
    let entries = stats.characters;
    let ghost start = out.characters@;
    let mut chars: Vec<AltClientCharacterStats> = Vec::new();
    std::mem::swap(&mut chars, &mut out.characters);
    assert(chars@ == start);
    let mut i: usize = 0;
    while i < chars.len()
        invariant
            i <= chars@.len(),
            chars@.len() == start.len(),
            forall|t: int|
                0 <= t < i ==> match last_entry_for(entries@, start[t].id) {
                    Some(j) => with_session(#[trigger] chars@[t], start[t], entries@[j]),
                    None => chars@[t] == start[t],
                },
            forall|t: int| i <= t < chars@.len() ==> #[trigger] chars@[t] == start[t],
        decreases chars@.len() - i,
    {
        match last_index_for(&entries, chars[i].id) {
            Some(j) => {
                let e = &entries[j];
                let ghost before = chars@;
                let c = &chars[i];
                let updated = AltClientCharacterStats {
                    id: c.id,
                    name: c.name.clone(),
                    returning: c.returning,
                    courses: copy_courses(&c.courses),
                    time_played: e.time_played,
                    unread_mail: e.unread_mail,
                    unread_mail_entries: copy_mails(&e.unread_mail_entries),
                    unclaimed_distributions: e.unclaimed_distributions,
                    unclaimed_distribution_names: copy_strings(&e.unclaimed_distribution_names),
                    unclaimed_distribution_details: copy_distributions(
                        &e.unclaimed_distribution_details,
                    ),
                };
                assert(updated.courses@ == start[i as int].courses@);
                chars.set(i, updated);
                assert forall|t: int| 0 <= t < chars@.len() && t != i implies chars@[t] == before[t] by {}
            },
            None => {},
        }
        i = i + 1;
    }
    out.characters = chars;
}

/// The most distributions a page holds.
pub const DISTRIBUTION_PAGE_LIMIT: u32 = 6;

/// What a request for a character's distributions comes to: an empty page
/// with the given position, or a fetch from the server at `offset` of at
/// most `limit` entries.
#[derive(Debug)]
pub enum DistributionQuery {
    Empty { character_id: u32, offset: u32, limit: u32 },
    Fetch { offset: u32, limit: u32 },
}

/// The page size asked for, between one and six; six when none is asked.
pub open spec fn page_limit_spec(limit: Option<u32>) -> u32 {
    match limit {
        Some(l) => if l < 1 {
            1
        } else if l > DISTRIBUTION_PAGE_LIMIT {
            DISTRIBUTION_PAGE_LIMIT
        } else {
            l
        },
        None => DISTRIBUTION_PAGE_LIMIT,
    }
}

/// Decides a distribution request: no character gives an empty page at
/// the start; offline mode (an address that is blank or "OFFLINEMODE"), no
/// session or a blank session token give an empty page at the position
/// asked; otherwise the page is fetched.
pub open spec fn distribution_query_spec(
    character_id: u32,
    offset: Option<u32>,
    limit: Option<u32>,
    url: Seq<char>,
    token: Option<Seq<char>>,
) -> DistributionQuery {
    let o = match offset {
        Some(x) => x,
        None => 0,
    };
    let l = page_limit_spec(limit);
    if character_id == 0 {
        DistributionQuery::Empty { character_id, offset: 0, limit: 0 }
    } else if is_offline_spec(url) || trim_spec(url).len() == 0 {
        DistributionQuery::Empty { character_id, offset: o, limit: l }
    } else if token is None || trim_spec(token->0).len() == 0 {
        DistributionQuery::Empty { character_id, offset: o, limit: l }
    } else {
        DistributionQuery::Fetch { offset: o, limit: l }
    }
}

/// Decides a request for the distributions of `character_id`, given the
/// current server's address `url` and the session token, if signed in.
pub fn distribution_query(
    character_id: u32,
    offset: Option<u32>,
    limit: Option<u32>,
    url: &str,
    token: Option<&str>,
) -> (q: DistributionQuery)
    ensures
        q == distribution_query_spec(
            character_id,
            offset,
            limit,
            url@,
            match token {
                Some(t) => Some(t@),
                None => None,
            },
        ),
{
    if character_id == 0 {
        return DistributionQuery::Empty { character_id, offset: 0, limit: 0 };
    }
    let o = match offset {
        Some(x) => x,
        None => 0,
    };
    let l = match limit {
        Some(x) => if x < 1 {
            1
        } else if x > DISTRIBUTION_PAGE_LIMIT {
            DISTRIBUTION_PAGE_LIMIT
        } else {
            x
        },
        None => DISTRIBUTION_PAGE_LIMIT,
    };
    let url_chars = str_chars(url);
    let url_trimmed = trim_chars(url_chars.as_slice());
    if is_offline_endpoint(url) || url_trimmed.len() == 0 {
        return DistributionQuery::Empty { character_id, offset: o, limit: l };
    }
    match token {
        None => DistributionQuery::Empty { character_id, offset: o, limit: l },
        Some(t) => {
            let t_chars = str_chars(t);
            let t_trimmed = trim_chars(t_chars.as_slice());
            if t_trimmed.len() == 0 {
                DistributionQuery::Empty { character_id, offset: o, limit: l }
            } else {
                DistributionQuery::Fetch { offset: o, limit: l }
            }
        },
    }
}

/// The empty page a query gives, if it gives one.
pub fn empty_page(q: &DistributionQuery) -> (p: Option<AltClientDistributionPage>)
    ensures
        match q {
            DistributionQuery::Empty { character_id, offset, limit } => p matches Some(page)
                && page.character_id == character_id && page.offset == offset && page.limit == limit
                && page.total == 0 && page.entries@.len() == 0,
            DistributionQuery::Fetch { .. } => p is None,
        },
{
    match q {
        DistributionQuery::Empty { character_id, offset, limit } => Some(
            AltClientDistributionPage {
                character_id: *character_id,
                offset: *offset,
                limit: *limit,
                total: 0,
                entries: Vec::new(),
            },
        ),
        DistributionQuery::Fetch { .. } => None,
    }
}

} // verus!
