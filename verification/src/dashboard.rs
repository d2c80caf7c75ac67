//! The lane dashboard: which lanes it lists under the shipped, active and
//! archived headings for the chosen scope, and when it says that no lane
//! matches the filter.
use vstd::prelude::*;

use crate::extension_sort::{sort_extension_entries, sorted_by, stable_rearrangement, ExtensionRegistrySort};
use crate::extensions::{
    extension_entry_matches_filters, matches_filters, BaselineFilter, HostExtensionRegistryView,
    PendingExtensionEntry, ProofQualityFilter,
};
use crate::extensions::{is_text, opt_is};
use crate::proofs::ExtensionActivityItem;
use crate::text::{text_eq, views};
use crate::xray::first_n;

verus! {

/// The dashboard's lane filters besides the text query.
#[derive(Clone, Copy, Debug, PartialEq, Eq, Structural)]
pub struct LaneFilters {
    pub proof_quality: ProofQualityFilter,
    pub proof_baseline: BaselineFilter,
    pub composition_baseline: BaselineFilter,
    pub patch_baseline: BaselineFilter,
    pub helper_baseline: BaselineFilter,
    pub bridge_baseline: BaselineFilter,
}

/// Which lane lists the dashboard shows.
#[derive(Clone, Copy, Debug, PartialEq, Eq, Structural)]
pub enum RegistryScope {
    All,
    Shipped,
    Active,
    Archived,
}

/// The lanes listed under each heading, and whether the dashboard says
/// "No lanes match the current filter."
pub struct DashboardLists<'a> {
    pub shipped: Vec<&'a PendingExtensionEntry>,
    pub active: Vec<&'a PendingExtensionEntry>,
    pub archived: Vec<&'a PendingExtensionEntry>,
    pub no_lanes_match: bool,
}

/// How many lanes a heading lists at most.
pub const DASHBOARD_LIST_LIMIT: usize = 8;

/// The line shown when no lane of any list passes the filters.
pub open spec fn no_match_line() -> Seq<char> {
    "No lanes match the current filter."@
}

pub open spec fn lane_passes(e: PendingExtensionEntry, query: Seq<char>, f: LaneFilters) -> bool {
    matches_filters(
        e,
        query,
        f.proof_quality,
        f.proof_baseline,
        f.composition_baseline,
        f.patch_baseline,
        f.helper_baseline,
        f.bridge_baseline,
    )
}

/// The lanes of `s` that pass the query and the filters, in their order.
pub open spec fn passing<'a>(s: Seq<PendingExtensionEntry>, query: Seq<char>, f: LaneFilters) -> Seq<
    &'a PendingExtensionEntry,
>
    decreases s.len(),
{
    if s.len() == 0 {
        Seq::empty()
    } else {
        let before = passing(s.drop_last(), query, f);
        if lane_passes(s.last(), query, f) {
            before.push(&s.last())
        } else {
            before
        }
    }
}

/// `out` is `input` stably sorted under `sort`.
pub open spec fn sorted_view<'a>(
    input: Seq<&'a PendingExtensionEntry>,
    out: Seq<&'a PendingExtensionEntry>,
    sort: ExtensionRegistrySort,
) -> bool {
    &&& out.to_multiset() == input.to_multiset()
    &&& sorted_by(out, sort)
    &&& exists|idx: Seq<int>| stable_rearrangement(input, out, idx, sort)
}

/// What a heading lists: nothing when the scope leaves it out, else the
/// first eight of its passing lanes, stably sorted.
pub open spec fn heading_list<'a>(
    src: Seq<PendingExtensionEntry>,
    query: Seq<char>,
    f: LaneFilters,
    sort: ExtensionRegistrySort,
    in_scope: bool,
    list: Seq<&'a PendingExtensionEntry>,
) -> bool {
    if in_scope {
        exists|full: Seq<&'a PendingExtensionEntry>|
            sorted_view(passing(src, query, f), full, sort) && list == first_n(
                full,
                DASHBOARD_LIST_LIMIT as nat,
            )
    } else {
        list.len() == 0
    }
}

pub open spec fn shows_shipped(scope: RegistryScope) -> bool {
    scope == RegistryScope::All || scope == RegistryScope::Shipped
}

pub open spec fn shows_active(scope: RegistryScope) -> bool {
    scope == RegistryScope::All || scope == RegistryScope::Active
}

pub open spec fn shows_archived(scope: RegistryScope) -> bool {
    scope == RegistryScope::All || scope == RegistryScope::Archived
}

fn passing_lanes<'a>(src: &'a Vec<PendingExtensionEntry>, query: &str, f: LaneFilters) -> (r: Vec<
    &'a PendingExtensionEntry,
>)
    ensures
        r@ == passing(src@, query@, f),
{
    let mut out: Vec<&'a PendingExtensionEntry> = Vec::new();
    let mut i: usize = 0;
    while i < src.len()
        invariant
            i <= src.len(),
            out@ == passing(src@.subrange(0, i as int), query@, f),
        decreases src.len() - i,
    {
        let e = &src[i];
        proof {
            assert(src@.subrange(0, i + 1).drop_last() =~= src@.subrange(0, i as int));
        }
        if extension_entry_matches_filters(
            e,
            query,
            f.proof_quality,
            f.proof_baseline,
            f.composition_baseline,
            f.patch_baseline,
            f.helper_baseline,
            f.bridge_baseline,
        ) {
            out.push(e);
        }
        i = i + 1;
    }
    proof {
        assert(src@.subrange(0, src@.len() as int) =~= src@);
    }
    out
}

fn heading<'a>(
    src: &'a Vec<PendingExtensionEntry>,
    query: &str,
    f: LaneFilters,
    sort: ExtensionRegistrySort,
    in_scope: bool,
) -> (r: (Vec<&'a PendingExtensionEntry>, bool))
    ensures
        heading_list(src@, query@, f, sort, in_scope, r.0@),
        r.1 == (passing(src@, query@, f).len() > 0),
{
    let mut v = passing_lanes(src, query, f);
    let any = v.len() > 0;
    if !in_scope {
        return (Vec::new(), any);
    }
    let ghost input = v@;
    sort_extension_entries(&mut v, sort);
    let ghost full = v@;
    v.truncate(DASHBOARD_LIST_LIMIT);
    proof {
        assert(v@ == first_n(full, DASHBOARD_LIST_LIMIT as nat));
        assert(sorted_view(input, full, sort));
    }
    (v, any)
}

/// The dashboard's three headings for `scope`, and its no-match line.
pub fn dashboard_lists<'a>(
    reg: &'a HostExtensionRegistryView,
    query: &str,
    filters: LaneFilters,
    sort: ExtensionRegistrySort,
    scope: RegistryScope,
) -> (r: DashboardLists<'a>)
    ensures
        heading_list(reg.fully_live_entries@, query@, filters, sort, shows_shipped(scope), r.shipped@),
        heading_list(reg.active_entries@, query@, filters, sort, shows_active(scope), r.active@),
        heading_list(reg.archived_entries@, query@, filters, sort, shows_archived(scope), r.archived@),
        r.no_lanes_match == (passing(reg.fully_live_entries@, query@, filters).len() == 0 && passing(
            reg.active_entries@,
            query@,
            filters,
        ).len() == 0 && passing(reg.archived_entries@, query@, filters).len() == 0),
{
    let all = matches!(scope, RegistryScope::All);
    let (shipped, any_shipped) = heading(
        &reg.fully_live_entries,
        query,
        filters,
        sort,
        all || matches!(scope, RegistryScope::Shipped),
    );
    let (active, any_active) = heading(
        &reg.active_entries,
        query,
        filters,
        sort,
        all || matches!(scope, RegistryScope::Active),
    );
    let (archived, any_archived) = heading(
        &reg.archived_entries,
        query,
        filters,
        sort,
        all || matches!(scope, RegistryScope::Archived),
    );
    DashboardLists {
        shipped,
        active,
        archived,
        no_lanes_match: !any_shipped && !any_active && !any_archived,
    }
}

// ---------------------------------------------------------------------------
// Favorites and recent lanes
// ---------------------------------------------------------------------------

/// How many recent lanes the dashboard lists at most.
pub const RECENT_LANES_LIMIT: usize = 6;

/// The lanes of `s` that are favorites and pass the query and the filters, in order.
pub open spec fn passing_favorites<'a>(
    s: Seq<PendingExtensionEntry>,
    query: Seq<char>,
    f: LaneFilters,
    favorites: Seq<Seq<char>>,
) -> Seq<&'a PendingExtensionEntry>
    decreases s.len(),
{
    if s.len() == 0 {
        Seq::empty()
    } else {
        let before = passing_favorites(s.drop_last(), query, f, favorites);
        if favorites.contains(s.last().entry_id@) && lane_passes(s.last(), query, f) {
            before.push(&s.last())
        } else {
            before
        }
    }
}

/// The favorite lanes, active first, then shipped, then archived.
pub open spec fn all_passing_favorites<'a>(
    reg: HostExtensionRegistryView,
    query: Seq<char>,
    f: LaneFilters,
    favorites: Seq<Seq<char>>,
) -> Seq<&'a PendingExtensionEntry> {
    passing_favorites(reg.active_entries@, query, f, favorites) + passing_favorites(
        reg.fully_live_entries@,
        query,
        f,
        favorites,
    ) + passing_favorites(reg.archived_entries@, query, f, favorites)
}

/// The first lane of `s` with identity `id`, from position `i` on.
pub open spec fn first_named(s: Seq<PendingExtensionEntry>, id: Seq<char>, i: int) -> Option<
    PendingExtensionEntry,
>
    decreases s.len() - i,
{
    if i < 0 || i >= s.len() {
        None
    } else if s[i].entry_id@ == id {
        Some(s[i])
    } else {
        first_named(s, id, i + 1)
    }
}

/// The lane with identity `id`: looked for among the active, then the
/// shipped, then the archived lanes.
pub open spec fn lane_named(reg: HostExtensionRegistryView, id: Seq<char>) -> Option<PendingExtensionEntry> {
    match first_named(reg.active_entries@, id, 0) {
        Some(e) => Some(e),
        None => match first_named(reg.fully_live_entries@, id, 0) {
            Some(e) => Some(e),
            None => first_named(reg.archived_entries@, id, 0),
        },
    }
}

/// The recent lanes that are found and pass, in the order of the recent list.
pub open spec fn recent_passing(
    reg: HostExtensionRegistryView,
    ids: Seq<Seq<char>>,
    query: Seq<char>,
    f: LaneFilters,
) -> Seq<PendingExtensionEntry>
    decreases ids.len(),
{
    if ids.len() == 0 {
        Seq::empty()
    } else {
        let before = recent_passing(reg, ids.drop_last(), query, f);
        match lane_named(reg, ids.last()) {
            Some(e) => if lane_passes(e, query, f) {
                before.push(e)
            } else {
                before
            },
            None => before,
        }
    }
}

/// The dashboard's favorites and recent lists.
pub struct DashboardShortcuts<'a> {
    pub favorites: Vec<&'a PendingExtensionEntry>,
    pub recent: Vec<&'a PendingExtensionEntry>,
}

fn favorite_lanes<'a>(
    src: &'a Vec<PendingExtensionEntry>,
    query: &str,
    f: LaneFilters,
    favorites: &Vec<String>,
) -> (r: Vec<&'a PendingExtensionEntry>)
    ensures
        r@ == passing_favorites(src@, query@, f, views(favorites@)),
{
    let mut out: Vec<&'a PendingExtensionEntry> = Vec::new();
    let mut i: usize = 0;
    while i < src.len()
        invariant
            i <= src.len(),
            out@ == passing_favorites(src@.subrange(0, i as int), query@, f, views(favorites@)),
        decreases src.len() - i,
    {
        let e = &src[i];
        proof {
            assert(src@.subrange(0, i + 1).drop_last() =~= src@.subrange(0, i as int));
        }
        if contains_id(favorites, e.entry_id.as_str()) && extension_entry_matches_filters(
            e,
            query,
            f.proof_quality,
            f.proof_baseline,
            f.composition_baseline,
            f.patch_baseline,
            f.helper_baseline,
            f.bridge_baseline,
        ) {
            out.push(e);
        }
        i = i + 1;
    }
    proof {
        assert(src@.subrange(0, src@.len() as int) =~= src@);
    }
    out
}

fn contains_id(ids: &Vec<String>, id: &str) -> (b: bool)
    ensures
        b == views(ids@).contains(id@),
{
    let mut i: usize = 0;
    while i < ids.len()
        invariant
            i <= ids.len(),
            forall|k: int| 0 <= k < i ==> views(ids@)[k] != id@,
        decreases ids.len() - i,
    {
        if text_eq(ids[i].as_str(), id) {
            assert(views(ids@)[i as int] == id@);
            return true;
        }
        i = i + 1;
    }
    proof {
        if views(ids@).contains(id@) {
            let w = choose|w: int| 0 <= w < views(ids@).len() && views(ids@)[w] == id@;
        }
    }
    false
}

fn find_named<'a>(src: &'a Vec<PendingExtensionEntry>, id: &str) -> (r: Option<&'a PendingExtensionEntry>)
    ensures
        match r {
            Some(e) => first_named(src@, id@, 0) == Some(*e),
            None => first_named(src@, id@, 0) is None,
        },
{
    let mut i: usize = 0;
    while i < src.len()
        invariant
            i <= src.len(),
            first_named(src@, id@, 0) == first_named(src@, id@, i as int),
        decreases src.len() - i,
    {
        if text_eq(src[i].entry_id.as_str(), id) {
            return Some(&src[i]);
        }
        i = i + 1;
    }
    None
}

fn lane_by_id<'a>(reg: &'a HostExtensionRegistryView, id: &str) -> (r: Option<&'a PendingExtensionEntry>)
    ensures
        match r {
            Some(e) => lane_named(*reg, id@) == Some(*e),
            None => lane_named(*reg, id@) is None,
        },
{
    match find_named(&reg.active_entries, id) {
        Some(e) => Some(e),
        None => match find_named(&reg.fully_live_entries, id) {
            Some(e) => Some(e),
            None => find_named(&reg.archived_entries, id),
        },
    }
}

/// The favorites list (the first eight favorite lanes that pass, sorted)
/// and the recent list (the first six recent lanes that are found and pass).
pub fn dashboard_shortcuts<'a>(
    reg: &'a HostExtensionRegistryView,
    query: &str,
    filters: LaneFilters,
    sort: ExtensionRegistrySort,
    favorites: &Vec<String>,
    recent: &Vec<String>,
) -> (r: DashboardShortcuts<'a>)
    ensures
        exists|full: Seq<&'a PendingExtensionEntry>|
            sorted_view(all_passing_favorites(*reg, query@, filters, views(favorites@)), full, sort)
                && r.favorites@ == first_n(full, DASHBOARD_LIST_LIMIT as nat),
        r.recent@.len() == first_n(
            recent_passing(*reg, views(recent@), query@, filters),
            RECENT_LANES_LIMIT as nat,
        ).len(),
        forall|k: int|
            0 <= k < r.recent@.len() ==> *r.recent@[k] == first_n(
                recent_passing(*reg, views(recent@), query@, filters),
                RECENT_LANES_LIMIT as nat,
            )[k],
{
    let mut favs = favorite_lanes(&reg.active_entries, query, filters, favorites);
    let mut live = favorite_lanes(&reg.fully_live_entries, query, filters, favorites);
    let mut archived = favorite_lanes(&reg.archived_entries, query, filters, favorites);
    favs.append(&mut live);
    favs.append(&mut archived);
    let ghost input = favs@;
    sort_extension_entries(&mut favs, sort);
    let ghost full = favs@;
    favs.truncate(DASHBOARD_LIST_LIMIT);
    proof {
        assert(favs@ == first_n(full, DASHBOARD_LIST_LIMIT as nat));
        assert(sorted_view(input, full, sort));
    }
    let ghost want = recent_passing(*reg, views(recent@), query@, filters);
    let mut rec: Vec<&'a PendingExtensionEntry> = Vec::new();
    let mut i: usize = 0;
    while i < recent.len()
        invariant
            i <= recent.len(),
            rec@.len() == recent_passing(*reg, views(recent@).subrange(0, i as int), query@, filters).len(),
            forall|k: int|
                0 <= k < rec@.len() ==> *rec@[k] == recent_passing(
                    *reg,
                    views(recent@).subrange(0, i as int),
                    query@,
                    filters,
                )[k],
        decreases recent.len() - i,
    {
        proof {
            assert(views(recent@).subrange(0, i + 1).drop_last() =~= views(recent@).subrange(0, i as int));
            assert(views(recent@).subrange(0, i + 1).last() == recent@[i as int]@);
        }
        if let Some(e) = lane_by_id(reg, recent[i].as_str()) {
            if extension_entry_matches_filters(
                e,
                query,
                filters.proof_quality,
                filters.proof_baseline,
                filters.composition_baseline,
                filters.patch_baseline,
                filters.helper_baseline,
                filters.bridge_baseline,
            ) {
                rec.push(e);
            }
        }
        i = i + 1;
    }
    proof {
        assert(views(recent@).subrange(0, recent@.len() as int) =~= views(recent@));
    }
    let ghost all_rec = rec@;
    rec.truncate(RECENT_LANES_LIMIT);
    DashboardShortcuts { favorites: favs, recent: rec }
}

/// How many activity items a lane's timeline shows.
pub const LANE_TIMELINE_LIMIT: usize = 8;

/// The positions at or after `t` of the activity items about `id`, newest (last) first.
pub open spec fn about_desc(s: Seq<ExtensionActivityItem>, id: Seq<char>, t: int) -> Seq<usize>
    decreases s.len() - t,
{
    if t < 0 || t >= s.len() {
        Seq::empty()
    } else {
        let later = about_desc(s, id, t + 1);
        if is_text(s[t].entry_id, id) {
            later.push(t as usize)
        } else {
            later
        }
    }
}

/// The lane's timeline: the positions of its eight newest activity items, newest first.
pub fn lane_timeline(activity: &Vec<ExtensionActivityItem>, entry_id: &str) -> (r: Vec<usize>)
    ensures
        r@ == first_n(about_desc(activity@, entry_id@, 0), LANE_TIMELINE_LIMIT as nat),
{
    let mut out: Vec<usize> = Vec::new();
    let mut t: usize = activity.len();
    while t > 0
        invariant
            t <= activity.len(),
            out@ == about_desc(activity@, entry_id@, t as int),
        decreases t,
    {
        t = t - 1;
        if opt_is(&activity[t].entry_id, entry_id) {
            out.push(t);
        }
    }
    out.truncate(LANE_TIMELINE_LIMIT);
    out
}

} // verus!
