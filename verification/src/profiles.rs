//! Saved proof-run profiles: named snapshots of the proof panel's template,
//! history filter and planner settings, kept sorted by name.
use vstd::prelude::*;

use crate::order::{compare_text, lemma_text_order_facts, text_order};
use crate::search::{first_from, first_where};
use crate::text::{is_blank, owned, text_eq, trim_text, trimmed};

verus! {

/// A saved proof-run profile.
pub struct ProofRunProfile {
    pub profile_name: String,
    pub selected_proof_template_id: String,
    pub proof_history_template_filter: String,
    pub pin_history_filter_to_selected_template: bool,
    pub auto_planner: bool,
    pub planner_port: String,
    pub planner_model: String,
}

/// A profile as text and flags.
pub struct ProfileView {
    pub name: Seq<char>,
    pub template: Seq<char>,
    pub filter: Seq<char>,
    pub pin: bool,
    pub auto_planner: bool,
    pub port: Seq<char>,
    pub model: Seq<char>,
}

impl View for ProofRunProfile {
    type V = ProfileView;

    open spec fn view(&self) -> ProfileView {
        ProfileView {
            name: self.profile_name@,
            template: self.selected_proof_template_id@,
            filter: self.proof_history_template_filter@,
            pin: self.pin_history_filter_to_selected_template,
            auto_planner: self.auto_planner,
            port: self.planner_port@,
            model: self.planner_model@,
        }
    }
}

/// The proof panel's settings and its saved profiles.
pub struct ProofPanelSettings {
    pub selected_proof_template_id: String,
    pub proof_history_template_filter: String,
    pub pin_history_filter_to_selected_template: bool,
    pub auto_planner: bool,
    pub planner_port: String,
    pub planner_model: String,
    pub selected_proof_profile_name: String,
    pub proof_profile_name_input: String,
    pub proof_run_profiles: Vec<ProofRunProfile>,
}

/// The profiles as views.
pub open spec fn profile_views(v: Seq<ProofRunProfile>) -> Seq<ProfileView> {
    Seq::new(v.len(), |i: int| v[i]@)
}

/// `p` placed after every profile whose name is not greater (a stable insertion).
pub open spec fn insert_profile(s: Seq<ProfileView>, p: ProfileView) -> Seq<ProfileView>
    decreases s.len(),
{
    if s.len() == 0 {
        seq![p]
    } else if text_order(p.name, s[0].name) < 0 {
        seq![p] + s
    } else {
        seq![s[0]] + insert_profile(s.drop_first(), p)
    }
}

/// The profiles sorted by name, stably (as `sort_by` on the name does).
pub open spec fn sort_profiles(s: Seq<ProfileView>) -> Seq<ProfileView>
    decreases s.len(),
{
    if s.len() == 0 {
        Seq::empty()
    } else {
        insert_profile(sort_profiles(s.drop_last()), s.last())
    }
}

/// The profile the panel's current settings make under `name`.
pub open spec fn current_view(s: ProofPanelSettings, name: Seq<char>) -> ProfileView {
    ProfileView {
        name,
        template: s.selected_proof_template_id@,
        filter: s.proof_history_template_filter@,
        pin: s.pin_history_filter_to_selected_template,
        auto_planner: s.auto_planner,
        port: s.planner_port@,
        model: s.planner_model@,
    }
}

/// A profile named `name`.
pub open spec fn named(name: Seq<char>) -> spec_fn(ProfileView) -> bool {
    |p: ProfileView| p.name == name
}

/// The settings other than the profiles, the selection and the name input are as in `b`.
pub open spec fn same_run_settings(a: ProofPanelSettings, b: ProofPanelSettings) -> bool {
    &&& a.selected_proof_template_id@ == b.selected_proof_template_id@
    &&& a.proof_history_template_filter@ == b.proof_history_template_filter@
    &&& a.pin_history_filter_to_selected_template == b.pin_history_filter_to_selected_template
    &&& a.auto_planner == b.auto_planner
    &&& a.planner_port@ == b.planner_port@
    &&& a.planner_model@ == b.planner_model@
}

/// The settings are unchanged.
pub open spec fn unchanged(a: ProofPanelSettings, b: ProofPanelSettings) -> bool {
    &&& same_run_settings(a, b)
    &&& a.selected_proof_profile_name@ == b.selected_proof_profile_name@
    &&& a.proof_profile_name_input@ == b.proof_profile_name_input@
    &&& profile_views(a.proof_run_profiles@) == profile_views(b.proof_run_profiles@)
}

fn copy_text(s: &String) -> (r: String)
    ensures
        r@ == s@,
{
    s.clone()
}

fn copy_profile(p: &ProofRunProfile) -> (r: ProofRunProfile)
    ensures
        r@ == p@,
{
    ProofRunProfile {
        profile_name: copy_text(&p.profile_name),
        selected_proof_template_id: copy_text(&p.selected_proof_template_id),
        proof_history_template_filter: copy_text(&p.proof_history_template_filter),
        pin_history_filter_to_selected_template: p.pin_history_filter_to_selected_template,
        auto_planner: p.auto_planner,
        planner_port: copy_text(&p.planner_port),
        planner_model: copy_text(&p.planner_model),
    }
}

proof fn lemma_insert_profile_at(s: Seq<ProfileView>, p: ProfileView, j: int)
    requires
        0 <= j <= s.len(),
        forall|k: int| 0 <= k < j ==> text_order(p.name, (#[trigger] s[k]).name) >= 0,
        j < s.len() ==> text_order(p.name, s[j].name) < 0,
    ensures
        insert_profile(s, p) == s.insert(j, p),
    decreases s.len(),
{
    if s.len() == 0 {
        assert(s.insert(j, p) =~= seq![p]);
    } else if j == 0 {
        assert(s.insert(j, p) =~= seq![p] + s);
    } else {
        let t = s.drop_first();
        assert forall|k: int| 0 <= k < j - 1 implies text_order(p.name, (#[trigger] t[k]).name)
            >= 0 by {
            assert(t[k] == s[k + 1]);
        }
        if j - 1 < t.len() {
            assert(t[j - 1] == s[j]);
        }
        lemma_insert_profile_at(t, p, j - 1);
        assert(s.insert(j, p) =~= seq![s[0]] + t.insert(j - 1, p));
    }
}

fn insert_profile_exec(out: &mut Vec<ProofRunProfile>, p: ProofRunProfile)
    ensures
        profile_views(final(out)@) == insert_profile(profile_views(old(out)@), p@),
{
    let ghost s = profile_views(out@);
    let mut j: usize = 0;
    while j < out.len() && compare_text(p.profile_name.as_str(), out[j].profile_name.as_str()) >= 0
        invariant
            j <= out.len(),
            s == profile_views(out@),
            forall|k: int| 0 <= k < j ==> text_order(p@.name, (#[trigger] s[k]).name) >= 0,
        decreases out.len() - j,
    {
        j = j + 1;
    }
    proof {
        lemma_insert_profile_at(s, p@, j as int);
    }
    let ghost pv = p@;
    out.insert(j, p);
    assert(profile_views(out@) =~= s.insert(j as int, pv));
}

/// Sorts the profiles by name, stably.
fn sort_profiles_exec(v: &mut Vec<ProofRunProfile>)
    ensures
        profile_views(final(v)@) == sort_profiles(profile_views(old(v)@)),
{
    let ghost s = profile_views(v@);
    let mut out: Vec<ProofRunProfile> = Vec::new();
    let mut i: usize = 0;
    assert(s.subrange(0, 0) =~= Seq::<ProfileView>::empty());
    while i < v.len()
        invariant
            i <= v.len(),
            s == profile_views(v@),
            profile_views(out@) == sort_profiles(s.subrange(0, i as int)),
        decreases v.len() - i,
    {
        let p = copy_profile(&v[i]);
        assert(p@ == s[i as int]);
        insert_profile_exec(&mut out, p);
        assert(s.subrange(0, i + 1).drop_last() =~= s.subrange(0, i as int));
        i = i + 1;
    }
    assert(s.subrange(0, v.len() as int) =~= s);
    *v = out;
}

/// The sorted profiles are in ascending order of name.
pub proof fn lemma_sorted_profiles_ascend(s: Seq<ProfileView>)
    ensures
        sort_profiles(s).len() == s.len(),
        forall|a: int, b: int|
            0 <= a < b < sort_profiles(s).len() ==> text_order(
                (#[trigger] sort_profiles(s)[a]).name,
                (#[trigger] sort_profiles(s)[b]).name,
            ) <= 0,
    decreases s.len(),
{
    if s.len() > 0 {
        lemma_sorted_profiles_ascend(s.drop_last());
        lemma_insert_profile_ascends(sort_profiles(s.drop_last()), s.last());
    }
}

proof fn lemma_insert_profile_ascends(s: Seq<ProfileView>, p: ProfileView)
    requires
        forall|a: int, b: int|
            0 <= a < b < s.len() ==> text_order((#[trigger] s[a]).name, (#[trigger] s[b]).name)
                <= 0,
    ensures
        insert_profile(s, p).len() == s.len() + 1,
        forall|k: int|
            0 <= k < insert_profile(s, p).len() ==> (#[trigger] insert_profile(s, p)[k] == p
                || s.contains(insert_profile(s, p)[k])),
        forall|a: int, b: int|
            0 <= a < b < insert_profile(s, p).len() ==> text_order(
                (#[trigger] insert_profile(s, p)[a]).name,
                (#[trigger] insert_profile(s, p)[b]).name,
            ) <= 0,
    decreases s.len(),
{
    let r = insert_profile(s, p);
    if s.len() == 0 {
    } else if text_order(p.name, s[0].name) < 0 {
        assert(r == seq![p] + s);
        assert forall|k: int| 0 <= k < r.len() implies (#[trigger] r[k] == p || s.contains(r[k])) by {
            if k > 0 {
                assert(r[k] == s[k - 1]);
            }
        }
        assert forall|a: int, b: int| 0 <= a < b < r.len() implies text_order(
            (#[trigger] r[a]).name,
            (#[trigger] r[b]).name,
        ) <= 0 by {
            if a == 0 {
                lemma_text_order_facts(p.name, s[0].name, s[b - 1].name);
                if b - 1 > 0 {
                    assert(text_order(s[0].name, s[b - 1].name) <= 0);
                }
            } else {
                assert(r[a] == s[a - 1] && r[b] == s[b - 1]);
            }
        }
    } else {
        let t = s.drop_first();
        assert forall|a: int, b: int| 0 <= a < b < t.len() implies text_order(
            (#[trigger] t[a]).name,
            (#[trigger] t[b]).name,
        ) <= 0 by {
            assert(t[a] == s[a + 1] && t[b] == s[b + 1]);
        }
        lemma_insert_profile_ascends(t, p);
        let rt = insert_profile(t, p);
        assert(r == seq![s[0]] + rt);
        assert forall|k: int| 0 <= k < r.len() implies (#[trigger] r[k] == p || s.contains(r[k])) by {
            if k == 0 {
                assert(s[0] == r[0]);
            } else {
                assert(r[k] == rt[k - 1]);
                if rt[k - 1] != p {
                    assert(t.contains(rt[k - 1]));
                    let m = choose|m: int| 0 <= m < t.len() && t[m] == rt[k - 1];
                    assert(s[m + 1] == r[k]);
                }
            }
        }
        assert forall|a: int, b: int| 0 <= a < b < r.len() implies text_order(
            (#[trigger] r[a]).name,
            (#[trigger] r[b]).name,
        ) <= 0 by {
            if a == 0 {
                let y = rt[b - 1];
                assert(r[b] == y);
                if y == p {
                    lemma_text_order_facts(s[0].name, p.name, s[0].name);
                } else {
                    assert(t.contains(y));
                    let m = choose|m: int| 0 <= m < t.len() && t[m] == y;
                    assert(s[m + 1] == y);
                }
            } else {
                assert(r[a] == rt[a - 1] && r[b] == rt[b - 1]);
            }
        }
    }
}

/// The position of the first profile named `name`.
fn find_profile(profiles: &Vec<ProofRunProfile>, name: &str) -> (r: Option<usize>)
    ensures
        match r {
            Some(i) => i < profiles@.len() && first_where(profile_views(profiles@), named(name@))
                == Some(i as int),
            None => first_where(profile_views(profiles@), named(name@)) is None,
        },
{
    let ghost views_of = profile_views(profiles@);
    let mut i: usize = 0;
    while i < profiles.len()
        invariant
            i <= profiles.len(),
            views_of == profile_views(profiles@),
            first_where(views_of, named(name@)) == first_from(views_of, named(name@), i as int),
        decreases profiles.len() - i,
    {
        if text_eq(profiles[i].profile_name.as_str(), name) {
            assert(views_of[i as int].name == name@);
            return Some(i);
        }
        i = i + 1;
    }
    None
}

impl ProofPanelSettings {
    /// The profile the current settings make under `profile_name`.
    pub fn current_proof_run_profile(&self, profile_name: String) -> (r: ProofRunProfile)
        ensures
            r@ == current_view(*self, profile_name@),
    {
        ProofRunProfile {
            profile_name,
            selected_proof_template_id: copy_text(&self.selected_proof_template_id),
            proof_history_template_filter: copy_text(&self.proof_history_template_filter),
            pin_history_filter_to_selected_template: self.pin_history_filter_to_selected_template,
            auto_planner: self.auto_planner,
            planner_port: copy_text(&self.planner_port),
            planner_model: copy_text(&self.planner_model),
        }
    }

    /// Takes over a profile's settings and selects it.
    pub fn apply_proof_run_profile(&mut self, profile: &ProofRunProfile)
        ensures
            final(self).selected_proof_template_id@ == profile.selected_proof_template_id@,
            final(self).proof_history_template_filter@ == profile.proof_history_template_filter@,
            final(self).pin_history_filter_to_selected_template
                == profile.pin_history_filter_to_selected_template,
            final(self).auto_planner == profile.auto_planner,
            final(self).planner_port@ == profile.planner_port@,
            final(self).planner_model@ == profile.planner_model@,
            final(self).selected_proof_profile_name@ == profile.profile_name@,
            final(self).proof_profile_name_input@ == profile.profile_name@,
            profile_views(final(self).proof_run_profiles@) == profile_views(
                old(self).proof_run_profiles@,
            ),
    {
        self.selected_proof_template_id = copy_text(&profile.selected_proof_template_id);
        self.proof_history_template_filter = copy_text(&profile.proof_history_template_filter);
        self.pin_history_filter_to_selected_template =
            profile.pin_history_filter_to_selected_template;
        self.auto_planner = profile.auto_planner;
        self.planner_port = copy_text(&profile.planner_port);
        self.planner_model = copy_text(&profile.planner_model);
        self.selected_proof_profile_name = copy_text(&profile.profile_name);
        self.proof_profile_name_input = copy_text(&profile.profile_name);
    }

    /// Saves the current settings under the trimmed name: over the first
    /// profile of that name, or as a new profile with the list re-sorted by
    /// name; the saved profile becomes the selected one. A blank name is refused.
    pub fn save_current_proof_run_profile(&mut self, profile_name: &str) -> (r: Result<
        &'static str,
        &'static str,
    >)
        ensures
            trimmed(profile_name@).len() == 0 ==> r == Err::<&'static str, &'static str>(
                "Proof profile name is required",
            ) && unchanged(*final(self), *old(self)),
            trimmed(profile_name@).len() > 0 ==> {
                let t = trimmed(profile_name@);
                let before = profile_views(old(self).proof_run_profiles@);
                &&& r == Ok::<&'static str, &'static str>("Saved proof profile")
                &&& same_run_settings(*final(self), *old(self))
                &&& final(self).selected_proof_profile_name@ == t
                &&& final(self).proof_profile_name_input@ == t
                &&& profile_views(final(self).proof_run_profiles@) == saved_profiles(
                    before,
                    current_view(*old(self), t),
                )
            },
    {
        if is_blank(profile_name) {
            return Err("Proof profile name is required");
        }
        let t = trim_text(profile_name);
        let ghost before = profile_views(self.proof_run_profiles@);
        let ghost old_self = *self;
        let found = find_profile(&self.proof_run_profiles, t.as_str());
        let profile = self.current_proof_run_profile(copy_text(&t));
        match found {
            Some(k) => {
                self.proof_run_profiles.set(k, profile);
                assert(profile_views(self.proof_run_profiles@) =~= before.update(
                    k as int,
                    current_view(old_self, t@),
                ));
            },
            None => {
                self.proof_run_profiles.push(profile);
                assert(profile_views(self.proof_run_profiles@) =~= before.push(
                    current_view(old_self, t@),
                ));
                sort_profiles_exec(&mut self.proof_run_profiles);
            },
        }
        self.selected_proof_profile_name = copy_text(&t);
        self.proof_profile_name_input = t;
        Ok("Saved proof profile")
    }

    /// Deletes every profile named like the selected one and returns to the
    /// custom settings; refused when no saved profile is selected.
    pub fn delete_selected_proof_run_profile(&mut self) -> (r: Result<&'static str, &'static str>)
        ensures
            old(self).selected_proof_profile_name@ == "custom"@ ==> r == Err::<
                &'static str,
                &'static str,
            >("No saved proof profile selected") && unchanged(*final(self), *old(self)),
            old(self).selected_proof_profile_name@ != "custom"@ ==> {
                &&& r == Ok::<&'static str, &'static str>("Deleted proof profile")
                &&& same_run_settings(*final(self), *old(self))
                &&& final(self).selected_proof_profile_name@ == "custom"@
                &&& final(self).proof_profile_name_input@ == Seq::<char>::empty()
                &&& profile_views(final(self).proof_run_profiles@) == profile_views(
                    old(self).proof_run_profiles@,
                ).filter(not_named(old(self).selected_proof_profile_name@))
            },
    {
        if text_eq(self.selected_proof_profile_name.as_str(), "custom") {
            return Err("No saved proof profile selected");
        }
        let ghost before = profile_views(self.proof_run_profiles@);
        let ghost keep = not_named(self.selected_proof_profile_name@);
        let mut kept: Vec<ProofRunProfile> = Vec::new();
        let mut i: usize = 0;
        assert(before.subrange(0, 0) =~= Seq::<ProfileView>::empty());
        while i < self.proof_run_profiles.len()
            invariant
                i <= self.proof_run_profiles.len(),
                before == profile_views(self.proof_run_profiles@),
                keep == not_named(self.selected_proof_profile_name@),
                profile_views(kept@) == before.subrange(0, i as int).filter(keep),
            decreases self.proof_run_profiles.len() - i,
        {
            let p = copy_profile(&self.proof_run_profiles[i]);
            proof {
                assert(before.subrange(0, i + 1) =~= before.subrange(0, i as int).push(p@));
                before.subrange(0, i as int).lemma_filter_push(p@, keep);
            }
            if !text_eq(p.profile_name.as_str(), self.selected_proof_profile_name.as_str()) {
                let ghost kv = profile_views(kept@);
                let ghost pv = p@;
                kept.push(p);
                assert(profile_views(kept@) =~= kv.push(pv));
            }
            i = i + 1;
        }
        assert(before.subrange(0, before.len() as int) =~= before);
        self.proof_run_profiles = kept;
        self.selected_proof_profile_name = owned("custom");
        self.proof_profile_name_input = String::new();
        Ok("Deleted proof profile")
    }

    /// Saves the current settings as a new profile under the trimmed name,
    /// re-sorts the list and selects it; refused for a blank name or a name
    /// already in use.
    pub fn duplicate_selected_proof_run_profile(&mut self, profile_name: &str) -> (r: Result<
        &'static str,
        &'static str,
    >)
        ensures
            trimmed(profile_name@).len() == 0 ==> r == Err::<&'static str, &'static str>(
                "Proof profile name is required",
            ) && unchanged(*final(self), *old(self)),
            trimmed(profile_name@).len() > 0 && first_where(
                profile_views(old(self).proof_run_profiles@),
                named(trimmed(profile_name@)),
            ) is Some ==> r == Err::<&'static str, &'static str>(
                "Proof profile name already exists",
            ) && unchanged(*final(self), *old(self)),
            trimmed(profile_name@).len() > 0 && first_where(
                profile_views(old(self).proof_run_profiles@),
                named(trimmed(profile_name@)),
            ) is None ==> {
                let t = trimmed(profile_name@);
                &&& r == Ok::<&'static str, &'static str>("Duplicated proof profile")
                &&& same_run_settings(*final(self), *old(self))
                &&& final(self).selected_proof_profile_name@ == t
                &&& final(self).proof_profile_name_input@ == t
                &&& profile_views(final(self).proof_run_profiles@) == sort_profiles(
                    profile_views(old(self).proof_run_profiles@).push(current_view(*old(self), t)),
                )
            },
    {
        if is_blank(profile_name) {
            return Err("Proof profile name is required");
        }
        let t = trim_text(profile_name);
        let ghost before = profile_views(self.proof_run_profiles@);
        let ghost old_self = *self;
        if find_profile(&self.proof_run_profiles, t.as_str()).is_some() {
            return Err("Proof profile name already exists");
        }
        let profile = self.current_proof_run_profile(copy_text(&t));
        self.proof_run_profiles.push(profile);
        assert(profile_views(self.proof_run_profiles@) =~= before.push(
            current_view(old_self, t@),
        ));
        sort_profiles_exec(&mut self.proof_run_profiles);
        self.selected_proof_profile_name = copy_text(&t);
        self.proof_profile_name_input = t;
        Ok("Duplicated proof profile")
    }

    /// Returns the panel to its default settings: the helper-monitoring
    /// template, every history entry, a pinned filter, the automatic planner
    /// on port 8104 with the fast model, and no saved profile selected.
    pub fn reset_proof_run_defaults(&mut self) -> (r: &'static str)
        ensures
            r@ == "Reset proof panel defaults"@,
            final(self).selected_proof_template_id@ == "proof_helper_monitoring"@,
            final(self).proof_history_template_filter@ == "all"@,
            final(self).pin_history_filter_to_selected_template,
            final(self).auto_planner,
            final(self).planner_port@ == "8104"@,
            final(self).planner_model@ == "fast"@,
            final(self).selected_proof_profile_name@ == "custom"@,
            final(self).proof_profile_name_input@ == Seq::<char>::empty(),
            profile_views(final(self).proof_run_profiles@) == profile_views(
                old(self).proof_run_profiles@,
            ),
    {
        self.selected_proof_template_id = owned("proof_helper_monitoring");
        self.proof_history_template_filter = owned("all");
        self.pin_history_filter_to_selected_template = true;
        self.auto_planner = true;
        self.planner_port = owned("8104");
        self.planner_model = owned("fast");
        self.selected_proof_profile_name = owned("custom");
        self.proof_profile_name_input = String::new();
        "Reset proof panel defaults"
    }

    /// The profile name the preferences record as active: none while the
    /// custom settings are selected.
    pub fn active_profile_name(&self) -> (r: Option<String>)
        ensures
            match r {
                Some(n) => self.selected_proof_profile_name@ != "custom"@ && n@
                    == self.selected_proof_profile_name@,
                None => self.selected_proof_profile_name@ == "custom"@,
            },
    {
        if text_eq(self.selected_proof_profile_name.as_str(), "custom") {
            None
        } else {
            Some(copy_text(&self.selected_proof_profile_name))
        }
    }
}

/// A profile not named `name`.
pub open spec fn not_named(name: Seq<char>) -> spec_fn(ProfileView) -> bool {
    |p: ProfileView| p.name != name
}

/// The names ascend strictly: sorted, and no name twice.
pub open spec fn names_ascending(s: Seq<ProfileView>) -> bool {
    forall|a: int, b: int| 0 <= a < b < s.len() ==> text_order(#[trigger] s[a].name, #[trigger] s[b].name) < 0
}

/// The profile list after saving `cur` over `before` (as the save does).
pub open spec fn saved_profiles(before: Seq<ProfileView>, cur: ProfileView) -> Seq<ProfileView> {
    match first_where(before, named(cur.name)) {
        Some(i) => before.update(i, cur),
        None => sort_profiles(before.push(cur)),
    }
}

proof fn lemma_first_from_found<T>(s: Seq<T>, p: spec_fn(T) -> bool, i: int)
    requires
        0 <= i,
    ensures
        match first_from(s, p, i) {
            Some(k) => i <= k < s.len() && p(s[k]),
            None => forall|k: int| i <= k < s.len() ==> !p(#[trigger] s[k]),
        },
    decreases s.len() - i,
{
    if i < s.len() && !p(s[i]) {
        lemma_first_from_found(s, p, i + 1);
    }
}

proof fn lemma_sort_sorted(s: Seq<ProfileView>)
    requires
        names_ascending(s),
    ensures
        sort_profiles(s) == s,
    decreases s.len(),
{
    if s.len() > 0 {
        let p = s.drop_last();
        assert forall|a: int, b: int| 0 <= a < b < p.len() implies text_order(
            #[trigger] p[a].name,
            #[trigger] p[b].name,
        ) < 0 by {
            assert(p[a] == s[a] && p[b] == s[b]);
        }
        lemma_sort_sorted(p);
        assert forall|k: int| 0 <= k < p.len() implies text_order(
            s.last().name,
            (#[trigger] p[k]).name,
        ) >= 0 by {
            assert(p[k] == s[k]);
            lemma_text_order_facts(s[k].name, s.last().name, s.last().name);
        }
        lemma_insert_profile_at(p, s.last(), p.len() as int);
        assert(p.insert(p.len() as int, s.last()) =~= s);
    }
}

proof fn lemma_insert_profile_strict(s: Seq<ProfileView>, p: ProfileView)
    requires
        names_ascending(s),
        forall|k: int| 0 <= k < s.len() ==> (#[trigger] s[k]).name != p.name,
    ensures
        names_ascending(insert_profile(s, p)),
        insert_profile(s, p).len() == s.len() + 1,
        forall|y: ProfileView| #[trigger] insert_profile(s, p).contains(y) == (s.contains(y) || y == p),
    decreases s.len(),
{
    let r = insert_profile(s, p);
    if s.len() == 0 {
        assert(r =~= seq![p]);
        assert forall|y: ProfileView| #[trigger] r.contains(y) == (s.contains(y) || y == p) by {
            if r.contains(y) {
                assert(r[0] == p);
            }
            if y == p {
                assert(r[0] == y);
            }
        }
    } else if text_order(p.name, s[0].name) < 0 {
        assert(r =~= seq![p] + s);
        assert forall|a: int, b: int| 0 <= a < b < r.len() implies text_order(
            #[trigger] r[a].name,
            #[trigger] r[b].name,
        ) < 0 by {
            if a == 0 {
                assert(r[b] == s[b - 1]);
                if b - 1 > 0 {
                    lemma_text_order_facts(p.name, s[0].name, s[b - 1].name);
                    lemma_text_order_facts(s[b - 1].name, s[0].name, p.name);
                }
            } else {
                assert(r[a] == s[a - 1] && r[b] == s[b - 1]);
            }
        }
        assert forall|y: ProfileView| #[trigger] r.contains(y) == (s.contains(y) || y == p) by {
            if r.contains(y) {
                let w = choose|w: int| 0 <= w < r.len() && r[w] == y;
                if w > 0 {
                    assert(s[w - 1] == y);
                }
            }
            if s.contains(y) {
                let w = choose|w: int| 0 <= w < s.len() && s[w] == y;
                assert(r[w + 1] == y);
            }
            if y == p {
                assert(r[0] == y);
            }
        }
    } else {
        let t = s.drop_first();
        assert forall|a: int, b: int| 0 <= a < b < t.len() implies text_order(
            #[trigger] t[a].name,
            #[trigger] t[b].name,
        ) < 0 by {
            assert(t[a] == s[a + 1] && t[b] == s[b + 1]);
        }
        assert forall|k: int| 0 <= k < t.len() implies (#[trigger] t[k]).name != p.name by {
            assert(t[k] == s[k + 1]);
        }
        lemma_insert_profile_strict(t, p);
        let ti = insert_profile(t, p);
        assert(r =~= seq![s[0]] + ti);
        lemma_text_order_facts(p.name, s[0].name, s[0].name);
        assert forall|a: int, b: int| 0 <= a < b < r.len() implies text_order(
            #[trigger] r[a].name,
            #[trigger] r[b].name,
        ) < 0 by {
            if a == 0 {
                let y = r[b];
                assert(y == ti[b - 1]);
                assert(ti.contains(y));
                if y != p {
                    assert(t.contains(y));
                    let w = choose|w: int| 0 <= w < t.len() && t[w] == y;
                    assert(s[w + 1] == y);
                }
            } else {
                assert(r[a] == ti[a - 1] && r[b] == ti[b - 1]);
            }
        }
        assert forall|y: ProfileView| #[trigger] r.contains(y) == (s.contains(y) || y == p) by {
            if r.contains(y) {
                let w = choose|w: int| 0 <= w < r.len() && r[w] == y;
                if w > 0 {
                    assert(ti[w - 1] == y);
                    assert(ti.contains(y));
                    if t.contains(y) {
                        let v = choose|v: int| 0 <= v < t.len() && t[v] == y;
                        assert(s[v + 1] == y);
                    }
                } else {
                    assert(s[0] == y);
                }
            }
            if s.contains(y) {
                let w = choose|w: int| 0 <= w < s.len() && s[w] == y;
                if w == 0 {
                    assert(r[0] == y);
                } else {
                    assert(t[w - 1] == y);
                    assert(t.contains(y));
                    assert(ti.contains(y));
                    let v = choose|v: int| 0 <= v < ti.len() && ti[v] == y;
                    assert(r[v + 1] == y);
                }
            }
            if y == p {
                assert(ti.contains(p));
                let v = choose|v: int| 0 <= v < ti.len() && ti[v] == p;
                assert(r[v + 1] == p);
            }
        }
    }
}

/// Saving a profile keeps the list sorted by name with no name twice: the
/// list then holds the saved profile, which is the only one of its name,
/// and every profile of another name that it held before.
pub proof fn lemma_save_keeps_profiles_sorted(before: Seq<ProfileView>, cur: ProfileView)
    requires
        names_ascending(before),
    ensures
        names_ascending(saved_profiles(before, cur)),
        saved_profiles(before, cur).contains(cur),
        forall|k: int|
            0 <= k < saved_profiles(before, cur).len() && (#[trigger] saved_profiles(before, cur)[k]).name
                == cur.name ==> saved_profiles(before, cur)[k] == cur,
        forall|k: int|
            0 <= k < before.len() && (#[trigger] before[k]).name != cur.name ==> saved_profiles(
                before,
                cur,
            ).contains(before[k]),
{
    let saved = saved_profiles(before, cur);
    lemma_first_from_found(before, named(cur.name), 0);
    match first_where(before, named(cur.name)) {
        Some(i) => {
            assert(before[i].name == cur.name);
            assert(saved[i] == cur);
            assert forall|a: int, b: int| 0 <= a < b < saved.len() implies text_order(
                #[trigger] saved[a].name,
                #[trigger] saved[b].name,
            ) < 0 by {
                assert(saved[a].name == before[a].name);
                assert(saved[b].name == before[b].name);
            }
            assert forall|k: int|
                0 <= k < saved.len() && (#[trigger] saved[k]).name == cur.name implies saved[k]
                == cur by {
                if k != i {
                    lemma_text_order_facts(before[k].name, before[i].name, before[i].name);
                    if k < i {
                        assert(text_order(before[k].name, before[i].name) < 0);
                    } else {
                        assert(text_order(before[i].name, before[k].name) < 0);
                    }
                }
            }
            assert forall|k: int|
                0 <= k < before.len() && (#[trigger] before[k]).name != cur.name implies saved.contains(
                before[k],
            ) by {
                assert(k != i);
                assert(saved[k] == before[k]);
            }
        },
        None => {
            assert forall|k: int| 0 <= k < before.len() implies (#[trigger] before[k]).name
                != cur.name by {
                assert(!named(cur.name)(before[k]));
            }
            let pushed = before.push(cur);
            assert(pushed.drop_last() =~= before);
            lemma_sort_sorted(before);
            assert(saved == insert_profile(before, cur));
            lemma_insert_profile_strict(before, cur);
            assert forall|k: int|
                0 <= k < saved.len() && (#[trigger] saved[k]).name == cur.name implies saved[k]
                == cur by {
                let y = saved[k];
                assert(saved.contains(y));
                if y != cur {
                    assert(before.contains(y));
                }
            }
            assert forall|k: int|
                0 <= k < before.len() && (#[trigger] before[k]).name != cur.name implies saved.contains(
                before[k],
            ) by {
                assert(before.contains(before[k]));
            }
        },
    }
}

/// The panel's settings after applying profile view `v`.
pub open spec fn applied(a: ProofPanelSettings, v: ProfileView) -> bool {
    &&& a.selected_proof_template_id@ == v.template
    &&& a.proof_history_template_filter@ == v.filter
    &&& a.pin_history_filter_to_selected_template == v.pin
    &&& a.auto_planner == v.auto_planner
    &&& a.planner_port@ == v.port
    &&& a.planner_model@ == v.model
    &&& a.selected_proof_profile_name@ == v.name
    &&& a.proof_profile_name_input@ == v.name
}

impl ProofPanelSettings {
    /// With "Follow selected template in history" on, the history filter
    /// becomes the selected template; nothing else changes.
    pub fn follow_selected_template(&mut self)
        ensures
            final(self).proof_history_template_filter@ == if old(
                self,
            ).pin_history_filter_to_selected_template {
                old(self).selected_proof_template_id@
            } else {
                old(self).proof_history_template_filter@
            },
            final(self).selected_proof_template_id@ == old(self).selected_proof_template_id@,
            final(self).pin_history_filter_to_selected_template
                == old(self).pin_history_filter_to_selected_template,
            final(self).auto_planner == old(self).auto_planner,
            final(self).planner_port@ == old(self).planner_port@,
            final(self).planner_model@ == old(self).planner_model@,
            final(self).selected_proof_profile_name@ == old(self).selected_proof_profile_name@,
            final(self).proof_profile_name_input@ == old(self).proof_profile_name_input@,
            profile_views(final(self).proof_run_profiles@) == profile_views(
                old(self).proof_run_profiles@,
            ),
    {
        if self.pin_history_filter_to_selected_template && !text_eq(
            self.proof_history_template_filter.as_str(),
            self.selected_proof_template_id.as_str(),
        ) {
            self.proof_history_template_filter = copy_text(&self.selected_proof_template_id);
        }
    }

    /// Whether the template controls changed what the preferences file
    /// holds: the selected template, or the follow switch.
    pub fn template_controls_changed(&self, previous_template_id: &str, previous_follow: bool) -> (r:
        bool)
        ensures
            r == (self.selected_proof_template_id@ != previous_template_id@
                || self.pin_history_filter_to_selected_template != previous_follow),
    {
        !text_eq(self.selected_proof_template_id.as_str(), previous_template_id)
            || self.pin_history_filter_to_selected_template != previous_follow
    }

    /// After the profile picker: when the selection changed, the first
    /// profile of the selected name (if any) is applied, and the preferences
    /// are to be saved (the result). Otherwise nothing changes.
    pub fn apply_selected_profile(&mut self, previous_selected_profile_name: &str) -> (save: bool)
        ensures
            save == (old(self).selected_proof_profile_name@ != previous_selected_profile_name@),
            profile_views(final(self).proof_run_profiles@) == profile_views(
                old(self).proof_run_profiles@,
            ),
            match first_where(
                profile_views(old(self).proof_run_profiles@),
                named(old(self).selected_proof_profile_name@),
            ) {
                Some(i) if save => applied(
                    *final(self),
                    profile_views(old(self).proof_run_profiles@)[i],
                ),
                _ => unchanged(*final(self), *old(self)),
            },
    {
        if text_eq(self.selected_proof_profile_name.as_str(), previous_selected_profile_name) {
            return false;
        }
        let found = find_profile(&self.proof_run_profiles, self.selected_proof_profile_name.as_str());
        if let Some(i) = found {
            let profile = copy_profile(&self.proof_run_profiles[i]);
            self.apply_proof_run_profile(&profile);
        }
        true
    }
}

} // verus!
