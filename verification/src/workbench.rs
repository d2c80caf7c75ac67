//! The extension workbench's bookkeeping: compare hints between two
//! previews, the command log, the activity timeline, recent lanes,
//! favorites, and the small labels around build verification.
use vstd::prelude::*;

use crate::extensions::{is_text, opt_is, opt_view};
use crate::order::{compare_text, lemma_text_order_facts, text_order};
use crate::proofs::{line_if, ExtensionActivityItem};
use crate::search::{first_from, first_where};
use crate::toasts::{push_toast, ToastKind, UiToast};
use crate::text::{
    chars_contain, chars_of, contains_text, ends_with_text, has_prefix, has_sub, has_suffix,
    is_blank, joined, join_strings, lowercase, lowercase_chars, owned, push_line, push_str,
    starts_with_text, text_eq, trim_text, trimmed, views,
};

verus! {

// ---------------------------------------------------------------------------
// Compare hints
// ---------------------------------------------------------------------------

/// The hint for a placeholder marker left on the left side only.
pub open spec fn placeholder_hint(marker: Seq<char>) -> Seq<char> {
    "Left side still contains placeholder marker `"@ + marker + "`."@
}

/// The hint for an expected token the right side lacks.
pub open spec fn token_hint(token: Seq<char>) -> Seq<char> {
    "Right side does not visibly include expected token `"@ + token
        + "` from the left side."@
}

/// A marker or token present on the left but not on the right.
pub open spec fn only_left(left: Seq<char>, right: Seq<char>, m: Seq<char>) -> bool {
    has_sub(left, m) && !has_sub(right, m)
}

/// The compare hints between a lane's scaffold (left) and its integrated
/// file (right): placeholder markers still on the left, expected tokens
/// missing on the right, and whether both are identical.
pub open spec fn mismatch_hints(left: Seq<char>, right: Seq<char>) -> Seq<Seq<char>> {
    line_if(only_left(left, right, "todo phrase"@), placeholder_hint("todo phrase"@)) + line_if(
        only_left(left, right, "todo_feature"@),
        placeholder_hint("todo_feature"@),
    ) + line_if(only_left(left, right, "not wired yet"@), placeholder_hint("not wired yet"@))
        + line_if(
        only_left(left, right, "implement handler logic here"@),
        placeholder_hint("implement handler logic here"@),
    ) + line_if(
        only_left(left, right, "replace this stub with deterministic patch logic"@),
        placeholder_hint("replace this stub with deterministic patch logic"@),
    ) + line_if(only_left(left, right, "recipe_id"@), token_hint("recipe_id"@)) + line_if(
        only_left(left, right, "patch_kind"@),
        token_hint("patch_kind"@),
    ) + line_if(only_left(left, right, "handler:"@), token_hint("handler:"@)) + line_if(
        only_left(left, right, "provides_features"@),
        token_hint("provides_features"@),
    ) + line_if(left == right, "The previewed content matches exactly."@)
}

fn hint_step(
    lines: &mut Vec<String>,
    left: &Vec<char>,
    right: &Vec<char>,
    m: &str,
    placeholder: bool,
)
    ensures
        views(final(lines)@) == views(old(lines)@) + line_if(
            only_left(left@, right@, m@),
            if placeholder {
                placeholder_hint(m@)
            } else {
                token_hint(m@)
            },
        ),
{
    let mv = chars_of(m);
    if chars_contain(left, &mv) && !chars_contain(right, &mv) {
        let mut s = if placeholder {
            owned("Left side still contains placeholder marker `")
        } else {
            owned("Right side does not visibly include expected token `")
        };
        push_str(&mut s, m);
        if placeholder {
            push_str(&mut s, "`.");
        } else {
            push_str(&mut s, "` from the left side.");
        }
        push_line(lines, s);
    } else {
        assert(views(lines@) =~= views(lines@) + Seq::<Seq<char>>::empty());
    }
}

/// The compare hints between a scaffold preview (left) and an integrated preview (right).
#[verifier::rlimit(30)]
pub fn compare_mismatch_hints(left: &str, right: &str) -> (r: Vec<String>)
    ensures
        views(r@) == mismatch_hints(left@, right@),
{
    let lv = chars_of(left);
    let rv = chars_of(right);
    let mut hints: Vec<String> = Vec::new();
    assert(views(hints@) =~= Seq::<Seq<char>>::empty());
    hint_step(&mut hints, &lv, &rv, "todo phrase", true);
    let ghost a1 = views(hints@);
    assert(a1 =~= line_if(only_left(left@, right@, "todo phrase"@), placeholder_hint("todo phrase"@)));
    hint_step(&mut hints, &lv, &rv, "todo_feature", true);
    hint_step(&mut hints, &lv, &rv, "not wired yet", true);
    hint_step(&mut hints, &lv, &rv, "implement handler logic here", true);
    hint_step(&mut hints, &lv, &rv, "replace this stub with deterministic patch logic", true);
    hint_step(&mut hints, &lv, &rv, "recipe_id", false);
    hint_step(&mut hints, &lv, &rv, "patch_kind", false);
    hint_step(&mut hints, &lv, &rv, "handler:", false);
    hint_step(&mut hints, &lv, &rv, "provides_features", false);
    let ghost a9 = views(hints@);
    if text_eq(left, right) {
        push_line(&mut hints, owned("The previewed content matches exactly."));
    }
    assert(views(hints@) =~= a9 + line_if(left@ == right@, "The previewed content matches exactly."@));
    hints
}

// ---------------------------------------------------------------------------
// Command log
// ---------------------------------------------------------------------------

/// The command log of a finished task: its summary, then its trimmed
/// stdout and stderr when they are not blank, separated by blank lines.
pub open spec fn log_text(summary: Seq<char>, stdout: Seq<char>, stderr: Seq<char>) -> Seq<char> {
    joined(
        seq!["Summary: "@ + summary] + line_if(
            trimmed(stdout).len() > 0,
            "stdout:\n"@ + trimmed(stdout),
        ) + line_if(trimmed(stderr).len() > 0, "stderr:\n"@ + trimmed(stderr)),
        "\n\n"@,
    )
}

/// The command log shown after a task.
pub fn format_log(summary: &str, stdout: &str, stderr: &str) -> (r: String)
    ensures
        r@ == log_text(summary@, stdout@, stderr@),
{
    let mut parts: Vec<String> = Vec::new();
    let mut s = owned("Summary: ");
    push_str(&mut s, summary);
    push_line(&mut parts, s);
    let ghost a1 = views(parts@);
    assert(a1 =~= seq!["Summary: "@ + summary@]);
    if !is_blank(stdout) {
        let mut s = owned("stdout:\n");
        let t = trim_text(stdout);
        push_str(&mut s, t.as_str());
        push_line(&mut parts, s);
    }
    assert(views(parts@) =~= a1 + line_if(trimmed(stdout@).len() > 0, "stdout:\n"@ + trimmed(stdout@)));
    let ghost a2 = views(parts@);
    if !is_blank(stderr) {
        let mut s = owned("stderr:\n");
        let t = trim_text(stderr);
        push_str(&mut s, t.as_str());
        push_line(&mut parts, s);
    }
    assert(views(parts@) =~= a2 + line_if(trimmed(stderr@).len() > 0, "stderr:\n"@ + trimmed(stderr@)));
    join_strings(&parts, "\n\n")
}

// ---------------------------------------------------------------------------
// Activity timeline and recent lanes
// ---------------------------------------------------------------------------

/// The timeline keeps this many newest items.
pub const ACTIVITY_LIMIT: usize = 8;

/// The last `max` items of `s` (all of them when there are fewer).
pub open spec fn newest<T>(s: Seq<T>, max: nat) -> Seq<T> {
    if s.len() > max {
        s.subrange(s.len() - max, s.len() as int)
    } else {
        s
    }
}

/// Drops the oldest items until at most `max` remain.
pub fn keep_newest<T>(v: &mut Vec<T>, max: usize)
    ensures
        final(v)@ == newest(old(v)@, max as nat),
{
    let ghost start = v@;
    while v.len() > max
        invariant
            v@.len() <= start.len(),
            v@ == start.subrange(start.len() - v@.len(), start.len() as int),
            start.len() > max ==> v@.len() >= max,
            start.len() <= max ==> v@.len() == start.len(),
        decreases v.len(),
    {
        let ghost before = v@;
        v.remove(0);
        assert(v@ =~= start.subrange(start.len() - v@.len(), start.len() as int));
    }
    assert(start.len() <= max ==> v@ =~= start);
}

/// Appends an activity item and keeps only the eight newest.
pub fn push_extension_activity(
    activity: &mut Vec<ExtensionActivityItem>,
    entry_id: Option<String>,
    title: String,
    detail: String,
    success: bool,
    timestamp_label: String,
)
    ensures
        final(activity)@ == newest(
            old(activity)@.push(
                ExtensionActivityItem { entry_id, title, detail, success, timestamp_label },
            ),
            8,
        ),
{
    activity.push(ExtensionActivityItem { entry_id, title, detail, success, timestamp_label });
    keep_newest(activity, ACTIVITY_LIMIT);
}

/// The timeline never holds more than eight items after a push, and the
/// pushed item is its newest.
pub proof fn lemma_activity_bounded(old_log: Seq<ExtensionActivityItem>, item: ExtensionActivityItem)
    ensures
        newest(old_log.push(item), 8).len() <= 8,
        newest(old_log.push(item), 8).last() == item,
{
}

/// The timeline without the items about `entry_id`.
pub open spec fn without_items_about(s: Seq<ExtensionActivityItem>, id: Seq<char>) -> Seq<
    ExtensionActivityItem,
> {
    s.filter(not_about(id))
}

/// Whether an activity item is about something other than `id`.
pub open spec fn not_about(id: Seq<char>) -> spec_fn(ExtensionActivityItem) -> bool {
    |a: ExtensionActivityItem| !is_text(a.entry_id, id)
}

/// Whether a lane id differs from `id`.
pub open spec fn other_than(id: Seq<char>) -> spec_fn(Seq<char>) -> bool {
    |x: Seq<char>| x != id
}

/// Clears the timeline of one lane or proof, keeping every other item in order.
pub fn clear_activity_about(activity: &mut Vec<ExtensionActivityItem>, entry_id: &str)
    ensures
        final(activity)@ == without_items_about(old(activity)@, entry_id@),
{
    let ghost start = activity@;
    let ghost keep = not_about(entry_id@);
    let mut kept: Vec<ExtensionActivityItem> = Vec::new();
    let mut rest: Vec<ExtensionActivityItem> = Vec::new();
    std::mem::swap(&mut rest, activity);
    // take items from the front of `rest`
    let mut i: usize = 0;
    let total = rest.len();
    let ghost all = rest@;
    assert(all == start);
    while rest.len() > 0
        invariant
            rest@ == all.subrange(i as int, all.len() as int),
            i <= all.len(),
            i + rest@.len() == all.len(),
            all.len() == total,
            keep == not_about(entry_id@),
            kept@ == all.subrange(0, i as int).filter(keep),
        decreases rest.len(),
    {
        let item = rest.remove(0);
        proof {
            assert(all.subrange(0, i + 1) =~= all.subrange(0, i as int).push(item));
            all.subrange(0, i as int).lemma_filter_push(item, keep);
            assert(keep(item) == !is_text(item.entry_id, entry_id@));
        }
        if !opt_is(&item.entry_id, entry_id) {
            kept.push(item);
        }
        assert(kept@ == all.subrange(0, i + 1).filter(keep));
        i = i + 1;
        assert(rest@ =~= all.subrange(i as int, all.len() as int));
    }
    assert(all.subrange(0, all.len() as int) =~= all);
    *activity = kept;
}

/// The recent-lanes list keeps this many lanes.
pub const RECENT_LIMIT: usize = 10;

/// The recent list after visiting `id`: `id` first, the other lanes after it
/// in their previous order, at most ten in all.
pub open spec fn recent_after_visit(recent: Seq<Seq<char>>, id: Seq<char>) -> Seq<Seq<char>> {
    let moved = seq![id] + recent.filter(other_than(id));
    if moved.len() > 10 {
        moved.subrange(0, 10)
    } else {
        moved
    }
}

/// Moves a lane to the front of the recent list (at most ten lanes).
pub fn mark_extension_recent(recent: &mut Vec<String>, entry_id: &str)
    ensures
        views(final(recent)@) == recent_after_visit(views(old(recent)@), entry_id@),
{
    let ghost start = views(recent@);
    let ghost keep = other_than(entry_id@);
    let mut out: Vec<String> = Vec::new();
    out.push(owned(entry_id));
    let mut i: usize = 0;
    assert(start.subrange(0, 0).filter(keep) =~= Seq::<Seq<char>>::empty());
    assert(views(out@) =~= seq![entry_id@] + start.subrange(0, 0).filter(keep));
    while i < recent.len()
        invariant
            i <= recent.len(),
            start == views(recent@),
            keep == other_than(entry_id@),
            views(out@) == seq![entry_id@] + start.subrange(0, i as int).filter(keep),
        decreases recent.len() - i,
    {
        proof {
            assert(start.subrange(0, i + 1) =~= start.subrange(0, i as int).push(recent@[i as int]@));
            start.subrange(0, i as int).lemma_filter_push(recent@[i as int]@, keep);
            assert(keep(recent@[i as int]@) == (recent@[i as int]@ != entry_id@));
        }
        if !text_eq(recent[i].as_str(), entry_id) {
            let ghost before = views(out@);
            out.push(owned(recent[i].as_str()));
            assert(views(out@) =~= before.push(recent@[i as int]@));
        }
        assert(views(out@) == seq![entry_id@] + start.subrange(0, i + 1).filter(keep));
        i = i + 1;
    }
    assert(start.subrange(0, recent.len() as int) =~= start);
    if out.len() > RECENT_LIMIT {
        out.truncate(RECENT_LIMIT);
        proof {
            let m = seq![entry_id@] + start.filter(keep);
            assert(views(out@) =~= m.subrange(0, 10));
        }
    }
    *recent = out;
}

/// After a visit the lane is first, appears once, and the list has at most ten lanes.
pub proof fn lemma_recent_after_visit(recent: Seq<Seq<char>>, id: Seq<char>)
    ensures
        recent_after_visit(recent, id).len() <= 10,
        recent_after_visit(recent, id)[0] == id,
        forall|i: int|
            0 < i < recent_after_visit(recent, id).len() ==> #[trigger] recent_after_visit(
                recent,
                id,
            )[i] != id,
{
    let keep = other_than(id);
    let f = recent.filter(keep);
    assert forall|i: int| 0 <= i < f.len() implies #[trigger] f[i] != id by {
        recent.lemma_filter_pred(keep, i);
    }
    let moved = seq![id] + f;
    assert forall|i: int| 0 < i < moved.len() implies #[trigger] moved[i] != id by {
        assert(moved[i] == f[i - 1]);
    }
}

/// The activity entry a finished task leaves: extension-related tasks only
/// (the summary mentions an extension, a lane, host wiring or apply-patch),
/// with "Completed" or the first line of stderr as detail, and success when
/// stderr is blank.
pub open spec fn is_extension_task(summary: Seq<char>) -> bool {
    let lower = lowercase(summary);
    has_sub(lower, "extension"@) || has_sub(lower, "lane "@) || has_sub(lower, "host wire"@)
        || has_sub(lower, "apply-patch"@)
}

/// The first line of `s`: up to the first newline, without a carriage return before it.
pub open spec fn first_line(s: Seq<char>) -> Seq<char> {
    match first_where(s, |c: char| c == '\n') {
        Some(k) => if k > 0 && s[k - 1] == '\r' {
            s.subrange(0, k - 1)
        } else {
            s.subrange(0, k)
        },
        None => s,
    }
}

/// The first line of a non-empty text, as `lines().next()` gives it.
pub fn first_line_of(s: &str) -> (r: String)
    ensures
        r@ == first_line(s@),
{
    let v = chars_of(s);
    let mut k: usize = 0;
    while k < v.len() && v[k] != '\n'
        invariant
            k <= v.len(),
            first_where(v@, |c: char| c == '\n') == first_from(v@, |c: char| c == '\n', k as int),
        decreases v.len() - k,
    {
        k = k + 1;
    }
    let end = if k < v.len() && k > 0 && v[k - 1] == '\r' {
        k - 1
    } else {
        k
    };
    let mut out = String::new();
    let mut i: usize = 0;
    while i < end
        invariant
            i <= end,
            end <= v.len(),
            out@ == v@.subrange(0, i as int),
        decreases end - i,
    {
        crate::text::push_char(&mut out, v[i]);
        i = i + 1;
        assert(out@ =~= v@.subrange(0, i as int));
    }
    if k == v.len() {
        assert(v@.subrange(0, v.len() as int) =~= v@);
    }
    out
}

/// What the timeline records for a finished task, if it concerns extensions:
/// the detail and whether it succeeded.
pub fn extension_task_activity(summary: &str, stderr: &str) -> (r: Option<(String, bool)>)
    ensures
        match r {
            None => !is_extension_task(summary@),
            Some((detail, ok)) => is_extension_task(summary@) && ok == (trimmed(stderr@).len()
                == 0) && detail@ == if trimmed(stderr@).len() == 0 {
                "Completed"@
            } else {
                first_line(stderr@)
            },
        },
{
    let lower = lowercase_chars(&chars_of(summary));
    let is_ext = chars_contain(&lower, &chars_of("extension")) || chars_contain(
        &lower,
        &chars_of("lane "),
    ) || chars_contain(&lower, &chars_of("host wire")) || chars_contain(
        &lower,
        &chars_of("apply-patch"),
    );
    if !is_ext {
        return None;
    }
    if is_blank(stderr) {
        Some((owned("Completed"), true))
    } else {
        Some((first_line_of(stderr), false))
    }
}

// ---------------------------------------------------------------------------
// Favorites (an ordered set of identities)
// ---------------------------------------------------------------------------

/// Strictly increasing in `String` order, hence free of duplicates.
pub open spec fn strictly_sorted(s: Seq<Seq<char>>) -> bool {
    forall|i: int, j: int| 0 <= i < j < s.len() ==> text_order(s[i], s[j]) < 0
}

/// The identities a favorites list holds.
pub open spec fn id_set(s: Seq<Seq<char>>) -> Set<Seq<char>> {
    s.to_set()
}

/// Pins `id` when it is not a favorite and unpins it when it is; the list
/// stays in `String` order without duplicates. Returns whether it was removed.
pub fn toggle_favorite(favorites: &mut Vec<String>, id: &str) -> (was_removed: bool)
    requires
        strictly_sorted(views(old(favorites)@)),
    ensures
        strictly_sorted(views(final(favorites)@)),
        was_removed == id_set(views(old(favorites)@)).contains(id@),
        id_set(views(final(favorites)@)) == if was_removed {
            id_set(views(old(favorites)@)).remove(id@)
        } else {
            id_set(views(old(favorites)@)).insert(id@)
        },
{
    let ghost s = views(favorites@);
    let mut p: usize = 0;
    while p < favorites.len() && compare_text(favorites[p].as_str(), id) < 0
        invariant
            p <= favorites.len(),
            s == views(favorites@),
            forall|k: int| 0 <= k < p ==> text_order(s[k], id@) < 0,
        decreases favorites.len() - p,
    {
        p = p + 1;
    }
    // every element from p on is not before id
    assert forall|k: int| p <= k < s.len() implies text_order(s[k], id@) >= 0 by {
        if k > p {
            lemma_text_order_facts(s[p as int], s[k], id@);
            lemma_text_order_facts(id@, s[p as int], s[k]);
        }
    }
    if p < favorites.len() && text_eq(favorites[p].as_str(), id) {
        favorites.remove(p);
        proof {
            let t = views(favorites@);
            assert(t =~= s.remove(p as int));
            assert(s.contains(id@)) by {
                assert(s[p as int] == id@);
            }
            assert forall|x: Seq<char>| t.to_set().contains(x) <==> s.to_set().remove(id@).contains(x) by {
                if t.contains(x) {
                    let k = choose|k: int| 0 <= k < t.len() && t[k] == x;
                    if k < p {
                        assert(t[k] == s[k]);
                        lemma_text_order_facts(s[k], s[p as int], s[p as int]);
                    } else {
                        assert(t[k] == s[k + 1]);
                        lemma_text_order_facts(s[p as int], s[k + 1], s[k + 1]);
                    }
                }
                if s.contains(x) && x != id@ {
                    let k = choose|k: int| 0 <= k < s.len() && s[k] == x;
                    if k < p {
                        assert(t[k] == x);
                    } else if k > p {
                        assert(t[k - 1] == x);
                    }
                }
            }
            assert(t.to_set() =~= s.to_set().remove(id@));
        }
        true
    } else {
        favorites.insert(p, owned(id));
        proof {
            let t = views(favorites@);
            assert(t =~= s.insert(p as int, id@));
            assert(!s.contains(id@)) by {
                if s.contains(id@) {
                    let k = choose|k: int| 0 <= k < s.len() && s[k] == id@;
                    lemma_text_order_facts(s[k], id@, id@);
                    if k > p {
                        lemma_text_order_facts(s[p as int], s[k], s[k]);
                    }
                }
            }
            assert forall|a: int, b: int| 0 <= a < b < t.len() implies text_order(t[a], t[b]) < 0 by {
                if b < p {
                    assert(t[a] == s[a] && t[b] == s[b]);
                } else if b == p {
                    assert(t[a] == s[a]);
                } else if a == p {
                    assert(t[b] == s[b - 1]);
                    lemma_text_order_facts(id@, s[b - 1], s[b - 1]);
                    if b - 1 != p {
                        assert(s[b - 1] != id@);
                    }
                } else if a < p {
                    assert(t[a] == s[a] && t[b] == s[b - 1]);
                } else {
                    assert(t[a] == s[a - 1] && t[b] == s[b - 1]);
                }
            }
            assert forall|x: Seq<char>| t.to_set().contains(x) <==> s.to_set().insert(id@).contains(x) by {
                if t.contains(x) {
                    let k = choose|k: int| 0 <= k < t.len() && t[k] == x;
                    if k < p {
                        assert(t[k] == s[k]);
                    } else if k > p {
                        assert(t[k] == s[k - 1]);
                    }
                }
                if s.contains(x) {
                    let k = choose|k: int| 0 <= k < s.len() && s[k] == x;
                    if k < p {
                        assert(t[k] == x);
                    } else {
                        assert(t[k + 1] == x);
                    }
                }
                if x == id@ {
                    assert(t[p as int] == x);
                }
            }
            assert(t.to_set() =~= s.to_set().insert(id@));
        }
        false
    }
}

/// After toggling `id`: the favorites toggled, the status line the removed
/// or pinned message, an activity item about `id` with that message as its
/// title (the timeline keeping its eight newest), and a success notice with
/// the message raised at `now_ms`.
pub open spec fn toggled_with_notice(
    old_favorites: Seq<Seq<char>>,
    favorites: Seq<Seq<char>>,
    old_activity: Seq<ExtensionActivityItem>,
    activity: Seq<ExtensionActivityItem>,
    old_toasts: Seq<UiToast>,
    toasts: Seq<UiToast>,
    id: Seq<char>,
    removed_message: Seq<char>,
    pinned_message: Seq<char>,
    timestamp_label: String,
    now_ms: u64,
    status: Seq<char>,
) -> bool {
    let was_removed = id_set(old_favorites).contains(id);
    let item = activity.last();
    let toast = toasts.last();
    &&& strictly_sorted(favorites)
    &&& id_set(favorites) == if was_removed {
        id_set(old_favorites).remove(id)
    } else {
        id_set(old_favorites).insert(id)
    }
    &&& status == if was_removed {
        removed_message
    } else {
        pinned_message
    }
    &&& activity == newest(old_activity.push(item), 8)
    &&& is_text(item.entry_id, id)
    &&& item.title@ == status
    &&& item.detail@ == id
    &&& item.success
    &&& item.timestamp_label == timestamp_label
    &&& toasts == old_toasts.push(toast)
    &&& toast.message@ == status
    &&& toast.kind == ToastKind::Success
    &&& toast.created_at_ms == now_ms
}

fn toggle_with_notice(
    favorites: &mut Vec<String>,
    activity: &mut Vec<ExtensionActivityItem>,
    toasts: &mut Vec<UiToast>,
    id: &str,
    removed_message: &str,
    pinned_message: &str,
    timestamp_label: String,
    now_ms: u64,
) -> (status: String)
    requires
        strictly_sorted(views(old(favorites)@)),
    ensures
        toggled_with_notice(
            views(old(favorites)@),
            views(final(favorites)@),
            old(activity)@,
            final(activity)@,
            old(toasts)@,
            final(toasts)@,
            id@,
            removed_message@,
            pinned_message@,
            timestamp_label,
            now_ms,
            status@,
        ),
{
    let was_removed = toggle_favorite(favorites, id);
    let message = if was_removed {
        owned(removed_message)
    } else {
        owned(pinned_message)
    };
    let ghost before = activity@;
    let item = ExtensionActivityItem {
        entry_id: Some(owned(id)),
        title: message.clone(),
        detail: owned(id),
        success: true,
        timestamp_label,
    };
    let ghost it = item;
    activity.push(item);
    keep_newest(activity, ACTIVITY_LIMIT);
    proof {
        let pushed = before.push(it);
        assert(pushed.len() > 0);
        assert(activity@.last() == it) by {
            if pushed.len() > 8 {
                assert(activity@ == pushed.subrange(pushed.len() - 8, pushed.len() as int));
            }
        }
    }
    push_toast(toasts, message.clone(), ToastKind::Success, now_ms);
    message
}

/// Toggles a lane favorite, with its status line, activity item and notice.
pub fn toggle_extension_favorite(
    favorites: &mut Vec<String>,
    activity: &mut Vec<ExtensionActivityItem>,
    toasts: &mut Vec<UiToast>,
    entry_id: &str,
    timestamp_label: String,
    now_ms: u64,
) -> (status: String)
    requires
        strictly_sorted(views(old(favorites)@)),
    ensures
        toggled_with_notice(
            views(old(favorites)@),
            views(final(favorites)@),
            old(activity)@,
            final(activity)@,
            old(toasts)@,
            final(toasts)@,
            entry_id@,
            "Removed lane favorite"@,
            "Pinned lane favorite"@,
            timestamp_label,
            now_ms,
            status@,
        ),
{
    toggle_with_notice(
        favorites,
        activity,
        toasts,
        entry_id,
        "Removed lane favorite",
        "Pinned lane favorite",
        timestamp_label,
        now_ms,
    )
}

/// Toggles a paired-proof favorite, with its status line, activity item and notice.
pub fn toggle_paired_proof_favorite(
    favorites: &mut Vec<String>,
    activity: &mut Vec<ExtensionActivityItem>,
    toasts: &mut Vec<UiToast>,
    receipt_id: &str,
    timestamp_label: String,
    now_ms: u64,
) -> (status: String)
    requires
        strictly_sorted(views(old(favorites)@)),
    ensures
        toggled_with_notice(
            views(old(favorites)@),
            views(final(favorites)@),
            old(activity)@,
            final(activity)@,
            old(toasts)@,
            final(toasts)@,
            receipt_id@,
            "Removed proof favorite"@,
            "Pinned proof favorite"@,
            timestamp_label,
            now_ms,
            status@,
        ),
{
    toggle_with_notice(
        favorites,
        activity,
        toasts,
        receipt_id,
        "Removed proof favorite",
        "Pinned proof favorite",
        timestamp_label,
        now_ms,
    )
}

/// Toggling a favorite twice leaves the set of favorites as it was.
pub proof fn lemma_toggle_twice_restores(favorites: Set<Seq<char>>, id: Seq<char>)
    ensures
        favorites.contains(id) ==> favorites.remove(id).insert(id) == favorites,
        !favorites.contains(id) ==> favorites.insert(id).remove(id) == favorites,
{
    assert(favorites.contains(id) ==> favorites.remove(id).insert(id) =~= favorites);
    assert(!favorites.contains(id) ==> favorites.insert(id).remove(id) =~= favorites);
}

// ---------------------------------------------------------------------------
// Small labels
// ---------------------------------------------------------------------------

/// The path holding `fragment` and ending with `suffix`.
pub open spec fn path_with(fragment: Seq<char>, suffix: Seq<char>) -> spec_fn(String) -> bool {
    |p: String| has_sub(p@, fragment) && has_suffix(p@, suffix)
}

/// The first patch receipt path that holds `required_fragment` and ends with `required_suffix`.
pub fn first_patch_receipt_path(
    paths: &Vec<String>,
    required_fragment: &str,
    required_suffix: &str,
) -> (r: Option<String>)
    ensures
        opt_view(r) == match first_where(paths@, path_with(required_fragment@, required_suffix@)) {
            Some(i) => Some(paths@[i]@),
            None => None,
        },
{
    let mut i: usize = 0;
    while i < paths.len()
        invariant
            i <= paths.len(),
            first_where(paths@, path_with(required_fragment@, required_suffix@)) == first_from(
                paths@,
                path_with(required_fragment@, required_suffix@),
                i as int,
            ),
        decreases paths.len() - i,
    {
        if contains_text(paths[i].as_str(), required_fragment) && ends_with_text(
            paths[i].as_str(),
            required_suffix,
        ) {
            return Some(owned(paths[i].as_str()));
        }
        i = i + 1;
    }
    None
}

/// Where a proposed constraint came from: a triangulation session, a build
/// verification, or unknown when no source is recorded.
pub fn proposal_origin_label(source_verification_id: &Option<String>) -> (r: &'static str)
    ensures
        r@ == match source_verification_id {
            Some(s) => if has_prefix(s@, "triangulation-"@) {
                "triangulated"@
            } else {
                "build-verification"@
            },
            None => "unknown-origin"@,
        },
{
    match source_verification_id {
        Some(s) => {
            if starts_with_text(s.as_str(), "triangulation-") {
                "triangulated"
            } else {
                "build-verification"
            }
        },
        None => "unknown-origin",
    }
}

} // verus!
