//! What the workbench exports for a lane: its Markdown summary, the export
//! files and their history, file previews, and the line-level difference
//! between two exports.
use vstd::prelude::*;

use crate::extensions::{opt_view, or_text, PendingExtensionEntry};
use crate::proofs::{line_for, list_includes, prefixed, push_opt_line, push_prefixed};
use crate::surface::pieces;
use crate::text::{
    chars_of, contains_text, decimal, ends_with_text, has_prefix, has_sub, has_suffix, is_blank,
    join_strings, joined, owned, push_labeled, push_line, push_str, push_usize, starts_with_text,
    string_from, trim_chars, trim_text, trimmed, views,
};
use crate::text_sort::{sort_texts, sorted_texts};

verus! {

// ---------------------------------------------------------------------------
// Lane summary
// ---------------------------------------------------------------------------

/// `label` + the list joined by ", ", as one line, when the list is not empty.
pub open spec fn list_line(label: Seq<char>, v: Seq<String>) -> Seq<Seq<char>> {
    if v.len() == 0 {
        Seq::empty()
    } else {
        seq![label + joined(views(v), ", "@)]
    }
}

/// A blank line, a heading, and one bullet per item, when there are items.
pub open spec fn bullet_section(heading: Seq<char>, v: Seq<String>) -> Seq<Seq<char>> {
    if v.len() == 0 {
        Seq::empty()
    } else {
        seq![""@, heading] + prefixed("- "@, views(v))
    }
}

/// The lines of a lane's Markdown summary.
pub open spec fn lane_summary_lines(
    e: PendingExtensionEntry,
    blockers: Seq<String>,
    hints: nat,
    note: Option<String>,
) -> Seq<Seq<char>> {
    seq![
        "# Lane Summary: "@ + e.entry_id@,
        ""@,
        "- Status: "@ + e.status@,
        "- Extension kind: "@ + e.extension_kind@,
        "- Unresolved layers: "@ + (if e.unresolved_layers@.len() == 0 {
            "none"@
        } else {
            joined(views(e.unresolved_layers@), ", "@)
        }),
        "- Family: "@ + or_text(e.family_id, "unknown_family"@),
        "- Tool: "@ + or_text(e.tool_kind, "none"@),
        "- Patch: "@ + or_text(e.patch_kind, "none"@),
        "- Compare hints: "@ + decimal(hints),
        "- Scaffold root: "@ + e.scaffold_root@,
        "- Source spec: "@ + e.source_stub_path@,
    ] + line_for("- Archive reason: "@, e.archived_reason) + list_line(
        "- Missing family build classes: "@,
        e.missing_family_build_primitive_classes@,
    ) + list_line("- Missing patch classes: "@, e.missing_patch_primitive_classes@) + list_line(
        "- Missing helper kinds: "@,
        e.missing_helper_primitive_kinds@,
    ) + seq![""@, "## Blockers"@] + (if blockers.len() == 0 {
        seq!["- None"@]
    } else {
        prefixed("- "@, views(blockers))
    }) + seq![""@, "## Note"@, or_text(note, "(no note)"@)] + bullet_section(
        "## Integrated Files"@,
        e.integrated_paths@,
    ) + bullet_section("## Promotion Artifacts"@, e.promotion_artifacts@) + bullet_section(
        "## Apply Patch Artifacts"@,
        e.apply_patch_artifacts@,
    )
}

fn push_list_line(lines: &mut Vec<String>, label: &str, v: &Vec<String>)
    ensures
        views(final(lines)@) == views(old(lines)@) + list_line(label@, v@),
{
    let ghost before = views(lines@);
    if v.len() > 0 {
        let list = join_strings(v, ", ");
        push_labeled(lines, label, list.as_str());
        assert(views(lines@) =~= before + list_line(label@, v@));
    } else {
        assert(views(lines@) =~= before + list_line(label@, v@));
    }
}

fn push_bullet_section(lines: &mut Vec<String>, heading: &str, v: &Vec<String>)
    ensures
        views(final(lines)@) == views(old(lines)@) + bullet_section(heading@, v@),
{
    let ghost before = views(lines@);
    if v.len() > 0 {
        push_line(lines, owned(""));
        push_line(lines, owned(heading));
        let ghost mid = views(lines@);
        push_prefixed(lines, "- ", v);
        assert(views(lines@) =~= before + bullet_section(heading@, v@));
    } else {
        assert(views(lines@) =~= before + bullet_section(heading@, v@));
    }
}

fn opt_or_owned(o: &Option<String>, d: &str) -> (r: String)
    ensures
        r@ == or_text(*o, d@),
{
    match o {
        Some(s) => s.clone(),
        None => owned(d),
    }
}

/// The Markdown summary of a lane: its identity, status and kind, what is
/// unresolved or missing, its blockers, its note and its files, one item
/// per line.
#[verifier::rlimit(60)]
pub fn build_extension_summary_markdown(
    entry: &PendingExtensionEntry,
    blockers: &Vec<String>,
    mismatch_hint_count: usize,
    note: Option<String>,
) -> (r: String)
    ensures
        r@ == joined(
            lane_summary_lines(*entry, blockers@, mismatch_hint_count as nat, note),
            "\n"@,
        ),
{
    let ghost e = *entry;
    proof {
        reveal_strlit("");
    }
    let mut lines: Vec<String> = Vec::new();
    push_labeled(&mut lines, "# Lane Summary: ", entry.entry_id.as_str());
    push_line(&mut lines, owned(""));
    push_labeled(&mut lines, "- Status: ", entry.status.as_str());
    push_labeled(&mut lines, "- Extension kind: ", entry.extension_kind.as_str());
    let layers = if entry.unresolved_layers.len() == 0 {
        owned("none")
    } else {
        join_strings(&entry.unresolved_layers, ", ")
    };
    push_labeled(&mut lines, "- Unresolved layers: ", layers.as_str());
    let family = opt_or_owned(&entry.family_id, "unknown_family");
    push_labeled(&mut lines, "- Family: ", family.as_str());
    let tool = opt_or_owned(&entry.tool_kind, "none");
    push_labeled(&mut lines, "- Tool: ", tool.as_str());
    let patch = opt_or_owned(&entry.patch_kind, "none");
    push_labeled(&mut lines, "- Patch: ", patch.as_str());
    let mut hints = owned("- Compare hints: ");
    push_usize(&mut hints, mismatch_hint_count);
    push_line(&mut lines, hints);
    push_labeled(&mut lines, "- Scaffold root: ", entry.scaffold_root.as_str());
    push_labeled(&mut lines, "- Source spec: ", entry.source_stub_path.as_str());
    let ghost head = views(lines@);
    assert(head =~= seq![
        "# Lane Summary: "@ + e.entry_id@,
        ""@,
        "- Status: "@ + e.status@,
        "- Extension kind: "@ + e.extension_kind@,
        "- Unresolved layers: "@ + (if e.unresolved_layers@.len() == 0 {
            "none"@
        } else {
            joined(views(e.unresolved_layers@), ", "@)
        }),
        "- Family: "@ + or_text(e.family_id, "unknown_family"@),
        "- Tool: "@ + or_text(e.tool_kind, "none"@),
        "- Patch: "@ + or_text(e.patch_kind, "none"@),
        "- Compare hints: "@ + decimal(mismatch_hint_count as nat),
        "- Scaffold root: "@ + e.scaffold_root@,
        "- Source spec: "@ + e.source_stub_path@,
    ]);
    push_opt_line(&mut lines, "- Archive reason: ", &entry.archived_reason);
    push_list_line(
        &mut lines,
        "- Missing family build classes: ",
        &entry.missing_family_build_primitive_classes,
    );
    push_list_line(&mut lines, "- Missing patch classes: ", &entry.missing_patch_primitive_classes);
    push_list_line(&mut lines, "- Missing helper kinds: ", &entry.missing_helper_primitive_kinds);
    let ghost missing = views(lines@);
    push_line(&mut lines, owned(""));
    push_line(&mut lines, owned("## Blockers"));
    let ghost blk = views(lines@);
    if blockers.len() == 0 {
        push_line(&mut lines, owned("- None"));
    } else {
        push_prefixed(&mut lines, "- ", blockers);
    }
    assert(views(lines@) =~= blk + (if blockers@.len() == 0 {
        seq!["- None"@]
    } else {
        prefixed("- "@, views(blockers@))
    }));
    let ghost after_blockers = views(lines@);
    push_line(&mut lines, owned(""));
    push_line(&mut lines, owned("## Note"));
    match note {
        Some(n) => push_line(&mut lines, n),
        None => push_line(&mut lines, owned("(no note)")),
    }
    assert(views(lines@) =~= after_blockers + seq![""@, "## Note"@, or_text(note, "(no note)"@)]);
    let ghost noted = views(lines@);
    push_bullet_section(&mut lines, "## Integrated Files", &entry.integrated_paths);
    push_bullet_section(&mut lines, "## Promotion Artifacts", &entry.promotion_artifacts);
    push_bullet_section(&mut lines, "## Apply Patch Artifacts", &entry.apply_patch_artifacts);
    assert(views(lines@) =~= lane_summary_lines(e, blockers@, mismatch_hint_count as nat, note));
    join_strings(&lines, "\n")
}

// ---------------------------------------------------------------------------
// Export diff
// ---------------------------------------------------------------------------

/// A line without the carriage return that ended it.
pub open spec fn strip_cr(p: Seq<char>) -> Seq<char> {
    if p.len() > 0 && p.last() == '\r' {
        p.drop_last()
    } else {
        p
    }
}

/// The lines of a text, as `str::lines` yields them: split at line feeds,
/// each terminated line without a trailing carriage return, and no empty
/// line after a final line feed.
pub open spec fn text_lines(s: Seq<char>) -> Seq<Seq<char>> {
    let ps = pieces(s, '\n');
    let body = Seq::new((ps.len() - 1) as nat, |i: int| strip_cr(ps[i]));
    if ps.last().len() == 0 {
        body
    } else {
        body.push(ps.last())
    }
}

/// A line that `b` does not hold.
pub open spec fn absent_from(b: Seq<Seq<char>>) -> spec_fn(Seq<char>) -> bool {
    |l: Seq<char>| !b.contains(l)
}

/// Lines of `a` that do not occur in `b`, in order.
pub open spec fn lines_not_in(a: Seq<Seq<char>>, b: Seq<Seq<char>>) -> Seq<Seq<char>> {
    a.filter(absent_from(b))
}

/// The lines of the export diff: the two exports' names, a blank line, the
/// lines only the latest has (`+ `), those only the previous has (`- `), or
/// a note that there are none.
pub open spec fn export_diff_lines(
    latest_name: Seq<char>,
    previous_name: Seq<char>,
    latest: Seq<char>,
    previous: Seq<char>,
) -> Seq<Seq<char>> {
    let l = text_lines(latest);
    let p = text_lines(previous);
    let changes = prefixed("+ "@, lines_not_in(l, p)) + prefixed("- "@, lines_not_in(p, l));
    seq!["latest: "@ + latest_name, "previous: "@ + previous_name, ""@] + (if changes.len() == 0 {
        seq!["(no line-level differences detected)"@]
    } else {
        changes
    })
}

/// The lines of a text, as `str::lines` yields them.
pub fn split_lines(text: &str) -> (r: Vec<String>)
    ensures
        views(r@) == text_lines(text@),
{
    let cs = chars_of(text);
    let mut done: Vec<String> = Vec::new();
    let mut cur: Vec<char> = Vec::new();
    let mut i: usize = 0;
    assert(cs@.subrange(0, 0) =~= Seq::<char>::empty());
    let ghost p0 = pieces(cs@.subrange(0, 0), '\n');
    assert(views(done@) =~= Seq::new((p0.len() - 1) as nat, |k: int| strip_cr(p0[k])));
    while i < cs.len()
        invariant
            i <= cs.len(),
            pieces(cs@.subrange(0, i as int), '\n').len() >= 1,
            cur@ == pieces(cs@.subrange(0, i as int), '\n').last(),
            views(done@) == Seq::new(
                (pieces(cs@.subrange(0, i as int), '\n').len() - 1) as nat,
                |k: int| strip_cr(pieces(cs@.subrange(0, i as int), '\n')[k]),
            ),
        decreases cs.len() - i,
    {
        let ghost pre = cs@.subrange(0, i as int);
        let ghost nxt = cs@.subrange(0, i + 1);
        let ghost pp = pieces(pre, '\n');
        assert(nxt.drop_last() =~= pre);
        assert(nxt.last() == cs@[i as int]);
        let c = cs[i];
        if c == '\n' {
            let ghost before = views(done@);
            let n = cur.len();
            let line = if n > 0 && cur[n - 1] == '\r' {
                let mut t = cur.clone();
                t.pop();
                assert(t@ =~= cur@.drop_last());
                string_from(&t)
            } else {
                string_from(&cur)
            };
            assert(line@ == strip_cr(pp.last()));
            let ghost lv = line@;
            done.push(line);
            assert(views(done@) =~= before.push(lv));
            cur = Vec::new();
            let ghost np = pieces(nxt, '\n');
            assert(np == pp.push(Seq::empty()));
            assert(pp.len() >= 1);
            assert forall|k: int| 0 <= k < pp.len() implies np[k] == pp[k] by {}
            assert(views(done@) =~= Seq::new((np.len() - 1) as nat, |k: int| strip_cr(np[k])));
        } else {
            cur.push(c);
            let ghost np = pieces(nxt, '\n');
            assert(np == pp.update(pp.len() - 1, pp.last().push(c)));
            assert(pp.len() >= 1);
            assert(np.len() == pp.len());
            assert forall|k: int| 0 <= k < np.len() - 1 implies np[k] == pp[k] by {}
            assert(Seq::new((np.len() - 1) as nat, |k: int| strip_cr(np[k])) =~= Seq::new(
                (pp.len() - 1) as nat,
                |k: int| strip_cr(pp[k]),
            ));
        }
        i = i + 1;
    }
    assert(cs@.subrange(0, cs.len() as int) =~= cs@);
    if cur.len() > 0 {
        let ghost before = views(done@);
        let last = string_from(&cur);
        done.push(last);
        assert(views(done@) =~= before.push(last@));
    }
    done
}

/// The lines of `a` that `b` does not hold, in order.
fn lines_missing_from(a: &Vec<String>, b: &Vec<String>) -> (r: Vec<String>)
    ensures
        views(r@) == lines_not_in(views(a@), views(b@)),
{
    let ghost av = views(a@);
    let ghost bv = views(b@);
    let ghost keep = absent_from(bv);
    let mut out: Vec<String> = Vec::new();
    let mut i: usize = 0;
    assert(av.subrange(0, 0) =~= Seq::<Seq<char>>::empty());
    while i < a.len()
        invariant
            i <= a.len(),
            av == views(a@),
            bv == views(b@),
            keep == absent_from(bv),
            views(out@) == av.subrange(0, i as int).filter(keep),
        decreases a.len() - i,
    {
        let line = &a[i];
        let present = list_includes(b, line.as_str());
        proof {
            assert(av.subrange(0, i + 1) =~= av.subrange(0, i as int).push(line@));
            av.subrange(0, i as int).lemma_filter_push(line@, keep);
            if present {
                let k = choose|k: int| 0 <= k < b@.len() && (#[trigger] b@[k])@ == line@;
                assert(bv[k] == line@);
            } else {
                assert forall|k: int| 0 <= k < bv.len() implies bv[k] != line@ by {
                    assert(bv[k] == b@[k]@);
                }
            }
            assert(keep(line@) == !present);
        }
        if !present {
            let ghost before = views(out@);
            out.push(line.clone());
            assert(views(out@) =~= before.push(line@));
        }
        i = i + 1;
    }
    assert(av.subrange(0, a.len() as int) =~= av);
    out
}

/// The line-level difference between the latest export and the previous
/// one, given their names and contents.
pub fn build_export_diff(
    latest_name: &str,
    previous_name: &str,
    latest: &str,
    previous: &str,
) -> (r: String)
    ensures
        r@ == joined(export_diff_lines(latest_name@, previous_name@, latest@, previous@), "\n"@),
{
    proof {
        reveal_strlit("");
    }
    let latest_lines = split_lines(latest);
    let previous_lines = split_lines(previous);
    let mut lines: Vec<String> = Vec::new();
    push_labeled(&mut lines, "latest: ", latest_name);
    push_labeled(&mut lines, "previous: ", previous_name);
    push_line(&mut lines, owned(""));
    let ghost head = views(lines@);
    let added = lines_missing_from(&latest_lines, &previous_lines);
    let removed = lines_missing_from(&previous_lines, &latest_lines);
    push_prefixed(&mut lines, "+ ", &added);
    push_prefixed(&mut lines, "- ", &removed);
    let ghost changes = prefixed("+ "@, views(added@)) + prefixed("- "@, views(removed@));
    assert(views(lines@) =~= head + changes);
    if lines.len() == 3 {
        push_line(&mut lines, owned("(no line-level differences detected)"));
    }
    assert(views(lines@) =~= export_diff_lines(latest_name@, previous_name@, latest@, previous@));
    join_strings(&lines, "\n")
}

/// An export compared with an identical one shows no line-level differences.
pub proof fn lemma_identical_exports_have_no_diff(
    latest_name: Seq<char>,
    previous_name: Seq<char>,
    text: Seq<char>,
)
    ensures
        export_diff_lines(latest_name, previous_name, text, text) == seq![
            "latest: "@ + latest_name,
            "previous: "@ + previous_name,
            ""@,
            "(no line-level differences detected)"@,
        ],
{
    let l = text_lines(text);
    assert forall|i: int| 0 <= i < l.len() implies !absent_from(l)(l[i]) by {
        assert(l.contains(l[i]));
    }
    l.lemma_all_neg_filter_empty(absent_from(l));
    assert(lines_not_in(l, l).len() == 0);
    assert(prefixed("+ "@, lines_not_in(l, l)) + prefixed("- "@, lines_not_in(l, l))
        =~= Seq::<Seq<char>>::empty());
}

// ---------------------------------------------------------------------------
// Export history
// ---------------------------------------------------------------------------

/// A file name of one of a lane's exports: `<entry_id>-...md`.
pub open spec fn is_export_of(entry_id: Seq<char>) -> spec_fn(Seq<char>) -> bool {
    |name: Seq<char>| has_prefix(name, entry_id + "-"@) && has_suffix(name, ".md"@)
}

/// A lane's exports among the folder's file names, newest name first
/// (descending order of the name).
pub open spec fn export_history(names: Seq<Seq<char>>, entry_id: Seq<char>) -> Seq<Seq<char>> {
    sorted_texts(names.filter(is_export_of(entry_id))).reverse()
}

/// A lane's exports among the folder's file names, newest name first.
pub fn export_history_names(names: &Vec<String>, entry_id: &str) -> (r: Vec<String>)
    ensures
        views(r@) == export_history(views(names@), entry_id@),
{
    let ghost all = views(names@);
    let ghost keep = is_export_of(entry_id@);
    let mut prefix = owned(entry_id);
    push_str(&mut prefix, "-");
    let mut picked: Vec<String> = Vec::new();
    let mut i: usize = 0;
    assert(all.subrange(0, 0) =~= Seq::<Seq<char>>::empty());
    while i < names.len()
        invariant
            i <= names.len(),
            all == views(names@),
            keep == is_export_of(entry_id@),
            prefix@ == entry_id@ + "-"@,
            views(picked@) == all.subrange(0, i as int).filter(keep),
        decreases names.len() - i,
    {
        let name = &names[i];
        proof {
            assert(all.subrange(0, i + 1) =~= all.subrange(0, i as int).push(name@));
            all.subrange(0, i as int).lemma_filter_push(name@, keep);
        }
        if starts_with_text(name.as_str(), prefix.as_str()) && ends_with_text(name.as_str(), ".md") {
            let ghost before = views(picked@);
            picked.push(name.clone());
            assert(views(picked@) =~= before.push(name@));
        }
        i = i + 1;
    }
    assert(all.subrange(0, names.len() as int) =~= all);
    let sorted = sort_texts(picked);
    let mut out: Vec<String> = Vec::new();
    let mut k: usize = sorted.len();
    while k > 0
        invariant
            k <= sorted.len(),
            views(out@) == views(sorted@).subrange(k as int, sorted.len() as int).reverse(),
        decreases k,
    {
        k = k - 1;
        let ghost before = views(out@);
        let item = sorted[k].clone();
        assert(item@ == views(sorted@)[k as int]);
        out.push(item);
        assert(views(out@) =~= before.push(item@));
        assert(views(out@) =~= views(sorted@).subrange(k as int, sorted.len() as int).reverse());
    }
    assert(views(sorted@).subrange(0, sorted.len() as int) =~= views(sorted@));
    out
}

/// A runtime check file that holds a catalog.
pub fn is_catalog_check_name(name: &str) -> (r: bool)
    ensures
        r == has_sub(name@, "catalog"@),
{
    contains_text(name, "catalog")
}

// ---------------------------------------------------------------------------
// Export files and previews
// ---------------------------------------------------------------------------

/// The note an export carries: the saved note trimmed, when not blank.
pub open spec fn export_note(note: Option<Seq<char>>) -> Option<Seq<char>> {
    match note {
        Some(n) => if trimmed(n).len() > 0 {
            Some(trimmed(n))
        } else {
            None
        },
        None => None,
    }
}

/// The note an export carries.
pub fn note_for_export(note: Option<&str>) -> (r: Option<String>)
    ensures
        opt_view(r) == export_note(crate::helper_checks::opt_str(note)),
{
    match note {
        Some(n) => if is_blank(n) {
            None
        } else {
            Some(trim_text(n))
        },
        None => None,
    }
}

/// The names of an export: the latest copy `<id>.md` and the dated copy
/// `<id>-<stamp>.md`.
pub fn export_file_names(id: &str, stamp: &str) -> (r: (String, String))
    ensures
        r.0@ == id@ + ".md"@,
        r.1@ == id@ + "-"@ + stamp@ + ".md"@,
{
    let mut latest = owned(id);
    push_str(&mut latest, ".md");
    let mut dated = owned(id);
    push_str(&mut dated, "-");
    push_str(&mut dated, stamp);
    push_str(&mut dated, ".md");
    (latest, dated)
}

/// A preview of a file's text: "(empty file)" when it is blank, else its
/// trimmed text cut to `max_chars` characters, with a marker when cut.
pub open spec fn preview_text(contents: Seq<char>, max_chars: nat) -> Seq<char> {
    let t = trimmed(contents);
    if t.len() == 0 {
        "(empty file)"@
    } else if t.len() > max_chars {
        t.subrange(0, max_chars as int) + "\n\n...truncated..."@
    } else {
        t
    }
}

/// A preview of a file's text.
pub fn text_preview(contents: &str, max_chars: usize) -> (r: String)
    ensures
        r@ == preview_text(contents@, max_chars as nat),
{
    let t = trim_chars(&chars_of(contents));
    if t.len() == 0 {
        return owned("(empty file)");
    }
    if t.len() > max_chars {
        let mut cut: Vec<char> = Vec::new();
        let mut i: usize = 0;
        while i < max_chars
            invariant
                i <= max_chars,
                max_chars < t.len(),
                cut@ == t@.subrange(0, i as int),
            decreases max_chars - i,
        {
            cut.push(t[i]);
            assert(cut@ =~= t@.subrange(0, i + 1));
            i = i + 1;
        }
        let mut s = string_from(&cut);
        push_str(&mut s, "\n\n...truncated...");
        s
    } else {
        string_from(&t)
    }
}

} // verus!
