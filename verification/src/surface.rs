//! Acceptance checks on generated dashboard surfaces: the markers a page and
//! its script must carry for each requested component, and the first one
//! that is missing.
use vstd::prelude::*;

use crate::failure::{failure_class_of, lemma_helper_surface_failures_classify, FailureClass};
use crate::text::{
    chars_of, contains_text, has_prefix, has_sub, lowercase, owned, push_str, string_from,
    trim_chars, trimmed, views,
};

verus! {

// ---------------------------------------------------------------------------
// Component lists: "a, b,,c" -> ["a", "b", "c"]
// ---------------------------------------------------------------------------

/// The pieces of `s` between occurrences of `sep` (what `str::split` yields).
pub open spec fn pieces(s: Seq<char>, sep: char) -> Seq<Seq<char>>
    decreases s.len(),
{
    if s.len() == 0 {
        seq![Seq::empty()]
    } else {
        let p = pieces(s.drop_last(), sep);
        if s.last() == sep {
            p.push(Seq::empty())
        } else {
            p.update(p.len() - 1, p.last().push(s.last()))
        }
    }
}

/// The trimmed pieces that are not empty, in order.
pub open spec fn kept_pieces(ps: Seq<Seq<char>>) -> Seq<Seq<char>>
    decreases ps.len(),
{
    if ps.len() == 0 {
        Seq::empty()
    } else {
        let k = kept_pieces(ps.drop_last());
        if trimmed(ps.last()).len() > 0 {
            k.push(trimmed(ps.last()))
        } else {
            k
        }
    }
}

/// The components named by a comma-separated list.
pub open spec fn components_of(text: Seq<char>) -> Seq<Seq<char>> {
    kept_pieces(pieces(text, ','))
}

proof fn lemma_pieces_nonempty(s: Seq<char>, sep: char)
    ensures
        pieces(s, sep).len() >= 1,
    decreases s.len(),
{
    if s.len() > 0 {
        lemma_pieces_nonempty(s.drop_last(), sep);
    }
}

/// Splits a comma-separated list, trims each piece and drops the empty ones.
pub fn parse_components(text: &str) -> (r: Vec<String>)
    ensures
        views(r@) == components_of(text@),
{
    let cs = chars_of(text);
    let mut done: Vec<String> = Vec::new();
    let mut cur: Vec<char> = Vec::new();
    let mut i: usize = 0;
    assert(cs@.subrange(0, 0) =~= Seq::<char>::empty());
    assert(views(done@).push(cur@) =~= pieces(cs@.subrange(0, 0), ','));
    while i < cs.len()
        invariant
            i <= cs.len(),
            views(done@).push(cur@) == pieces(cs@.subrange(0, i as int), ','),
        decreases cs.len() - i,
    {
        let ghost pre = cs@.subrange(0, i as int);
        let ghost nxt = cs@.subrange(0, i + 1);
        assert(nxt.drop_last() =~= pre);
        assert(nxt.last() == cs@[i as int]);
        proof {
            lemma_pieces_nonempty(pre, ',');
        }
        let c = cs[i];
        if c == ',' {
            let piece = string_from(&cur);
            let ghost before = views(done@);
            done.push(piece);
            cur = Vec::new();
            assert(views(done@) =~= before.push(piece@));
            assert(views(done@).push(cur@) =~= pieces(nxt, ','));
        } else {
            let ghost before = cur@;
            cur.push(c);
            assert(views(done@).push(cur@) =~= pieces(pre, ',').update(
                pieces(pre, ',').len() - 1,
                before.push(c),
            ));
        }
        i = i + 1;
    }
    assert(cs@.subrange(0, cs.len() as int) =~= cs@);
    let ghost all = pieces(text@, ',');
    let last = string_from(&cur);
    let ghost d = views(done@);
    done.push(last);
    assert(views(done@) =~= d.push(cur@));
    let mut out: Vec<String> = Vec::new();
    let mut k: usize = 0;
    assert(all.subrange(0, 0) =~= Seq::<Seq<char>>::empty());
    while k < done.len()
        invariant
            k <= done.len(),
            views(done@) == all,
            views(out@) == kept_pieces(all.subrange(0, k as int)),
        decreases done.len() - k,
    {
        let ghost pre = all.subrange(0, k as int);
        let ghost nxt = all.subrange(0, k + 1);
        assert(nxt.drop_last() =~= pre);
        assert(nxt.last() == done@[k as int]@);
        let t = trim_chars(&chars_of(done[k].as_str()));
        if t.len() > 0 {
            let s = string_from(&t);
            let ghost before = views(out@);
            out.push(s);
            assert(views(out@) =~= before.push(s@));
        }
        k = k + 1;
    }
    assert(all.subrange(0, all.len() as int) =~= all);
    out
}

/// Whether the component list names `name`.
pub fn component_listed(components: &Vec<String>, name: &str) -> (r: bool)
    ensures
        r == views(components@).contains(name@),
{
    let mut i: usize = 0;
    while i < components.len()
        invariant
            i <= components.len(),
            forall|j: int| 0 <= j < i ==> views(components@)[j] != name@,
        decreases components.len() - i,
    {
        if crate::text::text_eq(components[i].as_str(), name) {
            assert(views(components@)[i as int] == name@);
            return true;
        }
        i = i + 1;
    }
    false
}

// ---------------------------------------------------------------------------
// Marker groups
// ---------------------------------------------------------------------------

/// The character views of a list of string slices.
pub open spec fn strs(v: Seq<&str>) -> Seq<Seq<char>> {
    Seq::new(v.len(), |i: int| v[i]@)
}

/// A check result as text: `Ok` or the failure message.
pub open spec fn outcome(r: Result<(), String>) -> Result<(), Seq<char>> {
    match r {
        Ok(_) => Ok(()),
        Err(e) => Err(e@),
    }
}

/// The first needle that `hay` does not contain.
pub open spec fn first_absent(hay: Seq<char>, needles: Seq<Seq<char>>) -> Option<Seq<char>>
    decreases needles.len(),
{
    if needles.len() == 0 {
        None
    } else if !has_sub(hay, needles[0]) {
        Some(needles[0])
    } else {
        first_absent(hay, needles.drop_first())
    }
}

/// "<contract> failed: '<needle>' missing from <place>".
pub open spec fn missing_from(contract: Seq<char>, needle: Seq<char>, place: Seq<char>) -> Seq<char> {
    contract + " failed: '"@ + needle + "' missing from "@ + place
}

/// Every needle must occur in `hay`; the first that does not is reported.
pub open spec fn marker_group(
    hay: Seq<char>,
    needles: Seq<Seq<char>>,
    contract: Seq<char>,
    place: Seq<char>,
) -> Result<(), Seq<char>> {
    match first_absent(hay, needles) {
        Some(n) => Err(missing_from(contract, n, place)),
        None => Ok(()),
    }
}

/// The first failure of two checks run in turn.
pub open spec fn and_then(a: Result<(), Seq<char>>, b: Result<(), Seq<char>>) -> Result<
    (),
    Seq<char>,
> {
    if a is Err {
        a
    } else {
        b
    }
}

/// A check that runs only when `c` holds.
pub open spec fn when(c: bool, r: Result<(), Seq<char>>) -> Result<(), Seq<char>> {
    if c {
        r
    } else {
        Ok(())
    }
}

/// The message for a marker missing from a file.
pub fn missing_marker_message(contract: &str, needle: &str, place: &str) -> (r: String)
    ensures
        r@ == missing_from(contract@, needle@, place@),
{
    let mut s = owned(contract);
    push_str(&mut s, " failed: '");
    push_str(&mut s, needle);
    push_str(&mut s, "' missing from ");
    push_str(&mut s, place);
    s
}

/// Checks that `hay` contains every needle, reporting the first one missing.
pub fn require_markers(hay: &str, needles: &Vec<&str>, contract: &str, place: &str) -> (r: Result<
    (),
    String,
>)
    ensures
        outcome(r) == marker_group(hay@, strs(needles@), contract@, place@),
{
    let ghost all = strs(needles@);
    let mut i: usize = 0;
    assert(all.skip(0) =~= all);
    while i < needles.len()
        invariant
            i <= needles.len(),
            all == strs(needles@),
            first_absent(hay@, all) == first_absent(hay@, all.skip(i as int)),
        decreases needles.len() - i,
    {
        let needle: &str = needles[i];
        assert(all.skip(i as int)[0] == needle@);
        assert(all.skip(i as int).drop_first() =~= all.skip(i + 1));
        if !contains_text(hay, needle) {
            return Err(missing_marker_message(contract, needle, place));
        }
        i = i + 1;
    }
    assert(all.skip(i as int).len() == 0);
    Ok(())
}

// ---------------------------------------------------------------------------
// Surface contracts
// ---------------------------------------------------------------------------

/// The component list to use: the check's expected value, or `default`.
pub open spec fn component_text(expected: Option<&str>, default: Seq<char>) -> Seq<char> {
    match expected {
        Some(e) => e@,
        None => default,
    }
}

/// A page group checked in the target file, then a script group checked in `app.js`.
pub open spec fn page_and_script(
    index: Seq<char>,
    page_needles: Seq<Seq<char>>,
    app_js: Seq<char>,
    script_needles: Seq<Seq<char>>,
    contract: Seq<char>,
    target: Seq<char>,
) -> Result<(), Seq<char>> {
    and_then(
        marker_group(index, page_needles, contract, target),
        marker_group(app_js, script_needles, contract, "app.js"@),
    )
}

fn check_page_and_script(
    index: &str,
    page_needles: &Vec<&str>,
    app_js: &str,
    script_needles: &Vec<&str>,
    contract: &str,
    target: &str,
) -> (r: Result<(), String>)
    ensures
        outcome(r) == page_and_script(
            index@,
            strs(page_needles@),
            app_js@,
            strs(script_needles@),
            contract@,
            target@,
        ),
{
    let first = require_markers(index, page_needles, contract, target);
    if first.is_err() {
        return first;
    }
    require_markers(app_js, script_needles, contract, "app.js")
}

/// The marker check for a `*_surface_contract` component list: the given
/// value, or `default` when the check has none.
fn requested_components(expected: Option<&str>, default: &str) -> (r: Vec<String>)
    ensures
        views(r@) == components_of(component_text(expected, default@)),
{
    match expected {
        Some(e) => parse_components(e),
        None => parse_components(default),
    }
}

/// The optional chip of the helper summary surface: its page marker and its script marker.
pub open spec fn summary_chip(
    components: Seq<Seq<char>>,
    component: Seq<char>,
    page_needle: Seq<char>,
    script_needle: Seq<char>,
    index: Seq<char>,
    app_js: Seq<char>,
    target: Seq<char>,
) -> Result<(), Seq<char>> {
    when(
        components.contains(component),
        page_and_script(
            index,
            seq![page_needle],
            app_js,
            seq![script_needle],
            "helper summary surface contract"@,
            target,
        ),
    )
}

/// The helper summary surface: the panel's markers, then each requested chip.
pub open spec fn helper_summary_surface(
    index: Seq<char>,
    app_js: Seq<char>,
    target: Seq<char>,
    components: Seq<Seq<char>>,
) -> Result<(), Seq<char>> {
    and_then(
        when(
            components.contains("panel"@),
            page_and_script(
                index,
                seq!["helper-summary-panel"@, "helper-summary-status"@, "helper-summary-files"@],
                app_js,
                seq![
                    "loadHelperSummary"@,
                    "bridge/helpers/local_inbox/summary.json"@,
                    "helperSummaryFiles"@,
                ],
                "helper summary surface contract"@,
                target,
            ),
        ),
        and_then(
            summary_chip(
                components,
                "status_chip"@,
                "helper-summary-status-chip"@,
                "helperSummaryStatusChip"@,
                index,
                app_js,
                target,
            ),
            and_then(
                summary_chip(
                    components,
                    "lane_count_chip"@,
                    "helper-summary-lane-count-chip"@,
                    "helperSummaryLaneCountChip"@,
                    index,
                    app_js,
                    target,
                ),
                and_then(
                    summary_chip(
                        components,
                        "types_chip"@,
                        "helper-summary-types-chip"@,
                        "helperSummaryTypesChip"@,
                        index,
                        app_js,
                        target,
                    ),
                    summary_chip(
                        components,
                        "count_delta"@,
                        "helper-summary-count-delta"@,
                        "helperSummaryCountDelta"@,
                        index,
                        app_js,
                        target,
                    ),
                ),
            ),
        ),
    )
}

fn check_summary_chip(
    components: &Vec<String>,
    component: &str,
    page_needle: &str,
    script_needle: &str,
    index: &str,
    app_js: &str,
    target: &str,
) -> (r: Result<(), String>)
    ensures
        outcome(r) == summary_chip(
            views(components@),
            component@,
            page_needle@,
            script_needle@,
            index@,
            app_js@,
            target@,
        ),
{
    if component_listed(components, component) {
        let page = vec![page_needle];
        let script = vec![script_needle];
        assert(strs(page@) =~= seq![page_needle@]);
        assert(strs(script@) =~= seq![script_needle@]);
        check_page_and_script(
            index,
            &page,
            app_js,
            &script,
            "helper summary surface contract",
            target,
        )
    } else {
        Ok(())
    }
}

/// The helper summary panel of a generated page (`target`, with `app.js`
/// beside it) carries the markers of each requested component ("panel" when
/// none is requested).
pub fn verify_helper_summary_surface_contract(
    index: &str,
    app_js: &str,
    target: &str,
    expected_components: Option<&str>,
) -> (r: Result<(), String>)
    ensures
        outcome(r) == helper_summary_surface(
            index@,
            app_js@,
            target@,
            components_of(component_text(expected_components, "panel"@)),
        ),
{
    let components = requested_components(expected_components, "panel");
    if component_listed(&components, "panel") {
        let page = vec!["helper-summary-panel", "helper-summary-status", "helper-summary-files"];
        let script = vec![
            "loadHelperSummary",
            "bridge/helpers/local_inbox/summary.json",
            "helperSummaryFiles",
        ];
        assert(strs(page@) =~= seq![
            "helper-summary-panel"@,
            "helper-summary-status"@,
            "helper-summary-files"@,
        ]);
        assert(strs(script@) =~= seq![
            "loadHelperSummary"@,
            "bridge/helpers/local_inbox/summary.json"@,
            "helperSummaryFiles"@,
        ]);
        let r = check_page_and_script(
            index,
            &page,
            app_js,
            &script,
            "helper summary surface contract",
            target,
        );
        if r.is_err() {
            return r;
        }
    }
    let r = check_summary_chip(
        &components,
        "status_chip",
        "helper-summary-status-chip",
        "helperSummaryStatusChip",
        index,
        app_js,
        target,
    );
    if r.is_err() {
        return r;
    }
    let r = check_summary_chip(
        &components,
        "lane_count_chip",
        "helper-summary-lane-count-chip",
        "helperSummaryLaneCountChip",
        index,
        app_js,
        target,
    );
    if r.is_err() {
        return r;
    }
    let r = check_summary_chip(
        &components,
        "types_chip",
        "helper-summary-types-chip",
        "helperSummaryTypesChip",
        index,
        app_js,
        target,
    );
    if r.is_err() {
        return r;
    }
    check_summary_chip(
        &components,
        "count_delta",
        "helper-summary-count-delta",
        "helperSummaryCountDelta",
        index,
        app_js,
        target,
    )
}

/// The processed-files panel: its markers, and the selection hooks when requested.
pub open spec fn processed_files_surface(
    index: Seq<char>,
    app_js: Seq<char>,
    target: Seq<char>,
    components: Seq<Seq<char>>,
) -> Result<(), Seq<char>> {
    and_then(
        when(
            components.contains("panel"@),
            page_and_script(
                index,
                seq!["processed-files-panel"@, "processed-files-status"@, "processed-files-list"@],
                app_js,
                seq![
                    "loadProcessedFilesPanel"@,
                    "bridge/helpers/local_inbox/summary.json"@,
                    "processedFilesList"@,
                ],
                "helper processed files surface contract"@,
                target,
            ),
        ),
        when(
            components.contains("selection"@),
            marker_group(
                app_js,
                seq!["data-select-processed-file"@, "selectedProcessedFile"@],
                "helper processed files surface contract"@,
                "app.js"@,
            ),
        ),
    )
}

/// The processed-files panel of a generated page carries the markers of each
/// requested component ("panel" when none is requested).
pub fn verify_helper_processed_files_surface_contract(
    index: &str,
    app_js: &str,
    target: &str,
    expected_components: Option<&str>,
) -> (r: Result<(), String>)
    ensures
        outcome(r) == processed_files_surface(
            index@,
            app_js@,
            target@,
            components_of(component_text(expected_components, "panel"@)),
        ),
{
    let components = requested_components(expected_components, "panel");
    if component_listed(&components, "panel") {
        let page = vec!["processed-files-panel", "processed-files-status", "processed-files-list"];
        let script = vec![
            "loadProcessedFilesPanel",
            "bridge/helpers/local_inbox/summary.json",
            "processedFilesList",
        ];
        assert(strs(page@) =~= seq![
            "processed-files-panel"@,
            "processed-files-status"@,
            "processed-files-list"@,
        ]);
        assert(strs(script@) =~= seq![
            "loadProcessedFilesPanel"@,
            "bridge/helpers/local_inbox/summary.json"@,
            "processedFilesList"@,
        ]);
        let r = check_page_and_script(
            index,
            &page,
            app_js,
            &script,
            "helper processed files surface contract",
            target,
        );
        if r.is_err() {
            return r;
        }
    }
    if component_listed(&components, "selection") {
        let script = vec!["data-select-processed-file", "selectedProcessedFile"];
        assert(strs(script@) =~= seq!["data-select-processed-file"@, "selectedProcessedFile"@]);
        return require_markers(
            app_js,
            &script,
            "helper processed files surface contract",
            "app.js",
        );
    }
    Ok(())
}

/// The processed-file preview panel: its markers, and the selection hook when requested.
pub open spec fn processed_preview_surface(
    index: Seq<char>,
    app_js: Seq<char>,
    target: Seq<char>,
    components: Seq<Seq<char>>,
) -> Result<(), Seq<char>> {
    and_then(
        when(
            components.contains("panel"@),
            page_and_script(
                index,
                seq![
                    "processed-file-preview-panel"@,
                    "processed-file-preview-status"@,
                    "processed-file-preview-body"@,
                ],
                app_js,
                seq![
                    "loadProcessedFilePreview"@,
                    "bridge/helpers/local_inbox/summary.json"@,
                    "processedFilePreviewBody"@,
                ],
                "helper processed preview surface contract"@,
                target,
            ),
        ),
        when(
            components.contains("selection"@),
            marker_group(
                app_js,
                seq!["selectedProcessedFile"@],
                "helper processed preview surface contract"@,
                "app.js"@,
            ),
        ),
    )
}

/// The processed-file preview panel of a generated page carries the markers
/// of each requested component ("panel" when none is requested).
pub fn verify_helper_processed_preview_surface_contract(
    index: &str,
    app_js: &str,
    target: &str,
    expected_components: Option<&str>,
) -> (r: Result<(), String>)
    ensures
        outcome(r) == processed_preview_surface(
            index@,
            app_js@,
            target@,
            components_of(component_text(expected_components, "panel"@)),
        ),
{
    let components = requested_components(expected_components, "panel");
    if component_listed(&components, "panel") {
        let page = vec![
            "processed-file-preview-panel",
            "processed-file-preview-status",
            "processed-file-preview-body",
        ];
        let script = vec![
            "loadProcessedFilePreview",
            "bridge/helpers/local_inbox/summary.json",
            "processedFilePreviewBody",
        ];
        assert(strs(page@) =~= seq![
            "processed-file-preview-panel"@,
            "processed-file-preview-status"@,
            "processed-file-preview-body"@,
        ]);
        assert(strs(script@) =~= seq![
            "loadProcessedFilePreview"@,
            "bridge/helpers/local_inbox/summary.json"@,
            "processedFilePreviewBody"@,
        ]);
        let r = check_page_and_script(
            index,
            &page,
            app_js,
            &script,
            "helper processed preview surface contract",
            target,
        );
        if r.is_err() {
            return r;
        }
    }
    if component_listed(&components, "selection") {
        let script = vec!["selectedProcessedFile"];
        assert(strs(script@) =~= seq!["selectedProcessedFile"@]);
        return require_markers(
            app_js,
            &script,
            "helper processed preview surface contract",
            "app.js",
        );
    }
    Ok(())
}

/// The selection wiring of the processed-files list: the script hooks in
/// `target`, then the selected-row style in `styles.css`.
pub open spec fn processed_selection_surface(
    app_js: Seq<char>,
    styles: Seq<char>,
    target: Seq<char>,
) -> Result<(), Seq<char>> {
    and_then(
        marker_group(
            app_js,
            seq![
                "let selectedProcessedFile = null;"@,
                "data-select-processed-file"@,
                "setSelectedProcessedFile"@,
                "const fileToPreview = selectedProcessedFile || files[0];"@,
            ],
            "helper processed selection surface contract"@,
            target,
        ),
        marker_group(
            styles,
            seq![".processed-files-list li.is-selected"@],
            "helper processed selection surface contract"@,
            "styles.css"@,
        ),
    )
}

/// The script `target` wires selection of processed files, and `styles.css`
/// styles the selected row.
pub fn verify_helper_processed_selection_surface_contract(
    app_js: &str,
    styles: &str,
    target: &str,
) -> (r: Result<(), String>)
    ensures
        outcome(r) == processed_selection_surface(app_js@, styles@, target@),
{
    let script = vec![
        "let selectedProcessedFile = null;",
        "data-select-processed-file",
        "setSelectedProcessedFile",
        "const fileToPreview = selectedProcessedFile || files[0];",
    ];
    let style = vec![".processed-files-list li.is-selected"];
    assert(strs(script@) =~= seq![
        "let selectedProcessedFile = null;"@,
        "data-select-processed-file"@,
        "setSelectedProcessedFile"@,
        "const fileToPreview = selectedProcessedFile || files[0];"@,
    ]);
    assert(strs(style@) =~= seq![".processed-files-list li.is-selected"@]);
    let r = require_markers(
        app_js,
        &script,
        "helper processed selection surface contract",
        target,
    );
    if r.is_err() {
        return r;
    }
    require_markers(
        styles,
        &style,
        "helper processed selection surface contract",
        "styles.css",
    )
}

/// The helper monitoring panel of a static dashboard: the summary markers and,
/// when requested, the preview markers.
pub open spec fn helper_monitoring_surface(
    index: Seq<char>,
    app_js: Seq<char>,
    target: Seq<char>,
    components: Seq<Seq<char>>,
) -> Result<(), Seq<char>> {
    and_then(
        when(
            components.contains("summary"@),
            page_and_script(
                index,
                seq![
                    "helper-monitor-panel"@,
                    "helper-summary-status"@,
                    "helper-summary-count"@,
                    "helper-summary-lanes"@,
                ],
                app_js,
                seq![
                    "loadStaticDashboardHelperMonitoring"@,
                    "bridge/helpers/local_inbox/summary.json"@,
                    "helperSummaryStatus"@,
                    "helperSummaryCount"@,
                    "helperSummaryLanes"@,
                ],
                "static dashboard helper monitoring surface contract"@,
                target,
            ),
        ),
        when(
            components.contains("preview"@),
            page_and_script(
                index,
                seq!["helper-preview-panel"@, "helper-preview-status"@, "helper-preview-body"@],
                app_js,
                seq!["helperPreviewStatus"@, "helperPreviewBody"@, "processed/${previewFile}"@],
                "static dashboard helper monitoring surface contract"@,
                target,
            ),
        ),
    )
}

/// The helper monitoring panel of a static dashboard carries the markers of
/// each requested component ("summary" when none is requested).
pub fn verify_static_dashboard_helper_monitoring_surface_contract(
    index: &str,
    app_js: &str,
    target: &str,
    expected_components: Option<&str>,
) -> (r: Result<(), String>)
    ensures
        outcome(r) == helper_monitoring_surface(
            index@,
            app_js@,
            target@,
            components_of(component_text(expected_components, "summary"@)),
        ),
{
    let components = requested_components(expected_components, "summary");
    if component_listed(&components, "summary") {
        let page = vec![
            "helper-monitor-panel",
            "helper-summary-status",
            "helper-summary-count",
            "helper-summary-lanes",
        ];
        let script = vec![
            "loadStaticDashboardHelperMonitoring",
            "bridge/helpers/local_inbox/summary.json",
            "helperSummaryStatus",
            "helperSummaryCount",
            "helperSummaryLanes",
        ];
        assert(strs(page@) =~= seq![
            "helper-monitor-panel"@,
            "helper-summary-status"@,
            "helper-summary-count"@,
            "helper-summary-lanes"@,
        ]);
        assert(strs(script@) =~= seq![
            "loadStaticDashboardHelperMonitoring"@,
            "bridge/helpers/local_inbox/summary.json"@,
            "helperSummaryStatus"@,
            "helperSummaryCount"@,
            "helperSummaryLanes"@,
        ]);
        let r = check_page_and_script(
            index,
            &page,
            app_js,
            &script,
            "static dashboard helper monitoring surface contract",
            target,
        );
        if r.is_err() {
            return r;
        }
    }
    if component_listed(&components, "preview") {
        let page = vec!["helper-preview-panel", "helper-preview-status", "helper-preview-body"];
        let script = vec!["helperPreviewStatus", "helperPreviewBody", "processed/${previewFile}"];
        assert(strs(page@) =~= seq![
            "helper-preview-panel"@,
            "helper-preview-status"@,
            "helper-preview-body"@,
        ]);
        assert(strs(script@) =~= seq![
            "helperPreviewStatus"@,
            "helperPreviewBody"@,
            "processed/${previewFile}"@,
        ]);
        return check_page_and_script(
            index,
            &page,
            app_js,
            &script,
            "static dashboard helper monitoring surface contract",
            target,
        );
    }
    Ok(())
}

// ---------------------------------------------------------------------------
// How surface failures are classified
// ---------------------------------------------------------------------------

/// Every failure of a marker group opens with the contract's name and "failed".
proof fn lemma_group_failure_heading(
    hay: Seq<char>,
    needles: Seq<Seq<char>>,
    contract: Seq<char>,
    place: Seq<char>,
    m: Seq<char>,
)
    requires
        marker_group(hay, needles, contract, place) == Err::<(), Seq<char>>(m),
    ensures
        has_prefix(m, contract + " failed"@),
{
    reveal_strlit(" failed");
    reveal_strlit(" failed: '");
    let n = first_absent(hay, needles)->0;
    let head = contract + " failed"@;
    assert(m == contract + " failed: '"@ + n + "' missing from "@ + place);
    assert(m.subrange(0, head.len() as int) =~= head);
}

/// Every failure of a page-and-script check opens with the contract's name and "failed".
proof fn lemma_page_failure_heading(
    index: Seq<char>,
    page: Seq<Seq<char>>,
    app_js: Seq<char>,
    script: Seq<Seq<char>>,
    contract: Seq<char>,
    target: Seq<char>,
    m: Seq<char>,
)
    requires
        page_and_script(index, page, app_js, script, contract, target) == Err::<(), Seq<char>>(m),
    ensures
        has_prefix(m, contract + " failed"@),
{
    if marker_group(index, page, contract, target) is Err {
        lemma_group_failure_heading(index, page, contract, target, m);
    } else {
        lemma_group_failure_heading(app_js, script, contract, "app.js"@, m);
    }
}

/// Every failure of the helper summary surface check is a helper wiring
/// failure to the failure classifier, unless its text mentions a schema or
/// metadata.
pub proof fn lemma_summary_surface_failures_are_wiring_failures(
    index: Seq<char>,
    app_js: Seq<char>,
    target: Seq<char>,
    components: Seq<Seq<char>>,
    m: Seq<char>,
)
    requires
        helper_summary_surface(index, app_js, target, components) == Err::<(), Seq<char>>(m),
        !has_sub(lowercase(m), "schema"@),
        !has_sub(lowercase(m), "metadata"@),
    ensures
        failure_class_of(lowercase(m)) == FailureClass::HelperWiringFailure,
{
    let c = "helper summary surface contract"@;
    let panel = when(
        components.contains("panel"@),
        page_and_script(
            index,
            seq!["helper-summary-panel"@, "helper-summary-status"@, "helper-summary-files"@],
            app_js,
            seq![
                "loadHelperSummary"@,
                "bridge/helpers/local_inbox/summary.json"@,
                "helperSummaryFiles"@,
            ],
            c,
            target,
        ),
    );
    if panel is Err {
        lemma_page_failure_heading(
            index,
            seq!["helper-summary-panel"@, "helper-summary-status"@, "helper-summary-files"@],
            app_js,
            seq![
                "loadHelperSummary"@,
                "bridge/helpers/local_inbox/summary.json"@,
                "helperSummaryFiles"@,
            ],
            c,
            target,
            m,
        );
    } else {
        let s1 = summary_chip(components, "status_chip"@, "helper-summary-status-chip"@, "helperSummaryStatusChip"@, index, app_js, target);
        let s2 = summary_chip(components, "lane_count_chip"@, "helper-summary-lane-count-chip"@, "helperSummaryLaneCountChip"@, index, app_js, target);
        let s3 = summary_chip(components, "types_chip"@, "helper-summary-types-chip"@, "helperSummaryTypesChip"@, index, app_js, target);
        let s4 = summary_chip(components, "count_delta"@, "helper-summary-count-delta"@, "helperSummaryCountDelta"@, index, app_js, target);
        if s1 is Err {
            lemma_page_failure_heading(index, seq!["helper-summary-status-chip"@], app_js, seq!["helperSummaryStatusChip"@], c, target, m);
        } else if s2 is Err {
            lemma_page_failure_heading(index, seq!["helper-summary-lane-count-chip"@], app_js, seq!["helperSummaryLaneCountChip"@], c, target, m);
        } else if s3 is Err {
            lemma_page_failure_heading(index, seq!["helper-summary-types-chip"@], app_js, seq!["helperSummaryTypesChip"@], c, target, m);
        } else {
            lemma_page_failure_heading(index, seq!["helper-summary-count-delta"@], app_js, seq!["helperSummaryCountDelta"@], c, target, m);
        }
    }
    reveal_strlit("helper summary surface contract");
    reveal_strlit(" failed");
    reveal_strlit("helper summary surface contract failed");
    assert(c + " failed"@ =~= "helper summary surface contract failed"@);
    lemma_helper_surface_failures_classify(m);
}

} // verus!
