//! Acceptance checks on a generated local helper: its service spec, its
//! status snapshot, and the summary it writes after processing its inbox.
use vstd::prelude::*;

use crate::surface::outcome;
use crate::text::{chars_of, decimal, join_strings, joined, owned, push_decimal, push_str, push_usize, text_eq, views};
use crate::text_sort::{lemma_sorted_distinct, sort_distinct_texts, sort_texts, sorted_distinct, sorted_texts};
use crate::records::lemma_ascending_unique;

verus! {

// ---------------------------------------------------------------------------
// Reading an unsigned count the way `str::parse::<u64>` does
// ---------------------------------------------------------------------------

/// Why a text is not an unsigned count.
#[derive(Debug, Clone, Copy, PartialEq, Eq, Structural)]
pub enum CountParseError {
    Empty,
    InvalidDigit,
    PosOverflow,
}

/// The value of a decimal digit.
pub open spec fn digit_value(c: char) -> Option<nat> {
    if '0' <= c && c <= '9' {
        Some((c as int - '0' as int) as nat)
    } else {
        None
    }
}

/// Reads the digits left to right; the first non-digit, or the first step
/// past `u64::MAX`, is the error.
pub open spec fn digits_value(d: Seq<char>) -> Result<nat, CountParseError>
    decreases d.len(),
{
    if d.len() == 0 {
        Ok(0)
    } else {
        match digits_value(d.drop_last()) {
            Err(e) => Err(e),
            Ok(v) => match digit_value(d.last()) {
                None => Err(CountParseError::InvalidDigit),
                Some(k) => if v * 10 + k > u64::MAX {
                    Err(CountParseError::PosOverflow)
                } else {
                    Ok(v * 10 + k)
                },
            },
        }
    }
}

/// An unsigned decimal count: an optional `+`, then digits.
pub open spec fn count_value(s: Seq<char>) -> Result<nat, CountParseError> {
    if s.len() == 0 {
        Err(CountParseError::Empty)
    } else if s[0] == '+' {
        if s.len() == 1 {
            Err(CountParseError::InvalidDigit)
        } else {
            digits_value(s.drop_first())
        }
    } else {
        digits_value(s)
    }
}

/// The message of a parse error, as `ParseIntError` displays it.
pub open spec fn parse_error_text(e: CountParseError) -> Seq<char> {
    match e {
        CountParseError::Empty => "cannot parse integer from empty string"@,
        CountParseError::InvalidDigit => "invalid digit found in string"@,
        CountParseError::PosOverflow => "number too large to fit in target type"@,
    }
}

proof fn lemma_digit_char_value(d: nat)
    requires
        d < 10,
    ensures
        digit_value(crate::text::digit_char(d)) == Some(d),
{
}

proof fn lemma_decimal_digits(n: nat)
    ensures
        decimal(n).len() >= 1,
        forall|i: int| 0 <= i < decimal(n).len() ==> #[trigger] digit_value(decimal(n)[i]) is Some,
    decreases n,
{
    if n >= 10 {
        lemma_decimal_digits(n / 10);
        lemma_digit_char_value(n % 10);
        let d = decimal(n / 10);
        assert forall|i: int| 0 <= i < decimal(n).len() implies #[trigger] digit_value(
            decimal(n)[i],
        ) is Some by {
            if i < d.len() {
                assert(decimal(n)[i] == d[i]);
            }
        }
    } else {
        lemma_digit_char_value(n);
    }
}

proof fn lemma_digits_of_decimal(n: nat)
    requires
        n <= u64::MAX,
    ensures
        digits_value(decimal(n)) == Ok::<nat, CountParseError>(n),
    decreases n,
{
    if n < 10 {
        lemma_digit_char_value(n);
        let d = decimal(n);
        assert(d.drop_last() =~= Seq::<char>::empty());
        assert(digits_value(d.drop_last()) == Ok::<nat, CountParseError>(0));
        assert(d.last() == crate::text::digit_char(n));
    } else {
        lemma_digits_of_decimal(n / 10);
        lemma_digit_char_value(n % 10);
        let d = decimal(n);
        assert(d.drop_last() =~= decimal(n / 10));
        assert(d.last() == crate::text::digit_char(n % 10));
        assert((n / 10) * 10 + n % 10 == n);
        assert(digits_value(d.drop_last()) == Ok::<nat, CountParseError>(n / 10));
        assert(digit_value(d.last()) == Some(n % 10));
    }
}

/// A count written in decimal (as the summary checks write counts) reads
/// back as the same count.
pub proof fn lemma_count_reads_back(n: nat)
    requires
        n <= u64::MAX,
    ensures
        count_value(decimal(n)) == Ok::<nat, CountParseError>(n),
{
    lemma_decimal_digits(n);
    lemma_digits_of_decimal(n);
    assert(digit_value(decimal(n)[0]) is Some);
}

/// Parses an unsigned decimal count.
pub fn parse_count(s: &str) -> (r: Result<u64, CountParseError>)
    ensures
        match r {
            Ok(v) => count_value(s@) == Ok::<nat, CountParseError>(v as nat),
            Err(e) => count_value(s@) == Err::<nat, CountParseError>(e),
        },
{
    let cs = chars_of(s);
    if cs.len() == 0 {
        return Err(CountParseError::Empty);
    }
    let mut i: usize = 0;
    if cs[0] == '+' {
        if cs.len() == 1 {
            return Err(CountParseError::InvalidDigit);
        }
        i = 1;
    }
    let ghost d = cs@.subrange(i as int, cs.len() as int);
    assert(cs@[0] == '+' ==> d =~= cs@.drop_first());
    assert(cs@[0] != '+' ==> d =~= cs@);
    assert(count_value(s@) == digits_value(d));
    let mut v: u64 = 0;
    let start = i;
    assert(d.subrange(0, 0) =~= Seq::<char>::empty());
    while i < cs.len()
        invariant
            start <= i <= cs.len(),
            cs@ == s@,
            count_value(s@) == digits_value(d),
            d == cs@.subrange(start as int, cs.len() as int),
            digits_value(d.subrange(0, i - start)) == Ok::<nat, CountParseError>(v as nat),
        decreases cs.len() - i,
    {
        let c = cs[i];
        let ghost pre = d.subrange(0, i - start);
        let ghost nxt = d.subrange(0, i - start + 1);
        assert(nxt.drop_last() =~= pre);
        assert(nxt.last() == c);
        if c < '0' || c > '9' {
            proof {
                let tail = d.subrange(i - start + 1, d.len() as int);
                assert(digit_value(c) is None);
                assert(digits_value(nxt) == Err::<nat, CountParseError>(CountParseError::InvalidDigit));
                lemma_digits_error_sticks(nxt, tail);
                assert(nxt + tail =~= d);
            }
            return Err(CountParseError::InvalidDigit);
        }
        let k: u64 = (c as u32 - '0' as u32) as u64;
        assert(digit_value(c) == Some(k as nat));
        if v > 1844674407370955161 || (v == 1844674407370955161 && k > 5) {
            proof {
                let tail = d.subrange(i - start + 1, d.len() as int);
                assert(v * 10 + k > u64::MAX) by (nonlinear_arith)
                    requires
                        v > 1844674407370955161 || (v == 1844674407370955161 && k > 5),
                ;
                assert(digits_value(nxt) == Err::<nat, CountParseError>(CountParseError::PosOverflow));
                lemma_digits_error_sticks(nxt, tail);
                assert(nxt + tail =~= d);
            }
            return Err(CountParseError::PosOverflow);
        }
        assert(v * 10 + k <= u64::MAX) by (nonlinear_arith)
            requires
                v <= 1844674407370955161,
                v == 1844674407370955161 ==> k <= 5,
                k <= 9,
        ;
        v = v * 10 + k;
        i = i + 1;
    }
    assert(d.subrange(0, i - start) =~= d);
    Ok(v)
}

/// Once the digits fail, more text does not change the error.
proof fn lemma_digits_error_sticks(p: Seq<char>, t: Seq<char>)
    requires
        digits_value(p) is Err,
    ensures
        digits_value(p + t) == digits_value(p),
    decreases t.len(),
{
    if t.len() > 0 {
        let q = t.drop_last();
        lemma_digits_error_sticks(p, q);
        assert((p + t).drop_last() =~= p + q);
    } else {
        assert(p + t =~= p);
    }
}

/// The message of a parse error.
pub fn parse_error_message(e: CountParseError) -> (r: String)
    ensures
        r@ == parse_error_text(e),
{
    match e {
        CountParseError::Empty => owned("cannot parse integer from empty string"),
        CountParseError::InvalidDigit => owned("invalid digit found in string"),
        CountParseError::PosOverflow => owned("number too large to fit in target type"),
    }
}

// ---------------------------------------------------------------------------
// Service spec and status snapshot
// ---------------------------------------------------------------------------

/// What the checks read of a helper's service spec.
pub struct HelperServiceSpec {
    pub helper_id: String,
    pub primitive_count: usize,
}

/// What the checks read of a helper's status snapshot.
pub struct HelperStatusSnapshot {
    pub status: String,
}

/// The service spec names the expected helper (when one is expected) and
/// declares at least one primitive.
pub open spec fn helper_service_spec_result(
    spec: HelperServiceSpec,
    target: Seq<char>,
    expected: Option<Seq<char>>,
) -> Result<(), Seq<char>> {
    if expected is Some && spec.helper_id@ != expected->0 {
        Err(
            "helper service spec at '"@ + target + "' did not match expected helper id '"@
                + expected->0 + "'"@,
        )
    } else if spec.primitive_count == 0 {
        Err("helper service spec at '"@ + target + "' must declare at least one helper primitive"@)
    } else {
        Ok(())
    }
}

/// The text of an optional expected value.
pub open spec fn opt_str(o: Option<&str>) -> Option<Seq<char>> {
    match o {
        Some(s) => Some(s@),
        None => None,
    }
}

/// Checks a helper's service spec.
pub fn verify_helper_service_spec(
    spec: &HelperServiceSpec,
    target: &str,
    expected_helper_id: Option<&str>,
) -> (r: Result<(), String>)
    ensures
        outcome(r) == helper_service_spec_result(*spec, target@, opt_str(expected_helper_id)),
{
    if let Some(expected) = expected_helper_id {
        if !text_eq(spec.helper_id.as_str(), expected) {
            let mut m = owned("helper service spec at '");
            push_str(&mut m, target);
            push_str(&mut m, "' did not match expected helper id '");
            push_str(&mut m, expected);
            push_str(&mut m, "'");
            return Err(m);
        }
    }
    if spec.primitive_count == 0 {
        let mut m = owned("helper service spec at '");
        push_str(&mut m, target);
        push_str(&mut m, "' must declare at least one helper primitive");
        return Err(m);
    }
    Ok(())
}

/// The status snapshot reports the expected status, when one is expected.
pub open spec fn helper_status_result(
    snapshot: HelperStatusSnapshot,
    target: Seq<char>,
    expected: Option<Seq<char>>,
) -> Result<(), Seq<char>> {
    if expected is Some && snapshot.status@ != expected->0 {
        Err(
            "helper status snapshot at '"@ + target + "' did not match expected status '"@
                + expected->0 + "'"@,
        )
    } else {
        Ok(())
    }
}

/// Checks a helper's status snapshot.
pub fn verify_helper_status_snapshot(
    snapshot: &HelperStatusSnapshot,
    target: &str,
    expected_status: Option<&str>,
) -> (r: Result<(), String>)
    ensures
        outcome(r) == helper_status_result(*snapshot, target@, opt_str(expected_status)),
{
    if let Some(expected) = expected_status {
        if !text_eq(snapshot.status.as_str(), expected) {
            let mut m = owned("helper status snapshot at '");
            push_str(&mut m, target);
            push_str(&mut m, "' did not match expected status '");
            push_str(&mut m, expected);
            push_str(&mut m, "'");
            return Err(m);
        }
    }
    Ok(())
}

// ---------------------------------------------------------------------------
// The helper's inbox summary
// ---------------------------------------------------------------------------

/// What the checks read of the summary a helper writes after processing its
/// inbox: the counts that are present as unsigned integers, the text entries
/// of its lists (absent lists are empty), and each lane's allowed extensions.
pub struct HelperSummaryFacts {
    pub observed_file_count: Option<u64>,
    pub discovered_file_count: Option<u64>,
    pub filtered_out_file_count: Option<u64>,
    pub observed_lanes: Vec<String>,
    pub lane_allowed_extensions: Vec<(String, Vec<String>)>,
    pub filtered_out_files: Vec<String>,
    pub observed_files: Vec<String>,
}

/// The counts a summary check can compare.
#[derive(Debug, Clone, Copy, PartialEq, Eq, Structural)]
pub enum SummaryCountField {
    ObservedFiles,
    DiscoveredFiles,
    FilteredOutFiles,
}

/// The summary's name for a count.
pub open spec fn count_field_name(f: SummaryCountField) -> Seq<char> {
    match f {
        SummaryCountField::ObservedFiles => "observed_file_count"@,
        SummaryCountField::DiscoveredFiles => "discovered_file_count"@,
        SummaryCountField::FilteredOutFiles => "filtered_out_file_count"@,
    }
}

/// The count's value, when the summary has it.
pub open spec fn count_of(summary: HelperSummaryFacts, f: SummaryCountField) -> Option<u64> {
    match f {
        SummaryCountField::ObservedFiles => summary.observed_file_count,
        SummaryCountField::DiscoveredFiles => summary.discovered_file_count,
        SummaryCountField::FilteredOutFiles => summary.filtered_out_file_count,
    }
}

/// The summary's name for a count.
pub fn count_field_label(f: SummaryCountField) -> (r: &'static str)
    ensures
        r@ == count_field_name(f),
{
    match f {
        SummaryCountField::ObservedFiles => "observed_file_count",
        SummaryCountField::DiscoveredFiles => "discovered_file_count",
        SummaryCountField::FilteredOutFiles => "filtered_out_file_count",
    }
}

/// When a count is expected, the summary has it and it equals the expected
/// number; a missing count is reported before the expected text is read.
pub open spec fn summary_count_result(
    summary: HelperSummaryFacts,
    target: Seq<char>,
    field: SummaryCountField,
    expected: Option<Seq<char>>,
) -> Result<(), Seq<char>> {
    match expected {
        None => Ok(()),
        Some(e) => match count_of(summary, field) {
            None => Err(
                "helper summary snapshot at '"@ + target + "' missing "@ + count_field_name(field),
            ),
            Some(observed) => match count_value(e) {
                Err(pe) => Err(parse_error_text(pe)),
                Ok(v) => if observed as nat == v {
                    Ok(())
                } else {
                    Err(
                        "helper summary snapshot at '"@ + target + "' expected "@
                            + count_field_name(field) + "="@ + decimal(v) + " but found "@
                            + decimal(observed as nat),
                    )
                },
            },
        },
    }
}

/// Compares one count of the summary with the expected number.
pub fn verify_helper_summary_numeric_field(
    summary: &HelperSummaryFacts,
    target: &str,
    field: SummaryCountField,
    expected_count: Option<&str>,
) -> (r: Result<(), String>)
    ensures
        outcome(r) == summary_count_result(*summary, target@, field, opt_str(expected_count)),
{
    let expected = match expected_count {
        None => {
            return Ok(());
        },
        Some(e) => e,
    };
    let observed_opt = match field {
        SummaryCountField::ObservedFiles => summary.observed_file_count,
        SummaryCountField::DiscoveredFiles => summary.discovered_file_count,
        SummaryCountField::FilteredOutFiles => summary.filtered_out_file_count,
    };
    let name = count_field_label(field);
    let observed = match observed_opt {
        None => {
            let mut m = owned("helper summary snapshot at '");
            push_str(&mut m, target);
            push_str(&mut m, "' missing ");
            push_str(&mut m, name);
            return Err(m);
        },
        Some(o) => o,
    };
    let value = match parse_count(expected) {
        Err(e) => {
            return Err(parse_error_message(e));
        },
        Ok(v) => v,
    };
    if observed != value {
        let mut m = owned("helper summary snapshot at '");
        push_str(&mut m, target);
        push_str(&mut m, "' expected ");
        push_str(&mut m, name);
        push_str(&mut m, "=");
        push_decimal(&mut m, value);
        push_str(&mut m, " but found ");
        push_decimal(&mut m, observed);
        return Err(m);
    }
    Ok(())
}

/// The observed-files count of the summary equals the expected number.
pub fn verify_helper_summary_snapshot(
    summary: &HelperSummaryFacts,
    target: &str,
    expected_count: Option<&str>,
) -> (r: Result<(), String>)
    ensures
        outcome(r) == summary_count_result(
            *summary,
            target@,
            SummaryCountField::ObservedFiles,
            opt_str(expected_count),
        ),
{
    verify_helper_summary_numeric_field(
        summary,
        target,
        SummaryCountField::ObservedFiles,
        expected_count,
    )
}

/// A list of the summary, sorted without repeats and joined by commas,
/// equals the expected text.
pub open spec fn listed_result(
    items: Seq<Seq<char>>,
    target: Seq<char>,
    what: Seq<char>,
    expected: Option<Seq<char>>,
) -> Result<(), Seq<char>> {
    match expected {
        None => Ok(()),
        Some(e) => {
            let observed = joined(sorted_distinct(items), ","@);
            if observed == e {
                Ok(())
            } else {
                Err(
                    "helper summary snapshot at '"@ + target + "' expected "@ + what + "'"@ + e
                        + "' but found '"@ + observed + "'"@,
                )
            }
        },
    }
}

fn check_listed(items: &Vec<String>, target: &str, what: &str, expected: Option<&str>) -> (r:
    Result<(), String>)
    ensures
        outcome(r) == listed_result(views(items@), target@, what@, opt_str(expected)),
{
    match expected {
        None => Ok(()),
        Some(e) => {
            let mut copy: Vec<String> = Vec::new();
            let mut i: usize = 0;
            while i < items.len()
                invariant
                    i <= items.len(),
                    views(copy@) == views(items@).subrange(0, i as int),
                decreases items.len() - i,
            {
                let ghost before = views(copy@);
                let item = items[i].clone();
                assert(item@ == views(items@)[i as int]);
                copy.push(item);
                assert(views(copy@) =~= before.push(item@));
                assert(views(copy@) =~= views(items@).subrange(0, i + 1));
                i = i + 1;
            }
            assert(views(items@).subrange(0, items.len() as int) =~= views(items@));
            let sorted = sort_distinct_texts(copy);
            let observed = join_strings(&sorted, ",");
            if text_eq(observed.as_str(), e) {
                Ok(())
            } else {
                let mut m = owned("helper summary snapshot at '");
                push_str(&mut m, target);
                push_str(&mut m, "' expected ");
                push_str(&mut m, what);
                push_str(&mut m, "'");
                push_str(&mut m, e);
                push_str(&mut m, "' but found '");
                push_str(&mut m, observed.as_str());
                push_str(&mut m, "'");
                Err(m)
            }
        },
    }
}

/// The summary's observed lanes, sorted without repeats, are the expected
/// comma-separated lanes.
pub fn verify_helper_summary_observed_lanes(
    summary: &HelperSummaryFacts,
    target: &str,
    expected_lanes: Option<&str>,
) -> (r: Result<(), String>)
    ensures
        outcome(r) == listed_result(
            views(summary.observed_lanes@),
            target@,
            "observed_lanes="@,
            opt_str(expected_lanes),
        ),
{
    check_listed(&summary.observed_lanes, target, "observed_lanes=", expected_lanes)
}

/// The summary's filtered-out files, sorted without repeats, are the
/// expected comma-separated files.
pub fn verify_helper_summary_filtered_files(
    summary: &HelperSummaryFacts,
    target: &str,
    expected_files: Option<&str>,
) -> (r: Result<(), String>)
    ensures
        outcome(r) == listed_result(
            views(summary.filtered_out_files@),
            target@,
            "filtered files "@,
            opt_str(expected_files),
        ),
{
    check_listed(&summary.filtered_out_files, target, "filtered files ", expected_files)
}

/// One lane rule as text: `lane=ext1|ext2`.
pub open spec fn rule_text(rule: (String, Vec<String>)) -> Seq<char> {
    rule.0@ + "="@ + joined(views(rule.1@), "|"@)
}

/// The lane rules as text, in the summary's order.
pub open spec fn rule_texts(rules: Seq<(String, Vec<String>)>) -> Seq<Seq<char>> {
    Seq::new(rules.len(), |i: int| rule_text(rules[i]))
}

/// The lane rules, rendered, sorted and joined by commas, equal the expected text.
pub open spec fn lane_rules_result(
    rules: Seq<(String, Vec<String>)>,
    target: Seq<char>,
    expected: Option<Seq<char>>,
) -> Result<(), Seq<char>> {
    match expected {
        None => Ok(()),
        Some(e) => {
            let observed = joined(sorted_texts(rule_texts(rules)), ","@);
            if observed == e {
                Ok(())
            } else {
                Err(
                    "helper summary snapshot at '"@ + target + "' expected lane rules '"@ + e
                        + "' but found '"@ + observed + "'"@,
                )
            }
        },
    }
}

/// Compares the summary's per-lane allowed extensions with the expected rules.
pub fn verify_helper_summary_lane_rules(
    summary: &HelperSummaryFacts,
    target: &str,
    expected_rules: Option<&str>,
) -> (r: Result<(), String>)
    ensures
        outcome(r) == lane_rules_result(
            summary.lane_allowed_extensions@,
            target@,
            opt_str(expected_rules),
        ),
{
    match expected_rules {
        None => Ok(()),
        Some(e) => {
            let rules = &summary.lane_allowed_extensions;
            let mut rendered: Vec<String> = Vec::new();
            let mut i: usize = 0;
            while i < rules.len()
                invariant
                    i <= rules.len(),
                    views(rendered@) == rule_texts(rules@).subrange(0, i as int),
                decreases rules.len() - i,
            {
                let mut line = owned(rules[i].0.as_str());
                push_str(&mut line, "=");
                let exts = join_strings(&rules[i].1, "|");
                push_str(&mut line, exts.as_str());
                let ghost before = views(rendered@);
                assert(line@ == rule_texts(rules@)[i as int]);
                rendered.push(line);
                assert(views(rendered@) =~= before.push(line@));
                assert(views(rendered@) =~= rule_texts(rules@).subrange(0, i + 1));
                i = i + 1;
            }
            assert(rule_texts(rules@).subrange(0, rules.len() as int) =~= rule_texts(rules@));
            let sorted = sort_texts(rendered);
            let observed = join_strings(&sorted, ",");
            if text_eq(observed.as_str(), e) {
                Ok(())
            } else {
                let mut m = owned("helper summary snapshot at '");
                push_str(&mut m, target);
                push_str(&mut m, "' expected lane rules '");
                push_str(&mut m, e);
                push_str(&mut m, "' but found '");
                push_str(&mut m, observed.as_str());
                push_str(&mut m, "'");
                Err(m)
            }
        },
    }
}

/// The processed-output check: the summary lists observed files, its count
/// agrees with the list (the count read as `usize`, zero when absent), and
/// then each listed file is looked up under `processed/` beside the summary.
pub open spec fn processed_output_result(summary: HelperSummaryFacts) -> Result<
    Seq<Seq<char>>,
    Seq<char>,
> {
    let files = views(summary.observed_files@);
    let count: usize = match summary.observed_file_count {
        Some(c) => #[verifier::truncate] (c as usize),
        None => 0,
    };
    if files.len() == 0 {
        Err("helper processed output contract failed: observed_files was empty"@)
    } else if count as nat != files.len() {
        Err(
            "helper processed output contract failed: observed_file_count="@ + decimal(
                count as nat,
            ) + " but observed_files.len()="@ + decimal(files.len()),
        )
    } else {
        Ok(files)
    }
}

/// The files a processed-output check must find under `processed/`, or the
/// reason the summary itself fails the check.
pub fn verify_helper_processed_output_contract(summary: &HelperSummaryFacts) -> (r: Result<
    Vec<String>,
    String,
>)
    ensures
        match r {
            Ok(files) => processed_output_result(*summary) == Ok::<Seq<Seq<char>>, Seq<char>>(
                views(files@),
            ),
            Err(m) => processed_output_result(*summary) == Err::<Seq<Seq<char>>, Seq<char>>(m@),
        },
{
    let files = &summary.observed_files;
    if files.len() == 0 {
        return Err(owned("helper processed output contract failed: observed_files was empty"));
    }
    let count: usize = match summary.observed_file_count {
        Some(c) => #[verifier::truncate] (c as usize),
        None => 0,
    };
    if count != files.len() {
        let mut m = owned("helper processed output contract failed: observed_file_count=");
        push_usize(&mut m, count);
        push_str(&mut m, " but observed_files.len()=");
        push_usize(&mut m, files.len());
        return Err(m);
    }
    let mut out: Vec<String> = Vec::new();
    let mut i: usize = 0;
    while i < files.len()
        invariant
            i <= files.len(),
            views(out@) == views(files@).subrange(0, i as int),
        decreases files.len() - i,
    {
        let ghost before = views(out@);
        let item = files[i].clone();
        assert(item@ == views(files@)[i as int]);
        out.push(item);
        assert(views(out@) =~= before.push(item@));
        assert(views(out@) =~= views(files@).subrange(0, i + 1));
        i = i + 1;
    }
    assert(views(files@).subrange(0, files.len() as int) =~= views(files@));
    Ok(out)
}

/// The message for an observed file missing from the processed folder.
pub fn processed_output_missing_message(relative_path: &str, processed_root: &str) -> (r: String)
    ensures
        r@ == "helper processed output contract failed: '"@ + relative_path@ + "' missing from "@
            + processed_root@,
{
    let mut m = owned("helper processed output contract failed: '");
    push_str(&mut m, relative_path);
    push_str(&mut m, "' missing from ");
    push_str(&mut m, processed_root);
    m
}

/// With a count expected, written in decimal, and the summary holding the
/// count: the check passes exactly when the two numbers are equal, and
/// otherwise names the field, the expected number and the one found,
/// whether the count found is below or above.
pub proof fn lemma_count_check_passes_only_on_equal(
    summary: HelperSummaryFacts,
    target: Seq<char>,
    field: SummaryCountField,
    expected: nat,
    observed: u64,
)
    requires
        expected <= u64::MAX,
        count_of(summary, field) == Some(observed),
    ensures
        summary_count_result(summary, target, field, Some(decimal(expected))) is Ok <==> observed
            == expected,
        observed != expected ==> summary_count_result(summary, target, field, Some(decimal(expected)))
            == Err::<(), Seq<char>>(
            "helper summary snapshot at '"@ + target + "' expected "@ + count_field_name(field)
                + "="@ + decimal(expected) + " but found "@ + decimal(observed as nat),
        ),
{
    lemma_count_reads_back(expected);
}

/// Each count is read from its own field of the summary, under its own name.
pub proof fn lemma_count_fields_are_their_own(summary: HelperSummaryFacts)
    ensures
        count_of(summary, SummaryCountField::ObservedFiles) == summary.observed_file_count,
        count_of(summary, SummaryCountField::DiscoveredFiles) == summary.discovered_file_count,
        count_of(summary, SummaryCountField::FilteredOutFiles) == summary.filtered_out_file_count,
        count_field_name(SummaryCountField::ObservedFiles) == "observed_file_count"@,
        count_field_name(SummaryCountField::DiscoveredFiles) == "discovered_file_count"@,
        count_field_name(SummaryCountField::FilteredOutFiles) == "filtered_out_file_count"@,
{
}

/// A listed check looks only at which items the summary holds: two item
/// lists with the same items, in any order and with any repeats, give the
/// same outcome; and the expected text made of the items, sorted without
/// repeats and joined by commas, passes.
pub proof fn lemma_listed_ignores_order_and_repeats(
    a: Seq<Seq<char>>,
    b: Seq<Seq<char>>,
    target: Seq<char>,
    what: Seq<char>,
    expected: Option<Seq<char>>,
)
    requires
        forall|y: Seq<char>| a.contains(y) == b.contains(y),
    ensures
        listed_result(a, target, what, expected) == listed_result(b, target, what, expected),
        listed_result(a, target, what, Some(joined(sorted_distinct(b), ","@))) is Ok,
{
    lemma_sorted_distinct(a);
    lemma_sorted_distinct(b);
    lemma_ascending_unique(sorted_distinct(a), sorted_distinct(b));
}

} // verus!
