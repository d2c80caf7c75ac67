use chatty_factory::helper_checks::{
    parse_count, processed_output_missing_message, verify_helper_processed_output_contract,
    verify_helper_service_spec, verify_helper_status_snapshot, verify_helper_summary_filtered_files,
    verify_helper_summary_lane_rules, verify_helper_summary_numeric_field,
    verify_helper_summary_observed_lanes, verify_helper_summary_snapshot, CountParseError,
    HelperServiceSpec, HelperStatusSnapshot, HelperSummaryFacts, SummaryCountField,
};
use chatty_factory::text::push_decimal;

fn strings(items: &[&str]) -> Vec<String> {
    items.iter().map(|s| s.to_string()).collect()
}

fn summary() -> HelperSummaryFacts {
    HelperSummaryFacts {
        observed_file_count: Some(3),
        discovered_file_count: Some(5),
        filtered_out_file_count: None,
        observed_lanes: strings(&["text", "images", "text", "audio"]),
        lane_allowed_extensions: vec![
            ("text".to_string(), strings(&[".txt", ".md"])),
            ("images".to_string(), strings(&[".png"])),
            ("empty".to_string(), Vec::new()),
        ],
        filtered_out_files: strings(&["b.tmp", "a.tmp", "b.tmp"]),
        observed_files: strings(&["x.txt", "y.png", "z.md"]),
    }
}

#[test]
fn count_parsing_follows_u64_parse() {
    assert_eq!(parse_count("42"), Ok(42));
    assert_eq!(parse_count("+7"), Ok(7));
    assert_eq!(parse_count("0"), Ok(0));
    assert_eq!(parse_count("18446744073709551615"), Ok(u64::MAX));
    assert_eq!(parse_count(""), Err(CountParseError::Empty));
    assert_eq!(parse_count("+"), Err(CountParseError::InvalidDigit));
    assert_eq!(parse_count("-1"), Err(CountParseError::InvalidDigit));
    assert_eq!(parse_count(" 4"), Err(CountParseError::InvalidDigit));
    assert_eq!(parse_count("18446744073709551616"), Err(CountParseError::PosOverflow));
    assert_eq!(parse_count("99999999999999999999x"), Err(CountParseError::PosOverflow));
    for text in ["42", "+7", "", "+", "-1", "12a", "18446744073709551616"] {
        assert_eq!(parse_count(text).ok(), text.parse::<u64>().ok());
    }
}

#[test]
fn counts_written_in_decimal_read_back() {
    for n in [0u64, 9, 10, 12345, u64::MAX] {
        let mut s = String::new();
        push_decimal(&mut s, n);
        assert_eq!(parse_count(&s), Ok(n));
    }
}

#[test]
fn numeric_field_compares_the_expected_count() {
    let s = summary();
    assert_eq!(verify_helper_summary_snapshot(&s, "summary.json", Some("3")), Ok(()));
    assert_eq!(verify_helper_summary_snapshot(&s, "summary.json", None), Ok(()));
    assert_eq!(
        verify_helper_summary_numeric_field(&s, "summary.json", SummaryCountField::DiscoveredFiles, Some("4")),
        Err("helper summary snapshot at 'summary.json' expected discovered_file_count=4 but found 5"
            .to_string())
    );
    assert_eq!(
        verify_helper_summary_numeric_field(&s, "summary.json", SummaryCountField::FilteredOutFiles, Some("abc")),
        Err("helper summary snapshot at 'summary.json' missing filtered_out_file_count".to_string())
    );
    assert_eq!(
        verify_helper_summary_numeric_field(&s, "summary.json", SummaryCountField::ObservedFiles, Some("abc")),
        Err("invalid digit found in string".to_string())
    );
    assert_eq!(
        verify_helper_summary_numeric_field(&s, "summary.json", SummaryCountField::ObservedFiles, Some("")),
        Err("cannot parse integer from empty string".to_string())
    );
    assert_eq!(
        verify_helper_summary_numeric_field(&s, "s.json", SummaryCountField::ObservedFiles, Some("99999999999999999999")),
        Err("number too large to fit in target type".to_string())
    );
}

#[test]
fn observed_lanes_are_sorted_without_repeats() {
    let s = summary();
    assert_eq!(verify_helper_summary_observed_lanes(&s, "s.json", Some("audio,images,text")), Ok(()));
    assert_eq!(
        verify_helper_summary_observed_lanes(&s, "s.json", Some("text,images")),
        Err("helper summary snapshot at 's.json' expected observed_lanes='text,images' but found 'audio,images,text'"
            .to_string())
    );
}

#[test]
fn filtered_files_are_sorted_without_repeats() {
    let s = summary();
    assert_eq!(verify_helper_summary_filtered_files(&s, "s.json", Some("a.tmp,b.tmp")), Ok(()));
    assert_eq!(
        verify_helper_summary_filtered_files(&s, "s.json", Some("")),
        Err("helper summary snapshot at 's.json' expected filtered files '' but found 'a.tmp,b.tmp'"
            .to_string())
    );
}

#[test]
fn lane_rules_are_rendered_sorted_and_joined() {
    let s = summary();
    assert_eq!(
        verify_helper_summary_lane_rules(&s, "s.json", Some("empty=,images=.png,text=.txt|.md")),
        Ok(())
    );
    assert_eq!(
        verify_helper_summary_lane_rules(&s, "s.json", Some("text=.txt")),
        Err("helper summary snapshot at 's.json' expected lane rules 'text=.txt' but found 'empty=,images=.png,text=.txt|.md'"
            .to_string())
    );
}

#[test]
fn processed_output_lists_files_to_look_up() {
    let s = summary();
    assert_eq!(verify_helper_processed_output_contract(&s), Ok(strings(&["x.txt", "y.png", "z.md"])));
    let mut empty = summary();
    empty.observed_files = Vec::new();
    assert_eq!(
        verify_helper_processed_output_contract(&empty),
        Err("helper processed output contract failed: observed_files was empty".to_string())
    );
    let mut off = summary();
    off.observed_file_count = None;
    assert_eq!(
        verify_helper_processed_output_contract(&off),
        Err("helper processed output contract failed: observed_file_count=0 but observed_files.len()=3"
            .to_string())
    );
    assert_eq!(
        processed_output_missing_message("x.txt", "/p/processed"),
        "helper processed output contract failed: 'x.txt' missing from /p/processed"
    );
}

#[test]
fn service_spec_and_status_snapshot_checks() {
    let spec = HelperServiceSpec { helper_id: "local_inbox".to_string(), primitive_count: 2 };
    assert_eq!(verify_helper_service_spec(&spec, "h.json", Some("local_inbox")), Ok(()));
    assert_eq!(
        verify_helper_service_spec(&spec, "h.json", Some("other")),
        Err("helper service spec at 'h.json' did not match expected helper id 'other'".to_string())
    );
    let bare = HelperServiceSpec { helper_id: "x".to_string(), primitive_count: 0 };
    assert_eq!(
        verify_helper_service_spec(&bare, "h.json", None),
        Err("helper service spec at 'h.json' must declare at least one helper primitive".to_string())
    );
    let snap = HelperStatusSnapshot { status: "running".to_string() };
    assert_eq!(verify_helper_status_snapshot(&snap, "st.json", Some("running")), Ok(()));
    assert_eq!(verify_helper_status_snapshot(&snap, "st.json", None), Ok(()));
    assert_eq!(
        verify_helper_status_snapshot(&snap, "st.json", Some("idle")),
        Err("helper status snapshot at 'st.json' did not match expected status 'idle'".to_string())
    );
}
