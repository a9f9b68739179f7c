use netscaler_probe::catalog::{parse_line, parse_source, VersionCatalog, VersionRecord};

fn record(timestamp: &str, version: &str) -> VersionRecord {
    VersionRecord { build_timestamp: timestamp.to_string(), version_string: version.to_string() }
}

#[test]
fn line_of_four_fields_gives_first_and_last() {
    assert_eq!(
        parse_line("2024-07-04T16:31:28+00:00,1720110688,abcdef,14.1-25.56"),
        Some(record("2024-07-04T16:31:28+00:00", "14.1-25.56"))
    );
}

#[test]
fn empty_fields_are_fields() {
    assert_eq!(parse_line(",,,"), Some(record("", "")));
    assert_eq!(parse_line("a,1,,v"), Some(record("a", "v")));
}

#[test]
fn line_of_another_shape_gives_nothing() {
    assert_eq!(parse_line(""), None);
    assert_eq!(parse_line("a"), None);
    assert_eq!(parse_line("a,b"), None);
    assert_eq!(parse_line("a,b,c"), None);
    assert_eq!(parse_line("a,b,c,d,e"), None);
    assert_eq!(parse_line(",,,,"), None);
}

#[test]
fn fields_keep_characters_beyond_ascii() {
    assert_eq!(parse_line("zeit\u{e4},1,\u{20ac},v\u{fc}"), Some(record("zeit\u{e4}", "v\u{fc}")));
}

#[test]
fn table_keeps_the_order_of_its_lines() {
    let catalog = parse_source("t1,1,h1,v1\nt2,2,h2,v2\nt3,3,,v3\n");
    assert_eq!(
        catalog,
        VersionCatalog { records: vec![record("t1", "v1"), record("t2", "v2"), record("t3", "v3")] }
    );
}

#[test]
fn malformed_lines_are_passed_over() {
    let catalog = parse_source("header\nt1,1,h1,v1\n\na,b,c\nt2,2,h2,v2,extra\nt3,3,h3,v3");
    assert_eq!(catalog.records, vec![record("t1", "v1"), record("t3", "v3")]);
}

#[test]
fn empty_table_has_no_rows() {
    assert_eq!(parse_source("").records, Vec::<VersionRecord>::new());
    assert_eq!(parse_source("\n\n").records, Vec::<VersionRecord>::new());
}

#[test]
fn carriage_return_before_line_feed_is_left_out() {
    let catalog = parse_source("t1,1,h1,v1\r\nt2,2,h2,v2\r\n");
    assert_eq!(catalog.records, vec![record("t1", "v1"), record("t2", "v2")]);
}

#[test]
fn carriage_return_at_the_end_of_the_text_stays() {
    let catalog = parse_source("t1,1,h1,v1\r");
    assert_eq!(catalog.records, vec![record("t1", "v1\r")]);
}

#[test]
fn table_agrees_with_line_by_line_reading() {
    let text = "t1,1,h1,v1\nbad\nt2,2,h2,v2\r\n,,,\nlast,0,0,v9";
    let expected: Vec<VersionRecord> = text.lines().filter_map(parse_line).collect();
    assert_eq!(parse_source(text).records, expected);
    assert_eq!(expected.len(), 4);
}

#[test]
fn lookup_is_by_exact_text() {
    let catalog = parse_source("2024-07-04T16:31:28+00:00,1720110688,,14.1-25.56\n");
    assert_eq!(catalog.lookup("2024-07-04T16:31:28+00:00"), Some("14.1-25.56".to_string()));
    assert_eq!(catalog.lookup("2024-07-04T16:31:28Z"), None);
    assert_eq!(catalog.lookup("2024-07-04T16:31:28+00:0"), None);
    assert_eq!(catalog.lookup(""), None);
}

#[test]
fn lookup_on_empty_table_finds_nothing() {
    assert_eq!(VersionCatalog { records: vec![] }.lookup("t1"), None);
}

#[test]
fn first_of_two_equal_build_times_wins() {
    let catalog = parse_source("t0,0,,v0\nt1,1,,first\nt1,1,,second\n");
    assert_eq!(catalog.lookup("t1"), Some("first".to_string()));
    assert_eq!(catalog.lookup("t0"), Some("v0".to_string()));
}

#[test]
fn same_build_time_gives_same_release_each_time() {
    let catalog = parse_source("t1,1,,v1\nt2,2,,v2\n");
    let first = catalog.lookup("t2");
    let second = catalog.lookup("t2");
    assert_eq!(first, second);
    assert_eq!(first, Some("v2".to_string()));
    assert_eq!(catalog.lookup("t3"), catalog.lookup("t3"));
    assert_eq!(catalog.lookup("t3"), None);
}
