use edgar_stream::find_from;
use edgar_stream::str_eq;
use edgar_stream::str_eq_ignore_ascii_case;

#[test]
fn exact_equality() {
    assert!(str_eq("gzip", "gzip"));
    assert!(!str_eq("gzip", "gzi"));
    assert!(!str_eq("gzip", "gzIp"));
    assert!(str_eq("", ""));
}

#[test]
fn case_insensitive_equality_is_ascii_only() {
    assert!(str_eq_ignore_ascii_case("GZip", "gzip"));
    assert!(str_eq_ignore_ascii_case("DEFLATE", "deflate"));
    assert!(!str_eq_ignore_ascii_case("gzip", "deflate"));
    // Non-ASCII letters are compared verbatim.
    assert!(!str_eq_ignore_ascii_case("straße", "STRASSE"));
    assert!(str_eq_ignore_ascii_case("straße", "STRAßE"));
}

#[test]
fn find_from_reports_the_leftmost_occurrence() {
    assert_eq!(find_from("a-index-b-index-c", "index", 0), Some(2));
    assert_eq!(find_from("a-index-b-index-c", "index", 3), Some(10));
    assert_eq!(find_from("a-index-b-index-c", "index", 11), None);
    assert_eq!(find_from("nothing here", "index", 0), None);
    assert_eq!(find_from("index", "index", 0), Some(0));
}
