use stcat::severity::Severity;
use stcat::text::{str_eq, str_eq_ignore_ascii_case};

#[test]
fn filter_names_parse_case_insensitively() {
    assert_eq!(Severity::from_name("error"), Some(Severity::Error));
    assert_eq!(Severity::from_name("ERROR"), Some(Severity::Error));
    assert_eq!(Severity::from_name("Warning"), Some(Severity::Warning));
    assert_eq!(Severity::from_name("info"), Some(Severity::Info));
    assert_eq!(Severity::from_name("dEbUg"), Some(Severity::Debug));
    assert_eq!(Severity::from_name("TRACE"), Some(Severity::Trace));
}

#[test]
fn unrecognized_filter_names_parse_to_nothing() {
    assert_eq!(Severity::from_name(""), None);
    assert_eq!(Severity::from_name("verbose"), None);
    assert_eq!(Severity::from_name("warn"), None);
    assert_eq!(Severity::from_name("traces"), None);
}

#[test]
fn verbosity_orders_the_levels() {
    let levels = [
        Severity::Error,
        Severity::Warning,
        Severity::Info,
        Severity::Debug,
        Severity::Trace,
    ];
    for (i, a) in levels.iter().enumerate() {
        for (j, b) in levels.iter().enumerate() {
            assert_eq!(a.passes_filter(*b), i <= j);
        }
    }
}

#[test]
fn labels_are_upper_case_names() {
    assert_eq!(Severity::Error.label(), "ERROR");
    assert_eq!(Severity::Warning.label(), "WARNING");
    assert_eq!(Severity::Info.label(), "INFO");
    assert_eq!(Severity::Debug.label(), "DEBUG");
    assert_eq!(Severity::Trace.label(), "TRACE");
}

#[test]
fn string_equality_is_exact() {
    assert!(str_eq("__stlog_info_start__", "__stlog_info_start__"));
    assert!(!str_eq("__stlog_info_start__", "__stlog_debug_start__"));
    assert!(!str_eq("abc", "abcd"));
    assert!(!str_eq("abc", "abC"));
    assert!(str_eq("", ""));
}

#[test]
fn case_insensitive_equality_folds_only_ascii_letters() {
    assert!(str_eq_ignore_ascii_case("TrAcE", "trace"));
    assert!(str_eq_ignore_ascii_case("", ""));
    assert!(!str_eq_ignore_ascii_case("trace", "trace "));
    assert!(!str_eq_ignore_ascii_case("tr4ce", "trace"));
}
