use mdbook_bibfile_referencing::{builtin_citeproc_support, version_field, ProbeError};

#[test]
fn version_is_second_word_of_first_line() {
    let out = "pandoc 3.1.9\nFeatures: +server +lua\nScripting engine: Lua 5.4\n";
    assert_eq!(version_field(out), Some(String::from("3.1.9")));
}

#[test]
fn version_skips_leading_and_repeated_spaces() {
    assert_eq!(
        version_field("  pandoc \t 2.9.2.1  extra\r\nnext"),
        Some(String::from("2.9.2.1"))
    );
}

#[test]
fn version_line_ending_with_carriage_return() {
    assert_eq!(version_field("pandoc 2.11.0\r\n"), Some(String::from("2.11.0")));
}

#[test]
fn version_missing_from_one_word_line() {
    assert_eq!(version_field("pandoc\n3.1.9"), None);
}

#[test]
fn version_missing_from_empty_first_line() {
    assert_eq!(version_field("\npandoc 3.1.9"), None);
}

#[test]
fn version_missing_from_empty_output() {
    assert_eq!(version_field(""), None);
}

#[test]
fn recent_converter_has_builtin_engine() {
    let r = builtin_citeproc_support(true, "pandoc 3.1.9\nCopyright", String::new());
    assert_eq!(r, Ok(true));
}

#[test]
fn threshold_version_has_builtin_engine() {
    let r = builtin_citeproc_support(true, "pandoc 2.11.0\n", String::new());
    assert_eq!(r, Ok(true));
}

#[test]
fn old_converter_needs_filter() {
    let r = builtin_citeproc_support(true, "pandoc 2.9.2.1\n", String::new());
    assert_eq!(r, Ok(false));
}

#[test]
fn old_minor_version_compares_by_number_not_text() {
    let r = builtin_citeproc_support(true, "pandoc 2.2\n", String::new());
    assert_eq!(r, Ok(false));
    let r = builtin_citeproc_support(true, "pandoc 2.100\n", String::new());
    assert_eq!(r, Ok(true));
}

#[test]
fn failed_query_reports_error_stream() {
    let r = builtin_citeproc_support(false, "pandoc 3.1.9\n", String::from("boom"));
    assert_eq!(r, Err(ProbeError::QueryFailed(String::from("boom"))));
}

#[test]
fn silent_query_has_no_version_line() {
    let r = builtin_citeproc_support(true, "", String::new());
    assert_eq!(r, Err(ProbeError::NoVersionLine));
}

#[test]
fn banner_without_number() {
    let r = builtin_citeproc_support(true, "pandoc\n", String::new());
    assert_eq!(r, Err(ProbeError::NoVersionNumber(String::from("pandoc\n"))));
}

#[test]
fn banner_with_text_for_number() {
    let r = builtin_citeproc_support(true, "pandoc unknown\n", String::new());
    assert_eq!(r, Err(ProbeError::UnparsableVersion(String::from("unknown"))));
}
