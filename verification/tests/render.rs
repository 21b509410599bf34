use error_occur::Describe;
use error_occur::ErrorCause;
use error_occur::ErrorOccur;
use error_occur::ErrorRemind;

#[test]
fn str_error_nonblank_prefixes_message() {
    let r: Result<(), ErrorRemind> = "file missing".error("open failed");
    assert_eq!(r.unwrap_err().to_text(), "file missing, open failed\n");
}

#[test]
fn str_error_blank_collapses_to_message() {
    let r: Result<(), ErrorRemind> = "".error("value required");
    assert_eq!(r.unwrap_err().to_text(), "value required\n");
}

#[test]
fn str_error_whitespace_only_collapses_to_message() {
    let r: Result<(), ErrorRemind> = " \t\r\n".error("value required");
    assert_eq!(r.unwrap_err().to_text(), "value required\n");
}

#[test]
fn str_error_unicode_whitespace_only_collapses_to_message() {
    let r: Result<(), ErrorRemind> = "\u{a0}\u{3000}\u{2028}".error("value required");
    assert_eq!(r.unwrap_err().to_text(), "value required\n");
}

#[test]
fn string_error_nonblank_prefixes_message() {
    let r: Result<(), ErrorRemind> = String::from("args error").error("value");
    assert_eq!(r.unwrap_err().to_text(), "args error, value\n");
}

#[test]
fn string_error_blank_collapses_to_message() {
    let r: Result<(), ErrorRemind> = String::from("   ").error("value");
    assert_eq!(r.unwrap_err().to_text(), "value\n");
}

#[test]
fn option_some_passes_value_through() {
    let r = Some(41).error("missing id");
    assert_eq!(r.unwrap(), 41);
}

#[test]
fn option_none_renders_message_alone() {
    let r = None::<i32>.error("missing id");
    assert_eq!(r.unwrap_err().to_text(), "missing id\n");
}

#[test]
fn result_ok_passes_value_through() {
    let r: Result<i32, ErrorCause> = Ok(7);
    assert_eq!(r.error("compute failed").unwrap(), 7);
}

#[test]
fn result_err_chains_original_as_cause() {
    let r: Result<i32, ErrorCause> = Err(ErrorCause::new("disk full"));
    assert_eq!(
        r.error("compute failed").unwrap_err().to_text(),
        "compute failed, disk full\n"
    );
}

#[test]
fn bool_true_passes_through() {
    assert_eq!(true.error("flag unset").unwrap(), true);
}

#[test]
fn bool_false_renders_message_alone() {
    let r = false.error("flag unset");
    assert_eq!(r.unwrap_err().to_text(), "flag unset\n");
}

#[test]
fn cause_renders_to_failed_open_scenario() {
    let e = ErrorRemind::new("failed to open file").cause(&ErrorCause::new("permission denied"));
    assert_eq!(e.to_text(), "failed to open file, permission denied\n");
}

#[test]
fn second_cause_replaces_first() {
    let e = ErrorRemind::new("failed to open file")
        .cause(&ErrorCause::new("permission denied"))
        .cause(&ErrorCause::new("disk removed"));
    assert_eq!(e.to_text(), "failed to open file, disk removed\n");
}

#[test]
fn rendering_is_repeatable() {
    let e = ErrorRemind::new("stable").cause(&ErrorCause::new("still stable"));
    let first = e.to_text();
    let second = e.to_text();
    assert_eq!(first, second);
    assert_eq!(first, "stable, still stable\n");
}

#[test]
fn remind_as_cause_keeps_its_line_terminator() {
    let inner = ErrorRemind::new("inner");
    let outer = ErrorRemind::new("outer").cause(&inner);
    assert_eq!(outer.to_text(), "outer, inner\n\n");
}

#[test]
fn cause_render_text_is_its_description() {
    let c = ErrorCause::new("permission denied");
    assert_eq!(c.render_text(), "permission denied");
    assert!(c.chained_source().is_none());
}

#[test]
fn chained_source_exposes_the_cause() {
    let e = ErrorRemind::new("outer").cause(&ErrorCause::new("inner"));
    let src = e.chained_source().unwrap();
    assert_eq!(src.render_text(), "inner");
}

#[test]
fn chained_source_is_none_without_cause() {
    let e = ErrorRemind::new("alone");
    assert!(e.chained_source().is_none());
}

#[test]
fn from_text_builds_plain_remind() {
    let e = ErrorRemind::from_text("just a message");
    assert_eq!(e.to_text(), "just a message\n");
}

#[test]
fn from_error_uses_fallback_phrase() {
    let e = ErrorRemind::from_error(&ErrorCause::new("permission denied"));
    assert_eq!(e.to_text(), "unexpected error, permission denied\n");
}

#[test]
fn into_io_error_carries_full_rendering() {
    let ioe = ErrorRemind::new("failed to open file")
        .cause(&ErrorCause::new("permission denied"))
        .into_io_error();
    assert_eq!(ioe.kind(), std::io::ErrorKind::Other);
    assert_eq!(ioe.to_string(), "failed to open file, permission denied\n");
}

#[test]
fn non_ascii_message_renders_unchanged() {
    let r: Result<(), ErrorRemind> = "héllo wörld".error("värde");
    assert_eq!(r.unwrap_err().to_text(), "héllo wörld, värde\n");
}
