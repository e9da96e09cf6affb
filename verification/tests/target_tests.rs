use unix_daemonize::error::Error;
use unix_daemonize::target::{encoding_error, resolve_target_path, StreamKind};

#[test]
fn omitted_target_resolves_to_null_device() {
    assert_eq!(resolve_target_path(StreamKind::Stdout, None), Ok("/dev/null"));
    assert_eq!(resolve_target_path(StreamKind::Stderr, None), Ok("/dev/null"));
}

#[test]
fn supplied_target_is_kept() {
    let r = resolve_target_path(StreamKind::Stdout, Some("/tmp/out.log"));
    assert_eq!(r, Ok("/tmp/out.log"));
    let r = resolve_target_path(StreamKind::Stderr, Some("/tmp/err.log"));
    assert_eq!(r, Ok("/tmp/err.log"));
}

#[test]
fn interior_nul_is_rejected_with_position() {
    let r = resolve_target_path(StreamKind::Stdout, Some("ab\0cd"));
    assert_eq!(r, Err(Error::StdoutFilenameFFI(2)));
    let r = resolve_target_path(StreamKind::Stderr, Some("\0rest"));
    assert_eq!(r, Err(Error::StderrFilenameFFI(0)));
}

#[test]
fn first_of_several_nuls_is_reported() {
    let r = resolve_target_path(StreamKind::Stdout, Some("a\0b\0c"));
    assert_eq!(r, Err(Error::StdoutFilenameFFI(1)));
}

#[test]
fn empty_path_is_accepted() {
    assert_eq!(resolve_target_path(StreamKind::Stdout, Some("")), Ok(""));
}

#[test]
fn encoding_error_names_the_stream() {
    assert_eq!(encoding_error(StreamKind::Stdout), Error::StdoutFilenameToStr);
    assert_eq!(encoding_error(StreamKind::Stderr), Error::StderrFilenameToStr);
}
