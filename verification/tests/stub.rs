use vscode_codeql_native::failure::{Failure, UNSUPPORTED_PLATFORM_MESSAGE};
use vscode_codeql_native::resolver::resolve_unsupported;

const UNSUPPORTED: &str = "get_long_path_name is only supported on Windows";

#[test]
fn stub_fails_on_an_ordinary_path() {
    let outcome = resolve_unsupported("C:\\PROGRA~1");
    assert_eq!(outcome, Err(Failure::UnsupportedPlatform));
    assert_eq!(outcome.unwrap_err().message(), UNSUPPORTED);
}

#[test]
fn stub_fails_on_the_empty_path() {
    let outcome = resolve_unsupported("");
    assert_eq!(outcome, Err(Failure::UnsupportedPlatform));
    assert_eq!(outcome.unwrap_err().message(), UNSUPPORTED);
}

#[test]
fn stub_fails_on_invalid_path_characters() {
    for path in ["<>:\"|?*", "\0", "a\nb", "C:\\\u{1F600}\\x", "/usr/bin"] {
        let outcome = resolve_unsupported(path);
        assert_eq!(outcome, Err(Failure::UnsupportedPlatform));
        assert_eq!(outcome.unwrap_err().message(), UNSUPPORTED);
    }
}

#[test]
fn stub_message_matches_byte_for_byte() {
    let message = resolve_unsupported("anything").unwrap_err().message();
    assert_eq!(message.as_bytes(), UNSUPPORTED.as_bytes());
    assert_eq!(message.len(), 47);
    assert_eq!(UNSUPPORTED_PLATFORM_MESSAGE, UNSUPPORTED);
}

#[test]
fn stub_outcome_does_not_depend_on_the_path() {
    let first = resolve_unsupported("C:\\PROGRA~1");
    let second = resolve_unsupported("D:\\other\\place");
    let third = resolve_unsupported("");
    assert_eq!(first, second);
    assert_eq!(second, third);
    assert_eq!(first.unwrap_err().message(), third.unwrap_err().message());
}
