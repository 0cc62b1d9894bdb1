use vscode_codeql_native::failure::Failure;

#[test]
fn unsupported_platform_has_the_fixed_message() {
    let failure = Failure::UnsupportedPlatform;
    assert_eq!(failure.message(), "get_long_path_name is only supported on Windows");
    assert!(failure.is_unsupported_platform());
}

#[test]
fn operating_system_error_reports_its_own_text() {
    let text = "[2] The system cannot find the file specified.";
    let failure = Failure::OperatingSystemError(String::from(text));
    assert_eq!(failure.message(), text);
    assert!(!failure.is_unsupported_platform());
}

#[test]
fn operating_system_error_keeps_an_empty_text() {
    let failure = Failure::OperatingSystemError(String::new());
    assert_eq!(failure.message(), "");
    assert!(!failure.is_unsupported_platform());
}

#[test]
fn operating_system_error_is_told_apart_by_kind_not_by_text() {
    let failure = Failure::OperatingSystemError(String::from(
        "get_long_path_name is only supported on Windows",
    ));
    assert!(!failure.is_unsupported_platform());
    assert_ne!(failure, Failure::UnsupportedPlatform);
    assert_eq!(failure.message(), Failure::UnsupportedPlatform.message());
}
