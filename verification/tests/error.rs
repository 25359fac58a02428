use solana_dev_tools::error::{joined, CliError};

#[test]
fn every_error_has_its_line() {
    let cases = [
        (CliError::NotAuthenticated, "Authentication required. Run 'sdt auth login' first."),
        (CliError::ApiError("boom".to_string()), "API request failed: boom"),
        (
            CliError::ApiResponseError { status: 404, message: "not found".to_string() },
            "API returned error 404: not found",
        ),
        (CliError::ConfigError("bad".to_string()), "Configuration error: bad"),
        (CliError::NetworkError("down".to_string()), "Network error: down"),
        (CliError::KeyringError("locked".to_string()), "Credential storage error: locked"),
        (CliError::SerializationError("eof".to_string()), "Serialization error: eof"),
        (CliError::ConfyError("io".to_string()), "Configuration file error: io"),
        (CliError::InvalidInput("x".to_string()), "Invalid input: x"),
        (CliError::AuthTimeout, "Authentication timeout. Please try again."),
        (
            CliError::SessionExpired,
            "Authentication session expired. Run 'sdt auth login' again.",
        ),
        (CliError::MalformedSuccess, "Authentication verified but no token returned"),
        (CliError::PollFailed("down".to_string()), "Authentication polling failed: down"),
        (CliError::Cancelled, "Operation cancelled by user"),
        (CliError::Other("as it is".to_string()), "as it is"),
    ];
    for (error, line) in cases {
        assert_eq!(error.message(), line);
    }
}

#[test]
fn status_is_written_in_decimal() {
    for status in [0u16, 7, 200, 65535] {
        let e = CliError::ApiResponseError { status, message: String::new() };
        assert_eq!(e.message(), format!("API returned error {}: ", status));
    }
}

#[test]
fn expired_and_timed_out_are_different_errors() {
    assert_ne!(CliError::SessionExpired, CliError::AuthTimeout);
    assert_ne!(CliError::SessionExpired.message(), CliError::AuthTimeout.message());
}

#[test]
fn joined_puts_head_before_tail() {
    assert_eq!(joined("head: ", "tail"), "head: tail");
    assert_eq!(joined("", ""), "");
}
