use lsp_resolver::command::{language_server_command, Command};
use lsp_resolver::error::ResolveError;
use lsp_resolver::resolver::local_binary_path;

#[test]
fn unsupported_platform_message() {
    assert_eq!(ResolveError::UnsupportedPlatform.message(), "Unsupported platform");
}

#[test]
fn download_failure_message_wraps_the_cause() {
    let error = ResolveError::DownloadFailed { cause: "connection reset".to_string() };
    assert_eq!(error.message(), "Failed to download LSP: connection reset");
}

#[test]
fn make_executable_failure_message_is_the_cause() {
    let error = ResolveError::MakeExecutableFailed { cause: "permission denied".to_string() };
    assert_eq!(error.message(), "permission denied");
}

#[test]
fn binary_not_found_message_tells_what_to_do() {
    let error = ResolveError::BinaryNotFound { tool: "cambridge-lsp".to_string() };
    let text = error.message();
    assert_eq!(
        text,
        "cambridge-lsp was not found on the search path: build it and place the binary on your PATH"
    );
    assert!(text.contains("build"));
    assert!(text.contains("PATH"));
}

#[test]
fn error_clone_is_equal() {
    let errors = vec![
        ResolveError::UnsupportedPlatform,
        ResolveError::DownloadFailed { cause: "a".to_string() },
        ResolveError::MakeExecutableFailed { cause: "b".to_string() },
        ResolveError::BinaryNotFound { tool: "c".to_string() },
    ];
    for error in errors {
        assert_eq!(error.clone(), error);
    }
}

#[test]
fn local_path_is_relative_to_the_working_directory() {
    assert_eq!(local_binary_path("cambridge-lsp"), "./cambridge-lsp");
    assert_eq!(local_binary_path(""), "./");
}

#[test]
fn command_runs_the_binary_with_nothing_added() {
    let command = language_server_command(Ok("./cambridge-lsp".to_string()));
    assert_eq!(
        command,
        Ok(Command { command: "./cambridge-lsp".to_string(), args: vec![], env: vec![] })
    );
}

#[test]
fn command_of_a_failure_is_its_message() {
    let failed = language_server_command(Err(ResolveError::DownloadFailed {
        cause: "timeout".to_string(),
    }));
    assert_eq!(failed, Err("Failed to download LSP: timeout".to_string()));
    let unsupported = language_server_command(Err(ResolveError::UnsupportedPlatform));
    assert_eq!(unsupported, Err("Unsupported platform".to_string()));
}
