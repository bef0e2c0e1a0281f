use spotdl_player::resolver::{
    check_run, failure_message, save_args, url_args, url_from_run, ProcessRun, ResolveError,
    SpotifyCredential,
};
use spotdl_player::text::extract_result_line;
use std::sync::Arc;

fn finished(success: bool, stdout: &[u8], stderr: &[u8]) -> ProcessRun {
    ProcessRun::Finished { success, stdout: stdout.to_vec(), stderr: stderr.to_vec() }
}

fn credentials() -> SpotifyCredential {
    SpotifyCredential {
        client_id: Arc::new("id-1".to_string()),
        client_secret: Arc::new("SECRET-REDACTED".to_string()),
    }
}

#[test]
fn result_line_follows_diagnostics() {
    assert_eq!(
        extract_result_line("Processing query: x\nhttps://example.com/a\n"),
        "https://example.com/a"
    );
}

#[test]
fn result_line_of_single_line() {
    assert_eq!(extract_result_line("  https://example.com/b  "), "https://example.com/b");
}

#[test]
fn result_line_of_blank_output_is_empty() {
    assert_eq!(extract_result_line(" \n\r\n\t"), "");
    assert_eq!(extract_result_line(""), "");
}

#[test]
fn result_line_skips_trailing_blank_lines() {
    assert_eq!(extract_result_line("a\nb\r\n\n\n"), "b");
}

#[test]
fn url_run_yields_last_line() {
    let run = finished(true, b"Processing query: x\nhttps://example.com/a\n", b"");
    assert_eq!(url_from_run(run), Ok("https://example.com/a".to_string()));
}

#[test]
fn failed_run_carries_error_output() {
    let run = finished(false, b"", b"boom");
    match url_from_run(run) {
        Err(ResolveError::ResolverFailed(msg)) => assert!(msg.contains("boom")),
        other => panic!("unexpected {:?}", other),
    }
}

#[test]
fn failed_run_with_unreadable_error_output() {
    let run = finished(false, b"", &[0xff, 0xfe]);
    assert_eq!(
        url_from_run(run),
        Err(ResolveError::ResolverFailed("<no error message>".to_string()))
    );
    assert_eq!(failure_message(&vec![0xc3, 0xa9]), "é");
}

#[test]
fn missing_program_is_reported() {
    assert_eq!(url_from_run(ProcessRun::NotFound), Err(ResolveError::ExecutableNotFound));
    assert_eq!(check_run(&ProcessRun::NotFound), Err(ResolveError::ExecutableNotFound));
}

#[test]
fn launch_failure_is_reported() {
    let run = ProcessRun::LaunchFailed("permission denied".to_string());
    assert_eq!(
        url_from_run(run),
        Err(ResolveError::ResolverFailed("permission denied".to_string()))
    );
}

#[test]
fn non_utf8_output_is_invalid() {
    let run = finished(true, &[b'a', 0xff, b'\n'], b"");
    assert_eq!(url_from_run(run), Err(ResolveError::InvalidOutput));
}

#[test]
fn successful_run_checks_ok() {
    assert_eq!(check_run(&finished(true, b"", b"ignored")), Ok(()));
}

#[test]
fn url_arguments_without_credentials() {
    assert_eq!(url_args("some song", &None), vec!["url", "some song"]);
}

#[test]
fn url_arguments_with_credentials() {
    assert_eq!(
        url_args("https://open.spotify.com/track/1", &Some(credentials())),
        vec![
            "url",
            "https://open.spotify.com/track/1",
            "--client-id",
            "id-1",
            "--client-secret",
            "SECRET-REDACTED"
        ]
    );
}

#[test]
fn save_arguments_without_credentials() {
    assert_eq!(
        save_args("q", "out.spotdl", &None),
        vec!["save", "q", "--save-file", "out.spotdl"]
    );
}

#[test]
fn save_arguments_with_credentials() {
    assert_eq!(
        save_args("q", "out.spotdl", &Some(credentials())),
        vec![
            "save",
            "q",
            "--save-file",
            "out.spotdl",
            "--client-id",
            "id-1",
            "--client-secret",
            "SECRET-REDACTED"
        ]
    );
}

#[test]
fn result_line_trims_all_unicode_whitespace() {
    assert_eq!(extract_result_line("x\nab\n\u{0B}"), "ab");
    assert_eq!(extract_result_line("x\nab\u{85}\u{A0}\u{3000}"), "ab");
    assert_eq!(extract_result_line("\u{2028}x\n\u{2003}https://e/a\u{202F}\n\u{205F}"), "https://e/a");
    assert_eq!(extract_result_line("\u{1680}\u{2000}\u{200A}\u{2029}"), "");
}

#[test]
fn result_line_drops_leading_whitespace_of_last_line() {
    assert_eq!(extract_result_line("Processing query: x\n   https://example.com/a"), "https://example.com/a");
}
