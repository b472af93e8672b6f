use horizon_client::executor::{result_text, select_stream, ExecOutput};

fn output(success: bool, stdout: &[u8], stderr: &[u8]) -> ExecOutput {
    ExecOutput { success, stdout: stdout.to_vec(), stderr: stderr.to_vec() }
}

#[test]
fn successful_command_reports_stdout() {
    assert_eq!(result_text(&output(true, b"ok", b"")), "ok");
}

#[test]
fn failed_command_reports_stderr() {
    assert_eq!(result_text(&output(false, b"", b"boom")), "boom");
}

#[test]
fn failed_command_does_not_report_stdout() {
    assert_eq!(result_text(&output(false, b"partial", b"boom")), "boom");
    assert_eq!(result_text(&output(false, b"partial", b"")), "");
}

#[test]
fn successful_command_does_not_report_stderr() {
    assert_eq!(result_text(&output(true, b"ok", b"warning")), "ok");
    assert_eq!(result_text(&output(true, b"", b"warning")), "");
}

#[test]
fn select_stream_picks_by_exit_status() {
    assert_eq!(select_stream(&output(true, b"out", b"err")), &b"out".to_vec());
    assert_eq!(select_stream(&output(false, b"out", b"err")), &b"err".to_vec());
}

#[test]
fn text_keeps_valid_utf8() {
    let text = "gr\u{fc}\u{df}e \u{2713}\n";
    assert_eq!(result_text(&output(true, text.as_bytes(), b"")), text);
}

#[test]
fn text_replaces_invalid_utf8() {
    assert_eq!(result_text(&output(true, &[b'a', 0xff, b'b'], b"")), "a\u{fffd}b");
    assert_eq!(result_text(&output(false, b"", &[0xc3])), "\u{fffd}");
}
