use cmdwrap::cmd::CaptureMode;
use cmdwrap::cmd::CapturedOutput;
use cmdwrap::cmd::Cmd;
use cmdwrap::cmd::ExitStatus;
use cmdwrap::error::Error;
use cmdwrap::error::IoFault;

fn finished(code: Option<i32>, stdout: &[u8], stderr: &[u8]) -> CapturedOutput {
    CapturedOutput {
        status: ExitStatus { code },
        stdout: stdout.to_vec(),
        stderr: stderr.to_vec(),
    }
}

#[test]
fn success_returns_output_unchanged() {
    let cmd = Cmd::new(String::from("true"));
    let out = finished(Some(0), b"payload", b"warnings");
    match cmd.output_err(Ok(out)) {
        Ok(got) => {
            assert_eq!(got.status.code, Some(0));
            assert!(got.status.is_success());
            assert_eq!(got.stdout, b"payload".to_vec());
            assert_eq!(got.stderr, b"warnings".to_vec());
        }
        Err(_) => panic!("a zero exit status must succeed"),
    }
}

#[test]
fn success_with_empty_streams() {
    let cmd = Cmd::new(String::from("true"));
    match cmd.output_err(Ok(finished(Some(0), b"", b""))) {
        Ok(got) => {
            assert!(got.stdout.is_empty());
            assert!(got.stderr.is_empty());
        }
        Err(_) => panic!("a zero exit status must succeed"),
    }
}

#[test]
fn nonzero_exit_becomes_cmd_failed() {
    let cmd = Cmd::new(String::from("false"));
    match cmd.output_err(Ok(finished(Some(1), b"", b""))) {
        Err(Error::CmdFailed(c, out_text, err_text)) => {
            assert_eq!(c.program, "false");
            assert!(c.args.is_empty());
            assert_eq!(out_text, "");
            assert_eq!(err_text, "");
        }
        _ => panic!("a non-zero exit status must become CmdFailed"),
    }
}

#[test]
fn cmd_failed_keeps_both_streams() {
    let cmd = Cmd::new(String::from("sh"))
        .arg(String::from("-c"))
        .arg(String::from("echo out; echo err 1>&2; exit 3"));
    match cmd.output_err(Ok(finished(Some(3), b"out\n", b"err\n"))) {
        Err(Error::CmdFailed(_, out_text, err_text)) => {
            assert_eq!(out_text, "out\n");
            assert_eq!(err_text, "err\n");
        }
        _ => panic!("exit status 3 must become CmdFailed"),
    }
}

#[test]
fn invalid_utf8_is_replaced_not_fatal() {
    let cmd = Cmd::new(String::from("emit-garbage"));
    match cmd.output_err(Ok(finished(Some(2), &[0xff, b'o', b'u', b't'], &[0xc3, 0x28]))) {
        Err(Error::CmdFailed(_, out_text, err_text)) => {
            assert_eq!(out_text, "\u{FFFD}out");
            assert_eq!(err_text, "\u{FFFD}(");
        }
        _ => panic!("malformed bytes must not keep CmdFailed from being built"),
    }
}

#[test]
fn signal_termination_is_failure() {
    let cmd = Cmd::new(String::from("killed"));
    let status = ExitStatus { code: None };
    assert!(!status.is_success());
    match cmd.output_err(Ok(finished(None, b"", b""))) {
        Err(Error::CmdFailed(..)) => {}
        _ => panic!("a status without an exit code is not success"),
    }
}

#[test]
fn spawn_fault_is_io_never_cmd_failed() {
    let cmd = Cmd::new(String::from("/no/such/binary"));
    let fault = IoFault {
        message: String::from("No such file or directory"),
    };
    match cmd.output_err(Err(fault)) {
        Err(Error::Io(f)) => assert_eq!(f.message, "No such file or directory"),
        Err(Error::CmdFailed(..)) => panic!("a spawn fault must never become CmdFailed"),
        _ => panic!("a spawn fault must become Error::Io"),
    }
}

#[test]
fn render_quotes_each_token() {
    let cmd = Cmd::new(String::from("sh"))
        .arg(String::from("-c"))
        .arg(String::from("exit 3"));
    assert_eq!(cmd.render(), "\"sh\" \"-c\" \"exit 3\"");
}

#[test]
fn render_program_alone() {
    let cmd = Cmd::new(String::from("false"));
    assert_eq!(cmd.render(), "\"false\"");
}

#[test]
fn args_appends_in_order() {
    let cmd = Cmd::new(String::from("tool"))
        .arg(String::from("first"))
        .args(vec![String::from("second"), String::from("third")]);
    assert_eq!(cmd.args, vec!["first", "second", "third"]);
    assert_eq!(cmd.program, "tool");
}

#[test]
fn cmd_failed_message_shows_command_and_streams() {
    let cmd = Cmd::new(String::from("false"));
    match cmd.output_err(Ok(finished(Some(1), b"", b""))) {
        Err(e) => assert_eq!(
            e.message(),
            "Command '\"false\"' had a non-zero exit code. Stdout:  Stderr: "
        ),
        Ok(_) => panic!("exit status 1 must fail"),
    }
}

#[test]
fn fixed_messages_of_the_other_variants() {
    assert_eq!(Error::BundletoolNotFound.message(), "Bundletool is not found");
    let io = Error::Io(IoFault {
        message: String::from("broken pipe"),
    });
    assert_eq!(io.message(), "IO error");
    let other = Error::OtherError(String::from("anything"));
    assert_eq!(other.message(), "Other error");
}

#[test]
fn capture_mode_follows_print_logs() {
    assert_eq!(CaptureMode::from_print_logs(true), CaptureMode::Echoed);
    assert_eq!(CaptureMode::from_print_logs(false), CaptureMode::Buffered);
}
