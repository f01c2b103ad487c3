use updater_rs::command::{
    build_shell_invocation, command_report, command_step, platform_command, CommandOutput,
    CommandStep, HostClass,
};

#[test]
fn windows_invocation() {
    let inv = build_shell_invocation(HostClass::Windows, "foo");
    assert_eq!(inv.program, "cmd".to_owned());
    assert_eq!(inv.args, vec!["/C".to_owned(), "foo".to_owned()]);
}

#[test]
fn posix_invocation() {
    let inv = build_shell_invocation(HostClass::Posix, "bar");
    assert_eq!(inv.program, "sh".to_owned());
    assert_eq!(inv.args, vec!["-c".to_owned(), "bar".to_owned()]);
}

#[test]
fn invocation_carries_the_given_command() {
    let inv = build_shell_invocation(HostClass::Posix, "echo hello");
    assert_eq!(inv.args[1], "echo hello".to_owned());
}

#[test]
fn platform_command_values() {
    assert_eq!(platform_command(HostClass::Windows), "foo");
    assert_eq!(platform_command(HostClass::Posix), "bar");
}

#[test]
fn spawn_failure_is_fatal() {
    let step = command_step(Err(b"No such file or directory".to_vec()));
    match step {
        CommandStep::Fatal(line) => {
            assert_eq!(
                line,
                b"failed to execute process: No such file or directory".to_vec()
            );
        }
        CommandStep::Captured(_) => panic!("a spawn failure must be fatal"),
    }
}

#[test]
fn captured_child_passes_through() {
    let output = CommandOutput {
        exit_code: Some(0),
        stdout: b"out".to_vec(),
        stderr: b"err".to_vec(),
    };
    let step = command_step(Ok(output));
    match step {
        CommandStep::Captured(output) => {
            assert_eq!(output.exit_code, Some(0));
            assert_eq!(output.stdout, b"out".to_vec());
            assert_eq!(output.stderr, b"err".to_vec());
        }
        CommandStep::Fatal(_) => panic!("a child that ran is not fatal"),
    }
}

#[test]
fn nonzero_exit_still_reports() {
    let output = CommandOutput {
        exit_code: Some(3),
        stdout: b"partial work".to_vec(),
        stderr: b"something went wrong".to_vec(),
    };
    let lines = command_report(&output);
    assert_eq!(lines.len(), 2);
    assert_eq!(lines[0], b"partial work".to_vec());
    assert_eq!(lines[1], b"something went wrong".to_vec());
}

#[test]
fn missing_exit_code_still_reports() {
    let output = CommandOutput {
        exit_code: None,
        stdout: b"out".to_vec(),
        stderr: Vec::new(),
    };
    let lines = command_report(&output);
    assert_eq!(lines.len(), 2);
    assert_eq!(lines[0], b"out".to_vec());
    assert_eq!(lines[1], Vec::<u8>::new());
}

#[test]
fn invalid_output_bytes_are_replaced() {
    let output = CommandOutput {
        exit_code: Some(0),
        stdout: vec![0xff, 0xfe],
        stderr: vec![b'o', b'k', 0x80],
    };
    let lines = command_report(&output);
    assert_eq!(lines[0], "\u{FFFD}\u{FFFD}".as_bytes().to_vec());
    assert_eq!(lines[1], "ok\u{FFFD}".as_bytes().to_vec());
}
