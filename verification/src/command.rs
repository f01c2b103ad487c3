//! The command runner: selection of the platform shell invocation, the
//! decision taken after spawning the child, and the report of what the
//! child printed.

use vstd::prelude::*;
use vstd::string::StringSliceAdditionalSpecFns;
use crate::text;

verus! {

/// The class of host the program was built for; it alone decides the shell.
#[derive(Clone, Copy, Debug, PartialEq, Eq, Structural)]
pub enum HostClass {
    Windows,
    Posix,
}

/// Command string handed to the shell on each host class. The strings are
/// placeholders carrying no semantics: the invocation builder takes the
/// command to run as a parameter.
pub fn platform_command(host: HostClass) -> (command: &'static str)
    ensures
        host is Windows ==> command@ == "foo"@,
        host is Posix ==> command@ == "bar"@,
{
    match host {
        HostClass::Windows => "foo",
        HostClass::Posix => "bar",
    }
}

/// A program name and its arguments, ready to hand to the operating system.
#[derive(Debug, PartialEq)]
pub struct ShellInvocation {
    pub program: String,
    pub args: Vec<String>,
}

/// What `build_shell_invocation` promises of its result.
pub open spec fn invocation_matches(
    inv: ShellInvocation,
    host: HostClass,
    command: Seq<char>,
) -> bool {
    &&& inv.program@ == (if host is Windows {
        "cmd"@
    } else {
        "sh"@
    })
    &&& inv.args@.len() == 2
    &&& inv.args@[0]@ == (if host is Windows {
        "/C"@
    } else {
        "-c"@
    })
    &&& inv.args@[1]@ == command
}

/// A Windows-style invocation: the command interpreter with its `/C` switch.
pub open spec fn is_windows_style(inv: ShellInvocation) -> bool {
    &&& inv.program@ == "cmd"@
    &&& inv.args@.len() == 2
    &&& inv.args@[0]@ == "/C"@
}

/// Build the shell invocation for one host class: the command interpreter
/// with `/C` on a Windows-class host, a POSIX shell with `-c` on any other.
/// The choice is a function of the host class alone.
pub fn build_shell_invocation(host: HostClass, command: &str) -> (inv: ShellInvocation)
    ensures
        invocation_matches(inv, host, command@),
{
    match host {
        HostClass::Windows => ShellInvocation {
            program: "cmd".to_owned(),
            args: vec!["/C".to_owned(), command.to_owned()],
        },
        HostClass::Posix => ShellInvocation {
            program: "sh".to_owned(),
            args: vec!["-c".to_owned(), command.to_owned()],
        },
    }
}

/// Invocation-style law: an invocation built for a host class is
/// Windows-style exactly when that class is Windows, whatever the command.
pub proof fn lemma_invocation_style(inv: ShellInvocation, host: HostClass, command: Seq<char>)
    requires
        invocation_matches(inv, host, command),
    ensures
        is_windows_style(inv) <==> host is Windows,
{
    reveal_strlit("cmd");
    reveal_strlit("sh");
    assert("cmd"@.len() == 3);
    assert("sh"@.len() == 2);
}

/// Captured results of one child process run to completion.
#[derive(Debug, PartialEq)]
pub struct CommandOutput {
    /// Exit code of the child, when the platform reports one.
    pub exit_code: Option<i32>,
    pub stdout: Vec<u8>,
    pub stderr: Vec<u8>,
}

/// The decision taken right after the attempt to spawn the child process.
#[derive(Debug, PartialEq)]
pub enum CommandStep {
    /// The child could not be spawned at all. This is fatal for the whole
    /// program, and nothing further is printed for the runner; the carried
    /// line is what the program aborts with.
    Fatal(Vec<u8>),
    /// The child ran to completion; its captured output is reported.
    Captured(CommandOutput),
}

pub open spec fn fatal_line_spec(cause: Seq<u8>) -> Seq<u8> {
    "failed to execute process: ".spec_bytes() + cause
}

/// Decide what follows the spawn attempt: a spawn failure is fatal, while a
/// child that ran — with whatever exit code — has its output reported.
pub fn command_step(spawned: Result<CommandOutput, Vec<u8>>) -> (step: CommandStep)
    ensures
        spawned matches Ok(output) ==> step == CommandStep::Captured(output),
        spawned matches Err(cause) ==> step matches CommandStep::Fatal(line) && line@
            == fatal_line_spec(cause@),
{
    match spawned {
        Ok(output) => CommandStep::Captured(output),
        Err(cause) => CommandStep::Fatal(
            text::prefixed_line("failed to execute process: ", &cause),
        ),
    }
}

/// The two lines reported for a child that ran: its standard output and its
/// standard error, permissively decoded. The lines depend on those captured
/// bytes alone — a nonzero exit code changes nothing about them.
pub fn command_report(output: &CommandOutput) -> (lines: Vec<Vec<u8>>)
    ensures
        lines@.len() == 2,
        lines@[0]@ == text::lossy_utf8_of(output.stdout@),
        lines@[1]@ == text::lossy_utf8_of(output.stderr@),
{
    let mut lines: Vec<Vec<u8>> = Vec::new();
    lines.push(text::decode_lossy(&output.stdout));
    lines.push(text::decode_lossy(&output.stderr));
    lines
}

} // verus!
