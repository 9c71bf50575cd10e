//! The shell that commands go to: how a command is launched, and what its
//! run comes to. Nothing here starts a program. The caller launches what
//! `bash_invocation` describes and hands back what the launch gave.

use vstd::prelude::*;
use vstd::utf8::{decode_utf8, valid_utf8};

verus! {

/// A program to start, with its arguments in order.
#[derive(Debug)]
pub struct ShellCommand {
    pub program: String,
    pub args: Vec<String>,
}

/// What a program left behind when it ended.
#[derive(Debug)]
pub struct ShellOutput {
    /// Whether it ended with the exit status of success.
    pub success: bool,
    /// The bytes it wrote to its standard output.
    pub stdout: Vec<u8>,
    /// The bytes it wrote to its standard error.
    pub stderr: Vec<u8>,
}

/// The text that a lossy UTF-8 decoding makes of `bytes`: each character
/// that `bytes` encodes, and the replacement character U+FFFD in place of
/// what is no valid encoding.
pub uninterp spec fn utf8_lossy(bytes: Seq<u8>) -> Seq<char>;

/// Decodes `bytes` with `String::from_utf8_lossy`. The contract is taken on
/// trust from that function's documentation: the result depends on the
/// bytes alone, and bytes that are valid UTF-8 give exactly the text that
/// they encode.
#[verifier::external_body]
pub(crate) fn decode_lossy(bytes: &[u8]) -> (text: String)
    ensures
        text@ == utf8_lossy(bytes@),
        valid_utf8(bytes@) ==> text@ == decode_utf8(bytes@),
{
    String::from_utf8_lossy(bytes).into_owned()
}

/// The launcher through which every command goes.
pub open spec fn launcher() -> Seq<char> {
    "wsl"@
}

/// The arguments that make the launcher run `command` in bash.
pub open spec fn launcher_args(command: Seq<char>) -> Seq<Seq<char>> {
    seq!["-e"@, "bash"@, "-c"@, command]
}

/// What the text of a failed launch starts with.
pub open spec fn launch_failure_prefix() -> Seq<char> {
    "Falha ao executar comando: "@
}

/// What a run comes to. A launch that failed is an error that says so and
/// gives the reason. A command that ended in success gives what it wrote to
/// its standard output; one that did not is an error made of what it wrote
/// to its standard error. Both are decoded lossily.
pub open spec fn shell_result(launched: Result<ShellOutput, String>) -> Result<
    Seq<char>,
    Seq<char>,
> {
    match launched {
        Ok(output) => if output.success {
            Ok(utf8_lossy(output.stdout@))
        } else {
            Err(utf8_lossy(output.stderr@))
        },
        Err(reason) => Err(launch_failure_prefix() + reason@),
    }
}

/// The text inside a result, on either side.
pub open spec fn result_text(result: Result<String, String>) -> Result<Seq<char>, Seq<char>> {
    match result {
        Ok(text) => Ok(text@),
        Err(text) => Err(text@),
    }
}

/// How to launch `command`: through the launcher, in bash.
pub fn bash_invocation(command: &str) -> (invocation: ShellCommand)
    ensures
        invocation.program@ == launcher(),
        invocation.args.deep_view() == launcher_args(command@),
{
    let mut args: Vec<String> = Vec::new();
    args.push("-e".to_string());
    args.push("bash".to_string());
    args.push("-c".to_string());
    args.push(command.to_string());
    let invocation = ShellCommand { program: "wsl".to_string(), args };
    assert(invocation.args.deep_view() == launcher_args(command@));
    invocation
}

} // verus!
