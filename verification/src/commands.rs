//! What the front end asks of the kernel, where the answer is a text.

use vstd::prelude::*;
use vstd::string::StringExecFns;
use crate::decimal::{decimal, push_decimal};
use crate::kernel::{kill_failure, Kernel};
use crate::shell::{result_text, shell_result, ShellOutput};

verus! {

/// The words that welcome `name`.
pub open spec fn greeting(name: Seq<char>) -> Seq<char> {
    "Pitter OS (Ubuntu) - Bem-vindo, "@ + name + "!"@
}

/// The words that confirm the end of the process `pid`.
pub open spec fn kill_confirmation(pid: u32) -> Seq<char> {
    "Processo "@ + decimal(pid as nat) + " terminado com sucesso"@
}

/// Welcomes `name`.
pub fn greet(name: &str) -> (text: String)
    ensures
        text@ == greeting(name@),
{
    let mut text = String::from_str("Pitter OS (Ubuntu) - Bem-vindo, ");
    text.append(name);
    text.append("!");
    text
}

/// Reports on the ending of the process `pid`, from what the launch of the
/// killing command gave: a confirmation that names the process, or the
/// error of `Kernel::kill_process`.
pub fn kill_process(pid: u32, kernel: &Kernel, launched: Result<ShellOutput, String>) -> (result:
    Result<String, String>)
    ensures
        result_text(result) == match shell_result(launched) {
            Ok(_) => Ok::<Seq<char>, Seq<char>>(kill_confirmation(pid)),
            Err(reason) => Err(kill_failure(pid, reason)),
        },
{
    match kernel.kill_process(pid, launched) {
        Ok(()) => {
            let mut text = String::from_str("Processo ");
            push_decimal(&mut text, pid);
            text.append(" terminado com sucesso");
            Ok(text)
        },
        Err(message) => Err(message),
    }
}

} // verus!
