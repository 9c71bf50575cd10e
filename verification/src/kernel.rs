//! The kernel: what it says of the system it stands for, the processes it
//! has registered, and its commands to the shell.
//!
//! The registered processes are symbolic. They live in the kernel's own list
//! and have nothing to do with the processes that a process table shows.

use vstd::prelude::*;
use vstd::string::StringExecFns;
use vstd::utf8::{decode_utf8, valid_utf8};
use crate::decimal::{decimal, push_decimal};
use crate::process::{parse_process_table, table_records, Process, ProcessView};
use crate::shell::{decode_lossy, result_text, shell_result, ShellOutput};

verus! {

/// The name, edition and kernel of the system.
#[derive(Debug)]
pub struct SystemInfo {
    pub os_name: String,
    pub version: String,
    pub kernel_type: String,
}

/// What a `SystemInfo` holds, as plain values.
pub struct SystemInfoView {
    pub os_name: Seq<char>,
    pub version: Seq<char>,
    pub kernel_type: Seq<char>,
}

impl View for SystemInfo {
    type V = SystemInfoView;

    open spec fn view(&self) -> SystemInfoView {
        SystemInfoView {
            os_name: self.os_name@,
            version: self.version@,
            kernel_type: self.kernel_type@,
        }
    }
}

impl Clone for SystemInfo {
    fn clone(&self) -> (copy: Self)
        ensures
            copy == *self,
    {
        SystemInfo {
            os_name: self.os_name.clone(),
            version: self.version.clone(),
            kernel_type: self.kernel_type.clone(),
        }
    }
}

/// The system that every kernel stands for.
pub open spec fn host_system() -> SystemInfoView {
    SystemInfoView {
        os_name: "Ubuntu 24.04 LTS"@,
        version: "PitterOS Edition"@,
        kernel_type: "Linux (via WSL)"@,
    }
}

/// The status of a process that was just registered.
pub open spec fn initial_status() -> Seq<char> {
    "running"@
}

/// The memory, in kilobytes, that a registered process is counted for.
pub const INITIAL_MEMORY: u64 = 1024;

/// The command that lists the processes: identifier, command name, state
/// and resident memory of each, without a header row.
pub open spec fn listing_command() -> Seq<char> {
    "ps -eo pid,comm,stat,rss --no-headers"@
}

/// The command that ends the process `pid` by force.
pub open spec fn killing_command(pid: u32) -> Seq<char> {
    "kill -9 "@ + decimal(pid as nat)
}

/// The error that tells that the process `pid` could not be ended, and why.
pub open spec fn kill_failure(pid: u32, reason: Seq<char>) -> Seq<char> {
    "Erro ao matar processo Linux "@ + decimal(pid as nat) + ": "@ + reason
}

/// Whether `part` stands somewhere in `text`, whole and unbroken.
pub open spec fn holds_text(text: Seq<char>, part: Seq<char>) -> bool {
    exists|at: int|
        0 <= at && at + part.len() <= text.len() && #[trigger] text.subrange(
            at,
            at + part.len(),
        ) == part
}

/// The error of a failed kill holds the identifier of the process, in
/// decimal digits, and the reason of the failure.
pub proof fn lemma_kill_failure_tells(pid: u32, reason: Seq<char>)
    ensures
        holds_text(kill_failure(pid, reason), decimal(pid as nat)),
        holds_text(kill_failure(pid, reason), reason),
{
    let message = kill_failure(pid, reason);
    let digits = decimal(pid as nat);
    let at = "Erro ao matar processo Linux "@.len() as int;
    assert(message.subrange(at, at + digits.len()) == digits);
    let end = message.len() - reason.len();
    assert(message.subrange(end, end + reason.len()) == reason);
}

/// The processes that a listing shows: the records of the table that the
/// listing command wrote, and none where it failed or could not be started.
pub open spec fn listed_processes(launched: Result<ShellOutput, String>) -> Seq<ProcessView> {
    match shell_result(launched) {
        Ok(table) => table_records(table),
        Err(_) => Seq::empty(),
    }
}

/// The state of the system: the processes registered so far and the
/// identifier that the next one will get.
pub struct Kernel {
    processes: Vec<Process>,
    next_pid: u32,
    system_info: SystemInfo,
}

impl Kernel {
    /// The registered processes, in the order in which they were created.
    pub closed spec fn processes(&self) -> Seq<ProcessView> {
        self.processes.deep_view()
    }

    /// The identifier that the next registered process gets.
    pub closed spec fn next_pid(&self) -> nat {
        self.next_pid as nat
    }

    /// What the kernel says of the system.
    pub closed spec fn system_info(&self) -> SystemInfoView {
        self.system_info@
    }

    /// What holds of every kernel: it stands for the host system, its
    /// identifiers start at 1, and the registered processes have distinct
    /// identifiers, each greater than the one before and all of them below
    /// the next one to be given. A registered process stays as it was
    /// created: running, with the fixed memory.
    pub open spec fn wf(&self) -> bool {
        &&& self.system_info() == host_system()
        &&& 1 <= self.next_pid() <= u32::MAX
        &&& forall|i: int|
            0 <= i < self.processes().len() ==> {
                &&& (#[trigger] self.processes()[i]).status == initial_status()
                &&& self.processes()[i].memory_usage == INITIAL_MEMORY
            }
        &&& forall|i: int|
            0 <= i < self.processes().len() ==> (#[trigger] self.processes()[i]).id
                < self.next_pid()
        &&& forall|i: int, j: int|
            0 <= i < j < self.processes().len() ==> (#[trigger] self.processes()[i]).id < (
            #[trigger] self.processes()[j]).id
    }

    /// A kernel with no process registered. The first one will get the
    /// identifier 1.
    pub fn new() -> (kernel: Kernel)
        ensures
            kernel.wf(),
            kernel.processes() == Seq::<ProcessView>::empty(),
            kernel.next_pid() == 1,
    {
        Kernel {
            processes: Vec::new(),
            next_pid: 1,
            system_info: SystemInfo {
                os_name: String::from_str("Ubuntu 24.04 LTS"),
                version: String::from_str("PitterOS Edition"),
                kernel_type: String::from_str("Linux (via WSL)"),
            },
        }
    }

    /// What the run of a command comes to, from what its launch gave: the
    /// text that the command wrote, or an error that tells why it failed
    /// or could not be started.
    pub fn execute_bash(&self, launched: Result<ShellOutput, String>) -> (result: Result<
        String,
        String,
    >)
        ensures
            result_text(result) == shell_result(launched),
            launched matches Ok(output) ==> (output.success && valid_utf8(output.stdout@)
                ==> result_text(result) == Ok::<Seq<char>, Seq<char>>(decode_utf8(output.stdout@))),
            launched matches Ok(output) ==> (!output.success && valid_utf8(output.stderr@)
                ==> result_text(result) == Err::<Seq<char>, Seq<char>>(
                decode_utf8(output.stderr@),
            )),
    {
        match launched {
            Ok(output) => {
                if output.success {
                    Ok(decode_lossy(output.stdout.as_slice()))
                } else {
                    Err(decode_lossy(output.stderr.as_slice()))
                }
            },
            Err(reason) => {
                let mut message = String::from_str("Falha ao executar comando: ");
                message.append(reason.as_str());
                Err(message)
            },
        }
    }

    /// The registered processes, in the order in which they were created.
    pub fn registered(&self) -> (list: &Vec<Process>)
        ensures
            list.deep_view() == self.processes(),
    {
        &self.processes
    }

    /// Whether an identifier is left for one more process.
    pub fn has_free_identifier(&self) -> (free: bool)
        ensures
            free == (self.next_pid() < u32::MAX),
    {
        self.next_pid < u32::MAX
    }

    /// Registers a process under the name `name` and returns a copy of its
    /// record. The process gets the next identifier, which is greater than
    /// that of every process registered before.
    pub fn create_process(&mut self, name: &str) -> (created: Process)
        requires
            old(self).wf(),
            old(self).next_pid() < u32::MAX,
        ensures
            final(self).wf(),
            created@ == (ProcessView {
                id: old(self).next_pid() as u32,
                name: name@,
                status: initial_status(),
                memory_usage: INITIAL_MEMORY,
            }),
            forall|i: int|
                0 <= i < old(self).processes().len() ==> (#[trigger] old(self).processes()[i]).id
                    < created.id,
            final(self).processes() == old(self).processes().push(created@),
            final(self).next_pid() == old(self).next_pid() + 1,
    {
        let process = Process {
            id: self.next_pid,
            name: String::from_str(name),
            status: String::from_str("running"),
            memory_usage: INITIAL_MEMORY,
        };
        self.next_pid = self.next_pid + 1;
        self.processes.push(process.clone());
        assert(self.processes.deep_view() == old(self).processes.deep_view().push(process@));
        process
    }

    /// The processes that a listing shows, from what the launch of
    /// `listing_command` gave. A listing that failed, or could not be
    /// started, shows no process: the result does not tell a failure from
    /// an empty table.
    pub fn list_processes(&self, launched: Result<ShellOutput, String>) -> (found: Vec<Process>)
        ensures
            found.deep_view() == listed_processes(launched),
            shell_result(launched) is Err ==> found@.len() == 0,
            launched matches Ok(output) ==> (output.success && valid_utf8(output.stdout@)
                ==> found.deep_view() == table_records(decode_utf8(output.stdout@))),
    {
        match self.execute_bash(launched) {
            Ok(output) => parse_process_table(output.as_str()),
            Err(_) => {
                let none: Vec<Process> = Vec::new();
                assert(none.deep_view() == Seq::<ProcessView>::empty());
                none
            },
        }
    }

    /// Whether the process `pid` was ended, from what the launch of
    /// `killing_command(pid)` gave. A failure names the process and holds
    /// the reason.
    pub fn kill_process(&self, pid: u32, launched: Result<ShellOutput, String>) -> (result: Result<
        (),
        String,
    >)
        ensures
            match shell_result(launched) {
                Ok(_) => result is Ok,
                Err(reason) => result matches Err(message) && message@ == kill_failure(pid, reason)
                    && holds_text(message@, decimal(pid as nat)) && holds_text(message@, reason),
            },
    {
        match self.execute_bash(launched) {
            Ok(_) => Ok(()),
            Err(reason) => {
                let mut message = String::from_str("Erro ao matar processo Linux ");
                push_decimal(&mut message, pid);
                message.append(": ");
                message.append(reason.as_str());
                proof {
                    lemma_kill_failure_tells(pid, reason@);
                }
                Err(message)
            },
        }
    }

    /// What the kernel says of the system it stands for.
    pub fn get_system_info(&self) -> (info: SystemInfo)
        requires
            self.wf(),
        ensures
            info@ == host_system(),
    {
        self.system_info.clone()
    }
}

/// The command whose output `Kernel::list_processes` reads.
pub fn list_command() -> (command: &'static str)
    ensures
        command@ == listing_command(),
{
    "ps -eo pid,comm,stat,rss --no-headers"
}

/// The command whose outcome `Kernel::kill_process` reads.
pub fn kill_command(pid: u32) -> (command: String)
    ensures
        command@ == killing_command(pid),
{
    let mut command = String::from_str("kill -9 ");
    push_decimal(&mut command, pid);
    command
}

} // verus!
