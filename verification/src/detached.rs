use crate::text::{contains, has_substring};
use vstd::prelude::*;
use vstd::string::StringExecFns;

verus! {

/// A snapshot of the machine's state as the `sysinfo` crate takes it, held
/// as an opaque value.
#[verifier::external_type_specification]
#[verifier::external_body]
pub struct ExSystem(sysinfo::System);

/// One process of such a snapshot, held as an opaque value.
#[verifier::external_type_specification]
#[verifier::external_body]
pub struct ExProcess(sysinfo::Process);

/// `System::new_all`: a snapshot with everything loaded, the process table
/// with it. Nothing is claimed of what it holds.
#[verifier::external_body]
fn snapshot() -> sysinfo::System {
    sysinfo::System::new_all()
}

/// `System::process`: the process with this id in the snapshot, or nothing
/// where the snapshot has none. Nothing is claimed of which it is.
#[verifier::external_body]
fn find_process(system: &sysinfo::System, pid: usize) -> Option<&sysinfo::Process> {
    system.process(sysinfo::Pid::from(pid))
}

/// `Process::environ`: the environment of the process, one string for each
/// variable; bytes that are no text are replaced. Nothing is claimed of what
/// it holds.
#[verifier::external_body]
fn environment(process: &sysinfo::Process) -> Vec<String> {
    process.environ().iter().map(|variable| variable.to_string_lossy().into_owned()).collect()
}

/// Some variable of the environment names the managed runtime.
pub open spec fn names_runtime(environment: Seq<String>) -> bool {
    exists|at: int| 0 <= at < environment.len() && has_substring(#[trigger] environment[at]@, "java"@)
}

/// Whether a recorded process is taken to be the managed server, given what
/// the process table holds for its id: the environment of the process, or
/// nothing where no such process exists.
///
/// The process counts as alive exactly if an id is recorded, the table holds
/// a process for it, and some variable of its environment names the runtime.
pub fn liveness(pid: Option<usize>, process: Option<&Vec<String>>) -> (alive: bool)
    ensures
        alive == (pid is Some && (process matches Some(environment) && names_runtime(environment@))),
{
    if pid.is_none() {
        return false;
    }
    let environment = match process {
        Some(environment) => environment,
        None => {
            return false;
        },
    };
    let mut at: usize = 0;
    while at < environment.len()
        invariant
            at <= environment.len(),
            pid is Some,
            process == Some(environment),
            forall|before: int| 0 <= before < at ==> !has_substring(#[trigger] environment[before]@, "java"@),
        decreases environment.len() - at,
    {
        if contains(environment[at].as_str(), "java") {
            return true;
        }
        at = at + 1;
    }
    false
}

/// Whether the recorded process is taken to be the managed server, by the
/// process table of this machine as it is now.
///
/// Without a recorded id the answer is no, and the table is not consulted.
/// Otherwise the answer is what `liveness` makes of the table's entry.
pub fn status(pid: Option<usize>) -> (alive: bool)
    ensures
        pid is None ==> !alive,
{
    let id = match pid {
        Some(id) => id,
        None => {
            return false;
        },
    };
    let system = snapshot();
    match find_process(&system, id) {
        Some(process) => {
            let variables = environment(process);
            liveness(pid, Some(&variables))
        },
        None => liveness(pid, None),
    }
}

/// The names of the three channels of a session.
#[derive(Debug, PartialEq, Eq)]
pub struct ChannelNames {
    pub input: String,
    pub output: String,
    pub error: String,
}

/// The names of the channels that carry the input, the output and the
/// errors of the process that `identifier` stands for. The same identifier
/// always gives the same three names.
pub fn channel_names(identifier: &str) -> (names: ChannelNames)
    ensures
        names.input@ == identifier@ + "_stdin"@,
        names.output@ == identifier@ + "_stdout"@,
        names.error@ == identifier@ + "_stderr"@,
{
    ChannelNames {
        input: identifier.to_owned().concat("_stdin"),
        output: identifier.to_owned().concat("_stdout"),
        error: identifier.to_owned().concat("_stderr"),
    }
}

} // verus!
