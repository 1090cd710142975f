//! Launching external processes detached from the caller, and a placeholder
//! liveness query.
//!
//! The library holds the decidable part of the work: describing what to
//! launch, turning the operating system's answer into the caller-facing
//! result, and the (deliberately inert) liveness check. The process-creation
//! system call itself is performed by the surrounding application, which
//! hands its outcome back to [`launch_outcome`].

use vstd::prelude::*;
use vstd::string::StringExecFns;

verus! {

/// A description of a process to start: the program to run (an absolute
/// path, a relative path, or a name resolved through the platform's search
/// rules), its arguments in order, and an optional starting directory for
/// the child. When `cwd` is absent the child inherits the caller's working
/// directory.
pub struct LaunchSpec {
    pub exe: String,
    pub args: Vec<String>,
    pub cwd: Option<String>,
}

/// The message reported when the operating system refuses or fails to
/// create a requested process: a fixed prefix, the attempted executable,
/// and the system's own description of the failure, separated by a dash.
pub open spec fn launch_failure_message(exe: Seq<char>, os_error: Seq<char>) -> Seq<char> {
    "Failed to launch: "@ + exe + " — "@ + os_error
}

/// Builds the failure message for a refused launch of `exe`, where
/// `os_error` is the operating system's description of the refusal.
pub fn launch_error_message(exe: &str, os_error: &str) -> (r: String)
    ensures
        r@ == launch_failure_message(exe@, os_error@),
{
    let mut m = String::new();
    m.append("Failed to launch: ");
    m.append(exe);
    m.append(" — ");
    m.append(os_error);
    proof {
        assert(m@ =~= launch_failure_message(exe@, os_error@));
    }
    m
}

/// Completes a launch attempt from the operating system's answer.
///
/// A confirmed creation is reported as plain success: nothing about the
/// child (not even its identifier) is kept or returned, and the child's
/// lifetime is from here on independent of the caller. A refusal is
/// reported as the formatted failure message embedding the attempted
/// executable and the system's error description, untouched otherwise.
pub fn launch_outcome(spec: &LaunchSpec, creation: Result<(), String>) -> (r: Result<(), String>)
    ensures
        creation is Ok ==> r == Ok::<(), String>(()),
        creation matches Err(e) ==> (r matches Err(m) && m@ == launch_failure_message(
            spec.exe@,
            e@,
        )),
{
    match creation {
        Ok(()) => Ok(()),
        Err(e) => Err(launch_error_message(spec.exe.as_str(), e.as_str())),
    }
}

/// Law: a launch failure message embeds the attempted executable verbatim.
/// It stands as a contiguous run of the message, directly after the fixed
/// prefix, whatever the executable and the system's error description are;
/// the message's length accounts for every part and nothing else.
pub proof fn lemma_failure_message_embeds_exe(exe: Seq<char>, os_error: Seq<char>)
    ensures
        launch_failure_message(exe, os_error).len() == 18 + exe.len() + 3 + os_error.len(),
        launch_failure_message(exe, os_error).subrange(18, 18 + exe.len() as int) == exe,
{
    reveal_strlit("Failed to launch: ");
    reveal_strlit(" — ");
    assert(launch_failure_message(exe, os_error).subrange(18, 18 + exe.len() as int) =~= exe);
}

/// Reports whether the process with the given identifier is running.
///
/// No record of spawned children is kept, so no identifier can be
/// correlated with a live process: the answer is `false` for every input,
/// and the error channel of the result is never used. This placeholder
/// behaviour is deliberate and must not be "corrected" into a real
/// liveness check without a process registry.
pub fn is_process_running(_pid: u32) -> (r: Result<bool, String>)
    ensures
        r == Ok::<bool, String>(false),
{
    Ok(false)
}

} // verus!
