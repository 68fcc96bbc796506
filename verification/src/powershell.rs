//! A PowerShell run as the library sees it: the request (which script, how
//! long it may take) and the reading of how the run ended into a success
//! flag and the text shown to the user.

use vstd::prelude::*;
use crate::number::{decimal, push_decimal};
use crate::text::{push_chars, trim, trim_str};

verus! {

/// How long most scripts may run, in seconds.
pub const DEFAULT_TIMEOUT_SECS: u64 = 60;

/// How long scripts that download or scan the system may run, in seconds.
pub const LONG_TIMEOUT_SECS: u64 = 300;

/// How long repairs of Windows' component store may run, in seconds.
pub const REPAIR_TIMEOUT_SECS: u64 = 2700;

/// A script to run and the number of seconds after which it is stopped.
pub struct PsRequest {
    pub script: &'static str,
    pub timeout_secs: u64,
}

impl View for PsRequest {
    type V = (Seq<char>, u64);

    open spec fn view(&self) -> (Seq<char>, u64) {
        (self.script@, self.timeout_secs)
    }
}

/// A request to run `script` with the default time limit.
pub fn run_ps(script: &'static str) -> (r: PsRequest)
    ensures
        r@ == (script@, DEFAULT_TIMEOUT_SECS),
{
    PsRequest { script, timeout_secs: DEFAULT_TIMEOUT_SECS }
}

/// A request to run `script`, stopped after `timeout_secs` seconds.
pub fn run_ps_with_timeout(script: &'static str, timeout_secs: u64) -> (r: PsRequest)
    ensures
        r@ == (script@, timeout_secs),
{
    PsRequest { script, timeout_secs }
}

/// The arguments with which `powershell.exe` runs `script`: no profile, no
/// prompts, no execution policy in the way.
pub open spec fn powershell_args_spec(script: Seq<char>) -> Seq<Seq<char>> {
    seq![
        "-NoProfile"@,
        "-NonInteractive"@,
        "-ExecutionPolicy"@,
        "Bypass"@,
        "-Command"@,
        script,
    ]
}

/// The arguments with which `powershell.exe` runs `script`.
pub fn powershell_args(script: &str) -> (r: Vec<String>)
    ensures
        r@.len() == 6,
        forall|i: int| 0 <= i < 6 ==> #[trigger] r@[i]@ == powershell_args_spec(script@)[i],
{
    let r = vec![
        String::from_str("-NoProfile"),
        String::from_str("-NonInteractive"),
        String::from_str("-ExecutionPolicy"),
        String::from_str("Bypass"),
        String::from_str("-Command"),
        String::from_str(script),
    ];
    r
}

/// What comes to a fix's state machine: the start of the work, or the end
/// of the PowerShell run it asked for, with the run's success flag and text.
pub enum CheckEvent {
    Start,
    Ran { ok: bool, out: String },
}

impl View for CheckEvent {
    type V = Option<(bool, Seq<char>)>;

    open spec fn view(&self) -> Option<(bool, Seq<char>)> {
        match self {
            CheckEvent::Start => None,
            CheckEvent::Ran { ok, out } => Some((*ok, out@)),
        }
    }
}

/// What a check's state machine does next: start a run that nobody waits
/// for, ask for a run and wait for its result, or finish with a result.
pub enum Step<R, F> {
    Background(R),
    Run(R),
    Finish(F),
}

/// How a PowerShell run ended, with its output already decoded as text.
pub enum PsOutcome {
    /// The process could not be started; `error` describes why.
    LaunchFailed { error: String },
    /// The process ran to its end.
    Finished { success: bool, stdout: String, stderr: String },
    /// Waiting for the process failed; `error` describes why.
    WaitFailed { error: String },
    /// The process did not end within its time limit and was stopped.
    TimedOut,
}

/// The text of a finished run: standard output, and standard error on a
/// line of its own where there was any.
pub open spec fn combined_output(stdout: Seq<char>, stderr: Seq<char>) -> Seq<char> {
    if stderr.len() == 0 {
        stdout
    } else {
        stdout + seq!['\n'] + stderr
    }
}

/// The message of a run that was stopped after `secs` seconds.
pub open spec fn timeout_message(secs: u64) -> Seq<char> {
    "Timed out after "@ + decimal(secs as nat)
        + "s. This can happen on the first run if a required PowerShell module needs to be downloaded over a slow connection — try again once it's installed."@
}

/// Whether a run succeeded, and the text it reports, for each way a run
/// can end; `secs` is the time limit it ran under.
pub open spec fn ps_result_spec(o: PsOutcome, secs: u64) -> (bool, Seq<char>) {
    match o {
        PsOutcome::LaunchFailed { error } => (false, "Failed to launch powershell: "@ + error@),
        PsOutcome::Finished { success, stdout, stderr } => (
            success,
            combined_output(trim(stdout@), trim(stderr@)),
        ),
        PsOutcome::WaitFailed { error } => (false, "Failed to run powershell: "@ + error@),
        PsOutcome::TimedOut => (false, timeout_message(secs)),
    }
}

/// Reads how a run that had `timeout_secs` seconds ended: whether it
/// succeeded, and the text to show.
pub fn ps_result(outcome: PsOutcome, timeout_secs: u64) -> (r: (bool, String))
    ensures
        (r.0, r.1@) == ps_result_spec(outcome, timeout_secs),
{
    match outcome {
        PsOutcome::LaunchFailed { error } => {
            let mut s = String::new();
            s.append("Failed to launch powershell: ");
            s.append(error.as_str());
            (false, s)
        },
        PsOutcome::Finished { success, stdout, stderr } => {
            let mut out = trim_str(stdout.as_str());
            let err = trim_str(stderr.as_str());
            if err.as_str().unicode_len() != 0 {
                out.append("\n");
                out.append(err.as_str());
                proof {
                    reveal_strlit("\n");
                }
            }
            (success, out)
        },
        PsOutcome::WaitFailed { error } => {
            let mut s = String::new();
            s.append("Failed to run powershell: ");
            s.append(error.as_str());
            (false, s)
        },
        PsOutcome::TimedOut => {
            let mut s = String::new();
            s.append("Timed out after ");
            let mut digits: Vec<char> = Vec::new();
            push_decimal(&mut digits, timeout_secs);
            push_chars(&mut s, &digits);
            s.append(
                "s. This can happen on the first run if a required PowerShell module needs to be downloaded over a slow connection — try again once it's installed.",
            );
            (false, s)
        },
    }
}

/// A failed start, a failed wait and a time-out are always reported as
/// failures, whatever text goes with them.
pub proof fn law_broken_runs_fail(o: PsOutcome, secs: u64)
    requires
        !(o is Finished),
    ensures
        !ps_result_spec(o, secs).0,
{
}

/// A finished run is reported as a success exactly when the process ended
/// with success, whatever it wrote; its text is its standard output, and
/// its standard error on a line of its own after it where there was any,
/// each without surrounding white space.
pub proof fn law_finished_run_reports_exit_status(
    success: bool,
    stdout: String,
    stderr: String,
    secs: u64,
)
    ensures
        ps_result_spec(PsOutcome::Finished { success, stdout, stderr }, secs).0 == success,
        trim(stderr@).len() == 0 ==> ps_result_spec(
            PsOutcome::Finished { success, stdout, stderr },
            secs,
        ).1 == trim(stdout@),
        trim(stderr@).len() > 0 ==> ps_result_spec(
            PsOutcome::Finished { success, stdout, stderr },
            secs,
        ).1 == trim(stdout@) + seq!['\n'] + trim(stderr@),
{
}

/// A run that could not start, could not be waited for, or ran out of
/// time says so, naming the error or the time limit.
pub proof fn law_broken_runs_explain(error: String, secs: u64)
    ensures
        ps_result_spec(PsOutcome::LaunchFailed { error }, secs).1
            == "Failed to launch powershell: "@ + error@,
        ps_result_spec(PsOutcome::WaitFailed { error }, secs).1
            == "Failed to run powershell: "@ + error@,
        ps_result_spec(PsOutcome::TimedOut, secs).1.take(16) == "Timed out after "@,
        ps_result_spec(PsOutcome::TimedOut, secs).1.subrange(16, 16 + decimal(secs as nat).len() as int)
            == decimal(secs as nat),
{
    reveal_strlit("Timed out after ");
    let a = "Timed out after "@;
    let d = decimal(secs as nat);
    let b = "s. This can happen on the first run if a required PowerShell module needs to be downloaded over a slow connection — try again once it's installed."@;
    assert(a.len() == 16);
    assert((a + d + b).take(16) =~= a);
    assert((a + d + b).subrange(16, 16 + d.len() as int) =~= d);
}

/// `powershell.exe` is run without a profile or prompts, with the
/// execution policy bypassed, on the script itself as the command.
pub proof fn law_powershell_runs_the_script(script: Seq<char>)
    ensures
        powershell_args_spec(script).len() == 6,
        powershell_args_spec(script)[0] == "-NoProfile"@,
        powershell_args_spec(script)[1] == "-NonInteractive"@,
        powershell_args_spec(script)[2] == "-ExecutionPolicy"@,
        powershell_args_spec(script)[3] == "Bypass"@,
        powershell_args_spec(script)[4] == "-Command"@,
        powershell_args_spec(script)[5] == script,
{
}

} // verus!
