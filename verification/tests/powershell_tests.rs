use pc_doctor::powershell::{ps_result, run_ps, run_ps_with_timeout, PsOutcome, DEFAULT_TIMEOUT_SECS};

#[test]
fn powershell_requests_carry_time_limits() {
    let q = run_ps("Get-Date");
    assert_eq!(q.script, "Get-Date");
    assert_eq!(q.timeout_secs, DEFAULT_TIMEOUT_SECS);
    assert_eq!(q.timeout_secs, 60);
    let q = run_ps_with_timeout("dism", 300);
    assert_eq!(q.timeout_secs, 300);
}

#[test]
fn powershell_finished_runs_join_output() {
    let (ok, out) = ps_result(PsOutcome::Finished { success: true, stdout: "  hello \r\n".to_string(), stderr: "\n".to_string() }, 60);
    assert!(ok);
    assert_eq!(out, "hello");
    let (ok, out) = ps_result(PsOutcome::Finished { success: false, stdout: "out\n".to_string(), stderr: " warn ".to_string() }, 60);
    assert!(!ok);
    assert_eq!(out, "out\nwarn");
}

#[test]
fn powershell_broken_runs_fail() {
    let (ok, out) = ps_result(PsOutcome::LaunchFailed { error: "not found".to_string() }, 60);
    assert!(!ok);
    assert_eq!(out, "Failed to launch powershell: not found");
    let (ok, out) = ps_result(PsOutcome::WaitFailed { error: "broken pipe".to_string() }, 60);
    assert!(!ok);
    assert_eq!(out, "Failed to run powershell: broken pipe");
    let (ok, out) = ps_result(PsOutcome::TimedOut, 2700);
    assert!(!ok);
    assert_eq!(out, "Timed out after 2700s. This can happen on the first run if a required PowerShell module needs to be downloaded over a slow connection — try again once it's installed.");
}

#[test]
fn powershell_arguments() {
    assert_eq!(
        pc_doctor::powershell::powershell_args("Get-Date"),
        vec!["-NoProfile", "-NonInteractive", "-ExecutionPolicy", "Bypass", "-Command", "Get-Date"]
    );
}
