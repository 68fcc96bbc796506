//! Fixing a check: which script a fix runs, and how the script's output is
//! read into a success flag and a message for the user.

use vstd::prelude::*;
use crate::catalog::{CheckId, id_text, law_check_id_round_trip, parse_check_id};
use crate::powershell::{
    CheckEvent, PsRequest, Step, run_ps, run_ps_with_timeout, DEFAULT_TIMEOUT_SECS,
    LONG_TIMEOUT_SECS, REPAIR_TIMEOUT_SECS,
};
use crate::scripts::{
    FIX_TEMP_FILES_SCRIPT, FIX_DISK_SPACE_SCRIPT, FIX_DNS_CACHE_SCRIPT, FIX_WINDOWS_UPDATE_SERVICE_SCRIPT, FIX_PRINT_SPOOLER_SCRIPT, FIX_WINSOCK_RESET_SCRIPT, FIX_RESTORE_POINT_SCRIPT, FIX_WINDOWS_UPDATE_CACHE_SCRIPT, FIX_DEFENDER_SCAN_SCRIPT, FIX_STARTUP_PROGRAMS_SCRIPT, FIX_STEAM_CACHE_SCRIPT, FIX_STEAM_RESET_SCRIPT, FIX_EPIC_CACHE_SCRIPT, FIX_EPIC_LAUNCHER_RESET_SCRIPT, FIX_SYSTEM_FILE_CHECK_SCRIPT, FIX_GPU_SHADER_CACHE_SCRIPT, FIX_GPU_DRIVER_HEALTH_SCRIPT, FIX_GPU_RESTART_DRIVER_SCRIPT, FIX_DISK_HEALTH_SCRIPT, FIX_DEVICE_PROBLEMS_SCRIPT, FIX_BATTERY_HEALTH_SCRIPT, FIX_MEMORY_CHECK_SCRIPT,
};
use crate::text::{chars_of, same_text, split_once, split_once_chars, string_of, trim, trim_chars};

verus! {

/// What a fix did: whether it succeeded, and the text to show.
pub struct FixResult {
    pub success: bool,
    pub output: String,
}

impl View for FixResult {
    type V = (bool, Seq<char>);

    open spec fn view(&self) -> (bool, Seq<char>) {
        (self.success, self.output@)
    }
}

/// What a fix asks for next: a PowerShell run, or nothing more, with its
/// result.
pub enum FixAction {
    Run(PsRequest),
    Finish(FixResult),
}

impl View for FixAction {
    type V = Step<(Seq<char>, u64), (bool, Seq<char>)>;

    open spec fn view(&self) -> Step<(Seq<char>, u64), (bool, Seq<char>)> {
        match self {
            FixAction::Run(q) => Step::Run(q@),
            FixAction::Finish(r) => Step::Finish(r@),
        }
    }
}

/// The script a fix runs and its time limit.
pub open spec fn fix_request(c: CheckId) -> (Seq<char>, u64) {
    match c {
        CheckId::TempFiles => (FIX_TEMP_FILES_SCRIPT@, DEFAULT_TIMEOUT_SECS),
        CheckId::DiskSpace => (FIX_DISK_SPACE_SCRIPT@, DEFAULT_TIMEOUT_SECS),
        CheckId::DnsCache => (FIX_DNS_CACHE_SCRIPT@, DEFAULT_TIMEOUT_SECS),
        CheckId::WindowsUpdateService => (FIX_WINDOWS_UPDATE_SERVICE_SCRIPT@, DEFAULT_TIMEOUT_SECS),
        CheckId::PrintSpooler => (FIX_PRINT_SPOOLER_SCRIPT@, DEFAULT_TIMEOUT_SECS),
        CheckId::WinsockReset => (FIX_WINSOCK_RESET_SCRIPT@, DEFAULT_TIMEOUT_SECS),
        CheckId::RestorePoint => (FIX_RESTORE_POINT_SCRIPT@, DEFAULT_TIMEOUT_SECS),
        CheckId::WindowsUpdateCache => (FIX_WINDOWS_UPDATE_CACHE_SCRIPT@, REPAIR_TIMEOUT_SECS),
        CheckId::DefenderScan => (FIX_DEFENDER_SCAN_SCRIPT@, DEFAULT_TIMEOUT_SECS),
        CheckId::StartupPrograms => (FIX_STARTUP_PROGRAMS_SCRIPT@, DEFAULT_TIMEOUT_SECS),
        CheckId::SteamCache => (FIX_STEAM_CACHE_SCRIPT@, DEFAULT_TIMEOUT_SECS),
        CheckId::SteamReset => (FIX_STEAM_RESET_SCRIPT@, DEFAULT_TIMEOUT_SECS),
        CheckId::EpicCache => (FIX_EPIC_CACHE_SCRIPT@, DEFAULT_TIMEOUT_SECS),
        CheckId::EpicLauncherReset => (FIX_EPIC_LAUNCHER_RESET_SCRIPT@, DEFAULT_TIMEOUT_SECS),
        CheckId::SystemFileCheck => (FIX_SYSTEM_FILE_CHECK_SCRIPT@, REPAIR_TIMEOUT_SECS),
        CheckId::GpuShaderCache => (FIX_GPU_SHADER_CACHE_SCRIPT@, DEFAULT_TIMEOUT_SECS),
        CheckId::GpuDriverHealth => (FIX_GPU_DRIVER_HEALTH_SCRIPT@, DEFAULT_TIMEOUT_SECS),
        CheckId::GpuRestartDriver => (FIX_GPU_RESTART_DRIVER_SCRIPT@, LONG_TIMEOUT_SECS),
        CheckId::DiskHealth => (FIX_DISK_HEALTH_SCRIPT@, DEFAULT_TIMEOUT_SECS),
        CheckId::DeviceProblems => (FIX_DEVICE_PROBLEMS_SCRIPT@, LONG_TIMEOUT_SECS),
        CheckId::BatteryHealth => (FIX_BATTERY_HEALTH_SCRIPT@, DEFAULT_TIMEOUT_SECS),
        CheckId::MemoryCheck => (FIX_MEMORY_CHECK_SCRIPT@, DEFAULT_TIMEOUT_SECS),
    }
}

/// The reading of the repair script's report, which begins with a line
/// `STATUS:ok`, `STATUS:warn` or `STATUS:fail` and goes on with the
/// message: the repair succeeded only where that line says `STATUS:ok`.
pub open spec fn repair_verdict(out: Seq<char>) -> (bool, Seq<char>) {
    let (status_line, body) = match split_once(out, '\n') {
        Some((a, b)) => (a, b),
        None => (Seq::<char>::empty(), out),
    };
    (trim(status_line) == "STATUS:ok"@, trim(body))
}

/// What the fix of `c` reports once its script has run: `ok` is whether
/// the run succeeded and `out` the text it gave.
pub open spec fn fix_verdict(c: CheckId, ok: bool, out: Seq<char>) -> (bool, Seq<char>) {
    if c == CheckId::SystemFileCheck && ok {
        repair_verdict(out)
    } else {
        (ok, out)
    }
}

/// The result of fixing a check whose id is unknown.
pub open spec fn unknown_fix() -> (bool, Seq<char>) {
    (false, "Unknown check."@)
}

/// The next step of fixing the check whose id is `id`, when `ran` is
/// `None` at the start, or the success flag and text of the run it asked
/// for.
pub open spec fn fix_step(id: Seq<char>, ran: Option<(bool, Seq<char>)>) -> Step<
    (Seq<char>, u64),
    (bool, Seq<char>),
> {
    match parse_check_id(id) {
        None => Step::Finish(unknown_fix()),
        Some(c) => match ran {
            None => Step::Run(fix_request(c)),
            Some((ok, out)) => Step::Finish(fix_verdict(c, ok, out)),
        },
    }
}

/// The script that the fix of `c` runs.
pub fn fix_script(c: CheckId) -> (r: PsRequest)
    ensures
        r@ == fix_request(c),
{
    match c {
        CheckId::TempFiles => run_ps(FIX_TEMP_FILES_SCRIPT),
        CheckId::DiskSpace => run_ps(FIX_DISK_SPACE_SCRIPT),
        CheckId::DnsCache => run_ps(FIX_DNS_CACHE_SCRIPT),
        CheckId::WindowsUpdateService => run_ps(FIX_WINDOWS_UPDATE_SERVICE_SCRIPT),
        CheckId::PrintSpooler => run_ps(FIX_PRINT_SPOOLER_SCRIPT),
        CheckId::WinsockReset => run_ps(FIX_WINSOCK_RESET_SCRIPT),
        CheckId::RestorePoint => run_ps(FIX_RESTORE_POINT_SCRIPT),
        CheckId::WindowsUpdateCache => run_ps_with_timeout(FIX_WINDOWS_UPDATE_CACHE_SCRIPT, REPAIR_TIMEOUT_SECS),
        CheckId::DefenderScan => run_ps(FIX_DEFENDER_SCAN_SCRIPT),
        CheckId::StartupPrograms => run_ps(FIX_STARTUP_PROGRAMS_SCRIPT),
        CheckId::SteamCache => run_ps(FIX_STEAM_CACHE_SCRIPT),
        CheckId::SteamReset => run_ps(FIX_STEAM_RESET_SCRIPT),
        CheckId::EpicCache => run_ps(FIX_EPIC_CACHE_SCRIPT),
        CheckId::EpicLauncherReset => run_ps(FIX_EPIC_LAUNCHER_RESET_SCRIPT),
        CheckId::SystemFileCheck => run_ps_with_timeout(FIX_SYSTEM_FILE_CHECK_SCRIPT, REPAIR_TIMEOUT_SECS),
        CheckId::GpuShaderCache => run_ps(FIX_GPU_SHADER_CACHE_SCRIPT),
        CheckId::GpuDriverHealth => run_ps(FIX_GPU_DRIVER_HEALTH_SCRIPT),
        CheckId::GpuRestartDriver => run_ps_with_timeout(FIX_GPU_RESTART_DRIVER_SCRIPT, LONG_TIMEOUT_SECS),
        CheckId::DiskHealth => run_ps(FIX_DISK_HEALTH_SCRIPT),
        CheckId::DeviceProblems => run_ps_with_timeout(FIX_DEVICE_PROBLEMS_SCRIPT, LONG_TIMEOUT_SECS),
        CheckId::BatteryHealth => run_ps(FIX_BATTERY_HEALTH_SCRIPT),
        CheckId::MemoryCheck => run_ps(FIX_MEMORY_CHECK_SCRIPT),
    }
}

/// Reads the report of the repair script.
pub fn read_repair_report(out: &str) -> (r: FixResult)
    ensures
        r@ == repair_verdict(out@),
{
    let v = chars_of(out);
    let (status_line, body) = match split_once_chars(&v, '\n') {
        Some((a, b)) => (a, b),
        None => (Vec::new(), v),
    };
    let success = same_text(&trim_chars(&status_line), "STATUS:ok");
    FixResult { success, output: string_of(&trim_chars(&body)) }
}

/// Reads what the fix script of `c` gave: `ok` is whether the run
/// succeeded and `out` the text it reported.
pub fn interpret_fix(c: CheckId, ok: bool, out: String) -> (r: FixResult)
    ensures
        r@ == fix_verdict(c, ok, out@),
{
    if c == CheckId::SystemFileCheck && ok {
        read_repair_report(out.as_str())
    } else {
        FixResult { success: ok, output: out }
    }
}

/// One step of fixing the check whose id is `id`. At `Start` it asks for
/// the check's fix script, or finishes at once where the id is unknown;
/// once the script has run, it reads the run's result.
pub fn fix_check_blocking(id: &str, event: CheckEvent) -> (r: FixAction)
    ensures
        r@ == fix_step(id@, event@),
{
    match CheckId::from_id(id) {
        None => FixAction::Finish(
            FixResult { success: false, output: String::from_str("Unknown check.") },
        ),
        Some(c) => match event {
            CheckEvent::Start => FixAction::Run(fix_script(c)),
            CheckEvent::Ran { ok, out } => FixAction::Finish(interpret_fix(c, ok, out)),
        },
    }
}

/// A fix whose script could not run to success never reports success.
pub proof fn law_failed_fix_run_fails(c: CheckId, out: Seq<char>)
    ensures
        !fix_verdict(c, false, out).0,
{
}

/// Every listed check can be fixed: at the start its fix asks for the
/// check's fix script.
pub proof fn law_listed_checks_fix(c: CheckId)
    ensures
        fix_step(id_text(c), None) == Step::<(Seq<char>, u64), (bool, Seq<char>)>::Run(
            fix_request(c),
        ),
{
    law_check_id_round_trip(c);
}

/// Each check's fix runs the fix script written for that check, with a
/// minute to run; the component-store repairs get 45 minutes, and the
/// device and graphics-driver restarts five.
pub proof fn law_each_fix_runs_its_own_script(c: CheckId)
    ensures
        match c {
            CheckId::TempFiles => fix_request(c) == (FIX_TEMP_FILES_SCRIPT@, 60u64),
            CheckId::DiskSpace => fix_request(c) == (FIX_DISK_SPACE_SCRIPT@, 60u64),
            CheckId::DnsCache => fix_request(c) == (FIX_DNS_CACHE_SCRIPT@, 60u64),
            CheckId::WindowsUpdateService => fix_request(c) == (FIX_WINDOWS_UPDATE_SERVICE_SCRIPT@, 60u64),
            CheckId::PrintSpooler => fix_request(c) == (FIX_PRINT_SPOOLER_SCRIPT@, 60u64),
            CheckId::WinsockReset => fix_request(c) == (FIX_WINSOCK_RESET_SCRIPT@, 60u64),
            CheckId::RestorePoint => fix_request(c) == (FIX_RESTORE_POINT_SCRIPT@, 60u64),
            CheckId::WindowsUpdateCache => fix_request(c) == (FIX_WINDOWS_UPDATE_CACHE_SCRIPT@, 2700u64),
            CheckId::DefenderScan => fix_request(c) == (FIX_DEFENDER_SCAN_SCRIPT@, 60u64),
            CheckId::StartupPrograms => fix_request(c) == (FIX_STARTUP_PROGRAMS_SCRIPT@, 60u64),
            CheckId::SteamCache => fix_request(c) == (FIX_STEAM_CACHE_SCRIPT@, 60u64),
            CheckId::SteamReset => fix_request(c) == (FIX_STEAM_RESET_SCRIPT@, 60u64),
            CheckId::EpicCache => fix_request(c) == (FIX_EPIC_CACHE_SCRIPT@, 60u64),
            CheckId::EpicLauncherReset => fix_request(c) == (FIX_EPIC_LAUNCHER_RESET_SCRIPT@, 60u64),
            CheckId::SystemFileCheck => fix_request(c) == (FIX_SYSTEM_FILE_CHECK_SCRIPT@, 2700u64),
            CheckId::GpuShaderCache => fix_request(c) == (FIX_GPU_SHADER_CACHE_SCRIPT@, 60u64),
            CheckId::GpuDriverHealth => fix_request(c) == (FIX_GPU_DRIVER_HEALTH_SCRIPT@, 60u64),
            CheckId::GpuRestartDriver => fix_request(c) == (FIX_GPU_RESTART_DRIVER_SCRIPT@, 300u64),
            CheckId::DiskHealth => fix_request(c) == (FIX_DISK_HEALTH_SCRIPT@, 60u64),
            CheckId::DeviceProblems => fix_request(c) == (FIX_DEVICE_PROBLEMS_SCRIPT@, 300u64),
            CheckId::BatteryHealth => fix_request(c) == (FIX_BATTERY_HEALTH_SCRIPT@, 60u64),
            CheckId::MemoryCheck => fix_request(c) == (FIX_MEMORY_CHECK_SCRIPT@, 60u64),
        },
{
}

/// A fix other than the repair reports exactly how its run ended: its
/// success flag and its text, unchanged; a failed repair run does the same.
pub proof fn law_fix_reports_the_run(c: CheckId, ok: bool, out: Seq<char>)
    requires
        c != CheckId::SystemFileCheck || !ok,
    ensures
        fix_verdict(c, ok, out) == (ok, out),
{
}

/// A repair that ran reads its report: it succeeded exactly where the
/// report's first line, trimmed, is `STATUS:ok`, and it shows the rest of
/// the report, trimmed; a report of one line shows that line as failed.
pub proof fn law_repair_reads_status_line(out: Seq<char>)
    ensures
        match split_once(out, '\n') {
            Some((first, rest)) => fix_verdict(CheckId::SystemFileCheck, true, out) == (
                trim(first) == "STATUS:ok"@,
                trim(rest),
            ),
            None => fix_verdict(CheckId::SystemFileCheck, true, out) == (false, trim(out)),
        },
{
    reveal_strlit("STATUS:ok");
    assert(trim(Seq::<char>::empty()) =~= Seq::<char>::empty());
    assert("STATUS:ok"@.len() == 9);
}

/// A fix of an id that names no check fails, saying so.
pub proof fn law_unknown_fix(id: Seq<char>, ran: Option<(bool, Seq<char>)>)
    requires
        parse_check_id(id) is None,
    ensures
        fix_step(id, ran) == Step::<(Seq<char>, u64), (bool, Seq<char>)>::Finish(
            (false, "Unknown check."@),
        ),
{
}

} // verus!
