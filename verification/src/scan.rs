//! Scanning a check: which script a scan runs, and how the script's output
//! is read into a status and a detail for the user.

use vstd::prelude::*;
use crate::size::{
    NumberKind, Reading, format_size_spec, parse_reading, parse_reading_spec, value_above,
    value_below, law_whole_numbers,
};
use crate::catalog::{CheckId, id_text, law_check_id_round_trip, parse_check_id};
use crate::number::{
    decimal, format_i32, format_i32_chars, parse_i32_chars, parse_i32_spec,
};
use crate::powershell::{
    PsRequest, Step, run_ps, run_ps_with_timeout, DEFAULT_TIMEOUT_SECS, LONG_TIMEOUT_SECS,
};
use crate::scripts::{
    UPDATE_NUDGE_SCRIPT, SCAN_BATTERY_HEALTH_SCRIPT, SCAN_DEFENDER_SCAN_SCRIPT, SCAN_DEVICE_PROBLEMS_SCRIPT, SCAN_DISK_HEALTH_SCRIPT, SCAN_DISK_SPACE_SCRIPT, SCAN_EPIC_CACHE_SCRIPT, SCAN_EPIC_LAUNCHER_RESET_SCRIPT, SCAN_GPU_DRIVER_HEALTH_SCRIPT, SCAN_GPU_SHADER_CACHE_SCRIPT, SCAN_MEMORY_CHECK_SCRIPT, SCAN_PRINT_SPOOLER_SCRIPT, SCAN_STARTUP_PROGRAMS_SCRIPT, SCAN_STEAM_CACHE_SCRIPT, SCAN_STEAM_RESET_SCRIPT, SCAN_SYSTEM_FILE_CHECK_SCRIPT, SCAN_TEMP_FILES_SCRIPT, SCAN_WINDOWS_UPDATE_CACHE_SCRIPT, SCAN_WINDOWS_UPDATE_SERVICE_SCRIPT,
};
use crate::text::{
    chars_of, contains, contains_text, eq_ignore_ascii_case, eq_ignore_case,
    lowercase, push_chars, same_text, split_once, split_once_chars, string_of,
    to_lowercase, trim, trim_chars, law_trim_idempotent, lemma_trim_shorter,
};

verus! {

/// The verdict of a scan.
#[derive(Clone, Copy, PartialEq, Eq, Structural, Debug)]
pub enum ScanStatus {
    /// Nothing needs attention (`"ok"`).
    Healthy,
    /// Something needs attention (`"issue"`).
    Issue,
    /// The scan itself failed (`"error"`).
    Error,
}

impl ScanStatus {
    /// The word by which the user interface knows the status.
    pub open spec fn word(self) -> Seq<char> {
        match self {
            ScanStatus::Healthy => "ok"@,
            ScanStatus::Issue => "issue"@,
            ScanStatus::Error => "error"@,
        }
    }

    /// The word by which the user interface knows the status.
    pub fn as_str(&self) -> (r: &'static str)
        ensures
            r@ == self.word(),
    {
        match self {
            ScanStatus::Healthy => "ok",
            ScanStatus::Issue => "issue",
            ScanStatus::Error => "error",
        }
    }
}

/// The status that the word `w` names, or `None` where it names none.
pub open spec fn status_of_word(w: Seq<char>) -> Option<ScanStatus> {
    if w == ScanStatus::Healthy.word() {
        Some(ScanStatus::Healthy)
    } else if w == ScanStatus::Issue.word() {
        Some(ScanStatus::Issue)
    } else if w == ScanStatus::Error.word() {
        Some(ScanStatus::Error)
    } else {
        None
    }
}

impl ScanStatus {
    /// The status that the word `w` names, or `None` where it names none.
    pub fn from_word(w: &str) -> (r: Option<ScanStatus>)
        ensures
            r == status_of_word(w@),
    {
        let v = chars_of(w);
        if same_text(&v, "ok") {
            Some(ScanStatus::Healthy)
        } else if same_text(&v, "issue") {
            Some(ScanStatus::Issue)
        } else if same_text(&v, "error") {
            Some(ScanStatus::Error)
        } else {
            None
        }
    }
}

/// What a scan found: its status and a sentence for the user.
pub struct ScanResult {
    pub status: ScanStatus,
    pub detail: String,
}

impl View for ScanResult {
    type V = (ScanStatus, Seq<char>);

    open spec fn view(&self) -> (ScanStatus, Seq<char>) {
        (self.status, self.detail@)
    }
}

/// What a scan asks for next: a PowerShell run to start without waiting
/// for it, a run whose result it needs, or nothing more, with its result.
pub enum ScanAction {
    Background(PsRequest),
    Run(PsRequest),
    Finish(ScanResult),
}

impl View for ScanAction {
    type V = Step<(Seq<char>, u64), (ScanStatus, Seq<char>)>;

    open spec fn view(&self) -> Step<(Seq<char>, u64), (ScanStatus, Seq<char>)> {
        match self {
            ScanAction::Background(q) => Step::Background(q@),
            ScanAction::Run(q) => Step::Run(q@),
            ScanAction::Finish(r) => Step::Finish(r@),
        }
    }
}

/// The reading of a size: the number the text writes, or zero where it
/// writes none.
pub open spec fn read_size(s: Seq<char>) -> (NumberKind, bool, Seq<char>, int) {
    match parse_reading_spec(s) {
        Some(d) => d,
        None => whole_reading(0),
    }
}

/// The reading of the whole number `n`.
pub open spec fn whole_reading(n: nat) -> (NumberKind, bool, Seq<char>, int) {
    (NumberKind::Finite, false, decimal(n), decimal(n).len() as int)
}

/// The reading of a count: the `i32` the text writes, or zero where it
/// writes none.
pub open spec fn read_count(s: Seq<char>) -> i32 {
    match parse_i32_spec(s) {
        Some(n) => n,
        None => 0,
    }
}

/// The verdict on a cache of `mb` megabytes that needs cleaning above
/// `limit` megabytes.
pub open spec fn size_verdict(mb: (NumberKind, bool, Seq<char>, int), limit: nat, issue_tail: Seq<char>, ok_tail: Seq<char>) -> (
    ScanStatus,
    Seq<char>,
) {
    if value_above(mb, limit) {
        (ScanStatus::Issue, format_size_spec(mb) + issue_tail)
    } else {
        (ScanStatus::Healthy, "Only "@ + format_size_spec(mb) + ok_tail)
    }
}

/// The verdict on the output `t` of the free-space script, which prints the
/// free percentage and the free gigabytes separated by a comma.
pub open spec fn disk_space_verdict(t: Seq<char>) -> (ScanStatus, Seq<char>) {
    let (first, second) = match split_once(t, ',') {
        None => (t, None),
        Some((a, rest)) => (
            a,
            Some(
                match split_once(rest, ',') {
                    Some((b, _)) => b,
                    None => rest,
                },
            ),
        ),
    };
    let pct = match parse_reading_spec(first) {
        Some(p) => p,
        None => whole_reading(100),
    };
    let gb = match second {
        Some(b) => read_size(b),
        None => whole_reading(0),
    };
    let tail = "% ("@ + format_size_spec(gb) + " GB) free on C:."@;
    if value_below(pct, 10) {
        (ScanStatus::Issue, "Only "@ + format_size_spec(pct) + tail)
    } else {
        (ScanStatus::Healthy, format_size_spec(pct) + tail)
    }
}

/// The verdict on the output `t` of the Windows Update cache script, which
/// prints the cache size and whether the component store can be cleaned,
/// separated by `|`.
pub open spec fn update_cache_verdict(t: Seq<char>) -> (ScanStatus, Seq<char>) {
    let (size_text, advice) = match split_once(t, '|') {
        Some((a, b)) => (a, b),
        None => (t, "no"@),
    };
    let mb = read_size(trim(size_text));
    let store = eq_ignore_ascii_case(trim(advice), "yes"@);
    if value_above(mb, 500) && store {
        (
            ScanStatus::Issue,
            format_size_spec(mb)
                + " MB in the download cache, plus reclaimable space in the component store."@,
        )
    } else if value_above(mb, 500) {
        (ScanStatus::Issue, format_size_spec(mb) + " MB of old Windows Update files found."@)
    } else if store {
        (
            ScanStatus::Issue,
            "Superseded Windows Update files can be reclaimed from the component store."@,
        )
    } else {
        (
            ScanStatus::Healthy,
            "Only "@ + format_size_spec(mb)
                + " MB in the download cache and nothing reclaimable in the component store."@,
        )
    }
}

/// The verdict on the word the Defender script prints.
pub open spec fn defender_verdict(t: Seq<char>) -> (ScanStatus, Seq<char>) {
    if t == "ok"@ {
        (ScanStatus::Healthy, "Real-time protection is on and virus definitions are current."@)
    } else if t == "disabled"@ {
        (ScanStatus::Issue, "Real-time protection is off. A quick scan is still available."@)
    } else if t == "stale"@ {
        (ScanStatus::Issue, "Virus definitions are more than 7 days old. Running a quick scan."@)
    } else {
        (
            ScanStatus::Healthy,
            "Windows Defender status unavailable (another antivirus may be active). Quick scan still available."@,
        )
    }
}

/// The verdict on a service whose status the script prints.
pub open spec fn service_verdict(ok: bool, out: Seq<char>, running: Seq<char>, other: Seq<char>) -> (
    ScanStatus,
    Seq<char>,
) {
    if !ok {
        (ScanStatus::Error, out)
    } else if eq_ignore_ascii_case(trim(out), "Running"@) {
        (ScanStatus::Healthy, running)
    } else {
        (ScanStatus::Issue, other + trim(out))
    }
}

/// The verdict on the lower-cased report of DISM's health check.
pub open spec fn system_file_verdict_spec(lower: Seq<char>) -> (ScanStatus, Seq<char>) {
    if contains(lower, "repairable"@) || contains(lower, "corruption was detected"@) {
        (ScanStatus::Issue, "Component store corruption detected. Repair is available."@)
    } else if contains(lower, "no component store corruption detected"@) {
        (ScanStatus::Healthy, "No system file corruption detected."@)
    } else {
        (ScanStatus::Healthy, "Quick check didn't find a flagged issue."@)
    }
}

/// The verdict on a script that prints one `status|detail` line: the
/// status is an issue where the text before `|` says `issue` in any case,
/// healthy otherwise, and a line without `|` is all detail.
pub open spec fn status_detail_verdict(ok: bool, out: Seq<char>) -> (ScanStatus, Seq<char>) {
    if !ok {
        (ScanStatus::Error, out)
    } else {
        let t = trim(out);
        let (status, detail) = match split_once(t, '|') {
            Some((a, b)) => (a, b),
            None => ("ok"@, t),
        };
        (
            if eq_ignore_ascii_case(trim(status), "issue"@) {
                ScanStatus::Issue
            } else {
                ScanStatus::Healthy
            },
            trim(detail),
        )
    }
}

/// The script a scan runs and its time limit; `None` for the checks whose
/// scan needs no script.
pub open spec fn scan_request(c: CheckId) -> Option<(Seq<char>, u64)> {
    match c {
        CheckId::TempFiles => Some((SCAN_TEMP_FILES_SCRIPT@, DEFAULT_TIMEOUT_SECS)),
        CheckId::DiskSpace => Some((SCAN_DISK_SPACE_SCRIPT@, DEFAULT_TIMEOUT_SECS)),
        CheckId::WindowsUpdateService => Some(
            (SCAN_WINDOWS_UPDATE_SERVICE_SCRIPT@, DEFAULT_TIMEOUT_SECS),
        ),
        CheckId::PrintSpooler => Some((SCAN_PRINT_SPOOLER_SCRIPT@, DEFAULT_TIMEOUT_SECS)),
        CheckId::WindowsUpdateCache => Some((SCAN_WINDOWS_UPDATE_CACHE_SCRIPT@, LONG_TIMEOUT_SECS)),
        CheckId::DefenderScan => Some((SCAN_DEFENDER_SCAN_SCRIPT@, DEFAULT_TIMEOUT_SECS)),
        CheckId::StartupPrograms => Some((SCAN_STARTUP_PROGRAMS_SCRIPT@, DEFAULT_TIMEOUT_SECS)),
        CheckId::SteamCache => Some((SCAN_STEAM_CACHE_SCRIPT@, DEFAULT_TIMEOUT_SECS)),
        CheckId::SteamReset => Some((SCAN_STEAM_RESET_SCRIPT@, DEFAULT_TIMEOUT_SECS)),
        CheckId::EpicCache => Some((SCAN_EPIC_CACHE_SCRIPT@, DEFAULT_TIMEOUT_SECS)),
        CheckId::EpicLauncherReset => Some((SCAN_EPIC_LAUNCHER_RESET_SCRIPT@, DEFAULT_TIMEOUT_SECS)),
        CheckId::SystemFileCheck => Some((SCAN_SYSTEM_FILE_CHECK_SCRIPT@, LONG_TIMEOUT_SECS)),
        CheckId::GpuShaderCache => Some((SCAN_GPU_SHADER_CACHE_SCRIPT@, DEFAULT_TIMEOUT_SECS)),
        CheckId::GpuDriverHealth => Some((SCAN_GPU_DRIVER_HEALTH_SCRIPT@, DEFAULT_TIMEOUT_SECS)),
        CheckId::DiskHealth => Some((SCAN_DISK_HEALTH_SCRIPT@, DEFAULT_TIMEOUT_SECS)),
        CheckId::DeviceProblems => Some((SCAN_DEVICE_PROBLEMS_SCRIPT@, DEFAULT_TIMEOUT_SECS)),
        CheckId::BatteryHealth => Some((SCAN_BATTERY_HEALTH_SCRIPT@, DEFAULT_TIMEOUT_SECS)),
        CheckId::MemoryCheck => Some((SCAN_MEMORY_CHECK_SCRIPT@, DEFAULT_TIMEOUT_SECS)),
        CheckId::DnsCache => None,
        CheckId::WinsockReset => None,
        CheckId::RestorePoint => None,
        CheckId::GpuRestartDriver => None,
    }
}

/// The result of the scans that run no script: each offers its fix.
pub open spec fn fixed_scan(c: CheckId) -> (ScanStatus, Seq<char>) {
    match c {
        CheckId::DnsCache => (
            ScanStatus::Issue,
            "DNS cache can be flushed at any time to resolve connectivity issues."@,
        ),
        CheckId::WinsockReset => (
            ScanStatus::Issue,
            "Available as a manual fix for persistent network issues. Requires a restart afterward."@,
        ),
        CheckId::RestorePoint => (
            ScanStatus::Issue,
            "No restore point created yet this session. Recommended before running other fixes."@,
        ),
        _ => (
            ScanStatus::Issue,
            "Available as a manual fix if your screen freezes, goes black, or shows visual artifacts."@,
        ),
    }
}

/// The result of scanning a check whose id is unknown.
pub open spec fn unknown_scan() -> (ScanStatus, Seq<char>) {
    (ScanStatus::Error, "Unknown check."@)
}

/// What the scan of `c` reports once its script has run: `ok` is whether
/// the run succeeded and `out` the text it gave.
pub open spec fn scan_verdict(c: CheckId, ok: bool, out: Seq<char>) -> (ScanStatus, Seq<char>) {
    let t = trim(out);
    match c {
        CheckId::TempFiles => if !ok {
            (ScanStatus::Error, out)
        } else {
            size_verdict(
                read_size(t),
                100,
                " MB of temp files found."@,
                " MB of temp files. Nothing to clean."@,
            )
        },
        CheckId::DiskSpace => if !ok {
            (ScanStatus::Error, out)
        } else {
            disk_space_verdict(t)
        },
        CheckId::WindowsUpdateService => service_verdict(
            ok,
            out,
            "Windows Update service is running."@,
            "Windows Update service status: "@,
        ),
        CheckId::PrintSpooler => service_verdict(
            ok,
            out,
            "Print Spooler service is running."@,
            "Print Spooler service status: "@,
        ),
        CheckId::WindowsUpdateCache => if !ok {
            (ScanStatus::Error, out)
        } else {
            update_cache_verdict(t)
        },
        CheckId::DefenderScan => if !ok {
            (ScanStatus::Error, out)
        } else {
            defender_verdict(t)
        },
        CheckId::StartupPrograms => if !ok {
            (ScanStatus::Error, out)
        } else if read_count(t) > 8 {
            (
                ScanStatus::Issue,
                format_i32(read_count(t)) + " apps launch at startup. Review them in Task Manager."@,
            )
        } else {
            (
                ScanStatus::Healthy,
                format_i32(read_count(t)) + " apps launch at startup. That's a reasonable number."@,
            )
        },
        CheckId::SteamCache => if !ok {
            (ScanStatus::Error, out)
        } else if t == "NOTFOUND"@ {
            (ScanStatus::Healthy, "Steam isn't installed on this PC."@)
        } else {
            size_verdict(
                read_size(t),
                200,
                " MB of Steam cache found."@,
                " MB of Steam cache. Nothing to clean."@,
            )
        },
        CheckId::SteamReset => if !ok {
            (ScanStatus::Error, out)
        } else if t == "NOTFOUND"@ {
            (ScanStatus::Healthy, "Steam isn't installed on this PC."@)
        } else {
            (
                ScanStatus::Issue,
                "Available as a manual fix if Steam won't launch, freezes while logging in, or shows a blank window."@,
            )
        },
        CheckId::EpicCache => if !ok {
            (ScanStatus::Error, out)
        } else if t == "NOTFOUND"@ {
            (ScanStatus::Healthy, "No Epic Games Launcher cache found. Nothing to clean."@)
        } else {
            size_verdict(
                read_size(t),
                50,
                " MB of Epic Games Launcher cache found."@,
                " MB of launcher cache. Nothing to clean."@,
            )
        },
        CheckId::EpicLauncherReset => if !ok {
            (ScanStatus::Error, out)
        } else if t == "NOTFOUND"@ {
            (ScanStatus::Healthy, "Epic Games Launcher isn't installed on this PC."@)
        } else {
            (
                ScanStatus::Issue,
                "Available as a manual fix if the Epic Games Launcher is frozen, blank, or won't open."@,
            )
        },
        CheckId::SystemFileCheck => if !ok {
            (ScanStatus::Error, out)
        } else {
            system_file_verdict_spec(lowercase(out))
        },
        CheckId::GpuShaderCache => if !ok {
            (ScanStatus::Error, out)
        } else {
            size_verdict(
                read_size(t),
                100,
                " MB of shader cache. Clearing it can fix stuttering or visual glitches."@,
                " MB of shader cache. Nothing to clear."@,
            )
        },
        CheckId::GpuDriverHealth => status_detail_verdict(ok, out),
        CheckId::DiskHealth => status_detail_verdict(ok, out),
        CheckId::DeviceProblems => status_detail_verdict(ok, out),
        CheckId::BatteryHealth => status_detail_verdict(ok, out),
        CheckId::MemoryCheck => status_detail_verdict(ok, out),
        _ => fixed_scan(c),
    }
}

/// A result with the given status and detail.
fn result_of(status: ScanStatus, detail: &str) -> (r: ScanResult)
    ensures
        r@ == (status, detail@),
{
    ScanResult { status, detail: String::from_str(detail) }
}

/// A result whose detail is `pre`, then `mid`, then `post`.
fn result_around(status: ScanStatus, pre: &str, mid: &Vec<char>, post: &str) -> (r: ScanResult)
    ensures
        r@ == (status, pre@ + mid@ + post@),
{
    let mut s = String::from_str(pre);
    push_chars(&mut s, mid);
    s.append(post);
    ScanResult { status, detail: s }
}

/// A result whose detail is `mid`, then `post`.
fn result_after(status: ScanStatus, mid: &Vec<char>, post: &str) -> (r: ScanResult)
    ensures
        r@ == (status, mid@ + post@),
{
    let mut s = string_of(mid);
    s.append(post);
    ScanResult { status, detail: s }
}

/// The size that `t` writes, or zero.
fn read_size_exec(t: &Vec<char>) -> (r: Reading)
    ensures
        r@ == read_size(t@),
{
    match parse_reading(t) {
        Some(v) => v,
        None => Reading::from_whole(0),
    }
}

/// The count that `t` writes, or zero.
fn read_count_exec(t: &Vec<char>) -> (r: i32)
    ensures
        r == read_count(t@),
{
    match parse_i32_chars(t) {
        Some(v) => v,
        None => 0,
    }
}

/// The verdict on a cache of `mb` megabytes that needs cleaning above
/// `limit` megabytes.
fn size_verdict_exec(mb: Reading, limit: u32, issue_tail: &str, ok_tail: &str) -> (r: ScanResult)
    ensures
        r@ == size_verdict(mb@, limit as nat, issue_tail@, ok_tail@),
{
    let text = mb.format();
    if mb.above(limit) {
        result_after(ScanStatus::Issue, &text, issue_tail)
    } else {
        result_around(ScanStatus::Healthy, "Only ", &text, ok_tail)
    }
}

/// The verdict on the output of the free-space script.
fn disk_space_exec(t: &Vec<char>) -> (r: ScanResult)
    ensures
        r@ == disk_space_verdict(t@),
{
    let (first, second) = match split_once_chars(t, ',') {
        None => (t.clone(), None),
        Some((a, rest)) => {
            let b = match split_once_chars(&rest, ',') {
                Some((b, _)) => b,
                None => rest,
            };
            (a, Some(b))
        },
    };
    let pct = match parse_reading(&first) {
        Some(p) => p,
        None => Reading::from_whole(100),
    };
    let gb = match &second {
        Some(b) => read_size_exec(b),
        None => Reading::from_whole(0),
    };
    let pct_text = pct.format();
    let gb_text = gb.format();
    let mut tail = String::from_str("% (");
    push_chars(&mut tail, &gb_text);
    tail.append(" GB) free on C:.");
    if pct.below(10) {
        let mut s = String::from_str("Only ");
        push_chars(&mut s, &pct_text);
        s.append(tail.as_str());
        ScanResult { status: ScanStatus::Issue, detail: s }
    } else {
        let mut s = string_of(&pct_text);
        s.append(tail.as_str());
        ScanResult { status: ScanStatus::Healthy, detail: s }
    }
}

/// The verdict on the output of the Windows Update cache script.
fn update_cache_exec(t: &Vec<char>) -> (r: ScanResult)
    ensures
        r@ == update_cache_verdict(t@),
{
    let (size_text, advice) = match split_once_chars(t, '|') {
        Some((a, b)) => (a, b),
        None => (t.clone(), chars_of("no")),
    };
    let mb = read_size_exec(&trim_chars(&size_text));
    let store = eq_ignore_case(&trim_chars(&advice), "yes");
    let big = mb.above(500);
    let text = mb.format();
    if big && store {
        result_after(
            ScanStatus::Issue,
            &text,
            " MB in the download cache, plus reclaimable space in the component store.",
        )
    } else if big {
        result_after(ScanStatus::Issue, &text, " MB of old Windows Update files found.")
    } else if store {
        result_of(
            ScanStatus::Issue,
            "Superseded Windows Update files can be reclaimed from the component store.",
        )
    } else {
        result_around(
            ScanStatus::Healthy,
            "Only ",
            &text,
            " MB in the download cache and nothing reclaimable in the component store.",
        )
    }
}

/// The verdict on the word the Defender script prints.
fn defender_exec(t: &Vec<char>) -> (r: ScanResult)
    ensures
        r@ == defender_verdict(t@),
{
    if same_text(t, "ok") {
        result_of(
            ScanStatus::Healthy,
            "Real-time protection is on and virus definitions are current.",
        )
    } else if same_text(t, "disabled") {
        result_of(ScanStatus::Issue, "Real-time protection is off. A quick scan is still available.")
    } else if same_text(t, "stale") {
        result_of(
            ScanStatus::Issue,
            "Virus definitions are more than 7 days old. Running a quick scan.",
        )
    } else {
        result_of(
            ScanStatus::Healthy,
            "Windows Defender status unavailable (another antivirus may be active). Quick scan still available.",
        )
    }
}

/// The verdict on a service whose status the script printed.
fn service_exec(ok: bool, out: &str, running: &str, other: &str) -> (r: ScanResult)
    ensures
        r@ == service_verdict(ok, out@, running@, other@),
{
    if !ok {
        return result_of(ScanStatus::Error, out);
    }
    let t = trim_chars(&chars_of(out));
    if eq_ignore_case(&t, "Running") {
        result_of(ScanStatus::Healthy, running)
    } else {
        let mut s = String::from_str(other);
        push_chars(&mut s, &t);
        ScanResult { status: ScanStatus::Issue, detail: s }
    }
}

/// The verdict on the lower-cased report `lower` of DISM's health check.
pub fn system_file_verdict(lower: &str) -> (r: ScanResult)
    ensures
        r@ == system_file_verdict_spec(lower@),
{
    let l = chars_of(lower);
    if contains_text(&l, "repairable") || contains_text(&l, "corruption was detected") {
        result_of(ScanStatus::Issue, "Component store corruption detected. Repair is available.")
    } else if contains_text(&l, "no component store corruption detected") {
        result_of(ScanStatus::Healthy, "No system file corruption detected.")
    } else {
        result_of(ScanStatus::Healthy, "Quick check didn't find a flagged issue.")
    }
}

/// Reads the output of a script that prints one `status|detail` line.
/// `ok` is whether the run succeeded and `out` the text it gave.
pub fn status_detail_scan(ok: bool, out: &str) -> (r: ScanResult)
    ensures
        r@ == status_detail_verdict(ok, out@),
{
    if !ok {
        return result_of(ScanStatus::Error, out);
    }
    let t = trim_chars(&chars_of(out));
    let (status, detail) = match split_once_chars(&t, '|') {
        Some((a, b)) => (a, b),
        None => (chars_of("ok"), t),
    };
    let is_issue = eq_ignore_case(&trim_chars(&status), "issue");
    let d = trim_chars(&detail);
    ScanResult {
        status: if is_issue {
            ScanStatus::Issue
        } else {
            ScanStatus::Healthy
        },
        detail: string_of(&d),
    }
}

/// The result of a scan that runs no script.
pub fn fixed_scan_result(c: CheckId) -> (r: ScanResult)
    requires
        scan_request(c) is None,
    ensures
        r@ == fixed_scan(c),
{
    match c {
        CheckId::DnsCache => result_of(
            ScanStatus::Issue,
            "DNS cache can be flushed at any time to resolve connectivity issues.",
        ),
        CheckId::WinsockReset => result_of(
            ScanStatus::Issue,
            "Available as a manual fix for persistent network issues. Requires a restart afterward.",
        ),
        CheckId::RestorePoint => result_of(
            ScanStatus::Issue,
            "No restore point created yet this session. Recommended before running other fixes.",
        ),
        _ => result_of(
            ScanStatus::Issue,
            "Available as a manual fix if your screen freezes, goes black, or shows visual artifacts.",
        ),
    }
}

/// The script that the scan of `c` runs, or `None` where it runs none.
pub fn scan_script(c: CheckId) -> (r: Option<PsRequest>)
    ensures
        match (r, scan_request(c)) {
            (Some(q), Some(v)) => q@ == v,
            (None, None) => true,
            _ => false,
        },
{
    match c {
        CheckId::TempFiles => Some(run_ps(SCAN_TEMP_FILES_SCRIPT)),
        CheckId::DiskSpace => Some(run_ps(SCAN_DISK_SPACE_SCRIPT)),
        CheckId::WindowsUpdateService => Some(run_ps(SCAN_WINDOWS_UPDATE_SERVICE_SCRIPT)),
        CheckId::PrintSpooler => Some(run_ps(SCAN_PRINT_SPOOLER_SCRIPT)),
        CheckId::WindowsUpdateCache => Some(
            run_ps_with_timeout(SCAN_WINDOWS_UPDATE_CACHE_SCRIPT, LONG_TIMEOUT_SECS),
        ),
        CheckId::DefenderScan => Some(run_ps(SCAN_DEFENDER_SCAN_SCRIPT)),
        CheckId::StartupPrograms => Some(run_ps(SCAN_STARTUP_PROGRAMS_SCRIPT)),
        CheckId::SteamCache => Some(run_ps(SCAN_STEAM_CACHE_SCRIPT)),
        CheckId::SteamReset => Some(run_ps(SCAN_STEAM_RESET_SCRIPT)),
        CheckId::EpicCache => Some(run_ps(SCAN_EPIC_CACHE_SCRIPT)),
        CheckId::EpicLauncherReset => Some(run_ps(SCAN_EPIC_LAUNCHER_RESET_SCRIPT)),
        CheckId::SystemFileCheck => Some(
            run_ps_with_timeout(SCAN_SYSTEM_FILE_CHECK_SCRIPT, LONG_TIMEOUT_SECS),
        ),
        CheckId::GpuShaderCache => Some(run_ps(SCAN_GPU_SHADER_CACHE_SCRIPT)),
        CheckId::GpuDriverHealth => Some(run_ps(SCAN_GPU_DRIVER_HEALTH_SCRIPT)),
        CheckId::DiskHealth => Some(run_ps(SCAN_DISK_HEALTH_SCRIPT)),
        CheckId::DeviceProblems => Some(run_ps(SCAN_DEVICE_PROBLEMS_SCRIPT)),
        CheckId::BatteryHealth => Some(run_ps(SCAN_BATTERY_HEALTH_SCRIPT)),
        CheckId::MemoryCheck => Some(run_ps(SCAN_MEMORY_CHECK_SCRIPT)),
        _ => None,
    }
}

/// Reads what the scan script of `c` gave: `ok` is whether the run
/// succeeded and `out` the text it reported.
pub fn interpret_scan(c: CheckId, ok: bool, out: &str) -> (r: ScanResult)
    ensures
        r@ == scan_verdict(c, ok, out@),
{
    let raw = chars_of(out);
    let t = trim_chars(&raw);
    match c {
        CheckId::TempFiles => if !ok {
            result_of(ScanStatus::Error, out)
        } else {
            size_verdict_exec(
                read_size_exec(&t),
                100,
                " MB of temp files found.",
                " MB of temp files. Nothing to clean.",
            )
        },
        CheckId::DiskSpace => if !ok {
            result_of(ScanStatus::Error, out)
        } else {
            disk_space_exec(&t)
        },
        CheckId::WindowsUpdateService => service_exec(
            ok,
            out,
            "Windows Update service is running.",
            "Windows Update service status: ",
        ),
        CheckId::PrintSpooler => service_exec(
            ok,
            out,
            "Print Spooler service is running.",
            "Print Spooler service status: ",
        ),
        CheckId::WindowsUpdateCache => if !ok {
            result_of(ScanStatus::Error, out)
        } else {
            update_cache_exec(&t)
        },
        CheckId::DefenderScan => if !ok {
            result_of(ScanStatus::Error, out)
        } else {
            defender_exec(&t)
        },
        CheckId::StartupPrograms => if !ok {
            result_of(ScanStatus::Error, out)
        } else {
            let n = read_count_exec(&t);
            if n > 8 {
                result_after(
                    ScanStatus::Issue,
                    &format_i32_chars(n),
                    " apps launch at startup. Review them in Task Manager.",
                )
            } else {
                result_after(
                    ScanStatus::Healthy,
                    &format_i32_chars(n),
                    " apps launch at startup. That's a reasonable number.",
                )
            }
        },
        CheckId::SteamCache => if !ok {
            result_of(ScanStatus::Error, out)
        } else if same_text(&t, "NOTFOUND") {
            result_of(ScanStatus::Healthy, "Steam isn't installed on this PC.")
        } else {
            size_verdict_exec(
                read_size_exec(&t),
                200,
                " MB of Steam cache found.",
                " MB of Steam cache. Nothing to clean.",
            )
        },
        CheckId::SteamReset => if !ok {
            result_of(ScanStatus::Error, out)
        } else if same_text(&t, "NOTFOUND") {
            result_of(ScanStatus::Healthy, "Steam isn't installed on this PC.")
        } else {
            result_of(
                ScanStatus::Issue,
                "Available as a manual fix if Steam won't launch, freezes while logging in, or shows a blank window.",
            )
        },
        CheckId::EpicCache => if !ok {
            result_of(ScanStatus::Error, out)
        } else if same_text(&t, "NOTFOUND") {
            result_of(ScanStatus::Healthy, "No Epic Games Launcher cache found. Nothing to clean.")
        } else {
            size_verdict_exec(
                read_size_exec(&t),
                50,
                " MB of Epic Games Launcher cache found.",
                " MB of launcher cache. Nothing to clean.",
            )
        },
        CheckId::EpicLauncherReset => if !ok {
            result_of(ScanStatus::Error, out)
        } else if same_text(&t, "NOTFOUND") {
            result_of(ScanStatus::Healthy, "Epic Games Launcher isn't installed on this PC.")
        } else {
            result_of(
                ScanStatus::Issue,
                "Available as a manual fix if the Epic Games Launcher is frozen, blank, or won't open.",
            )
        },
        CheckId::SystemFileCheck => if !ok {
            result_of(ScanStatus::Error, out)
        } else {
            let lower = to_lowercase(out);
            system_file_verdict(lower.as_str())
        },
        CheckId::GpuShaderCache => if !ok {
            result_of(ScanStatus::Error, out)
        } else {
            size_verdict_exec(
                read_size_exec(&t),
                100,
                " MB of shader cache. Clearing it can fix stuttering or visual glitches.",
                " MB of shader cache. Nothing to clear.",
            )
        },
        CheckId::GpuDriverHealth => status_detail_scan(ok, out),
        CheckId::DiskHealth => status_detail_scan(ok, out),
        CheckId::DeviceProblems => status_detail_scan(ok, out),
        CheckId::BatteryHealth => status_detail_scan(ok, out),
        CheckId::MemoryCheck => status_detail_scan(ok, out),
        _ => fixed_scan_result(c),
    }
}

/// What comes to a scan's state machine: the start of the scan, the
/// moment the background update request has been handed off, or the end
/// of the check's script run with its success flag and text.
pub enum ScanEvent {
    Start,
    Nudged,
    Ran { ok: bool, out: String },
}

/// The request that asks Windows Update to look for updates in the
/// background; nothing waits for it.
pub open spec fn nudge_request() -> (Seq<char>, u64) {
    (UPDATE_NUDGE_SCRIPT@, DEFAULT_TIMEOUT_SECS)
}

/// The next step of scanning the check whose id is `id` on `event`. Every
/// scan starts by handing off the background update request; then it asks
/// for the check's script, or finishes at once where the check runs none or
/// the id is unknown; once the script has run, it reads the run's result.
pub open spec fn scan_step(id: Seq<char>, event: ScanEvent) -> Step<
    (Seq<char>, u64),
    (ScanStatus, Seq<char>),
> {
    match event {
        ScanEvent::Start => Step::Background(nudge_request()),
        _ => match parse_check_id(id) {
            None => Step::Finish(unknown_scan()),
            Some(c) => match scan_request(c) {
                None => Step::Finish(fixed_scan(c)),
                Some(q) => match event {
                    ScanEvent::Ran { ok, out } => Step::Finish(scan_verdict(c, ok, out@)),
                    _ => Step::Run(q),
                },
            },
        },
    }
}

/// The request that asks Windows Update to look for updates in the
/// background.
pub fn update_nudge() -> (r: PsRequest)
    ensures
        r@ == nudge_request(),
{
    run_ps(UPDATE_NUDGE_SCRIPT)
}

/// One step of scanning the check whose id is `id`; see `scan_step`.
pub fn scan_check_blocking(id: &str, event: ScanEvent) -> (r: ScanAction)
    ensures
        r@ == scan_step(id@, event),
{
    if let ScanEvent::Start = event {
        return ScanAction::Background(update_nudge());
    }
    match CheckId::from_id(id) {
        None => ScanAction::Finish(result_of(ScanStatus::Error, "Unknown check.")),
        Some(c) => match scan_script(c) {
            None => ScanAction::Finish(fixed_scan_result(c)),
            Some(q) => match event {
                ScanEvent::Ran { ok, out } => ScanAction::Finish(
                    interpret_scan(c, ok, out.as_str()),
                ),
                _ => ScanAction::Run(q),
            },
        },
    }
}

/// Every scan, whatever the check, begins by asking Windows Update to look
/// for updates in the background, and never waits on that request.
pub proof fn law_scan_starts_with_update_nudge(id: Seq<char>)
    ensures
        scan_step(id, ScanEvent::Start) == Step::<(Seq<char>, u64), (ScanStatus, Seq<char>)>::Background(
            nudge_request(),
        ),
{
}

/// Each status's word names that status again.
pub proof fn law_status_word_round_trip(s: ScanStatus)
    ensures
        status_of_word(s.word()) == Some(s),
{
    reveal_strlit("ok");
    reveal_strlit("issue");
    reveal_strlit("error");
    assert("ok"@.len() != "issue"@.len());
    assert("ok"@.len() != "error"@.len());
    assert("issue"@[0] != "error"@[0]);
}

/// A scan whose script could not run to success reports an error, never a
/// verdict on the system.
pub proof fn law_failed_scan_run_is_error(c: CheckId, out: Seq<char>)
    requires
        scan_request(c) is Some,
    ensures
        scan_verdict(c, false, out).0 == ScanStatus::Error,
{
}

/// Where Steam or the Epic Games Launcher is not installed, their checks
/// report healthy rather than an issue.
pub proof fn law_not_installed_is_healthy(c: CheckId, out: Seq<char>)
    requires
        c == CheckId::SteamCache || c == CheckId::SteamReset || c == CheckId::EpicCache || c
            == CheckId::EpicLauncherReset,
        trim(out) == "NOTFOUND"@,
    ensures
        scan_verdict(c, true, out).0 == ScanStatus::Healthy,
{
}

/// Every listed check can be scanned: once the background update request
/// is handed off, its scan asks for the check's script, or reports the
/// check's fixed result where it runs none; it never answers that the check
/// is unknown.
pub proof fn law_listed_checks_scan(c: CheckId)
    ensures
        scan_step(id_text(c), ScanEvent::Nudged) == match scan_request(c) {
            Some(q) => Step::Run(q),
            None => Step::Finish(fixed_scan(c)),
        },
        scan_step(id_text(c), ScanEvent::Nudged) != Step::<(Seq<char>, u64), (ScanStatus, Seq<char>)>::Finish(
            unknown_scan(),
        ),
{
    law_check_id_round_trip(c);
}

/// Each scan that runs a script runs the scan script written for its
/// check, with a minute to run, five for the Windows Update cache and the
/// system-file check; the others offer their fix at once, as an issue.
pub proof fn law_each_scan_runs_its_own_script(c: CheckId)
    ensures
        match c {
            CheckId::TempFiles => scan_request(c) == Some((SCAN_TEMP_FILES_SCRIPT@, 60u64)),
            CheckId::DiskSpace => scan_request(c) == Some((SCAN_DISK_SPACE_SCRIPT@, 60u64)),
            CheckId::WindowsUpdateService => scan_request(c) == Some((SCAN_WINDOWS_UPDATE_SERVICE_SCRIPT@, 60u64)),
            CheckId::PrintSpooler => scan_request(c) == Some((SCAN_PRINT_SPOOLER_SCRIPT@, 60u64)),
            CheckId::WindowsUpdateCache => scan_request(c) == Some((SCAN_WINDOWS_UPDATE_CACHE_SCRIPT@, 300u64)),
            CheckId::DefenderScan => scan_request(c) == Some((SCAN_DEFENDER_SCAN_SCRIPT@, 60u64)),
            CheckId::StartupPrograms => scan_request(c) == Some((SCAN_STARTUP_PROGRAMS_SCRIPT@, 60u64)),
            CheckId::SteamCache => scan_request(c) == Some((SCAN_STEAM_CACHE_SCRIPT@, 60u64)),
            CheckId::SteamReset => scan_request(c) == Some((SCAN_STEAM_RESET_SCRIPT@, 60u64)),
            CheckId::EpicCache => scan_request(c) == Some((SCAN_EPIC_CACHE_SCRIPT@, 60u64)),
            CheckId::EpicLauncherReset => scan_request(c) == Some((SCAN_EPIC_LAUNCHER_RESET_SCRIPT@, 60u64)),
            CheckId::SystemFileCheck => scan_request(c) == Some((SCAN_SYSTEM_FILE_CHECK_SCRIPT@, 300u64)),
            CheckId::GpuShaderCache => scan_request(c) == Some((SCAN_GPU_SHADER_CACHE_SCRIPT@, 60u64)),
            CheckId::GpuDriverHealth => scan_request(c) == Some((SCAN_GPU_DRIVER_HEALTH_SCRIPT@, 60u64)),
            CheckId::DiskHealth => scan_request(c) == Some((SCAN_DISK_HEALTH_SCRIPT@, 60u64)),
            CheckId::DeviceProblems => scan_request(c) == Some((SCAN_DEVICE_PROBLEMS_SCRIPT@, 60u64)),
            CheckId::BatteryHealth => scan_request(c) == Some((SCAN_BATTERY_HEALTH_SCRIPT@, 60u64)),
            CheckId::MemoryCheck => scan_request(c) == Some((SCAN_MEMORY_CHECK_SCRIPT@, 60u64)),
            CheckId::DnsCache => scan_step(id_text(c), ScanEvent::Nudged) == Step::<(Seq<char>, u64), (ScanStatus, Seq<char>)>::Finish(
                (ScanStatus::Issue, "DNS cache can be flushed at any time to resolve connectivity issues."@),
            ),
            CheckId::WinsockReset => scan_step(id_text(c), ScanEvent::Nudged) == Step::<(Seq<char>, u64), (ScanStatus, Seq<char>)>::Finish(
                (
                    ScanStatus::Issue,
                    "Available as a manual fix for persistent network issues. Requires a restart afterward."@,
                ),
            ),
            CheckId::RestorePoint => scan_step(id_text(c), ScanEvent::Nudged) == Step::<(Seq<char>, u64), (ScanStatus, Seq<char>)>::Finish(
                (
                    ScanStatus::Issue,
                    "No restore point created yet this session. Recommended before running other fixes."@,
                ),
            ),
            CheckId::GpuRestartDriver => scan_step(id_text(c), ScanEvent::Nudged) == Step::<(Seq<char>, u64), (ScanStatus, Seq<char>)>::Finish(
                (
                    ScanStatus::Issue,
                    "Available as a manual fix if your screen freezes, goes black, or shows visual artifacts."@,
                ),
            ),
        },
{
    law_check_id_round_trip(c);
}

/// The drive, graphics-driver, device, battery and memory checks read the
/// `status|detail` line their scripts print, all alike.
pub proof fn law_status_line_checks(c: CheckId, ok: bool, out: Seq<char>)
    requires
        c == CheckId::GpuDriverHealth || c == CheckId::DiskHealth || c == CheckId::DeviceProblems
            || c == CheckId::BatteryHealth || c == CheckId::MemoryCheck,
    ensures
        scan_verdict(c, ok, out) == status_detail_verdict(ok, out),
{
}

/// A `status|detail` line: a failed run is an error showing its text; an
/// issue where the trimmed text before the first `|` says `issue` in any
/// case, healthy otherwise, with the trimmed text after it; a line without
/// `|` is healthy, all detail.
pub proof fn law_status_line_reading(ok: bool, out: Seq<char>)
    ensures
        !ok ==> status_detail_verdict(ok, out) == (ScanStatus::Error, out),
        ok ==> match split_once(trim(out), '|') {
            Some((a, b)) => status_detail_verdict(ok, out) == (
                if eq_ignore_ascii_case(trim(a), "issue"@) {
                    ScanStatus::Issue
                } else {
                    ScanStatus::Healthy
                },
                trim(b),
            ),
            None => status_detail_verdict(ok, out) == (ScanStatus::Healthy, trim(out)),
        },
{
    law_trim_idempotent(out);
    lemma_trim_shorter("ok"@);
    reveal_strlit("ok");
    reveal_strlit("issue");
}

/// The cache scans: the size the script prints (zero where it prints none)
/// is an issue above 100 MB of temp files or shader cache, 200 MB of Steam
/// cache, 50 MB of Epic Games Launcher cache, and is shown either way.
pub proof fn law_cache_size_limits(out: Seq<char>)
    requires
        trim(out) != "NOTFOUND"@,
    ensures
        ({
            let mb = read_size(trim(out));
        &&& scan_verdict(CheckId::TempFiles, true, out) == if value_above(mb, 100) {
            (ScanStatus::Issue, format_size_spec(mb) + " MB of temp files found."@)
        } else {
            (ScanStatus::Healthy, "Only "@ + format_size_spec(mb) + " MB of temp files. Nothing to clean."@)
        }
        &&& scan_verdict(CheckId::SteamCache, true, out) == if value_above(mb, 200) {
            (ScanStatus::Issue, format_size_spec(mb) + " MB of Steam cache found."@)
        } else {
            (ScanStatus::Healthy, "Only "@ + format_size_spec(mb) + " MB of Steam cache. Nothing to clean."@)
        }
        &&& scan_verdict(CheckId::EpicCache, true, out) == if value_above(mb, 50) {
            (ScanStatus::Issue, format_size_spec(mb) + " MB of Epic Games Launcher cache found."@)
        } else {
            (ScanStatus::Healthy, "Only "@ + format_size_spec(mb) + " MB of launcher cache. Nothing to clean."@)
        }
        &&& scan_verdict(CheckId::GpuShaderCache, true, out) == if value_above(mb, 100) {
            (ScanStatus::Issue, format_size_spec(mb) + " MB of shader cache. Clearing it can fix stuttering or visual glitches."@)
        } else {
            (ScanStatus::Healthy, "Only "@ + format_size_spec(mb) + " MB of shader cache. Nothing to clear."@)
        }
        }),
{
}

/// The Windows Update cache is an issue where its download cache holds more
/// than 500 MB, or where the component store can be cleaned (the advice
/// after `|` says `yes` in any case), and healthy otherwise.
pub proof fn law_update_cache_limit(out: Seq<char>)
    ensures
        ({
            let t = trim(out);
            let (size_text, advice) = match split_once(t, '|') {
                Some((a, b)) => (a, b),
                None => (t, "no"@),
            };
            let mb = read_size(trim(size_text));
            let store = eq_ignore_ascii_case(trim(advice), "yes"@);
            &&& (scan_verdict(CheckId::WindowsUpdateCache, true, out).0 == ScanStatus::Issue) == (
            value_above(mb, 500) || store)
            &&& value_above(mb, 500) && store ==> scan_verdict(CheckId::WindowsUpdateCache, true, out).1
                == format_size_spec(mb)
                + " MB in the download cache, plus reclaimable space in the component store."@
            &&& value_above(mb, 500) && !store ==> scan_verdict(CheckId::WindowsUpdateCache, true, out).1
                == format_size_spec(mb) + " MB of old Windows Update files found."@
            &&& !value_above(mb, 500) && store ==> scan_verdict(CheckId::WindowsUpdateCache, true, out).1
                == "Superseded Windows Update files can be reclaimed from the component store."@
            &&& !value_above(mb, 500) && !store ==> scan_verdict(CheckId::WindowsUpdateCache, true, out).1
                == "Only "@ + format_size_spec(mb)
                + " MB in the download cache and nothing reclaimable in the component store."@
        }),
{
}

/// Free space on C: is an issue below 10 percent; the percentage is the
/// number before the first comma, taken as 100 where it writes none.
pub proof fn law_disk_space_limit(out: Seq<char>)
    ensures
        ({
            let t = trim(out);
            let first = match split_once(t, ',') {
                Some((a, _)) => a,
                None => t,
            };
            let pct = match parse_reading_spec(first) {
                Some(p) => p,
                None => whole_reading(100),
            };
            (scan_verdict(CheckId::DiskSpace, true, out).0 == ScanStatus::Issue) == value_below(
                pct,
                10,
            )
        }),
{
}

/// More than eight startup apps is an issue; the count is shown either way.
pub proof fn law_startup_limit(out: Seq<char>)
    ensures
        (scan_verdict(CheckId::StartupPrograms, true, out).0 == ScanStatus::Issue) == (read_count(
            trim(out),
        ) > 8),
        scan_verdict(CheckId::StartupPrograms, true, out).1.take(
            format_i32(read_count(trim(out))).len() as int,
        ) == format_i32(read_count(trim(out))),
{
    let n = format_i32(read_count(trim(out)));
    assert((n + " apps launch at startup. Review them in Task Manager."@).take(n.len() as int) =~= n);
    assert((n + " apps launch at startup. That's a reasonable number."@).take(n.len() as int) =~= n);
}

/// Each service check reads its own service: healthy where the status the
/// script prints is `Running` in any case, an issue showing that status
/// otherwise, an error where the run failed.
pub proof fn law_service_checks(ok: bool, out: Seq<char>)
    ensures
        ok && eq_ignore_ascii_case(trim(out), "Running"@) ==> scan_verdict(
            CheckId::WindowsUpdateService,
            ok,
            out,
        ) == (ScanStatus::Healthy, "Windows Update service is running."@) && scan_verdict(
            CheckId::PrintSpooler,
            ok,
            out,
        ) == (ScanStatus::Healthy, "Print Spooler service is running."@),
        ok && !eq_ignore_ascii_case(trim(out), "Running"@) ==> scan_verdict(
            CheckId::WindowsUpdateService,
            ok,
            out,
        ) == (ScanStatus::Issue, "Windows Update service status: "@ + trim(out)) && scan_verdict(
            CheckId::PrintSpooler,
            ok,
            out,
        ) == (ScanStatus::Issue, "Print Spooler service status: "@ + trim(out)),
        !ok ==> scan_verdict(CheckId::WindowsUpdateService, ok, out) == (ScanStatus::Error, out)
            && scan_verdict(CheckId::PrintSpooler, ok, out) == (ScanStatus::Error, out),
{
}

/// Defender: an issue where real-time protection is off (`disabled`) or
/// the definitions are old (`stale`), healthy otherwise.
pub proof fn law_defender_words(out: Seq<char>)
    ensures
        (scan_verdict(CheckId::DefenderScan, true, out).0 == ScanStatus::Issue) == (trim(out)
            == "disabled"@ || trim(out) == "stale"@),
{
    reveal_strlit("ok");
    reveal_strlit("disabled");
    reveal_strlit("stale");
}

/// The user interface knows a healthy scan as `ok`, one that needs
/// attention as `issue`, and a failed one as `error`.
pub proof fn law_status_words()
    ensures
        ScanStatus::Healthy.word() == "ok"@,
        ScanStatus::Issue.word() == "issue"@,
        ScanStatus::Error.word() == "error"@,
        status_of_word("ok"@) == Some(ScanStatus::Healthy),
        status_of_word("issue"@) == Some(ScanStatus::Issue),
        status_of_word("error"@) == Some(ScanStatus::Error),
{
    law_status_word_round_trip(ScanStatus::Healthy);
    law_status_word_round_trip(ScanStatus::Issue);
    law_status_word_round_trip(ScanStatus::Error);
}

/// The background request of every scan runs the script that asks Windows
/// Update to look for updates, with a minute to run.
pub proof fn law_nudge_runs_update_search()
    ensures
        nudge_request() == (UPDATE_NUDGE_SCRIPT@, 60u64),
{
}

/// A scan of an id that names no check reports an error saying so, once
/// its background request is handed off.
pub proof fn law_unknown_scan(id: Seq<char>, event: ScanEvent)
    requires
        parse_check_id(id) is None,
        !(event is Start),
    ensures
        scan_step(id, event) == Step::<(Seq<char>, u64), (ScanStatus, Seq<char>)>::Finish(
            (ScanStatus::Error, "Unknown check."@),
        ),
{
}

/// Defender's words: `ok` is healthy and current, `disabled` and `stale`
/// are issues, and anything else means another antivirus may be active.
pub proof fn law_defender_texts(out: Seq<char>)
    ensures
        trim(out) == "ok"@ ==> scan_verdict(CheckId::DefenderScan, true, out) == (
            ScanStatus::Healthy,
            "Real-time protection is on and virus definitions are current."@,
        ),
        trim(out) == "disabled"@ ==> scan_verdict(CheckId::DefenderScan, true, out) == (
            ScanStatus::Issue,
            "Real-time protection is off. A quick scan is still available."@,
        ),
        trim(out) == "stale"@ ==> scan_verdict(CheckId::DefenderScan, true, out) == (
            ScanStatus::Issue,
            "Virus definitions are more than 7 days old. Running a quick scan."@,
        ),
        trim(out) != "ok"@ && trim(out) != "disabled"@ && trim(out) != "stale"@ ==> scan_verdict(
            CheckId::DefenderScan,
            true,
            out,
        ) == (
            ScanStatus::Healthy,
            "Windows Defender status unavailable (another antivirus may be active). Quick scan still available."@,
        ),
{
    reveal_strlit("ok");
    reveal_strlit("disabled");
    reveal_strlit("stale");
}

/// The system-file check is an issue where DISM's report, in lower case,
/// says `repairable` or `corruption was detected`, healthy otherwise.
pub proof fn law_system_file_words(out: Seq<char>)
    ensures
        (scan_verdict(CheckId::SystemFileCheck, true, out).0 == ScanStatus::Issue) == (contains(
            lowercase(out),
            "repairable"@,
        ) || contains(lowercase(out), "corruption was detected"@)),
{
}

/// A cache scan whose script prints no number counts the cache as empty:
/// healthy, with `0.0` MB shown.
pub proof fn law_unreadable_size_is_zero(out: Seq<char>)
    requires
        parse_reading_spec(trim(out)) is None,
        trim(out) != "NOTFOUND"@,
    ensures
        scan_verdict(CheckId::TempFiles, true, out) == (
            ScanStatus::Healthy,
            "Only "@ + "0.0"@ + " MB of temp files. Nothing to clean."@,
        ),
        scan_verdict(CheckId::SteamCache, true, out) == (
            ScanStatus::Healthy,
            "Only "@ + "0.0"@ + " MB of Steam cache. Nothing to clean."@,
        ),
        scan_verdict(CheckId::EpicCache, true, out) == (
            ScanStatus::Healthy,
            "Only "@ + "0.0"@ + " MB of launcher cache. Nothing to clean."@,
        ),
        scan_verdict(CheckId::GpuShaderCache, true, out) == (
            ScanStatus::Healthy,
            "Only "@ + "0.0"@ + " MB of shader cache. Nothing to clear."@,
        ),
{
    law_whole_numbers(0, 100);
    law_whole_numbers(0, 200);
    law_whole_numbers(0, 50);
    reveal_strlit("0.0");
    reveal_strlit(".0");
    assert(decimal(0) == seq!['0']);
    assert(decimal(0) + ".0"@ =~= "0.0"@);
}

/// Where the free-space script prints no percentage, the drive counts as
/// all free: healthy.
pub proof fn law_unreadable_free_space_is_healthy(out: Seq<char>)
    requires
        ({
            let t = trim(out);
            let first = match split_once(t, ',') {
                Some((a, _)) => a,
                None => t,
            };
            parse_reading_spec(first) is None
        }),
    ensures
        scan_verdict(CheckId::DiskSpace, true, out).0 == ScanStatus::Healthy,
{
    law_whole_numbers(100, 10);
}

} // verus!
