use pc_doctor::catalog::{all_check_ids, CheckId};
use pc_doctor::powershell::{DEFAULT_TIMEOUT_SECS, LONG_TIMEOUT_SECS};
use pc_doctor::scan::{
    interpret_scan, scan_check_blocking, scan_script, status_detail_scan, system_file_verdict,
    update_nudge, ScanAction, ScanEvent, ScanResult, ScanStatus,
};
use pc_doctor::scripts::{SCAN_PRINT_SPOOLER_SCRIPT, SCAN_TEMP_FILES_SCRIPT, UPDATE_NUDGE_SCRIPT};

fn scan(c: CheckId, ok: bool, out: &str) -> (&'static str, String) {
    let r: ScanResult = interpret_scan(c, ok, out);
    (r.status.as_str(), r.detail)
}

fn finish(a: ScanAction) -> (&'static str, String) {
    match a {
        ScanAction::Finish(r) => (r.status.as_str(), r.detail),
        _ => panic!("expected a result"),
    }
}

#[test]
fn scan_temp_files_threshold() {
    assert_eq!(scan(CheckId::TempFiles, true, "250.3\r\n"), ("issue", "250.3 MB of temp files found.".to_string()));
    assert_eq!(scan(CheckId::TempFiles, true, "100"), ("ok", "Only 100.0 MB of temp files. Nothing to clean.".to_string()));
    assert_eq!(scan(CheckId::TempFiles, true, "100.1"), ("issue", "100.1 MB of temp files found.".to_string()));
    assert_eq!(scan(CheckId::TempFiles, true, "garbage"), ("ok", "Only 0.0 MB of temp files. Nothing to clean.".to_string()));
    assert_eq!(scan(CheckId::TempFiles, false, " access denied "), ("error", " access denied ".to_string()));
}

#[test]
fn scan_disk_space_reads_percent_and_gigabytes() {
    assert_eq!(scan(CheckId::DiskSpace, true, "8.5,20.1"), ("issue", "Only 8.5% (20.1 GB) free on C:.".to_string()));
    assert_eq!(scan(CheckId::DiskSpace, true, "45,300.2\n"), ("ok", "45.0% (300.2 GB) free on C:.".to_string()));
    assert_eq!(scan(CheckId::DiskSpace, true, "10"), ("ok", "10.0% (0.0 GB) free on C:.".to_string()));
    assert_eq!(scan(CheckId::DiskSpace, true, "x,5"), ("ok", "100.0% (5.0 GB) free on C:.".to_string()));
    assert_eq!(scan(CheckId::DiskSpace, true, "9.9, 5"), ("issue", "Only 9.9% (0.0 GB) free on C:.".to_string()));
    assert_eq!(scan(CheckId::DiskSpace, true, "1,2,3"), ("issue", "Only 1.0% (2.0 GB) free on C:.".to_string()));
}

#[test]
fn scan_services_read_their_status() {
    assert_eq!(scan(CheckId::WindowsUpdateService, true, "running\r\n"), ("ok", "Windows Update service is running.".to_string()));
    assert_eq!(scan(CheckId::WindowsUpdateService, true, " Stopped "), ("issue", "Windows Update service status: Stopped".to_string()));
    assert_eq!(scan(CheckId::PrintSpooler, true, "Running"), ("ok", "Print Spooler service is running.".to_string()));
    assert_eq!(scan(CheckId::PrintSpooler, true, "StartPending"), ("issue", "Print Spooler service status: StartPending".to_string()));
}

#[test]
fn scan_update_cache_four_verdicts() {
    assert_eq!(scan(CheckId::WindowsUpdateCache, true, "600.5|yes"), ("issue", "600.5 MB in the download cache, plus reclaimable space in the component store.".to_string()));
    assert_eq!(scan(CheckId::WindowsUpdateCache, true, "600.5|no"), ("issue", "600.5 MB of old Windows Update files found.".to_string()));
    assert_eq!(scan(CheckId::WindowsUpdateCache, true, "12| YES "), ("issue", "Superseded Windows Update files can be reclaimed from the component store.".to_string()));
    assert_eq!(scan(CheckId::WindowsUpdateCache, true, "12"), ("ok", "Only 12.0 MB in the download cache and nothing reclaimable in the component store.".to_string()));
}

#[test]
fn scan_defender_words() {
    assert_eq!(scan(CheckId::DefenderScan, true, "ok").0, "ok");
    assert_eq!(scan(CheckId::DefenderScan, true, "disabled"), ("issue", "Real-time protection is off. A quick scan is still available.".to_string()));
    assert_eq!(scan(CheckId::DefenderScan, true, "stale\n"), ("issue", "Virus definitions are more than 7 days old. Running a quick scan.".to_string()));
    assert_eq!(scan(CheckId::DefenderScan, true, "unavailable"), ("ok", "Windows Defender status unavailable (another antivirus may be active). Quick scan still available.".to_string()));
}

#[test]
fn scan_startup_programs_counts() {
    assert_eq!(scan(CheckId::StartupPrograms, true, "9"), ("issue", "9 apps launch at startup. Review them in Task Manager.".to_string()));
    assert_eq!(scan(CheckId::StartupPrograms, true, "8"), ("ok", "8 apps launch at startup. That's a reasonable number.".to_string()));
    assert_eq!(scan(CheckId::StartupPrograms, true, "-3"), ("ok", "-3 apps launch at startup. That's a reasonable number.".to_string()));
    assert_eq!(scan(CheckId::StartupPrograms, true, "many"), ("ok", "0 apps launch at startup. That's a reasonable number.".to_string()));
}

#[test]
fn scan_not_installed_is_healthy() {
    assert_eq!(scan(CheckId::SteamCache, true, "NOTFOUND\r\n"), ("ok", "Steam isn't installed on this PC.".to_string()));
    assert_eq!(scan(CheckId::SteamReset, true, "NOTFOUND"), ("ok", "Steam isn't installed on this PC.".to_string()));
    assert_eq!(scan(CheckId::EpicCache, true, " NOTFOUND"), ("ok", "No Epic Games Launcher cache found. Nothing to clean.".to_string()));
    assert_eq!(scan(CheckId::EpicLauncherReset, true, "NOTFOUND"), ("ok", "Epic Games Launcher isn't installed on this PC.".to_string()));
    assert_eq!(scan(CheckId::SteamReset, true, "FOUND").0, "issue");
    assert_eq!(scan(CheckId::EpicLauncherReset, true, "FOUND").0, "issue");
}

#[test]
fn scan_cache_sizes() {
    assert_eq!(scan(CheckId::SteamCache, true, "200.1"), ("issue", "200.1 MB of Steam cache found.".to_string()));
    assert_eq!(scan(CheckId::SteamCache, true, "200"), ("ok", "Only 200.0 MB of Steam cache. Nothing to clean.".to_string()));
    assert_eq!(scan(CheckId::EpicCache, true, "50.5"), ("issue", "50.5 MB of Epic Games Launcher cache found.".to_string()));
    assert_eq!(scan(CheckId::EpicCache, true, "4"), ("ok", "Only 4.0 MB of launcher cache. Nothing to clean.".to_string()));
    assert_eq!(scan(CheckId::GpuShaderCache, true, "512"), ("issue", "512.0 MB of shader cache. Clearing it can fix stuttering or visual glitches.".to_string()));
    assert_eq!(scan(CheckId::GpuShaderCache, true, "0"), ("ok", "Only 0.0 MB of shader cache. Nothing to clear.".to_string()));
}

#[test]
fn scan_system_files_lowercases_report() {
    assert_eq!(scan(CheckId::SystemFileCheck, true, "The component store is REPAIRABLE."), ("issue", "Component store corruption detected. Repair is available.".to_string()));
    assert_eq!(scan(CheckId::SystemFileCheck, true, "No component store corruption detected."), ("ok", "No system file corruption detected.".to_string()));
    assert_eq!(scan(CheckId::SystemFileCheck, true, "Operation completed."), ("ok", "Quick check didn't find a flagged issue.".to_string()));
    assert_eq!(scan(CheckId::SystemFileCheck, false, "Error: 740"), ("error", "Error: 740".to_string()));
    let r = system_file_verdict("component store corruption was detected");
    assert_eq!(r.status, ScanStatus::Issue);
}

#[test]
fn scan_status_detail_lines() {
    let r = status_detail_scan(true, "  Issue | Your battery has lost 40%.  \n");
    assert_eq!((r.status, r.detail.as_str()), (ScanStatus::Issue, "Your battery has lost 40%."));
    let r = status_detail_scan(true, "ok|All 2 drive(s) report healthy.");
    assert_eq!((r.status, r.detail.as_str()), (ScanStatus::Healthy, "All 2 drive(s) report healthy."));
    let r = status_detail_scan(true, "no separator here");
    assert_eq!((r.status, r.detail.as_str()), (ScanStatus::Healthy, "no separator here"));
    let r = status_detail_scan(true, "warning|a|b");
    assert_eq!((r.status, r.detail.as_str()), (ScanStatus::Healthy, "a|b"));
    let r = status_detail_scan(false, " failed ");
    assert_eq!((r.status, r.detail.as_str()), (ScanStatus::Error, " failed "));
    assert_eq!(scan(CheckId::BatteryHealth, true, "ISSUE|worn").0, "issue");
}

#[test]
fn scan_state_machine_runs_then_reads() {
    match scan_check_blocking("temp_files", ScanEvent::Nudged) {
        ScanAction::Run(q) => {
            assert_eq!(q.script, SCAN_TEMP_FILES_SCRIPT);
            assert_eq!(q.timeout_secs, DEFAULT_TIMEOUT_SECS);
        }
        _ => panic!("expected a run"),
    }
    let done = scan_check_blocking("temp_files", ScanEvent::Ran { ok: true, out: "1.5".to_string() });
    assert_eq!(finish(done), ("ok", "Only 1.5 MB of temp files. Nothing to clean.".to_string()));
    match scan_check_blocking("system_file_check", ScanEvent::Nudged) {
        ScanAction::Run(q) => assert_eq!(q.timeout_secs, LONG_TIMEOUT_SECS),
        _ => panic!("expected a run"),
    }
}

#[test]
fn scan_fixed_checks_need_no_script() {
    assert_eq!(finish(scan_check_blocking("dns_cache", ScanEvent::Nudged)), ("issue", "DNS cache can be flushed at any time to resolve connectivity issues.".to_string()));
    assert_eq!(finish(scan_check_blocking("winsock_reset", ScanEvent::Nudged)).0, "issue");
    assert_eq!(finish(scan_check_blocking("restore_point", ScanEvent::Nudged)), ("issue", "No restore point created yet this session. Recommended before running other fixes.".to_string()));
    assert_eq!(finish(scan_check_blocking("gpu_restart_driver", ScanEvent::Nudged)), ("issue", "Available as a manual fix if your screen freezes, goes black, or shows visual artifacts.".to_string()));
}

#[test]
fn scan_unknown_check_is_error() {
    assert_eq!(finish(scan_check_blocking("bogus", ScanEvent::Nudged)), ("error", "Unknown check.".to_string()));
    assert_eq!(finish(scan_check_blocking("bogus", ScanEvent::Ran { ok: true, out: "1".to_string() })), ("error", "Unknown check.".to_string()));
}

#[test]
fn scan_failed_runs_are_errors() {
    for c in all_check_ids() {
        if scan_script(c).is_some() {
            assert_eq!(interpret_scan(c, false, "x").status, ScanStatus::Error, "{c:?}");
        }
    }
}

#[test]
fn scan_requests_use_the_check_scripts() {
    let q = scan_script(CheckId::PrintSpooler).unwrap();
    assert_eq!(q.script, SCAN_PRINT_SPOOLER_SCRIPT);
    assert_eq!(q.script, "(Get-Service -Name Spooler).Status");
    assert!(scan_script(CheckId::DnsCache).is_none());
    assert_eq!(scan_script(CheckId::WindowsUpdateCache).unwrap().timeout_secs, 300);
}

#[test]
fn scan_starts_with_background_update_request() {
    for id in ["temp_files", "dns_cache", "bogus", ""] {
        match scan_check_blocking(id, ScanEvent::Start) {
            ScanAction::Background(q) => {
                assert_eq!(q.script, UPDATE_NUDGE_SCRIPT);
                assert!(q.script.contains("UsoClient.exe"));
                assert!(q.script.contains("StartScan"));
                assert_eq!(q.timeout_secs, DEFAULT_TIMEOUT_SECS);
            }
            _ => panic!("expected the background update request for {id:?}"),
        }
    }
    assert_eq!(update_nudge().script, UPDATE_NUDGE_SCRIPT);
}

#[test]
fn scan_has_no_windows_updates_check() {
    assert_eq!(finish(scan_check_blocking("windows_updates", ScanEvent::Nudged)), ("error", "Unknown check.".to_string()));
}

#[test]
fn scan_sizes_read_exactly() {
    assert_eq!(scan(CheckId::TempFiles, true, "100.05"), ("issue", "100.0 MB of temp files found.".to_string()));
    assert_eq!(scan(CheckId::GpuShaderCache, true, "100.0001"), ("issue", "100.0 MB of shader cache. Clearing it can fix stuttering or visual glitches.".to_string()));
    assert_eq!(scan(CheckId::SteamCache, true, "123456789012345"), ("issue", "123456789012345.0 MB of Steam cache found.".to_string()));
    assert_eq!(scan(CheckId::EpicCache, true, "50.04"), ("issue", "50.0 MB of Epic Games Launcher cache found.".to_string()));
    assert_eq!(scan(CheckId::DiskSpace, true, "9.99,12.345"), ("issue", "Only 10.0% (12.3 GB) free on C:.".to_string()));
    assert_eq!(scan(CheckId::WindowsUpdateCache, true, "500.01|no"), ("issue", "500.0 MB of old Windows Update files found.".to_string()));
}

#[test]
fn scan_status_words_round_trip() {
    for s in [ScanStatus::Healthy, ScanStatus::Issue, ScanStatus::Error] {
        assert_eq!(ScanStatus::from_word(s.as_str()), Some(s));
    }
    assert_eq!(ScanStatus::Healthy.as_str(), "ok");
    assert_eq!(ScanStatus::from_word("OK"), None);
    assert_eq!(ScanStatus::from_word("warn"), None);
}

#[test]
fn scan_sizes_read_exponents_infinity_and_nan() {
    assert_eq!(scan(CheckId::TempFiles, true, "1e3"), ("issue", "1000.0 MB of temp files found.".to_string()));
    assert_eq!(scan(CheckId::TempFiles, true, "1e2"), ("ok", "Only 100.0 MB of temp files. Nothing to clean.".to_string()));
    assert_eq!(scan(CheckId::SteamCache, true, "2.5E+2\r\n"), ("issue", "250.0 MB of Steam cache found.".to_string()));
    assert_eq!(scan(CheckId::GpuShaderCache, true, "inf"), ("issue", "inf MB of shader cache. Clearing it can fix stuttering or visual glitches.".to_string()));
    assert_eq!(scan(CheckId::GpuShaderCache, true, "NaN"), ("ok", "Only NaN MB of shader cache. Nothing to clear.".to_string()));
    assert_eq!(scan(CheckId::EpicCache, true, "-Infinity"), ("ok", "Only -inf MB of launcher cache. Nothing to clean.".to_string()));
    assert_eq!(scan(CheckId::DiskSpace, true, "nan,1e1"), ("ok", "NaN% (10.0 GB) free on C:.".to_string()));
    assert_eq!(scan(CheckId::DiskSpace, true, "-inf,inf"), ("issue", "Only -inf% (inf GB) free on C:.".to_string()));
    assert_eq!(scan(CheckId::DiskSpace, true, "5e-1,2"), ("issue", "Only 0.5% (2.0 GB) free on C:.".to_string()));
    assert_eq!(scan(CheckId::WindowsUpdateCache, true, "6E2|yes"), ("issue", "600.0 MB in the download cache, plus reclaimable space in the component store.".to_string()));
    assert_eq!(scan(CheckId::WindowsUpdateCache, true, "NaN|no"), ("ok", "Only NaN MB in the download cache and nothing reclaimable in the component store.".to_string()));
    match scan_check_blocking("temp_files", ScanEvent::Ran { ok: true, out: "1e3".to_string() }) {
        ScanAction::Finish(r) => assert_eq!((r.status.as_str(), r.detail), ("issue", "1000.0 MB of temp files found.".to_string())),
        _ => panic!("expected a result"),
    }
}
