use pc_doctor::catalog::{all_check_ids, CheckId};
use pc_doctor::fix::{fix_check_blocking, fix_script, interpret_fix, read_repair_report, FixAction};
use pc_doctor::powershell::{CheckEvent, DEFAULT_TIMEOUT_SECS, LONG_TIMEOUT_SECS, REPAIR_TIMEOUT_SECS};
use pc_doctor::scripts::{FIX_DNS_CACHE_SCRIPT, FIX_SYSTEM_FILE_CHECK_SCRIPT};

#[test]
fn fix_every_check_asks_for_its_script() {
    for c in all_check_ids() {
        match fix_check_blocking(c.id(), CheckEvent::Start) {
            FixAction::Run(q) => assert_eq!(q.script, fix_script(c).script),
            FixAction::Finish(_) => panic!("expected a run for {c:?}"),
        }
    }
}

#[test]
fn fix_scripts_and_time_limits() {
    assert_eq!(fix_script(CheckId::DnsCache).script, FIX_DNS_CACHE_SCRIPT);
    assert_eq!(fix_script(CheckId::DnsCache).script, "ipconfig /flushdns");
    assert_eq!(fix_script(CheckId::DnsCache).timeout_secs, DEFAULT_TIMEOUT_SECS);
    assert_eq!(fix_script(CheckId::SystemFileCheck).script, FIX_SYSTEM_FILE_CHECK_SCRIPT);
    assert_eq!(fix_script(CheckId::SystemFileCheck).timeout_secs, REPAIR_TIMEOUT_SECS);
    assert_eq!(fix_script(CheckId::WindowsUpdateCache).timeout_secs, 2700);
    assert_eq!(fix_script(CheckId::WindowsUpdateService).timeout_secs, DEFAULT_TIMEOUT_SECS);
    assert_eq!(fix_script(CheckId::DeviceProblems).timeout_secs, LONG_TIMEOUT_SECS);
    assert_eq!(fix_script(CheckId::GpuRestartDriver).timeout_secs, 300);
    assert_eq!(fix_script(CheckId::DeviceProblems).timeout_secs, 300);
    assert_eq!(fix_script(CheckId::MemoryCheck).timeout_secs, 60);
}

#[test]
fn fix_passes_run_through() {
    let r = interpret_fix(CheckId::DnsCache, true, "Successfully flushed.".to_string());
    assert!(r.success);
    assert_eq!(r.output, "Successfully flushed.");
    let r = interpret_fix(CheckId::TempFiles, false, " oops ".to_string());
    assert!(!r.success);
    assert_eq!(r.output, " oops ");
}

#[test]
fn fix_repair_reads_status_line() {
    let r = read_repair_report("STATUS:ok\nDISM: healthy.\nSFC: intact.\n");
    assert!(r.success);
    assert_eq!(r.output, "DISM: healthy.\nSFC: intact.");
    let r = read_repair_report("  STATUS:ok \r\nbody");
    assert!(r.success);
    assert_eq!(r.output, "body");
    let r = read_repair_report("STATUS:warn\nSFC: finished.");
    assert!(!r.success);
    assert_eq!(r.output, "SFC: finished.");
    let r = read_repair_report("no status at all ");
    assert!(!r.success);
    assert_eq!(r.output, "no status at all");
    let r = interpret_fix(CheckId::SystemFileCheck, false, "STATUS:ok\nx".to_string());
    assert!(!r.success);
    assert_eq!(r.output, "STATUS:ok\nx");
}

#[test]
fn fix_state_machine_finishes_with_run_result() {
    match fix_check_blocking("system_file_check", CheckEvent::Ran { ok: true, out: "STATUS:fail\nDISM: failed.".to_string() }) {
        FixAction::Finish(r) => {
            assert!(!r.success);
            assert_eq!(r.output, "DISM: failed.");
        }
        FixAction::Run(_) => panic!("expected a result"),
    }
}

#[test]
fn fix_unknown_check_fails() {
    match fix_check_blocking("nope", CheckEvent::Start) {
        FixAction::Finish(r) => {
            assert!(!r.success);
            assert_eq!(r.output, "Unknown check.");
        }
        FixAction::Run(_) => panic!("expected a result"),
    }
}

#[test]
fn fix_failed_runs_never_succeed() {
    for c in all_check_ids() {
        assert!(!interpret_fix(c, false, "STATUS:ok\nfine".to_string()).success);
    }
}

#[test]
fn fix_hardware_checks_point_to_next_step() {
    assert!(fix_script(CheckId::DiskHealth).script.contains("Start-Process \"ms-settings:backup\""));
    assert!(fix_script(CheckId::BatteryHealth).script.contains("powercfg.exe /batteryreport"));
    assert!(fix_script(CheckId::GpuDriverHealth).script.contains("Start-Process $url"));
    assert!(fix_script(CheckId::MemoryCheck).script.contains("mdsched.exe"));
}
