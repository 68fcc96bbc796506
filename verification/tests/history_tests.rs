use pc_doctor::history::{history_line, timestamp_request};
use pc_doctor::scripts::TIMESTAMP_SCRIPT;

#[test]
fn history_line_format() {
    assert_eq!(history_line(" 2024-05-01 10:00:00\r\n", "Scanned temp_files: ok"), "[2024-05-01 10:00:00] Scanned temp_files: ok\n");
    assert_eq!(history_line("", "x"), "[] x\n");
}

#[test]
fn history_timestamp_uses_get_date() {
    let q = timestamp_request();
    assert_eq!(q.script, TIMESTAMP_SCRIPT);
    assert_eq!(q.script, "Get-Date -Format \"yyyy-MM-dd HH:mm:ss\"");
    assert_eq!(q.timeout_secs, 60);
}
