use pc_doctor::registry::{active_pids, kill_all_active_powershell, taskkill_args};

#[test]
fn registry_tracks_runs() {
    let mut pids = active_pids();
    assert_eq!(pids.len(), 0);
    pids.insert(10);
    pids.insert(20);
    pids.insert(10);
    assert!(pids.contains(10));
    assert_eq!(pids.len(), 2);
    pids.remove(10);
    assert!(!pids.contains(10));
    assert!(pids.contains(20));
    pids.remove(99);
    assert_eq!(pids.len(), 1);
}

#[test]
fn registry_start_then_end_restores() {
    let mut pids = active_pids();
    pids.insert(5);
    pids.insert(7);
    pids.remove(7);
    assert_eq!(pids.len(), 1);
    assert!(pids.contains(5));
    assert!(!pids.contains(7));
}

#[test]
fn registry_kill_all_drains() {
    let mut pids = active_pids();
    for p in [3, 1, 2] {
        pids.insert(p);
    }
    let mut out = kill_all_active_powershell(&mut pids);
    out.sort();
    assert_eq!(out, vec![1, 2, 3]);
    assert_eq!(pids.len(), 0);
    assert!(kill_all_active_powershell(&mut pids).is_empty());
}

#[test]
fn registry_taskkill_arguments() {
    assert_eq!(taskkill_args(4242), vec!["/F", "/T", "/PID", "4242"]);
    assert_eq!(taskkill_args(0), vec!["/F", "/T", "/PID", "0"]);
    assert_eq!(taskkill_args(u32::MAX), vec!["/F".to_string(), "/T".to_string(), "/PID".to_string(), u32::MAX.to_string()]);
}
