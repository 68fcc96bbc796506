use pc_doctor::catalog::{all_check_ids, checks, CheckId, RESTORE_POINT_DESCRIPTION};

#[test]
fn catalog_lists_all_checks_in_order() {
    let list = checks();
    assert_eq!(list.len(), 22);
    assert!(list.iter().all(|c| c.id != "windows_updates"));
    assert_eq!(list[0].id, "restore_point");
    assert_eq!(list[0].name, "System Restore Point");
    assert_eq!(list[0].description, RESTORE_POINT_DESCRIPTION);
    assert_eq!(
        list[0].description,
        "Creates a restore point so any changes made here can be undone."
    );
    assert_eq!(list[21].id, "memory_check");
    assert_eq!(list[21].name, "Memory (RAM)");
    assert_eq!(list[2].name, "Low Disk Space (C:)");
    assert_eq!(list[11].id, "steam_reset");
    assert_eq!(list[11].name, "Steam Won't Open or Log In");
}

#[test]
fn catalog_ids_read_back_to_their_checks() {
    for c in all_check_ids() {
        assert_eq!(CheckId::from_id(c.id()), Some(c));
    }
}

#[test]
fn catalog_ids_are_distinct() {
    let list = checks();
    for i in 0..list.len() {
        for j in 0..list.len() {
            if i != j {
                assert_ne!(list[i].id, list[j].id);
            }
        }
    }
}

#[test]
fn catalog_unknown_ids_are_rejected() {
    assert_eq!(CheckId::from_id("nothing"), None);
    assert_eq!(CheckId::from_id(""), None);
    assert_eq!(CheckId::from_id("Temp_Files"), None);
    assert_eq!(CheckId::from_id("temp_files "), None);
    assert_eq!(CheckId::from_id("temp_files"), Some(CheckId::TempFiles));
    assert_eq!(CheckId::from_id("windows_update_cache"), Some(CheckId::WindowsUpdateCache));
}

#[test]
fn catalog_info_matches_accessors() {
    let info = CheckId::GpuDriverHealth.info();
    assert_eq!(info.id, "gpu_driver_health");
    assert_eq!(info.name, "Graphics Driver Health");
    assert_eq!(info.description, CheckId::GpuDriverHealth.description());
}
