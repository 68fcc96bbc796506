//! The catalogue of checks: each check's id, name and description, and the
//! reading of an id back into a check.

use vstd::prelude::*;
use crate::text::same_text;

verus! {

/// One of the checks the application offers.
#[derive(Clone, Copy, PartialEq, Eq, Structural, Debug)]
pub enum CheckId {
    RestorePoint,
    TempFiles,
    DiskSpace,
    DnsCache,
    WindowsUpdateService,
    PrintSpooler,
    WinsockReset,
    WindowsUpdateCache,
    DefenderScan,
    StartupPrograms,
    SteamCache,
    SteamReset,
    EpicCache,
    EpicLauncherReset,
    SystemFileCheck,
    GpuShaderCache,
    GpuDriverHealth,
    GpuRestartDriver,
    DiskHealth,
    DeviceProblems,
    BatteryHealth,
    MemoryCheck,
}

/// What the check `restore_point` does, as the user reads it.
pub const RESTORE_POINT_DESCRIPTION: &'static str = "Creates a restore point so any changes made here can be undone.";

/// What the check `temp_files` does, as the user reads it.
pub const TEMP_FILES_DESCRIPTION: &'static str = "Checks how much space is used by temp files and clears them.";

/// What the check `disk_space` does, as the user reads it.
pub const DISK_SPACE_DESCRIPTION: &'static str = "Checks free space on the C: drive and runs disk cleanup if low.";

/// What the check `dns_cache` does, as the user reads it.
pub const DNS_CACHE_DESCRIPTION: &'static str = "Flushes the DNS resolver cache, useful for connectivity issues.";

/// What the check `windows_update_service` does, as the user reads it.
pub const WINDOWS_UPDATE_SERVICE_DESCRIPTION: &'static str = "Checks if the Windows Update service is running and restarts it if not.";

/// What the check `print_spooler` does, as the user reads it.
pub const PRINT_SPOOLER_DESCRIPTION: &'static str = "Checks if the Print Spooler service is running and restarts it if stuck.";

/// What the check `winsock_reset` does, as the user reads it.
pub const WINSOCK_RESET_DESCRIPTION: &'static str = "Resets Winsock catalog to fix network connectivity issues. May require a restart.";

/// What the check `windows_update_cache` does, as the user reads it.
pub const WINDOWS_UPDATE_CACHE_DESCRIPTION: &'static str = "Checks for a bloated or corrupt Windows Update download cache and clears it.";

/// What the check `defender_scan` does, as the user reads it.
pub const DEFENDER_SCAN_DESCRIPTION: &'static str = "Checks Windows Defender status and runs a quick scan for malware.";

/// What the check `startup_programs` does, as the user reads it.
pub const STARTUP_PROGRAMS_DESCRIPTION: &'static str = "Lists apps launching at startup that may be slowing down boot time. Opens Task Manager for you to review — nothing is disabled automatically.";

/// What the check `steam_cache` does, as the user reads it.
pub const STEAM_CACHE_DESCRIPTION: &'static str = "Checks the size of Steam's cached web and download data and clears it if large. Fixes many stalled downloads and store-page glitches. Steam rebuilds these automatically.";

/// What the check `steam_reset` does, as the user reads it.
pub const STEAM_RESET_DESCRIPTION: &'static str = "Closes Steam and resets its local client registry — the most common fix for Steam failing to launch, freezing on login, or showing a blank window. You'll need to log back in afterward.";

/// What the check `epic_cache` does, as the user reads it.
pub const EPIC_CACHE_DESCRIPTION: &'static str = "Checks the size of the Epic Games Launcher's web cache and clears it if large. Fixes a blank/white launcher window, a missing game library, or stuck downloads.";

/// What the check `epic_launcher_reset` does, as the user reads it.
pub const EPIC_LAUNCHER_RESET_DESCRIPTION: &'static str = "Closes stuck Epic Games processes (launcher, web helper, overlay) and reopens the launcher. Fixes a frozen or unresponsive launcher.";

/// What the check `system_file_check` does, as the user reads it.
pub const SYSTEM_FILE_CHECK_DESCRIPTION: &'static str = "Checks Windows' protected system files for corruption — a common cause of random crashes, missing DLL errors, and apps that won't start. The fix runs DISM and SFC repair, which can take 10-30 minutes and may need internet access.";

/// What the check `gpu_shader_cache` does, as the user reads it.
pub const GPU_SHADER_CACHE_DESCRIPTION: &'static str = "Checks the size of the DirectX and graphics-card shader caches and clears them. A common fix for stuttering, texture glitches, or flickering, especially after a driver update. The cache rebuilds automatically.";

/// What the check `gpu_driver_health` does, as the user reads it.
pub const GPU_DRIVER_HEALTH_DESCRIPTION: &'static str = "Checks your graphics card for driver errors (like Code 43), a missing or generic display driver, or a very old driver. The fix opens the right place to get the correct driver.";

/// What the check `gpu_restart_driver` does, as the user reads it.
pub const GPU_RESTART_DRIVER_DESCRIPTION: &'static str = "Restarts the graphics driver to recover from a frozen screen, black screen, or visual artifacts. Your screen will go black for a second or two. Available as a manual fix.";

/// What the check `disk_health` does, as the user reads it.
pub const DISK_HEALTH_DESCRIPTION: &'static str = "Reads each drive's built-in health status and warns you if a drive may be failing, so you can back up your files before you lose them.";

/// What the check `device_problems` does, as the user reads it.
pub const DEVICE_PROBLEMS_DESCRIPTION: &'static str = "Scans all connected components and built-in hardware for devices Windows can't use — usually a missing or broken driver — and helps you get them working.";

/// What the check `battery_health` does, as the user reads it.
pub const BATTERY_HEALTH_DESCRIPTION: &'static str = "On laptops, checks how much of the battery's original capacity has been lost to wear. Skipped automatically on desktops.";

/// What the check `memory_check` does, as the user reads it.
pub const MEMORY_CHECK_DESCRIPTION: &'static str = "Reports your installed memory and checks Windows' logs for recent hardware errors. Can launch the built-in Windows Memory Diagnostic to test for faulty RAM.";

/// All checks, in the order the application lists them.
pub open spec fn all_checks() -> Seq<CheckId> {
    seq![
        CheckId::RestorePoint,
        CheckId::TempFiles,
        CheckId::DiskSpace,
        CheckId::DnsCache,
        CheckId::WindowsUpdateService,
        CheckId::PrintSpooler,
        CheckId::WinsockReset,
        CheckId::WindowsUpdateCache,
        CheckId::DefenderScan,
        CheckId::StartupPrograms,
        CheckId::SteamCache,
        CheckId::SteamReset,
        CheckId::EpicCache,
        CheckId::EpicLauncherReset,
        CheckId::SystemFileCheck,
        CheckId::GpuShaderCache,
        CheckId::GpuDriverHealth,
        CheckId::GpuRestartDriver,
        CheckId::DiskHealth,
        CheckId::DeviceProblems,
        CheckId::BatteryHealth,
        CheckId::MemoryCheck,
    ]
}

/// The id by which the user interface names a check.
pub open spec fn id_text(c: CheckId) -> Seq<char> {
    match c {
        CheckId::RestorePoint => "restore_point"@,
        CheckId::TempFiles => "temp_files"@,
        CheckId::DiskSpace => "disk_space"@,
        CheckId::DnsCache => "dns_cache"@,
        CheckId::WindowsUpdateService => "windows_update_service"@,
        CheckId::PrintSpooler => "print_spooler"@,
        CheckId::WinsockReset => "winsock_reset"@,
        CheckId::WindowsUpdateCache => "windows_update_cache"@,
        CheckId::DefenderScan => "defender_scan"@,
        CheckId::StartupPrograms => "startup_programs"@,
        CheckId::SteamCache => "steam_cache"@,
        CheckId::SteamReset => "steam_reset"@,
        CheckId::EpicCache => "epic_cache"@,
        CheckId::EpicLauncherReset => "epic_launcher_reset"@,
        CheckId::SystemFileCheck => "system_file_check"@,
        CheckId::GpuShaderCache => "gpu_shader_cache"@,
        CheckId::GpuDriverHealth => "gpu_driver_health"@,
        CheckId::GpuRestartDriver => "gpu_restart_driver"@,
        CheckId::DiskHealth => "disk_health"@,
        CheckId::DeviceProblems => "device_problems"@,
        CheckId::BatteryHealth => "battery_health"@,
        CheckId::MemoryCheck => "memory_check"@,
    }
}

/// The title of a check.
pub open spec fn name_text(c: CheckId) -> Seq<char> {
    match c {
        CheckId::RestorePoint => "System Restore Point"@,
        CheckId::TempFiles => "Temporary Files"@,
        CheckId::DiskSpace => "Low Disk Space (C:)"@,
        CheckId::DnsCache => "DNS Cache"@,
        CheckId::WindowsUpdateService => "Windows Update Service"@,
        CheckId::PrintSpooler => "Print Spooler"@,
        CheckId::WinsockReset => "Network Stack Reset"@,
        CheckId::WindowsUpdateCache => "Windows Update Cache"@,
        CheckId::DefenderScan => "Antivirus Quick Scan"@,
        CheckId::StartupPrograms => "Startup Programs"@,
        CheckId::SteamCache => "Steam Download Cache"@,
        CheckId::SteamReset => "Steam Won't Open or Log In"@,
        CheckId::EpicCache => "Epic Games Launcher Cache"@,
        CheckId::EpicLauncherReset => "Epic Games Launcher Frozen"@,
        CheckId::SystemFileCheck => "Corrupted System Files"@,
        CheckId::GpuShaderCache => "Graphics Shader Cache"@,
        CheckId::GpuDriverHealth => "Graphics Driver Health"@,
        CheckId::GpuRestartDriver => "Restart Graphics Driver"@,
        CheckId::DiskHealth => "Disk Health (SMART)"@,
        CheckId::DeviceProblems => "Hardware Device Problems"@,
        CheckId::BatteryHealth => "Battery Health"@,
        CheckId::MemoryCheck => "Memory (RAM)"@,
    }
}

/// The description of a check.
pub open spec fn description_text(c: CheckId) -> Seq<char> {
    match c {
        CheckId::RestorePoint => RESTORE_POINT_DESCRIPTION@,
        CheckId::TempFiles => TEMP_FILES_DESCRIPTION@,
        CheckId::DiskSpace => DISK_SPACE_DESCRIPTION@,
        CheckId::DnsCache => DNS_CACHE_DESCRIPTION@,
        CheckId::WindowsUpdateService => WINDOWS_UPDATE_SERVICE_DESCRIPTION@,
        CheckId::PrintSpooler => PRINT_SPOOLER_DESCRIPTION@,
        CheckId::WinsockReset => WINSOCK_RESET_DESCRIPTION@,
        CheckId::WindowsUpdateCache => WINDOWS_UPDATE_CACHE_DESCRIPTION@,
        CheckId::DefenderScan => DEFENDER_SCAN_DESCRIPTION@,
        CheckId::StartupPrograms => STARTUP_PROGRAMS_DESCRIPTION@,
        CheckId::SteamCache => STEAM_CACHE_DESCRIPTION@,
        CheckId::SteamReset => STEAM_RESET_DESCRIPTION@,
        CheckId::EpicCache => EPIC_CACHE_DESCRIPTION@,
        CheckId::EpicLauncherReset => EPIC_LAUNCHER_RESET_DESCRIPTION@,
        CheckId::SystemFileCheck => SYSTEM_FILE_CHECK_DESCRIPTION@,
        CheckId::GpuShaderCache => GPU_SHADER_CACHE_DESCRIPTION@,
        CheckId::GpuDriverHealth => GPU_DRIVER_HEALTH_DESCRIPTION@,
        CheckId::GpuRestartDriver => GPU_RESTART_DRIVER_DESCRIPTION@,
        CheckId::DiskHealth => DISK_HEALTH_DESCRIPTION@,
        CheckId::DeviceProblems => DEVICE_PROBLEMS_DESCRIPTION@,
        CheckId::BatteryHealth => BATTERY_HEALTH_DESCRIPTION@,
        CheckId::MemoryCheck => MEMORY_CHECK_DESCRIPTION@,
    }
}

/// The check whose id is `s`, or `None` where no check has that id.
pub open spec fn parse_check_id(s: Seq<char>) -> Option<CheckId> {
    if s == id_text(CheckId::RestorePoint) {
        Some(CheckId::RestorePoint)
    } else if s == id_text(CheckId::TempFiles) {
        Some(CheckId::TempFiles)
    } else if s == id_text(CheckId::DiskSpace) {
        Some(CheckId::DiskSpace)
    } else if s == id_text(CheckId::DnsCache) {
        Some(CheckId::DnsCache)
    } else if s == id_text(CheckId::WindowsUpdateService) {
        Some(CheckId::WindowsUpdateService)
    } else if s == id_text(CheckId::PrintSpooler) {
        Some(CheckId::PrintSpooler)
    } else if s == id_text(CheckId::WinsockReset) {
        Some(CheckId::WinsockReset)
    } else if s == id_text(CheckId::WindowsUpdateCache) {
        Some(CheckId::WindowsUpdateCache)
    } else if s == id_text(CheckId::DefenderScan) {
        Some(CheckId::DefenderScan)
    } else if s == id_text(CheckId::StartupPrograms) {
        Some(CheckId::StartupPrograms)
    } else if s == id_text(CheckId::SteamCache) {
        Some(CheckId::SteamCache)
    } else if s == id_text(CheckId::SteamReset) {
        Some(CheckId::SteamReset)
    } else if s == id_text(CheckId::EpicCache) {
        Some(CheckId::EpicCache)
    } else if s == id_text(CheckId::EpicLauncherReset) {
        Some(CheckId::EpicLauncherReset)
    } else if s == id_text(CheckId::SystemFileCheck) {
        Some(CheckId::SystemFileCheck)
    } else if s == id_text(CheckId::GpuShaderCache) {
        Some(CheckId::GpuShaderCache)
    } else if s == id_text(CheckId::GpuDriverHealth) {
        Some(CheckId::GpuDriverHealth)
    } else if s == id_text(CheckId::GpuRestartDriver) {
        Some(CheckId::GpuRestartDriver)
    } else if s == id_text(CheckId::DiskHealth) {
        Some(CheckId::DiskHealth)
    } else if s == id_text(CheckId::DeviceProblems) {
        Some(CheckId::DeviceProblems)
    } else if s == id_text(CheckId::BatteryHealth) {
        Some(CheckId::BatteryHealth)
    } else if s == id_text(CheckId::MemoryCheck) {
        Some(CheckId::MemoryCheck)
    } else {
        None
    }
}

/// The entry of a check in the list that the user interface shows.
pub struct CheckInfo {
    pub id: &'static str,
    pub name: &'static str,
    pub description: &'static str,
}

impl CheckInfo {
    /// `self` lists the check `c`.
    pub open spec fn describes(&self, c: CheckId) -> bool {
        &&& self.id@ == id_text(c)
        &&& self.name@ == name_text(c)
        &&& self.description@ == description_text(c)
    }
}

impl CheckId {
    /// The id of the check.
    pub fn id(&self) -> (r: &'static str)
        ensures
            r@ == id_text(*self),
    {
        match self {
            CheckId::RestorePoint => "restore_point",
            CheckId::TempFiles => "temp_files",
            CheckId::DiskSpace => "disk_space",
            CheckId::DnsCache => "dns_cache",
            CheckId::WindowsUpdateService => "windows_update_service",
            CheckId::PrintSpooler => "print_spooler",
            CheckId::WinsockReset => "winsock_reset",
            CheckId::WindowsUpdateCache => "windows_update_cache",
            CheckId::DefenderScan => "defender_scan",
            CheckId::StartupPrograms => "startup_programs",
            CheckId::SteamCache => "steam_cache",
            CheckId::SteamReset => "steam_reset",
            CheckId::EpicCache => "epic_cache",
            CheckId::EpicLauncherReset => "epic_launcher_reset",
            CheckId::SystemFileCheck => "system_file_check",
            CheckId::GpuShaderCache => "gpu_shader_cache",
            CheckId::GpuDriverHealth => "gpu_driver_health",
            CheckId::GpuRestartDriver => "gpu_restart_driver",
            CheckId::DiskHealth => "disk_health",
            CheckId::DeviceProblems => "device_problems",
            CheckId::BatteryHealth => "battery_health",
            CheckId::MemoryCheck => "memory_check",
        }
    }

    /// The title of the check.
    pub fn name(&self) -> (r: &'static str)
        ensures
            r@ == name_text(*self),
    {
        match self {
            CheckId::RestorePoint => "System Restore Point",
            CheckId::TempFiles => "Temporary Files",
            CheckId::DiskSpace => "Low Disk Space (C:)",
            CheckId::DnsCache => "DNS Cache",
            CheckId::WindowsUpdateService => "Windows Update Service",
            CheckId::PrintSpooler => "Print Spooler",
            CheckId::WinsockReset => "Network Stack Reset",
            CheckId::WindowsUpdateCache => "Windows Update Cache",
            CheckId::DefenderScan => "Antivirus Quick Scan",
            CheckId::StartupPrograms => "Startup Programs",
            CheckId::SteamCache => "Steam Download Cache",
            CheckId::SteamReset => "Steam Won't Open or Log In",
            CheckId::EpicCache => "Epic Games Launcher Cache",
            CheckId::EpicLauncherReset => "Epic Games Launcher Frozen",
            CheckId::SystemFileCheck => "Corrupted System Files",
            CheckId::GpuShaderCache => "Graphics Shader Cache",
            CheckId::GpuDriverHealth => "Graphics Driver Health",
            CheckId::GpuRestartDriver => "Restart Graphics Driver",
            CheckId::DiskHealth => "Disk Health (SMART)",
            CheckId::DeviceProblems => "Hardware Device Problems",
            CheckId::BatteryHealth => "Battery Health",
            CheckId::MemoryCheck => "Memory (RAM)",
        }
    }

    /// The description of the check.
    pub fn description(&self) -> (r: &'static str)
        ensures
            r@ == description_text(*self),
    {
        match self {
            CheckId::RestorePoint => RESTORE_POINT_DESCRIPTION,
            CheckId::TempFiles => TEMP_FILES_DESCRIPTION,
            CheckId::DiskSpace => DISK_SPACE_DESCRIPTION,
            CheckId::DnsCache => DNS_CACHE_DESCRIPTION,
            CheckId::WindowsUpdateService => WINDOWS_UPDATE_SERVICE_DESCRIPTION,
            CheckId::PrintSpooler => PRINT_SPOOLER_DESCRIPTION,
            CheckId::WinsockReset => WINSOCK_RESET_DESCRIPTION,
            CheckId::WindowsUpdateCache => WINDOWS_UPDATE_CACHE_DESCRIPTION,
            CheckId::DefenderScan => DEFENDER_SCAN_DESCRIPTION,
            CheckId::StartupPrograms => STARTUP_PROGRAMS_DESCRIPTION,
            CheckId::SteamCache => STEAM_CACHE_DESCRIPTION,
            CheckId::SteamReset => STEAM_RESET_DESCRIPTION,
            CheckId::EpicCache => EPIC_CACHE_DESCRIPTION,
            CheckId::EpicLauncherReset => EPIC_LAUNCHER_RESET_DESCRIPTION,
            CheckId::SystemFileCheck => SYSTEM_FILE_CHECK_DESCRIPTION,
            CheckId::GpuShaderCache => GPU_SHADER_CACHE_DESCRIPTION,
            CheckId::GpuDriverHealth => GPU_DRIVER_HEALTH_DESCRIPTION,
            CheckId::GpuRestartDriver => GPU_RESTART_DRIVER_DESCRIPTION,
            CheckId::DiskHealth => DISK_HEALTH_DESCRIPTION,
            CheckId::DeviceProblems => DEVICE_PROBLEMS_DESCRIPTION,
            CheckId::BatteryHealth => BATTERY_HEALTH_DESCRIPTION,
            CheckId::MemoryCheck => MEMORY_CHECK_DESCRIPTION,
        }
    }

    /// The check whose id is `id`, or `None` where no check has it.
    pub fn from_id(id: &str) -> (r: Option<CheckId>)
        ensures
            r == parse_check_id(id@),
    {
        let v = crate::text::chars_of(id);
        if same_text(&v, "restore_point") {
            return Some(CheckId::RestorePoint);
        }
        if same_text(&v, "temp_files") {
            return Some(CheckId::TempFiles);
        }
        if same_text(&v, "disk_space") {
            return Some(CheckId::DiskSpace);
        }
        if same_text(&v, "dns_cache") {
            return Some(CheckId::DnsCache);
        }
        if same_text(&v, "windows_update_service") {
            return Some(CheckId::WindowsUpdateService);
        }
        if same_text(&v, "print_spooler") {
            return Some(CheckId::PrintSpooler);
        }
        if same_text(&v, "winsock_reset") {
            return Some(CheckId::WinsockReset);
        }
        if same_text(&v, "windows_update_cache") {
            return Some(CheckId::WindowsUpdateCache);
        }
        if same_text(&v, "defender_scan") {
            return Some(CheckId::DefenderScan);
        }
        if same_text(&v, "startup_programs") {
            return Some(CheckId::StartupPrograms);
        }
        if same_text(&v, "steam_cache") {
            return Some(CheckId::SteamCache);
        }
        if same_text(&v, "steam_reset") {
            return Some(CheckId::SteamReset);
        }
        if same_text(&v, "epic_cache") {
            return Some(CheckId::EpicCache);
        }
        if same_text(&v, "epic_launcher_reset") {
            return Some(CheckId::EpicLauncherReset);
        }
        if same_text(&v, "system_file_check") {
            return Some(CheckId::SystemFileCheck);
        }
        if same_text(&v, "gpu_shader_cache") {
            return Some(CheckId::GpuShaderCache);
        }
        if same_text(&v, "gpu_driver_health") {
            return Some(CheckId::GpuDriverHealth);
        }
        if same_text(&v, "gpu_restart_driver") {
            return Some(CheckId::GpuRestartDriver);
        }
        if same_text(&v, "disk_health") {
            return Some(CheckId::DiskHealth);
        }
        if same_text(&v, "device_problems") {
            return Some(CheckId::DeviceProblems);
        }
        if same_text(&v, "battery_health") {
            return Some(CheckId::BatteryHealth);
        }
        if same_text(&v, "memory_check") {
            return Some(CheckId::MemoryCheck);
        }
        None
    }

    /// The list entry of the check.
    pub fn info(&self) -> (r: CheckInfo)
        ensures
            r.describes(*self),
    {
        CheckInfo { id: self.id(), name: self.name(), description: self.description() }
    }
}

/// Every check, in the order the application lists them.
pub fn all_check_ids() -> (r: Vec<CheckId>)
    ensures
        r@ == all_checks(),
{
    let r = vec![
        CheckId::RestorePoint,
        CheckId::TempFiles,
        CheckId::DiskSpace,
        CheckId::DnsCache,
        CheckId::WindowsUpdateService,
        CheckId::PrintSpooler,
        CheckId::WinsockReset,
        CheckId::WindowsUpdateCache,
        CheckId::DefenderScan,
        CheckId::StartupPrograms,
        CheckId::SteamCache,
        CheckId::SteamReset,
        CheckId::EpicCache,
        CheckId::EpicLauncherReset,
        CheckId::SystemFileCheck,
        CheckId::GpuShaderCache,
        CheckId::GpuDriverHealth,
        CheckId::GpuRestartDriver,
        CheckId::DiskHealth,
        CheckId::DeviceProblems,
        CheckId::BatteryHealth,
        CheckId::MemoryCheck,
    ];
    assert(r@ =~= all_checks());
    r
}

/// The list of checks that the user interface shows, one entry per check,
/// in the order of `all_checks`.
pub fn checks() -> (r: Vec<CheckInfo>)
    ensures
        r@.len() == all_checks().len(),
        forall|i: int| 0 <= i < r@.len() ==> #[trigger] r@[i].describes(all_checks()[i]),
{
    let ids = all_check_ids();
    let mut r: Vec<CheckInfo> = Vec::new();
    let n = ids.len();
    let mut i: usize = 0;
    while i < n
        invariant
            n == ids@.len(),
            ids@ == all_checks(),
            i <= n,
            r@.len() == i,
            forall|k: int| 0 <= k < i ==> #[trigger] r@[k].describes(all_checks()[k]),
        decreases n - i,
    {
        r.push(ids[i].info());
        i = i + 1;
    }
    r
}


/// The id texts of the checks, spelled out: their lengths and the letters
/// that tell them apart.
proof fn lemma_id_texts()
    ensures
        id_text(CheckId::RestorePoint).len() == 13,
        id_text(CheckId::RestorePoint)[0] == 'r',
        id_text(CheckId::TempFiles).len() == 10,
        id_text(CheckId::TempFiles)[0] == 't',
        id_text(CheckId::DiskSpace).len() == 10,
        id_text(CheckId::DiskSpace)[0] == 'd',
        id_text(CheckId::DnsCache).len() == 9,
        id_text(CheckId::DnsCache)[0] == 'd',
        id_text(CheckId::WindowsUpdateService).len() == 22,
        id_text(CheckId::WindowsUpdateService)[0] == 'w',
        id_text(CheckId::PrintSpooler).len() == 13,
        id_text(CheckId::PrintSpooler)[0] == 'p',
        id_text(CheckId::WinsockReset).len() == 13,
        id_text(CheckId::WinsockReset)[0] == 'w',
        id_text(CheckId::WindowsUpdateCache).len() == 20,
        id_text(CheckId::WindowsUpdateCache)[0] == 'w',
        id_text(CheckId::DefenderScan).len() == 13,
        id_text(CheckId::DefenderScan)[0] == 'd',
        id_text(CheckId::StartupPrograms).len() == 16,
        id_text(CheckId::StartupPrograms)[0] == 's',
        id_text(CheckId::SteamCache).len() == 11,
        id_text(CheckId::SteamCache)[0] == 's',
        id_text(CheckId::SteamCache)[6] == 'c',
        id_text(CheckId::SteamReset).len() == 11,
        id_text(CheckId::SteamReset)[0] == 's',
        id_text(CheckId::SteamReset)[6] == 'r',
        id_text(CheckId::EpicCache).len() == 10,
        id_text(CheckId::EpicCache)[0] == 'e',
        id_text(CheckId::EpicLauncherReset).len() == 19,
        id_text(CheckId::EpicLauncherReset)[0] == 'e',
        id_text(CheckId::SystemFileCheck).len() == 17,
        id_text(CheckId::SystemFileCheck)[0] == 's',
        id_text(CheckId::GpuShaderCache).len() == 16,
        id_text(CheckId::GpuShaderCache)[0] == 'g',
        id_text(CheckId::GpuDriverHealth).len() == 17,
        id_text(CheckId::GpuDriverHealth)[0] == 'g',
        id_text(CheckId::GpuRestartDriver).len() == 18,
        id_text(CheckId::GpuRestartDriver)[0] == 'g',
        id_text(CheckId::DiskHealth).len() == 11,
        id_text(CheckId::DiskHealth)[0] == 'd',
        id_text(CheckId::DeviceProblems).len() == 15,
        id_text(CheckId::DeviceProblems)[0] == 'd',
        id_text(CheckId::BatteryHealth).len() == 14,
        id_text(CheckId::BatteryHealth)[0] == 'b',
        id_text(CheckId::MemoryCheck).len() == 12,
        id_text(CheckId::MemoryCheck)[0] == 'm',
{
    reveal_strlit("restore_point");
    reveal_strlit("temp_files");
    reveal_strlit("disk_space");
    reveal_strlit("dns_cache");
    reveal_strlit("windows_update_service");
    reveal_strlit("print_spooler");
    reveal_strlit("winsock_reset");
    reveal_strlit("windows_update_cache");
    reveal_strlit("defender_scan");
    reveal_strlit("startup_programs");
    reveal_strlit("steam_cache");
    reveal_strlit("steam_reset");
    reveal_strlit("epic_cache");
    reveal_strlit("epic_launcher_reset");
    reveal_strlit("system_file_check");
    reveal_strlit("gpu_shader_cache");
    reveal_strlit("gpu_driver_health");
    reveal_strlit("gpu_restart_driver");
    reveal_strlit("disk_health");
    reveal_strlit("device_problems");
    reveal_strlit("battery_health");
    reveal_strlit("memory_check");
    assert("restore_point"@.len() == 13);
    assert("restore_point"@[0] == 'r');
    assert("temp_files"@.len() == 10);
    assert("temp_files"@[0] == 't');
    assert("disk_space"@.len() == 10);
    assert("disk_space"@[0] == 'd');
    assert("dns_cache"@.len() == 9);
    assert("dns_cache"@[0] == 'd');
    assert("windows_update_service"@.len() == 22);
    assert("windows_update_service"@[0] == 'w');
    assert("print_spooler"@.len() == 13);
    assert("print_spooler"@[0] == 'p');
    assert("winsock_reset"@.len() == 13);
    assert("winsock_reset"@[0] == 'w');
    assert("windows_update_cache"@.len() == 20);
    assert("windows_update_cache"@[0] == 'w');
    assert("defender_scan"@.len() == 13);
    assert("defender_scan"@[0] == 'd');
    assert("startup_programs"@.len() == 16);
    assert("startup_programs"@[0] == 's');
    assert("steam_cache"@.len() == 11);
    assert("steam_cache"@[0] == 's');
    assert("steam_cache"@[6] == 'c');
    assert("steam_reset"@.len() == 11);
    assert("steam_reset"@[0] == 's');
    assert("steam_reset"@[6] == 'r');
    assert("epic_cache"@.len() == 10);
    assert("epic_cache"@[0] == 'e');
    assert("epic_launcher_reset"@.len() == 19);
    assert("epic_launcher_reset"@[0] == 'e');
    assert("system_file_check"@.len() == 17);
    assert("system_file_check"@[0] == 's');
    assert("gpu_shader_cache"@.len() == 16);
    assert("gpu_shader_cache"@[0] == 'g');
    assert("gpu_driver_health"@.len() == 17);
    assert("gpu_driver_health"@[0] == 'g');
    assert("gpu_restart_driver"@.len() == 18);
    assert("gpu_restart_driver"@[0] == 'g');
    assert("disk_health"@.len() == 11);
    assert("disk_health"@[0] == 'd');
    assert("device_problems"@.len() == 15);
    assert("device_problems"@[0] == 'd');
    assert("battery_health"@.len() == 14);
    assert("battery_health"@[0] == 'b');
    assert("memory_check"@.len() == 12);
    assert("memory_check"@[0] == 'm');
}

/// No two checks share an id.
pub proof fn law_check_ids_distinct(a: CheckId, b: CheckId)
    requires
        id_text(a) == id_text(b),
    ensures
        a == b,
{
    lemma_id_texts();
    if a != b {
        assert(id_text(a).len() == id_text(b).len());
        assert(id_text(a)[0] == id_text(b)[0]);
        assert(id_text(a)[6] == id_text(b)[6]);
    }
}

/// Reading a check's id back gives that check: every listed check is
/// recognised by its id.
pub proof fn law_check_id_round_trip(c: CheckId)
    ensures
        parse_check_id(id_text(c)) == Some(c),
{
    lemma_id_texts();
    assert forall|a: CheckId| id_text(a) == id_text(c) implies a == c by {
        law_check_ids_distinct(a, c);
    }
}

/// Each check has its own id, title and description, as the user
/// interface shows them.
pub proof fn law_check_table(c: CheckId)
    ensures
        match c {
            CheckId::RestorePoint => id_text(c) == "restore_point"@ && name_text(c) == "System Restore Point"@
                && description_text(c) == RESTORE_POINT_DESCRIPTION@,
            CheckId::TempFiles => id_text(c) == "temp_files"@ && name_text(c) == "Temporary Files"@
                && description_text(c) == TEMP_FILES_DESCRIPTION@,
            CheckId::DiskSpace => id_text(c) == "disk_space"@ && name_text(c) == "Low Disk Space (C:)"@
                && description_text(c) == DISK_SPACE_DESCRIPTION@,
            CheckId::DnsCache => id_text(c) == "dns_cache"@ && name_text(c) == "DNS Cache"@
                && description_text(c) == DNS_CACHE_DESCRIPTION@,
            CheckId::WindowsUpdateService => id_text(c) == "windows_update_service"@ && name_text(c) == "Windows Update Service"@
                && description_text(c) == WINDOWS_UPDATE_SERVICE_DESCRIPTION@,
            CheckId::PrintSpooler => id_text(c) == "print_spooler"@ && name_text(c) == "Print Spooler"@
                && description_text(c) == PRINT_SPOOLER_DESCRIPTION@,
            CheckId::WinsockReset => id_text(c) == "winsock_reset"@ && name_text(c) == "Network Stack Reset"@
                && description_text(c) == WINSOCK_RESET_DESCRIPTION@,
            CheckId::WindowsUpdateCache => id_text(c) == "windows_update_cache"@ && name_text(c) == "Windows Update Cache"@
                && description_text(c) == WINDOWS_UPDATE_CACHE_DESCRIPTION@,
            CheckId::DefenderScan => id_text(c) == "defender_scan"@ && name_text(c) == "Antivirus Quick Scan"@
                && description_text(c) == DEFENDER_SCAN_DESCRIPTION@,
            CheckId::StartupPrograms => id_text(c) == "startup_programs"@ && name_text(c) == "Startup Programs"@
                && description_text(c) == STARTUP_PROGRAMS_DESCRIPTION@,
            CheckId::SteamCache => id_text(c) == "steam_cache"@ && name_text(c) == "Steam Download Cache"@
                && description_text(c) == STEAM_CACHE_DESCRIPTION@,
            CheckId::SteamReset => id_text(c) == "steam_reset"@ && name_text(c) == "Steam Won't Open or Log In"@
                && description_text(c) == STEAM_RESET_DESCRIPTION@,
            CheckId::EpicCache => id_text(c) == "epic_cache"@ && name_text(c) == "Epic Games Launcher Cache"@
                && description_text(c) == EPIC_CACHE_DESCRIPTION@,
            CheckId::EpicLauncherReset => id_text(c) == "epic_launcher_reset"@ && name_text(c) == "Epic Games Launcher Frozen"@
                && description_text(c) == EPIC_LAUNCHER_RESET_DESCRIPTION@,
            CheckId::SystemFileCheck => id_text(c) == "system_file_check"@ && name_text(c) == "Corrupted System Files"@
                && description_text(c) == SYSTEM_FILE_CHECK_DESCRIPTION@,
            CheckId::GpuShaderCache => id_text(c) == "gpu_shader_cache"@ && name_text(c) == "Graphics Shader Cache"@
                && description_text(c) == GPU_SHADER_CACHE_DESCRIPTION@,
            CheckId::GpuDriverHealth => id_text(c) == "gpu_driver_health"@ && name_text(c) == "Graphics Driver Health"@
                && description_text(c) == GPU_DRIVER_HEALTH_DESCRIPTION@,
            CheckId::GpuRestartDriver => id_text(c) == "gpu_restart_driver"@ && name_text(c) == "Restart Graphics Driver"@
                && description_text(c) == GPU_RESTART_DRIVER_DESCRIPTION@,
            CheckId::DiskHealth => id_text(c) == "disk_health"@ && name_text(c) == "Disk Health (SMART)"@
                && description_text(c) == DISK_HEALTH_DESCRIPTION@,
            CheckId::DeviceProblems => id_text(c) == "device_problems"@ && name_text(c) == "Hardware Device Problems"@
                && description_text(c) == DEVICE_PROBLEMS_DESCRIPTION@,
            CheckId::BatteryHealth => id_text(c) == "battery_health"@ && name_text(c) == "Battery Health"@
                && description_text(c) == BATTERY_HEALTH_DESCRIPTION@,
            CheckId::MemoryCheck => id_text(c) == "memory_check"@ && name_text(c) == "Memory (RAM)"@
                && description_text(c) == MEMORY_CHECK_DESCRIPTION@,
        },
{
}

/// The checks are listed in this order, each once.
pub proof fn law_check_order()
    ensures
        all_checks() =~= seq![
            CheckId::RestorePoint,
            CheckId::TempFiles,
            CheckId::DiskSpace,
            CheckId::DnsCache,
            CheckId::WindowsUpdateService,
            CheckId::PrintSpooler,
            CheckId::WinsockReset,
            CheckId::WindowsUpdateCache,
            CheckId::DefenderScan,
            CheckId::StartupPrograms,
            CheckId::SteamCache,
            CheckId::SteamReset,
            CheckId::EpicCache,
            CheckId::EpicLauncherReset,
            CheckId::SystemFileCheck,
            CheckId::GpuShaderCache,
            CheckId::GpuDriverHealth,
            CheckId::GpuRestartDriver,
            CheckId::DiskHealth,
            CheckId::DeviceProblems,
            CheckId::BatteryHealth,
            CheckId::MemoryCheck,
        ],
{
}

} // verus!
