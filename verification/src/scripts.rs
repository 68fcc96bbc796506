//! The PowerShell scripts that the checks run. Each scan script prints
//! what its check reads back; each fix script makes a change and prints a
//! message for the user.

use vstd::prelude::*;

verus! {

/// Sums the DirectX and graphics-card shader cache folders, in MB rounded
/// to one decimal place.
pub const SHADER_CACHE_SIZE_SCRIPT: &'static str = r#"
    $paths = @(
        "$env:LOCALAPPDATA\D3DSCache",
        "$env:LOCALAPPDATA\NVIDIA\DXCache",
        "$env:LOCALAPPDATA\NVIDIA\GLCache",
        "$env:LOCALAPPDATA\AMD\DxCache",
        "$env:LOCALAPPDATA\AMD\DX9Cache"
    )
    $bytes = 0
    foreach ($p in $paths) {
        if (Test-Path $p) {
            $s = (Get-ChildItem -Path $p -Recurse -Force -ErrorAction SilentlyContinue | Measure-Object -Property Length -Sum).Sum
            if ($s) { $bytes += $s }
        }
    }
    [math]::Round($bytes / 1MB, 1)
"#;

/// Asks Windows Update to look for updates in the background and returns at
/// once; Windows downloads and installs them on its own schedule.
pub const UPDATE_NUDGE_SCRIPT: &'static str = r#"
                Start-Process -FilePath "$env:windir\System32\UsoClient.exe" -ArgumentList "StartScan" -WindowStyle Hidden -ErrorAction SilentlyContinue
                "Asked Windows Update to look for updates."
            "#;

/// Prints the local time for the history log.
pub const TIMESTAMP_SCRIPT: &'static str = "Get-Date -Format \"yyyy-MM-dd HH:mm:ss\"";

/// The scan script of `temp_files`.
pub const SCAN_TEMP_FILES_SCRIPT: &'static str = r#"
                $bytes = (Get-ChildItem -Path $env:TEMP -Recurse -Force -ErrorAction SilentlyContinue | Measure-Object -Property Length -Sum).Sum
                if (-not $bytes) { $bytes = 0 }
                [math]::Round($bytes / 1MB, 1)
            "#;

/// The scan script of `disk_space`.
pub const SCAN_DISK_SPACE_SCRIPT: &'static str = r#"
                $d = Get-PSDrive C
                $freePct = [math]::Round(($d.Free / ($d.Free + $d.Used)) * 100, 1)
                $freeGB = [math]::Round($d.Free / 1GB, 1)
                "$freePct,$freeGB"
            "#;

/// The scan script of `windows_update_service`.
pub const SCAN_WINDOWS_UPDATE_SERVICE_SCRIPT: &'static str = "(Get-Service -Name wuauserv).Status";

/// The scan script of `print_spooler`.
pub const SCAN_PRINT_SPOOLER_SCRIPT: &'static str = "(Get-Service -Name Spooler).Status";

/// The scan script of `windows_update_cache`.
pub const SCAN_WINDOWS_UPDATE_CACHE_SCRIPT: &'static str = r#"
                $path = "$env:windir\SoftwareDistribution\Download"
                $bytes = (Get-ChildItem -Path $path -Recurse -Force -ErrorAction SilentlyContinue | Measure-Object -Property Length -Sum).Sum
                if (-not $bytes) { $bytes = 0 }
                $mb = [math]::Round($bytes / 1MB, 1)
                $recommended = "no"
                try {
                    $a = & dism.exe /Online /Cleanup-Image /AnalyzeComponentStore 2>&1 | Out-String
                    if ($a -match "Component Store Cleanup Recommended\s*:\s*Yes") { $recommended = "yes" }
                } catch {}
                "$mb|$recommended"
            "#;

/// The scan script of `defender_scan`.
pub const SCAN_DEFENDER_SCAN_SCRIPT: &'static str = r#"
                $s = Get-MpComputerStatus -ErrorAction SilentlyContinue
                if ($null -eq $s) { "unavailable" }
                elseif (-not $s.RealTimeProtectionEnabled) { "disabled" }
                else {
                    $age = (Get-Date) - $s.AntivirusSignatureLastUpdated
                    if ($age.TotalDays -gt 7) { "stale" } else { "ok" }
                }
            "#;

/// The scan script of `startup_programs`.
pub const SCAN_STARTUP_PROGRAMS_SCRIPT: &'static str = "(Get-CimInstance Win32_StartupCommand | Measure-Object).Count";

/// The scan script of `steam_cache`.
pub const SCAN_STEAM_CACHE_SCRIPT: &'static str = r#"
                $steamPath = $null
                try { $steamPath = (Get-ItemProperty "HKCU:\Software\Valve\Steam" -ErrorAction Stop).SteamPath } catch {}
                if (-not $steamPath) {
                    try { $steamPath = (Get-ItemProperty "HKLM:\SOFTWARE\WOW6432Node\Valve\Steam" -ErrorAction Stop).InstallPath } catch {}
                }
                if (-not $steamPath -or -not (Test-Path $steamPath)) {
                    "NOTFOUND"
                } else {
                    $folders = "appcache\httpcache", "appcache\stats", "depotcache"
                    $bytes = 0
                    foreach ($f in $folders) {
                        $p = Join-Path $steamPath $f
                        if (Test-Path $p) {
                            $sum = (Get-ChildItem -Path $p -Recurse -Force -ErrorAction SilentlyContinue | Measure-Object -Property Length -Sum).Sum
                            if ($sum) { $bytes += $sum }
                        }
                    }
                    [math]::Round($bytes / 1MB, 1)
                }
            "#;

/// The scan script of `steam_reset`.
pub const SCAN_STEAM_RESET_SCRIPT: &'static str = r#"
                $p = $null
                try { $p = (Get-ItemProperty "HKCU:\Software\Valve\Steam" -ErrorAction Stop).SteamPath } catch {}
                if (-not $p) { try { $p = (Get-ItemProperty "HKLM:\SOFTWARE\WOW6432Node\Valve\Steam" -ErrorAction Stop).InstallPath } catch {} }
                if (-not $p -or -not (Test-Path $p)) { "NOTFOUND" } else { "FOUND" }
            "#;

/// The scan script of `epic_cache`.
pub const SCAN_EPIC_CACHE_SCRIPT: &'static str = r#"
                $paths = "$env:LOCALAPPDATA\EpicGamesLauncher\Saved\webcache", "$env:LOCALAPPDATA\EpicGamesLauncher\Saved\webcache_4147"
                $found = $false
                $bytes = 0
                foreach ($p in $paths) {
                    if (Test-Path $p) {
                        $found = $true
                        $sum = (Get-ChildItem -Path $p -Recurse -Force -ErrorAction SilentlyContinue | Measure-Object -Property Length -Sum).Sum
                        if ($sum) { $bytes += $sum }
                    }
                }
                if (-not $found) { "NOTFOUND" } else { [math]::Round($bytes / 1MB, 1) }
            "#;

/// The scan script of `epic_launcher_reset`.
pub const SCAN_EPIC_LAUNCHER_RESET_SCRIPT: &'static str = r#"
                $paths = @(
                    "${env:ProgramFiles(x86)}\Epic Games\Launcher\Portal\Binaries\Win64\EpicGamesLauncher.exe",
                    "$env:ProgramFiles\Epic Games\Launcher\Portal\Binaries\Win64\EpicGamesLauncher.exe",
                    "$env:LOCALAPPDATA\EpicGamesLauncher"
                )
                $found = $false
                foreach ($p in $paths) { if (Test-Path $p) { $found = $true; break } }
                if ($found) { "FOUND" } else { "NOTFOUND" }
            "#;

/// The scan script of `system_file_check`.
pub const SCAN_SYSTEM_FILE_CHECK_SCRIPT: &'static str = "dism /Online /Cleanup-Image /CheckHealth";

/// The scan script of `gpu_shader_cache`.
pub const SCAN_GPU_SHADER_CACHE_SCRIPT: &'static str = SHADER_CACHE_SIZE_SCRIPT;

/// The scan script of `gpu_driver_health`.
pub const SCAN_GPU_DRIVER_HEALTH_SCRIPT: &'static str = r#"
                $status = "ok"
                $detail = "Graphics driver looks healthy."
                $bad = Get-PnpDevice -Class Display -ErrorAction SilentlyContinue |
                    Where-Object { $_.ConfigManagerErrorCode -ne $null -and $_.ConfigManagerErrorCode -ne 0 } |
                    Select-Object -First 1
                $basic = Get-CimInstance Win32_VideoController -ErrorAction SilentlyContinue |
                    Where-Object { $_.Name -match "Basic Display|Standard VGA" } | Select-Object -First 1
                if ($bad) {
                    $status = "issue"
                    $detail = "Your graphics card reports a driver error (Code $($bad.ConfigManagerErrorCode)). Reinstalling the driver usually fixes it."
                } elseif ($basic) {
                    $status = "issue"
                    $detail = "Windows is using a basic display driver - your graphics card's full driver isn't installed. Installing it fixes display problems and unlocks full performance."
                } else {
                    $vc = Get-CimInstance Win32_VideoController -ErrorAction SilentlyContinue |
                        Where-Object { $_.DriverDate } | Sort-Object DriverDate | Select-Object -First 1
                    if ($vc -and $vc.DriverDate) {
                        $age = (Get-Date) - $vc.DriverDate
                        if ($age.TotalDays -gt 730) {
                            $status = "issue"
                            $yrs = [math]::Round($age.TotalDays / 365, 1)
                            $detail = "Your graphics driver is about $yrs years old ($($vc.Name)). A newer driver may fix glitches and improve performance."
                        } else {
                            $detail = "Graphics driver looks healthy ($($vc.Name))."
                        }
                    }
                }
                "$status|$detail"
            "#;

/// The scan script of `disk_health`.
pub const SCAN_DISK_HEALTH_SCRIPT: &'static str = r#"
                $disks = Get-PhysicalDisk -ErrorAction SilentlyContinue
                if (-not $disks) { "ok|Couldn't read drive health on this system." }
                else {
                    $bad = $disks | Where-Object { $_.HealthStatus -and $_.HealthStatus -ne "Healthy" }
                    $total = ($disks | Measure-Object).Count
                    if ($bad) {
                        $names = ($bad | ForEach-Object { "$($_.FriendlyName) [$($_.HealthStatus)]" }) -join "; "
                        "issue|Warning: $names. Back up important files now and consider replacing the drive."
                    } else {
                        "ok|All $total drive(s) report healthy."
                    }
                }
            "#;

/// The scan script of `device_problems`.
pub const SCAN_DEVICE_PROBLEMS_SCRIPT: &'static str = r#"
                $bad = Get-PnpDevice -PresentOnly -ErrorAction SilentlyContinue |
                    Where-Object { $_.ConfigManagerErrorCode -ne $null -and $_.ConfigManagerErrorCode -ne 0 }
                $count = ($bad | Measure-Object).Count
                if ($count -gt 0) {
                    $names = ($bad | Select-Object -First 4 | ForEach-Object {
                        if ($_.FriendlyName) { $_.FriendlyName }
                        elseif ($_.Class) { "$($_.Class) device" }
                        else { "Unknown device" }
                    }) -join ", "
                    $more = if ($count -gt 4) { " (+$($count - 4) more)" } else { "" }
                    "issue|$count device(s) aren't working, usually a missing driver: $names$more."
                } else {
                    "ok|All connected devices are working."
                }
            "#;

/// The scan script of `battery_health`.
pub const SCAN_BATTERY_HEALTH_SCRIPT: &'static str = r#"
                $b = Get-CimInstance Win32_Battery -ErrorAction SilentlyContinue
                if (-not $b) { "ok|No battery detected (this looks like a desktop)." }
                else {
                    $static = Get-CimInstance -Namespace root\wmi -Class BatteryStaticData -ErrorAction SilentlyContinue | Select-Object -First 1
                    $full = Get-CimInstance -Namespace root\wmi -Class BatteryFullChargedCapacity -ErrorAction SilentlyContinue | Select-Object -First 1
                    if ($static -and $full -and $static.DesignedCapacity -gt 0) {
                        $wear = [math]::Round((1 - ($full.FullChargedCapacity / $static.DesignedCapacity)) * 100, 0)
                        if ($wear -lt 0) { $wear = 0 }
                        if ($wear -ge 30) {
                            "issue|Your battery has lost about $wear% of its original capacity. It may not hold a charge well - consider replacing it."
                        } else {
                            "ok|Battery health is good (about $wear% capacity lost to wear)."
                        }
                    } else {
                        "ok|Battery detected. Detailed wear data isn't available from this laptop."
                    }
                }
            "#;

/// The scan script of `memory_check`.
pub const SCAN_MEMORY_CHECK_SCRIPT: &'static str = r#"
                $cs = Get-CimInstance Win32_ComputerSystem
                $totalGB = [math]::Round($cs.TotalPhysicalMemory / 1GB, 1)
                $mods = Get-CimInstance Win32_PhysicalMemory -ErrorAction SilentlyContinue
                $slotsUsed = ($mods | Measure-Object).Count
                $arr = Get-CimInstance Win32_PhysicalMemoryArray -ErrorAction SilentlyContinue | Select-Object -First 1
                $slotsTotal = if ($arr) { $arr.MemoryDevices } else { $slotsUsed }
                $speed = ($mods | Select-Object -First 1).Speed
                $summary = "$totalGB GB RAM, $slotsUsed of $slotsTotal slots used at $speed MHz."
                $whea = $null
                try {
                    $whea = Get-WinEvent -FilterHashtable @{LogName="System"; ProviderName="Microsoft-Windows-WHEA-Logger"; Level=1,2; StartTime=(Get-Date).AddDays(-14)} -MaxEvents 20 -ErrorAction Stop
                } catch {}
                $wheaCount = ($whea | Measure-Object).Count
                if ($wheaCount -gt 0) {
                    "issue|$summary Windows logged $wheaCount hardware error(s) in the last 2 weeks - worth running a memory test."
                } else {
                    "ok|$summary No recent hardware errors logged."
                }
            "#;

/// The fix script of `temp_files`.
pub const FIX_TEMP_FILES_SCRIPT: &'static str = r#"
                Get-ChildItem -Path $env:TEMP -Recurse -Force -ErrorAction SilentlyContinue |
                    Remove-Item -Recurse -Force -ErrorAction SilentlyContinue
                "Temp files cleared."
            "#;

/// The fix script of `disk_space`.
pub const FIX_DISK_SPACE_SCRIPT: &'static str = r#"
                cleanmgr /sagerun:1 | Out-Null
                "Disk cleanup launched."
            "#;

/// The fix script of `dns_cache`.
pub const FIX_DNS_CACHE_SCRIPT: &'static str = "ipconfig /flushdns";

/// The fix script of `windows_update_service`.
pub const FIX_WINDOWS_UPDATE_SERVICE_SCRIPT: &'static str = "Restart-Service -Name wuauserv -Force; (Get-Service -Name wuauserv).Status";

/// The fix script of `print_spooler`.
pub const FIX_PRINT_SPOOLER_SCRIPT: &'static str = "Restart-Service -Name Spooler -Force; (Get-Service -Name Spooler).Status";

/// The fix script of `winsock_reset`.
pub const FIX_WINSOCK_RESET_SCRIPT: &'static str = "netsh winsock reset";

/// The fix script of `restore_point`.
pub const FIX_RESTORE_POINT_SCRIPT: &'static str = r#"
                try {
                    Enable-ComputerRestore -Drive "$env:SystemDrive\" -ErrorAction SilentlyContinue
                    Checkpoint-Computer -Description "PC Doctor" -RestorePointType "MODIFY_SETTINGS" -ErrorAction Stop
                    "Restore point created."
                } catch {
                    "Could not create a restore point: $($_.Exception.Message) (Windows allows only one per 24 hours by default, this may already be fine.)"
                }
            "#;

/// The fix script of `windows_update_cache`.
pub const FIX_WINDOWS_UPDATE_CACHE_SCRIPT: &'static str = r#"
                $ProgressPreference = 'SilentlyContinue'
                $dl = "$env:windir\SoftwareDistribution\Download"
                $before = (Get-ChildItem -Path $dl -Recurse -Force -ErrorAction SilentlyContinue | Measure-Object -Property Length -Sum).Sum
                if (-not $before) { $before = 0 }

                $services = @("wuauserv","bits","usosvc","dosvc")
                foreach ($s in $services) { Stop-Service -Name $s -Force -ErrorAction SilentlyContinue }

                Remove-Item -Path "$dl\*" -Recurse -Force -ErrorAction SilentlyContinue

                foreach ($s in $services) { Start-Service -Name $s -ErrorAction SilentlyContinue }

                $after = (Get-ChildItem -Path $dl -Recurse -Force -ErrorAction SilentlyContinue | Measure-Object -Property Length -Sum).Sum
                if (-not $after) { $after = 0 }
                $freedMB = [math]::Round(($before - $after) / 1MB, 1)
                if ($freedMB -lt 0) { $freedMB = 0 }

                # Reclaim superseded updates from the component store (the
                # "Windows Update Cleanup" item in Disk Cleanup).
                & dism.exe /Online /Cleanup-Image /StartComponentCleanup 2>&1 | Out-Null
                $storeOk = ($LASTEXITCODE -eq 0)

                if ($storeOk) {
                    "Cleared $freedMB MB from the download cache and reclaimed superseded updates from the component store."
                } else {
                    "Cleared $freedMB MB from the download cache. Component store cleanup didn't finish - it can be retried after a restart."
                }
            "#;

/// The fix script of `defender_scan`.
pub const FIX_DEFENDER_SCAN_SCRIPT: &'static str = r#"
                try {
                    Start-MpScan -ScanType QuickScan -ErrorAction Stop
                    "Quick scan complete. Check Windows Security for results."
                } catch {
                    "Could not run a scan: $($_.Exception.Message)"
                }
            "#;

/// The fix script of `startup_programs`.
pub const FIX_STARTUP_PROGRAMS_SCRIPT: &'static str = "Start-Process taskmgr; \"Task Manager opened. Go to the Startup tab to review and disable items.\"";

/// The fix script of `steam_cache`.
pub const FIX_STEAM_CACHE_SCRIPT: &'static str = r#"
                Stop-Process -Name "steam" -Force -ErrorAction SilentlyContinue
                Start-Sleep -Seconds 1
                $steamPath = $null
                try { $steamPath = (Get-ItemProperty "HKCU:\Software\Valve\Steam" -ErrorAction Stop).SteamPath } catch {}
                if (-not $steamPath) {
                    try { $steamPath = (Get-ItemProperty "HKLM:\SOFTWARE\WOW6432Node\Valve\Steam" -ErrorAction Stop).InstallPath } catch {}
                }
                if (-not $steamPath -or -not (Test-Path $steamPath)) {
                    "Steam installation not found."
                } else {
                    $folders = "appcache\httpcache", "appcache\stats", "depotcache"
                    foreach ($f in $folders) {
                        $p = Join-Path $steamPath $f
                        if (Test-Path $p) {
                            Remove-Item -Path "$p\*" -Recurse -Force -ErrorAction SilentlyContinue
                        }
                    }
                    "Steam cache cleared. Restart Steam to rebuild it."
                }
            "#;

/// The fix script of `steam_reset`.
pub const FIX_STEAM_RESET_SCRIPT: &'static str = r#"
                try {
                    Stop-Process -Name "steam" -Force -ErrorAction SilentlyContinue
                    Start-Sleep -Seconds 1
                    $steamPath = $null
                    try { $steamPath = (Get-ItemProperty "HKCU:\Software\Valve\Steam" -ErrorAction Stop).SteamPath } catch {}
                    if (-not $steamPath) {
                        try { $steamPath = (Get-ItemProperty "HKLM:\SOFTWARE\WOW6432Node\Valve\Steam" -ErrorAction Stop).InstallPath } catch {}
                    }
                    if (-not $steamPath -or -not (Test-Path $steamPath)) {
                        "Steam installation not found."
                    } else {
                        $blob = Join-Path $steamPath "ClientRegistry.blob"
                        if (Test-Path $blob) { Remove-Item $blob -Force }
                        "Steam's local registry was reset. Open Steam and log back in."
                    }
                } catch {
                    "Could not reset Steam: $($_.Exception.Message)"
                }
            "#;

/// The fix script of `epic_cache`.
pub const FIX_EPIC_CACHE_SCRIPT: &'static str = r#"
                Stop-Process -Name "EpicGamesLauncher", "EpicWebHelper" -Force -ErrorAction SilentlyContinue
                Start-Sleep -Seconds 1
                Remove-Item -Path "$env:LOCALAPPDATA\EpicGamesLauncher\Saved\webcache" -Recurse -Force -ErrorAction SilentlyContinue
                Remove-Item -Path "$env:LOCALAPPDATA\EpicGamesLauncher\Saved\webcache_4147" -Recurse -Force -ErrorAction SilentlyContinue
                "Epic Games Launcher cache cleared. Restart the launcher to rebuild it."
            "#;

/// The fix script of `epic_launcher_reset`.
pub const FIX_EPIC_LAUNCHER_RESET_SCRIPT: &'static str = r#"
                Stop-Process -Name "EpicGamesLauncher", "EpicWebHelper", "EpicOnlineServicesUIHelper", "EOSOverlayRenderer-Win64-Shipping", "UnrealCEFSubProcess" -Force -ErrorAction SilentlyContinue
                Start-Sleep -Seconds 1
                $exePaths = @(
                    "${env:ProgramFiles(x86)}\Epic Games\Launcher\Portal\Binaries\Win64\EpicGamesLauncher.exe",
                    "$env:ProgramFiles\Epic Games\Launcher\Portal\Binaries\Win64\EpicGamesLauncher.exe"
                )
                $launched = $false
                foreach ($p in $exePaths) {
                    if (Test-Path $p) {
                        Start-Process $p
                        $launched = $true
                        break
                    }
                }
                if ($launched) {
                    "Closed stuck Epic Games processes and reopened the launcher."
                } else {
                    "Closed stuck Epic Games processes. Couldn't find the launcher to reopen it automatically — open it manually."
                }
            "#;

/// The fix script of `system_file_check`.
pub const FIX_SYSTEM_FILE_CHECK_SCRIPT: &'static str = r#"
                $ProgressPreference = 'SilentlyContinue'
                $lines = New-Object System.Collections.ArrayList

                # DISM's repair source is Windows Update - make sure the service is up.
                try { Start-Service wuauserv -ErrorAction SilentlyContinue } catch {}

                # Temporarily bypass WSUS redirection so DISM can reach Windows Update.
                $auPath = "HKLM:\SOFTWARE\Policies\Microsoft\Windows\WindowsUpdate\AU"
                $useWU = $null
                try { $useWU = (Get-ItemProperty -Path $auPath -Name UseWUServer -ErrorAction Stop).UseWUServer } catch {}
                if ($useWU -eq 1) {
                    Set-ItemProperty -Path $auPath -Name UseWUServer -Value 0 -ErrorAction SilentlyContinue
                    Restart-Service wuauserv -Force -ErrorAction SilentlyContinue
                }

                # Repair the component store. Output is captured only to inspect it,
                # never shown, so the progress bars don't flood the result.
                $dismRaw = & dism.exe /Online /Cleanup-Image /RestoreHealth 2>&1 | Out-String
                $dismCode = $LASTEXITCODE
                $dismOk = ($dismCode -eq 0)

                # Restore the WSUS setting we changed.
                if ($useWU -eq 1) {
                    Set-ItemProperty -Path $auPath -Name UseWUServer -Value 1 -ErrorAction SilentlyContinue
                    Restart-Service wuauserv -Force -ErrorAction SilentlyContinue
                }

                if ($dismOk) {
                    [void]$lines.Add("DISM: Windows component store is healthy.")
                } elseif ($dismRaw -match "0x800f0915" -or $dismRaw -match "could not be found") {
                    [void]$lines.Add("DISM: couldn't download repair files (error 0x800f0915).")
                    [void]$lines.Add("Connect to the internet and turn off any VPN or work/metered network, then run this again. If it keeps failing, the repair may need a Windows installation ISO as a source.")
                } else {
                    [void]$lines.Add("DISM: repair didn't complete. Check your internet connection and try again.")
                }

                function Get-SfcResult {
                    $raw = & sfc.exe /scannow | Out-String
                    # SFC prints with embedded spacer characters; strip non-ASCII.
                    $clean = ($raw -replace "[^\x20-\x7E\r\n]", "")
                    if ($clean -match "did not find any integrity violations") { return "clean" }
                    if ($clean -match "successfully repaired")                 { return "repaired" }
                    if ($clean -match "unable to fix")                         { return "partial" }
                    if ($clean -match "could not perform")                     { return "error" }
                    return "unknown"
                }

                # SFC repairs from the store DISM just fixed. If the store was healthy
                # but a first pass couldn't fix everything, a second pass often clears it.
                $res = Get-SfcResult
                if ($res -eq "partial" -and $dismOk) { $res = Get-SfcResult }

                switch ($res) {
                    "clean"    { [void]$lines.Add("SFC: no integrity violations - your system files are intact.") }
                    "repaired" { [void]$lines.Add("SFC: found and repaired corrupted system files. Restart your PC to finish.") }
                    "partial"  { [void]$lines.Add("SFC: fixed what it could, but some files remain. Restart and run this again; if it persists, run it once in Safe Mode.") }
                    "error"    { [void]$lines.Add("SFC: couldn't run (another repair may be pending). Restart your PC and try again.") }
                    default    { [void]$lines.Add("SFC: finished. Details are in C:\Windows\Logs\CBS\CBS.log.") }
                }

                if ($dismOk -and ($res -eq "clean" -or $res -eq "repaired")) { $status = "ok" }
                elseif (-not $dismOk -and ($res -eq "partial" -or $res -eq "error")) { $status = "fail" }
                else { $status = "warn" }

                "STATUS:$status`n" + ($lines -join "`n")
            "#;

/// The fix script of `gpu_shader_cache`.
pub const FIX_GPU_SHADER_CACHE_SCRIPT: &'static str = r#"
                $paths = @(
                    "$env:LOCALAPPDATA\D3DSCache",
                    "$env:LOCALAPPDATA\NVIDIA\DXCache",
                    "$env:LOCALAPPDATA\NVIDIA\GLCache",
                    "$env:LOCALAPPDATA\AMD\DxCache",
                    "$env:LOCALAPPDATA\AMD\DX9Cache"
                )
                $freed = 0
                foreach ($p in $paths) {
                    if (Test-Path $p) {
                        $s = (Get-ChildItem -Path $p -Recurse -Force -ErrorAction SilentlyContinue | Measure-Object -Property Length -Sum).Sum
                        if ($s) { $freed += $s }
                        Remove-Item -Path "$p\*" -Recurse -Force -ErrorAction SilentlyContinue
                    }
                }
                $mb = [math]::Round($freed / 1MB, 1)
                "Cleared $mb MB of shader cache. It rebuilds automatically as you use apps and games."
            "#;

/// The fix script of `gpu_driver_health`.
pub const FIX_GPU_DRIVER_HEALTH_SCRIPT: &'static str = r#"
                $gpu = (Get-CimInstance Win32_VideoController -ErrorAction SilentlyContinue |
                    Where-Object { $_.Name } | Select-Object -First 1).Name
                if ($gpu -match "NVIDIA") {
                    $url = "https://www.nvidia.com/Download/index.aspx"; $v = "NVIDIA"
                } elseif ($gpu -match "AMD|Radeon") {
                    $url = "https://www.amd.com/en/support"; $v = "AMD"
                } elseif ($gpu -match "Intel") {
                    $url = "https://www.intel.com/content/www/us/en/download-center/home.html"; $v = "Intel"
                } else {
                    $url = "ms-settings:windowsupdate"; $v = ""
                }
                Start-Process $url
                if ($v -ne "") {
                    "Opened the $v driver download page in your browser. Download and run the latest driver for your card ($gpu), then restart your PC."
                } else {
                    "Opened Windows Update. Click 'Check for updates' - it can install the right graphics driver for you."
                }
            "#;

/// The fix script of `gpu_restart_driver`.
pub const FIX_GPU_RESTART_DRIVER_SCRIPT: &'static str = r#"
                try {
                    $dev = Get-PnpDevice -Class Display -Status OK -ErrorAction Stop | Select-Object -First 1
                    if (-not $dev) {
                        "Couldn't find an active display adapter to restart."
                    } else {
                        Disable-PnpDevice -InstanceId $dev.InstanceId -Confirm:$false -ErrorAction Stop
                        Start-Sleep -Seconds 2
                        Enable-PnpDevice -InstanceId $dev.InstanceId -Confirm:$false -ErrorAction Stop
                        "Graphics driver restarted ($($dev.FriendlyName)). If the screen looked frozen, it should respond now."
                    }
                } catch {
                    # Make sure the adapter is back on no matter what went wrong.
                    Get-PnpDevice -Class Display -ErrorAction SilentlyContinue |
                        ForEach-Object { Enable-PnpDevice -InstanceId $_.InstanceId -Confirm:$false -ErrorAction SilentlyContinue }
                    "Couldn't fully restart the graphics driver: $($_.Exception.Message). If your screen is acting up, restart your PC."
                }
            "#;

/// The fix script of `disk_health`.
pub const FIX_DISK_HEALTH_SCRIPT: &'static str = r#"
                Start-Process "ms-settings:backup"
                "Opened Windows Backup settings. Back up your important files now. A SMART warning often appears before a drive fails - if it keeps reporting problems, replace the drive."
            "#;

/// The fix script of `device_problems`.
pub const FIX_DEVICE_PROBLEMS_SCRIPT: &'static str = r#"
                & pnputil.exe /scan-devices 2>&1 | Out-Null
                Start-Process "devmgmt.msc"
                "Rescanned for hardware and opened Device Manager. Look for items marked with a yellow '!', right-click one, and choose 'Update driver'. Missing drivers usually come from Windows Update or your PC/motherboard maker's support page."
            "#;

/// The fix script of `battery_health`.
pub const FIX_BATTERY_HEALTH_SCRIPT: &'static str = r#"
                $out = "$env:USERPROFILE\battery-report.html"
                & powercfg.exe /batteryreport /output "$out" 2>&1 | Out-Null
                if (Test-Path $out) {
                    Start-Process $out
                    "Generated a detailed battery report and opened it ($out). The 'Battery capacity history' section shows how its capacity has dropped over time."
                } else {
                    "Couldn't generate a battery report on this device."
                }
            "#;

/// The fix script of `memory_check`.
pub const FIX_MEMORY_CHECK_SCRIPT: &'static str = r#"
                Start-Process "mdsched.exe"
                "Opened Windows Memory Diagnostic. Choose 'Restart now and check for problems' to test your RAM - your PC will reboot and run the scan. Save your work first."
            "#;

} // verus!
