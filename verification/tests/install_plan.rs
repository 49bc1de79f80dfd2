use agneax_store::catalog::bundled_apps;
use agneax_store::install::{DirectKind, Host, InstallAction, InstallEvent, InstallPlan, InstallStep};
use agneax_store::platform::{DirectSource, LinuxPlatform, PackageSource, PlatformData, WindowsPlatform};

fn s(x: &str) -> Option<String> {
    Some(x.to_string())
}

fn pkg(id: &str) -> Option<PackageSource> {
    Some(PackageSource { id: s(id), install_command: None, uninstall_command: None })
}

fn direct(url: Option<&str>, file_type: Option<&str>, checksum: Option<&str>) -> Option<DirectSource> {
    Some(DirectSource {
        url: url.map(|u| u.to_string()),
        file_type: file_type.map(|t| t.to_string()),
        silent_args: s("/S"),
        checksum: checksum.map(|c| c.to_string()),
    })
}

fn linux(default: Option<&str>, flatpak: Option<&str>, apt: Option<&str>, dnf: Option<&str>, d: Option<DirectSource>) -> PlatformData {
    PlatformData {
        windows: None,
        linux: Some(LinuxPlatform {
            default_manager: default.map(|x| x.to_string()),
            flatpak: flatpak.and_then(pkg),
            snap: None,
            apt: apt.and_then(pkg),
            dnf: dnf.and_then(pkg),
            pacman: None,
            direct: d,
        }),
    }
}

fn windows(default: Option<&str>, winget: Option<&str>, d: Option<DirectSource>) -> PlatformData {
    PlatformData {
        windows: Some(WindowsPlatform {
            default_manager: default.map(|x| x.to_string()),
            winget: winget.and_then(pkg),
            chocolatey: None,
            scoop: None,
            direct: d,
        }),
        linux: None,
    }
}

fn plan(host: Host, platform: PlatformData) -> InstallPlan {
    InstallPlan::new(host, "app".to_string(), "App".to_string(), "1.0".to_string(), platform)
}

fn logs(step: &InstallStep) -> Vec<(String, String, String)> {
    step.logs.iter().map(|l| (l.step.clone(), l.status.clone(), l.message.clone())).collect()
}

fn log(a: &str, b: &str, c: &str) -> (String, String, String) {
    (a.to_string(), b.to_string(), c.to_string())
}

fn probe_of(step: &InstallStep) -> String {
    match &step.action {
        InstallAction::Probe { command } => command.clone(),
        _ => panic!("expected a probe"),
    }
}

#[test]
fn linux_flatpak_success() {
    let mut p = plan(Host::Linux, linux(None, Some("org.app.App"), None, None, None));
    let st = p.step(InstallEvent::Start);
    assert_eq!(logs(&st), vec![log("Installing", "Info", "Starting installation process for App...")]);
    assert_eq!(probe_of(&st), "flatpak");
    let st = p.step(InstallEvent::Probed(true));
    match &st.action {
        InstallAction::RunManager { manager, package_id } => {
            assert_eq!(manager, "flatpak");
            assert_eq!(package_id, "org.app.App");
        }
        _ => panic!("expected flatpak run"),
    }
    let st = p.step(InstallEvent::ManagerDone(true));
    match &st.action {
        InstallAction::Register { method, exec_path } => {
            assert_eq!(method, "flatpak");
            assert_eq!(exec_path, "");
        }
        _ => panic!("expected registration"),
    }
}

#[test]
fn linux_snap_default_manager() {
    let mut data = linux(Some("snap"), None, Some("app-apt"), None, None);
    if let Some(l) = data.linux.as_mut() {
        l.snap = pkg("app-snap");
    }
    let mut p = plan(Host::Linux, data);
    let st = p.step(InstallEvent::Start);
    assert_eq!(probe_of(&st), "snap");
    let st = p.step(InstallEvent::Probed(true));
    match &st.action {
        InstallAction::RunManager { manager, package_id } => {
            assert_eq!(manager, "snap");
            assert_eq!(package_id, "app-snap");
        }
        _ => panic!("expected snap run"),
    }
    let st = p.step(InstallEvent::ManagerDone(true));
    match &st.action {
        InstallAction::Register { method, .. } => assert_eq!(method, "snap"),
        _ => panic!("expected registration"),
    }
    // When snap fails, the native package managers are tried.
    let mut data = linux(Some("snap"), None, Some("app-apt"), None, None);
    if let Some(l) = data.linux.as_mut() {
        l.snap = pkg("app-snap");
    }
    let mut p = plan(Host::Linux, data);
    p.step(InstallEvent::Start);
    p.step(InstallEvent::Probed(true));
    let st = p.step(InstallEvent::ManagerDone(false));
    assert_eq!(probe_of(&st), "apt-get");
}

#[test]
fn linux_falls_back_to_native_managers() {
    let mut p = plan(Host::Linux, linux(None, Some("org.app.App"), None, Some("app-dnf"), None));
    p.step(InstallEvent::Start);
    let st = p.step(InstallEvent::Probed(false));
    assert_eq!(probe_of(&st), "apt-get");
    // apt-get exists but the catalog has no apt package: dnf is probed next.
    let st = p.step(InstallEvent::Probed(true));
    assert_eq!(probe_of(&st), "dnf");
    let st = p.step(InstallEvent::Probed(true));
    match &st.action {
        InstallAction::RunManager { manager, package_id } => {
            assert_eq!(manager, "dnf");
            assert_eq!(package_id, "app-dnf");
        }
        _ => panic!("expected dnf run"),
    }
    let st = p.step(InstallEvent::ManagerDone(false));
    // No direct download: the installation fails.
    let msg = "Linux installation failed. Compatible package managers (Flatpak, Snap, APT) not found and direct binary installation failed.";
    assert_eq!(logs(&st), vec![log("Failed", "Error", msg)]);
    match &st.action {
        InstallAction::Fail { message } => assert_eq!(message, msg),
        _ => panic!("expected failure"),
    }
    // Nothing more happens after the end.
    match p.step(InstallEvent::Removed).action {
        InstallAction::Fail { message } => assert_eq!(message, "Unexpected installer event"),
        _ => panic!("expected refusal"),
    }
}

#[test]
fn linux_appimage_with_checksum() {
    let good = "b94d27b9934d3e08a52e52d7da7dabfac484efe37a5380ee9088f7ace2efcde9";
    let mut p = plan(Host::Linux, linux(Some("snap"), None, None, None, direct(Some("https://x/app.AppImage"), None, Some(good))));
    let st = p.step(InstallEvent::Start);
    assert_eq!(probe_of(&st), "snap");
    // snap is available but the catalog has no snap package.
    let st = p.step(InstallEvent::Probed(true));
    assert_eq!(probe_of(&st), "apt-get");
    let st = p.step(InstallEvent::Probed(false));
    assert_eq!(probe_of(&st), "dnf");
    let st = p.step(InstallEvent::Probed(false));
    assert_eq!(probe_of(&st), "pacman");
    let st = p.step(InstallEvent::Probed(false));
    assert_eq!(logs(&st), vec![log("Downloading", "Info", "Downloading source file: https://x/app.AppImage")]);
    match &st.action {
        InstallAction::Download { url, file_name } => {
            assert_eq!(url, "https://x/app.AppImage");
            assert_eq!(file_name, "install_app_1.0.appimage");
        }
        _ => panic!("expected download"),
    }
    let st = p.step(InstallEvent::Downloaded(Ok(())));
    assert_eq!(
        logs(&st),
        vec![log("Downloading", "Success", "Source download complete."), log("Installing", "Info", "Verifying SHA-256 download checksum...")]
    );
    let st = p.step(InstallEvent::InstallerBytes(Ok(b"hello world".to_vec())));
    assert_eq!(logs(&st), vec![log("Installing", "Success", "SHA-256 checksum verified.")]);
    match &st.action {
        InstallAction::RunDirect { kind, file_type, .. } => {
            assert!(*kind == DirectKind::AppImage);
            assert_eq!(file_type, "appimage");
        }
        _ => panic!("expected appimage install"),
    }
    let st = p.step(InstallEvent::DirectDone(Ok("/home/u/.local/bin/x.AppImage".to_string())));
    assert!(matches!(st.action, InstallAction::RemoveDownload));
    match p.step(InstallEvent::Removed).action {
        InstallAction::Register { method, exec_path } => {
            assert_eq!(method, "appimage");
            assert_eq!(exec_path, "/home/u/.local/bin/x.AppImage");
        }
        _ => panic!("expected registration"),
    }
}

#[test]
fn checksum_mismatch_aborts() {
    let mut p = plan(Host::Linux, linux(Some("none"), None, None, None, direct(Some("https://x/a.tar.gz"), Some("targz"), Some("00"))));
    p.step(InstallEvent::Start);
    p.step(InstallEvent::Probed(false));
    p.step(InstallEvent::Probed(false));
    p.step(InstallEvent::Probed(false));
    p.step(InstallEvent::Downloaded(Ok(())));
    let st = p.step(InstallEvent::InstallerBytes(Ok(b"data".to_vec())));
    assert_eq!(logs(&st), vec![log("Failed", "Error", "SHA-256 checksum verification failed.")]);
    assert!(matches!(st.action, InstallAction::RemoveDownload));
    match p.step(InstallEvent::Removed).action {
        InstallAction::Fail { message } => assert_eq!(message, "SHA-256 checksum verification failed."),
        _ => panic!("expected failure"),
    }
}

#[test]
fn missing_download_url_fails_without_log() {
    let mut p = plan(Host::Windows, windows(Some("direct"), None, direct(None, Some("exe"), None)));
    let st = p.step(InstallEvent::Start);
    assert_eq!(logs(&st), vec![log("Installing", "Info", "Starting installation process for App...")]);
    match st.action {
        InstallAction::Fail { message } => assert_eq!(message, "Missing download URL"),
        _ => panic!("expected failure"),
    }
}

#[test]
fn no_platform_data() {
    let mut p = plan(Host::Windows, PlatformData { windows: None, linux: None });
    let st = p.step(InstallEvent::Start);
    let msg = "No Windows installation instructions found in application metadata";
    assert_eq!(logs(&st), vec![log("Installing", "Info", "Starting installation process for App..."), log("Failed", "Error", msg)]);
    match st.action {
        InstallAction::Fail { message } => assert_eq!(message, msg),
        _ => panic!("expected failure"),
    }
}

#[test]
fn windows_winget_then_portable_zip() {
    let mut p = plan(Host::Windows, windows(Some("winget"), Some("Vendor.App"), direct(Some("https://x/app.zip"), Some("zip"), Some(""))));
    let st = p.step(InstallEvent::Start);
    assert_eq!(probe_of(&st), "winget");
    let st = p.step(InstallEvent::Probed(true));
    assert!(matches!(st.action, InstallAction::RunManager { .. }));
    let st = p.step(InstallEvent::ManagerDone(false));
    assert_eq!(logs(&st), vec![log("Downloading", "Info", "Downloading installer from: https://x/app.zip")]);
    match &st.action {
        InstallAction::Download { file_name, .. } => assert_eq!(file_name, "install_app_1.0.zip"),
        _ => panic!("expected download"),
    }
    let st = p.step(InstallEvent::Downloaded(Ok(())));
    assert_eq!(logs(&st), vec![log("Downloading", "Success", "Installer downloaded successfully.")]);
    assert!(matches!(st.action, InstallAction::RunDirect { kind: DirectKind::PortableZip, .. }));
    p.step(InstallEvent::DirectDone(Ok("C:\\apps\\app.exe".to_string())));
    match p.step(InstallEvent::Removed).action {
        InstallAction::Register { method, exec_path } => {
            assert_eq!(method, "portable");
            assert_eq!(exec_path, "C:\\apps\\app.exe");
        }
        _ => panic!("expected registration"),
    }
}

#[test]
fn windows_exe_installer_keeps_empty_path() {
    let mut p = plan(Host::Windows, windows(None, None, direct(Some("https://x/setup"), None, None)));
    let st = p.step(InstallEvent::Start);
    assert!(matches!(st.action, InstallAction::Download { .. }));
    let st = p.step(InstallEvent::Downloaded(Ok(())));
    match &st.action {
        InstallAction::RunDirect { kind, file_type, silent_args } => {
            assert!(*kind == DirectKind::Installer);
            assert_eq!(file_type, "exe");
            assert_eq!(silent_args, "/S");
        }
        _ => panic!("expected installer run"),
    }
    p.step(InstallEvent::DirectDone(Ok(String::new())));
    match p.step(InstallEvent::Removed).action {
        InstallAction::Register { method, exec_path } => {
            assert_eq!(method, "direct");
            assert_eq!(exec_path, "");
        }
        _ => panic!("expected registration"),
    }
}

#[test]
fn download_failure_is_reported() {
    let mut p = plan(Host::Windows, windows(None, None, direct(Some("https://x/setup"), None, None)));
    p.step(InstallEvent::Start);
    match p.step(InstallEvent::Downloaded(Err("Failed to initiate download: boom".to_string()))).action {
        InstallAction::Fail { message } => assert_eq!(message, "Failed to initiate download: boom"),
        _ => panic!("expected failure"),
    }
}

#[test]
fn bundled_app_installs_with_its_flatpak() {
    let app = bundled_apps().remove(6); // vlc
    let mut p = InstallPlan::new(Host::Linux, app.id, app.name, app.version, app.platform_data);
    p.step(InstallEvent::Start);
    match p.step(InstallEvent::Probed(true)).action {
        InstallAction::RunManager { manager, package_id } => {
            assert_eq!(manager, "flatpak");
            assert_eq!(package_id, "org.videolan.VLC");
        }
        _ => panic!("expected flatpak run"),
    }
}
