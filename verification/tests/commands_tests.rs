use agneax_store::commands::{install_failure_message, is_app_image_of, manager_install, uninstall_action, uninstall_failure_message, uninstall_package_id, uninstall_start_message, UninstallAction};
use agneax_store::direct::{elevation_command, executing_message, installer_command, split_words};
use agneax_store::install::Host;
use agneax_store::platform::{LinuxPlatform, PackageSource, PlatformData};

#[test]
fn manager_commands() {
    let run = manager_install("apt", "code").unwrap();
    assert_eq!(run.command.program, "pkexec");
    assert_eq!(run.command.args, vec!["sh", "-c", "apt-get update && apt-get install -y code"]);
    assert_eq!(run.start_message, "Running APT install with pkexec elevation: apt-get install -y code");
    assert_eq!(run.success_message, "APT installation completed successfully.");
    assert_eq!(install_failure_message(&run, "apt", "out", "no space"), "APT installation failed: no space");
    let run = manager_install("winget", "Brave.Brave").unwrap();
    assert_eq!(run.command.program, "winget");
    assert_eq!(run.command.args, vec!["install", "Brave.Brave", "--silent", "--accept-source-agreements", "--accept-package-agreements"]);
    assert_eq!(run.start_message, "Running winget command: winget install Brave.Brave --silent");
    assert_eq!(install_failure_message(&run, "winget", "o", "e"), "Winget failed. Stdout: o. Stderr: e");
    let run = manager_install("flatpak", "org.gimp.GIMP").unwrap();
    assert_eq!(run.command.args, vec!["install", "--user", "-y", "flathub", "org.gimp.GIMP"]);
    assert_eq!(run.spawn_error_prefix, "Failed to spawn flatpak process: ");
    let run = manager_install("snap", "code").unwrap();
    assert_eq!(run.command.args, vec!["snap", "install", "code", "--classic"]);
    assert!(manager_install("brew", "x").is_none());
}

#[test]
fn uninstall_commands() {
    match uninstall_action(Host::Linux, "pacman", "vlc") {
        UninstallAction::Run(c) => {
            assert_eq!(c.program, "pkexec");
            assert_eq!(c.args, vec!["pacman", "-R", "--noconfirm", "vlc"]);
        }
        _ => panic!("expected a command"),
    }
    match uninstall_action(Host::Windows, "chocolatey", "vscode") {
        UninstallAction::Run(c) => {
            assert_eq!(c.program, "choco");
            assert_eq!(c.args, vec!["uninstall", "vscode", "-y"]);
        }
        _ => panic!("expected a command"),
    }
    assert!(matches!(uninstall_action(Host::Linux, "appimage", "x"), UninstallAction::RemoveAppImages));
    assert!(matches!(uninstall_action(Host::Linux, "targz", "x"), UninstallAction::RemoveInstallDir));
    assert!(matches!(uninstall_action(Host::Linux, "tar.gz", "x"), UninstallAction::Unsupported));
    assert!(matches!(uninstall_action(Host::Windows, "portable", "x"), UninstallAction::RemoveInstallDir));
    assert!(matches!(uninstall_action(Host::Windows, "flatpak", "x"), UninstallAction::Unsupported));
    assert_eq!(uninstall_start_message("snap"), "Running uninstaller using method: snap");
    assert_eq!(uninstall_failure_message(Host::Linux, "x"), "Linux uninstallation failed for method: x");
    assert_eq!(uninstall_failure_message(Host::Windows, "x"), "Uninstallation failed for method: x");
}

#[test]
fn uninstall_package_ids() {
    let p = PlatformData {
        windows: None,
        linux: Some(LinuxPlatform {
            default_manager: None,
            flatpak: Some(PackageSource { id: Some("org.x.X".to_string()), install_command: None, uninstall_command: None }),
            snap: None,
            apt: None,
            dnf: Some(PackageSource { id: Some("x-dnf".to_string()), install_command: None, uninstall_command: None }),
            pacman: None,
            direct: None,
        }),
    };
    assert_eq!(uninstall_package_id(Host::Linux, "flatpak", &p, "x"), "org.x.X");
    assert_eq!(uninstall_package_id(Host::Linux, "snap", &p, "x"), "x");
    // dnf ids are not looked up: the app id is used.
    assert_eq!(uninstall_package_id(Host::Linux, "dnf", &p, "x"), "x");
    assert_eq!(uninstall_package_id(Host::Windows, "winget", &p, "x"), "x");
}

#[test]
fn appimage_files_of_an_app() {
    assert!(is_app_image_of("Obsidian-obs.AppImage", "obs"));
    assert!(!is_app_image_of("install_obs_1.0.deb", "obs"));
    assert!(!is_app_image_of("Other.AppImage", "obs"));
}

#[test]
fn word_splitting() {
    assert_eq!(split_words("  /verysilent\t/mergetasks=!runcode \n"), vec!["/verysilent", "/mergetasks=!runcode"]);
    assert!(split_words("").is_empty());
    assert!(split_words(" \u{3000} ").is_empty());
    assert_eq!(split_words("a\u{00A0}b"), vec!["a", "b"]);
    assert_eq!(split_words("x"), vec!["x"]);
}

#[test]
fn installer_commands() {
    let c = installer_command("C:\\cache\\install_app_1.msi", "MSI", "/S");
    assert_eq!(c.program, "msiexec.exe");
    assert_eq!(c.args, vec!["/i", "\"C:\\cache\\install_app_1.msi\"", "/qn", "/norestart"]);
    let c = installer_command("C:\\cache\\setup.exe", "exe", "/silent /install");
    assert_eq!(c.program, "C:\\cache\\setup.exe");
    assert_eq!(c.args, vec!["/silent", "/install"]);
    assert_eq!(executing_message(&c), "Executing command: C:\\cache\\setup.exe /silent /install");
    let e = elevation_command(&c);
    assert_eq!(e.program, "powershell");
    assert_eq!(
        e.args,
        vec![
            "-NoProfile",
            "-Command",
            "Start-Process -FilePath 'C:\\cache\\setup.exe' -ArgumentList @('/silent','/install') -Verb RunAs -Wait -PassThru"
        ]
    );
    let c = installer_command("p.exe", "exe", "");
    assert_eq!(executing_message(&c), "Executing command: p.exe ");
    assert_eq!(elevation_command(&c).args[2], "Start-Process -FilePath 'p.exe' -ArgumentList @() -Verb RunAs -Wait -PassThru");
}
