use agneax_store::detect::{find_app_binary, has_exe_extension, pick_portable_exe, unix_app_binary, DirEntryInfo, ExePick, FsNode};
use agneax_store::install::Host;
use agneax_store::launcher::{detected_command, detection_plan, hit_command, launch_command, recorded_exec_path, DetectProbe};
use agneax_store::shortcut::{create_linux_shortcut, create_windows_shortcut, desktop_entry, desktop_file_name, remove_linux_shortcut, remove_windows_shortcut, shortcut_file_name, shortcut_outcome_message, shortcut_script};

#[test]
fn linux_detection_plan() {
    let plan = detection_plan(Host::Linux, "vscode", "Visual Studio Code");
    assert_eq!(plan.len(), 3);
    assert!(matches!(&plan[0], DetectProbe::InPath(c) if c == "code"));
    assert!(matches!(&plan[1], DetectProbe::Flatpak(f) if f == "com.visualstudio.code"));
    assert!(matches!(&plan[2], DetectProbe::Snap { binary, command } if binary == "code" && command == "snap run code"));
    assert_eq!(hit_command(&plan[1], ""), "flatpak run com.visualstudio.code");
    let plan = detection_plan(Host::Linux, "myapp", "My App");
    assert_eq!(plan.len(), 1);
    assert!(matches!(&plan[0], DetectProbe::InPath(c) if c == "myapp"));
}

#[test]
fn windows_detection_plan() {
    let plan = detection_plan(Host::Windows, "discord", "Discord");
    assert_eq!(plan.len(), 14);
    assert!(matches!(&plan[0], DetectProbe::InPath(c) if c == "Update.exe"));
    assert!(matches!(&plan[2], DetectProbe::FileExists(p) if p == "C:\\Program Files\\Discord\\Discord\\discord.exe"));
    assert!(matches!(&plan[3], DetectProbe::FileExists(p) if p == "C:\\Program Files (x86)\\Discord\\discord.exe"));
    assert_eq!(hit_command(&plan[3], ""), "\"C:\\Program Files (x86)\\Discord\\discord.exe\"");
    assert_eq!(hit_command(&plan[12], "C:\\Users\\u\\AppData\\Local\\Discord\\Update.exe"), "\"C:\\Users\\u\\AppData\\Local\\Discord\\Update.exe\" --processStart Discord.exe");
    let plan = detection_plan(Host::Windows, "other", "Other");
    assert_eq!(plan.len(), 12);
}

#[test]
fn launching() {
    let c = launch_command(Host::Linux, "flatpak run org.gimp.GIMP");
    assert_eq!(c.program, "sh");
    assert_eq!(c.args, vec!["-c", "nohup flatpak run org.gimp.GIMP >/dev/null 2>&1 &"]);
    let c = launch_command(Host::Windows, "\"C:\\a b\\x.exe\"");
    assert_eq!(c.args, vec!["/c", "start", "", "\"C:\\a b\\x.exe\""]);
    assert_eq!(recorded_exec_path(Some(String::new())), None);
    assert_eq!(recorded_exec_path(None), None);
    assert_eq!(recorded_exec_path(Some("/bin/x".to_string())), Some("/bin/x".to_string()));
}

#[test]
fn shortcuts_on_other_hosts() {
    assert_eq!(create_windows_shortcut("a", "b", "c").unwrap_err(), "Windows shortcut creation is only supported on Windows hosts");
    assert_eq!(create_linux_shortcut("a", "b", "c", "d", "e").unwrap_err(), "Linux shortcut creation is only supported on Linux hosts");
    assert!(remove_windows_shortcut("a").is_ok());
    assert!(remove_linux_shortcut("a").is_ok());
}

#[test]
fn shortcut_contents() {
    assert_eq!(
        desktop_entry("GIMP", "/home/u/.local/bin/gimp.AppImage", "system-run", "Utility"),
        "[Desktop Entry]\nType=Application\nVersion=1.0\nName=GIMP\nExec=/home/u/.local/bin/gimp.AppImage\nIcon=system-run\nCategories=Utility;\nTerminal=false\nStartupNotify=true\n"
    );
    assert_eq!(desktop_file_name("gimp"), "gimp.desktop");
    assert_eq!(shortcut_file_name("OBS Studio"), "OBS Studio.lnk");
    assert_eq!(
        shortcut_script("C:\\S\\It's.lnk", "C:\\x.exe", "C:\\"),
        "$WshShell = New-Object -ComObject WScript.Shell; $Shortcut = $WshShell.CreateShortcut('C:\\S\\It''s.lnk'); $Shortcut.TargetPath = 'C:\\x.exe'; $Shortcut.WorkingDirectory = 'C:\\'; $Shortcut.Save()"
    );
    assert_eq!(
        shortcut_outcome_message(&Ok("/p.desktop".to_string()), "Installation completed. Shortcut registered at: "),
        "Installation completed. Shortcut registered at: /p.desktop"
    );
    assert_eq!(
        shortcut_outcome_message(&Err("no HOME".to_string()), "ignored"),
        "Installation completed. Shortcut creation failed: no HOME"
    );
}

fn e(name: &str, is_file: bool) -> DirEntryInfo {
    DirEntryInfo { name: name.to_string(), is_file, is_dir: !is_file }
}

#[test]
fn portable_executable_choice() {
    let top = vec![e("Updater.exe", true), e("readme.txt", true), e("App.exe", true)];
    assert!(pick_portable_exe(&top, &vec![]) == Some(ExePick::Top(2)));
    let top = vec![e("Uninstall.exe", true), e("bin", false), e("lib", false)];
    let children = vec![vec![], vec![e("notes.md", true)], vec![e("update.exe", true), e("x.exe", true)]];
    // Nested executables are not filtered by name.
    assert!(pick_portable_exe(&top, &children) == Some(ExePick::Nested(2, 0)));
    assert!(pick_portable_exe(&vec![e(".exe", true)], &vec![]).is_none());
    assert!(has_exe_extension("a.exe"));
    assert!(!has_exe_extension(".exe"));
    assert!(!has_exe_extension("a.EXE"));
}

#[test]
fn tarball_executable_choice() {
    assert!(unix_app_binary("blender", 0o755));
    assert!(!unix_app_binary("blender", 0o644));
    assert!(!unix_app_binary("install.sh", 0o755));
    assert!(!unix_app_binary("AutoUpdate", 0o755));
    let tree = vec![
        FsNode::File { name: "README".to_string(), mode: 0o644 },
        FsNode::Dir {
            name: "app-1.0".to_string(),
            children: vec![
                FsNode::File { name: "run.sh".to_string(), mode: 0o755 },
                FsNode::Dir { name: "bin".to_string(), children: vec![FsNode::File { name: "app".to_string(), mode: 0o700 }] },
            ],
        },
        FsNode::File { name: "later".to_string(), mode: 0o755 },
    ];
    assert_eq!(find_app_binary(&tree), Some(vec!["app-1.0".to_string(), "bin".to_string(), "app".to_string()]));
    assert_eq!(find_app_binary(&vec![FsNode::Other]), None);
}

#[test]
fn first_successful_probe_wins() {
    let plan = detection_plan(Host::Linux, "vscode", "Visual Studio Code");
    // `code` is not on the PATH, the Flatpak is installed.
    let outcomes = vec![None, Some(String::new())];
    assert_eq!(detected_command("vscode", &plan, &outcomes), "flatpak run com.visualstudio.code");
    // Nothing found: the app id itself is run.
    let none: Vec<Option<String>> = vec![None; plan.len()];
    assert_eq!(detected_command("vscode", &plan, &none), "vscode");
    assert_eq!(detected_command("vscode", &plan, &Vec::new()), "vscode");
    // On Windows, the local application data path found is quoted.
    let plan = detection_plan(Host::Windows, "discord", "Discord");
    let n = plan.len();
    let mut outcomes: Vec<Option<String>> = vec![None; n - 2];
    outcomes.push(Some("C:\\Users\\u\\AppData\\Local\\Discord\\Update.exe".to_string()));
    assert_eq!(
        detected_command("discord", &plan, &outcomes),
        "\"C:\\Users\\u\\AppData\\Local\\Discord\\Update.exe\" --processStart Discord.exe"
    );
}
