//! Command lines of the package managers and the messages logged around them,
//! for installing and uninstalling apps.

use vstd::prelude::*;
use crate::catalog::text;
use crate::text::{same_text, contains_text, to_lowercase, has_sub, has_suffix, lowercase_spec};
use crate::direct::join;
use crate::install::Host;
use crate::platform::{PlatformData, source_id};

verus! {

/// A program and its arguments.
pub struct CommandSpec {
    pub program: String,
    pub args: Vec<String>,
}

/// Mathematical form of a command: program and arguments.
pub open spec fn command_view(c: CommandSpec) -> (Seq<char>, Seq<Seq<char>>) {
    (c.program@, c.args@.map_values(|a: String| a@))
}

/// How one package manager installs a package, and what is logged.
pub struct ManagerRun {
    pub command: CommandSpec,
    /// Logged before the command runs.
    pub start_message: String,
    /// Logged when the command succeeds.
    pub success_message: String,
    /// Put before the reason when the command cannot be started.
    pub spawn_error_prefix: String,
    /// Put before the error output when the command fails.
    pub failure_prefix: String,
}

/// The install command of a package manager: program and arguments.
pub open spec fn install_command_spec(manager: Seq<char>, pkg: Seq<char>) -> Option<(Seq<char>, Seq<Seq<char>>)> {
    if manager == "flatpak"@ {
        Some(("flatpak"@, seq!["install"@, "--user"@, "-y"@, "flathub"@, pkg]))
    } else if manager == "snap"@ {
        Some(("pkexec"@, seq!["snap"@, "install"@, pkg, "--classic"@]))
    } else if manager == "apt"@ {
        Some(("pkexec"@, seq!["sh"@, "-c"@, "apt-get update && apt-get install -y "@ + pkg]))
    } else if manager == "dnf"@ {
        Some(("pkexec"@, seq!["dnf"@, "install"@, "-y"@, pkg]))
    } else if manager == "pacman"@ {
        Some(("pkexec"@, seq!["pacman"@, "-S"@, "--noconfirm"@, pkg]))
    } else if manager == "winget"@ {
        Some(("winget"@, seq!["install"@, pkg, "--silent"@, "--accept-source-agreements"@, "--accept-package-agreements"@]))
    } else if manager == "chocolatey"@ {
        Some(("choco"@, seq!["install"@, pkg, "-y"@]))
    } else if manager == "scoop"@ {
        Some(("scoop"@, seq!["install"@, pkg]))
    } else {
        None
    }
}

/// The message logged before a package manager runs.
pub open spec fn install_start_message(manager: Seq<char>, pkg: Seq<char>) -> Seq<char> {
    if manager == "flatpak"@ {
        "Running flatpak command: flatpak install --user -y flathub "@ + pkg
    } else if manager == "snap"@ {
        "Running snap command with pkexec elevation: snap install "@ + pkg
    } else if manager == "apt"@ {
        "Running APT install with pkexec elevation: apt-get install -y "@ + pkg
    } else if manager == "dnf"@ {
        "Running DNF install with pkexec elevation: dnf install -y "@ + pkg
    } else if manager == "pacman"@ {
        "Running Pacman install with pkexec elevation: pacman -S --noconfirm "@ + pkg
    } else if manager == "winget"@ {
        "Running winget command: winget install "@ + pkg + " --silent"@
    } else if manager == "chocolatey"@ {
        "Running choco command: choco install "@ + pkg + " -y"@
    } else {
        "Running scoop command: scoop install "@ + pkg
    }
}

/// The message logged when a package manager succeeds.
pub open spec fn install_success_message(manager: Seq<char>) -> Seq<char> {
    if manager == "flatpak"@ {
        "Flatpak installation completed successfully."@
    } else if manager == "snap"@ {
        "Snap installation completed successfully."@
    } else if manager == "apt"@ {
        "APT installation completed successfully."@
    } else if manager == "dnf"@ {
        "DNF installation completed successfully."@
    } else if manager == "pacman"@ {
        "Pacman installation completed successfully."@
    } else if manager == "winget"@ {
        "Winget installation completed successfully."@
    } else if manager == "chocolatey"@ {
        "Chocolatey installation completed successfully."@
    } else {
        "Scoop installation completed successfully."@
    }
}

/// The text put before the reason when a package manager cannot be started.
pub open spec fn spawn_error_prefix(manager: Seq<char>) -> Seq<char> {
    if manager == "flatpak"@ {
        "Failed to spawn flatpak process: "@
    } else if manager == "snap"@ {
        "Failed to spawn pkexec snap: "@
    } else if manager == "apt"@ {
        "Failed to spawn pkexec apt: "@
    } else if manager == "dnf"@ {
        "Failed to spawn pkexec dnf: "@
    } else if manager == "pacman"@ {
        "Failed to spawn pkexec pacman: "@
    } else if manager == "winget"@ {
        "Failed to spawn winget process: "@
    } else if manager == "chocolatey"@ {
        "Failed to spawn choco process: "@
    } else {
        "Failed to spawn scoop process: "@
    }
}

/// The text put before the error output when a package manager fails.
pub open spec fn failure_prefix(manager: Seq<char>) -> Seq<char> {
    if manager == "flatpak"@ {
        "Flatpak installation failed: "@
    } else if manager == "snap"@ {
        "Snap installation failed: "@
    } else if manager == "apt"@ {
        "APT installation failed: "@
    } else if manager == "dnf"@ {
        "DNF installation failed: "@
    } else if manager == "pacman"@ {
        "Pacman installation failed: "@
    } else if manager == "winget"@ {
        "Winget failed. Stdout: "@
    } else if manager == "chocolatey"@ {
        "Chocolatey failed: "@
    } else {
        "Scoop failed: "@
    }
}

fn cmd(program: &str, args: Vec<String>) -> (r: CommandSpec)
    ensures
        r.program@ == program@,
        r.args == args,
{
    CommandSpec { program: text(program), args }
}

/// The run of `manager` installing `pkg`: the command and the messages logged
/// around it; `None` for a manager the store does not drive.
pub fn manager_install(manager: &str, pkg: &str) -> (r: Option<ManagerRun>)
    ensures
        match r {
            Some(run) => {
                &&& install_command_spec(manager@, pkg@) == Some(command_view(run.command))
                &&& run.start_message@ == install_start_message(manager@, pkg@)
                &&& run.success_message@ == install_success_message(manager@)
                &&& run.spawn_error_prefix@ == spawn_error_prefix(manager@)
                &&& run.failure_prefix@ == failure_prefix(manager@)
            },
            None => install_command_spec(manager@, pkg@) is None,
        },
{
    let p = text(pkg);
    let (command, start) = if same_text(manager, "flatpak") {
        let mut m = text("Running flatpak command: flatpak install --user -y flathub ");
        m.append(pkg);
        (cmd("flatpak", vec![text("install"), text("--user"), text("-y"), text("flathub"), p]), m)
    } else if same_text(manager, "snap") {
        let mut m = text("Running snap command with pkexec elevation: snap install ");
        m.append(pkg);
        (cmd("pkexec", vec![text("snap"), text("install"), p, text("--classic")]), m)
    } else if same_text(manager, "apt") {
        let mut m = text("Running APT install with pkexec elevation: apt-get install -y ");
        m.append(pkg);
        let mut script = text("apt-get update && apt-get install -y ");
        script.append(pkg);
        (cmd("pkexec", vec![text("sh"), text("-c"), script]), m)
    } else if same_text(manager, "dnf") {
        let mut m = text("Running DNF install with pkexec elevation: dnf install -y ");
        m.append(pkg);
        (cmd("pkexec", vec![text("dnf"), text("install"), text("-y"), p]), m)
    } else if same_text(manager, "pacman") {
        let mut m = text("Running Pacman install with pkexec elevation: pacman -S --noconfirm ");
        m.append(pkg);
        (cmd("pkexec", vec![text("pacman"), text("-S"), text("--noconfirm"), p]), m)
    } else if same_text(manager, "winget") {
        let mut m = text("Running winget command: winget install ");
        m.append(pkg);
        m.append(" --silent");
        (cmd("winget", vec![text("install"), p, text("--silent"), text("--accept-source-agreements"), text("--accept-package-agreements")]), m)
    } else if same_text(manager, "chocolatey") {
        let mut m = text("Running choco command: choco install ");
        m.append(pkg);
        m.append(" -y");
        (cmd("choco", vec![text("install"), p, text("-y")]), m)
    } else if same_text(manager, "scoop") {
        let mut m = text("Running scoop command: scoop install ");
        m.append(pkg);
        (cmd("scoop", vec![text("install"), p]), m)
    } else {
        return None;
    };
    assert(install_command_spec(manager@, pkg@) == Some(command_view(command))) by {
        assert(command.args@.map_values(|a: String| a@) =~= install_command_spec(manager@, pkg@).unwrap().1);
    }
    let success = if same_text(manager, "flatpak") {
        text("Flatpak installation completed successfully.")
    } else if same_text(manager, "snap") {
        text("Snap installation completed successfully.")
    } else if same_text(manager, "apt") {
        text("APT installation completed successfully.")
    } else if same_text(manager, "dnf") {
        text("DNF installation completed successfully.")
    } else if same_text(manager, "pacman") {
        text("Pacman installation completed successfully.")
    } else if same_text(manager, "winget") {
        text("Winget installation completed successfully.")
    } else if same_text(manager, "chocolatey") {
        text("Chocolatey installation completed successfully.")
    } else {
        text("Scoop installation completed successfully.")
    };
    let spawn = if same_text(manager, "flatpak") {
        text("Failed to spawn flatpak process: ")
    } else if same_text(manager, "snap") {
        text("Failed to spawn pkexec snap: ")
    } else if same_text(manager, "apt") {
        text("Failed to spawn pkexec apt: ")
    } else if same_text(manager, "dnf") {
        text("Failed to spawn pkexec dnf: ")
    } else if same_text(manager, "pacman") {
        text("Failed to spawn pkexec pacman: ")
    } else if same_text(manager, "winget") {
        text("Failed to spawn winget process: ")
    } else if same_text(manager, "chocolatey") {
        text("Failed to spawn choco process: ")
    } else {
        text("Failed to spawn scoop process: ")
    };
    let failure = if same_text(manager, "flatpak") {
        text("Flatpak installation failed: ")
    } else if same_text(manager, "snap") {
        text("Snap installation failed: ")
    } else if same_text(manager, "apt") {
        text("APT installation failed: ")
    } else if same_text(manager, "dnf") {
        text("DNF installation failed: ")
    } else if same_text(manager, "pacman") {
        text("Pacman installation failed: ")
    } else if same_text(manager, "winget") {
        text("Winget failed. Stdout: ")
    } else if same_text(manager, "chocolatey") {
        text("Chocolatey failed: ")
    } else {
        text("Scoop failed: ")
    };
    Some(ManagerRun { command, start_message: start, success_message: success, spawn_error_prefix: spawn, failure_prefix: failure })
}

/// The message logged when a package manager fails: the failure prefix, then
/// the error output (for winget, the standard output, then the error output).
pub open spec fn install_failure_message_spec(manager: Seq<char>, stdout: Seq<char>, stderr: Seq<char>) -> Seq<char> {
    if manager == "winget"@ {
        failure_prefix(manager) + stdout + ". Stderr: "@ + stderr
    } else {
        failure_prefix(manager) + stderr
    }
}

/// Builds the message logged when a package manager fails.
pub fn install_failure_message(run: &ManagerRun, manager: &str, stdout: &str, stderr: &str) -> (r: String)
    requires
        run.failure_prefix@ == failure_prefix(manager@),
    ensures
        r@ == install_failure_message_spec(manager@, stdout@, stderr@),
{
    let mut r = run.failure_prefix.clone();
    if same_text(manager, "winget") {
        r.append(stdout);
        r.append(". Stderr: ");
    }
    r.append(stderr);
    r
}


/// What uninstalling an app installed with a given method takes.
pub enum UninstallAction {
    /// Run a package manager command.
    Run(CommandSpec),
    /// Delete the app's AppImage files from the user's binaries and its launcher entry.
    RemoveAppImages,
    /// Delete the app's directory under the store's install directory and its shortcut.
    RemoveInstallDir,
    /// The method is not known: uninstalling fails.
    Unsupported,
}

/// Mathematical form of [`UninstallAction`].
pub enum UninstallView {
    Run(Seq<char>, Seq<Seq<char>>),
    RemoveAppImages,
    RemoveInstallDir,
    Unsupported,
}

/// How an app installed with `method` on `host` is uninstalled.
pub open spec fn uninstall_spec(host: Host, method: Seq<char>, pkg: Seq<char>) -> UninstallView {
    match host {
        Host::Linux => if method == "flatpak"@ {
            UninstallView::Run("flatpak"@, seq!["uninstall"@, "--user"@, "-y"@, pkg])
        } else if method == "snap"@ {
            UninstallView::Run("pkexec"@, seq!["snap"@, "remove"@, pkg])
        } else if method == "apt"@ {
            UninstallView::Run("pkexec"@, seq!["apt-get"@, "remove"@, "-y"@, pkg])
        } else if method == "dnf"@ {
            UninstallView::Run("pkexec"@, seq!["dnf"@, "remove"@, "-y"@, pkg])
        } else if method == "pacman"@ {
            UninstallView::Run("pkexec"@, seq!["pacman"@, "-R"@, "--noconfirm"@, pkg])
        } else if method == "appimage"@ {
            UninstallView::RemoveAppImages
        } else if method == "targz"@ {
            UninstallView::RemoveInstallDir
        } else {
            UninstallView::Unsupported
        },
        Host::Windows => if method == "winget"@ {
            UninstallView::Run("winget"@, seq!["uninstall"@, pkg, "--silent"@])
        } else if method == "chocolatey"@ {
            UninstallView::Run("choco"@, seq!["uninstall"@, pkg, "-y"@])
        } else if method == "scoop"@ {
            UninstallView::Run("scoop"@, seq!["uninstall"@, pkg])
        } else if method == "direct"@ || method == "portable"@ {
            UninstallView::RemoveInstallDir
        } else {
            UninstallView::Unsupported
        },
    }
}

/// Mathematical form of an uninstall action.
pub open spec fn uninstall_view(a: UninstallAction) -> UninstallView {
    match a {
        UninstallAction::Run(c) => UninstallView::Run(command_view(c).0, command_view(c).1),
        UninstallAction::RemoveAppImages => UninstallView::RemoveAppImages,
        UninstallAction::RemoveInstallDir => UninstallView::RemoveInstallDir,
        UninstallAction::Unsupported => UninstallView::Unsupported,
    }
}

fn run(program: &str, args: Vec<String>) -> (r: UninstallAction)
    ensures
        uninstall_view(r) == UninstallView::Run(program@, args@.map_values(|a: String| a@)),
{
    UninstallAction::Run(CommandSpec { program: text(program), args })
}

/// How an app installed with `method` on `host` is uninstalled, with `pkg`
/// the package id handed to the package manager.
pub fn uninstall_action(host: Host, method: &str, pkg: &str) -> (r: UninstallAction)
    ensures
        uninstall_view(r) == uninstall_spec(host, method@, pkg@),
{
    let p = text(pkg);
    let r = match host {
        Host::Linux => if same_text(method, "flatpak") {
            run("flatpak", vec![text("uninstall"), text("--user"), text("-y"), p])
        } else if same_text(method, "snap") {
            run("pkexec", vec![text("snap"), text("remove"), p])
        } else if same_text(method, "apt") {
            run("pkexec", vec![text("apt-get"), text("remove"), text("-y"), p])
        } else if same_text(method, "dnf") {
            run("pkexec", vec![text("dnf"), text("remove"), text("-y"), p])
        } else if same_text(method, "pacman") {
            run("pkexec", vec![text("pacman"), text("-R"), text("--noconfirm"), p])
        } else if same_text(method, "appimage") {
            UninstallAction::RemoveAppImages
        } else if same_text(method, "targz") {
            UninstallAction::RemoveInstallDir
        } else {
            UninstallAction::Unsupported
        },
        Host::Windows => if same_text(method, "winget") {
            run("winget", vec![text("uninstall"), p, text("--silent")])
        } else if same_text(method, "chocolatey") {
            run("choco", vec![text("uninstall"), p, text("-y")])
        } else if same_text(method, "scoop") {
            run("scoop", vec![text("uninstall"), p])
        } else if same_text(method, "direct") || same_text(method, "portable") {
            UninstallAction::RemoveInstallDir
        } else {
            UninstallAction::Unsupported
        },
    };
    proof {
        match uninstall_spec(host, method@, pkg@) {
            UninstallView::Run(prog, args) => {
                assert(uninstall_view(r)->Run_1 =~= args);
            },
            _ => {},
        }
    }
    r
}

/// The message logged before uninstalling.
pub fn uninstall_start_message(method: &str) -> (r: String)
    ensures
        r@ == "Running uninstaller using method: "@ + method@,
{
    let mut r = text("Running uninstaller using method: ");
    r.append(method);
    r
}

/// The message logged when uninstalling fails.
pub fn uninstall_failure_message(host: Host, method: &str) -> (r: String)
    ensures
        r@ == match host {
            Host::Linux => "Linux uninstallation failed for method: "@ + method@,
            Host::Windows => "Uninstallation failed for method: "@ + method@,
        },
{
    let mut r = match host {
        Host::Linux => text("Linux uninstallation failed for method: "),
        Host::Windows => text("Uninstallation failed for method: "),
    };
    r.append(method);
    r
}

/// The package id used to uninstall an app: the id of the package manager it
/// was installed with when the catalog names one, else the app id itself.
pub open spec fn uninstall_package_id_spec(host: Host, method: Seq<char>, platform: PlatformData, app_id: Seq<char>) -> Seq<char> {
    let named = match host {
        Host::Windows => match platform.windows {
            Some(w) => if method == "winget"@ {
                source_id(w.winget)
            } else if method == "chocolatey"@ {
                source_id(w.chocolatey)
            } else if method == "scoop"@ {
                source_id(w.scoop)
            } else {
                None
            },
            None => None,
        },
        Host::Linux => match platform.linux {
            Some(l) => if method == "flatpak"@ {
                source_id(l.flatpak)
            } else if method == "snap"@ {
                source_id(l.snap)
            } else if method == "apt"@ {
                source_id(l.apt)
            } else {
                None
            },
            None => None,
        },
    };
    match named {
        Some(id) => id,
        None => app_id,
    }
}

/// The package id used to uninstall `app_id` installed with `method`.
pub fn uninstall_package_id(host: Host, method: &str, platform: &PlatformData, app_id: &str) -> (r: String)
    ensures
        r@ == uninstall_package_id_spec(host, method@, *platform, app_id@),
{
    let src = match host {
        Host::Windows => match &platform.windows {
            Some(w) => if same_text(method, "winget") {
                &w.winget
            } else if same_text(method, "chocolatey") {
                &w.chocolatey
            } else if same_text(method, "scoop") {
                &w.scoop
            } else {
                return text(app_id);
            },
            None => {
                return text(app_id);
            },
        },
        Host::Linux => match &platform.linux {
            Some(l) => if same_text(method, "flatpak") {
                &l.flatpak
            } else if same_text(method, "snap") {
                &l.snap
            } else if same_text(method, "apt") {
                &l.apt
            } else {
                return text(app_id);
            },
            None => {
                return text(app_id);
            },
        },
    };
    match src {
        Some(p) => match &p.id {
            Some(id) => id.clone(),
            None => text(app_id),
        },
        None => text(app_id),
    }
}

/// Whether a file in the user's binaries is an AppImage of `app_id`: its
/// lowercased name contains the app id and `appimage`.
pub fn is_app_image_of(file_name: &str, app_id: &str) -> (r: bool)
    ensures
        r == (has_sub(lowercase_spec(file_name@), app_id@) && has_sub(lowercase_spec(file_name@), "appimage"@)),
{
    let lower = to_lowercase(file_name);
    contains_text(lower.as_str(), app_id) && contains_text(lower.as_str(), "appimage")
}


/// Lengths and first letters of the install methods, which tell them apart.
pub(crate) proof fn lemma_method_names()
    ensures
        "flatpak"@.len() == 7, "flatpak"@[0] == 'f',
        "snap"@.len() == 4, "snap"@[0] == 's',
        "apt"@.len() == 3, "apt"@[0] == 'a',
        "dnf"@.len() == 3, "dnf"@[0] == 'd',
        "pacman"@.len() == 6, "pacman"@[0] == 'p',
        "winget"@.len() == 6, "winget"@[0] == 'w',
        "chocolatey"@.len() == 10, "chocolatey"@[0] == 'c',
        "scoop"@.len() == 5, "scoop"@[0] == 's',
        "direct"@.len() == 6, "direct"@[0] == 'd',
        "portable"@.len() == 8, "portable"@[0] == 'p',
        "appimage"@.len() == 8, "appimage"@[0] == 'a',
        "targz"@.len() == 5, "targz"@[0] == 't',
        "tar.gz"@.len() == 6, "tar.gz"@[0] == 't',
        "tar.gz"@[3] == '.', "targz"@[3] == 'g',
{
    reveal_strlit("flatpak");
    reveal_strlit("snap");
    reveal_strlit("apt");
    reveal_strlit("dnf");
    reveal_strlit("pacman");
    reveal_strlit("winget");
    reveal_strlit("chocolatey");
    reveal_strlit("scoop");
    reveal_strlit("direct");
    reveal_strlit("portable");
    reveal_strlit("appimage");
    reveal_strlit("targz");
    reveal_strlit("tar.gz");
}

/// Installing with a package manager runs its install command, never its
/// uninstall command; the command names the package it installs; and for the
/// managers whose log line quotes the command line, that line ends with
/// exactly the command that runs.
pub proof fn lemma_install_command_installs(manager: Seq<char>, pkg: Seq<char>)
    ensures
        install_command_spec(manager, pkg) matches Some(c) ==> {
            &&& uninstall_spec(Host::Linux, manager, pkg) != UninstallView::Run(c.0, c.1)
            &&& uninstall_spec(Host::Windows, manager, pkg) != UninstallView::Run(c.0, c.1)
            &&& (c.1.contains(pkg) || has_suffix(c.1.last(), " "@ + pkg))
        },
        install_command_spec(manager, pkg) matches Some(c) ==> ((manager == "dnf"@ || manager == "pacman"@)
            ==> has_suffix(install_start_message(manager, pkg), join(c.1, " "@))),
        install_command_spec(manager, pkg) matches Some(c) ==> ((manager == "flatpak"@ || manager == "scoop"@)
            ==> has_suffix(install_start_message(manager, pkg), c.0 + " "@ + join(c.1, " "@))),
{
    lemma_method_names();
    reveal_strlit("install");
    reveal_strlit("uninstall");
    reveal_strlit("remove");
    reveal_strlit("-S");
    reveal_strlit("-R");
    reveal_strlit(" ");
    reveal_with_fuel(join, 6);
    if install_command_spec(manager, pkg) is Some {
        let c = install_command_spec(manager, pkg).unwrap();
        if manager != "apt"@ {
            let k: int = if manager == "flatpak"@ { 4 } else if manager == "snap"@ { 2 } else if manager == "dnf"@ || manager == "pacman"@ { 3 } else { 1 };
            assert(c.1[k] == pkg);
            assert(c.1.contains(pkg));
        }
        let u = uninstall_spec(Host::Linux, manager, pkg);
        if manager == "flatpak"@ {
            assert(c.1.len() == 5 && u->Run_1.len() == 4);
        } else if manager == "snap"@ {
            assert(c.1.len() == 4 && u->Run_1.len() == 3);
        } else if manager == "apt"@ {
            assert(c.1.len() == 3 && u->Run_1.len() == 4);
        } else if manager == "dnf"@ {
            assert(c.1[1] == "install"@ && u->Run_1[1] == "remove"@);
            assert("install"@.len() != "remove"@.len());
        } else if manager == "pacman"@ {
            assert(c.1[1] == "-S"@ && u->Run_1[1] == "-R"@);
            assert("-S"@[1] != "-R"@[1]);
        }
        assert(u != UninstallView::Run(c.0, c.1));
        assert(uninstall_spec(Host::Windows, manager, pkg) != UninstallView::Run(c.0, c.1));
    }
    if manager == "pacman"@ {
        let args = seq!["pacman"@, "-S"@, "--noconfirm"@, pkg];
        assert("-S"@[1] != "-R"@[1]);
        assert(args[3] == pkg);
        let m = "Running Pacman install with pkexec elevation: pacman -S --noconfirm "@ + pkg;
        let j = join(args, " "@);
        assert(j =~= "pacman"@ + " "@ + "-S"@ + " "@ + "--noconfirm"@ + " "@ + pkg);
        reveal_strlit("Running Pacman install with pkexec elevation: pacman -S --noconfirm ");
        reveal_strlit("pacman");
        reveal_strlit("--noconfirm");
        assert(m.subrange(m.len() - j.len(), m.len() as int) =~= j);
    } else if manager == "dnf"@ {
        let args = seq!["dnf"@, "install"@, "-y"@, pkg];
        assert("install"@.len() != "remove"@.len());
        assert(args[3] == pkg);
        let m = "Running DNF install with pkexec elevation: dnf install -y "@ + pkg;
        let j = join(args, " "@);
        assert(j =~= "dnf"@ + " "@ + "install"@ + " "@ + "-y"@ + " "@ + pkg);
        reveal_strlit("Running DNF install with pkexec elevation: dnf install -y ");
        reveal_strlit("dnf");
        reveal_strlit("-y");
        assert(m.subrange(m.len() - j.len(), m.len() as int) =~= j);
    } else if manager == "flatpak"@ {
        let args = seq!["install"@, "--user"@, "-y"@, "flathub"@, pkg];
        assert("install"@.len() != "uninstall"@.len());
        assert(args[4] == pkg);
        let m = "Running flatpak command: flatpak install --user -y flathub "@ + pkg;
        let j = "flatpak"@ + " "@ + join(args, " "@);
        assert(j =~= "flatpak"@ + " "@ + "install"@ + " "@ + "--user"@ + " "@ + "-y"@ + " "@ + "flathub"@ + " "@ + pkg);
        reveal_strlit("Running flatpak command: flatpak install --user -y flathub ");
        reveal_strlit("--user");
        reveal_strlit("-y");
        reveal_strlit("flathub");
        reveal_strlit("flatpak");
        assert(m.subrange(m.len() - j.len(), m.len() as int) =~= j);
    } else if manager == "scoop"@ {
        let args = seq!["install"@, pkg];
        assert("install"@.len() != "uninstall"@.len());
        assert(args[1] == pkg);
        let m = "Running scoop command: scoop install "@ + pkg;
        let j = "scoop"@ + " "@ + join(args, " "@);
        assert(j =~= "scoop"@ + " "@ + "install"@ + " "@ + pkg);
        reveal_strlit("Running scoop command: scoop install ");
        reveal_strlit("scoop");
        assert(m.subrange(m.len() - j.len(), m.len() as int) =~= j);
    } else if manager == "snap"@ {
        assert(seq!["snap"@, "install"@, pkg, "--classic"@][2] == pkg);
    } else if manager == "apt"@ {
        let a = "apt-get update && apt-get install -y "@ + pkg;
        assert(a.subrange(a.len() - (" "@ + pkg).len(), a.len() as int) =~= " "@ + pkg) by {
            reveal_strlit("apt-get update && apt-get install -y ");
        }
    } else if manager == "winget"@ {
        assert("install"@.len() != "uninstall"@.len());
        assert(seq!["install"@, pkg, "--silent"@, "--accept-source-agreements"@, "--accept-package-agreements"@][1] == pkg);
    } else if manager == "chocolatey"@ {
        assert("install"@.len() != "uninstall"@.len());
        assert(seq!["install"@, pkg, "-y"@][1] == pkg);
    }
}

} // verus!
