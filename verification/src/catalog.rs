//! The app catalog: metadata records, the catalog bundled with the client,
//! and the rules for syncing the catalog from a GitHub repository.

use vstd::prelude::*;
use crate::text::{ends_with, has_suffix, same_text, texts, occurs_at};
use crate::platform::{PlatformData, WindowsPlatform, LinuxPlatform, PackageSource, DirectSource, PlatformView, WindowsView, LinuxView, PackageView, DirectView, view_opt};

verus! {

/// Metadata of one application in the store catalog.
pub struct AppMetadata {
    pub id: String,
    pub name: String,
    pub description: String,
    pub version: String,
    pub developer: String,
    pub website: String,
    pub github: String,
    pub license: String,
    pub category: String,
    pub icon_url: String,
    pub screenshots: Vec<String>,
    pub download_size: String,
    pub installed_size: String,
    pub dependencies: Vec<String>,
    /// Minimum operating system versions, as (operating system, version) pairs.
    pub min_os: Vec<(String, String)>,
    pub supported_architectures: Option<Vec<String>>,
    pub change_logs: Option<String>,
    pub platform_data: PlatformData,
}

/// Mathematical form of [`AppMetadata`].
pub struct AppView {
    pub id: Seq<char>,
    pub name: Seq<char>,
    pub description: Seq<char>,
    pub version: Seq<char>,
    pub developer: Seq<char>,
    pub website: Seq<char>,
    pub github: Seq<char>,
    pub license: Seq<char>,
    pub category: Seq<char>,
    pub icon_url: Seq<char>,
    pub screenshots: Seq<Seq<char>>,
    pub download_size: Seq<char>,
    pub installed_size: Seq<char>,
    pub dependencies: Seq<Seq<char>>,
    pub min_os: Seq<(Seq<char>, Seq<char>)>,
    pub supported_architectures: Option<Seq<Seq<char>>>,
    pub change_logs: Option<Seq<char>>,
    pub platform: PlatformView,
}

/// The texts of a list of (operating system, version) pairs.
pub open spec fn min_os_view(v: Seq<(String, String)>) -> Seq<(Seq<char>, Seq<char>)> {
    v.map_values(|p: (String, String)| (p.0@, p.1@))
}

impl View for AppMetadata {
    type V = AppView;

    open spec fn view(&self) -> AppView {
        AppView {
            id: self.id@,
            name: self.name@,
            description: self.description@,
            version: self.version@,
            developer: self.developer@,
            website: self.website@,
            github: self.github@,
            license: self.license@,
            category: self.category@,
            icon_url: self.icon_url@,
            screenshots: texts(self.screenshots@),
            download_size: self.download_size@,
            installed_size: self.installed_size@,
            dependencies: texts(self.dependencies@),
            min_os: min_os_view(self.min_os@),
            supported_architectures: match self.supported_architectures {
                Some(v) => Some(texts(v@)),
                None => None,
            },
            change_logs: view_opt(self.change_logs),
            platform: self.platform_data@,
        }
    }
}

/// An owned copy of a string literal.
pub fn text(s: &str) -> (r: String)
    ensures
        r@ == s@,
{
    String::from_str(s)
}

/// The catalog entry of Visual Studio Code.
pub open spec fn vscode_entry() -> AppView {
    AppView {
        id: "vscode"@,
        name: "Visual Studio Code"@,
        description: "Visual Studio Code is a lightweight but powerful source code editor which runs on your desktop and is available for Windows, macOS and Linux."@,
        version: "1.91.0"@,
        developer: "Microsoft"@,
        website: "https://code.visualstudio.com"@,
        github: "https://github.com/microsoft/vscode"@,
        license: "Proprietary"@,
        category: "Developer Tools"@,
        icon_url: "https://raw.githubusercontent.com/microsoft/vscode-icons/main/icons/stable/code.svg"@,
        screenshots: seq!["https://code.visualstudio.com/assets/home/home-screenshot-win-lg.png"@, "https://code.visualstudio.com/assets/home/home-screenshot-mac-lg.png"@],
        download_size: "95 MB"@,
        installed_size: "350 MB"@,
        dependencies: Seq::<Seq<char>>::empty(),
        min_os: seq![("windows"@, "10"@), ("linux"@, "Ubuntu 20.04"@)],
        supported_architectures: Some(seq!["x86_64"@, "arm64"@]),
        change_logs: Some("Security fixes and editor improvements."@),
        platform: PlatformView {
            windows: Some(WindowsView { default_manager: Some("winget"@), winget: Some(PackageView { id: Some("Microsoft.VisualStudioCode"@), install_command: Some("winget install Microsoft.VisualStudioCode --silent --accept-source-agreements --accept-package-agreements"@), uninstall_command: Some("winget uninstall Microsoft.VisualStudioCode --silent"@) }), chocolatey: Some(PackageView { id: Some("vscode"@), install_command: Some("choco install vscode -y"@), uninstall_command: None }), scoop: None, direct: Some(DirectView { url: Some("https://update.code.visualstudio.com/latest/win32-x64-user/stable"@), file_type: Some("exe"@), silent_args: Some("/verysilent /mergetasks=!runcode"@), checksum: Some(""@) }) }),
            linux: Some(LinuxView { default_manager: Some("flatpak"@), flatpak: Some(PackageView { id: Some("com.visualstudio.code"@), install_command: Some("flatpak install --user -y flathub com.visualstudio.code"@), uninstall_command: Some("flatpak uninstall --user -y com.visualstudio.code"@) }), snap: Some(PackageView { id: Some("code"@), install_command: Some("snap install code --classic"@), uninstall_command: None }), apt: Some(PackageView { id: Some("code"@), install_command: Some("pkexec apt-get update && pkexec apt-get install -y code"@), uninstall_command: None }), dnf: None, pacman: None, direct: None }),
        },
    }
}

/// Builds the catalog entry of Visual Studio Code.
fn bundled_vscode() -> (a: AppMetadata)
    ensures
        a@ == vscode_entry(),
{
    let a = AppMetadata {
        id: text("vscode"),
        name: text("Visual Studio Code"),
        description: text("Visual Studio Code is a lightweight but powerful source code editor which runs on your desktop and is available for Windows, macOS and Linux."),
        version: text("1.91.0"),
        developer: text("Microsoft"),
        website: text("https://code.visualstudio.com"),
        github: text("https://github.com/microsoft/vscode"),
        license: text("Proprietary"),
        category: text("Developer Tools"),
        icon_url: text("https://raw.githubusercontent.com/microsoft/vscode-icons/main/icons/stable/code.svg"),
        screenshots: vec![text("https://code.visualstudio.com/assets/home/home-screenshot-win-lg.png"), text("https://code.visualstudio.com/assets/home/home-screenshot-mac-lg.png")],
        download_size: text("95 MB"),
        installed_size: text("350 MB"),
        dependencies: Vec::new(),
        min_os: vec![(text("windows"), text("10")), (text("linux"), text("Ubuntu 20.04"))],
        supported_architectures: Some(vec![text("x86_64"), text("arm64")]),
        change_logs: Some(text("Security fixes and editor improvements.")),
        platform_data: PlatformData {
            windows: Some(WindowsPlatform { default_manager: Some(text("winget")), winget: Some(PackageSource { id: Some(text("Microsoft.VisualStudioCode")), install_command: Some(text("winget install Microsoft.VisualStudioCode --silent --accept-source-agreements --accept-package-agreements")), uninstall_command: Some(text("winget uninstall Microsoft.VisualStudioCode --silent")) }), chocolatey: Some(PackageSource { id: Some(text("vscode")), install_command: Some(text("choco install vscode -y")), uninstall_command: None }), scoop: None, direct: Some(DirectSource { url: Some(text("https://update.code.visualstudio.com/latest/win32-x64-user/stable")), file_type: Some(text("exe")), silent_args: Some(text("/verysilent /mergetasks=!runcode")), checksum: Some(text("")) }) }),
            linux: Some(LinuxPlatform { default_manager: Some(text("flatpak")), flatpak: Some(PackageSource { id: Some(text("com.visualstudio.code")), install_command: Some(text("flatpak install --user -y flathub com.visualstudio.code")), uninstall_command: Some(text("flatpak uninstall --user -y com.visualstudio.code")) }), snap: Some(PackageSource { id: Some(text("code")), install_command: Some(text("snap install code --classic")), uninstall_command: None }), apt: Some(PackageSource { id: Some(text("code")), install_command: Some(text("pkexec apt-get update && pkexec apt-get install -y code")), uninstall_command: None }), dnf: None, pacman: None, direct: None }),
        },
    };
    assert(texts(a.screenshots@) =~= vscode_entry().screenshots);
    assert(texts(a.dependencies@) =~= vscode_entry().dependencies);
    assert(min_os_view(a.min_os@) =~= vscode_entry().min_os);
    assert(texts(a.supported_architectures.unwrap()@) =~= vscode_entry().supported_architectures.unwrap());
    a
}

/// The catalog entry of Brave Browser.
pub open spec fn brave_entry() -> AppView {
    AppView {
        id: "brave"@,
        name: "Brave Browser"@,
        description: "The Brave browser is a fast, private and secure web browser for PC, Mac and mobile. It blocks ads and trackers by default."@,
        version: "1.67.123"@,
        developer: "Brave Software"@,
        website: "https://brave.com"@,
        github: "https://github.com/brave/brave-browser"@,
        license: "Open Source (MPL 2.0)"@,
        category: "Utilities"@,
        icon_url: "https://brave.com/static-assets/images/brave-logo-sans-text.svg"@,
        screenshots: seq!["https://brave.com/static-assets/images/brave-screenshot-1.png"@],
        download_size: "110 MB"@,
        installed_size: "280 MB"@,
        dependencies: Seq::<Seq<char>>::empty(),
        min_os: seq![("windows"@, "10"@), ("linux"@, "Ubuntu 20.04"@)],
        supported_architectures: Some(seq!["x86_64"@]),
        change_logs: Some("Security updates and browser shield fixes."@),
        platform: PlatformView {
            windows: Some(WindowsView { default_manager: Some("winget"@), winget: Some(PackageView { id: Some("Brave.Brave"@), install_command: Some("winget install Brave.Brave --silent --accept-source-agreements --accept-package-agreements"@), uninstall_command: Some("winget uninstall Brave.Brave --silent"@) }), chocolatey: None, scoop: None, direct: Some(DirectView { url: Some("https://laptop-updates.brave.com/latest/winx64"@), file_type: Some("exe"@), silent_args: Some("/silent /install"@), checksum: Some(""@) }) }),
            linux: Some(LinuxView { default_manager: Some("flatpak"@), flatpak: Some(PackageView { id: Some("com.brave.Browser"@), install_command: Some("flatpak install --user -y flathub com.brave.Browser"@), uninstall_command: Some("flatpak uninstall --user -y com.brave.Browser"@) }), snap: None, apt: None, dnf: None, pacman: None, direct: None }),
        },
    }
}

/// Builds the catalog entry of Brave Browser.
fn bundled_brave() -> (a: AppMetadata)
    ensures
        a@ == brave_entry(),
{
    let a = AppMetadata {
        id: text("brave"),
        name: text("Brave Browser"),
        description: text("The Brave browser is a fast, private and secure web browser for PC, Mac and mobile. It blocks ads and trackers by default."),
        version: text("1.67.123"),
        developer: text("Brave Software"),
        website: text("https://brave.com"),
        github: text("https://github.com/brave/brave-browser"),
        license: text("Open Source (MPL 2.0)"),
        category: text("Utilities"),
        icon_url: text("https://brave.com/static-assets/images/brave-logo-sans-text.svg"),
        screenshots: vec![text("https://brave.com/static-assets/images/brave-screenshot-1.png")],
        download_size: text("110 MB"),
        installed_size: text("280 MB"),
        dependencies: Vec::new(),
        min_os: vec![(text("windows"), text("10")), (text("linux"), text("Ubuntu 20.04"))],
        supported_architectures: Some(vec![text("x86_64")]),
        change_logs: Some(text("Security updates and browser shield fixes.")),
        platform_data: PlatformData {
            windows: Some(WindowsPlatform { default_manager: Some(text("winget")), winget: Some(PackageSource { id: Some(text("Brave.Brave")), install_command: Some(text("winget install Brave.Brave --silent --accept-source-agreements --accept-package-agreements")), uninstall_command: Some(text("winget uninstall Brave.Brave --silent")) }), chocolatey: None, scoop: None, direct: Some(DirectSource { url: Some(text("https://laptop-updates.brave.com/latest/winx64")), file_type: Some(text("exe")), silent_args: Some(text("/silent /install")), checksum: Some(text("")) }) }),
            linux: Some(LinuxPlatform { default_manager: Some(text("flatpak")), flatpak: Some(PackageSource { id: Some(text("com.brave.Browser")), install_command: Some(text("flatpak install --user -y flathub com.brave.Browser")), uninstall_command: Some(text("flatpak uninstall --user -y com.brave.Browser")) }), snap: None, apt: None, dnf: None, pacman: None, direct: None }),
        },
    };
    assert(texts(a.screenshots@) =~= brave_entry().screenshots);
    assert(texts(a.dependencies@) =~= brave_entry().dependencies);
    assert(min_os_view(a.min_os@) =~= brave_entry().min_os);
    assert(texts(a.supported_architectures.unwrap()@) =~= brave_entry().supported_architectures.unwrap());
    a
}

/// The catalog entry of GIMP Image Editor.
pub open spec fn gimp_entry() -> AppView {
    AppView {
        id: "gimp"@,
        name: "GIMP Image Editor"@,
        description: "GIMP is a cross-platform image editor available for GNU/Linux, macOS, Windows and more operating systems. It is free software, you can change its source code and distribute your changes."@,
        version: "2.10.38"@,
        developer: "The GIMP Team"@,
        website: "https://www.gimp.org"@,
        github: "https://gitlab.gnome.org/GNOME/gimp"@,
        license: "GPLv3"@,
        category: "Multimedia"@,
        icon_url: "https://www.gimp.org/images/gimp-logo.png"@,
        screenshots: seq!["https://www.gimp.org/screenshots/gimp-2.10-screenshot.jpg"@],
        download_size: "310 MB"@,
        installed_size: "800 MB"@,
        dependencies: Seq::<Seq<char>>::empty(),
        min_os: seq![("windows"@, "10"@), ("linux"@, "Ubuntu 20.04"@)],
        supported_architectures: Some(seq!["x86_64"@]),
        change_logs: Some("Bug fixes, color management updates."@),
        platform: PlatformView {
            windows: Some(WindowsView { default_manager: Some("winget"@), winget: Some(PackageView { id: Some("GIMP.GIMP"@), install_command: Some("winget install GIMP.GIMP --silent --accept-source-agreements --accept-package-agreements"@), uninstall_command: Some("winget uninstall GIMP.GIMP --silent"@) }), chocolatey: None, scoop: None, direct: None }),
            linux: Some(LinuxView { default_manager: Some("flatpak"@), flatpak: Some(PackageView { id: Some("org.gimp.GIMP"@), install_command: Some("flatpak install --user -y flathub org.gimp.GIMP"@), uninstall_command: Some("flatpak uninstall --user -y org.gimp.GIMP"@) }), snap: None, apt: None, dnf: None, pacman: None, direct: None }),
        },
    }
}

/// Builds the catalog entry of GIMP Image Editor.
fn bundled_gimp() -> (a: AppMetadata)
    ensures
        a@ == gimp_entry(),
{
    let a = AppMetadata {
        id: text("gimp"),
        name: text("GIMP Image Editor"),
        description: text("GIMP is a cross-platform image editor available for GNU/Linux, macOS, Windows and more operating systems. It is free software, you can change its source code and distribute your changes."),
        version: text("2.10.38"),
        developer: text("The GIMP Team"),
        website: text("https://www.gimp.org"),
        github: text("https://gitlab.gnome.org/GNOME/gimp"),
        license: text("GPLv3"),
        category: text("Multimedia"),
        icon_url: text("https://www.gimp.org/images/gimp-logo.png"),
        screenshots: vec![text("https://www.gimp.org/screenshots/gimp-2.10-screenshot.jpg")],
        download_size: text("310 MB"),
        installed_size: text("800 MB"),
        dependencies: Vec::new(),
        min_os: vec![(text("windows"), text("10")), (text("linux"), text("Ubuntu 20.04"))],
        supported_architectures: Some(vec![text("x86_64")]),
        change_logs: Some(text("Bug fixes, color management updates.")),
        platform_data: PlatformData {
            windows: Some(WindowsPlatform { default_manager: Some(text("winget")), winget: Some(PackageSource { id: Some(text("GIMP.GIMP")), install_command: Some(text("winget install GIMP.GIMP --silent --accept-source-agreements --accept-package-agreements")), uninstall_command: Some(text("winget uninstall GIMP.GIMP --silent")) }), chocolatey: None, scoop: None, direct: None }),
            linux: Some(LinuxPlatform { default_manager: Some(text("flatpak")), flatpak: Some(PackageSource { id: Some(text("org.gimp.GIMP")), install_command: Some(text("flatpak install --user -y flathub org.gimp.GIMP")), uninstall_command: Some(text("flatpak uninstall --user -y org.gimp.GIMP")) }), snap: None, apt: None, dnf: None, pacman: None, direct: None }),
        },
    };
    assert(texts(a.screenshots@) =~= gimp_entry().screenshots);
    assert(texts(a.dependencies@) =~= gimp_entry().dependencies);
    assert(min_os_view(a.min_os@) =~= gimp_entry().min_os);
    assert(texts(a.supported_architectures.unwrap()@) =~= gimp_entry().supported_architectures.unwrap());
    a
}

/// The catalog entry of OBS Studio.
pub open spec fn obs_entry() -> AppView {
    AppView {
        id: "obs"@,
        name: "OBS Studio"@,
        description: "Free and open source software for video recording and live streaming. Download and start streaming quickly and easily on Windows, Mac or Linux."@,
        version: "30.1.2"@,
        developer: "OBS Project"@,
        website: "https://obsproject.com"@,
        github: "https://github.com/obsproject/obs-studio"@,
        license: "GPLv2"@,
        category: "Multimedia"@,
        icon_url: "https://obsproject.com/assets/images/logo.png"@,
        screenshots: seq!["https://obsproject.com/assets/images/screenshot_main.png"@],
        download_size: "128 MB"@,
        installed_size: "400 MB"@,
        dependencies: Seq::<Seq<char>>::empty(),
        min_os: seq![("windows"@, "10"@), ("linux"@, "Ubuntu 22.04"@)],
        supported_architectures: Some(seq!["x86_64"@]),
        change_logs: Some("Fixed NVENC encoder issues and audio sync fixes."@),
        platform: PlatformView {
            windows: Some(WindowsView { default_manager: Some("winget"@), winget: Some(PackageView { id: Some("OBSProject.OBSStudio"@), install_command: Some("winget install OBSProject.OBSStudio --silent --accept-source-agreements --accept-package-agreements"@), uninstall_command: Some("winget uninstall OBSProject.OBSStudio --silent"@) }), chocolatey: None, scoop: None, direct: None }),
            linux: Some(LinuxView { default_manager: Some("flatpak"@), flatpak: Some(PackageView { id: Some("com.obsproject.Studio"@), install_command: Some("flatpak install --user -y flathub com.obsproject.Studio"@), uninstall_command: Some("flatpak uninstall --user -y com.obsproject.Studio"@) }), snap: None, apt: None, dnf: None, pacman: None, direct: None }),
        },
    }
}

/// Builds the catalog entry of OBS Studio.
fn bundled_obs() -> (a: AppMetadata)
    ensures
        a@ == obs_entry(),
{
    let a = AppMetadata {
        id: text("obs"),
        name: text("OBS Studio"),
        description: text("Free and open source software for video recording and live streaming. Download and start streaming quickly and easily on Windows, Mac or Linux."),
        version: text("30.1.2"),
        developer: text("OBS Project"),
        website: text("https://obsproject.com"),
        github: text("https://github.com/obsproject/obs-studio"),
        license: text("GPLv2"),
        category: text("Multimedia"),
        icon_url: text("https://obsproject.com/assets/images/logo.png"),
        screenshots: vec![text("https://obsproject.com/assets/images/screenshot_main.png")],
        download_size: text("128 MB"),
        installed_size: text("400 MB"),
        dependencies: Vec::new(),
        min_os: vec![(text("windows"), text("10")), (text("linux"), text("Ubuntu 22.04"))],
        supported_architectures: Some(vec![text("x86_64")]),
        change_logs: Some(text("Fixed NVENC encoder issues and audio sync fixes.")),
        platform_data: PlatformData {
            windows: Some(WindowsPlatform { default_manager: Some(text("winget")), winget: Some(PackageSource { id: Some(text("OBSProject.OBSStudio")), install_command: Some(text("winget install OBSProject.OBSStudio --silent --accept-source-agreements --accept-package-agreements")), uninstall_command: Some(text("winget uninstall OBSProject.OBSStudio --silent")) }), chocolatey: None, scoop: None, direct: None }),
            linux: Some(LinuxPlatform { default_manager: Some(text("flatpak")), flatpak: Some(PackageSource { id: Some(text("com.obsproject.Studio")), install_command: Some(text("flatpak install --user -y flathub com.obsproject.Studio")), uninstall_command: Some(text("flatpak uninstall --user -y com.obsproject.Studio")) }), snap: None, apt: None, dnf: None, pacman: None, direct: None }),
        },
    };
    assert(texts(a.screenshots@) =~= obs_entry().screenshots);
    assert(texts(a.dependencies@) =~= obs_entry().dependencies);
    assert(min_os_view(a.min_os@) =~= obs_entry().min_os);
    assert(texts(a.supported_architectures.unwrap()@) =~= obs_entry().supported_architectures.unwrap());
    a
}

/// The catalog entry of Blender 3D.
pub open spec fn blender_entry() -> AppView {
    AppView {
        id: "blender"@,
        name: "Blender 3D"@,
        description: "Blender is the free and open source 3D creation suite. It supports the entirety of the 3D pipeline—modeling, rigging, animation, simulation, rendering, compositing and motion tracking, video editing and 2D animation pipeline."@,
        version: "4.1.1"@,
        developer: "Blender Foundation"@,
        website: "https://www.blender.org"@,
        github: "https://github.com/blender/blender"@,
        license: "GPLv3"@,
        category: "Multimedia"@,
        icon_url: "https://www.blender.org/wp-content/uploads/2020/07/blender_logo_stacked.png"@,
        screenshots: seq!["https://www.blender.org/wp-content/uploads/2024/03/blender_4_1_splash.jpg"@],
        download_size: "315 MB"@,
        installed_size: "950 MB"@,
        dependencies: Seq::<Seq<char>>::empty(),
        min_os: seq![("windows"@, "10"@), ("linux"@, "Ubuntu 20.04"@)],
        supported_architectures: Some(seq!["x86_64"@]),
        change_logs: Some("Cycles GPU rendering enhancements and geometry nodes improvements."@),
        platform: PlatformView {
            windows: Some(WindowsView { default_manager: Some("winget"@), winget: Some(PackageView { id: Some("BlenderFoundation.Blender"@), install_command: Some("winget install BlenderFoundation.Blender --silent --accept-source-agreements --accept-package-agreements"@), uninstall_command: Some("winget uninstall BlenderFoundation.Blender --silent"@) }), chocolatey: None, scoop: None, direct: None }),
            linux: Some(LinuxView { default_manager: Some("flatpak"@), flatpak: Some(PackageView { id: Some("org.blender.Blender"@), install_command: Some("flatpak install --user -y flathub org.blender.Blender"@), uninstall_command: Some("flatpak uninstall --user -y org.blender.Blender"@) }), snap: None, apt: None, dnf: None, pacman: None, direct: None }),
        },
    }
}

/// Builds the catalog entry of Blender 3D.
fn bundled_blender() -> (a: AppMetadata)
    ensures
        a@ == blender_entry(),
{
    let a = AppMetadata {
        id: text("blender"),
        name: text("Blender 3D"),
        description: text("Blender is the free and open source 3D creation suite. It supports the entirety of the 3D pipeline—modeling, rigging, animation, simulation, rendering, compositing and motion tracking, video editing and 2D animation pipeline."),
        version: text("4.1.1"),
        developer: text("Blender Foundation"),
        website: text("https://www.blender.org"),
        github: text("https://github.com/blender/blender"),
        license: text("GPLv3"),
        category: text("Multimedia"),
        icon_url: text("https://www.blender.org/wp-content/uploads/2020/07/blender_logo_stacked.png"),
        screenshots: vec![text("https://www.blender.org/wp-content/uploads/2024/03/blender_4_1_splash.jpg")],
        download_size: text("315 MB"),
        installed_size: text("950 MB"),
        dependencies: Vec::new(),
        min_os: vec![(text("windows"), text("10")), (text("linux"), text("Ubuntu 20.04"))],
        supported_architectures: Some(vec![text("x86_64")]),
        change_logs: Some(text("Cycles GPU rendering enhancements and geometry nodes improvements.")),
        platform_data: PlatformData {
            windows: Some(WindowsPlatform { default_manager: Some(text("winget")), winget: Some(PackageSource { id: Some(text("BlenderFoundation.Blender")), install_command: Some(text("winget install BlenderFoundation.Blender --silent --accept-source-agreements --accept-package-agreements")), uninstall_command: Some(text("winget uninstall BlenderFoundation.Blender --silent")) }), chocolatey: None, scoop: None, direct: None }),
            linux: Some(LinuxPlatform { default_manager: Some(text("flatpak")), flatpak: Some(PackageSource { id: Some(text("org.blender.Blender")), install_command: Some(text("flatpak install --user -y flathub org.blender.Blender")), uninstall_command: Some(text("flatpak uninstall --user -y org.blender.Blender")) }), snap: None, apt: None, dnf: None, pacman: None, direct: None }),
        },
    };
    assert(texts(a.screenshots@) =~= blender_entry().screenshots);
    assert(texts(a.dependencies@) =~= blender_entry().dependencies);
    assert(min_os_view(a.min_os@) =~= blender_entry().min_os);
    assert(texts(a.supported_architectures.unwrap()@) =~= blender_entry().supported_architectures.unwrap());
    a
}

/// The catalog entry of Discord.
pub open spec fn discord_entry() -> AppView {
    AppView {
        id: "discord"@,
        name: "Discord"@,
        description: "Discord is the easiest way to talk over voice, video, and text. Talk, chat, hang out, and stay close with your friends and communities."@,
        version: "1.0.9002"@,
        developer: "Discord Inc."@,
        website: "https://discord.com"@,
        github: "https://github.com/discord"@,
        license: "Proprietary"@,
        category: "Productivity"@,
        icon_url: "https://assets-global.website-files.com/6257adef93867e50d84d30e2/636e0a6a49cf127bf92de1e2_icon_clyde_blurple_RGB.svg"@,
        screenshots: seq!["https://discord.com/assets/8a9d187ccafaf4e930f72023d5ec6866.svg"@],
        download_size: "85 MB"@,
        installed_size: "220 MB"@,
        dependencies: Seq::<Seq<char>>::empty(),
        min_os: seq![("windows"@, "10"@), ("linux"@, "Ubuntu 20.04"@)],
        supported_architectures: Some(seq!["x86_64"@]),
        change_logs: Some("Performance optimizations, overlay improvements."@),
        platform: PlatformView {
            windows: Some(WindowsView { default_manager: Some("winget"@), winget: Some(PackageView { id: Some("Discord.Discord"@), install_command: Some("winget install Discord.Discord --silent --accept-source-agreements --accept-package-agreements"@), uninstall_command: Some("winget uninstall Discord.Discord --silent"@) }), chocolatey: None, scoop: None, direct: None }),
            linux: Some(LinuxView { default_manager: Some("flatpak"@), flatpak: Some(PackageView { id: Some("com.discordapp.Discord"@), install_command: Some("flatpak install --user -y flathub com.discordapp.Discord"@), uninstall_command: Some("flatpak uninstall --user -y com.discordapp.Discord"@) }), snap: None, apt: None, dnf: None, pacman: None, direct: None }),
        },
    }
}

/// Builds the catalog entry of Discord.
fn bundled_discord() -> (a: AppMetadata)
    ensures
        a@ == discord_entry(),
{
    let a = AppMetadata {
        id: text("discord"),
        name: text("Discord"),
        description: text("Discord is the easiest way to talk over voice, video, and text. Talk, chat, hang out, and stay close with your friends and communities."),
        version: text("1.0.9002"),
        developer: text("Discord Inc."),
        website: text("https://discord.com"),
        github: text("https://github.com/discord"),
        license: text("Proprietary"),
        category: text("Productivity"),
        icon_url: text("https://assets-global.website-files.com/6257adef93867e50d84d30e2/636e0a6a49cf127bf92de1e2_icon_clyde_blurple_RGB.svg"),
        screenshots: vec![text("https://discord.com/assets/8a9d187ccafaf4e930f72023d5ec6866.svg")],
        download_size: text("85 MB"),
        installed_size: text("220 MB"),
        dependencies: Vec::new(),
        min_os: vec![(text("windows"), text("10")), (text("linux"), text("Ubuntu 20.04"))],
        supported_architectures: Some(vec![text("x86_64")]),
        change_logs: Some(text("Performance optimizations, overlay improvements.")),
        platform_data: PlatformData {
            windows: Some(WindowsPlatform { default_manager: Some(text("winget")), winget: Some(PackageSource { id: Some(text("Discord.Discord")), install_command: Some(text("winget install Discord.Discord --silent --accept-source-agreements --accept-package-agreements")), uninstall_command: Some(text("winget uninstall Discord.Discord --silent")) }), chocolatey: None, scoop: None, direct: None }),
            linux: Some(LinuxPlatform { default_manager: Some(text("flatpak")), flatpak: Some(PackageSource { id: Some(text("com.discordapp.Discord")), install_command: Some(text("flatpak install --user -y flathub com.discordapp.Discord")), uninstall_command: Some(text("flatpak uninstall --user -y com.discordapp.Discord")) }), snap: None, apt: None, dnf: None, pacman: None, direct: None }),
        },
    };
    assert(texts(a.screenshots@) =~= discord_entry().screenshots);
    assert(texts(a.dependencies@) =~= discord_entry().dependencies);
    assert(min_os_view(a.min_os@) =~= discord_entry().min_os);
    assert(texts(a.supported_architectures.unwrap()@) =~= discord_entry().supported_architectures.unwrap());
    a
}

/// The catalog entry of VLC Media Player.
pub open spec fn vlc_entry() -> AppView {
    AppView {
        id: "vlc"@,
        name: "VLC Media Player"@,
        description: "VLC is a free and open source cross-platform multimedia player and framework that plays most multimedia files as well as DVDs, Audio CDs, VCDs, and various streaming protocols."@,
        version: "3.0.20"@,
        developer: "VideoLAN"@,
        website: "https://www.videolan.org"@,
        github: "https://github.com/videolan/vlc"@,
        license: "GPLv2"@,
        category: "Multimedia"@,
        icon_url: "https://images.videolan.org/vlc/images/vlc-cone.svg"@,
        screenshots: seq!["https://images.videolan.org/vlc/screenshots/vlc-3.0.jpg"@],
        download_size: "40 MB"@,
        installed_size: "150 MB"@,
        dependencies: Seq::<Seq<char>>::empty(),
        min_os: seq![("windows"@, "10"@), ("linux"@, "Ubuntu 18.04"@)],
        supported_architectures: Some(seq!["x86_64"@]),
        change_logs: Some("Fixed playback hardware acceleration bug and audio filters."@),
        platform: PlatformView {
            windows: Some(WindowsView { default_manager: Some("winget"@), winget: Some(PackageView { id: Some("VideoLAN.VLC"@), install_command: Some("winget install VideoLAN.VLC --silent --accept-source-agreements --accept-package-agreements"@), uninstall_command: Some("winget uninstall VideoLAN.VLC --silent"@) }), chocolatey: None, scoop: None, direct: None }),
            linux: Some(LinuxView { default_manager: Some("flatpak"@), flatpak: Some(PackageView { id: Some("org.videolan.VLC"@), install_command: Some("flatpak install --user -y flathub org.videolan.VLC"@), uninstall_command: Some("flatpak uninstall --user -y org.videolan.VLC"@) }), snap: None, apt: None, dnf: None, pacman: None, direct: None }),
        },
    }
}

/// Builds the catalog entry of VLC Media Player.
fn bundled_vlc() -> (a: AppMetadata)
    ensures
        a@ == vlc_entry(),
{
    let a = AppMetadata {
        id: text("vlc"),
        name: text("VLC Media Player"),
        description: text("VLC is a free and open source cross-platform multimedia player and framework that plays most multimedia files as well as DVDs, Audio CDs, VCDs, and various streaming protocols."),
        version: text("3.0.20"),
        developer: text("VideoLAN"),
        website: text("https://www.videolan.org"),
        github: text("https://github.com/videolan/vlc"),
        license: text("GPLv2"),
        category: text("Multimedia"),
        icon_url: text("https://images.videolan.org/vlc/images/vlc-cone.svg"),
        screenshots: vec![text("https://images.videolan.org/vlc/screenshots/vlc-3.0.jpg")],
        download_size: text("40 MB"),
        installed_size: text("150 MB"),
        dependencies: Vec::new(),
        min_os: vec![(text("windows"), text("10")), (text("linux"), text("Ubuntu 18.04"))],
        supported_architectures: Some(vec![text("x86_64")]),
        change_logs: Some(text("Fixed playback hardware acceleration bug and audio filters.")),
        platform_data: PlatformData {
            windows: Some(WindowsPlatform { default_manager: Some(text("winget")), winget: Some(PackageSource { id: Some(text("VideoLAN.VLC")), install_command: Some(text("winget install VideoLAN.VLC --silent --accept-source-agreements --accept-package-agreements")), uninstall_command: Some(text("winget uninstall VideoLAN.VLC --silent")) }), chocolatey: None, scoop: None, direct: None }),
            linux: Some(LinuxPlatform { default_manager: Some(text("flatpak")), flatpak: Some(PackageSource { id: Some(text("org.videolan.VLC")), install_command: Some(text("flatpak install --user -y flathub org.videolan.VLC")), uninstall_command: Some(text("flatpak uninstall --user -y org.videolan.VLC")) }), snap: None, apt: None, dnf: None, pacman: None, direct: None }),
        },
    };
    assert(texts(a.screenshots@) =~= vlc_entry().screenshots);
    assert(texts(a.dependencies@) =~= vlc_entry().dependencies);
    assert(min_os_view(a.min_os@) =~= vlc_entry().min_os);
    assert(texts(a.supported_architectures.unwrap()@) =~= vlc_entry().supported_architectures.unwrap());
    a
}

/// The catalog entry of Spotify.
pub open spec fn spotify_entry() -> AppView {
    AppView {
        id: "spotify"@,
        name: "Spotify"@,
        description: "Spotify is a digital music, podcast, and video service that gives you access to millions of songs and other content from creators all over the world."@,
        version: "1.2.40.599"@,
        developer: "Spotify AB"@,
        website: "https://spotify.com"@,
        github: "https://github.com/spotify"@,
        license: "Proprietary"@,
        category: "Multimedia"@,
        icon_url: "https://www.scdn.co/co/artist/spotify-logo.png"@,
        screenshots: seq!["https://www.spotify.com/us/og-image.png"@],
        download_size: "80 MB"@,
        installed_size: "190 MB"@,
        dependencies: Seq::<Seq<char>>::empty(),
        min_os: seq![("windows"@, "10"@), ("linux"@, "Ubuntu 20.04"@)],
        supported_architectures: Some(seq!["x86_64"@]),
        change_logs: Some("UI updates and minor bug fixes."@),
        platform: PlatformView {
            windows: Some(WindowsView { default_manager: Some("winget"@), winget: Some(PackageView { id: Some("Spotify.Spotify"@), install_command: Some("winget install Spotify.Spotify --silent --accept-source-agreements --accept-package-agreements"@), uninstall_command: Some("winget uninstall Spotify.Spotify --silent"@) }), chocolatey: None, scoop: None, direct: None }),
            linux: Some(LinuxView { default_manager: Some("flatpak"@), flatpak: Some(PackageView { id: Some("com.spotify.Client"@), install_command: Some("flatpak install --user -y flathub com.spotify.Client"@), uninstall_command: Some("flatpak uninstall --user -y com.spotify.Client"@) }), snap: None, apt: None, dnf: None, pacman: None, direct: None }),
        },
    }
}

/// Builds the catalog entry of Spotify.
fn bundled_spotify() -> (a: AppMetadata)
    ensures
        a@ == spotify_entry(),
{
    let a = AppMetadata {
        id: text("spotify"),
        name: text("Spotify"),
        description: text("Spotify is a digital music, podcast, and video service that gives you access to millions of songs and other content from creators all over the world."),
        version: text("1.2.40.599"),
        developer: text("Spotify AB"),
        website: text("https://spotify.com"),
        github: text("https://github.com/spotify"),
        license: text("Proprietary"),
        category: text("Multimedia"),
        icon_url: text("https://www.scdn.co/co/artist/spotify-logo.png"),
        screenshots: vec![text("https://www.spotify.com/us/og-image.png")],
        download_size: text("80 MB"),
        installed_size: text("190 MB"),
        dependencies: Vec::new(),
        min_os: vec![(text("windows"), text("10")), (text("linux"), text("Ubuntu 20.04"))],
        supported_architectures: Some(vec![text("x86_64")]),
        change_logs: Some(text("UI updates and minor bug fixes.")),
        platform_data: PlatformData {
            windows: Some(WindowsPlatform { default_manager: Some(text("winget")), winget: Some(PackageSource { id: Some(text("Spotify.Spotify")), install_command: Some(text("winget install Spotify.Spotify --silent --accept-source-agreements --accept-package-agreements")), uninstall_command: Some(text("winget uninstall Spotify.Spotify --silent")) }), chocolatey: None, scoop: None, direct: None }),
            linux: Some(LinuxPlatform { default_manager: Some(text("flatpak")), flatpak: Some(PackageSource { id: Some(text("com.spotify.Client")), install_command: Some(text("flatpak install --user -y flathub com.spotify.Client")), uninstall_command: Some(text("flatpak uninstall --user -y com.spotify.Client")) }), snap: None, apt: None, dnf: None, pacman: None, direct: None }),
        },
    };
    assert(texts(a.screenshots@) =~= spotify_entry().screenshots);
    assert(texts(a.dependencies@) =~= spotify_entry().dependencies);
    assert(min_os_view(a.min_os@) =~= spotify_entry().min_os);
    assert(texts(a.supported_architectures.unwrap()@) =~= spotify_entry().supported_architectures.unwrap());
    a
}

/// The catalog entry of Docker Desktop.
pub open spec fn docker_entry() -> AppView {
    AppView {
        id: "docker"@,
        name: "Docker Desktop"@,
        description: "Docker Desktop is an easy-to-install application for your Mac, Windows or Linux environment that enables you to build and share containerized applications and microservices."@,
        version: "4.31.0"@,
        developer: "Docker Inc."@,
        website: "https://www.docker.com"@,
        github: "https://github.com/docker/docker-desktop"@,
        license: "Proprietary (Free for Personal Use)"@,
        category: "Developer Tools"@,
        icon_url: "https://www.docker.com/wp-content/uploads/2023/05/symbol-blue-docker-logo.png"@,
        screenshots: seq!["https://www.docker.com/wp-content/uploads/2021/11/Docker-Desktop-Dashboard.png"@],
        download_size: "550 MB"@,
        installed_size: "1.2 GB"@,
        dependencies: Seq::<Seq<char>>::empty(),
        min_os: seq![("windows"@, "11"@), ("linux"@, "Ubuntu 22.04"@)],
        supported_architectures: Some(seq!["x86_64"@]),
        change_logs: Some("Added support for Docker Scout and WSL2 backend optimization."@),
        platform: PlatformView {
            windows: Some(WindowsView { default_manager: Some("winget"@), winget: Some(PackageView { id: Some("Docker.DockerDesktop"@), install_command: Some("winget install Docker.DockerDesktop --silent --accept-source-agreements --accept-package-agreements"@), uninstall_command: Some("winget uninstall Docker.DockerDesktop --silent"@) }), chocolatey: None, scoop: None, direct: None }),
            linux: Some(LinuxView { default_manager: Some("apt"@), flatpak: None, snap: None, apt: Some(PackageView { id: Some("docker-desktop"@), install_command: Some("pkexec apt-get update && pkexec apt-get install -y docker-desktop"@), uninstall_command: None }), dnf: None, pacman: None, direct: None }),
        },
    }
}

/// Builds the catalog entry of Docker Desktop.
fn bundled_docker() -> (a: AppMetadata)
    ensures
        a@ == docker_entry(),
{
    let a = AppMetadata {
        id: text("docker"),
        name: text("Docker Desktop"),
        description: text("Docker Desktop is an easy-to-install application for your Mac, Windows or Linux environment that enables you to build and share containerized applications and microservices."),
        version: text("4.31.0"),
        developer: text("Docker Inc."),
        website: text("https://www.docker.com"),
        github: text("https://github.com/docker/docker-desktop"),
        license: text("Proprietary (Free for Personal Use)"),
        category: text("Developer Tools"),
        icon_url: text("https://www.docker.com/wp-content/uploads/2023/05/symbol-blue-docker-logo.png"),
        screenshots: vec![text("https://www.docker.com/wp-content/uploads/2021/11/Docker-Desktop-Dashboard.png")],
        download_size: text("550 MB"),
        installed_size: text("1.2 GB"),
        dependencies: Vec::new(),
        min_os: vec![(text("windows"), text("11")), (text("linux"), text("Ubuntu 22.04"))],
        supported_architectures: Some(vec![text("x86_64")]),
        change_logs: Some(text("Added support for Docker Scout and WSL2 backend optimization.")),
        platform_data: PlatformData {
            windows: Some(WindowsPlatform { default_manager: Some(text("winget")), winget: Some(PackageSource { id: Some(text("Docker.DockerDesktop")), install_command: Some(text("winget install Docker.DockerDesktop --silent --accept-source-agreements --accept-package-agreements")), uninstall_command: Some(text("winget uninstall Docker.DockerDesktop --silent")) }), chocolatey: None, scoop: None, direct: None }),
            linux: Some(LinuxPlatform { default_manager: Some(text("apt")), flatpak: None, snap: None, apt: Some(PackageSource { id: Some(text("docker-desktop")), install_command: Some(text("pkexec apt-get update && pkexec apt-get install -y docker-desktop")), uninstall_command: None }), dnf: None, pacman: None, direct: None }),
        },
    };
    assert(texts(a.screenshots@) =~= docker_entry().screenshots);
    assert(texts(a.dependencies@) =~= docker_entry().dependencies);
    assert(min_os_view(a.min_os@) =~= docker_entry().min_os);
    assert(texts(a.supported_architectures.unwrap()@) =~= docker_entry().supported_architectures.unwrap());
    a
}

/// The catalog entry of Python Development Environment.
pub open spec fn python_entry() -> AppView {
    AppView {
        id: "python"@,
        name: "Python Development Environment"@,
        description: "Python is a programming language that lets you work quickly and integrate systems more effectively. This package configures standard Python, pip, and core packages."@,
        version: "3.12.3"@,
        developer: "Python Software Foundation"@,
        website: "https://www.python.org"@,
        github: "https://github.com/python/cpython"@,
        license: "PSF License"@,
        category: "Developer Tools"@,
        icon_url: "https://www.python.org/static/community_logos/python-logo-only.png"@,
        screenshots: seq!["https://www.python.org/static/img/python-logo.png"@],
        download_size: "25 MB"@,
        installed_size: "90 MB"@,
        dependencies: Seq::<Seq<char>>::empty(),
        min_os: seq![("windows"@, "10"@), ("linux"@, "Ubuntu 20.04"@)],
        supported_architectures: Some(seq!["x86_64"@, "arm64"@]),
        change_logs: Some("Standard security updates and performance improvements."@),
        platform: PlatformView {
            windows: Some(WindowsView { default_manager: Some("winget"@), winget: Some(PackageView { id: Some("Python.Python.3.12"@), install_command: Some("winget install Python.Python.3.12 --silent --accept-source-agreements --accept-package-agreements"@), uninstall_command: Some("winget uninstall Python.Python.3.12 --silent"@) }), chocolatey: None, scoop: None, direct: None }),
            linux: Some(LinuxView { default_manager: Some("apt"@), flatpak: None, snap: None, apt: Some(PackageView { id: Some("python3"@), install_command: Some("pkexec apt-get update && pkexec apt-get install -y python3 python3-pip"@), uninstall_command: None }), dnf: None, pacman: None, direct: None }),
        },
    }
}

/// Builds the catalog entry of Python Development Environment.
fn bundled_python() -> (a: AppMetadata)
    ensures
        a@ == python_entry(),
{
    let a = AppMetadata {
        id: text("python"),
        name: text("Python Development Environment"),
        description: text("Python is a programming language that lets you work quickly and integrate systems more effectively. This package configures standard Python, pip, and core packages."),
        version: text("3.12.3"),
        developer: text("Python Software Foundation"),
        website: text("https://www.python.org"),
        github: text("https://github.com/python/cpython"),
        license: text("PSF License"),
        category: text("Developer Tools"),
        icon_url: text("https://www.python.org/static/community_logos/python-logo-only.png"),
        screenshots: vec![text("https://www.python.org/static/img/python-logo.png")],
        download_size: text("25 MB"),
        installed_size: text("90 MB"),
        dependencies: Vec::new(),
        min_os: vec![(text("windows"), text("10")), (text("linux"), text("Ubuntu 20.04"))],
        supported_architectures: Some(vec![text("x86_64"), text("arm64")]),
        change_logs: Some(text("Standard security updates and performance improvements.")),
        platform_data: PlatformData {
            windows: Some(WindowsPlatform { default_manager: Some(text("winget")), winget: Some(PackageSource { id: Some(text("Python.Python.3.12")), install_command: Some(text("winget install Python.Python.3.12 --silent --accept-source-agreements --accept-package-agreements")), uninstall_command: Some(text("winget uninstall Python.Python.3.12 --silent")) }), chocolatey: None, scoop: None, direct: None }),
            linux: Some(LinuxPlatform { default_manager: Some(text("apt")), flatpak: None, snap: None, apt: Some(PackageSource { id: Some(text("python3")), install_command: Some(text("pkexec apt-get update && pkexec apt-get install -y python3 python3-pip")), uninstall_command: None }), dnf: None, pacman: None, direct: None }),
        },
    };
    assert(texts(a.screenshots@) =~= python_entry().screenshots);
    assert(texts(a.dependencies@) =~= python_entry().dependencies);
    assert(min_os_view(a.min_os@) =~= python_entry().min_os);
    assert(texts(a.supported_architectures.unwrap()@) =~= python_entry().supported_architectures.unwrap());
    a
}

/// The catalog shipped with the client, in catalog order.
pub open spec fn bundled_entries() -> Seq<AppView> {
    seq![
        vscode_entry(),
        brave_entry(),
        gimp_entry(),
        obs_entry(),
        blender_entry(),
        discord_entry(),
        vlc_entry(),
        spotify_entry(),
        docker_entry(),
        python_entry(),
    ]
}

/// The catalog shipped with the client, used when no catalog can be fetched:
/// ten popular applications, each with Windows and Linux installation data.
pub fn bundled_apps() -> (r: Vec<AppMetadata>)
    ensures
        r@.len() == bundled_entries().len(),
        forall|i: int| 0 <= i < r@.len() ==> (#[trigger] r@[i])@ == bundled_entries()[i],
{
    let mut r: Vec<AppMetadata> = Vec::new();
    r.push(bundled_vscode());
    r.push(bundled_brave());
    r.push(bundled_gimp());
    r.push(bundled_obs());
    r.push(bundled_blender());
    r.push(bundled_discord());
    r.push(bundled_vlc());
    r.push(bundled_spotify());
    r.push(bundled_docker());
    r.push(bundled_python());
    r
}


/// The package source that a Windows default manager names.
pub open spec fn windows_source(w: WindowsView, manager: Seq<char>) -> Option<PackageView> {
    if manager == "winget"@ {
        w.winget
    } else if manager == "chocolatey"@ {
        w.chocolatey
    } else if manager == "scoop"@ {
        w.scoop
    } else {
        None
    }
}

/// The package source that a Linux default manager names.
pub open spec fn linux_source(l: LinuxView, manager: Seq<char>) -> Option<PackageView> {
    if manager == "flatpak"@ {
        l.flatpak
    } else if manager == "snap"@ {
        l.snap
    } else if manager == "apt"@ {
        l.apt
    } else if manager == "dnf"@ {
        l.dnf
    } else if manager == "pacman"@ {
        l.pacman
    } else {
        None
    }
}

/// A package source with a package id.
pub open spec fn has_package(p: Option<PackageView>) -> bool {
    p matches Some(pv) && pv.id is Some
}

/// No direct download, or one with a URL.
pub open spec fn direct_has_url(d: Option<DirectView>) -> bool {
    d matches Some(dv) ==> dv.url is Some
}

/// A catalog entry that can be installed on both operating systems: each
/// names a default package manager with a package id there, and any direct
/// download has a URL.
pub open spec fn installable_everywhere(a: AppView) -> bool {
    &&& a.platform.windows matches Some(w) && w.default_manager matches Some(m)
        && has_package(windows_source(w, m)) && direct_has_url(w.direct)
    &&& a.platform.linux matches Some(l) && l.default_manager matches Some(m)
        && has_package(linux_source(l, m)) && direct_has_url(l.direct)
}

/// Every app of the bundled catalog names, on Windows and on Linux, a
/// default package manager that has a package id for it, any direct download
/// it lists has a URL, and no two apps share an id.
pub proof fn lemma_bundled_catalog_installable()
    ensures
        forall|i: int| 0 <= i < bundled_entries().len() ==> installable_everywhere(#[trigger] bundled_entries()[i]),
        forall|i: int, j: int| 0 <= i < j < bundled_entries().len() ==> bundled_entries()[i].id != bundled_entries()[j].id,
{
    let e = bundled_entries();
    assert forall|i: int| 0 <= i < e.len() implies installable_everywhere(#[trigger] e[i]) by {
        lemma_entry_installable(i);
    }
    assert forall|i: int| 0 <= i < e.len() implies bundled_rank(#[trigger] e[i].id) == i by {
        lemma_entry_rank(i);
    }
    assert forall|i: int, j: int| 0 <= i < j < e.len() implies e[i].id != e[j].id by {
        assert(bundled_rank(e[i].id) == i);
        assert(bundled_rank(e[j].id) == j);
    }
}

proof fn lemma_entry_installable(i: int)
    requires
        0 <= i < 10,
    ensures
        installable_everywhere(bundled_entries()[i]),
{
    reveal_strlit("winget");
    reveal_strlit("flatpak");
    reveal_strlit("snap");
    reveal_strlit("apt");
    let e = bundled_entries();
    if i < 8 {
        assert(installable_everywhere(e[i]));
    } else {
        assert("apt"@.len() != "flatpak"@.len());
        assert("apt"@.len() != "snap"@.len());
        assert(installable_everywhere(e[i]));
    }
}

proof fn lemma_entry_rank(i: int)
    requires
        0 <= i < 10,
    ensures
        bundled_rank(bundled_entries()[i].id) == i,
{
    reveal_strlit("vscode");
    reveal_strlit("brave");
    reveal_strlit("gimp");
    reveal_strlit("obs");
    reveal_strlit("blender");
    reveal_strlit("discord");
    reveal_strlit("vlc");
    reveal_strlit("spotify");
    reveal_strlit("docker");
    reveal_strlit("python");
    let id = bundled_entries()[i].id;
    if i == 0 {
    } else if i == 1 {
        assert(id[0] != "vscode"@[0]);
    } else if i == 2 {
        assert(id[0] != "vscode"@[0] && id[0] != "brave"@[0]);
    } else if i == 3 {
        assert(id[0] != "vscode"@[0] && id[0] != "brave"@[0] && id[0] != "gimp"@[0]);
    } else if i == 4 {
        assert(id[0] != "vscode"@[0] && id[1] != "brave"@[1] && id[0] != "gimp"@[0] && id[0] != "obs"@[0]);
    } else if i == 5 {
        assert(id[0] != "vscode"@[0] && id[0] != "brave"@[0] && id[0] != "gimp"@[0] && id[0] != "obs"@[0] && id[0] != "blender"@[0]);
    } else if i == 6 {
        assert(id[1] != "vscode"@[1] && id.len() != "brave"@.len() && id.len() != "gimp"@.len() && id[0] != "obs"@[0]
            && id[0] != "blender"@[0] && id[0] != "discord"@[0]);
    } else if i == 7 {
        assert(id[0] != "vscode"@[0] && id[0] != "brave"@[0] && id[0] != "gimp"@[0] && id[0] != "obs"@[0]
            && id[0] != "blender"@[0] && id[0] != "discord"@[0] && id[0] != "vlc"@[0]);
    } else if i == 8 {
        assert(id[0] != "vscode"@[0] && id[0] != "brave"@[0] && id[0] != "gimp"@[0] && id[0] != "obs"@[0]
            && id[0] != "blender"@[0] && id[1] != "discord"@[1] && id[0] != "vlc"@[0] && id[0] != "spotify"@[0]);
    } else {
        assert(id[0] != "vscode"@[0] && id[0] != "brave"@[0] && id[0] != "gimp"@[0] && id[0] != "obs"@[0]
            && id[0] != "blender"@[0] && id[0] != "discord"@[0] && id[0] != "vlc"@[0] && id[0] != "spotify"@[0]
            && id[0] != "docker"@[0]);
    }
}

/// The position of an id in the bundled catalog (10 when it is not there).
spec fn bundled_rank(id: Seq<char>) -> int {
    if id == "vscode"@ { 0 }
    else if id == "brave"@ { 1 }
    else if id == "gimp"@ { 2 }
    else if id == "obs"@ { 3 }
    else if id == "blender"@ { 4 }
    else if id == "discord"@ { 5 }
    else if id == "vlc"@ { 6 }
    else if id == "spotify"@ { 7 }
    else if id == "docker"@ { 8 }
    else if id == "python"@ { 9 }
    else { 10 }
}

/// `cmd` holds `id` as a whole word starting at position `k`: between
/// spaces or the ends of the command.
pub open spec fn names_word_at(cmd: Seq<char>, id: Seq<char>, k: int) -> bool {
    &&& occurs_at(cmd, id, k)
    &&& (k == 0 || cmd[k - 1] == ' ')
    &&& (k + id.len() == cmd.len() || cmd[k + id.len()] == ' ')
}

/// `cmd` holds `id` as one of its words.
pub open spec fn names_word(cmd: Seq<char>, id: Seq<char>) -> bool {
    exists|k: int| #[trigger] names_word_at(cmd, id, k)
}

/// A package source whose install and uninstall commands, where given, name
/// its package id as one of their words.
pub open spec fn source_names_package(p: Option<PackageView>) -> bool {
    p matches Some(pv) ==> {
        &&& (pv.install_command matches Some(c) ==> (pv.id matches Some(id) && names_word(c, id)))
        &&& (pv.uninstall_command matches Some(c) ==> (pv.id matches Some(id) && names_word(c, id)))
    }
}

/// Every package source of a catalog entry names its package id in its commands.
pub open spec fn entry_names_packages(a: AppView) -> bool {
    &&& (a.platform.windows matches Some(w) ==> {
        &&& source_names_package(w.winget)
        &&& source_names_package(w.chocolatey)
        &&& source_names_package(w.scoop)
    })
    &&& (a.platform.linux matches Some(l) ==> {
        &&& source_names_package(l.flatpak)
        &&& source_names_package(l.snap)
        &&& source_names_package(l.apt)
        &&& source_names_package(l.dnf)
        &&& source_names_package(l.pacman)
    })
}

proof fn lemma_vscode_names_packages()
    ensures
        entry_names_packages(vscode_entry()),
{
    reveal_strlit("Microsoft.VisualStudioCode");
    reveal_strlit("choco install vscode -y");
    reveal_strlit("code");
    reveal_strlit("com.visualstudio.code");
    reveal_strlit("flatpak install --user -y flathub com.visualstudio.code");
    reveal_strlit("flatpak uninstall --user -y com.visualstudio.code");
    reveal_strlit("pkexec apt-get update && pkexec apt-get install -y code");
    reveal_strlit("snap install code --classic");
    reveal_strlit("vscode");
    reveal_strlit("winget install Microsoft.VisualStudioCode --silent --accept-source-agreements --accept-package-agreements");
    reveal_strlit("winget uninstall Microsoft.VisualStudioCode --silent");
    assert("winget install Microsoft.VisualStudioCode --silent --accept-source-agreements --accept-package-agreements"@.subrange(15, 41) =~= "Microsoft.VisualStudioCode"@);
    assert(names_word_at("winget install Microsoft.VisualStudioCode --silent --accept-source-agreements --accept-package-agreements"@, "Microsoft.VisualStudioCode"@, 15));
    assert("winget uninstall Microsoft.VisualStudioCode --silent"@.subrange(17, 43) =~= "Microsoft.VisualStudioCode"@);
    assert(names_word_at("winget uninstall Microsoft.VisualStudioCode --silent"@, "Microsoft.VisualStudioCode"@, 17));
    assert("choco install vscode -y"@.subrange(14, 20) =~= "vscode"@);
    assert(names_word_at("choco install vscode -y"@, "vscode"@, 14));
    assert("flatpak install --user -y flathub com.visualstudio.code"@.subrange(34, 55) =~= "com.visualstudio.code"@);
    assert(names_word_at("flatpak install --user -y flathub com.visualstudio.code"@, "com.visualstudio.code"@, 34));
    assert("flatpak uninstall --user -y com.visualstudio.code"@.subrange(28, 49) =~= "com.visualstudio.code"@);
    assert(names_word_at("flatpak uninstall --user -y com.visualstudio.code"@, "com.visualstudio.code"@, 28));
    assert("snap install code --classic"@.subrange(13, 17) =~= "code"@);
    assert(names_word_at("snap install code --classic"@, "code"@, 13));
    assert("pkexec apt-get update && pkexec apt-get install -y code"@.subrange(51, 55) =~= "code"@);
    assert(names_word_at("pkexec apt-get update && pkexec apt-get install -y code"@, "code"@, 51));
}

proof fn lemma_brave_names_packages()
    ensures
        entry_names_packages(brave_entry()),
{
    reveal_strlit("Brave.Brave");
    reveal_strlit("com.brave.Browser");
    reveal_strlit("flatpak install --user -y flathub com.brave.Browser");
    reveal_strlit("flatpak uninstall --user -y com.brave.Browser");
    reveal_strlit("winget install Brave.Brave --silent --accept-source-agreements --accept-package-agreements");
    reveal_strlit("winget uninstall Brave.Brave --silent");
    assert("winget install Brave.Brave --silent --accept-source-agreements --accept-package-agreements"@.subrange(15, 26) =~= "Brave.Brave"@);
    assert(names_word_at("winget install Brave.Brave --silent --accept-source-agreements --accept-package-agreements"@, "Brave.Brave"@, 15));
    assert("winget uninstall Brave.Brave --silent"@.subrange(17, 28) =~= "Brave.Brave"@);
    assert(names_word_at("winget uninstall Brave.Brave --silent"@, "Brave.Brave"@, 17));
    assert("flatpak install --user -y flathub com.brave.Browser"@.subrange(34, 51) =~= "com.brave.Browser"@);
    assert(names_word_at("flatpak install --user -y flathub com.brave.Browser"@, "com.brave.Browser"@, 34));
    assert("flatpak uninstall --user -y com.brave.Browser"@.subrange(28, 45) =~= "com.brave.Browser"@);
    assert(names_word_at("flatpak uninstall --user -y com.brave.Browser"@, "com.brave.Browser"@, 28));
}

proof fn lemma_gimp_names_packages()
    ensures
        entry_names_packages(gimp_entry()),
{
    reveal_strlit("GIMP.GIMP");
    reveal_strlit("flatpak install --user -y flathub org.gimp.GIMP");
    reveal_strlit("flatpak uninstall --user -y org.gimp.GIMP");
    reveal_strlit("org.gimp.GIMP");
    reveal_strlit("winget install GIMP.GIMP --silent --accept-source-agreements --accept-package-agreements");
    reveal_strlit("winget uninstall GIMP.GIMP --silent");
    assert("winget install GIMP.GIMP --silent --accept-source-agreements --accept-package-agreements"@.subrange(15, 24) =~= "GIMP.GIMP"@);
    assert(names_word_at("winget install GIMP.GIMP --silent --accept-source-agreements --accept-package-agreements"@, "GIMP.GIMP"@, 15));
    assert("winget uninstall GIMP.GIMP --silent"@.subrange(17, 26) =~= "GIMP.GIMP"@);
    assert(names_word_at("winget uninstall GIMP.GIMP --silent"@, "GIMP.GIMP"@, 17));
    assert("flatpak install --user -y flathub org.gimp.GIMP"@.subrange(34, 47) =~= "org.gimp.GIMP"@);
    assert(names_word_at("flatpak install --user -y flathub org.gimp.GIMP"@, "org.gimp.GIMP"@, 34));
    assert("flatpak uninstall --user -y org.gimp.GIMP"@.subrange(28, 41) =~= "org.gimp.GIMP"@);
    assert(names_word_at("flatpak uninstall --user -y org.gimp.GIMP"@, "org.gimp.GIMP"@, 28));
}

proof fn lemma_obs_names_packages()
    ensures
        entry_names_packages(obs_entry()),
{
    reveal_strlit("OBSProject.OBSStudio");
    reveal_strlit("com.obsproject.Studio");
    reveal_strlit("flatpak install --user -y flathub com.obsproject.Studio");
    reveal_strlit("flatpak uninstall --user -y com.obsproject.Studio");
    reveal_strlit("winget install OBSProject.OBSStudio --silent --accept-source-agreements --accept-package-agreements");
    reveal_strlit("winget uninstall OBSProject.OBSStudio --silent");
    assert("winget install OBSProject.OBSStudio --silent --accept-source-agreements --accept-package-agreements"@.subrange(15, 35) =~= "OBSProject.OBSStudio"@);
    assert(names_word_at("winget install OBSProject.OBSStudio --silent --accept-source-agreements --accept-package-agreements"@, "OBSProject.OBSStudio"@, 15));
    assert("winget uninstall OBSProject.OBSStudio --silent"@.subrange(17, 37) =~= "OBSProject.OBSStudio"@);
    assert(names_word_at("winget uninstall OBSProject.OBSStudio --silent"@, "OBSProject.OBSStudio"@, 17));
    assert("flatpak install --user -y flathub com.obsproject.Studio"@.subrange(34, 55) =~= "com.obsproject.Studio"@);
    assert(names_word_at("flatpak install --user -y flathub com.obsproject.Studio"@, "com.obsproject.Studio"@, 34));
    assert("flatpak uninstall --user -y com.obsproject.Studio"@.subrange(28, 49) =~= "com.obsproject.Studio"@);
    assert(names_word_at("flatpak uninstall --user -y com.obsproject.Studio"@, "com.obsproject.Studio"@, 28));
}

proof fn lemma_blender_names_packages()
    ensures
        entry_names_packages(blender_entry()),
{
    reveal_strlit("BlenderFoundation.Blender");
    reveal_strlit("flatpak install --user -y flathub org.blender.Blender");
    reveal_strlit("flatpak uninstall --user -y org.blender.Blender");
    reveal_strlit("org.blender.Blender");
    reveal_strlit("winget install BlenderFoundation.Blender --silent --accept-source-agreements --accept-package-agreements");
    reveal_strlit("winget uninstall BlenderFoundation.Blender --silent");
    assert("winget install BlenderFoundation.Blender --silent --accept-source-agreements --accept-package-agreements"@.subrange(15, 40) =~= "BlenderFoundation.Blender"@);
    assert(names_word_at("winget install BlenderFoundation.Blender --silent --accept-source-agreements --accept-package-agreements"@, "BlenderFoundation.Blender"@, 15));
    assert("winget uninstall BlenderFoundation.Blender --silent"@.subrange(17, 42) =~= "BlenderFoundation.Blender"@);
    assert(names_word_at("winget uninstall BlenderFoundation.Blender --silent"@, "BlenderFoundation.Blender"@, 17));
    assert("flatpak install --user -y flathub org.blender.Blender"@.subrange(34, 53) =~= "org.blender.Blender"@);
    assert(names_word_at("flatpak install --user -y flathub org.blender.Blender"@, "org.blender.Blender"@, 34));
    assert("flatpak uninstall --user -y org.blender.Blender"@.subrange(28, 47) =~= "org.blender.Blender"@);
    assert(names_word_at("flatpak uninstall --user -y org.blender.Blender"@, "org.blender.Blender"@, 28));
}

proof fn lemma_discord_names_packages()
    ensures
        entry_names_packages(discord_entry()),
{
    reveal_strlit("Discord.Discord");
    reveal_strlit("com.discordapp.Discord");
    reveal_strlit("flatpak install --user -y flathub com.discordapp.Discord");
    reveal_strlit("flatpak uninstall --user -y com.discordapp.Discord");
    reveal_strlit("winget install Discord.Discord --silent --accept-source-agreements --accept-package-agreements");
    reveal_strlit("winget uninstall Discord.Discord --silent");
    assert("winget install Discord.Discord --silent --accept-source-agreements --accept-package-agreements"@.subrange(15, 30) =~= "Discord.Discord"@);
    assert(names_word_at("winget install Discord.Discord --silent --accept-source-agreements --accept-package-agreements"@, "Discord.Discord"@, 15));
    assert("winget uninstall Discord.Discord --silent"@.subrange(17, 32) =~= "Discord.Discord"@);
    assert(names_word_at("winget uninstall Discord.Discord --silent"@, "Discord.Discord"@, 17));
    assert("flatpak install --user -y flathub com.discordapp.Discord"@.subrange(34, 56) =~= "com.discordapp.Discord"@);
    assert(names_word_at("flatpak install --user -y flathub com.discordapp.Discord"@, "com.discordapp.Discord"@, 34));
    assert("flatpak uninstall --user -y com.discordapp.Discord"@.subrange(28, 50) =~= "com.discordapp.Discord"@);
    assert(names_word_at("flatpak uninstall --user -y com.discordapp.Discord"@, "com.discordapp.Discord"@, 28));
}

proof fn lemma_vlc_names_packages()
    ensures
        entry_names_packages(vlc_entry()),
{
    reveal_strlit("VideoLAN.VLC");
    reveal_strlit("flatpak install --user -y flathub org.videolan.VLC");
    reveal_strlit("flatpak uninstall --user -y org.videolan.VLC");
    reveal_strlit("org.videolan.VLC");
    reveal_strlit("winget install VideoLAN.VLC --silent --accept-source-agreements --accept-package-agreements");
    reveal_strlit("winget uninstall VideoLAN.VLC --silent");
    assert("winget install VideoLAN.VLC --silent --accept-source-agreements --accept-package-agreements"@.subrange(15, 27) =~= "VideoLAN.VLC"@);
    assert(names_word_at("winget install VideoLAN.VLC --silent --accept-source-agreements --accept-package-agreements"@, "VideoLAN.VLC"@, 15));
    assert("winget uninstall VideoLAN.VLC --silent"@.subrange(17, 29) =~= "VideoLAN.VLC"@);
    assert(names_word_at("winget uninstall VideoLAN.VLC --silent"@, "VideoLAN.VLC"@, 17));
    assert("flatpak install --user -y flathub org.videolan.VLC"@.subrange(34, 50) =~= "org.videolan.VLC"@);
    assert(names_word_at("flatpak install --user -y flathub org.videolan.VLC"@, "org.videolan.VLC"@, 34));
    assert("flatpak uninstall --user -y org.videolan.VLC"@.subrange(28, 44) =~= "org.videolan.VLC"@);
    assert(names_word_at("flatpak uninstall --user -y org.videolan.VLC"@, "org.videolan.VLC"@, 28));
}

proof fn lemma_spotify_names_packages()
    ensures
        entry_names_packages(spotify_entry()),
{
    reveal_strlit("Spotify.Spotify");
    reveal_strlit("com.spotify.Client");
    reveal_strlit("flatpak install --user -y flathub com.spotify.Client");
    reveal_strlit("flatpak uninstall --user -y com.spotify.Client");
    reveal_strlit("winget install Spotify.Spotify --silent --accept-source-agreements --accept-package-agreements");
    reveal_strlit("winget uninstall Spotify.Spotify --silent");
    assert("winget install Spotify.Spotify --silent --accept-source-agreements --accept-package-agreements"@.subrange(15, 30) =~= "Spotify.Spotify"@);
    assert(names_word_at("winget install Spotify.Spotify --silent --accept-source-agreements --accept-package-agreements"@, "Spotify.Spotify"@, 15));
    assert("winget uninstall Spotify.Spotify --silent"@.subrange(17, 32) =~= "Spotify.Spotify"@);
    assert(names_word_at("winget uninstall Spotify.Spotify --silent"@, "Spotify.Spotify"@, 17));
    assert("flatpak install --user -y flathub com.spotify.Client"@.subrange(34, 52) =~= "com.spotify.Client"@);
    assert(names_word_at("flatpak install --user -y flathub com.spotify.Client"@, "com.spotify.Client"@, 34));
    assert("flatpak uninstall --user -y com.spotify.Client"@.subrange(28, 46) =~= "com.spotify.Client"@);
    assert(names_word_at("flatpak uninstall --user -y com.spotify.Client"@, "com.spotify.Client"@, 28));
}

proof fn lemma_docker_names_packages()
    ensures
        entry_names_packages(docker_entry()),
{
    reveal_strlit("Docker.DockerDesktop");
    reveal_strlit("docker-desktop");
    reveal_strlit("pkexec apt-get update && pkexec apt-get install -y docker-desktop");
    reveal_strlit("winget install Docker.DockerDesktop --silent --accept-source-agreements --accept-package-agreements");
    reveal_strlit("winget uninstall Docker.DockerDesktop --silent");
    assert("winget install Docker.DockerDesktop --silent --accept-source-agreements --accept-package-agreements"@.subrange(15, 35) =~= "Docker.DockerDesktop"@);
    assert(names_word_at("winget install Docker.DockerDesktop --silent --accept-source-agreements --accept-package-agreements"@, "Docker.DockerDesktop"@, 15));
    assert("winget uninstall Docker.DockerDesktop --silent"@.subrange(17, 37) =~= "Docker.DockerDesktop"@);
    assert(names_word_at("winget uninstall Docker.DockerDesktop --silent"@, "Docker.DockerDesktop"@, 17));
    assert("pkexec apt-get update && pkexec apt-get install -y docker-desktop"@.subrange(51, 65) =~= "docker-desktop"@);
    assert(names_word_at("pkexec apt-get update && pkexec apt-get install -y docker-desktop"@, "docker-desktop"@, 51));
}

proof fn lemma_python_names_packages()
    ensures
        entry_names_packages(python_entry()),
{
    reveal_strlit("Python.Python.3.12");
    reveal_strlit("pkexec apt-get update && pkexec apt-get install -y python3 python3-pip");
    reveal_strlit("python3");
    reveal_strlit("winget install Python.Python.3.12 --silent --accept-source-agreements --accept-package-agreements");
    reveal_strlit("winget uninstall Python.Python.3.12 --silent");
    assert("winget install Python.Python.3.12 --silent --accept-source-agreements --accept-package-agreements"@.subrange(15, 33) =~= "Python.Python.3.12"@);
    assert(names_word_at("winget install Python.Python.3.12 --silent --accept-source-agreements --accept-package-agreements"@, "Python.Python.3.12"@, 15));
    assert("winget uninstall Python.Python.3.12 --silent"@.subrange(17, 35) =~= "Python.Python.3.12"@);
    assert(names_word_at("winget uninstall Python.Python.3.12 --silent"@, "Python.Python.3.12"@, 17));
    assert("pkexec apt-get update && pkexec apt-get install -y python3 python3-pip"@.subrange(51, 58) =~= "python3"@);
    assert(names_word_at("pkexec apt-get update && pkexec apt-get install -y python3 python3-pip"@, "python3"@, 51));
}

/// In the bundled catalog, every install and uninstall command that a
/// package source gives names, as one of its words, the package id the store
/// installs and uninstalls that package by.
pub proof fn lemma_bundled_commands_name_their_packages()
    ensures
        forall|i: int| 0 <= i < bundled_entries().len() ==> entry_names_packages(#[trigger] bundled_entries()[i]),
{
    let e = bundled_entries();
    assert(entry_names_packages(e[0])) by { lemma_vscode_names_packages(); }
    assert(entry_names_packages(e[1])) by { lemma_brave_names_packages(); }
    assert(entry_names_packages(e[2])) by { lemma_gimp_names_packages(); }
    assert(entry_names_packages(e[3])) by { lemma_obs_names_packages(); }
    assert(entry_names_packages(e[4])) by { lemma_blender_names_packages(); }
    assert(entry_names_packages(e[5])) by { lemma_discord_names_packages(); }
    assert(entry_names_packages(e[6])) by { lemma_vlc_names_packages(); }
    assert(entry_names_packages(e[7])) by { lemma_spotify_names_packages(); }
    assert(entry_names_packages(e[8])) by { lemma_docker_names_packages(); }
    assert(entry_names_packages(e[9])) by { lemma_python_names_packages(); }
    assert forall|i: int| 0 <= i < e.len() implies entry_names_packages(#[trigger] e[i]) by {
        if i == 0 {} else if i == 1 {} else if i == 2 {} else if i == 3 {} else if i == 4 {}
        else if i == 5 {} else if i == 6 {} else if i == 7 {} else if i == 8 {} else {}
    }
}

/// The repository synced when none is configured.
pub open spec fn default_repo() -> Seq<char> {
    "agneax/store-repo"@
}

/// The repository to sync from: the configured one, else `agneax/store-repo`.
pub fn repo_or_default(configured: Option<String>) -> (r: String)
    ensures
        r@ == match configured {
            Some(c) => c@,
            None => default_repo(),
        },
{
    match configured {
        Some(c) => c,
        None => text("agneax/store-repo"),
    }
}

/// URL of the consolidated catalog index `apps.json` of a GitHub repository.
pub open spec fn index_url_spec(repo: Seq<char>) -> Seq<char> {
    "https://raw.githubusercontent.com/"@ + repo + "/main/apps.json"@
}

/// URL of the GitHub contents listing of a repository's `apps` directory.
pub open spec fn contents_url_spec(repo: Seq<char>) -> Seq<char> {
    "https://api.github.com/repos/"@ + repo + "/contents/apps"@
}

/// URL of the consolidated catalog index `apps.json` of a GitHub repository.
pub fn index_url(repo: &str) -> (r: String)
    ensures
        r@ == index_url_spec(repo@),
{
    let mut r = text("https://raw.githubusercontent.com/");
    r.append(repo);
    r.append("/main/apps.json");
    r
}

/// URL of the GitHub contents listing of the repository's `apps` directory.
pub fn contents_url(repo: &str) -> (r: String)
    ensures
        r@ == contents_url_spec(repo@),
{
    let mut r = text("https://api.github.com/repos/");
    r.append(repo);
    r.append("/contents/apps");
    r
}

/// Whether an entry of the `apps` directory listing is an app metadata file:
/// a file whose name ends in `.json`.
pub fn is_app_file_entry(item_type: &str, name: &str) -> (r: bool)
    ensures
        r == (item_type@ == "file"@ && has_suffix(name@, ".json"@)),
{
    same_text(item_type, "file") && ends_with(name, ".json")
}

/// The next piece of work of a catalog sync.
pub enum SyncStep {
    /// Fetch and parse the consolidated index at this URL.
    FetchIndex(String),
    /// Fetch the listing of the `apps` directory at this URL and each app
    /// metadata file it names.
    FetchContents(String),
    /// Store the apps that were fetched.
    StoreFetched,
    /// Store the bundled catalog: nothing was fetched.
    StoreBundled,
}

/// A sync starts with the consolidated index of the repository.
pub fn sync_start(repo: &str) -> (r: SyncStep)
    ensures
        r matches SyncStep::FetchIndex(u) && u@ == index_url_spec(repo@),
{
    SyncStep::FetchIndex(index_url(repo))
}

/// What follows the index: `index_apps` is the number of apps it held, or
/// none when it could not be fetched or parsed. Only then is the `apps`
/// directory listed; an index read but empty falls back to the bundled
/// catalog at once.
pub fn sync_after_index(repo: &str, index_apps: Option<usize>) -> (r: SyncStep)
    ensures
        match index_apps {
            Some(n) => if n == 0 { r is StoreBundled } else { r is StoreFetched },
            None => r matches SyncStep::FetchContents(u) && u@ == contents_url_spec(repo@),
        },
{
    match index_apps {
        Some(n) => if needs_bundled_catalog(n) { SyncStep::StoreBundled } else { SyncStep::StoreFetched },
        None => SyncStep::FetchContents(contents_url(repo)),
    }
}

/// What follows the directory listing: the bundled catalog when no app
/// could be fetched, else the fetched apps.
pub fn sync_after_contents(fetched: usize) -> (r: SyncStep)
    ensures
        fetched == 0 ==> r is StoreBundled,
        fetched > 0 ==> r is StoreFetched,
{
    if needs_bundled_catalog(fetched) { SyncStep::StoreBundled } else { SyncStep::StoreFetched }
}

/// Whether a sync has to fall back to the bundled catalog: nothing was fetched.
pub fn needs_bundled_catalog(fetched_count: usize) -> (r: bool)
    ensures
        r == (fetched_count == 0),
{
    fetched_count == 0
}

} // verus!
