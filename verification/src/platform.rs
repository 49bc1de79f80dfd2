//! The platform-specific installation data of a catalog entry: what the
//! installer reads of an app's `platform_data`.

use vstd::prelude::*;

verus! {

/// A package in one package manager's repository.
pub struct PackageSource {
    pub id: Option<String>,
    pub install_command: Option<String>,
    pub uninstall_command: Option<String>,
}

/// A directly downloadable installer or archive.
pub struct DirectSource {
    pub url: Option<String>,
    pub file_type: Option<String>,
    pub silent_args: Option<String>,
    pub checksum: Option<String>,
}

/// Windows installation data.
pub struct WindowsPlatform {
    pub default_manager: Option<String>,
    pub winget: Option<PackageSource>,
    pub chocolatey: Option<PackageSource>,
    pub scoop: Option<PackageSource>,
    pub direct: Option<DirectSource>,
}

/// Linux installation data.
pub struct LinuxPlatform {
    pub default_manager: Option<String>,
    pub flatpak: Option<PackageSource>,
    pub snap: Option<PackageSource>,
    pub apt: Option<PackageSource>,
    pub dnf: Option<PackageSource>,
    pub pacman: Option<PackageSource>,
    pub direct: Option<DirectSource>,
}

/// Installation data of an app for each supported operating system.
pub struct PlatformData {
    pub windows: Option<WindowsPlatform>,
    pub linux: Option<LinuxPlatform>,
}

/// Mathematical form of [`PackageSource`].
pub struct PackageView {
    pub id: Option<Seq<char>>,
    pub install_command: Option<Seq<char>>,
    pub uninstall_command: Option<Seq<char>>,
}

/// Mathematical form of [`DirectSource`].
pub struct DirectView {
    pub url: Option<Seq<char>>,
    pub file_type: Option<Seq<char>>,
    pub silent_args: Option<Seq<char>>,
    pub checksum: Option<Seq<char>>,
}

/// Mathematical form of [`WindowsPlatform`].
pub struct WindowsView {
    pub default_manager: Option<Seq<char>>,
    pub winget: Option<PackageView>,
    pub chocolatey: Option<PackageView>,
    pub scoop: Option<PackageView>,
    pub direct: Option<DirectView>,
}

/// Mathematical form of [`LinuxPlatform`].
pub struct LinuxView {
    pub default_manager: Option<Seq<char>>,
    pub flatpak: Option<PackageView>,
    pub snap: Option<PackageView>,
    pub apt: Option<PackageView>,
    pub dnf: Option<PackageView>,
    pub pacman: Option<PackageView>,
    pub direct: Option<DirectView>,
}

/// Mathematical form of [`PlatformData`].
pub struct PlatformView {
    pub windows: Option<WindowsView>,
    pub linux: Option<LinuxView>,
}

/// The view of an optional value.
pub open spec fn view_opt<T: View>(o: Option<T>) -> Option<T::V> {
    match o {
        Some(x) => Some(x@),
        None => None,
    }
}

impl View for PackageSource {
    type V = PackageView;

    open spec fn view(&self) -> PackageView {
        PackageView {
            id: view_opt(self.id),
            install_command: view_opt(self.install_command),
            uninstall_command: view_opt(self.uninstall_command),
        }
    }
}

impl View for DirectSource {
    type V = DirectView;

    open spec fn view(&self) -> DirectView {
        DirectView {
            url: view_opt(self.url),
            file_type: view_opt(self.file_type),
            silent_args: view_opt(self.silent_args),
            checksum: view_opt(self.checksum),
        }
    }
}

impl View for WindowsPlatform {
    type V = WindowsView;

    open spec fn view(&self) -> WindowsView {
        WindowsView {
            default_manager: view_opt(self.default_manager),
            winget: view_opt(self.winget),
            chocolatey: view_opt(self.chocolatey),
            scoop: view_opt(self.scoop),
            direct: view_opt(self.direct),
        }
    }
}

impl View for LinuxPlatform {
    type V = LinuxView;

    open spec fn view(&self) -> LinuxView {
        LinuxView {
            default_manager: view_opt(self.default_manager),
            flatpak: view_opt(self.flatpak),
            snap: view_opt(self.snap),
            apt: view_opt(self.apt),
            dnf: view_opt(self.dnf),
            pacman: view_opt(self.pacman),
            direct: view_opt(self.direct),
        }
    }
}

impl View for PlatformData {
    type V = PlatformView;

    open spec fn view(&self) -> PlatformView {
        PlatformView { windows: view_opt(self.windows), linux: view_opt(self.linux) }
    }
}

/// The package id of an optional package source, if both are present.
pub open spec fn source_id(s: Option<PackageSource>) -> Option<Seq<char>> {
    match s {
        Some(p) => match p.id {
            Some(id) => Some(id@),
            None => None,
        },
        None => None,
    }
}

/// The package id of an optional package source, if both are present.
pub fn package_id(s: &Option<PackageSource>) -> (r: Option<&String>)
    ensures
        match r {
            Some(x) => source_id(*s) == Some(x@),
            None => source_id(*s) is None,
        },
{
    match s {
        Some(p) => match &p.id {
            Some(id) => Some(id),
            None => None,
        },
        None => None,
    }
}

} // verus!
