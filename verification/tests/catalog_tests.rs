use agneax_store::catalog::{bundled_apps, contents_url, index_url, is_app_file_entry, needs_bundled_catalog, repo_or_default, sync_after_contents, sync_after_index, sync_start, SyncStep};
use agneax_store::platform::package_id;
use agneax_store::settings::{default_settings, needs_default_settings};

#[test]
fn bundled_catalog_has_ten_apps() {
    let apps = bundled_apps();
    let ids: Vec<&str> = apps.iter().map(|a| a.id.as_str()).collect();
    assert_eq!(ids, vec!["vscode", "brave", "gimp", "obs", "blender", "discord", "vlc", "spotify", "docker", "python"]);
    for a in &apps {
        assert!(a.platform_data.windows.is_some());
        assert!(a.platform_data.linux.is_some());
        assert!(!a.name.is_empty());
    }
}

#[test]
fn bundled_catalog_package_ids() {
    let apps = bundled_apps();
    let vscode = &apps[0];
    assert_eq!(vscode.name, "Visual Studio Code");
    assert_eq!(vscode.version, "1.91.0");
    let w = vscode.platform_data.windows.as_ref().unwrap();
    assert_eq!(w.default_manager.as_deref(), Some("winget"));
    assert_eq!(package_id(&w.winget).map(|s| s.as_str()), Some("Microsoft.VisualStudioCode"));
    assert_eq!(package_id(&w.chocolatey).map(|s| s.as_str()), Some("vscode"));
    assert!(package_id(&w.scoop).is_none());
    let d = w.direct.as_ref().unwrap();
    assert_eq!(d.url.as_deref(), Some("https://update.code.visualstudio.com/latest/win32-x64-user/stable"));
    assert_eq!(d.silent_args.as_deref(), Some("/verysilent /mergetasks=!runcode"));
    let l = vscode.platform_data.linux.as_ref().unwrap();
    assert_eq!(package_id(&l.flatpak).map(|s| s.as_str()), Some("com.visualstudio.code"));
    let docker = &apps[8];
    let l = docker.platform_data.linux.as_ref().unwrap();
    assert_eq!(l.default_manager.as_deref(), Some("apt"));
    assert_eq!(package_id(&l.apt).map(|s| s.as_str()), Some("docker-desktop"));
    assert_eq!(docker.min_os.len(), 2);
    assert_eq!(apps[6].min_os[1], ("linux".to_string(), "Ubuntu 18.04".to_string()));
}

#[test]
fn sync_urls() {
    assert_eq!(index_url("agneax/store-repo"), "https://raw.githubusercontent.com/agneax/store-repo/main/apps.json");
    assert_eq!(contents_url("me/apps"), "https://api.github.com/repos/me/apps/contents/apps");
    assert_eq!(repo_or_default(None), "agneax/store-repo");
    assert_eq!(repo_or_default(Some("x/y".to_string())), "x/y");
}

#[test]
fn app_file_entries() {
    assert!(is_app_file_entry("file", "vscode.json"));
    assert!(!is_app_file_entry("dir", "vscode.json"));
    assert!(!is_app_file_entry("file", "README.md"));
    assert!(needs_bundled_catalog(0));
    assert!(!needs_bundled_catalog(3));
}

#[test]
fn default_settings_seeded_when_empty() {
    let s = default_settings();
    assert_eq!(s.len(), 10);
    assert_eq!(s[0], ("theme".to_string(), "dark".to_string()));
    assert_eq!(s[1], ("accent_color".to_string(), "#FF6A00".to_string()));
    assert_eq!(s[3], ("github_repo".to_string(), "agneax/store-repo".to_string()));
    assert_eq!(s[4], ("download_location".to_string(), "".to_string()));
    assert_eq!(s[9], ("notifications".to_string(), "true".to_string()));
    assert!(needs_default_settings(0));
    assert!(!needs_default_settings(10));
}

#[test]
fn bundled_catalog_every_default_manager_has_a_package() {
    let apps = bundled_apps();
    for (i, a) in apps.iter().enumerate() {
        for b in &apps[i + 1..] {
            assert_ne!(a.id, b.id);
        }
        let w = a.platform_data.windows.as_ref().unwrap();
        let src = match w.default_manager.as_deref() {
            Some("winget") => &w.winget,
            Some("chocolatey") => &w.chocolatey,
            Some("scoop") => &w.scoop,
            _ => panic!("no Windows package manager"),
        };
        assert!(package_id(src).is_some());
        if let Some(d) = &w.direct {
            assert!(d.url.is_some());
        }
        let l = a.platform_data.linux.as_ref().unwrap();
        let src = match l.default_manager.as_deref() {
            Some("flatpak") => &l.flatpak,
            Some("snap") => &l.snap,
            Some("apt") => &l.apt,
            Some("dnf") => &l.dnf,
            Some("pacman") => &l.pacman,
            _ => panic!("no Linux package manager"),
        };
        assert!(package_id(src).is_some());
        if let Some(d) = &l.direct {
            assert!(d.url.is_some());
        }
    }
    let d = apps[0].platform_data.windows.as_ref().unwrap().direct.as_ref().unwrap();
    assert_eq!(d.file_type.as_deref(), Some("exe"));
    assert_eq!(d.checksum.as_deref(), Some(""));
}

#[test]
fn sync_order() {
    match sync_start("me/apps") {
        SyncStep::FetchIndex(u) => assert_eq!(u, "https://raw.githubusercontent.com/me/apps/main/apps.json"),
        _ => panic!("expected the index first"),
    }
    assert!(matches!(sync_after_index("me/apps", Some(4)), SyncStep::StoreFetched));
    assert!(matches!(sync_after_index("me/apps", Some(0)), SyncStep::StoreBundled));
    match sync_after_index("me/apps", None) {
        SyncStep::FetchContents(u) => assert_eq!(u, "https://api.github.com/repos/me/apps/contents/apps"),
        _ => panic!("expected the directory listing"),
    }
    assert!(matches!(sync_after_contents(0), SyncStep::StoreBundled));
    assert!(matches!(sync_after_contents(2), SyncStep::StoreFetched));
}
