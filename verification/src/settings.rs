//! Store settings: the values a fresh installation starts with.

use vstd::prelude::*;
use crate::catalog::text;

verus! {

/// The keys of the default settings, in the order they are seeded.
pub open spec fn default_setting_keys() -> Seq<Seq<char>> {
    seq!["theme"@, "accent_color"@, "language"@, "github_repo"@, "download_location"@,
        "concurrent_downloads"@, "auto_update"@, "auto_launch_after_install"@, "desktop_shortcut"@,
        "notifications"@]
}

/// The values of the default settings, in the order of their keys.
pub open spec fn default_setting_values() -> Seq<Seq<char>> {
    seq!["dark"@, "#FF6A00"@, "en"@, "agneax/store-repo"@, ""@, "3"@, "true"@, "false"@, "true"@,
        "true"@]
}

/// The settings written into an empty settings table, as (key, value) pairs.
pub fn default_settings() -> (r: Vec<(String, String)>)
    ensures
        r@.len() == 10,
        forall|i: int| 0 <= i < 10 ==> {
            &&& (#[trigger] r@[i]).0@ == default_setting_keys()[i]
            &&& r@[i].1@ == default_setting_values()[i]
        },
{
    vec![
        (text("theme"), text("dark")),
        (text("accent_color"), text("#FF6A00")),
        (text("language"), text("en")),
        (text("github_repo"), text("agneax/store-repo")),
        (text("download_location"), text("")),
        (text("concurrent_downloads"), text("3")),
        (text("auto_update"), text("true")),
        (text("auto_launch_after_install"), text("false")),
        (text("desktop_shortcut"), text("true")),
        (text("notifications"), text("true")),
    ]
}

/// Whether the default settings are to be seeded: the settings table holds no row.
pub fn needs_default_settings(settings_count: i64) -> (r: bool)
    ensures
        r == (settings_count == 0),
{
    settings_count == 0
}

} // verus!
