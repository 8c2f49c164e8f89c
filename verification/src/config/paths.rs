//! Fixed paths, identifiers and the locations derived from the user's
//! configuration root.
use vstd::prelude::*;

use crate::text::{join_path, path_join};

verus! {

/// D-Bus / desktop application identifier.
pub const APP_ID: &'static str = "br.com.biglinux.microphone";
/// Gettext translation domain.
pub const GETTEXT_PACKAGE: &'static str = "biglinux-microphone";
/// System LADSPA plugin directory.
pub const LADSPA_DIR_PATH: &'static str = "/usr/lib/ladspa";
/// Data shipped by the package (the illustrations of the didactic cards).
pub const APP_DATA_DIR: &'static str = "/usr/share/biglinux-microphone";
/// Version of this package.
pub const APP_VERSION: &'static str = "0.1.0";
/// Centre frequencies of the ten equalizer bands, in Hz.
pub const EQ_BANDS_HZ: [u32; 10] = [31, 63, 125, 250, 500, 1000, 2000, 4000, 8000, 16000];

/// The application's configuration directory under the configuration root.
pub fn config_dir(root: &str) -> (r: String)
    ensures
        r@ == path_join(root@, "biglinux-microphone"@),
{
    join_path(root, "biglinux-microphone")
}

/// `settings.json` inside the application's configuration directory.
pub fn settings_file(root: &str) -> (r: String)
    ensures
        r@ == path_join(path_join(root@, "biglinux-microphone"@), "settings.json"@),
{
    let dir = config_dir(root);
    join_path(dir.as_str(), "settings.json")
}

/// System LADSPA directory.
pub fn ladspa_dir() -> (r: &'static str)
    ensures
        r@ == LADSPA_DIR_PATH@,
{
    LADSPA_DIR_PATH
}

/// The GTCRN LADSPA plugin.
pub fn gtcrn_plugin() -> (r: String)
    ensures
        r@ == path_join(LADSPA_DIR_PATH@, "libgtcrn_ladspa.so"@),
{
    join_path(ladspa_dir(), "libgtcrn_ladspa.so")
}

/// The DeepFilterNet3 LADSPA plugin, shipped by an optional package.
pub fn deepfilter_plugin() -> (r: String)
    ensures
        r@ == path_join(LADSPA_DIR_PATH@, "libdeep_filter_ladspa.so"@),
{
    join_path(ladspa_dir(), "libdeep_filter_ladspa.so")
}

/// Package version.
pub fn app_version() -> (r: &'static str)
    ensures
        r@ == APP_VERSION@,
{
    APP_VERSION
}

/// Application id.
pub fn app_id() -> (r: &'static str)
    ensures
        r@ == APP_ID@,
{
    APP_ID
}

/// Gettext domain name.
pub fn gettext_package() -> (r: &'static str)
    ensures
        r@ == GETTEXT_PACKAGE@,
{
    GETTEXT_PACKAGE
}

} // verus!
