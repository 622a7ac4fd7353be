//! Find the user's current icon theme on Linux.
//!
//! There is no single place where a Linux desktop records the icon theme, so
//! several places are consulted in a priority order: the KDE globals file, the
//! answer of `gsettings`, the GTK 3 and GTK 2 settings files, and `theme.conf`.
//!
//! This library holds the decisions and leaves reading files and running
//! commands to its caller. A [`Probe`](probe::Probe) says which file to read or
//! which command to run next, takes what came back, and either names the theme
//! or moves on to the next place:
//!
//! ```ignore
//! let mut probe = get_icon_theme(home, config_home);
//! while let Some(request) = probe.pending() {
//!     probe.resume(carry_out(&request));
//! }
//! let theme = probe.into_theme();
//! ```
//!
//! Every failure of a single place, from a missing file to a value that is no
//! text, only passes the turn on. A probe finds nothing at all where the home
//! directory is unknown or where every place has failed.
use vstd::prelude::*;
use crate::probe::Probe;
use crate::probe::ProbeView;

pub mod desktop_entry;
pub mod gsettings;
pub mod laws;
pub mod probe;
pub mod requests;
pub mod settings_ini;

verus! {

/// The places where an icon theme may be recorded.
#[derive(Clone, Copy, Debug, PartialEq, Eq, Structural)]
pub enum Check {
    /// `$XDG_CONFIG_HOME/kdeglobals` -> Icons -> Theme
    KDEGlobals,
    /// Output of `gsettings get org.gnome.desktop.interface icon-theme`
    GSettings,
    /// `$XDG_CONFIG_HOME/gtk-3.0/settings.ini` -> Settings -> gtk-icon-theme-name
    GTK3,
    /// `$HOME/.gtkrc-2.0` -> gtk-icon-theme-name
    GTK2,
    /// `$XDG_CONFIG_HOME/theme.conf` -> Settings -> icon-theme-name
    ThemeConf,
}

/// The order in which the sources are tried unless the caller chooses one.
pub open spec fn default_order() -> Seq<Check> {
    seq![Check::KDEGlobals, Check::GSettings, Check::GTK3, Check::GTK2, Check::ThemeConf]
}

/// Starts a probe for the user's icon theme over all the sources, in the
/// default order.
///
/// - `$XDG_CONFIG_HOME/kdeglobals` -> Icons -> Theme
/// - Output of `gsettings get org.gnome.desktop.interface icon-theme`
/// - `$XDG_CONFIG_HOME/gtk-3.0/settings.ini` -> Settings -> gtk-icon-theme-name
/// - `$HOME/.gtkrc-2.0` -> gtk-icon-theme-name
/// - `$XDG_CONFIG_HOME/theme.conf` -> Settings -> icon-theme-name
///
/// `home` is the value of `HOME` and `config_home` that of `XDG_CONFIG_HOME`,
/// each missing where the variable is not set.
pub fn get_icon_theme(home: Option<Vec<u8>>, config_home: Option<Vec<u8>>) -> (probe: Probe)
    ensures
        probe@ == ProbeView::start(default_order(), opt_view(home), opt_view(config_home)),
{
    let order = [Check::KDEGlobals, Check::GSettings, Check::GTK3, Check::GTK2, Check::ThemeConf];
    get_icon_theme_order(order.as_slice(), home, config_home)
}

/// The same as [`get_icon_theme`] except that the caller chooses which sources
/// are tried and in what order. A source may occur more than once, and is then
/// tried again at each occurrence.
pub fn get_icon_theme_order(
    order: &[Check],
    home: Option<Vec<u8>>,
    config_home: Option<Vec<u8>>,
) -> (probe: Probe)
    ensures
        probe@ == ProbeView::start(order@, opt_view(home), opt_view(config_home)),
{
    Probe::start(order, home, config_home)
}

/// An optional value as a plain value: the view of what is inside.
pub open spec fn opt_view<T: View>(value: Option<T>) -> Option<T::V> {
    match value {
        Some(inner) => Some(inner@),
        None => None,
    }
}

/// The value that a map holds under `key`, if it holds one.
pub open spec fn value_at<K>(values: Map<K, Seq<char>>, key: K) -> Option<Seq<char>> {
    if values.contains_key(key) {
        Some(values[key])
    } else {
        None
    }
}

} // verus!
