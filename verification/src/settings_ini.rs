//! The GTK settings files and `theme.conf`, INI files read with `ini`.
use vstd::prelude::*;
use vstd::slice::slice_subrange;
use crate::opt_view;
use crate::value_at;
use ini::Ini;

verus! {

/// `ini::Ini`, a parsed INI file. Nothing of its inside is known here;
/// [`ini_values`] names what can be looked up in it.
#[verifier::external_type_specification]
#[verifier::external_body]
pub struct ExIni(ini::Ini);

/// `ini::Error`, the reason why bytes were rejected.
#[verifier::external_type_specification]
#[verifier::external_body]
pub struct ExIniError(ini::Error);

/// What a parsed INI file holds: by section name and key, the value that a
/// lookup finds, which is the first value of the key in the first section of
/// that name. The keys above the first section header have no section name.
pub uninterp spec fn ini_values(ini: Ini) -> Map<(Option<Seq<char>>, Seq<char>), Seq<char>>;

/// What `Ini::read_from` makes of bytes: nothing where it rejects them (they
/// are not UTF-8, or not an INI file), the values of the parsed file otherwise.
pub uninterp spec fn parsed_ini(bytes: Seq<u8>) -> Option<Map<(Option<Seq<char>>, Seq<char>), Seq<char>>>;

/// Calls `Ini::read_from` with the bytes as the reader. Assumed: whether the
/// bytes are accepted, and the values of the file that comes back, depend on
/// the bytes alone.
#[verifier::external_body]
fn read_ini(bytes: &[u8]) -> (parsed: Result<Ini, ini::Error>)
    ensures
        match parsed {
            Ok(ini) => parsed_ini(bytes@) == Some(ini_values(ini)),
            Err(_) => parsed_ini(bytes@) is None,
        },
{
    let mut reader = bytes;
    Ini::read_from(&mut reader)
}

/// Calls `Ini::get_from`. Assumed: the lookup returns the value that the file
/// holds for this section and key, and nothing where it holds none.
#[verifier::external_body]
fn ini_get_from<'a>(ini: &'a Ini, section: Option<&str>, key: &str) -> (value: Option<&'a str>)
    ensures
        match value {
            Some(text) => ini_values(*ini).contains_key((opt_view(section), key@))
                && ini_values(*ini)[(opt_view(section), key@)] == text@,
            None => !ini_values(*ini).contains_key((opt_view(section), key@)),
        },
{
    ini.get_from(section, key)
}

/// Whether the bytes begin with the UTF-8 byte-order mark.
pub open spec fn has_bom(bytes: Seq<u8>) -> bool {
    bytes.len() >= 3 && bytes[0] == 0xEF && bytes[1] == 0xBB && bytes[2] == 0xBF
}

/// The bytes after a leading byte-order mark, all of them where there is none.
pub open spec fn without_bom(bytes: Seq<u8>) -> Seq<u8> {
    if has_bom(bytes) {
        bytes.skip(3)
    } else {
        bytes
    }
}

/// Skips a leading UTF-8 byte-order mark, as `ini` does when it loads a file.
pub fn skip_bom(bytes: &[u8]) -> (rest: &[u8])
    ensures
        rest@ == without_bom(bytes@),
{
    if bytes.len() >= 3 && bytes[0] == 0xEF && bytes[1] == 0xBB && bytes[2] == 0xBF {
        slice_subrange(bytes, 3, bytes.len())
    } else {
        bytes
    }
}

/// The value that the contents of an INI file give to `key` in `section`:
/// nothing where the file does not parse or has no such key.
pub open spec fn ini_setting(contents: Seq<u8>, section: Option<Seq<char>>, key: Seq<char>) -> Option<
    Seq<char>,
> {
    match parsed_ini(without_bom(contents)) {
        Some(values) => value_at(values, (section, key)),
        None => None,
    }
}

/// The icon theme that the contents of `gtk-3.0/settings.ini` name.
pub open spec fn gtk3_theme(contents: Seq<u8>) -> Option<Seq<char>> {
    ini_setting(contents, Some("Settings"@), "gtk-icon-theme-name"@)
}

/// The icon theme that the contents of `.gtkrc-2.0` name. The file has no
/// section header.
pub open spec fn gtk2_theme(contents: Seq<u8>) -> Option<Seq<char>> {
    ini_setting(contents, None, "gtk-icon-theme-name"@)
}

/// The icon theme that the contents of `theme.conf` name.
pub open spec fn theme_conf_theme(contents: Seq<u8>) -> Option<Seq<char>> {
    ini_setting(contents, Some("Settings"@), "icon-theme-name"@)
}

/// Looks up a key of a parsed INI file.
pub fn setting_in(ini: &Ini, section: Option<&str>, key: &str) -> (value: Option<String>)
    ensures
        opt_view(value) == value_at(ini_values(*ini), (opt_view(section), key@)),
{
    match ini_get_from(ini, section, key) {
        Some(text) => Some(text.to_owned()),
        None => None,
    }
}

/// Reads a key from the contents of an INI file.
pub fn setting(contents: &[u8], section: Option<&str>, key: &str) -> (value: Option<String>)
    ensures
        opt_view(value) == ini_setting(contents@, opt_view(section), key@),
{
    match read_ini(skip_bom(contents)) {
        Ok(ini) => setting_in(&ini, section, key),
        Err(_) => None,
    }
}

/// Reads the icon theme from the contents of `gtk-3.0/settings.ini`.
pub fn gtk3(contents: &[u8]) -> (theme: Option<String>)
    ensures
        opt_view(theme) == gtk3_theme(contents@),
{
    setting(contents, Some("Settings"), "gtk-icon-theme-name")
}

/// Reads the icon theme from the contents of `.gtkrc-2.0`.
pub fn gtk2(contents: &[u8]) -> (theme: Option<String>)
    ensures
        opt_view(theme) == gtk2_theme(contents@),
{
    setting(contents, None, "gtk-icon-theme-name")
}

/// Reads the icon theme from the contents of `theme.conf`.
pub fn theme_conf(contents: &[u8]) -> (theme: Option<String>)
    ensures
        opt_view(theme) == theme_conf_theme(contents@),
{
    setting(contents, Some("Settings"), "icon-theme-name")
}

} // verus!
