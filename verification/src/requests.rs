//! What each source needs from outside: a file of the user, or the output of a
//! command.
use vstd::prelude::*;
use vstd::slice::slice_to_vec;
use vstd::string::StringSliceAdditionalSpecFns;
use crate::opt_view;
use crate::Check;

verus! {

/// Work that the caller does for a probe: the library reads no file and runs
/// no command itself.
#[derive(Debug, PartialEq, Eq)]
pub enum Request {
    /// Read the whole file at this path. The path is given as the bytes of a
    /// Unix path.
    ReadFile(Vec<u8>),
    /// Run the program with these arguments and collect what it writes to its
    /// standard output.
    Run { program: String, args: Vec<String> },
}

/// A request as a plain value.
pub enum RequestView {
    ReadFile(Seq<u8>),
    Run { program: Seq<char>, args: Seq<Seq<char>> },
}

impl View for Request {
    type V = RequestView;

    open spec fn view(&self) -> RequestView {
        match self {
            Request::ReadFile(path) => RequestView::ReadFile(path@),
            Request::Run { program, args } => RequestView::Run {
                program: program@,
                args: args.deep_view(),
            },
        }
    }
}

/// The directory that holds the user's configuration files: the override
/// where one is set and not empty, `<home>/.config` otherwise.
pub open spec fn config_root(home: Seq<u8>, config_home: Option<Seq<u8>>) -> Seq<u8> {
    match config_home {
        Some(dir) if dir.len() > 0 => dir,
        _ => home + "/.config".spec_bytes(),
    }
}

/// The command that asks GNOME's settings for the icon theme.
pub open spec fn gsettings_command() -> RequestView {
    RequestView::Run {
        program: "gsettings"@,
        args: seq!["get"@, "org.gnome.desktop.interface"@, "icon-theme"@],
    }
}

/// What a source asks for, given the home directory and the value of
/// `XDG_CONFIG_HOME` if it is set. Only `.gtkrc-2.0` lies in the home directory
/// itself; the other files lie in the configuration directory.
pub open spec fn request_of(check: Check, home: Seq<u8>, config_home: Option<Seq<u8>>) -> RequestView {
    match check {
        Check::KDEGlobals => RequestView::ReadFile(
            config_root(home, config_home) + "/kdeglobals".spec_bytes(),
        ),
        Check::GSettings => gsettings_command(),
        Check::GTK3 => RequestView::ReadFile(
            config_root(home, config_home) + "/gtk-3.0/settings.ini".spec_bytes(),
        ),
        Check::GTK2 => RequestView::ReadFile(home + "/.gtkrc-2.0".spec_bytes()),
        Check::ThemeConf => RequestView::ReadFile(
            config_root(home, config_home) + "/theme.conf".spec_bytes(),
        ),
    }
}

/// Computes the configuration directory from the home directory and the value
/// of `XDG_CONFIG_HOME`, if the variable is set.
pub fn conf_dir(home: &[u8], config_home: Option<&[u8]>) -> (dir: Vec<u8>)
    ensures
        dir@ == config_root(home@, opt_view(config_home)),
{
    match config_home {
        Some(over) if over.len() > 0 => slice_to_vec(over),
        _ => file_in(slice_to_vec(home), "/.config"),
    }
}

/// The path of a file in a directory: the directory's path with `name`, which
/// begins with the separator, behind it.
fn file_in(dir: Vec<u8>, name: &str) -> (path: Vec<u8>)
    ensures
        path@ == dir@ + name.spec_bytes(),
{
    let mut path = dir;
    path.extend_from_slice(name.as_bytes());
    path
}

/// Builds the request of a source.
pub fn request_for(check: Check, home: &[u8], config_home: Option<&[u8]>) -> (request: Request)
    ensures
        request@ == request_of(check, home@, opt_view(config_home)),
{
    match check {
        Check::KDEGlobals => Request::ReadFile(file_in(conf_dir(home, config_home), "/kdeglobals")),
        Check::GSettings => {
            let mut args: Vec<String> = Vec::new();
            args.push("get".to_owned());
            args.push("org.gnome.desktop.interface".to_owned());
            args.push("icon-theme".to_owned());
            assert(args.deep_view() =~= seq!["get"@, "org.gnome.desktop.interface"@, "icon-theme"@]);
            Request::Run { program: "gsettings".to_owned(), args }
        },
        Check::GTK3 => Request::ReadFile(
            file_in(conf_dir(home, config_home), "/gtk-3.0/settings.ini"),
        ),
        Check::GTK2 => Request::ReadFile(file_in(slice_to_vec(home), "/.gtkrc-2.0")),
        Check::ThemeConf => Request::ReadFile(file_in(conf_dir(home, config_home), "/theme.conf")),
    }
}

} // verus!
