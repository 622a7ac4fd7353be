use linicon_theme::get_icon_theme;
use linicon_theme::get_icon_theme_order;
use linicon_theme::probe::Probe;
use linicon_theme::requests::Request;
use linicon_theme::Check;

const GSETTINGS: &str = "gsettings get org.gnome.desktop.interface icon-theme";

/// What is out there: files by path, commands by command line.
struct World {
    files: Vec<(&'static str, &'static [u8])>,
    commands: Vec<(&'static str, &'static [u8])>,
    asked: Vec<String>,
}

impl World {
    fn new(files: &[(&'static str, &'static [u8])], commands: &[(&'static str, &'static [u8])]) -> World {
        World { files: files.to_vec(), commands: commands.to_vec(), asked: Vec::new() }
    }

    fn empty() -> World {
        World::new(&[], &[])
    }

    fn answer(&mut self, request: &Request) -> Option<Vec<u8>> {
        let (key, table) = match request {
            Request::ReadFile(path) => (String::from_utf8(path.clone()).unwrap(), &self.files),
            Request::Run { program, args } => (format!("{} {}", program, args.join(" ")), &self.commands),
        };
        let reply = table.iter().find(|(name, _)| *name == key).map(|(_, bytes)| bytes.to_vec());
        self.asked.push(key);
        reply
    }

    fn run(&mut self, mut probe: Probe) -> (Option<String>, usize) {
        while let Some(request) = probe.pending() {
            let reply = self.answer(&request);
            probe.resume(reply);
        }
        assert!(probe.is_finished());
        let attempts = probe.attempts();
        (probe.into_theme(), attempts)
    }
}

fn home() -> Option<Vec<u8>> {
    Some(b"/home/u".to_vec())
}

fn name(text: &str) -> Option<String> {
    Some(text.to_owned())
}

const ALL: [Check; 5] = [Check::KDEGlobals, Check::GSettings, Check::GTK3, Check::GTK2, Check::ThemeConf];

#[test]
fn empty_order_finds_nothing_and_asks_nothing() {
    let mut world = World::new(&[("/home/u/.config/kdeglobals", b"[Icons]\nTheme=Breeze\n")], &[]);
    let probe = get_icon_theme_order(&[], home(), None);
    assert!(probe.is_finished());
    assert_eq!(probe.pending(), None);
    assert_eq!(world.run(probe), (None, 0));
    assert!(world.asked.is_empty());
}

#[test]
fn empty_order_without_home_finds_nothing() {
    let mut world = World::empty();
    assert_eq!(world.run(get_icon_theme_order(&[], None, None)), (None, 0));
    assert!(world.asked.is_empty());
}

#[test]
fn without_home_no_source_is_tried() {
    let mut world = World::new(&[("/.config/kdeglobals", b"[Icons]\nTheme=Breeze\n")], &[(GSETTINGS, b"'Adwaita'\n")]);
    let probe = get_icon_theme(None, Some(b"/custom".to_vec()));
    assert!(probe.is_finished());
    assert_eq!(probe.pending(), None);
    assert_eq!(world.run(probe), (None, 0));
    assert!(world.asked.is_empty());
}

#[test]
fn with_everything_absent_nothing_is_found() {
    let mut world = World::empty();
    assert_eq!(world.run(get_icon_theme(home(), None)), (None, 5));
    let orders: [&[Check]; 4] = [
        &[Check::GTK2],
        &[Check::ThemeConf, Check::KDEGlobals],
        &[Check::GSettings, Check::GSettings, Check::GTK3],
        &[Check::ThemeConf, Check::GTK2, Check::GTK3, Check::GSettings, Check::KDEGlobals],
    ];
    for order in orders {
        let mut world = World::empty();
        assert_eq!(world.run(get_icon_theme_order(order, home(), None)), (None, order.len()));
    }
}

#[test]
fn default_order_is_kde_gsettings_gtk3_gtk2_theme_conf() {
    let mut world = World::empty();
    world.run(get_icon_theme(home(), None));
    assert_eq!(
        world.asked,
        vec![
            "/home/u/.config/kdeglobals".to_owned(),
            GSETTINGS.to_owned(),
            "/home/u/.config/gtk-3.0/settings.ini".to_owned(),
            "/home/u/.gtkrc-2.0".to_owned(),
            "/home/u/.config/theme.conf".to_owned(),
        ]
    );
}

#[test]
fn kde_globals_decide_first() {
    let mut world = World::new(
        &[
            ("/home/u/.config/kdeglobals", b"[Icons]\nTheme=Breeze\n"),
            ("/home/u/.config/gtk-3.0/settings.ini", b"[Settings]\ngtk-icon-theme-name=Papirus\n"),
        ],
        &[(GSETTINGS, b"'Adwaita'\n")],
    );
    assert_eq!(world.run(get_icon_theme(home(), None)), (name("Breeze"), 1));
    assert_eq!(world.asked, vec!["/home/u/.config/kdeglobals".to_owned()]);
}

#[test]
fn gtk3_decides_where_kde_and_gsettings_fail() {
    let mut world = World::new(
        &[("/home/u/.config/gtk-3.0/settings.ini", b"[Settings]\ngtk-icon-theme-name=Papirus")],
        &[],
    );
    assert_eq!(world.run(get_icon_theme(home(), None)), (name("Papirus"), 3));
    assert_eq!(
        world.asked,
        vec![
            "/home/u/.config/kdeglobals".to_owned(),
            GSETTINGS.to_owned(),
            "/home/u/.config/gtk-3.0/settings.ini".to_owned(),
        ]
    );
}

#[test]
fn with_all_five_failing_nothing_is_found() {
    let mut world = World::new(
        &[
            ("/home/u/.config/kdeglobals", b"[General]\nName=x\n"),
            ("/home/u/.config/gtk-3.0/settings.ini", b"[Settings]\ngtk-theme-name=Adwaita\n"),
            ("/home/u/.gtkrc-2.0", b"gtk-theme-name=\"Adwaita\"\n"),
            ("/home/u/.config/theme.conf", b"[Settings\n"),
        ],
        &[(GSETTINGS, b"")],
    );
    assert_eq!(world.run(get_icon_theme(home(), None)), (None, 5));
    assert_eq!(world.asked.len(), 5);
}

#[test]
fn override_moves_the_config_files() {
    let mut world = World::new(
        &[
            ("/custom/kdeglobals", b"[Icons]\nTheme=Oxygen\n"),
            ("/home/u/.config/kdeglobals", b"[Icons]\nTheme=Breeze\n"),
        ],
        &[],
    );
    assert_eq!(world.run(get_icon_theme(home(), Some(b"/custom".to_vec()))), (name("Oxygen"), 1));
    assert_eq!(world.asked, vec!["/custom/kdeglobals".to_owned()]);
}

#[test]
fn first_success_wins_and_later_sources_are_not_asked() {
    let files: [(&'static str, &'static [u8]); 4] = [
        ("/home/u/.config/kdeglobals", b"[Icons]\nTheme=Breeze\n"),
        ("/home/u/.config/gtk-3.0/settings.ini", b"[Settings]\ngtk-icon-theme-name=Papirus\n"),
        ("/home/u/.gtkrc-2.0", b"gtk-icon-theme-name=\"Faenza\"\n"),
        ("/home/u/.config/theme.conf", b"[Settings]\nicon-theme-name=Numix\n"),
    ];
    let commands: [(&'static str, &'static [u8]); 1] = [(GSETTINGS, b"'Adwaita'\n")];
    let expected = ["Breeze", "Adwaita", "Papirus", "Faenza", "Numix"];
    for hit in 0..5 {
        // Sources before `hit` hold nothing; `hit` and those behind it hold a theme.
        let kept_files: Vec<_> = files
            .iter()
            .filter(|(path, _)| ALL.iter().position(|c| file_of(*c) == Some(*path)).unwrap() >= hit)
            .cloned()
            .collect();
        let kept_commands = if hit <= 1 { commands.to_vec() } else { Vec::new() };
        let mut world = World::new(&kept_files, &kept_commands);
        assert_eq!(world.run(get_icon_theme(home(), None)), (name(expected[hit]), hit + 1));
        assert_eq!(world.asked.len(), hit + 1);

        let mut alone = World::new(&kept_files, &kept_commands);
        assert_eq!(alone.run(get_icon_theme_order(&[ALL[hit]], home(), None)), (name(expected[hit]), 1));
    }
}

fn file_of(check: Check) -> Option<&'static str> {
    match check {
        Check::KDEGlobals => Some("/home/u/.config/kdeglobals"),
        Check::GSettings => None,
        Check::GTK3 => Some("/home/u/.config/gtk-3.0/settings.ini"),
        Check::GTK2 => Some("/home/u/.gtkrc-2.0"),
        Check::ThemeConf => Some("/home/u/.config/theme.conf"),
    }
}

#[test]
fn order_is_the_callers() {
    let mut world = World::new(
        &[
            ("/home/u/.config/kdeglobals", b"[Icons]\nTheme=Breeze\n"),
            ("/home/u/.config/theme.conf", b"[Settings]\nicon-theme-name=Numix\n"),
        ],
        &[(GSETTINGS, b"'Adwaita'\n")],
    );
    let order = [Check::GTK2, Check::ThemeConf, Check::KDEGlobals, Check::GSettings];
    assert_eq!(world.run(get_icon_theme_order(&order, home(), None)), (name("Numix"), 2));
    assert_eq!(world.asked, vec!["/home/u/.gtkrc-2.0".to_owned(), "/home/u/.config/theme.conf".to_owned()]);
}

#[test]
fn only_gsettings() {
    let mut world = World::new(&[("/home/u/.config/kdeglobals", b"[Icons]\nTheme=Breeze\n")], &[(GSETTINGS, b"'Adwaita'\n")]);
    assert_eq!(world.run(get_icon_theme_order(&[Check::GSettings], home(), None)), (name("Adwaita"), 1));
    assert_eq!(world.asked, vec![GSETTINGS.to_owned()]);
}

#[test]
fn a_source_left_out_is_never_asked() {
    let mut world = World::new(&[("/home/u/.config/kdeglobals", b"[Icons]\nTheme=Breeze\n")], &[]);
    let order = [Check::GSettings, Check::GTK3, Check::GTK2, Check::ThemeConf];
    assert_eq!(world.run(get_icon_theme_order(&order, home(), None)), (None, 4));
    assert!(!world.asked.contains(&"/home/u/.config/kdeglobals".to_owned()));
}

#[test]
fn a_repeated_source_is_tried_again() {
    let mut world = World::empty();
    let order = [Check::GTK2, Check::GTK2, Check::GTK2];
    assert_eq!(world.run(get_icon_theme_order(&order, home(), None)), (None, 3));
    assert_eq!(world.asked, vec!["/home/u/.gtkrc-2.0".to_owned(); 3]);
}

#[test]
fn a_repeated_source_may_succeed_later() {
    let order = [Check::GTK2, Check::GTK2];
    let mut probe = get_icon_theme_order(&order, home(), None);
    assert_eq!(probe.pending(), Some(Request::ReadFile(b"/home/u/.gtkrc-2.0".to_vec())));
    probe.resume(None);
    assert_eq!(probe.attempts(), 1);
    assert!(!probe.is_finished());
    assert_eq!(probe.pending(), Some(Request::ReadFile(b"/home/u/.gtkrc-2.0".to_vec())));
    probe.resume(Some(b"gtk-icon-theme-name=\"Faenza\"\n".to_vec()));
    assert!(probe.is_finished());
    assert_eq!(probe.attempts(), 2);
    assert_eq!(probe.into_theme(), name("Faenza"));
}

#[test]
fn a_finished_probe_ignores_replies() {
    let mut probe = get_icon_theme_order(&[Check::GSettings, Check::GTK2], home(), None);
    probe.resume(Some(b"'Adwaita'\n".to_vec()));
    assert!(probe.is_finished());
    assert_eq!(probe.pending(), None);
    probe.resume(Some(b"'Other'\n".to_vec()));
    probe.resume(None);
    assert_eq!(probe.attempts(), 1);
    assert_eq!(probe.into_theme(), name("Adwaita"));

    let mut none = get_icon_theme_order(&[Check::GSettings], None, None);
    none.resume(Some(b"'Adwaita'\n".to_vec()));
    assert_eq!(none.attempts(), 0);
    assert_eq!(none.into_theme(), None);
}

#[test]
fn an_empty_theme_is_found() {
    let mut world = World::new(
        &[("/home/u/.config/kdeglobals", b"[Icons]\nTheme=\n")],
        &[(GSETTINGS, b"'Adwaita'\n")],
    );
    assert_eq!(world.run(get_icon_theme(home(), None)), (name(""), 1));
}

#[test]
fn a_probe_can_be_repeated() {
    let files: [(&'static str, &'static [u8]); 2] = [
        ("/home/u/.config/kdeglobals", b"[General]\n"),
        ("/home/u/.gtkrc-2.0", b"gtk-icon-theme-name=\"Faenza\"\n"),
    ];
    let mut world = World::new(&files, &[(GSETTINGS, b"\xff")]);
    let first = world.run(get_icon_theme(home(), None));
    let asked = world.asked.clone();
    world.asked.clear();
    let second = world.run(get_icon_theme(home(), None));
    assert_eq!(first, (name("Faenza"), 4));
    assert_eq!(second, first);
    assert_eq!(world.asked, asked);
    let in_order = world.run(get_icon_theme_order(&ALL, home(), None));
    assert_eq!(in_order, first);
}

#[test]
fn a_probe_takes_one_reply_per_source() {
    let mut probe = get_icon_theme(Some(b"/h".to_vec()), None);
    assert_eq!(probe.attempts(), 0);
    assert_eq!(probe.pending(), Some(Request::ReadFile(b"/h/.config/kdeglobals".to_vec())));
    assert_eq!(probe.pending(), Some(Request::ReadFile(b"/h/.config/kdeglobals".to_vec())));
    probe.resume(Some(b"not an entry".to_vec()));
    assert_eq!(probe.attempts(), 1);
    probe.resume(Some(b"\xff".to_vec()));
    assert_eq!(probe.attempts(), 2);
    assert_eq!(probe.pending(), Some(Request::ReadFile(b"/h/.config/gtk-3.0/settings.ini".to_vec())));
    probe.resume(None);
    probe.resume(None);
    assert_eq!(probe.pending(), Some(Request::ReadFile(b"/h/.config/theme.conf".to_vec())));
    assert!(!probe.is_finished());
    probe.resume(Some(b"[Settings]\nicon-theme-name=Numix\n".to_vec()));
    assert!(probe.is_finished());
    assert_eq!(probe.attempts(), 5);
    assert_eq!(probe.into_theme(), name("Numix"));
}
