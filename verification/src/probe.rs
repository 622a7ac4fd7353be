//! The probe: the sources are tried in order until one names a theme.
//!
//! A probe is a small state machine. It says what to fetch for the source
//! whose turn it is, takes the reply, and either has found the theme or turns
//! to the next source. A source that fails in any way only passes the turn on.
use vstd::prelude::*;
use vstd::slice::slice_to_vec;
use crate::desktop_entry::kde;
use crate::desktop_entry::kde_theme;
use crate::gsettings::gsettings;
use crate::gsettings::gsettings_theme;
use crate::requests::request_for;
use crate::requests::request_of;
use crate::requests::Request;
use crate::requests::RequestView;
use crate::settings_ini::gtk2;
use crate::settings_ini::gtk2_theme;
use crate::settings_ini::gtk3;
use crate::settings_ini::gtk3_theme;
use crate::settings_ini::theme_conf;
use crate::settings_ini::theme_conf_theme;
use crate::opt_view;
use crate::Check;

verus! {

/// The theme that a source yields for a reply. The reply is the contents of
/// the file or the output of the command that the source asked for, and is
/// missing where the file could not be read or the command could not be run.
pub open spec fn theme_of(check: Check, reply: Option<Seq<u8>>) -> Option<Seq<char>> {
    match reply {
        None => None,
        Some(bytes) => match check {
            Check::KDEGlobals => kde_theme(bytes),
            Check::GSettings => gsettings_theme(bytes),
            Check::GTK3 => gtk3_theme(bytes),
            Check::GTK2 => gtk2_theme(bytes),
            Check::ThemeConf => theme_conf_theme(bytes),
        },
    }
}

/// What a source yields where each request is answered by `world`: the theme
/// read from the reply to the request of the source.
pub open spec fn yield_of(
    check: Check,
    home: Seq<u8>,
    config_home: Option<Seq<u8>>,
    world: spec_fn(RequestView) -> Option<Seq<u8>>,
) -> Option<Seq<char>> {
    theme_of(check, world(request_of(check, home, config_home)))
}

/// Reads the theme from the reply to the request of a source.
pub fn read_reply(check: Check, reply: Option<Vec<u8>>) -> (theme: Option<String>)
    ensures
        opt_view(theme) == theme_of(check, opt_view(reply)),
{
    match reply {
        None => None,
        Some(bytes) => match check {
            Check::KDEGlobals => kde(bytes),
            Check::GSettings => gsettings(bytes.as_slice()),
            Check::GTK3 => gtk3(bytes.as_slice()),
            Check::GTK2 => gtk2(bytes.as_slice()),
            Check::ThemeConf => theme_conf(bytes.as_slice()),
        },
    }
}

/// The state of a probe as a plain value.
pub struct ProbeView {
    /// The sources, in the order in which they are tried.
    pub order: Seq<Check>,
    /// The home directory, unless it is unknown.
    pub home: Option<Seq<u8>>,
    /// The value of `XDG_CONFIG_HOME`, if the variable is set.
    pub config_home: Option<Seq<u8>>,
    /// How many sources have had their reply.
    pub answered: nat,
    /// The theme, once a source has named one.
    pub found: Option<Seq<char>>,
}

impl ProbeView {
    /// The state in which no source has been tried yet.
    pub open spec fn start(
        order: Seq<Check>,
        home: Option<Seq<u8>>,
        config_home: Option<Seq<u8>>,
    ) -> ProbeView {
        ProbeView { order, home, config_home, answered: 0, found: None }
    }

    /// No more replies have been taken than there are sources.
    pub open spec fn wf(self) -> bool {
        self.answered <= self.order.len()
    }

    /// Whether the probe is over: the home directory is unknown, a source has
    /// named a theme, or every source has had its turn.
    pub open spec fn finished(self) -> bool {
        self.home is None || self.found is Some || self.answered >= self.order.len()
    }

    /// What the probe waits for: the request of the source whose turn it is,
    /// nothing once the probe is over.
    pub open spec fn pending(self) -> Option<RequestView> {
        if self.finished() {
            None
        } else {
            Some(request_of(self.order[self.answered as int], self.home->0, self.config_home))
        }
    }

    /// The state after the reply to the pending request. A probe that is over
    /// stays as it is.
    pub open spec fn resume(self, reply: Option<Seq<u8>>) -> ProbeView {
        if self.finished() {
            self
        } else {
            ProbeView {
                answered: self.answered + 1,
                found: theme_of(self.order[self.answered as int], reply),
                ..self
            }
        }
    }

    /// The state in which the probe ends where each request is answered by
    /// `world`.
    pub open spec fn run(self, world: spec_fn(RequestView) -> Option<Seq<u8>>) -> ProbeView
        decreases self.order.len() - self.answered,
    {
        if self.finished() {
            self
        } else {
            self.resume(world(self.pending()->0)).run(world)
        }
    }
}

/// A probe for the icon theme in progress.
pub struct Probe {
    order: Vec<Check>,
    home: Option<Vec<u8>>,
    config_home: Option<Vec<u8>>,
    answered: usize,
    found: Option<String>,
}

impl View for Probe {
    type V = ProbeView;

    closed spec fn view(&self) -> ProbeView {
        ProbeView {
            order: self.order@,
            home: opt_view(self.home),
            config_home: opt_view(self.config_home),
            answered: self.answered as nat,
            found: opt_view(self.found),
        }
    }
}

impl Probe {
    #[verifier::type_invariant]
    spec fn in_range(self) -> bool {
        self.answered <= self.order@.len()
    }

    /// Starts a probe over the sources in `order`. `home` is the value of
    /// `HOME` and `config_home` that of `XDG_CONFIG_HOME`, each missing where
    /// the variable is not set.
    pub fn start(order: &[Check], home: Option<Vec<u8>>, config_home: Option<Vec<u8>>) -> (probe:
        Probe)
        ensures
            probe@ == ProbeView::start(order@, opt_view(home), opt_view(config_home)),
    {
        Probe { order: slice_to_vec(order), home, config_home, answered: 0, found: None }
    }

    /// Whether the probe is over.
    pub fn is_finished(&self) -> (done: bool)
        ensures
            done == self@.finished(),
            self@.wf(),
    {
        proof {
            use_type_invariant(self);
        }
        self.home.is_none() || self.found.is_some() || self.answered >= self.order.len()
    }

    /// The request that the caller is to carry out next, nothing once the
    /// probe is over.
    pub fn pending(&self) -> (request: Option<Request>)
        ensures
            opt_view(request) == self@.pending(),
    {
        if self.is_finished() {
            return None;
        }
        match &self.home {
            Some(home) => {
                let config_home = match &self.config_home {
                    Some(dir) => Some(dir.as_slice()),
                    None => None,
                };
                Some(request_for(self.order[self.answered], home.as_slice(), config_home))
            },
            None => None,
        }
    }

    /// Takes the reply to the pending request: the contents of the file or the
    /// output of the command, nothing where the file could not be read or the
    /// command could not be run. A probe that is over ignores the reply.
    pub fn resume(&mut self, reply: Option<Vec<u8>>)
        ensures
            final(self)@ == old(self)@.resume(opt_view(reply)),
            final(self)@.wf(),
    {
        if self.is_finished() {
            return ;
        }
        let at: usize = self.answered;
        assert(at < self.order.len());
        let theme = read_reply(self.order[at], reply);
        self.answered = at + 1;
        self.found = theme;
    }

    /// How many sources have had their reply.
    pub fn attempts(&self) -> (count: usize)
        ensures
            count == self@.answered,
    {
        self.answered
    }

    /// The theme that the probe has found, nothing where no source has named
    /// one.
    pub fn into_theme(self) -> (theme: Option<String>)
        ensures
            opt_view(theme) == self@.found,
    {
        self.found
    }
}

} // verus!
