//! What holds of every probe, whatever the files and the command hold.
//!
//! The outside is a function from requests to replies: while nothing changes
//! out there, the same request gets the same reply.
use vstd::prelude::*;
use vstd::string::StringSliceAdditionalSpecFns;
use vstd::utf8::encode_utf8;
use crate::desktop_entry::comment_run;
use crate::desktop_entry::icons_theme;
use crate::desktop_entry::kde_theme;
use crate::desktop_entry::parsed_entry;
use crate::desktop_entry::scan_lines;
use crate::desktop_entry::LineScan;
use crate::desktop_entry::COMMENT_MARK;
use crate::desktop_entry::HEADER_CLOSE;
use crate::desktop_entry::HEADER_OPEN;
use crate::desktop_entry::LINE_FEED;
use crate::desktop_entry::MAX_COMMENT_RUN;
use crate::gsettings::gsettings_theme;
use crate::gsettings::unquoted;
use crate::probe::yield_of;
use crate::probe::ProbeView;
use crate::requests::request_of;
use crate::requests::RequestView;
use crate::Check;

verus! {

/// However a probe that has found nothing yet goes on, it ends over. What it
/// has found by then is what the last source asked has yielded, and every
/// source asked before that one has failed.
proof fn lemma_run_ends(state: ProbeView, world: spec_fn(RequestView) -> Option<Seq<u8>>)
    requires
        state.wf(),
        state.home is Some,
        state.found is None,
    ensures
        state.run(world).finished(),
        state.run(world).order == state.order,
        state.run(world).home == state.home,
        state.run(world).config_home == state.config_home,
        state.answered <= state.run(world).answered <= state.order.len(),
        state.run(world).found is None ==> state.run(world).answered == state.order.len(),
        state.run(world).found is Some ==> state.run(world).answered > state.answered,
        state.run(world).found is Some ==> state.run(world).found == yield_of(
            state.order[state.run(world).answered - 1],
            state.home->0,
            state.config_home,
            world,
        ),
        forall|j: int|
            state.answered <= j < state.run(world).answered && !(state.run(world).found is Some
                && j == state.run(world).answered - 1) ==> (#[trigger] yield_of(
                state.order[j],
                state.home->0,
                state.config_home,
                world,
            )) is None,
    decreases state.order.len() - state.answered,
{
    if state.answered < state.order.len() {
        let next = state.resume(world(state.pending()->0));
        if next.found is None {
            lemma_run_ends(next, world);
        } else {
            assert(next.run(world) == next);
        }
    }
}

/// Two worlds that answer alike the requests of the sources still to come
/// lead a probe to the same end.
proof fn lemma_run_alike(
    state: ProbeView,
    first: spec_fn(RequestView) -> Option<Seq<u8>>,
    second: spec_fn(RequestView) -> Option<Seq<u8>>,
)
    requires
        state.wf(),
        forall|j: int|
            state.answered <= j < state.order.len() ==> first(
                #[trigger] request_of(state.order[j], state.home->0, state.config_home),
            ) == second(request_of(state.order[j], state.home->0, state.config_home)),
    ensures
        state.run(first) == state.run(second),
    decreases state.order.len() - state.answered,
{
    if !state.finished() {
        let at = state.answered as int;
        let request = request_of(state.order[at], state.home->0, state.config_home);
        lemma_run_alike(state.resume(first(request)), first, second);
    }
}

/// With no source to try, a probe is over before it starts: it asks for
/// nothing and finds nothing, whether or not the home directory is known.
pub proof fn lemma_empty_order_finds_nothing(
    home: Option<Seq<u8>>,
    config_home: Option<Seq<u8>>,
    world: spec_fn(RequestView) -> Option<Seq<u8>>,
)
    ensures
        ProbeView::start(Seq::empty(), home, config_home).pending() is None,
        ProbeView::start(Seq::empty(), home, config_home).run(world).found is None,
        ProbeView::start(Seq::empty(), home, config_home).run(world).answered == 0,
{
}

/// Without a home directory a probe is over before it starts, whatever the
/// order: no source is tried and nothing is found.
pub proof fn lemma_no_home_finds_nothing(
    order: Seq<Check>,
    config_home: Option<Seq<u8>>,
    world: spec_fn(RequestView) -> Option<Seq<u8>>,
)
    ensures
        ProbeView::start(order, None, config_home).pending() is None,
        ProbeView::start(order, None, config_home).run(world).found is None,
        ProbeView::start(order, None, config_home).run(world).answered == 0,
{
}

/// Where every source in the order fails, the probe finds nothing, and it has
/// tried every source to learn so.
pub proof fn lemma_all_fail_finds_nothing(
    order: Seq<Check>,
    home: Seq<u8>,
    config_home: Option<Seq<u8>>,
    world: spec_fn(RequestView) -> Option<Seq<u8>>,
)
    requires
        forall|j: int|
            0 <= j < order.len() ==> (#[trigger] yield_of(order[j], home, config_home, world))
                is None,
    ensures
        ProbeView::start(order, Some(home), config_home).run(world).found is None,
        ProbeView::start(order, Some(home), config_home).run(world).answered == order.len(),
{
    lemma_run_ends(ProbeView::start(order, Some(home), config_home), world);
}

/// Where no file can be read and no command can be run, the probe finds
/// nothing, whatever the order.
pub proof fn lemma_nothing_there_finds_nothing(
    order: Seq<Check>,
    home: Option<Seq<u8>>,
    config_home: Option<Seq<u8>>,
    world: spec_fn(RequestView) -> Option<Seq<u8>>,
)
    requires
        forall|request: RequestView| (#[trigger] world(request)) is None,
    ensures
        ProbeView::start(order, home, config_home).run(world).found is None,
{
    if home is Some {
        lemma_all_fail_finds_nothing(order, home->0, config_home, world);
    }
}

/// The first source that succeeds decides. Where the source at position `hit`
/// yields a theme and every source before it fails, the probe finds what that
/// source alone would find, and it is over once that source has had its reply:
/// no source behind `hit` is ever asked.
pub proof fn lemma_first_success_wins(
    order: Seq<Check>,
    home: Seq<u8>,
    config_home: Option<Seq<u8>>,
    world: spec_fn(RequestView) -> Option<Seq<u8>>,
    hit: int,
)
    requires
        0 <= hit < order.len(),
        forall|j: int|
            0 <= j < hit ==> (#[trigger] yield_of(order[j], home, config_home, world)) is None,
        yield_of(order[hit], home, config_home, world) is Some,
    ensures
        ProbeView::start(order, Some(home), config_home).run(world).found == yield_of(
            order[hit],
            home,
            config_home,
            world,
        ),
        ProbeView::start(order, Some(home), config_home).run(world).found == ProbeView::start(
            seq![order[hit]],
            Some(home),
            config_home,
        ).run(world).found,
        ProbeView::start(order, Some(home), config_home).run(world).answered == hit + 1,
        ProbeView::start(order, Some(home), config_home).run(world).pending() is None,
{
    lemma_run_ends(ProbeView::start(order, Some(home), config_home), world);
    lemma_run_ends(ProbeView::start(seq![order[hit]], Some(home), config_home), world);
}

/// What a probe finds is the yield of the first source that succeeds, and of
/// no other. A probe driven to its end is over. If it has found a theme, the
/// last source that it asked has yielded that theme and every source before
/// that one has failed. If it has found nothing, it has asked every source and
/// every source has failed.
pub proof fn lemma_found_is_first_success(
    order: Seq<Check>,
    home: Seq<u8>,
    config_home: Option<Seq<u8>>,
    world: spec_fn(RequestView) -> Option<Seq<u8>>,
)
    ensures
        ProbeView::start(order, Some(home), config_home).run(world).finished(),
        ProbeView::start(order, Some(home), config_home).run(world).answered <= order.len(),
        ({
            let end = ProbeView::start(order, Some(home), config_home).run(world);
            match end.found {
                Some(theme) => {
                    &&& end.answered >= 1
                    &&& yield_of(order[end.answered - 1], home, config_home, world) == Some(theme)
                    &&& forall|j: int|
                        0 <= j < end.answered - 1 ==> (#[trigger] yield_of(
                            order[j],
                            home,
                            config_home,
                            world,
                        )) is None
                },
                None => {
                    &&& end.answered == order.len()
                    &&& forall|j: int|
                        0 <= j < order.len() ==> (#[trigger] yield_of(
                            order[j],
                            home,
                            config_home,
                            world,
                        )) is None
                },
            }
        }),
{
    lemma_run_ends(ProbeView::start(order, Some(home), config_home), world);
}

/// A probe can be repeated. While the outside answers the requests of the
/// sources in the order as before, a probe started again from the same order
/// and the same directories ends as the one before it did.
pub proof fn lemma_repeated_probe_ends_alike(
    order: Seq<Check>,
    home: Option<Seq<u8>>,
    config_home: Option<Seq<u8>>,
    before: spec_fn(RequestView) -> Option<Seq<u8>>,
    again: spec_fn(RequestView) -> Option<Seq<u8>>,
)
    requires
        forall|j: int|
            0 <= j < order.len() ==> before(#[trigger] request_of(order[j], home->0, config_home))
                == again(request_of(order[j], home->0, config_home)),
    ensures
        ProbeView::start(order, home, config_home).run(before) == ProbeView::start(
            order,
            home,
            config_home,
        ).run(again),
{
    lemma_run_alike(ProbeView::start(order, home, config_home), before, again);
}

/// Unquoting undoes the quoting of `gsettings`. A name between single quotes,
/// with or without a line feed behind it, comes back as it was, whatever the
/// name holds.
pub proof fn lemma_unquoted_undoes_quoting(name: Seq<char>)
    ensures
        unquoted(seq!['\''] + name + seq!['\'', '\n']) == name,
        unquoted(seq!['\''] + name + seq!['\'']) == name,
{
}

/// A name that `gsettings` printed without quotes comes back as it was,
/// unless it begins or ends with a single quote itself.
pub proof fn lemma_unquoted_keeps_plain_names(name: Seq<char>)
    requires
        name.len() > 0 ==> name.first() != '\'' && name.last() != '\'',
    ensures
        unquoted(name + seq!['\n']) == name,
        name.len() == 0 || name.last() != '\n' ==> unquoted(name) == name,
{
}

/// What `gsettings` writes for a name, the name in UTF-8 between single quotes
/// and a line feed, is read as that name.
pub proof fn lemma_gsettings_reads_quoted_name(name: Seq<char>)
    ensures
        gsettings_theme(encode_utf8(seq!['\''] + name + seq!['\'', '\n'])) == Some(name),
{
    let text = seq!['\''] + name + seq!['\'', '\n'];
    vstd::utf8::encode_utf8_valid_utf8(text);
    vstd::utf8::encode_utf8_decode_utf8(text);
    lemma_unquoted_undoes_quoting(name);
}

/// With `XDG_CONFIG_HOME` set and not empty, the files of the configuration
/// directory are looked for below it, wherever the home directory is; only
/// `.gtkrc-2.0` stays below the home directory.
pub proof fn lemma_override_decides_config_files(
    home: Seq<u8>,
    other_home: Seq<u8>,
    dir: Seq<u8>,
)
    requires
        dir.len() > 0,
    ensures
        request_of(Check::KDEGlobals, home, Some(dir)) == RequestView::ReadFile(
            dir + "/kdeglobals".spec_bytes(),
        ),
        request_of(Check::GTK3, home, Some(dir)) == RequestView::ReadFile(
            dir + "/gtk-3.0/settings.ini".spec_bytes(),
        ),
        request_of(Check::ThemeConf, home, Some(dir)) == RequestView::ReadFile(
            dir + "/theme.conf".spec_bytes(),
        ),
        request_of(Check::KDEGlobals, home, Some(dir)) == request_of(
            Check::KDEGlobals,
            other_home,
            Some(dir),
        ),
        request_of(Check::GTK2, home, Some(dir)) == request_of(Check::GTK2, home, None),
{
}

/// Before the first `[` the scan of a file has not begun.
proof fn lemma_scan_not_begun(before: Seq<u8>)
    requires
        forall|i: int| 0 <= i < before.len() ==> before[i] != HEADER_OPEN,
    ensures
        scan_lines(before) == LineScan::start(),
    decreases before.len(),
{
    if before.len() > 0 {
        lemma_scan_not_begun(before.drop_last());
    }
}

/// What stands before the first `[` of a KDE globals file counts for nothing
/// in its run of comment lines, however many comments stand there.
pub proof fn lemma_nothing_counts_before_first_header(before: Seq<u8>, rest: Seq<u8>)
    requires
        forall|i: int| 0 <= i < before.len() ==> before[i] != HEADER_OPEN,
    ensures
        scan_lines(before + rest) == scan_lines(rest),
        comment_run(before + rest) == comment_run(rest),
    decreases rest.len(),
{
    if rest.len() == 0 {
        assert(before + rest =~= before);
        lemma_scan_not_begun(before);
    } else {
        lemma_nothing_counts_before_first_header(before, rest.drop_last());
        assert((before + rest).drop_last() =~= before + rest.drop_last());
    }
}

/// Once a line has begun with anything but a `#`, what follows on the line
/// counts for nothing, unless a `]` stands on it: the marks in a value make no
/// comment line, however many they are.
pub proof fn lemma_marks_in_a_value_count_nothing(bytes: Seq<u8>, value: Seq<u8>)
    requires
        scan_lines(bytes).started,
        !scan_lines(bytes).blank,
        !scan_lines(bytes).closed,
        forall|i: int|
            0 <= i < value.len() ==> value[i] != LINE_FEED && value[i] != HEADER_CLOSE,
    ensures
        scan_lines(bytes + value) == scan_lines(bytes),
        comment_run(bytes + value) == comment_run(bytes),
    decreases value.len(),
{
    if value.len() == 0 {
        assert(bytes + value =~= bytes);
    } else {
        lemma_marks_in_a_value_count_nothing(bytes, value.drop_last());
        assert((bytes + value).drop_last() =~= bytes + value.drop_last());
    }
}

/// A line that holds something and is no comment line ends the run of comment
/// lines before it.
pub proof fn lemma_other_line_ends_run(bytes: Seq<u8>)
    requires
        scan_lines(bytes).started,
        !scan_lines(bytes).blank,
        !scan_lines(bytes).marked,
    ensures
        scan_lines(bytes.push(LINE_FEED)).run == 0,
{
    assert(bytes.push(LINE_FEED).drop_last() =~= bytes);
}

/// A `#` that is the first thing on a line, blanks aside, makes the line a
/// comment line and lengthens the run by one.
pub proof fn lemma_comment_line_lengthens_run(bytes: Seq<u8>)
    requires
        scan_lines(bytes).started,
        scan_lines(bytes).blank,
    ensures
        scan_lines(bytes.push(COMMENT_MARK)).run == scan_lines(bytes).run + 1,
        comment_run(bytes.push(COMMENT_MARK)) >= scan_lines(bytes).run + 1,
{
    lemma_scan_is_sound(bytes);
    assert(bytes.push(COMMENT_MARK).drop_last() =~= bytes);
}

/// In every scan a blank line is no comment line, and the longest run is no
/// shorter than the run at hand.
proof fn lemma_scan_is_sound(bytes: Seq<u8>)
    ensures
        scan_lines(bytes).blank ==> !scan_lines(bytes).marked,
        scan_lines(bytes).longest >= scan_lines(bytes).run,
    decreases bytes.len(),
{
    if bytes.len() > 0 {
        lemma_scan_is_sound(bytes.drop_last());
    }
}

/// The scan of a file without `#` has met no comment line.
proof fn lemma_scan_without_mark(bytes: Seq<u8>)
    requires
        forall|i: int| 0 <= i < bytes.len() ==> bytes[i] != COMMENT_MARK,
    ensures
        !scan_lines(bytes).marked,
        scan_lines(bytes).run == 0,
        scan_lines(bytes).longest == 0,
    decreases bytes.len(),
{
    if bytes.len() > 0 {
        lemma_scan_without_mark(bytes.drop_last());
    }
}

/// A KDE globals file within the limit names what the parser finds in it. A
/// file without any `#` is always within the limit.
pub proof fn lemma_kde_theme_within_limit(contents: Seq<u8>)
    ensures
        comment_run(contents) <= MAX_COMMENT_RUN ==> kde_theme(contents) == match parsed_entry(
            contents,
        ) {
            Some(values) => icons_theme(values),
            None => None,
        },
        (forall|i: int| 0 <= i < contents.len() ==> contents[i] != COMMENT_MARK) ==> comment_run(
            contents,
        ) == 0,
{
    if forall|i: int| 0 <= i < contents.len() ==> contents[i] != COMMENT_MARK {
        lemma_scan_without_mark(contents);
    }
}

} // verus!
