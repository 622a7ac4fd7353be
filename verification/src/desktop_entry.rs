//! The KDE globals file, a desktop-entry file read with `freedesktop_entry_parser`.
use vstd::prelude::*;
use crate::opt_view;
use crate::value_at;
use freedesktop_entry_parser::Entry;
use freedesktop_entry_parser::ParseError;

verus! {

/// `freedesktop_entry_parser::Entry`, a parsed desktop-entry file. Nothing of
/// its inside is known here; [`entry_values`] names what can be looked up in it.
#[verifier::external_type_specification]
#[verifier::external_body]
pub struct ExEntry(freedesktop_entry_parser::Entry);

/// `freedesktop_entry_parser::ParseError`, the reason why bytes were rejected.
#[verifier::external_type_specification]
#[verifier::external_body]
pub struct ExParseError(freedesktop_entry_parser::ParseError);

/// What a parsed entry holds: by section name and attribute name, the value
/// that a lookup finds, which is the value that the attribute was given
/// without a parameter.
pub uninterp spec fn entry_values(entry: Entry) -> Map<(Seq<char>, Seq<char>), Seq<char>>;

/// What `Entry::parse` makes of the bytes of a file: nothing where it rejects
/// them, the values of the parsed entry otherwise.
pub uninterp spec fn parsed_entry(bytes: Seq<u8>) -> Option<Map<(Seq<char>, Seq<char>), Seq<char>>>;

/// The byte `#`, which begins a comment.
pub const COMMENT_MARK: u8 = 0x23;

/// The byte that ends a line.
pub const LINE_FEED: u8 = 0x0A;

/// The byte `[`, which opens a section header.
pub const HEADER_OPEN: u8 = 0x5B;

/// The byte `]`, which closes a section header.
pub const HEADER_CLOSE: u8 = 0x5D;

/// The longest run of comment lines that is handed to the parser. The limit
/// stands for the stack: the parser calls itself once for each comment that
/// follows another, so a long unbroken run of comments would exhaust the
/// stack and end the process. A run of this length needs well under a
/// megabyte of it.
pub const MAX_COMMENT_RUN: usize = 1024;

/// Whether the byte is a tab, a carriage return or a space: what a line may
/// hold and still count as empty.
pub open spec fn is_blank(byte: u8) -> bool {
    byte == 0x09 || byte == 0x0D || byte == 0x20
}

/// What is known of the lines of a file after some of its bytes.
pub struct LineScan {
    /// Whether the first `[` has been met. The parser skips all that stands
    /// before it.
    pub started: bool,
    /// Whether the line at hand holds nothing but blanks.
    pub blank: bool,
    /// Whether the line at hand holds a `]`.
    pub closed: bool,
    /// Whether the line at hand is a comment line.
    pub marked: bool,
    /// How many comment lines have followed each other up to here, the line
    /// at hand counted if it is one, with only empty lines between them.
    pub run: nat,
    /// The longest such run so far.
    pub longest: nat,
}

impl LineScan {
    /// Before the first byte.
    pub open spec fn start() -> LineScan {
        LineScan {
            started: false,
            blank: true,
            closed: false,
            marked: false,
            run: 0,
            longest: 0,
        }
    }

    /// After one more byte. A line becomes a comment line, and lengthens the
    /// run, at a `#` that is the first thing on the line or stands behind a
    /// `]`. An empty line leaves the run as it is. Any other line ends the run
    /// when the line ends.
    pub open spec fn step(self, byte: u8) -> LineScan {
        if !self.started {
            if byte == HEADER_OPEN {
                LineScan { started: true, blank: false, ..self }
            } else {
                self
            }
        } else if byte == LINE_FEED {
            LineScan {
                blank: true,
                closed: false,
                marked: false,
                run: if self.marked || self.blank {
                    self.run
                } else {
                    0
                },
                ..self
            }
        } else if byte == COMMENT_MARK {
            if !self.marked && (self.blank || self.closed) {
                LineScan {
                    blank: false,
                    marked: true,
                    run: self.run + 1,
                    longest: if self.longest > self.run {
                        self.longest
                    } else {
                        self.run + 1
                    },
                    ..self
                }
            } else {
                LineScan { blank: false, ..self }
            }
        } else if byte == HEADER_CLOSE {
            LineScan { blank: false, closed: true, ..self }
        } else if is_blank(byte) {
            self
        } else {
            LineScan { blank: false, ..self }
        }
    }
}

/// What is known of the lines of a file after all of these bytes.
pub open spec fn scan_lines(bytes: Seq<u8>) -> LineScan
    decreases bytes.len(),
{
    if bytes.len() == 0 {
        LineScan::start()
    } else {
        scan_lines(bytes.drop_last()).step(bytes.last())
    }
}

/// The longest run of consecutive comment lines from the first `[` on. A
/// comment line is a line on which a `#` is the first thing, blanks aside, or
/// stands behind a `]`; a `#` within a value makes none. Empty lines within a
/// run do not end it; any other line does.
///
/// The parser descends no deeper than this. It looks for a comment behind the
/// `]` of a section header and behind the line feed that ends a value or a
/// comment, blanks and line feeds aside, so the comments of one descent stand
/// on comment lines that follow each other with only empty lines between them.
pub open spec fn comment_run(bytes: Seq<u8>) -> nat {
    scan_lines(bytes).longest
}

/// Calls `Entry::parse`. Assumed: whether the bytes are accepted, and the
/// values of the entry that comes back, depend on the bytes alone. The call is
/// made only on bytes whose longest run of comment lines is within the limit,
/// which bounds how deep the parser's `next_line` calls itself.
#[verifier::external_body]
fn parse_entry(bytes: Vec<u8>) -> (parsed: Result<Entry, ParseError>)
    requires
        comment_run(bytes@) <= MAX_COMMENT_RUN,
    ensures
        match parsed {
            Ok(entry) => parsed_entry(bytes@) == Some(entry_values(entry)),
            Err(_) => parsed_entry(bytes@) is None,
        },
{
    Entry::parse(bytes)
}

/// Calls `Entry::section` and then `AttrSelector::attr` on the section chosen.
/// Assumed: the lookup returns the value that the entry holds for this section
/// and attribute, and nothing where it holds none.
#[verifier::external_body]
fn entry_attr<'a>(entry: &'a Entry, section: &str, name: &str) -> (value: Option<&'a str>)
    ensures
        match value {
            Some(text) => entry_values(*entry).contains_key((section@, name@))
                && entry_values(*entry)[(section@, name@)] == text@,
            None => !entry_values(*entry).contains_key((section@, name@)),
        },
{
    entry.section(section).attr(name)
}

/// The icon theme among the values of a KDE globals file: attribute `Theme`
/// of section `Icons`.
pub open spec fn icons_theme(values: Map<(Seq<char>, Seq<char>), Seq<char>>) -> Option<Seq<char>> {
    value_at(values, ("Icons"@, "Theme"@))
}

/// The icon theme that the bytes of a KDE globals file name: nothing where the
/// file does not parse or has no such attribute. A file with a run of comment
/// lines beyond the limit is not parsed, and names nothing.
pub open spec fn kde_theme(contents: Seq<u8>) -> Option<Seq<char>> {
    if comment_run(contents) > MAX_COMMENT_RUN {
        None
    } else {
        match parsed_entry(contents) {
            Some(values) => icons_theme(values),
            None => None,
        }
    }
}

/// Measures the longest run of comment lines among the bytes of a file.
pub fn longest_comment_run(bytes: &[u8]) -> (longest: usize)
    ensures
        longest == comment_run(bytes@),
{
    let mut started = false;
    let mut blank = true;
    let mut closed = false;
    let mut marked = false;
    let mut run: usize = 0;
    let mut longest: usize = 0;
    let mut at: usize = 0;
    while at < bytes.len()
        invariant
            at <= bytes.len(),
            run <= at,
            longest <= at,
            scan_lines(bytes@.take(at as int)) == (LineScan {
                started,
                blank,
                closed,
                marked,
                run: run as nat,
                longest: longest as nat,
            }),
        decreases bytes.len() - at,
    {
        assert(bytes@.take(at + 1).drop_last() =~= bytes@.take(at as int));
        let byte = bytes[at];
        if !started {
            if byte == HEADER_OPEN {
                started = true;
                blank = false;
            }
        } else if byte == LINE_FEED {
            if !marked && !blank {
                run = 0;
            }
            blank = true;
            closed = false;
            marked = false;
        } else if byte == COMMENT_MARK {
            if !marked && (blank || closed) {
                marked = true;
                run = run + 1;
                if longest < run {
                    longest = run;
                }
            }
            blank = false;
        } else if byte == HEADER_CLOSE {
            blank = false;
            closed = true;
        } else if !(byte == 0x09 || byte == 0x0D || byte == 0x20) {
            blank = false;
        }
        at = at + 1;
    }
    assert(bytes@.take(at as int) =~= bytes@);
    longest
}

/// Looks up the icon theme in a parsed KDE globals file.
pub fn kde_entry_theme(entry: &Entry) -> (theme: Option<String>)
    ensures
        opt_view(theme) == icons_theme(entry_values(*entry)),
{
    match entry_attr(entry, "Icons", "Theme") {
        Some(text) => Some(text.to_owned()),
        None => None,
    }
}

/// Reads the icon theme from the contents of the KDE globals file. A file in
/// which more than [`MAX_COMMENT_RUN`] comment lines follow each other is not
/// handed to the parser and yields nothing.
pub fn kde(contents: Vec<u8>) -> (theme: Option<String>)
    ensures
        opt_view(theme) == kde_theme(contents@),
{
    if longest_comment_run(contents.as_slice()) > MAX_COMMENT_RUN {
        return None;
    }
    match parse_entry(contents) {
        Ok(entry) => kde_entry_theme(&entry),
        Err(_) => None,
    }
}

} // verus!
