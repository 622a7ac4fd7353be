//! The answer of `gsettings get org.gnome.desktop.interface icon-theme`.
use vstd::prelude::*;
use vstd::string::StringSliceAdditionalSpecFns;
use vstd::utf8::decode_utf8;
use vstd::utf8::valid_utf8;
use crate::opt_view;
use core::str::Utf8Error;

verus! {

/// `core::str::Utf8Error`, the reason why bytes are no UTF-8 text.
#[verifier::external_type_specification]
#[verifier::external_body]
pub struct ExUtf8Error(core::str::Utf8Error);

/// Calls `core::str::from_utf8`. Assumed, as its documentation says: it
/// succeeds on valid UTF-8 and on nothing else, and the text that it returns
/// is made of the bytes that it was given.
#[verifier::external_body]
fn utf8_text(bytes: &[u8]) -> (text: Result<&str, Utf8Error>)
    ensures
        text is Ok <==> valid_utf8(bytes@),
        text matches Ok(s) ==> s.spec_bytes() == bytes@,
{
    core::str::from_utf8(bytes)
}

/// The text without one trailing line feed, then without one leading single
/// quote, then without one trailing single quote, each only if present.
pub open spec fn unquoted(text: Seq<char>) -> Seq<char> {
    let line = if text.len() > 0 && text.last() == '\n' {
        text.drop_last()
    } else {
        text
    };
    let opened = if line.len() > 0 && line.first() == '\'' {
        line.drop_first()
    } else {
        line
    };
    if opened.len() > 0 && opened.last() == '\'' {
        opened.drop_last()
    } else {
        opened
    }
}

/// The icon theme that the output of the command names: nothing where the
/// command wrote nothing or wrote no UTF-8 text, else its text without the line
/// feed and the quotes.
pub open spec fn gsettings_theme(output: Seq<u8>) -> Option<Seq<char>> {
    if output.len() > 0 && valid_utf8(output) {
        Some(unquoted(decode_utf8(output)))
    } else {
        None
    }
}

/// Removes the line feed and the single quotes that `gsettings` puts around a
/// value.
pub fn unquote(text: &str) -> (name: String)
    ensures
        name@ == unquoted(text@),
{
    let mut from: usize = 0;
    let mut to: usize = text.unicode_len();
    if from < to && text.get_char(to - 1) == '\n' {
        to = to - 1;
    }
    if from < to && text.get_char(from) == '\'' {
        from = from + 1;
    }
    if from < to && text.get_char(to - 1) == '\'' {
        to = to - 1;
    }
    text.substring_char(from, to).to_owned()
}

/// Reads the icon theme from what the command wrote to its standard output.
pub fn gsettings(output: &[u8]) -> (theme: Option<String>)
    ensures
        opt_view(theme) == gsettings_theme(output@),
{
    if output.len() == 0 {
        return None;
    }
    match utf8_text(output) {
        Ok(text) => {
            proof {
                vstd::utf8::encode_utf8_decode_utf8(text@);
            }
            Some(unquote(text))
        },
        Err(_) => None,
    }
}

} // verus!
