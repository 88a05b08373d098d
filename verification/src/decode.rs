//! Reading a desktop entry: the text of a file goes to the decoder of
//! `freedesktop_desktop_entry`, and what comes back is the three fields that
//! the applet uses.

use crate::descriptor::{EntryFields, EntryFieldsView};
use freedesktop_desktop_entry::{DecodeError, DesktopEntry};
use std::path::Path;
use vstd::prelude::*;

verus! {

/// The error of the decoder. It has one cause, a path without a file name to
/// take the application's id from, and nothing here looks inside it.
#[verifier::external_type_specification]
#[verifier::external_body]
pub struct ExDecodeError(DecodeError);

/// White space as `char::is_whitespace` and `str::trim` know it: the
/// characters with the Unicode property `White_Space`.
pub open spec fn is_space(c: char) -> bool {
    let n = c as u32;
    ||| 0x09 <= n <= 0x0D
    ||| n == 0x20
    ||| n == 0x85
    ||| n == 0xA0
    ||| n == 0x1680
    ||| 0x2000 <= n <= 0x200A
    ||| n == 0x2028
    ||| n == 0x2029
    ||| n == 0x202F
    ||| n == 0x205F
    ||| n == 0x3000
}

/// Position `i` of `text` has nothing but white space between it and the
/// start of its line: it opens the text, follows a line feed, or follows white
/// space of which the same holds.
pub open spec fn leads_line(text: Seq<char>, i: int) -> bool
    decreases i,
{
    i <= 0 || text[i - 1] == '\n' || (is_space(text[i - 1]) && leads_line(text, i - 1))
}

/// Some line of `text` has `=` as its first character after the white space
/// in front: an assignment without a key.
pub open spec fn has_keyless_line(text: Seq<char>) -> bool {
    exists|i: int| 0 <= i < text.len() && text[i] == '=' && #[trigger] leads_line(text, i)
}

/// Whether `c` is white space.
pub fn space(c: char) -> (r: bool)
    ensures
        r == is_space(c),
{
    let n: u32 = c as u32;
    (0x09 <= n && n <= 0x0D) || n == 0x20 || n == 0x85 || n == 0xA0 || n == 0x1680 || (0x2000 <= n
        && n <= 0x200A) || n == 0x2028 || n == 0x2029 || n == 0x202F || n == 0x205F || n == 0x3000
}

/// Whether some line of `text` assigns to an empty key.
pub fn keyless_line(text: &str) -> (r: bool)
    ensures
        r == has_keyless_line(text@),
{
    let mut leading = true;
    for c in it: text.chars()
        invariant
            it.seq() == text@,
            leading == leads_line(text@, it.index()),
            forall|i: int|
                0 <= i < it.index() ==> !(text@[i] == '=' && #[trigger] leads_line(text@, i)),
    {
        if leading && c == '=' {
            return true;
        }
        leading = c == '\n' || (leading && space(c));
    }
    false
}

/// What `DesktopEntry::decode` makes of the file at `path` with the content
/// `text`, where it does not fail: the values that the entry then gives for
/// the keys `Name`, `Icon` and `Exec` of its group `Desktop Entry`, each
/// without regard to any locale.
pub uninterp spec fn decoded(path: Seq<char>, text: Seq<char>) -> Option<EntryFieldsView>;

/// What [`parse`] makes of a file: nothing where a line assigns to an empty
/// key, and else what the decoder gives.
pub open spec fn parsed(path: Seq<char>, text: Seq<char>) -> Option<EntryFieldsView> {
    if has_keyless_line(text) {
        None
    } else {
        decoded(path, text)
    }
}

/// Calls `DesktopEntry::decode` on the path and the text, and reads from the
/// entry the plain values of `Name` (`desktop_entry`), `Icon` (`icon`) and
/// `Exec` (`exec`).
///
/// Believed, not proved: the decoder and the three lookups depend on the path
/// and the text alone, so that their result has a name, [`decoded`]. The
/// decoder indexes the last byte of the key of every assignment and so panics
/// where a line, trimmed, starts with `=`: such a text is not to be handed in.
#[verifier::external_body]
fn decode(path: &str, text: &str) -> (r: Result<EntryFields, DecodeError>)
    requires
        !has_keyless_line(text@),
    ensures
        match r {
            Ok(fields) => decoded(path@, text@) == Some(fields@),
            Err(_) => decoded(path@, text@) is None,
        },
{
    let entry = DesktopEntry::decode(Path::new(path), text)?;
    Ok(
        EntryFields {
            name: entry.desktop_entry("Name").map(String::from),
            icon: entry.icon().map(String::from),
            command: entry.exec().map(String::from),
        },
    )
}

/// Reads the fields of the desktop entry at `path` from its content. A text
/// with an assignment to an empty key does not parse, nor does one that the
/// decoder refuses.
pub fn parse(path: &str, text: &str) -> (r: Option<EntryFields>)
    ensures
        match r {
            Some(fields) => parsed(path@, text@) == Some(fields@),
            None => parsed(path@, text@) is None,
        },
{
    if keyless_line(text) {
        return None;
    }
    match decode(path, text) {
        Ok(fields) => Some(fields),
        Err(_) => None,
    }
}

} // verus!
