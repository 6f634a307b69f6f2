//! Text that the library hands to egui.

use vstd::prelude::*;

verus! {

/// `s` with every match of the non-empty pattern `from` replaced by `to`,
/// matches taken from the left and not overlapping.
pub open spec fn replace_all(s: Seq<char>, from: Seq<char>, to: Seq<char>) -> Seq<char>
    decreases s.len(),
{
    if from.len() == 0 || s.len() < from.len() {
        s
    } else if s.take(from.len() as int) == from {
        to + replace_all(s.skip(from.len() as int), from, to)
    } else {
        seq![s[0]] + replace_all(s.skip(1), from, to)
    }
}

/// Calls `str::replace` with a string pattern. std documents that it
/// creates a new `String` in which the matches of the pattern are replaced
/// by `to`; for a string pattern the matches are those that
/// `str::match_indices` gives, which starts at the left and does not overlap
/// matches. The contract claims exactly that, for non-empty patterns.
#[verifier::external_body]
fn str_replace(s: &str, from: &str, to: &str) -> (r: String)
    requires
        from@.len() > 0,
    ensures
        r@ == replace_all(s@, from@, to@),
{
    s.replace(from, to)
}

/// Line breaks as egui wants them: every "\r\n" becomes "\n".
pub open spec fn unix_newlines(s: Seq<char>) -> Seq<char> {
    replace_all(s, seq!['\r', '\n'], seq!['\n'])
}

/// What a paste command hands to egui, given what the clipboard held: the
/// text with "\r\n" turned into "\n", if the clipboard gave text and that text
/// is not empty.
pub open spec fn pasted_from(clipboard: Option<String>, pasted: Option<String>) -> bool {
    match clipboard {
        Some(contents) => if unix_newlines(contents@).len() == 0 {
            pasted is None
        } else {
            pasted matches Some(p) && p@ == unix_newlines(contents@)
        },
        None => pasted is None,
    }
}

/// The text to paste into egui from what the clipboard gave.
pub fn paste_text(clipboard: Option<String>) -> (r: Option<String>)
    ensures
        pasted_from(clipboard, r),
{
    match clipboard {
        Some(contents) => {
            proof {
                reveal_strlit("\r\n");
                reveal_strlit("\n");
            }
            let contents = str_replace(contents.as_str(), "\r\n", "\n");
            assert("\r\n"@ =~= seq!['\r', '\n']);
            assert("\n"@ =~= seq!['\n']);
            if !contents.as_str().is_empty() {
                Some(contents)
            } else {
                None
            }
        },
        None => None,
    }
}

} // verus!
