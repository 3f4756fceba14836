//! What a user types for an identification code, brought into the form in
//! which codes are decoded.

use vstd::prelude::*;
use vstd::string::*;

verus! {

/// What `str::trim` leaves of a text: the text without the white space at
/// its start and at its end.
pub uninterp spec fn trimmed(text: Seq<char>) -> Seq<char>;

/// What `str::to_uppercase` makes of a text: the text in upper case, in
/// which one character may have become several.
pub uninterp spec fn uppercased(text: Seq<char>) -> Seq<char>;

/// `str::trim`: the result is the named part of the text.
pub assume_specification[ str::trim ](text: &str) -> (inner: &str)
    ensures
        inner@ == trimmed(text@),
;

/// `str::to_uppercase`: the result is the named upper case of the text.
pub assume_specification[ str::to_uppercase ](text: &str) -> (upper: String)
    ensures
        upper@ == uppercased(text@),
;

/// A text without its spaces.
pub open spec fn without_spaces(text: Seq<char>) -> Seq<char> {
    text.filter(|c: char| c != ' ')
}

/// The code that typed text stands for: the text without the white space
/// around it and without the spaces in it, in upper case.
pub open spec fn normalized(input: Seq<char>) -> Seq<char> {
    uppercased(without_spaces(trimmed(input)))
}

/// Takes the spaces out of a text.
pub fn remove_spaces(text: &str) -> (kept: String)
    ensures
        kept@ == without_spaces(text@),
{
    let n = text.unicode_len();
    let mut kept = String::new();
    let mut i: usize = 0;
    proof {
        reveal(Seq::filter);
        assert(text@.take(0) =~= Seq::<char>::empty());
    }
    while i < n
        invariant
            i <= n,
            n == text@.len(),
            kept@ == without_spaces(text@.take(i as int)),
        decreases n - i,
    {
        proof {
            reveal(Seq::filter);
            assert(text@.take(i + 1).drop_last() =~= text@.take(i as int));
        }
        if text.get_char(i) != ' ' {
            kept.append(text.substring_char(i, i + 1));
            assert(text@.subrange(i as int, i + 1) =~= seq![text@[i as int]]);
            assert(kept@ =~= without_spaces(text@.take(i as int)).push(text@[i as int]));
        }
        i += 1;
    }
    assert(text@.take(n as int) =~= text@);
    kept
}

/// Brings typed text into the form of a code.
pub fn normalize_code(input: &str) -> (code: String)
    ensures
        code@ == normalized(input@),
{
    let kept = remove_spaces(input.trim());
    kept.as_str().to_uppercase()
}

} // verus!
