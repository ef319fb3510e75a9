//! The shape that a guess must have.
use vstd::prelude::*;
use vstd::string::*;

verus! {

/// Number of characters in a guess.
pub const WORD_LENGTH: usize = 5;

/// Whether a character is a lowercase letter, as `char::is_lowercase` decides it.
pub uninterp spec fn is_lowercase(c: char) -> bool;

/// Calls `char::is_lowercase`, which tells whether the character carries the
/// Unicode property `Lowercase`. The answer depends on the character alone, and
/// the contract gives it the name `is_lowercase`; nothing more is claimed of it.
#[verifier::external_body]
fn char_is_lowercase(c: char) -> (lower: bool)
    ensures
        lower == is_lowercase(c),
{
    c.is_lowercase()
}

/// A guess is well formed when it has exactly five characters, each of them a
/// lowercase letter.
pub open spec fn valid_word(word: Seq<char>) -> bool {
    &&& word.len() == WORD_LENGTH
    &&& forall|i: int| 0 <= i < word.len() ==> is_lowercase(#[trigger] word[i])
}

/// Whether a guess is well formed.
pub fn is_valid_word(word: &str) -> (ok: bool)
    ensures
        ok == valid_word(word@),
{
    if word.unicode_len() != WORD_LENGTH {
        return false;
    }
    let mut i: usize = 0;
    while i < WORD_LENGTH
        invariant
            i <= WORD_LENGTH,
            word@.len() == WORD_LENGTH,
            forall|j: int| 0 <= j < i ==> is_lowercase(#[trigger] word@[j]),
        decreases WORD_LENGTH - i,
    {
        if !char_is_lowercase(word.get_char(i)) {
            return false;
        }
        i += 1;
    }
    true
}

} // verus!
