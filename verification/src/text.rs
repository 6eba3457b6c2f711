//! Text as a sequence of characters.

use vstd::prelude::*;
use vstd::string::*;

verus! {

/// The characters of `text`, in order.
pub fn chars_of(text: &str) -> (chars: Vec<char>)
    ensures
        chars@ == text@,
{
    broadcast use axiom_spec_iter;

    let mut chars: Vec<char> = Vec::new();
    for c in iter: text.chars()
        invariant
            iter.seq() == text@,
            chars@ == text@.take(iter.index() as int),
    {
        chars.push(c);
        assert(chars@ =~= text@.take(iter.index() + 1));
    }
    assert(chars@ =~= text@);
    chars
}

/// Whether `word` stands in `text` at position `at`.
pub open spec fn occurs_at(text: Seq<char>, at: int, word: Seq<char>) -> bool {
    &&& 0 <= at
    &&& at + word.len() <= text.len()
    &&& text.subrange(at, at + word.len()) == word
}

/// Tells whether `word` stands in `text` at position `at`.
pub fn stands_at(text: &Vec<char>, at: usize, word: &Vec<char>) -> (yes: bool)
    ensures
        yes == occurs_at(text@, at as int, word@),
{
    if word.len() > text.len() || at > text.len() - word.len() {
        return false;
    }
    let mut k: usize = 0;
    while k < word.len()
        invariant
            k <= word.len(),
            at + word.len() <= text.len(),
            forall|j: int| 0 <= j < k ==> text@[at + j] == word@[j],
        decreases word.len() - k,
    {
        if text[at + k] != word[k] {
            assert(text@.subrange(at as int, at + word.len())[k as int] == text@[at + k]);
            return false;
        }
        k = k + 1;
    }
    assert(text@.subrange(at as int, at + word.len()) =~= word@);
    true
}

} // verus!
