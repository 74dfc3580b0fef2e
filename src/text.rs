//! Searching text for a word.

use vstd::prelude::*;
use vstd::string::StringSliceAdditionalSpecFns;

verus! {

/// Whether `word` occurs in `text` as a contiguous run.
pub open spec fn mentions(text: Seq<u8>, word: Seq<u8>) -> bool {
    exists|i: int| 0 <= i && i + word.len() <= text.len() && #[trigger] text.subrange(i, i + word.len()) == word
}

fn matches_at(text: &[u8], word: &[u8], at: usize) -> (r: bool)
    requires
        at + word@.len() <= text@.len(),
    ensures
        r == (text@.subrange(at as int, at + word@.len()) == word@),
{
    let n = text.len();
    let mut j: usize = 0;
    while j < word.len()
        invariant
            at + word@.len() <= text@.len(),
            text@.len() == n,
            j <= word@.len(),
            forall|k: int| 0 <= k < j ==> text@[at + k] == word@[k],
        decreases word@.len() - j,
    {
        if text[at + j] != word[j] {
            assert(text@.subrange(at as int, at + word@.len())[j as int] != word@[j as int]);
            return false;
        }
        j = j + 1;
    }
    assert(text@.subrange(at as int, at + word@.len()) =~= word@);
    true
}

/// Whether the UTF-8 bytes of `word` occur in those of `text`.
pub fn contains_text(text: &str, word: &str) -> (r: bool)
    ensures
        r == mentions(text.spec_bytes(), word.spec_bytes()),
{
    let t = text.as_bytes();
    let w = word.as_bytes();
    if w.len() > t.len() {
        return false;
    }
    if w.len() == 0 {
        assert(t@.subrange(0int, 0int + w@.len()) =~= w@);
        return true;
    }
    let last: usize = t.len() - w.len();
    let mut i: usize = 0;
    while i <= last
        invariant
            t@ == text.spec_bytes(),
            w@ == word.spec_bytes(),
            last == t@.len() - w@.len(),
            last < t@.len(),
            t@.len() <= usize::MAX,
            forall|k: int| 0 <= k < i ==> #[trigger] t@.subrange(k, k + w@.len()) != w@,
        decreases last + 1 - i,
    {
        if matches_at(t, w, i) {
            return true;
        }
        i = i + 1;
    }
    false
}

} // verus!
