//! Word selection: a random word from the catalog whose length falls in the
//! active difficulty's bucket.
//!
//! The selection draws random indices and keeps the first hit, as rejection
//! sampling does. Termination of every loop here is checked, so the random
//! draws are bounded; if they all miss — possible only when the bucket holds
//! a sliver of the catalog — a scan from one more random start finds the
//! next matching word. Either way the result is a catalog word whose length
//! matches the difficulty, which is all the callers rely on. The catalog
//! must hold at least one word in the bucket: that is the curated catalog's
//! own invariant, stated here as a precondition.

use vstd::prelude::*;
use vstd::string::*;
use crate::difficulty::spec_length_matches;
use crate::difficulty::word_length_matches;

verus! {

/// How many random draws are tried before the scan takes over.
const SAMPLING_ATTEMPTS: u32 = 64;

/// Relies on rand::random_range: a random value inside the given range,
/// drawn from the thread-local generator. The range `0..n` is non-empty
/// since `n > 0`, so the call cannot panic, and whatever comes back lies
/// below `n`.
#[verifier::external_body]
fn random_below(n: usize) -> (r: usize)
    requires
        n > 0,
    ensures
        r < n,
{
    rand::random_range(0..n)
}

/// The catalog holds at least one word in the difficulty's length bucket.
pub open spec fn spec_has_match(word_list: Seq<String>, difficulty: u8) -> bool {
    exists|i: int| 0 <= i < word_list.len() && spec_length_matches(difficulty, word_list[i]@.len())
}

/// The first catalog word at or after `start` (wrapping around) whose
/// length falls in the difficulty's bucket.
fn first_match_from(word_list: &Vec<String>, difficulty: u8, start: usize) -> (w: String)
    requires
        1 <= difficulty <= 3,
        start < word_list@.len(),
        spec_has_match(word_list@, difficulty),
    ensures
        exists|i: int| 0 <= i < word_list@.len() && w@ == word_list@[i]@,
        spec_length_matches(difficulty, w@.len()),
{
    let n = word_list.len();
    for k in start..n
        invariant
            n == word_list@.len(),
            1 <= difficulty <= 3,
            start <= k <= n,
            forall|j: int|
                start <= j < k ==> !spec_length_matches(difficulty, word_list@[j]@.len()),
    {
        let candidate = &word_list[k];
        if word_length_matches(difficulty, candidate.as_str().unicode_len()) {
            return candidate.clone();
        }
    }
    for k in 0..start
        invariant
            n == word_list@.len(),
            1 <= difficulty <= 3,
            start < n,
            k <= start,
            forall|j: int|
                start <= j < n ==> !spec_length_matches(difficulty, word_list@[j]@.len()),
            forall|j: int| 0 <= j < k ==> !spec_length_matches(difficulty, word_list@[j]@.len()),
    {
        let candidate = &word_list[k];
        if word_length_matches(difficulty, candidate.as_str().unicode_len()) {
            return candidate.clone();
        }
    }
    proof {
        let i = choose|i: int|
            0 <= i < word_list@.len() && spec_length_matches(difficulty, word_list@[i]@.len());
        assert(false);
    }
    word_list[0].clone()
}

/// A random catalog word whose length falls in the difficulty's bucket.
/// The result is always a member of the catalog, and its length always
/// satisfies the difficulty's predicate.
pub fn select_word_by_difficulty(word_list: &Vec<String>, difficulty: u8) -> (w: String)
    requires
        1 <= difficulty <= 3,
        spec_has_match(word_list@, difficulty),
    ensures
        exists|i: int| 0 <= i < word_list@.len() && w@ == word_list@[i]@,
        spec_length_matches(difficulty, w@.len()),
{
    proof {
        let i = choose|i: int|
            0 <= i < word_list@.len() && spec_length_matches(difficulty, word_list@[i]@.len());
        assert(word_list@.len() > 0);
    }
    let n = word_list.len();
    let mut attempts: u32 = SAMPLING_ATTEMPTS;
    while attempts > 0
        invariant
            n == word_list@.len(),
            n > 0,
            1 <= difficulty <= 3,
        decreases attempts,
    {
        let idx = random_below(n);
        let candidate = &word_list[idx];
        if word_length_matches(difficulty, candidate.as_str().unicode_len()) {
            return candidate.clone();
        }
        attempts = attempts - 1;
    }
    first_match_from(word_list, difficulty, random_below(n))
}

} // verus!
