//! Difficulty tiers: the fixed guess-budget table and the word-length
//! bucket that each tier draws from.
//!
//! A difficulty is one of the three menu values 1 (Easy), 2 (Medium) and
//! 3 (Hard). Any other value is a programming error — the menu layer
//! validates before calling in — so the functions here rule it out by
//! precondition rather than recover from it.

use vstd::prelude::*;

verus! {

/// The guess budget each tier grants: Easy 12, Medium 9, Hard 6.
pub open spec fn spec_budget(difficulty: u8) -> u8 {
    if difficulty == 1 {
        12u8
    } else if difficulty == 2 {
        9u8
    } else {
        6u8
    }
}

/// The length bucket each tier draws from: Easy takes words of at most 5
/// letters, Medium 6 to 8, Hard 9 or more. The three buckets partition the
/// lengths, so no word length belongs to two tiers.
pub open spec fn spec_length_matches(difficulty: u8, len: nat) -> bool {
    if difficulty == 1 {
        len <= 5
    } else if difficulty == 2 {
        6 <= len <= 8
    } else {
        len >= 9
    }
}

/// Budget lookup, total over the three valid difficulties.
pub fn get_tries_for_difficulty(difficulty: u8) -> (tries: u8)
    requires
        1 <= difficulty <= 3,
    ensures
        tries == spec_budget(difficulty),
        difficulty == 1 ==> tries == 12,
        difficulty == 2 ==> tries == 9,
        difficulty == 3 ==> tries == 6,
{
    match difficulty {
        1 => 12,
        2 => 9,
        _ => 6,
    }
}

/// Whether a word of `len` letters belongs to the difficulty's bucket.
pub fn word_length_matches(difficulty: u8, len: usize) -> (m: bool)
    requires
        1 <= difficulty <= 3,
    ensures
        m == spec_length_matches(difficulty, len as nat),
{
    if difficulty == 1 {
        len <= 5
    } else if difficulty == 2 {
        6 <= len && len <= 8
    } else {
        len >= 9
    }
}

} // verus!
