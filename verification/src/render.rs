//! The textual progress display: the masked form of the word with one
//! character per letter (guessed letters in place, the rest hidden behind
//! `_`, single spaces between), and the gallows figure that quantizes the
//! fraction of tries remaining into seven severity stages.

use vstd::prelude::*;
use vstd::string::*;
use crate::round::RoundModel;

verus! {

/// How a single letter of the word shows: itself once guessed, `_` before.
pub open spec fn spec_masked_char(c: char, guessed: Seq<char>) -> char {
    if guessed.contains(c) {
        c
    } else {
        '_'
    }
}

/// The display length of a word of `n` letters: one character per letter
/// and one space between each pair.
pub open spec fn spec_masked_len(n: nat) -> nat {
    if n == 0 {
        0
    } else {
        (2 * n - 1) as nat
    }
}

/// The masked display form of `w` under the guessed letters: masked letters
/// at even positions, single spaces between them.
pub open spec fn spec_masked_word(w: Seq<char>, guessed: Seq<char>) -> Seq<char> {
    Seq::new(
        spec_masked_len(w.len()),
        |i: int|
            if i % 2 == 0 {
                spec_masked_char(w[i / 2], guessed)
            } else {
                ' '
            },
    )
}

/// The fully revealed display form of `w`: its letters space-joined.
pub open spec fn spec_spaced_word(w: Seq<char>) -> Seq<char> {
    Seq::new(
        spec_masked_len(w.len()),
        |i: int|
            if i % 2 == 0 {
                w[i / 2]
            } else {
                ' '
            },
    )
}

/// Once every distinct letter of the word has been guessed, the masked form
/// is the word itself, space-joined, with no placeholder left.
pub proof fn lemma_masked_word_complete(m: RoundModel)
    requires
        m.covered(),
    ensures
        spec_masked_word(m.word, m.guessed) == spec_spaced_word(m.word),
{
    assert(spec_masked_word(m.word, m.guessed) =~= spec_spaced_word(m.word));
}

/// Relies on String::push: appends the one character at the end of the
/// string.
#[verifier::external_body]
fn push_char(s: &mut String, c: char)
    ensures
        final(s)@ == old(s)@.push(c),
{
    s.push(c)
}

/// The masked display form of `word` under the guessed letters.
pub fn display_word(word: &str, guessed_letters: &Vec<char>) -> (r: String)
    ensures
        r@ == spec_masked_word(word@, guessed_letters@),
{
    let ghost masked = spec_masked_word(word@, guessed_letters@);
    let mut result = String::new();
    let n = word.unicode_len();
    for i in 0..n
        invariant
            n == word@.len(),
            masked == spec_masked_word(word@, guessed_letters@),
            result@.len() == spec_masked_len(i as nat),
            result@ == masked.take(spec_masked_len(i as nat) as int),
    {
        if i > 0 {
            push_char(&mut result, ' ');
        }
        let c = word.get_char(i);
        let shown = if crate::round::contains_char(guessed_letters, c) {
            c
        } else {
            '_'
        };
        push_char(&mut result, shown);
        proof {
            assert(shown == spec_masked_char(word@[i as int], guessed_letters@));
            assert(result@ =~= masked.take(spec_masked_len((i + 1) as nat) as int));
        }
    }
    proof {
        assert(result@ =~= masked);
    }
    result
}

/// The figure stage for the given counters: the fraction of tries that
/// remain, scaled to the range 0 to 6 and rounded to the nearest stage
/// (halves rounding up), then clamped at 6. Stage 6 is the untouched
/// gallows of a fresh round; stage 0 is the completed figure of a lost one.
pub open spec fn spec_stage_index(tries_left: int, max_tries: int) -> int
    recommends
        max_tries >= 1,
{
    let rounded = (12 * tries_left + max_tries) / (2 * max_tries);
    if rounded > 6 {
        6
    } else {
        rounded
    }
}

/// The stage the figure shows for the given counters.
pub fn hangman_stage(tries_left: u8, max_tries: u8) -> (stage: usize)
    requires
        max_tries >= 1,
    ensures
        stage == spec_stage_index(tries_left as int, max_tries as int),
        stage <= 6,
{
    let t = tries_left as u32;
    let m = max_tries as u32;
    let rounded = (12 * t + m) / (2 * m);
    let stage = if rounded > 6 {
        6
    } else {
        rounded
    };
    stage as usize
}

/// The seven stages of the figure, from the completed drawing at stage 0
/// (no tries left) up to the bare gallows at stage 6 (all tries left).
pub open spec fn spec_figure(stage: int) -> Seq<char> {
    if stage <= 0 {
        "
          +---+
          |   |
          O   |
         /|\\  |
         / \\  |
              |
        ========="@
    } else if stage == 1 {
        "
          +---+
          |   |
          O   |
         /|\\  |
         /    |
              |
        ========="@
    } else if stage == 2 {
        "
          +---+
          |   |
          O   |
         /|\\  |
              |
              |
        ========="@
    } else if stage == 3 {
        "
          +---+
          |   |
          O   |
         /|   |
              |
              |
        ========="@
    } else if stage == 4 {
        "
          +---+
          |   |
          O   |
          |   |
              |
              |
        ========="@
    } else if stage == 5 {
        "
          +---+
          |   |
          O   |
              |
              |
              |
        ========="@
    } else {
        "
          +---+
          |   |
              |
              |
              |
              |
        ========="@
    }
}

/// The figure drawn for the given counters: the art of the stage that
/// `spec_stage_index` picks.
pub fn hangman_figure(tries_left: u8, max_tries: u8) -> (fig: &'static str)
    requires
        max_tries >= 1,
    ensures
        fig@ == spec_figure(spec_stage_index(tries_left as int, max_tries as int)),
{
    let stage = hangman_stage(tries_left, max_tries);
    match stage {
        0 => "
          +---+
          |   |
          O   |
         /|\\  |
         / \\  |
              |
        =========",
        1 => "
          +---+
          |   |
          O   |
         /|\\  |
         /    |
              |
        =========",
        2 => "
          +---+
          |   |
          O   |
         /|\\  |
              |
              |
        =========",
        3 => "
          +---+
          |   |
          O   |
         /|   |
              |
              |
        =========",
        4 => "
          +---+
          |   |
          O   |
          |   |
              |
              |
        =========",
        5 => "
          +---+
          |   |
          O   |
              |
              |
              |
        =========",
        _ => "
          +---+
          |   |
              |
              |
              |
              |
        =========",
    }
}

} // verus!
