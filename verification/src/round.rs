//! One round of the game: the target word, the set of guessed letters and
//! the tries that remain, together with the transition taken on each guess.
//!
//! The whole transition is first written as a mathematical function,
//! `spec_submit`, over an abstract model of the round (`RoundModel`); the
//! executable state (`GuessState`) carries that model as its view and
//! `submit_guess` is proved to follow it step for step. The laws of the
//! round — a repeated guess changes nothing, tries never increase, the
//! terminal states are exactly characterised — are proved of `spec_submit`
//! below.

use vstd::prelude::*;
use vstd::seq_lib::*;
use vstd::string::*;

verus! {

/// Where a round stands: still being played, solved, or out of tries.
#[derive(Clone, Copy, PartialEq, Eq, Structural, Debug)]
pub enum RoundStatus {
    InProgress,
    Won,
    Lost,
}

/// What a single guess did to the round. The first two are rejections:
/// they change nothing and consume no try.
#[derive(Clone, Copy, PartialEq, Eq, Structural, Debug)]
pub enum GuessOutcome {
    /// The guess was not a single lowercase letter.
    NotALetter,
    /// The letter is already in the guessed set.
    AlreadyGuessed,
    /// A new letter that occurs in the word; no try is consumed.
    Good,
    /// A new letter that does not occur in the word; one try is consumed.
    Wrong,
}

/// Guesses are single lowercase letters; the interface layer case-folds
/// input before it reaches the round.
pub open spec fn spec_is_lowercase_letter(c: char) -> bool {
    'a' <= c && c <= 'z'
}

/// Whether `c` is a letter the round accepts as a guess.
pub fn is_lowercase_letter(c: char) -> (b: bool)
    ensures
        b == spec_is_lowercase_letter(c),
{
    'a' <= c && c <= 'z'
}

/// The mathematical model of a round: the target word's letters, the
/// guessed letters in the order they were accepted, and the try counters.
pub struct RoundModel {
    pub word: Seq<char>,
    pub guessed: Seq<char>,
    pub tries_left: int,
    pub max_tries: int,
}

impl RoundModel {
    /// The round's invariant: tries stay within the budget, the budget is
    /// positive, and the guessed letters form a set of lowercase letters
    /// (no duplicates).
    pub open spec fn wf(self) -> bool {
        &&& 0 <= self.tries_left <= self.max_tries
        &&& 1 <= self.max_tries
        &&& self.guessed.no_duplicates()
        &&& forall|i: int|
            0 <= i < self.guessed.len() ==> spec_is_lowercase_letter(#[trigger] self.guessed[i])
    }

    /// Every distinct letter of the word has been guessed.
    pub open spec fn covered(self) -> bool {
        forall|i: int| 0 <= i < self.word.len() ==> self.guessed.contains(#[trigger] self.word[i])
    }

    /// The round is won the instant the word is covered; it is lost the
    /// instant the tries run out before that. The win check comes first,
    /// so a winning guess can never be overridden by the try counter.
    pub open spec fn status(self) -> RoundStatus {
        if self.covered() {
            RoundStatus::Won
        } else if self.tries_left == 0 {
            RoundStatus::Lost
        } else {
            RoundStatus::InProgress
        }
    }
}

/// The transition one guess makes: a rejected guess (not a single lowercase
/// letter, or already guessed) leaves the round as it was; a new letter
/// joins the guessed set; a new letter that misses the word costs one try.
pub open spec fn spec_submit(m: RoundModel, c: char) -> (RoundModel, GuessOutcome) {
    if !spec_is_lowercase_letter(c) {
        (m, GuessOutcome::NotALetter)
    } else if m.guessed.contains(c) {
        (m, GuessOutcome::AlreadyGuessed)
    } else if m.word.contains(c) {
        (
            RoundModel {
                word: m.word,
                guessed: m.guessed.push(c),
                tries_left: m.tries_left,
                max_tries: m.max_tries,
            },
            GuessOutcome::Good,
        )
    } else {
        (
            RoundModel {
                word: m.word,
                guessed: m.guessed.push(c),
                tries_left: m.tries_left - 1,
                max_tries: m.max_tries,
            },
            GuessOutcome::Wrong,
        )
    }
}

/// Guessing the same letter twice changes nothing the second time: the
/// round's state is untouched, and if the first submission accepted the
/// letter, the second is rejected as already guessed.
pub proof fn lemma_second_guess_changes_nothing(m: RoundModel, c: char)
    ensures
        ({
            let (m1, o1) = spec_submit(m, c);
            let (m2, o2) = spec_submit(m1, c);
            &&& m2 == m1
            &&& m2.tries_left == m1.tries_left
            &&& m2.guessed.len() == m1.guessed.len()
            &&& (o1 == GuessOutcome::Good || o1 == GuessOutcome::Wrong) ==> o2
                == GuessOutcome::AlreadyGuessed
        }),
{
    let (m1, o1) = spec_submit(m, c);
    if spec_is_lowercase_letter(c) && !m.guessed.contains(c) {
        assert(m1.guessed == m.guessed.push(c));
        assert(m1.guessed[m.guessed.len() as int] == c);
        assert(m1.guessed.contains(c));
    }
}

/// Tries never increase: one guess costs exactly one try when it is a new
/// letter that misses the word, and nothing otherwise.
pub proof fn lemma_tries_monotonic(m: RoundModel, c: char)
    ensures
        ({
            let (m1, o) = spec_submit(m, c);
            &&& m1.tries_left <= m.tries_left
            &&& (o == GuessOutcome::Wrong ==> m1.tries_left == m.tries_left - 1)
            &&& (o != GuessOutcome::Wrong ==> m1.tries_left == m.tries_left)
        }),
{
}

/// The terminal states, exactly: a round is `Won` if and only if the
/// guessed letters cover every distinct letter of the word, and `Lost` if
/// and only if the tries reached zero before that containment held. The
/// win check is unconditional: a covered word wins whatever the counter.
pub proof fn lemma_round_outcome(m: RoundModel)
    ensures
        m.status() == RoundStatus::Won <==> m.covered(),
        m.status() == RoundStatus::Lost <==> (m.tries_left == 0 && !m.covered()),
        m.status() == RoundStatus::InProgress <==> (m.tries_left != 0 && !m.covered()),
        m.covered() ==> m.status() == RoundStatus::Won,
{
}

/// A set with a new element stays a set.
proof fn lemma_push_keeps_no_duplicates(s: Seq<char>, c: char)
    requires
        s.no_duplicates(),
        !s.contains(c),
    ensures
        s.push(c).no_duplicates(),
{
    let t = s.push(c);
    assert forall|i: int, j: int|
        0 <= i < t.len() && 0 <= j < t.len() && i != j implies t[i] != t[j] by {
        if i < s.len() && j < s.len() {
            assert(t[i] == s[i] && t[j] == s[j]);
        } else if i == s.len() {
            assert(t[i] == c && t[j] == s[j]);
        } else {
            assert(t[j] == c && t[i] == s[i]);
        }
    }
}

/// The executable state of one round.
pub struct GuessState {
    word: String,
    guessed: Vec<char>,
    tries_left: u8,
    max_tries: u8,
}

impl View for GuessState {
    type V = RoundModel;

    closed spec fn view(&self) -> RoundModel {
        RoundModel {
            word: self.word@,
            guessed: self.guessed@,
            tries_left: self.tries_left as int,
            max_tries: self.max_tries as int,
        }
    }
}

/// Whether `c` occurs among the elements of `v`.
pub(crate) fn contains_char(v: &Vec<char>, c: char) -> (b: bool)
    ensures
        b == v@.contains(c),
{
    let n = v.len();
    for i in 0..n
        invariant
            n == v@.len(),
            forall|j: int| 0 <= j < i ==> v@[j] != c,
    {
        if v[i] == c {
            return true;
        }
    }
    false
}

/// Whether `c` occurs among the letters of `w`.
fn str_contains_char(w: &str, c: char) -> (b: bool)
    ensures
        b == w@.contains(c),
{
    let n = w.unicode_len();
    for i in 0..n
        invariant
            n == w@.len(),
            forall|j: int| 0 <= j < i ==> w@[j] != c,
    {
        if w.get_char(i) == c {
            return true;
        }
    }
    false
}

impl GuessState {
    /// A fresh round on `word` with the full budget and nothing guessed.
    pub fn new(word: String, max_tries: u8) -> (s: GuessState)
        requires
            max_tries >= 1,
        ensures
            s@.word == word@,
            s@.guessed == Seq::<char>::empty(),
            s@.tries_left == max_tries as int,
            s@.max_tries == max_tries as int,
            s@.wf(),
    {
        GuessState { word, guessed: Vec::new(), tries_left: max_tries, max_tries }
    }

    /// Whether every distinct letter of the word has been guessed.
    pub fn is_covered(&self) -> (b: bool)
        ensures
            b == self@.covered(),
    {
        let n = self.word.as_str().unicode_len();
        for i in 0..n
            invariant
                n == self@.word.len(),
                forall|j: int| 0 <= j < i ==> self@.guessed.contains(#[trigger] self@.word[j]),
        {
            if !contains_char(&self.guessed, self.word.as_str().get_char(i)) {
                return false;
            }
        }
        true
    }

    /// Where the round stands now.
    pub fn status(&self) -> (st: RoundStatus)
        ensures
            st == self@.status(),
    {
        if self.is_covered() {
            RoundStatus::Won
        } else if self.tries_left == 0 {
            RoundStatus::Lost
        } else {
            RoundStatus::InProgress
        }
    }

    /// Apply one guess, exactly as `spec_submit` describes it. Only a round
    /// still in progress accepts a guess: `Won` and `Lost` are terminal,
    /// and the caller stops once either is reached.
    pub fn submit_guess(&mut self, guess: char) -> (o: GuessOutcome)
        requires
            old(self)@.wf(),
            old(self)@.status() == RoundStatus::InProgress,
        ensures
            final(self)@ == spec_submit(old(self)@, guess).0,
            o == spec_submit(old(self)@, guess).1,
            final(self)@.wf(),
    {
        if !is_lowercase_letter(guess) {
            return GuessOutcome::NotALetter;
        }
        if contains_char(&self.guessed, guess) {
            return GuessOutcome::AlreadyGuessed;
        }
        proof {
            lemma_push_keeps_no_duplicates(self@.guessed, guess);
        }
        self.guessed.push(guess);
        if str_contains_char(self.word.as_str(), guess) {
            GuessOutcome::Good
        } else {
            self.tries_left = self.tries_left - 1;
            GuessOutcome::Wrong
        }
    }

    /// The tries that remain.
    pub fn tries_left(&self) -> (t: u8)
        ensures
            t as int == self@.tries_left,
    {
        self.tries_left
    }

    /// The budget the round started with.
    pub fn max_tries(&self) -> (t: u8)
        ensures
            t as int == self@.max_tries,
    {
        self.max_tries
    }

    /// The letters guessed so far, in the order they were accepted.
    pub fn guessed_letters(&self) -> (v: &Vec<char>)
        ensures
            v@ == self@.guessed,
    {
        &self.guessed
    }

    /// The target word.
    pub fn word(&self) -> (w: &String)
        ensures
            w@ == self@.word,
    {
        &self.word
    }
}

} // verus!
