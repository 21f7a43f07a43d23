//! Scoring of a guess against the secret answer.
//!
//! Each of the five positions is classified independently: an exact match is
//! `Correct`; otherwise a letter that occurs anywhere in the answer is
//! `WrongPosition`; otherwise it is `Incorrect`.
//!
//! Duplicate-letter policy: the containment test looks at the whole answer,
//! not just its letters that no other guess position already matched. A guess
//! may therefore earn `WrongPosition` for more copies of a letter than the
//! answer holds. This simpler scoring is kept deliberately; the contracts
//! below state it exactly.

use vstd::prelude::*;

verus! {

/// Per-position classification of one guess letter relative to the answer.
#[derive(Copy, Clone, PartialEq, Eq, Structural, Debug)]
pub enum Status {
    Correct,
    WrongPosition,
    Incorrect,
}

/// The number of letters in the answer and in every guess.
pub const WORD_LEN: usize = 5;

/// `c` occurs somewhere in `word`.
pub open spec fn contains_letter(word: Seq<u8>, c: u8) -> bool {
    exists|j: int| 0 <= j < word.len() && word[j] == c
}

/// The status of position `i` of `guess` scored against `answer`.
pub open spec fn letter_status(guess: Seq<u8>, answer: Seq<u8>, i: int) -> Status {
    if guess[i] == answer[i] {
        Status::Correct
    } else if contains_letter(answer, guess[i]) {
        Status::WrongPosition
    } else {
        Status::Incorrect
    }
}

/// All five statuses of `guess` scored against `answer`.
pub open spec fn result_statuses(guess: Seq<u8>, answer: Seq<u8>) -> Seq<Status> {
    Seq::new(WORD_LEN as nat, |i: int| letter_status(guess, answer, i))
}

/// Every status in `statuses` is `Correct`.
pub open spec fn all_correct(statuses: Seq<Status>) -> bool {
    forall|i: int| 0 <= i < statuses.len() ==> statuses[i] == Status::Correct
}

/// Whether `c` occurs anywhere in `word`.
fn word_contains(word: &[u8; 5], c: u8) -> (found: bool)
    ensures
        found == contains_letter(word@, c),
{
    let mut i: usize = 0;
    while i < 5
        invariant
            i <= 5,
            forall|j: int| 0 <= j < i ==> word@[j] != c,
        decreases 5 - i,
    {
        if word[i] == c {
            return true;
        }
        i = i + 1;
    }
    false
}

/// Score `guess` against `answer`: the flag says whether the guess is fully
/// correct, and the array gives the per-position statuses.
pub fn check_guess(guess: &[u8; 5], answer: &[u8; 5]) -> (r: (bool, [Status; 5]))
    ensures
        r.1@ == result_statuses(guess@, answer@),
        r.0 == (guess@ =~= answer@),
        r.0 == all_correct(r.1@),
{
    let mut result: [Status; 5] = [Status::Incorrect; 5];
    let mut correct = true;
    let mut i: usize = 0;
    while i < 5
        invariant
            i <= 5,
            forall|j: int| 0 <= j < i ==> result@[j] == letter_status(guess@, answer@, j),
            correct == (forall|j: int| 0 <= j < i ==> guess@[j] == answer@[j]),
        decreases 5 - i,
    {
        if guess[i] == answer[i] {
            result[i] = Status::Correct;
        } else if word_contains(answer, guess[i]) {
            correct = false;
            result[i] = Status::WrongPosition;
        } else {
            correct = false;
            result[i] = Status::Incorrect;
        }
        i = i + 1;
    }
    proof {
        assert(result@ =~= result_statuses(guess@, answer@));
        assert((guess@ =~= answer@) == (forall|j: int| 0 <= j < 5 ==> guess@[j] == answer@[j]));
        lemma_fully_correct_iff_all_correct(guess@, answer@);
    }
    (correct, result)
}

/// A guess equal to the answer scores `Correct` at every position.
pub proof fn lemma_equal_guess_all_correct(guess: Seq<u8>, answer: Seq<u8>)
    requires
        guess.len() == WORD_LEN,
        answer.len() == WORD_LEN,
        guess =~= answer,
    ensures
        all_correct(result_statuses(guess, answer)),
{
}

/// An exact match at position `i` is `Correct`, whatever the other positions
/// hold.
pub proof fn lemma_match_is_correct(guess: Seq<u8>, answer: Seq<u8>, i: int)
    requires
        guess.len() == WORD_LEN,
        answer.len() == WORD_LEN,
        0 <= i < WORD_LEN,
        guess[i] == answer[i],
    ensures
        result_statuses(guess, answer)[i] == Status::Correct,
{
}

/// A letter that misses its position but occurs elsewhere in the answer is
/// `WrongPosition`.
pub proof fn lemma_present_elsewhere_is_wrong_position(guess: Seq<u8>, answer: Seq<u8>, i: int)
    requires
        guess.len() == WORD_LEN,
        answer.len() == WORD_LEN,
        0 <= i < WORD_LEN,
        guess[i] != answer[i],
        contains_letter(answer, guess[i]),
    ensures
        result_statuses(guess, answer)[i] == Status::WrongPosition,
{
}

/// A letter that occurs nowhere in the answer is `Incorrect`.
pub proof fn lemma_absent_is_incorrect(guess: Seq<u8>, answer: Seq<u8>, i: int)
    requires
        guess.len() == WORD_LEN,
        answer.len() == WORD_LEN,
        0 <= i < WORD_LEN,
        guess[i] != answer[i],
        !contains_letter(answer, guess[i]),
    ensures
        result_statuses(guess, answer)[i] == Status::Incorrect,
{
}

/// The guess is fully correct exactly when every status is `Correct`,
/// equivalently when guess and answer agree character for character.
pub proof fn lemma_fully_correct_iff_all_correct(guess: Seq<u8>, answer: Seq<u8>)
    requires
        guess.len() == WORD_LEN,
        answer.len() == WORD_LEN,
    ensures
        all_correct(result_statuses(guess, answer)) == (guess =~= answer),
{
    if all_correct(result_statuses(guess, answer)) {
        assert forall|i: int| 0 <= i < WORD_LEN implies guess[i] == answer[i] by {
            assert(result_statuses(guess, answer)[i] == Status::Correct);
        }
        assert(guess =~= answer);
    }
    if guess =~= answer {
        lemma_equal_guess_all_correct(guess, answer);
    }
}

} // verus!
