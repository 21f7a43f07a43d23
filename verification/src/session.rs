//! The game's state machine.
//!
//! A [`Session`] owns the secret answer and the two pieces of control state
//! the interactive loop needs: whether the previous line was rejected (so
//! that its notice must still be erased) and whether the game is over. Each
//! typed line is handed to [`Session::handle_line`], which returns the exact
//! bytes to print and moves the session to its next state; the spec functions
//! [`step_output`], [`step_phase`] and [`step_prev_invalid`] pin both down.
//!
//! The caller's loop is plain: print [`Session::opening_output`] once, then
//! repeatedly read one line and print what `handle_line` returns. Every
//! transient line (the echoed input, a stale rejection notice) is erased by
//! the returned bytes before anything new is shown, so the visible transcript
//! keeps only the hint row, one permanent coloured row per valid but wrong
//! guess, at most one rejection notice, and finally the victory banner. After
//! the banner the session only absorbs input: every further line is answered
//! with the bytes that erase its echo, for ever.

use vstd::prelude::*;
use crate::evaluate::check_guess;
use crate::evaluate::result_statuses;
use crate::input::is_ascii_letter;
use crate::input::parse_guess;
use crate::input::trim_trailing_space;
use crate::input::trimmed;
use crate::input::upper_seq;
use crate::input::valid_guess_line;
use crate::render::clear_screen_bytes;
use crate::render::clear_screen_seq;
use crate::render::erase_line_bytes;
use crate::render::erase_line_seq;
use crate::render::guess_row_seq;
use crate::render::invalid_notice_seq;
use crate::render::render_guess_row;
use crate::render::render_invalid_notice;
use crate::render::render_victory_banner;
use crate::render::victory_banner_seq;

verus! {

/// Whether the game still accepts guesses or only absorbs input.
#[derive(Copy, Clone, PartialEq, Eq, Structural, Debug)]
pub enum Phase {
    Playing,
    GameOver,
}

/// The secret answer, `SUSHI`, fixed for the whole session.
pub open spec fn answer_word() -> Seq<u8> {
    seq![83u8, 85u8, 83u8, 72u8, 73u8]
}

/// The fixed hint word, `SHELF`, scored and shown once at startup.
pub open spec fn hint_word() -> Seq<u8> {
    seq![83u8, 72u8, 69u8, 76u8, 70u8]
}

/// One interactive game: the answer and the loop's control state.
pub struct Session {
    /// The secret answer.
    pub answer: [u8; 5],
    /// The previous line was rejected and its notice is still on screen.
    pub previous_input_invalid: bool,
    /// Whether guesses are still accepted.
    pub phase: Phase,
}

/// The bytes printed once at startup: clear the screen, then the hint word
/// scored against the answer as a permanent coloured row.
pub open spec fn opening_seq(answer: Seq<u8>) -> Seq<u8> {
    clear_screen_seq() + guess_row_seq(hint_word(), result_statuses(hint_word(), answer))
}

/// The bytes printed in answer to one typed line.
///
/// While playing, the echoed line is erased first, then a stale rejection
/// notice if one is showing; an invalid line earns a fresh notice, a wrong
/// guess its coloured row, and the correct guess the victory banner. Once
/// the game is over, only the echo is erased.
pub open spec fn step_output(s: Session, line: Seq<u8>) -> Seq<u8> {
    match s.phase {
        Phase::GameOver => erase_line_seq(),
        Phase::Playing => {
            let pre = erase_line_seq() + (if s.previous_input_invalid {
                erase_line_seq()
            } else {
                Seq::<u8>::empty()
            });
            let t = trimmed(line);
            if !valid_guess_line(t) {
                pre + invalid_notice_seq(t)
            } else if upper_seq(t) =~= s.answer@ {
                pre + victory_banner_seq(s.answer@)
            } else {
                pre + guess_row_seq(upper_seq(t), result_statuses(upper_seq(t), s.answer@))
            }
        },
    }
}

/// The phase after one typed line: the game ends exactly when a valid line
/// uppercases to the answer, and a finished game stays finished.
pub open spec fn step_phase(s: Session, line: Seq<u8>) -> Phase {
    match s.phase {
        Phase::GameOver => Phase::GameOver,
        Phase::Playing => if valid_guess_line(trimmed(line)) && upper_seq(trimmed(line))
            =~= s.answer@ {
            Phase::GameOver
        } else {
            Phase::Playing
        },
    }
}

/// The rejection flag after one typed line: set exactly when a line was
/// rejected while playing; untouched once the game is over.
pub open spec fn step_prev_invalid(s: Session, line: Seq<u8>) -> bool {
    match s.phase {
        Phase::GameOver => s.previous_input_invalid,
        Phase::Playing => !valid_guess_line(trimmed(line)),
    }
}

impl Session {
    /// A fresh game with the fixed answer, ready for its first guess.
    pub fn new() -> (s: Session)
        ensures
            s.answer@ == answer_word(),
            s.phase == Phase::Playing,
            s.previous_input_invalid == false,
    {
        let answer: [u8; 5] = [83, 85, 83, 72, 73];
        proof {
            assert(answer@ =~= answer_word());
        }
        Session { answer, previous_input_invalid: false, phase: Phase::Playing }
    }

    /// The bytes to print once at startup.
    pub fn opening_output(&self) -> (out: Vec<u8>)
        ensures
            out@ == opening_seq(self.answer@),
    {
        let mut out = clear_screen_bytes();
        let hint: [u8; 5] = [83, 72, 69, 76, 70];
        proof {
            assert(hint@ =~= hint_word());
        }
        let (_correct, statuses) = check_guess(&hint, &self.answer);
        let mut row = render_guess_row(&hint, &statuses);
        out.append(&mut row);
        proof {
            assert(out@ =~= opening_seq(self.answer@));
        }
        out
    }

    /// Consume one typed line: returns the exact bytes to print and moves
    /// the session to its next state. The answer never changes.
    pub fn handle_line(&mut self, line: &Vec<u8>) -> (out: Vec<u8>)
        ensures
            final(self).answer == old(self).answer,
            final(self).phase == step_phase(*old(self), line@),
            final(self).previous_input_invalid == step_prev_invalid(*old(self), line@),
            out@ == step_output(*old(self), line@),
    {
        match self.phase {
            Phase::GameOver => erase_line_bytes(),
            Phase::Playing => {
                let mut out = erase_line_bytes();
                if self.previous_input_invalid {
                    let mut second = erase_line_bytes();
                    out.append(&mut second);
                    self.previous_input_invalid = false;
                }
                let ghost pre = out@;
                let t = trim_trailing_space(line);
                match parse_guess(&t) {
                    None => {
                        self.previous_input_invalid = true;
                        let mut notice = render_invalid_notice(&t);
                        out.append(&mut notice);
                        proof {
                            assert(out@ =~= step_output(*old(self), line@));
                        }
                        out
                    },
                    Some(guess) => {
                        let (correct, statuses) = check_guess(&guess, &self.answer);
                        if correct {
                            self.phase = Phase::GameOver;
                            let mut banner = render_victory_banner(&self.answer);
                            out.append(&mut banner);
                            proof {
                                assert(out@ =~= step_output(*old(self), line@));
                            }
                            out
                        } else {
                            let mut row = render_guess_row(&guess, &statuses);
                            out.append(&mut row);
                            proof {
                                assert(out@ =~= step_output(*old(self), line@));
                            }
                            out
                        }
                    },
                }
            },
        }
    }
}

/// The fixed words obey the data model: each is exactly five uppercase ASCII
/// letters, unchanged by uppercasing — so the answer is reachable by a valid
/// guess, and the hint is itself a well-formed guess.
pub proof fn lemma_fixed_words_well_formed()
    ensures
        valid_guess_line(answer_word()),
        upper_seq(answer_word()) == answer_word(),
        valid_guess_line(hint_word()),
        upper_seq(hint_word()) == hint_word(),
{
    assert forall|i: int| 0 <= i < answer_word().len() implies is_ascii_letter(
        #[trigger] answer_word()[i],
    ) by {
        assert(answer_word()[0] == 83);
        assert(answer_word()[1] == 85);
        assert(answer_word()[2] == 83);
        assert(answer_word()[3] == 72);
        assert(answer_word()[4] == 73);
    }
    assert forall|i: int| 0 <= i < hint_word().len() implies is_ascii_letter(
        #[trigger] hint_word()[i],
    ) by {
        assert(hint_word()[0] == 83);
        assert(hint_word()[1] == 72);
        assert(hint_word()[2] == 69);
        assert(hint_word()[3] == 76);
        assert(hint_word()[4] == 70);
    }
    assert(upper_seq(answer_word()) =~= answer_word());
    assert(upper_seq(hint_word()) =~= hint_word());
}

/// Once the game is over the session is locked: whatever line comes in, the
/// output only erases its echo, and the state does not move.
pub proof fn lemma_game_over_absorbs(s: Session, line: Seq<u8>)
    requires
        s.phase == Phase::GameOver,
    ensures
        step_output(s, line) == erase_line_seq(),
        step_phase(s, line) == Phase::GameOver,
        step_prev_invalid(s, line) == s.previous_input_invalid,
{
}

} // verus!
