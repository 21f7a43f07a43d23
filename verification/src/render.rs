//! Terminal output, built as exact byte sequences.
//!
//! Every piece of output the game prints — colour escapes, the coloured row
//! for a scored guess, the victory banner, and the cursor-control sequences
//! that clear the screen or erase a transient line — is produced here as a
//! `Vec<u8>` whose contents a spec function pins down byte for byte. The
//! colour policy (which status gets which background, which banner position
//! gets which colour pair) stands in spec functions of its own, apart from
//! the mechanics of assembling escape codes.
//!
//! The escape sequences are the usual ANSI/VT100 ones: `ESC[38;2;r;g;bm`
//! sets a 24-bit foreground, `ESC[48;2;r;g;bm` a background, `ESC[0m` resets,
//! `ESC[H` and `ESC[J` home the cursor and clear the screen, `ESC[A` moves up
//! one line and `ESC[2K` erases it.

use vstd::prelude::*;
use crate::evaluate::Status;

verus! {

/// The decimal digits of `n`, most significant first, as ASCII bytes.
pub open spec fn decimal_digits(n: int) -> Seq<u8>
    recommends
        0 <= n,
    decreases n,
{
    if n < 10 {
        seq![(48 + n) as u8]
    } else {
        decimal_digits(n / 10).push((48 + n % 10) as u8)
    }
}

/// The SGR escape `ESC [ layer ; 2 ; r ; g ; b m` selecting a 24-bit colour:
/// layer 38 is the foreground, layer 48 the background.
pub open spec fn sgr_color(layer: int, r: int, g: int, b: int) -> Seq<u8> {
    seq![27u8, 91u8] + decimal_digits(layer) + seq![59u8, 50u8, 59u8] + decimal_digits(r)
        + seq![59u8] + decimal_digits(g) + seq![59u8] + decimal_digits(b) + seq![109u8]
}

/// The SGR reset escape `ESC [ 0 m`.
pub open spec fn sgr_reset() -> Seq<u8> {
    seq![27u8, 91u8, 48u8, 109u8]
}

/// `ESC [ H ESC [ J` and a newline: home the cursor and clear the screen.
pub open spec fn clear_screen_seq() -> Seq<u8> {
    seq![27u8, 91u8, 72u8, 27u8, 91u8, 74u8, 10u8]
}

/// `ESC [ A ESC [ 2 K`: move the cursor up one line and erase that line.
pub open spec fn erase_line_seq() -> Seq<u8> {
    seq![27u8, 91u8, 65u8, 27u8, 91u8, 50u8, 75u8]
}

/// The background colour for a letter status: green for `Correct`, gold for
/// `WrongPosition`, gray for `Incorrect`.
pub open spec fn status_bg_rgb(st: Status) -> (int, int, int) {
    match st {
        Status::Correct => (108, 169, 101),
        Status::WrongPosition => (200, 182, 83),
        Status::Incorrect => (120, 124, 127),
    }
}

/// The background escape for a letter status.
pub open spec fn status_bg_seq(st: Status) -> Seq<u8> {
    sgr_color(48, status_bg_rgb(st).0, status_bg_rgb(st).1, status_bg_rgb(st).2)
}

/// One cell of a guess row: the status background, the letter padded with one
/// space on each side, and a reset.
pub open spec fn cell_seq(letter: u8, st: Status) -> Seq<u8> {
    status_bg_seq(st) + seq![32u8, letter, 32u8] + sgr_reset()
}

/// The cells of a guess row from position `i` on, with one plain space
/// between neighbouring cells.
pub open spec fn cells_from(guess: Seq<u8>, statuses: Seq<Status>, i: int) -> Seq<u8>
    recommends
        0 <= i <= 5,
    decreases 5 - i,
{
    if i < 0 || i >= 5 {
        Seq::empty()
    } else {
        cell_seq(guess[i], statuses[i]) + (if i < 4 {
            seq![32u8]
        } else {
            Seq::<u8>::empty()
        }) + cells_from(guess, statuses, i + 1)
    }
}

/// A full guess row: white foreground, the five cells, a reset and a newline.
/// Once printed, such a row is permanent terminal output.
pub open spec fn guess_row_seq(guess: Seq<u8>, statuses: Seq<Status>) -> Seq<u8> {
    sgr_color(38, 255, 255, 255) + cells_from(guess, statuses, 0) + sgr_reset() + seq![10u8]
}

/// The foreground colour of victory-banner position `i`.
pub open spec fn banner_fg_rgb(i: int) -> (int, int, int) {
    if i == 0 || i == 2 {
        (0, 0, 0)
    } else if i == 1 {
        (255, 0, 128)
    } else if i == 3 {
        (0, 255, 0)
    } else {
        (255, 255, 255)
    }
}

/// The background colour of victory-banner position `i`.
pub open spec fn banner_bg_rgb(i: int) -> (int, int, int) {
    if i == 0 || i == 2 {
        (255, 255, 0)
    } else if i == 1 {
        (0, 255, 0)
    } else if i == 3 {
        (255, 255, 255)
    } else {
        (255, 128, 0)
    }
}

/// One cell of the victory banner: the position's foreground and background
/// escapes, the letter padded with one space on each side, and a reset.
pub open spec fn banner_cell_seq(letter: u8, i: int) -> Seq<u8> {
    sgr_color(38, banner_fg_rgb(i).0, banner_fg_rgb(i).1, banner_fg_rgb(i).2) + sgr_color(
        48,
        banner_bg_rgb(i).0,
        banner_bg_rgb(i).1,
        banner_bg_rgb(i).2,
    ) + seq![32u8, letter, 32u8] + sgr_reset()
}

/// The victory-banner cells from position `i` on, with one plain space
/// between neighbouring cells.
pub open spec fn banner_cells_from(answer: Seq<u8>, i: int) -> Seq<u8>
    recommends
        0 <= i <= 5,
    decreases 5 - i,
{
    if i < 0 || i >= 5 {
        Seq::empty()
    } else {
        banner_cell_seq(answer[i], i) + (if i < 4 {
            seq![32u8]
        } else {
            Seq::<u8>::empty()
        }) + banner_cells_from(answer, i + 1)
    }
}

/// The full victory banner: the five letters of the answer, each in its own
/// fixed colour pair, and a newline.
pub open spec fn victory_banner_seq(answer: Seq<u8>) -> Seq<u8> {
    banner_cells_from(answer, 0) + seq![10u8]
}

/// The transient notice shown for a rejected line: `Invalid input: `, the
/// trimmed line as typed, and a newline.
pub open spec fn invalid_notice_seq(line: Seq<u8>) -> Seq<u8> {
    seq![
        73u8, 110u8, 118u8, 97u8, 108u8, 105u8, 100u8, 32u8, 105u8, 110u8, 112u8, 117u8, 116u8,
        58u8, 32u8,
    ] + line + seq![10u8]
}

/// Append the decimal digits of `n` to `out`.
fn push_decimal(out: &mut Vec<u8>, n: u8)
    ensures
        final(out)@ == old(out)@ + decimal_digits(n as int),
    decreases n,
{
    if n < 10 {
        out.push(48 + n);
        proof {
            assert(final(out)@ =~= old(out)@ + decimal_digits(n as int));
        }
    } else {
        push_decimal(out, n / 10);
        out.push(48 + n % 10);
        proof {
            assert(final(out)@ =~= old(out)@ + decimal_digits(n as int));
        }
    }
}

/// Append the SGR colour escape for `layer` (38 or 48) and the colour
/// `(r, g, b)` to `out`.
fn push_sgr_color(out: &mut Vec<u8>, layer: u8, r: u8, g: u8, b: u8)
    ensures
        final(out)@ == old(out)@ + sgr_color(layer as int, r as int, g as int, b as int),
{
    out.push(27);
    out.push(91);
    push_decimal(out, layer);
    out.push(59);
    out.push(50);
    out.push(59);
    push_decimal(out, r);
    out.push(59);
    push_decimal(out, g);
    out.push(59);
    push_decimal(out, b);
    out.push(109);
    proof {
        assert(final(out)@ =~= old(out)@ + sgr_color(
            layer as int,
            r as int,
            g as int,
            b as int,
        ));
    }
}

/// Append the SGR reset escape to `out`.
fn push_sgr_reset(out: &mut Vec<u8>)
    ensures
        final(out)@ == old(out)@ + sgr_reset(),
{
    out.push(27);
    out.push(91);
    out.push(48);
    out.push(109);
    proof {
        assert(final(out)@ =~= old(out)@ + sgr_reset());
    }
}

/// The bytes that home the cursor and clear the screen.
pub fn clear_screen_bytes() -> (out: Vec<u8>)
    ensures
        out@ == clear_screen_seq(),
{
    let mut out: Vec<u8> = Vec::new();
    out.push(27);
    out.push(91);
    out.push(72);
    out.push(27);
    out.push(91);
    out.push(74);
    out.push(10);
    proof {
        assert(out@ =~= clear_screen_seq());
    }
    out
}

/// The bytes that move the cursor up one line and erase it.
pub fn erase_line_bytes() -> (out: Vec<u8>)
    ensures
        out@ == erase_line_seq(),
{
    let mut out: Vec<u8> = Vec::new();
    out.push(27);
    out.push(91);
    out.push(65);
    out.push(27);
    out.push(91);
    out.push(50);
    out.push(75);
    proof {
        assert(out@ =~= erase_line_seq());
    }
    out
}

/// The background colour for a letter status, as red, green and blue parts.
pub fn status_background(st: Status) -> (rgb: (u8, u8, u8))
    ensures
        (rgb.0 as int, rgb.1 as int, rgb.2 as int) == status_bg_rgb(st),
{
    match st {
        Status::Correct => (108, 169, 101),
        Status::WrongPosition => (200, 182, 83),
        Status::Incorrect => (120, 124, 127),
    }
}

/// The coloured row for a scored guess, byte for byte.
pub fn render_guess_row(guess: &[u8; 5], statuses: &[Status; 5]) -> (out: Vec<u8>)
    ensures
        out@ == guess_row_seq(guess@, statuses@),
{
    let mut out: Vec<u8> = Vec::new();
    push_sgr_color(&mut out, 38, 255, 255, 255);
    let mut i: usize = 0;
    while i < 5
        invariant
            i <= 5,
            out@ + cells_from(guess@, statuses@, i as int) == sgr_color(38, 255, 255, 255)
                + cells_from(guess@, statuses@, 0),
        decreases 5 - i,
    {
        let ghost before = out@;
        let (r, g, b) = status_background(statuses[i]);
        push_sgr_color(&mut out, 48, r, g, b);
        out.push(32);
        out.push(guess[i]);
        out.push(32);
        push_sgr_reset(&mut out);
        if i < 4 {
            out.push(32);
        }
        proof {
            assert(status_bg_seq(statuses@[i as int]) =~= sgr_color(
                48,
                r as int,
                g as int,
                b as int,
            ));
            if i < 4 {
                assert(out@ =~= before + cell_seq(guess@[i as int], statuses@[i as int])
                    + seq![32u8]);
            } else {
                assert(out@ =~= before + cell_seq(guess@[i as int], statuses@[i as int]));
            }
            assert(out@ + cells_from(guess@, statuses@, i as int + 1) =~= before + cells_from(
                guess@,
                statuses@,
                i as int,
            ));
        }
        i = i + 1;
    }
    push_sgr_reset(&mut out);
    out.push(10);
    proof {
        assert(cells_from(guess@, statuses@, 5) =~= Seq::<u8>::empty());
        assert(out@ =~= guess_row_seq(guess@, statuses@));
    }
    out
}

/// The foreground and background colours of victory-banner position `i`.
fn banner_colors(i: usize) -> (c: ((u8, u8, u8), (u8, u8, u8)))
    requires
        i < 5,
    ensures
        (c.0.0 as int, c.0.1 as int, c.0.2 as int) == banner_fg_rgb(i as int),
        (c.1.0 as int, c.1.1 as int, c.1.2 as int) == banner_bg_rgb(i as int),
{
    if i == 0 || i == 2 {
        ((0, 0, 0), (255, 255, 0))
    } else if i == 1 {
        ((255, 0, 128), (0, 255, 0))
    } else if i == 3 {
        ((0, 255, 0), (255, 255, 255))
    } else {
        ((255, 255, 255), (255, 128, 0))
    }
}

/// The victory banner for `answer`, byte for byte.
pub fn render_victory_banner(answer: &[u8; 5]) -> (out: Vec<u8>)
    ensures
        out@ == victory_banner_seq(answer@),
{
    let mut out: Vec<u8> = Vec::new();
    let mut i: usize = 0;
    while i < 5
        invariant
            i <= 5,
            out@ + banner_cells_from(answer@, i as int) == banner_cells_from(answer@, 0),
        decreases 5 - i,
    {
        let ghost before = out@;
        let ((fr, fg, fb), (br, bg, bb)) = banner_colors(i);
        push_sgr_color(&mut out, 38, fr, fg, fb);
        push_sgr_color(&mut out, 48, br, bg, bb);
        out.push(32);
        out.push(answer[i]);
        out.push(32);
        push_sgr_reset(&mut out);
        if i < 4 {
            out.push(32);
        }
        proof {
            if i < 4 {
                assert(out@ =~= before + banner_cell_seq(answer@[i as int], i as int)
                    + seq![32u8]);
            } else {
                assert(out@ =~= before + banner_cell_seq(answer@[i as int], i as int));
            }
            assert(out@ + banner_cells_from(answer@, i as int + 1) =~= before + banner_cells_from(
                answer@,
                i as int,
            ));
        }
        i = i + 1;
    }
    out.push(10);
    proof {
        assert(banner_cells_from(answer@, 5) =~= Seq::<u8>::empty());
        assert(out@ =~= victory_banner_seq(answer@));
    }
    out
}

/// The transient notice for a rejected line, byte for byte.
pub fn render_invalid_notice(line: &Vec<u8>) -> (out: Vec<u8>)
    ensures
        out@ == invalid_notice_seq(line@),
{
    let mut out: Vec<u8> = Vec::new();
    out.push(73);
    out.push(110);
    out.push(118);
    out.push(97);
    out.push(108);
    out.push(105);
    out.push(100);
    out.push(32);
    out.push(105);
    out.push(110);
    out.push(112);
    out.push(117);
    out.push(116);
    out.push(58);
    out.push(32);
    let ghost header = out@;
    let mut i: usize = 0;
    while i < line.len()
        invariant
            i <= line@.len(),
            out@ == header + line@.subrange(0, i as int),
            header =~= seq![
                73u8, 110u8, 118u8, 97u8, 108u8, 105u8, 100u8, 32u8, 105u8, 110u8, 112u8, 117u8,
                116u8, 58u8, 32u8,
            ],
        decreases line@.len() - i,
    {
        out.push(line[i]);
        proof {
            assert(out@ =~= header + line@.subrange(0, i as int + 1));
        }
        i = i + 1;
    }
    out.push(10);
    proof {
        assert(line@.subrange(0, line@.len() as int) =~= line@);
        assert(out@ =~= invalid_notice_seq(line@));
    }
    out
}

} // verus!
