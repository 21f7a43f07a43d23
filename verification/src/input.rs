//! Validation and normalisation of one typed line.
//!
//! A line is accepted when, after trailing whitespace is removed, it holds
//! exactly five ASCII letters of either case. An accepted line is uppercased
//! into a fixed five-byte word; everything else is rejected.

use vstd::prelude::*;

verus! {

/// `b` is an ASCII whitespace byte (tab through carriage return, or space).
pub open spec fn is_ascii_space(b: u8) -> bool {
    b == 32 || (9 <= b && b <= 13)
}

/// `b` is an ASCII letter of either case.
pub open spec fn is_ascii_letter(b: u8) -> bool {
    (65 <= b && b <= 90) || (97 <= b && b <= 122)
}

/// `b` with a lowercase ASCII letter mapped to its uppercase form; every
/// other byte is unchanged.
pub open spec fn to_upper(b: u8) -> u8 {
    if 97 <= b && b <= 122 {
        (b - 32) as u8
    } else {
        b
    }
}

/// The length of `line` once trailing ASCII whitespace is removed.
pub open spec fn trimmed_len(line: Seq<u8>) -> int
    decreases line.len(),
{
    if line.len() == 0 {
        0
    } else if is_ascii_space(line[line.len() - 1]) {
        trimmed_len(line.drop_last())
    } else {
        line.len() as int
    }
}

/// `line` with its trailing ASCII whitespace removed.
pub open spec fn trimmed(line: Seq<u8>) -> Seq<u8> {
    line.subrange(0, trimmed_len(line))
}

/// `line` is exactly five bytes, all ASCII letters.
pub open spec fn valid_guess_line(line: Seq<u8>) -> bool {
    line.len() == 5 && forall|i: int| 0 <= i < line.len() ==> is_ascii_letter(#[trigger] line[i])
}

/// `line` uppercased byte for byte.
pub open spec fn upper_seq(line: Seq<u8>) -> Seq<u8> {
    Seq::new(line.len(), |i: int| to_upper(line[i]))
}

proof fn lemma_trimmed_len_bounds(line: Seq<u8>)
    ensures
        0 <= trimmed_len(line) <= line.len(),
    decreases line.len(),
{
    if line.len() > 0 && is_ascii_space(line[line.len() - 1]) {
        lemma_trimmed_len_bounds(line.drop_last());
    }
}

/// A copy of `line` with trailing ASCII whitespace removed.
pub fn trim_trailing_space(line: &Vec<u8>) -> (r: Vec<u8>)
    ensures
        r@ == trimmed(line@),
{
    proof {
        lemma_trimmed_len_bounds(line@);
        assert(line@.subrange(0, line@.len() as int) =~= line@);
    }
    let mut end: usize = line.len();
    while end > 0 && is_space_byte(line[end - 1])
        invariant
            end <= line@.len(),
            trimmed_len(line@) == trimmed_len(line@.subrange(0, end as int)),
            trimmed_len(line@.subrange(0, end as int)) <= end,
        decreases end,
    {
        proof {
            let prefix = line@.subrange(0, end as int);
            assert(prefix.drop_last() =~= line@.subrange(0, end as int - 1));
            assert(is_ascii_space(prefix[prefix.len() - 1]));
            lemma_trimmed_len_bounds(line@.subrange(0, end as int - 1));
        }
        end = end - 1;
    }
    proof {
        let prefix = line@.subrange(0, end as int);
        if end > 0 {
            assert(!is_ascii_space(prefix[prefix.len() - 1]));
        }
        assert(trimmed_len(prefix) == end as int);
    }
    let mut r: Vec<u8> = Vec::new();
    let mut i: usize = 0;
    while i < end
        invariant
            i <= end,
            end <= line@.len(),
            r@ == line@.subrange(0, i as int),
        decreases end - i,
    {
        r.push(line[i]);
        proof {
            assert(r@ =~= line@.subrange(0, i as int + 1));
        }
        i = i + 1;
    }
    proof {
        assert(r@ == trimmed(line@));
    }
    r
}

/// Whether `b` is an ASCII whitespace byte.
fn is_space_byte(b: u8) -> (r: bool)
    ensures
        r == is_ascii_space(b),
{
    b == 32 || (9 <= b && b <= 13)
}

/// Whether `b` is an ASCII letter of either case.
fn is_letter_byte(b: u8) -> (r: bool)
    ensures
        r == is_ascii_letter(b),
{
    (65 <= b && b <= 90) || (97 <= b && b <= 122)
}

/// `b` uppercased.
fn upper_byte(b: u8) -> (r: u8)
    ensures
        r == to_upper(b),
{
    if 97 <= b && b <= 122 {
        b - 32
    } else {
        b
    }
}

/// Validate a trimmed line: accepted exactly when it is five ASCII letters,
/// in which case the uppercased word is returned.
pub fn parse_guess(line: &Vec<u8>) -> (r: Option<[u8; 5]>)
    ensures
        match r {
            Some(g) => valid_guess_line(line@) && g@ == upper_seq(line@),
            None => !valid_guess_line(line@),
        },
{
    if line.len() != 5 {
        return None;
    }
    let mut i: usize = 0;
    while i < 5
        invariant
            i <= 5,
            line@.len() == 5,
            forall|j: int| 0 <= j < i ==> is_ascii_letter(#[trigger] line@[j]),
        decreases 5 - i,
    {
        if !is_letter_byte(line[i]) {
            return None;
        }
        i = i + 1;
    }
    let g: [u8; 5] = [
        upper_byte(line[0]),
        upper_byte(line[1]),
        upper_byte(line[2]),
        upper_byte(line[3]),
        upper_byte(line[4]),
    ];
    proof {
        assert(g@ =~= upper_seq(line@));
    }
    Some(g)
}

} // verus!
