//! Sizes on disk as the interface shows them: bytes below a kibibyte, else
//! the largest binary unit with two decimals.

use vstd::prelude::*;
use vstd::string::*;

use crate::text::{decimal_digits, decimal_text, digit_char};

verus! {

/// Bytes in a kibibyte.
pub const KB: u64 = 1024;

/// Bytes in a mebibyte.
pub const MB: u64 = 1048576;

/// Bytes in a gibibyte.
pub const GB: u64 = 1073741824;

/// The first size that a significand of 53 bits cannot hold exactly: 2^53.
pub const EXACT_LIMIT: u64 = 0x20_0000_0000_0000;

/// `num / den` rounded to the nearest whole number, a tie going to the even
/// neighbour.
pub open spec fn rounded_quotient(num: nat, den: nat) -> nat
    recommends
        den > 0,
{
    let q = num / den;
    let r = num % den;
    if 2 * r > den || (2 * r == den && q % 2 == 1) {
        q + 1
    } else {
        q
    }
}

/// The distance between neighbouring values that a significand of 53 bits
/// can hold at the magnitude of `size`: 1 below 2^53, doubling with each
/// further bit.
pub open spec fn significand_step(size: nat) -> nat
    decreases size,
{
    if size < EXACT_LIMIT {
        1
    } else {
        2 * significand_step(size / 2)
    }
}

/// The size as the display works with it: the nearest value that a
/// significand of 53 bits can hold, a tie going to the even significand.
pub open spec fn displayed_size(size: nat) -> nat {
    rounded_quotient(size, significand_step(size)) * significand_step(size)
}

/// Hundredths of `unit` in `size`, rounded to the nearest, a tie going to
/// the even neighbour.
pub open spec fn hundredths(size: nat, unit: nat) -> nat {
    rounded_quotient(displayed_size(size) * 100, unit)
}

/// A number below one hundred with both of its digits.
pub open spec fn two_digits(n: nat) -> Seq<char> {
    seq![digit_char(n / 10), digit_char(n % 10)]
}

/// `size` in `unit` with two decimals, then `suffix`.
pub open spec fn scaled_label(size: nat, unit: nat, suffix: Seq<char>) -> Seq<char> {
    decimal_digits(hundredths(size, unit) / 100) + seq!['.'] + two_digits(
        hundredths(size, unit) % 100,
    ) + suffix
}

/// How a size in bytes is shown.
pub open spec fn size_label(size: u64) -> Seq<char> {
    if size >= GB {
        scaled_label(size as nat, GB as nat, " GB"@)
    } else if size >= MB {
        scaled_label(size as nat, MB as nat, " MB"@)
    } else if size >= KB {
        scaled_label(size as nat, KB as nat, " KB"@)
    } else {
        decimal_digits(size as nat) + " B"@
    }
}

/// Divides and rounds to the nearest whole number, a tie going to the even
/// neighbour.
fn round_quotient(num: u128, den: u128) -> (q: u128)
    requires
        0 < den <= 0x1_0000_0000,
        num < 0x1_0000_0000_0000_0000_0000_0000,
    ensures
        q == rounded_quotient(num as nat, den as nat),
        q * den <= num + den,
        q <= num / den + 1,
{
    let q = num / den;
    let r = num % den;
    proof {
        vstd::arithmetic::div_mod::lemma_fundamental_div_mod(num as int, den as int);
        assert((q + 1) * den == q * den + den) by (nonlinear_arith);
        assert(q * den == den * q) by (nonlinear_arith);
    }
    if 2 * r > den || (2 * r == den && q % 2 == 1) {
        q + 1
    } else {
        q
    }
}

/// Finds the distance between neighbouring values that a significand of 53
/// bits can hold at the magnitude of `size`.
fn step_of(size: u64) -> (step: u64)
    ensures
        step == significand_step(size as nat),
        1 <= step < 4096,
{
    let mut step: u64 = 1;
    let mut top: u64 = size;
    while top >= EXACT_LIMIT
        invariant
            1 <= step < 4096,
            step * top <= size,
            significand_step(size as nat) == step * significand_step(top as nat),
        decreases top,
    {
        proof {
            assert(step < 2048) by (nonlinear_arith)
                requires
                    step * top <= size,
                    top >= 0x20_0000_0000_0000,
                    size < 0x1_0000_0000_0000_0000,
            ;
            assert((2 * step) * (top / 2) <= step * top) by (nonlinear_arith)
                requires
                    step >= 1,
                    top >= 0,
            ;
            assert(step * (2 * significand_step((top / 2) as nat)) == (2 * step)
                * significand_step((top / 2) as nat)) by (nonlinear_arith);
        }
        top = top / 2;
        step = step * 2;
    }
    assert(step * 1 == step) by (nonlinear_arith);
    step
}

/// Writes a number below one hundred with both of its digits.
fn two_digit_text(n: u64) -> (text: String)
    requires
        n < 100,
    ensures
        text@ == two_digits(n as nat),
{
    let mut text = decimal_text(n / 10);
    text.append(decimal_text(n % 10).as_str());
    assert(text@ =~= two_digits(n as nat));
    text
}

/// Writes `size` in `unit` with two decimals, then `suffix`.
fn scaled_text(size: u64, unit: u64, suffix: &str) -> (text: String)
    requires
        1024 <= unit <= 0x1_0000_0000,
    ensures
        text@ == scaled_label(size as nat, unit as nat, suffix@),
{
    let step = step_of(size);
    let significand = round_quotient(size as u128, step as u128);
    assert(significand * step <= 0x1_0000_0000_0000_0000 + 4096) by (nonlinear_arith)
        requires
            significand * step <= size + step,
            size < 0x1_0000_0000_0000_0000,
            step < 4096,
    ;
    let shown: u128 = significand * (step as u128);
    assert(shown == displayed_size(size as nat));
    let parts = round_quotient(shown * 100, unit as u128);
    proof {
        vstd::arithmetic::div_mod::lemma_div_is_ordered_by_denominator(
            (shown * 100) as int,
            1024,
            unit as int,
        );
    }
    assert(parts == hundredths(size as nat, unit as nat));
    let whole: u64 = (parts / 100) as u64;
    let cents: u64 = (parts % 100) as u64;
    let mut text = decimal_text(whole);
    text.append(".");
    text.append(two_digit_text(cents).as_str());
    text.append(suffix);
    proof {
        reveal_strlit(".");
        assert("."@ =~= seq!['.']);
        assert(text@ =~= scaled_label(size as nat, unit as nat, suffix@));
    }
    text
}

/// Shows a size in bytes: below a kibibyte as a whole number of bytes, else
/// in the largest of KB, MB and GB that it reaches, with two decimals.
pub fn format_size(size: u64) -> (text: String)
    ensures
        text@ == size_label(size),
{
    if size >= GB {
        scaled_text(size, GB, " GB")
    } else if size >= MB {
        scaled_text(size, MB, " MB")
    } else if size >= KB {
        scaled_text(size, KB, " KB")
    } else {
        let mut text = decimal_text(size);
        text.append(" B");
        text
    }
}

/// What a walk over a path on disk found there.
#[derive(Debug)]
pub enum DirNode {
    /// A regular file of this many bytes.
    File(u64),
    /// A directory with these entries, in the order in which it lists them.
    Dir(Vec<DirNode>),
    /// Something that is neither: it takes no room.
    Other,
    /// Something that could not be looked at; the failure is attached.
    Unreadable(String),
}

/// The bytes below a path, or the first failure that a walk in listing order
/// meets. The sum is held at the largest value that the type carries.
pub open spec fn tree_size(node: DirNode) -> Result<u64, Seq<char>>
    decreases node,
{
    match node {
        DirNode::File(bytes) => Ok(bytes),
        DirNode::Dir(entries) => entries_size(entries@, 0),
        DirNode::Other => Ok(0),
        DirNode::Unreadable(reason) => Err(reason@),
    }
}

/// The bytes below the entries from place `from` on, or the first failure.
pub open spec fn entries_size(entries: Seq<DirNode>, from: int) -> Result<u64, Seq<char>>
    decreases entries, entries.len() - from,
{
    if from < 0 || from >= entries.len() {
        Ok(0)
    } else {
        match tree_size(entries[from]) {
            Err(reason) => Err(reason),
            Ok(first) => match entries_size(entries, from + 1) {
                Err(reason) => Err(reason),
                Ok(rest) => Ok(
                    if first + rest <= u64::MAX {
                        (first + rest) as u64
                    } else {
                        u64::MAX
                    },
                ),
            },
        }
    }
}

/// Whether `total` is what `wanted` says, with a failure compared by its
/// characters.
pub open spec fn size_is(total: Result<u64, String>, wanted: Result<u64, Seq<char>>) -> bool {
    match total {
        Ok(bytes) => wanted == Ok::<u64, Seq<char>>(bytes),
        Err(reason) => wanted == Err::<u64, Seq<char>>(reason@),
    }
}

/// Adds up the bytes of the regular files below a path that was walked, or
/// gives the first failure that the walk met.
pub fn calculate_dir_size(node: &DirNode) -> (total: Result<u64, String>)
    ensures
        size_is(total, tree_size(*node)),
    decreases node,
{
    match node {
        DirNode::File(bytes) => Ok(*bytes),
        DirNode::Other => Ok(0),
        DirNode::Unreadable(reason) => Err(reason.clone()),
        DirNode::Dir(entries) => {
            let mut total: Result<u64, String> = Ok(0);
            let mut at: usize = entries.len();
            while at > 0
                invariant
                    at <= entries@.len(),
                    size_is(total, entries_size(entries@, at as int)),
                    *node == DirNode::Dir(*entries),
                decreases at,
            {
                at -= 1;
                proof {
                    match node {
                        DirNode::Dir(listed) => {
                            assert(*listed == *entries);
                            assert(decreases_to!(*node => *listed));
                            assert(decreases_to!(*listed => (*listed)[at as int]));
                        },
                        _ => {},
                    }
                }
                let first = calculate_dir_size(&entries[at]);
                total = match first {
                    Err(reason) => Err(reason),
                    Ok(bytes) => match total {
                        Err(reason) => Err(reason),
                        Ok(rest) => {
                            if bytes <= u64::MAX - rest {
                                Ok(bytes + rest)
                            } else {
                                Ok(u64::MAX)
                            }
                        },
                    },
                };
            }
            total
        },
    }
}

} // verus!
