//! The names of the image files.
//!
//! A chart's file is named after the strategy that produced its samples, the
//! size of the sample domain and the number of samples, as in
//! `sequence_10000_10000_rng.png`.

use vstd::prelude::*;

verus! {

/// The character that stands for the decimal digit `d`.
pub open spec fn digit(d: int) -> char {
    if d == 0 {
        '0'
    } else if d == 1 {
        '1'
    } else if d == 2 {
        '2'
    } else if d == 3 {
        '3'
    } else if d == 4 {
        '4'
    } else if d == 5 {
        '5'
    } else if d == 6 {
        '6'
    } else if d == 7 {
        '7'
    } else if d == 8 {
        '8'
    } else {
        '9'
    }
}

/// `n` written in decimal, without leading zeros.
pub open spec fn decimal(n: nat) -> Seq<char>
    decreases n,
{
    if n < 10 {
        seq![digit(n as int)]
    } else {
        decimal(n / 10) + seq![digit((n % 10) as int)]
    }
}

/// The file name without its extension: the strategy's name, the range and
/// the count, joined by underscores, and the word `rng`.
pub open spec fn stem_of(name: Seq<char>, range: u64, count: u64) -> Seq<char> {
    name + seq!['_'] + decimal(range as nat) + seq!['_'] + decimal(count as nat) + seq![
        '_',
        'r',
        'n',
        'g',
    ]
}

/// The name of the image file that belongs to a stem.
pub open spec fn png_name_of(stem: Seq<char>) -> Seq<char> {
    stem + seq!['.', 'p', 'n', 'g']
}

/// The text of one decimal digit.
fn digit_text(d: u64) -> (text: &'static str)
    requires
        d < 10,
    ensures
        text@ == seq![digit(d as int)],
{
    proof {
        reveal_strlit("0");
        reveal_strlit("1");
        reveal_strlit("2");
        reveal_strlit("3");
        reveal_strlit("4");
        reveal_strlit("5");
        reveal_strlit("6");
        reveal_strlit("7");
        reveal_strlit("8");
        reveal_strlit("9");
    }
    let text = if d == 0 {
        "0"
    } else if d == 1 {
        "1"
    } else if d == 2 {
        "2"
    } else if d == 3 {
        "3"
    } else if d == 4 {
        "4"
    } else if d == 5 {
        "5"
    } else if d == 6 {
        "6"
    } else if d == 7 {
        "7"
    } else if d == 8 {
        "8"
    } else {
        "9"
    };
    assert(text@ =~= seq![digit(d as int)]);
    text
}

/// Writes `n` in decimal at the end of `text`.
fn append_decimal(text: &mut String, n: u64)
    ensures
        final(text)@ == old(text)@ + decimal(n as nat),
    decreases n,
{
    if n >= 10 {
        append_decimal(text, n / 10);
    }
    text.append(digit_text(n % 10));
    assert(text@ =~= old(text)@ + decimal(n as nat));
}

/// `n` written in decimal.
pub fn decimal_text(n: u64) -> (text: String)
    ensures
        text@ == decimal(n as nat),
{
    let mut text = String::new();
    append_decimal(&mut text, n);
    assert(text@ =~= decimal(n as nat));
    text
}

/// The file name, without extension, of the chart for `count` samples in
/// `[0, range)` made by the strategy called `name`.
pub fn file_stem(name: &str, range: u64, count: u64) -> (stem: String)
    ensures
        stem@ == stem_of(name@, range, count),
{
    proof {
        reveal_strlit("_");
        reveal_strlit("_rng");
    }
    let mut stem = String::from_str(name);
    stem.append("_");
    append_decimal(&mut stem, range);
    stem.append("_");
    append_decimal(&mut stem, count);
    stem.append("_rng");
    assert(stem@ =~= stem_of(name@, range, count));
    stem
}

/// The name of the image file that belongs to `stem`.
pub fn png_name(stem: &str) -> (name: String)
    ensures
        name@ == png_name_of(stem@),
{
    proof {
        reveal_strlit(".png");
    }
    let mut name = String::from_str(stem);
    name.append(".png");
    assert(name@ =~= png_name_of(stem@));
    name
}

} // verus!
