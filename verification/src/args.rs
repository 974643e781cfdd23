//! The command line: a media file and the index of the display to play on.
//!
//! Every argument after the program's name that reads as a whole decimal
//! number selects the display; every other argument names the file. Where an
//! argument of one kind comes more than once, the last one counts.

use vstd::prelude::*;
use vstd::string::StrSliceExecFns;

verus! {

/// Whether a character is one of the ten decimal digits.
pub open spec fn is_digit(c: char) -> bool {
    '0' <= c && c <= '9'
}

/// The number that one decimal digit denotes.
pub open spec fn digit_value(c: char) -> nat {
    if is_digit(c) {
        (c as u32 - '0' as u32) as nat
    } else {
        0
    }
}

/// The number that a run of decimal digits denotes.
pub open spec fn digits_value(digits: Seq<char>) -> nat
    decreases digits.len(),
{
    if digits.len() == 0 {
        0
    } else {
        10 * digits_value(digits.drop_last()) + digit_value(digits.last())
    }
}

/// An argument's digits: the argument itself, without a leading plus sign.
pub open spec fn digits_of(text: Seq<char>) -> Seq<char> {
    if text.len() > 0 && text[0] == '+' {
        text.drop_first()
    } else {
        text
    }
}

/// The index that an argument denotes, if it denotes one: at least one
/// decimal digit and nothing else, but for one plus sign that may come first,
/// and a value that a `usize` holds.
pub open spec fn index_of(text: Seq<char>) -> Option<usize> {
    let digits = digits_of(text);
    if digits.len() > 0 && (forall|i: int| 0 <= i < digits.len() ==> is_digit(#[trigger] digits[i]))
        && digits_value(digits) <= usize::MAX {
        Some(digits_value(digits) as usize)
    } else {
        None
    }
}

/// The file that a command line names: the last argument after the program's
/// name that is no index, or `default` if there is none.
pub open spec fn file_of(args: Seq<Seq<char>>, default: Seq<char>) -> Seq<char>
    decreases args.len(),
{
    if args.len() <= 1 {
        default
    } else if index_of(args.last()) is None {
        args.last()
    } else {
        file_of(args.drop_last(), default)
    }
}

/// The display that a command line selects: the last argument after the
/// program's name that is an index, or the first display if there is none.
pub open spec fn monitor_of(args: Seq<Seq<char>>) -> usize
    decreases args.len(),
{
    if args.len() <= 1 {
        0
    } else {
        match index_of(args.last()) {
            Some(index) => index,
            None => monitor_of(args.drop_last()),
        }
    }
}

/// A longer run of digits denotes at least as much as any of its beginnings.
proof fn lemma_value_grows(digits: Seq<char>, upto: int)
    requires
        0 <= upto <= digits.len(),
    ensures
        digits_value(digits.take(upto)) <= digits_value(digits),
    decreases digits.len(),
{
    if upto == digits.len() {
        assert(digits.take(upto) =~= digits);
    } else {
        assert(digits.drop_last().take(upto) =~= digits.take(upto));
        lemma_value_grows(digits.drop_last(), upto);
    }
}

/// Reads an argument as an index, or finds that it is none.
pub fn parse_index(text: &str) -> (index: Option<usize>)
    ensures
        index == index_of(text@),
{
    let len = text.unicode_len();
    let start: usize = if len > 0 && text.get_char(0) == '+' {
        1
    } else {
        0
    };
    let ghost digits = digits_of(text@);
    assert(digits =~= text@.skip(start as int));
    if start == len {
        return None;
    }
    let mut value: usize = 0;
    let mut at: usize = start;
    while at < len
        invariant
            start <= at <= len,
            len == text@.len(),
            digits == text@.skip(start as int),
            digits == digits_of(text@),
            forall|i: int| 0 <= i < at - start ==> is_digit(#[trigger] digits[i]),
            value == digits_value(digits.take(at - start)),
        decreases len - at,
    {
        let c = text.get_char(at);
        assert(c == digits[at - start]);
        if !(c >= '0' && c <= '9') {
            assert(!is_digit(digits[at - start]));
            return None;
        }
        let digit: usize = (c as u32 - '0' as u32) as usize;
        proof {
            let longer = digits.take(at - start + 1);
            assert(longer.drop_last() =~= digits.take(at - start));
            assert(longer.last() == c);
            assert(digits_value(longer) == 10 * value + digit);
            lemma_value_grows(digits, at - start + 1);
        }
        match value.checked_mul(10) {
            Some(tens) => match tens.checked_add(digit) {
                Some(next) => {
                    value = next;
                },
                None => {
                    return None;
                },
            },
            None => {
                return None;
            },
        }
        at += 1;
    }
    assert(digits.take(at - start) =~= digits);
    Some(value)
}

/// The name of the media file that is played when the command line names none.
pub fn default_file() -> (name: String)
    ensures
        name@ == "BadApple.webm"@,
{
    "BadApple.webm".to_owned()
}

/// Reads the command line, the program's name first: the media file to play
/// and the index of the display to play it on.
pub fn parse_args(args: &Vec<String>) -> (choice: (String, usize))
    ensures
        choice.0@ == file_of(args.deep_view(), "BadApple.webm"@),
        choice.1 == monitor_of(args.deep_view()),
{
    let mut file = default_file();
    let mut monitor: usize = 0;
    let ghost all = args.deep_view();
    let mut at: usize = 1;
    if args.len() <= 1 {
        return (file, monitor);
    }
    assert(all.take(1).len() <= 1);
    while at < args.len()
        invariant
            1 <= at <= args.len(),
            all == args.deep_view(),
            file@ == file_of(all.take(at as int), "BadApple.webm"@),
            monitor == monitor_of(all.take(at as int)),
        decreases args.len() - at,
    {
        let arg = &args[at];
        proof {
            assert(all.take(at + 1).drop_last() =~= all.take(at as int));
            assert(all.take(at + 1).last() == arg@);
        }
        match parse_index(arg.as_str()) {
            Some(index) => {
                monitor = index;
            },
            None => {
                file = arg.clone();
            },
        }
        at += 1;
    }
    assert(all.take(at as int) =~= all);
    (file, monitor)
}

} // verus!
