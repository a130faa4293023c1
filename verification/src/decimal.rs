//! Integers as decimal text: reading, writing, and why the two agree.

use vstd::prelude::*;
use vstd::string::*;
use crate::text::white_space;

verus! {

/// Why a text is no integer of the type asked for.
#[derive(Clone, Copy, Debug, PartialEq, Eq, Structural)]
pub enum IntFault {
    /// The text is empty.
    Empty,
    /// A character is no decimal digit, or a sign stands alone.
    InvalidDigit,
    /// The number is above the largest value of the type.
    PosOverflow,
    /// The number is below the smallest value of the type.
    NegOverflow,
}

/// Why a run of characters is no magnitude within a limit.
#[derive(Clone, Copy, Debug, PartialEq, Eq, Structural)]
pub enum Flaw {
    /// A character is no decimal digit.
    NotADigit,
    /// The digits so far already exceed the limit.
    TooLarge,
}

/// Whether `c` is one of `0` to `9`.
pub open spec fn is_digit(c: char) -> bool {
    '0' <= c && c <= '9'
}

/// The value of the decimal digit `c`.
pub open spec fn digit_value(c: char) -> nat {
    (c as u32 - '0' as u32) as nat
}

/// The decimal digit of value `d`.
pub open spec fn digit_char(d: nat) -> char {
    if d == 0 {
        '0'
    } else if d == 1 {
        '1'
    } else if d == 2 {
        '2'
    } else if d == 3 {
        '3'
    } else if d == 4 {
        '4'
    } else if d == 5 {
        '5'
    } else if d == 6 {
        '6'
    } else if d == 7 {
        '7'
    } else if d == 8 {
        '8'
    } else {
        '9'
    }
}

/// The number that `digits` spell, read from the left: the first character
/// that is no digit, or that takes the number beyond `limit`, ends the
/// reading with that flaw.
pub open spec fn magnitude(digits: Seq<char>, limit: nat) -> Result<nat, Flaw>
    decreases digits.len(),
{
    if digits.len() == 0 {
        Ok(0)
    } else {
        match magnitude(digits.drop_last(), limit) {
            Err(flaw) => Err(flaw),
            Ok(sofar) => if !is_digit(digits.last()) {
                Err(Flaw::NotADigit)
            } else if sofar * 10 + digit_value(digits.last()) > limit {
                Err(Flaw::TooLarge)
            } else {
                Ok(sofar * 10 + digit_value(digits.last()))
            },
        }
    }
}

/// The integer between `min` and `max` that `text` spells: an optional sign
/// (`-` only where `min` is negative) and then digits.
pub open spec fn int_parsed(text: Seq<char>, min: int, max: int) -> Result<int, IntFault> {
    if text.len() == 0 {
        Err(IntFault::Empty)
    } else if text.len() == 1 && (text[0] == '+' || text[0] == '-') {
        Err(IntFault::InvalidDigit)
    } else if text[0] == '-' && min < 0 {
        match magnitude(text.skip(1), (-min) as nat) {
            Ok(m) => Ok(-(m as int)),
            Err(Flaw::NotADigit) => Err(IntFault::InvalidDigit),
            Err(Flaw::TooLarge) => Err(IntFault::NegOverflow),
        }
    } else {
        let digits = if text[0] == '+' {
            text.skip(1)
        } else {
            text
        };
        match magnitude(digits, max as nat) {
            Ok(m) => Ok(m as int),
            Err(Flaw::NotADigit) => Err(IntFault::InvalidDigit),
            Err(Flaw::TooLarge) => Err(IntFault::PosOverflow),
        }
    }
}

/// The decimal digits of `v`, without leading zeros.
pub open spec fn decimal_text(v: nat) -> Seq<char>
    decreases v,
{
    if v < 10 {
        seq![digit_char(v)]
    } else {
        decimal_text(v / 10).push(digit_char(v % 10))
    }
}

/// The decimal text of `v`: a `-` before the digits of a negative number.
pub open spec fn int_text(v: int) -> Seq<char> {
    if v < 0 {
        seq!['-'] + decimal_text((-v) as nat)
    } else {
        decimal_text(v as nat)
    }
}

/// The diagnostic for each fault.
pub open spec fn fault_text(fault: IntFault) -> Seq<char> {
    match fault {
        IntFault::Empty => "cannot parse integer from empty string"@,
        IntFault::InvalidDigit => "invalid digit found in string"@,
        IntFault::PosOverflow => "number too large to fit in target type"@,
        IntFault::NegOverflow => "number too small to fit in target type"@,
    }
}

/// The number that a run of digits spells.
pub open spec fn decimal_value(digits: Seq<char>) -> nat
    decreases digits.len(),
{
    if digits.len() == 0 {
        0
    } else {
        decimal_value(digits.drop_last()) * 10 + digit_value(digits.last())
    }
}

/// Whether every character is a decimal digit.
pub open spec fn all_digits(digits: Seq<char>) -> bool {
    forall|i: int| 0 <= i < digits.len() ==> is_digit(#[trigger] digits[i])
}

/// Reading succeeds exactly on a run of digits whose number is within the
/// limit, and gives that number.
pub proof fn law_magnitude_is_decimal_value(digits: Seq<char>, limit: nat)
    ensures
        magnitude(digits, limit) is Ok <==> all_digits(digits) && decimal_value(digits) <= limit,
        magnitude(digits, limit) is Ok ==> magnitude(digits, limit)->Ok_0 == decimal_value(digits),
    decreases digits.len(),
{
    if digits.len() > 0 {
        let front = digits.drop_last();
        law_magnitude_is_decimal_value(front, limit);
        if all_digits(digits) {
            assert forall|i: int| 0 <= i < front.len() implies is_digit(#[trigger] front[i]) by {
                assert(front[i] == digits[i]);
            }
        }
        if all_digits(front) && is_digit(digits.last()) {
            assert forall|i: int| 0 <= i < digits.len() implies is_digit(#[trigger] digits[i]) by {
                if i < front.len() {
                    assert(front[i] == digits[i]);
                }
            }
        }
        if all_digits(digits) {
            assert(is_digit(digits[digits.len() - 1]));
        }
    }
}

/// A flaw in the first `k` characters is the flaw of the whole.
pub proof fn lemma_flaw_stays(digits: Seq<char>, k: int, limit: nat)
    requires
        0 <= k <= digits.len(),
        magnitude(digits.take(k), limit) is Err,
    ensures
        magnitude(digits, limit) == magnitude(digits.take(k), limit),
    decreases digits.len() - k,
{
    if k == digits.len() {
        assert(digits.take(k) =~= digits);
    } else {
        assert(digits.take(k + 1).drop_last() =~= digits.take(k));
        lemma_flaw_stays(digits, k + 1, limit);
    }
}

/// The digits written for `v` are digits, and the first is no sign.
pub proof fn lemma_decimal_text_shape(v: nat)
    ensures
        decimal_text(v).len() > 0,
        forall|i: int| 0 <= i < decimal_text(v).len() ==> is_digit(#[trigger] decimal_text(v)[i]),
    decreases v,
{
    if v >= 10 {
        lemma_decimal_text_shape(v / 10);
    }
}

/// Reading the digits written for `v` gives `v` back, under any limit that
/// `v` respects.
pub proof fn lemma_magnitude_of_decimal_text(v: nat, limit: nat)
    requires
        v <= limit,
    ensures
        magnitude(decimal_text(v), limit) == Ok::<nat, Flaw>(v),
    decreases v,
{
    let text = decimal_text(v);
    if v < 10 {
        assert(text.drop_last() =~= Seq::<char>::empty());
        assert(text.last() == digit_char(v));
        assert(magnitude(text.drop_last(), limit) == Ok::<nat, Flaw>(0));
    } else {
        lemma_magnitude_of_decimal_text(v / 10, limit);
        assert(text.drop_last() =~= decimal_text(v / 10));
        assert(text.last() == digit_char(v % 10));
    }
}

/// The decimal text of an integer is not empty and has no white space at
/// its ends.
pub proof fn lemma_int_text_is_tight(v: int)
    ensures
        int_text(v).len() > 0,
        !white_space(int_text(v)[0]),
        !white_space(int_text(v).last()),
{
    let m = if v < 0 {
        (-v) as nat
    } else {
        v as nat
    };
    lemma_decimal_text_shape(m);
    let digits = decimal_text(m);
    assert(is_digit(digits[0]));
    assert(is_digit(digits[digits.len() - 1]));
}

/// Writing then reading: every integer of a type is read back from its own
/// decimal text.
pub proof fn lemma_int_round_trip(v: int, min: int, max: int)
    requires
        min <= 0 <= max,
        min <= v <= max,
    ensures
        int_parsed(int_text(v), min, max) == Ok::<int, IntFault>(v),
{
    if v < 0 {
        let m = (-v) as nat;
        let text = int_text(v);
        lemma_decimal_text_shape(m);
        lemma_magnitude_of_decimal_text(m, (-min) as nat);
        assert(text.skip(1) =~= decimal_text(m));
        assert(text[0] == '-');
    } else {
        let text = int_text(v);
        lemma_decimal_text_shape(v as nat);
        lemma_magnitude_of_decimal_text(v as nat, max as nat);
        assert(is_digit(text[0]));
    }
}

/// The text of one decimal digit.
fn digit_text(d: u128) -> (out: &'static str)
    requires
        d < 10,
    ensures
        out@ == seq![digit_char(d as nat)],
{
    proof {
        reveal_strlit("0");
        reveal_strlit("1");
        reveal_strlit("2");
        reveal_strlit("3");
        reveal_strlit("4");
        reveal_strlit("5");
        reveal_strlit("6");
        reveal_strlit("7");
        reveal_strlit("8");
        reveal_strlit("9");
    }
    let out = if d == 0 {
        "0"
    } else if d == 1 {
        "1"
    } else if d == 2 {
        "2"
    } else if d == 3 {
        "3"
    } else if d == 4 {
        "4"
    } else if d == 5 {
        "5"
    } else if d == 6 {
        "6"
    } else if d == 7 {
        "7"
    } else if d == 8 {
        "8"
    } else {
        "9"
    };
    assert(out@ =~= seq![digit_char(d as nat)]);
    out
}

/// Writes `v` in decimal digits.
pub fn write_magnitude(v: u128) -> (out: String)
    ensures
        out@ == decimal_text(v as nat),
    decreases v,
{
    if v < 10 {
        String::from_str(digit_text(v))
    } else {
        let head = write_magnitude(v / 10);
        let out = head.concat(digit_text(v % 10));
        assert(out@ =~= decimal_text(v as nat));
        out
    }
}

/// Writes a signed integer in decimal.
pub fn write_int(v: i128) -> (out: String)
    ensures
        out@ == int_text(v as int),
{
    if v < 0 {
        let m: u128 = ((-(v + 1)) as u128) + 1;
        proof {
            reveal_strlit("-");
        }
        let out = String::from_str("-").concat(write_magnitude(m).as_str());
        assert(out@ =~= int_text(v as int));
        out
    } else {
        write_magnitude(v as u128)
    }
}

/// Reads the digits of `text` from position `start` on, up to `limit`.
pub fn read_magnitude(text: &str, start: usize, limit: u128) -> (r: Result<u128, Flaw>)
    requires
        start <= text@.len(),
    ensures
        match r {
            Ok(m) => m <= limit && magnitude(text@.skip(start as int), limit as nat) == Ok::<
                nat,
                Flaw,
            >(m as nat),
            Err(flaw) => magnitude(text@.skip(start as int), limit as nat) == Err::<nat, Flaw>(
                flaw,
            ),
        },
{
    let n: usize = text.unicode_len();
    let ghost digits = text@.skip(start as int);
    let mut sofar: u128 = 0;
    let mut i: usize = start;
    while i < n
        invariant
            n == text@.len(),
            start <= i <= n,
            digits == text@.skip(start as int),
            sofar <= limit,
            magnitude(digits.take(i - start), limit as nat) == Ok::<nat, Flaw>(sofar as nat),
        decreases n - i,
    {
        let c = text.get_char(i);
        let ghost k = i - start;
        proof {
            assert(digits.take(k + 1).drop_last() =~= digits.take(k));
            assert(digits.take(k + 1).last() == c);
        }
        if !(c >= '0' && c <= '9') {
            proof {
                lemma_flaw_stays(digits, k + 1, limit as nat);
            }
            return Err(Flaw::NotADigit);
        }
        let d: u128 = (c as u32 - '0' as u32) as u128;
        if sofar > limit / 10 || d > limit - sofar * 10 {
            proof {
                lemma_flaw_stays(digits, k + 1, limit as nat);
            }
            return Err(Flaw::TooLarge);
        }
        sofar = sofar * 10 + d;
        i = i + 1;
    }
    assert(digits.take(n - start) =~= digits);
    Ok(sofar)
}

/// The diagnostic for `fault`.
pub fn describe(fault: IntFault) -> (out: String)
    ensures
        out@ == fault_text(fault),
{
    match fault {
        IntFault::Empty => String::from_str("cannot parse integer from empty string"),
        IntFault::InvalidDigit => String::from_str("invalid digit found in string"),
        IntFault::PosOverflow => String::from_str("number too large to fit in target type"),
        IntFault::NegOverflow => String::from_str("number too small to fit in target type"),
    }
}

/// Reads an integer without sign, no larger than `max`.
pub fn parse_unsigned(text: &str, max: u128) -> (r: Result<u128, IntFault>)
    ensures
        match r {
            Ok(v) => v <= max && int_parsed(text@, 0, max as int) == Ok::<int, IntFault>(v as int),
            Err(fault) => int_parsed(text@, 0, max as int) == Err::<int, IntFault>(fault),
        },
{
    let n: usize = text.unicode_len();
    if n == 0 {
        return Err(IntFault::Empty);
    }
    let first = text.get_char(0);
    if n == 1 && (first == '+' || first == '-') {
        return Err(IntFault::InvalidDigit);
    }
    let start: usize = if first == '+' {
        1
    } else {
        0
    };
    assert(text@.skip(0) =~= text@);
    match read_magnitude(text, start, max) {
        Ok(m) => Ok(m),
        Err(Flaw::NotADigit) => Err(IntFault::InvalidDigit),
        Err(Flaw::TooLarge) => Err(IntFault::PosOverflow),
    }
}

/// Reads an integer between `min` and `max`.
pub fn parse_signed(text: &str, min: i128, max: i128) -> (r: Result<i128, IntFault>)
    requires
        min <= 0 <= max,
    ensures
        match r {
            Ok(v) => min <= v <= max && int_parsed(text@, min as int, max as int) == Ok::<
                int,
                IntFault,
            >(v as int),
            Err(fault) => int_parsed(text@, min as int, max as int) == Err::<int, IntFault>(fault),
        },
{
    let n: usize = text.unicode_len();
    if n == 0 {
        return Err(IntFault::Empty);
    }
    let first = text.get_char(0);
    if n == 1 && (first == '+' || first == '-') {
        return Err(IntFault::InvalidDigit);
    }
    if first == '-' && min < 0 {
        let limit: u128 = ((-(min + 1)) as u128) + 1;
        match read_magnitude(text, 1, limit) {
            Ok(m) => {
                if m == 0 {
                    Ok(0)
                } else {
                    Ok(-((m - 1) as i128) - 1)
                }
            },
            Err(Flaw::NotADigit) => Err(IntFault::InvalidDigit),
            Err(Flaw::TooLarge) => Err(IntFault::NegOverflow),
        }
    } else {
        let start: usize = if first == '+' {
            1
        } else {
            0
        };
        assert(text@.skip(0) =~= text@);
        match read_magnitude(text, start, max as u128) {
            Ok(m) => Ok(m as i128),
            Err(Flaw::NotADigit) => Err(IntFault::InvalidDigit),
            Err(Flaw::TooLarge) => Err(IntFault::PosOverflow),
        }
    }
}

} // verus!
