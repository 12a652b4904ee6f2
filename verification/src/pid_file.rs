//! The daemon's PID file: the text the daemon writes there, and how the
//! focus client reads a process id back out of it (`str::trim` followed by
//! `i32::from_str`).

use vstd::prelude::*;
use crate::text::{chars_of, trim, trim_bounds, is_white_space};

verus! {

broadcast use vstd::string::group_string_axioms;

/// An ASCII decimal digit.
pub open spec fn is_digit(c: char) -> bool {
    48 <= (c as u32) <= 57
}

/// The value of a decimal digit.
pub open spec fn digit_value(c: char) -> int {
    (c as u32) - 48
}

/// The decimal digit for `d`, where `0 <= d < 10`.
pub open spec fn digit_char(d: int) -> char {
    (d + 48) as char
}

/// Why `i32::from_str` refuses a text: the kinds of `std::num::IntErrorKind`
/// it gives.
#[derive(Debug, Clone, Copy, PartialEq, Eq, Structural)]
pub enum PidParseError {
    /// The text is empty.
    Empty,
    /// The text holds a character that is no digit where a digit belongs.
    InvalidDigit,
    /// The number is larger than `i32::MAX`.
    PosOverflow,
    /// The number is smaller than `i32::MIN`.
    NegOverflow,
}

/// The largest magnitude an `i32` of the given sign can have.
pub open spec fn magnitude_limit(negative: bool) -> int {
    if negative {
        0x8000_0000
    } else {
        0x7fff_ffff
    }
}

pub open spec fn overflow_error(negative: bool) -> PidParseError {
    if negative {
        PidParseError::NegOverflow
    } else {
        PidParseError::PosOverflow
    }
}

/// Reading the digits `s` left to right, as `i32::from_str` does: the
/// magnitude they write, or the first thing that goes wrong, a character
/// that is no digit or a magnitude past what the sign allows.
pub open spec fn scan_digits(s: Seq<char>, negative: bool) -> Result<int, PidParseError>
    decreases s.len(),
{
    if s.len() == 0 {
        Ok(0)
    } else {
        match scan_digits(s.drop_last(), negative) {
            Err(e) => Err(e),
            Ok(v) => if !is_digit(s.last()) {
                Err(PidParseError::InvalidDigit)
            } else {
                let w = v * 10 + digit_value(s.last());
                if w > magnitude_limit(negative) {
                    Err(overflow_error(negative))
                } else {
                    Ok(w)
                }
            },
        }
    }
}

/// What `i32::from_str` gives for `s`: an optional `+` or `-`, then one or
/// more ASCII digits, whose value must fit in an `i32`.
pub open spec fn parse_i32(s: Seq<char>) -> Result<i32, PidParseError> {
    if s.len() == 0 {
        Err(PidParseError::Empty)
    } else {
        let negative = s[0] == '-';
        let digits = if s[0] == '+' || s[0] == '-' {
            s.drop_first()
        } else {
            s
        };
        if digits.len() == 0 {
            Err(PidParseError::InvalidDigit)
        } else {
            match scan_digits(digits, negative) {
                Err(e) => Err(e),
                Ok(m) => Ok(
                    (if negative {
                        -m
                    } else {
                        m
                    }) as i32,
                ),
            }
        }
    }
}

/// The process id that the text of a PID file names, or why it names none.
pub open spec fn pid_in_text(text: Seq<char>) -> Result<i32, PidParseError> {
    parse_i32(trim(text))
}

/// The decimal digits of `n`, without leading zeros (`"0"` for zero).
pub open spec fn decimal(n: nat) -> Seq<char>
    decreases n,
{
    if n < 10 {
        seq![digit_char(n as int)]
    } else {
        decimal(n / 10).push(digit_char((n % 10) as int))
    }
}

proof fn lemma_scan_bounded(s: Seq<char>, negative: bool)
    ensures
        scan_digits(s, negative) matches Ok(v) ==> 0 <= v <= magnitude_limit(negative),
    decreases s.len(),
{
    if s.len() > 0 {
        lemma_scan_bounded(s.drop_last(), negative);
    }
}

/// Once reading a prefix of `s` has gone wrong, reading `s` goes wrong the
/// same way.
proof fn lemma_scan_error_stays(s: Seq<char>, k: int, negative: bool)
    requires
        0 <= k <= s.len(),
        scan_digits(s.take(k), negative) is Err,
    ensures
        scan_digits(s, negative) == scan_digits(s.take(k), negative),
    decreases s.len(),
{
    if k < s.len() {
        assert(s.drop_last().take(k) =~= s.take(k));
        lemma_scan_error_stays(s.drop_last(), k, negative);
    } else {
        assert(s.take(k) =~= s);
    }
}

/// Reads the digits `s[from..to]` as `scan_digits` does.
fn scan_range(s: &Vec<char>, from: usize, to: usize, negative: bool) -> (r: Result<
    u64,
    PidParseError,
>)
    requires
        from <= to <= s.len(),
    ensures
        ({
            let d = s@.subrange(from as int, to as int);
            match r {
                Ok(v) => scan_digits(d, negative) == Ok::<int, PidParseError>(v as int),
                Err(e) => scan_digits(d, negative) == Err::<int, PidParseError>(e),
            }
        }),
{
    let ghost d = s@.subrange(from as int, to as int);
    let limit: u64 = if negative {
        0x8000_0000
    } else {
        0x7fff_ffff
    };
    let mut acc: u64 = 0;
    let mut i = from;
    assert(d.take(0) =~= Seq::<char>::empty());
    while i < to
        invariant
            from <= i <= to <= s.len(),
            d == s@.subrange(from as int, to as int),
            limit == magnitude_limit(negative),
            scan_digits(d.take(i - from), negative) == Ok::<int, PidParseError>(acc as int),
            acc <= limit,
        decreases to - i,
    {
        let ghost k = (i - from) as int;
        assert(d.take(k + 1).drop_last() =~= d.take(k));
        assert(d.take(k + 1).last() == d[k]);
        let u = s[i] as u32;
        if u < 48 || u > 57 {
            proof {
                lemma_scan_error_stays(d, k + 1, negative);
            }
            return Err(PidParseError::InvalidDigit);
        }
        let next = acc * 10 + (u - 48) as u64;
        if next > limit {
            proof {
                lemma_scan_error_stays(d, k + 1, negative);
            }
            return Err(if negative {
                PidParseError::NegOverflow
            } else {
                PidParseError::PosOverflow
            });
        }
        acc = next;
        i = i + 1;
    }
    assert(d.take(to - from) =~= d);
    Ok(acc)
}

/// `i32::from_str` on the characters `s[from..to]`.
fn parse_i32_range(s: &Vec<char>, from: usize, to: usize) -> (r: Result<i32, PidParseError>)
    requires
        from <= to <= s.len(),
    ensures
        r == parse_i32(s@.subrange(from as int, to as int)),
{
    let ghost t = s@.subrange(from as int, to as int);
    if from == to {
        return Err(PidParseError::Empty);
    }
    let first = s[from];
    let signed = first == '+' || first == '-';
    let negative = first == '-';
    let start = if signed {
        from + 1
    } else {
        from
    };
    assert(signed ==> t.drop_first() =~= s@.subrange(start as int, to as int));
    assert(!signed ==> t =~= s@.subrange(start as int, to as int));
    if start == to {
        return Err(PidParseError::InvalidDigit);
    }
    proof {
        lemma_scan_bounded(s@.subrange(start as int, to as int), negative);
    }
    match scan_range(s, start, to, negative) {
        Err(e) => Err(e),
        Ok(m) => {
            if negative {
                Ok((0 - (m as i64)) as i32)
            } else {
                Ok(m as i32)
            }
        },
    }
}

/// The process id that the text of a PID file names: the text without
/// surrounding white space, read as an `i32`; or why the daemon's reader
/// refuses the file ("Invalid pid file").
pub fn parse_pid_file(text: &str) -> (r: Result<i32, PidParseError>)
    ensures
        r == pid_in_text(text@),
{
    let chars = chars_of(text);
    let (a, b) = trim_bounds(&chars);
    parse_i32_range(&chars, a, b)
}

impl PidParseError {
    /// The message that `std::num::ParseIntError` gives for this kind.
    pub fn description(&self) -> (msg: &'static str)
        ensures
            *self == PidParseError::Empty ==> msg@ == "cannot parse integer from empty string"@,
            *self == PidParseError::InvalidDigit ==> msg@ == "invalid digit found in string"@,
            *self == PidParseError::PosOverflow ==> msg@ == "number too large to fit in target type"@,
            *self == PidParseError::NegOverflow ==> msg@ == "number too small to fit in target type"@,
    {
        match self {
            PidParseError::Empty => "cannot parse integer from empty string",
            PidParseError::InvalidDigit => "invalid digit found in string",
            PidParseError::PosOverflow => "number too large to fit in target type",
            PidParseError::NegOverflow => "number too small to fit in target type",
        }
    }
}

/// The text of a decimal digit.
fn digit_str(d: u32) -> (r: &'static str)
    requires
        d < 10,
    ensures
        r@ == seq![digit_char(d as int)],
{
    proof {
        reveal_strlit("0");
        reveal_strlit("1");
        reveal_strlit("2");
        reveal_strlit("3");
        reveal_strlit("4");
        reveal_strlit("5");
        reveal_strlit("6");
        reveal_strlit("7");
        reveal_strlit("8");
        reveal_strlit("9");
    }
    match d {
        0 => "0",
        1 => "1",
        2 => "2",
        3 => "3",
        4 => "4",
        5 => "5",
        6 => "6",
        7 => "7",
        8 => "8",
        _ => "9",
    }
}

/// `n` written in decimal.
pub fn decimal_string(n: u32) -> (r: String)
    ensures
        r@ == decimal(n as nat),
    decreases n,
{
    if n < 10 {
        String::from_str(digit_str(n))
    } else {
        let head = decimal_string(n / 10);
        head.concat(digit_str(n % 10))
    }
}

/// The text that the daemon writes to its PID file: its process id in
/// decimal.
pub fn pid_file_text(pid: u32) -> (r: String)
    ensures
        r@ == decimal(pid as nat),
{
    decimal_string(pid)
}

proof fn lemma_digit_char(d: int)
    requires
        0 <= d < 10,
    ensures
        is_digit(digit_char(d)),
        digit_value(digit_char(d)) == d,
{
    assert(digit_char(d) as u32 == d + 48);
}

proof fn lemma_decimal_digits(n: nat)
    requires
        n <= i32::MAX,
    ensures
        decimal(n).len() > 0,
        is_digit(decimal(n)[0]),
        scan_digits(decimal(n), false) == Ok::<int, PidParseError>(n as int),
    decreases n,
{
    lemma_digit_char((n % 10) as int);
    let s = decimal(n);
    if n >= 10 {
        lemma_decimal_digits(n / 10);
        assert(s.drop_last() =~= decimal(n / 10));
        assert(s.last() == digit_char((n % 10) as int));
        assert(s[0] == decimal(n / 10)[0]);
        assert((n / 10) * 10 + n % 10 == n) by (nonlinear_arith);
        assert(scan_digits(s.drop_last(), false) == Ok::<int, PidParseError>((n / 10) as int));
        assert(scan_digits(s, false) == Ok::<int, PidParseError>(n as int));
    } else {
        assert(s.drop_last() =~= Seq::<char>::empty());
        assert(scan_digits(Seq::<char>::empty(), false) == Ok::<int, PidParseError>(0));
        assert(n % 10 == n);
        assert(s.last() == digit_char(n as int));
        assert(scan_digits(s, false) == Ok::<int, PidParseError>(n as int));
    }
}

/// A process id that the daemon writes to its PID file is read back as the
/// same id by the focus client, for every id an `i32` can hold.
pub proof fn lemma_pid_file_round_trip(pid: u32)
    requires
        pid <= i32::MAX,
    ensures
        pid_in_text(decimal(pid as nat)) == Ok::<i32, PidParseError>(pid as i32),
{
    let s = decimal(pid as nat);
    lemma_decimal_digits(pid as nat);
    assert(!is_white_space(s[0]));
    assert(!is_white_space(s.last()));
    assert(trim(s) == s);
    assert(s[0] != '+' && s[0] != '-');
}

} // verus!
