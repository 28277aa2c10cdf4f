//! The command-line settings and the checked reading of their numbers.
use std::ops::RangeInclusive;

use vstd::prelude::*;
use vstd::string::*;

use crate::config::MetronomeConfig;

verus! {

/// The settings given on the command line.
#[derive(Debug, Clone, Copy, PartialEq, Eq, Structural)]
pub struct InputArgs {
    pub bpm: u16,
    pub volume: u8,
    pub beats: u8,
    pub subdivisions: u8,
    pub accent: bool,
}

impl Default for InputArgs {
    /// The settings when none is given: 120 beats per minute at full volume,
    /// four beats per measure, no subdivision, no accent.
    fn default() -> (args: InputArgs)
        ensures
            args == (InputArgs { bpm: 120, volume: 100, beats: 4, subdivisions: 1, accent: false }),
    {
        InputArgs { bpm: 120, volume: 100, beats: 4, subdivisions: 1, accent: false }
    }
}

impl InputArgs {
    /// The configuration the metronome starts with: these settings, not
    /// playing.
    pub open spec fn start_config(self) -> MetronomeConfig {
        MetronomeConfig {
            bpm: self.bpm,
            volume: self.volume,
            beats: self.beats,
            subdivisions: self.subdivisions,
            accent: self.accent,
            playing: false,
        }
    }
}

impl<'a> From<&'a InputArgs> for MetronomeConfig {
    /// The starting configuration: the given settings, not playing.
    fn from(value: &'a InputArgs) -> (c: MetronomeConfig) {
        MetronomeConfig {
            bpm: value.bpm,
            volume: value.volume,
            beats: value.beats,
            subdivisions: value.subdivisions,
            accent: value.accent,
            playing: false,
        }
    }
}

impl<'a> vstd::std_specs::convert::FromSpecImpl<&'a InputArgs> for MetronomeConfig {
    open spec fn obeys_from_spec() -> bool {
        true
    }

    open spec fn from_spec(value: &'a InputArgs) -> MetronomeConfig {
        value.start_config()
    }
}

/// An unsigned integer type that a setting can be read into.
pub trait ArgValue: Sized + Copy {
    /// The largest value of the type.
    spec fn spec_max() -> int;

    /// The number that a value stands for.
    spec fn spec_int(self) -> int;

    fn max_u64() -> (r: u64)
        ensures
            r == Self::spec_max(),
            r <= 0xFFFF_FFFF,
    ;

    fn from_u64(v: u64) -> (r: Self)
        requires
            v <= Self::spec_max(),
        ensures
            r.spec_int() == v,
    ;

    fn to_u64(self) -> (r: u64)
        ensures
            r == self.spec_int(),
    ;
}

impl ArgValue for u8 {
    open spec fn spec_max() -> int {
        0xFF
    }

    open spec fn spec_int(self) -> int {
        self as int
    }

    fn max_u64() -> (r: u64) {
        0xFF
    }

    fn from_u64(v: u64) -> (r: u8) {
        v as u8
    }

    fn to_u64(self) -> (r: u64) {
        self as u64
    }
}

impl ArgValue for u16 {
    open spec fn spec_max() -> int {
        0xFFFF
    }

    open spec fn spec_int(self) -> int {
        self as int
    }

    fn max_u64() -> (r: u64) {
        0xFFFF
    }

    fn from_u64(v: u64) -> (r: u16) {
        v as u16
    }

    fn to_u64(self) -> (r: u64) {
        self as u64
    }
}

/// A decimal digit.
pub open spec fn is_digit(c: char) -> bool {
    '0' <= c <= '9'
}

/// The number that a decimal digit stands for.
pub open spec fn digit_value(c: char) -> int {
    c as int - '0' as int
}

/// The digit that stands for `d`, where `0 <= d < 10`.
pub open spec fn digit_char(d: int) -> char {
    (d + '0' as int) as char
}

/// The number that a string of decimal digits stands for.
pub open spec fn digits_value(s: Seq<char>) -> int
    decreases s.len(),
{
    if s.len() == 0 {
        0
    } else {
        digits_value(s.drop_last()) * 10 + digit_value(s.last())
    }
}

/// `s` is a non-empty string of decimal digits.
pub open spec fn is_decimal(s: Seq<char>) -> bool {
    s.len() > 0 && forall|i: int| 0 <= i < s.len() ==> is_digit(#[trigger] s[i])
}

/// `s` without the `+` it may start with.
pub open spec fn unsigned_digits(s: Seq<char>) -> Seq<char> {
    if s.len() > 0 && s[0] == '+' {
        s.drop_first()
    } else {
        s
    }
}

/// How an unsigned integer type whose largest value is `max` reads `s`: an
/// optional `+` and then one or more decimal digits, whose value must not
/// be above `max`.
pub open spec fn spec_parse_unsigned(s: Seq<char>, max: int) -> Option<int> {
    let d = unsigned_digits(s);
    if is_decimal(d) && digits_value(d) <= max {
        Some(digits_value(d))
    } else {
        None
    }
}

/// The decimal writing of `n`, without leading zeros.
pub open spec fn decimal(n: nat) -> Seq<char>
    decreases n,
{
    if n < 10 {
        seq![digit_char(n as int)]
    } else {
        decimal(n / 10) + seq![digit_char((n % 10) as int)]
    }
}

/// The message for a setting that is not a number.
pub open spec fn not_a_number_message(s: Seq<char>) -> Seq<char> {
    "'"@ + s + "' isn't a valid number"@
}

/// The message for a setting outside its range.
pub open spec fn out_of_range_message(name: Seq<char>, start: nat, end: nat) -> Seq<char> {
    name + " must be in range "@ + decimal(start) + "..="@ + decimal(end)
}

/// What `parse_value` gives for `s`, a range from `start` to `end` and the
/// setting's `name`, as the number read or the error message.
pub open spec fn spec_parse_value(
    s: Seq<char>,
    max: int,
    start: int,
    end: int,
    name: Seq<char>,
) -> Result<int, Seq<char>> {
    match spec_parse_unsigned(s, max) {
        None => Err(not_a_number_message(s)),
        Some(n) => if start <= n <= end {
            Ok(n)
        } else {
            Err(out_of_range_message(name, start as nat, end as nat))
        },
    }
}

/// `std::ops::RangeInclusive::start`: the lower end the range was made
/// with, as long as it has not been iterated to exhaustion (after that the
/// documentation leaves the value open, and nothing is stated).
#[verifier::external_body]
fn range_start<T>(range: &RangeInclusive<T>) -> (r: &T)
    ensures
        !range@.exhausted ==> *r == range@.start,
{
    range.start()
}

/// `std::ops::RangeInclusive::end`: the upper end the range was made with,
/// as long as it has not been iterated to exhaustion (after that the
/// documentation leaves the value open, and nothing is stated).
#[verifier::external_body]
fn range_end<T>(range: &RangeInclusive<T>) -> (r: &T)
    ensures
        !range@.exhausted ==> *r == range@.end,
{
    range.end()
}

/// The one-character string of the digit `d`.
fn digit_str(d: u64) -> (r: &'static str)
    requires
        d < 10,
    ensures
        r@ == seq![digit_char(d as int)],
{
    if d == 0 {
        proof {
            reveal_strlit("0");
        }
        "0"
    } else if d == 1 {
        proof {
            reveal_strlit("1");
        }
        "1"
    } else if d == 2 {
        proof {
            reveal_strlit("2");
        }
        "2"
    } else if d == 3 {
        proof {
            reveal_strlit("3");
        }
        "3"
    } else if d == 4 {
        proof {
            reveal_strlit("4");
        }
        "4"
    } else if d == 5 {
        proof {
            reveal_strlit("5");
        }
        "5"
    } else if d == 6 {
        proof {
            reveal_strlit("6");
        }
        "6"
    } else if d == 7 {
        proof {
            reveal_strlit("7");
        }
        "7"
    } else if d == 8 {
        proof {
            reveal_strlit("8");
        }
        "8"
    } else {
        proof {
            reveal_strlit("9");
        }
        "9"
    }
}

/// Appends the decimal writing of `n` to `out`.
pub fn push_decimal(out: &mut String, n: u64)
    ensures
        final(out)@ == old(out)@ + decimal(n as nat),
    decreases n,
{
    if n >= 10 {
        push_decimal(out, n / 10);
    }
    out.append(digit_str(n % 10));
    assert(out@ =~= old(out)@ + decimal(n as nat));
}


/// The value of a longer string of digits, one digit at a time.
proof fn lemma_digits_value_step(s: Seq<char>, start: int, i: int)
    requires
        0 <= start <= i < s.len(),
    ensures
        digits_value(s.subrange(start, i + 1)) == digits_value(s.subrange(start, i)) * 10
            + digit_value(s[i]),
{
    assert(s.subrange(start, i + 1).drop_last() =~= s.subrange(start, i));
}

/// Reads `s` as an unsigned number of at most `max`, as the integer types'
/// `FromStr` does.
pub fn parse_unsigned(s: &str, max: u64) -> (r: Option<u64>)
    requires
        max <= 0xFFFF_FFFF,
    ensures
        match spec_parse_unsigned(s@, max as int) {
            Some(n) => r matches Some(v) && v == n,
            None => r is None,
        },
        r matches Some(v) ==> v <= max,
{
    let len = s.unicode_len();
    let start: usize = if len > 0 && s.get_char(0) == '+' {
        1
    } else {
        0
    };
    let ghost d = s@.subrange(start as int, len as int);
    assert(d =~= unsigned_digits(s@));
    if start == len {
        return None;
    }
    let mut value: u64 = 0;
    let mut i: usize = start;
    while i < len
        invariant
            len == s@.len(),
            start <= i <= len,
            d == s@.subrange(start as int, len as int),
            d == unsigned_digits(s@),
            max <= 0xFFFF_FFFF,
            value <= max * 10 + 9,
            forall|j: int| start <= j < i ==> is_digit(#[trigger] s@[j]),
            digits_value(s@.subrange(start as int, i as int)) <= max ==> value == digits_value(
                s@.subrange(start as int, i as int),
            ),
            digits_value(s@.subrange(start as int, i as int)) > max ==> value > max,
        decreases len - i,
    {
        let c = s.get_char(i);
        if !('0' <= c && c <= '9') {
            assert(!is_digit(d[i - start]));
            return None;
        }
        proof {
            lemma_digits_value_step(s@, start as int, i as int);
        }
        if value <= max {
            value = value * 10 + (c as u64 - '0' as u64);
        }
        i = i + 1;
    }
    assert(s@.subrange(start as int, i as int) == d);
    if value <= max {
        Some(value)
    } else {
        None
    }
}

/// Reads the setting `name` from `s`: the number when `s` is one of the
/// type `T` and lies in `range`, else the message that says what is wrong.
pub fn parse_value<T: ArgValue>(s: &str, range: RangeInclusive<T>, name: &'static str) -> (r:
    Result<T, String>)
    requires
        !range@.exhausted,
    ensures
        match spec_parse_value(
            s@,
            T::spec_max(),
            range@.start.spec_int(),
            range@.end.spec_int(),
            name@,
        ) {
            Ok(n) => r is Ok && r->Ok_0.spec_int() == n,
            Err(m) => r is Err && r->Err_0@ == m,
        },
{
    let start = *range_start(&range);
    let end = *range_end(&range);
    let parsed = parse_unsigned(s, T::max_u64());
    match parsed {
        None => {
            let mut msg = String::from_str("'");
            msg.append(s);
            msg.append("' isn't a valid number");
            assert(msg@ =~= not_a_number_message(s@));
            Err(msg)
        },
        Some(n) => {
            if start.to_u64() <= n && n <= end.to_u64() {
                Ok(T::from_u64(n))
            } else {
                let mut msg = String::from_str(name);
                msg.append(" must be in range ");
                push_decimal(&mut msg, start.to_u64());
                msg.append("..=");
                push_decimal(&mut msg, end.to_u64());
                assert(msg@ =~= out_of_range_message(
                    name@,
                    start.spec_int() as nat,
                    end.spec_int() as nat,
                ));
                Err(msg)
            }
        },
    }
}


/// The decimal writing of a number is a string of digits that stands for it.
proof fn lemma_decimal_digits(n: nat)
    ensures
        is_decimal(decimal(n)),
        digits_value(decimal(n)) == n,
    decreases n,
{
    let d = (n % 10) as int;
    assert(digit_value(digit_char(d)) == d);
    if n < 10 {
        assert(decimal(n).drop_last() =~= Seq::<char>::empty());
        assert(digits_value(decimal(n)) == digits_value(decimal(n).drop_last()) * 10
            + digit_value(decimal(n).last()));
    } else {
        lemma_decimal_digits(n / 10);
        let s = decimal(n);
        assert(s.drop_last() =~= decimal(n / 10));
        assert(s.last() == digit_char(d));
        assert(digits_value(s) == digits_value(s.drop_last()) * 10 + digit_value(s.last()));
        assert((n / 10) * 10 + n % 10 == n);
        assert forall|i: int| 0 <= i < s.len() implies is_digit(#[trigger] s[i]) by {
            if i < s.len() - 1 {
                assert(s[i] == decimal(n / 10)[i]);
            }
        }
    }
}

/// Every number up to the type's largest value reads back from its decimal
/// writing, so a value in range given as the range message writes it is
/// accepted as that value.
pub proof fn lemma_parse_decimal(n: nat, max: int)
    requires
        n <= max,
    ensures
        spec_parse_unsigned(decimal(n), max) == Some(n as int),
{
    lemma_decimal_digits(n);
    assert(decimal(n)[0] != '+');
}


/// A setting that is accepted is a number of the type that lies in the
/// range.
pub proof fn lemma_accepted_in_range(s: Seq<char>, max: int, start: int, end: int, name: Seq<char>)
    ensures
        spec_parse_value(s, max, start, end, name) matches Ok(n) ==> start <= n <= end && 0 <= n
            <= max,
{
    if let Some(n) = spec_parse_unsigned(s, max) {
        lemma_digits_nonnegative(unsigned_digits(s));
    }
}

/// A string of digits stands for a number that is not negative.
proof fn lemma_digits_nonnegative(s: Seq<char>)
    requires
        forall|i: int| 0 <= i < s.len() ==> is_digit(#[trigger] s[i]),
    ensures
        digits_value(s) >= 0,
    decreases s.len(),
{
    if s.len() > 0 {
        lemma_digits_nonnegative(s.drop_last());
        assert(is_digit(s[s.len() - 1]));
    }
}

} // verus!
