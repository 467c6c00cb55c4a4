//! Ages and sizes written as a number and a unit letter, such as `7d` or
//! `100M`.
//!
//! The two tables of units are separate: `M` is a month in an age and a
//! mebibyte in a size, and which one is meant is decided by the function that
//! is called, never by the letter.

use vstd::prelude::*;
use vstd::arithmetic::div_mod::lemma_fundamental_div_mod;
use vstd::arithmetic::mul::lemma_mul_is_commutative;
use vstd::string::StringExecFns;
use crate::decimal::{
    decimal_digits, lemma_decimal_digits_value, parse_scaled, push_decimal, scaled_amount,
};
use crate::error::ParseError;
use crate::text::chars_of;

verus! {

/// Seconds in a minute.
pub const MINUTE: u64 = 60;

/// Seconds in an hour.
pub const HOUR: u64 = 3_600;

/// Seconds in a day.
pub const DAY: u64 = 86_400;

/// Seconds in a week.
pub const WEEK: u64 = 604_800;

/// Seconds in a month. A month is taken as thirty days, whatever the calendar
/// says.
pub const MONTH: u64 = 2_592_000;

/// Bytes in a kibibyte.
pub const KIB: u64 = 1_024;

/// Bytes in a mebibyte.
pub const MIB: u64 = 1_048_576;

/// Bytes in a gibibyte.
pub const GIB: u64 = 1_073_741_824;

/// Bytes in a tebibyte.
pub const TIB: u64 = 1_099_511_627_776;

/// Bytes in a pebibyte.
pub const PIB: u64 = 1_125_899_906_842_624;

/// A span of time in whole seconds.
#[derive(Clone, Copy, Debug, PartialEq, Eq, Structural)]
pub struct Duration {
    pub secs: u64,
}

/// An amount of data in bytes.
#[derive(Clone, Copy, Debug, PartialEq, Eq, Structural)]
pub struct ByteCount {
    pub bytes: u64,
}

impl Duration {
    /// The span of `secs` seconds.
    pub fn from_secs(secs: u64) -> (d: Duration)
        ensures
            d.secs == secs,
    {
        Duration { secs }
    }

    /// The span in seconds.
    pub fn as_secs(&self) -> (secs: u64)
        ensures
            secs == self.secs,
    {
        self.secs
    }
}

impl ByteCount {
    /// The amount of `bytes` bytes.
    pub fn from_bytes(bytes: u64) -> (b: ByteCount)
        ensures
            b.bytes == bytes,
    {
        ByteCount { bytes }
    }

    /// The amount in bytes.
    pub fn as_bytes(&self) -> (bytes: u64)
        ensures
            bytes == self.bytes,
    {
        self.bytes
    }
}

/// How many seconds the unit letter `c` of an age is worth: `s`, `m`, `h`,
/// `d`, `w` or `M`.
pub open spec fn duration_unit(c: char) -> Option<u64> {
    if c == 's' {
        Some(1)
    } else if c == 'm' {
        Some(MINUTE)
    } else if c == 'h' {
        Some(HOUR)
    } else if c == 'd' {
        Some(DAY)
    } else if c == 'w' {
        Some(WEEK)
    } else if c == 'M' {
        Some(MONTH)
    } else {
        None
    }
}

/// How many bytes the unit letter `c` of a size is worth: `B`, `K`, `M`, `G`,
/// `T` or `P`, each 1024 times the one before.
pub open spec fn size_unit(c: char) -> Option<u64> {
    if c == 'B' {
        Some(1)
    } else if c == 'K' {
        Some(KIB)
    } else if c == 'M' {
        Some(MIB)
    } else if c == 'G' {
        Some(GIB)
    } else if c == 'T' {
        Some(TIB)
    } else if c == 'P' {
        Some(PIB)
    } else {
        None
    }
}

/// The seconds that the unit letter `c` of an age is worth.
pub fn duration_unit_of(c: char) -> (factor: Option<u64>)
    ensures
        factor == duration_unit(c),
{
    if c == 's' {
        Some(1)
    } else if c == 'm' {
        Some(MINUTE)
    } else if c == 'h' {
        Some(HOUR)
    } else if c == 'd' {
        Some(DAY)
    } else if c == 'w' {
        Some(WEEK)
    } else if c == 'M' {
        Some(MONTH)
    } else {
        None
    }
}

/// The bytes that the unit letter `c` of a size is worth.
pub fn size_unit_of(c: char) -> (factor: Option<u64>)
    ensures
        factor == size_unit(c),
{
    if c == 'B' {
        Some(1)
    } else if c == 'K' {
        Some(KIB)
    } else if c == 'M' {
        Some(MIB)
    } else if c == 'G' {
        Some(GIB)
    } else if c == 'T' {
        Some(TIB)
    } else if c == 'P' {
        Some(PIB)
    } else {
        None
    }
}

/// What the text `s` means as an age: a decimal number and then one unit
/// letter, with nothing between or around them.
///
/// The unit is looked at first: without a known unit letter at the end the
/// text is `InvalidFormat`, whatever stands before it. Then the number: it is
/// `InvalidNumber` where it is no decimal number, `Negative` where it is below
/// zero, and `InvalidNumber` where the seconds do not fit into 64 bits.
pub open spec fn parse_duration_spec(s: Seq<char>) -> Result<Duration, ParseError> {
    if s.len() == 0 {
        Err(ParseError::InvalidFormat)
    } else {
        match duration_unit(s.last()) {
            None => Err(ParseError::InvalidFormat),
            Some(factor) => match scaled_amount(s.drop_last(), factor as nat) {
                Ok(secs) => Ok(Duration { secs }),
                Err(e) => Err(e),
            },
        }
    }
}

/// What the text `s` means as a size, read as `parse_duration_spec` reads an
/// age, with the units of sizes.
pub open spec fn parse_size_spec(s: Seq<char>) -> Result<ByteCount, ParseError> {
    if s.len() == 0 {
        Err(ParseError::InvalidFormat)
    } else {
        match size_unit(s.last()) {
            None => Err(ParseError::InvalidFormat),
            Some(factor) => match scaled_amount(s.drop_last(), factor as nat) {
                Ok(bytes) => Ok(ByteCount { bytes }),
                Err(e) => Err(e),
            },
        }
    }
}

/// Reads an age such as `7d` or `90m`.
pub fn parse_duration(s: &str) -> (r: Result<Duration, ParseError>)
    ensures
        r == parse_duration_spec(s@),
{
    let chars = chars_of(s);
    let n = chars.len();
    if n == 0 {
        return Err(ParseError::InvalidFormat);
    }
    assert(chars@.take(n - 1) == s@.drop_last());
    match duration_unit_of(chars[n - 1]) {
        None => Err(ParseError::InvalidFormat),
        Some(factor) => match parse_scaled(&chars, n - 1, factor) {
            Ok(secs) => Ok(Duration { secs }),
            Err(e) => Err(e),
        },
    }
}

/// Reads a size such as `100M` or `512K`.
pub fn parse_size(s: &str) -> (r: Result<ByteCount, ParseError>)
    ensures
        r == parse_size_spec(s@),
{
    let chars = chars_of(s);
    let n = chars.len();
    if n == 0 {
        return Err(ParseError::InvalidFormat);
    }
    assert(chars@.take(n - 1) == s@.drop_last());
    match size_unit_of(chars[n - 1]) {
        None => Err(ParseError::InvalidFormat),
        Some(factor) => match parse_scaled(&chars, n - 1, factor) {
            Ok(bytes) => Ok(ByteCount { bytes }),
            Err(e) => Err(e),
        },
    }
}

/// The unit letter in which an age of `secs` seconds is written: the largest
/// unit of which it is a whole multiple, and seconds for an age of zero.
pub open spec fn duration_letter(secs: u64) -> char {
    if secs == 0 {
        's'
    } else if secs % MONTH == 0 {
        'M'
    } else if secs % WEEK == 0 {
        'w'
    } else if secs % DAY == 0 {
        'd'
    } else if secs % HOUR == 0 {
        'h'
    } else if secs % MINUTE == 0 {
        'm'
    } else {
        's'
    }
}

/// The unit letter in which a size of `bytes` bytes is written: the largest
/// unit of which it is a whole multiple, and bytes for a size of zero.
pub open spec fn size_letter(bytes: u64) -> char {
    if bytes == 0 {
        'B'
    } else if bytes % PIB == 0 {
        'P'
    } else if bytes % TIB == 0 {
        'T'
    } else if bytes % GIB == 0 {
        'G'
    } else if bytes % MIB == 0 {
        'M'
    } else if bytes % KIB == 0 {
        'K'
    } else {
        'B'
    }
}

/// The text of an age: the number of units in decimal, then the unit letter.
pub open spec fn format_duration_spec(d: Duration) -> Seq<char> {
    let letter = duration_letter(d.secs);
    decimal_digits((d.secs / duration_unit(letter)->0) as nat).push(letter)
}

/// The text of a size: the number of units in decimal, then the unit letter.
pub open spec fn format_size_spec(b: ByteCount) -> Seq<char> {
    let letter = size_letter(b.bytes);
    decimal_digits((b.bytes / size_unit(letter)->0) as nat).push(letter)
}

/// The unit in which an age of `secs` seconds is written, as its letter and
/// its worth in seconds.
pub fn duration_letter_of(secs: u64) -> (unit: (&'static str, u64))
    ensures
        unit.0@ == seq![duration_letter(secs)],
        duration_unit(duration_letter(secs)) == Some(unit.1),
        unit.1 >= 1,
        secs % unit.1 == 0,
{
    proof {
        reveal_strlit("s");
        reveal_strlit("m");
        reveal_strlit("h");
        reveal_strlit("d");
        reveal_strlit("w");
        reveal_strlit("M");
    }
    let unit = if secs == 0 {
        ("s", 1)
    } else if secs % MONTH == 0 {
        ("M", MONTH)
    } else if secs % WEEK == 0 {
        ("w", WEEK)
    } else if secs % DAY == 0 {
        ("d", DAY)
    } else if secs % HOUR == 0 {
        ("h", HOUR)
    } else if secs % MINUTE == 0 {
        ("m", MINUTE)
    } else {
        ("s", 1)
    };
    assert(unit.0@ =~= seq![duration_letter(secs)]);
    unit
}

/// The unit in which a size of `bytes` bytes is written, as its letter and
/// its worth in bytes.
pub fn size_letter_of(bytes: u64) -> (unit: (&'static str, u64))
    ensures
        unit.0@ == seq![size_letter(bytes)],
        size_unit(size_letter(bytes)) == Some(unit.1),
        unit.1 >= 1,
        bytes % unit.1 == 0,
{
    proof {
        reveal_strlit("B");
        reveal_strlit("K");
        reveal_strlit("M");
        reveal_strlit("G");
        reveal_strlit("T");
        reveal_strlit("P");
    }
    let unit = if bytes == 0 {
        ("B", 1)
    } else if bytes % PIB == 0 {
        ("P", PIB)
    } else if bytes % TIB == 0 {
        ("T", TIB)
    } else if bytes % GIB == 0 {
        ("G", GIB)
    } else if bytes % MIB == 0 {
        ("M", MIB)
    } else if bytes % KIB == 0 {
        ("K", KIB)
    } else {
        ("B", 1)
    };
    assert(unit.0@ =~= seq![size_letter(bytes)]);
    unit
}

/// Writes an age in its largest exact unit: 604800 seconds are `1w`.
pub fn format_duration(d: Duration) -> (text: String)
    ensures
        text@ == format_duration_spec(d),
        parse_duration_spec(text@) == Ok::<Duration, ParseError>(d),
{
    let (letter, factor) = duration_letter_of(d.secs);
    let mut text = String::new();
    push_decimal(&mut text, d.secs / factor);
    text.append(letter);
    proof {
        assert(text@ =~= format_duration_spec(d));
        lemma_duration_round_trip(d);
    }
    text
}

/// Writes a size in its largest exact unit: 104857600 bytes are `100M`.
pub fn format_size(b: ByteCount) -> (text: String)
    ensures
        text@ == format_size_spec(b),
        parse_size_spec(text@) == Ok::<ByteCount, ParseError>(b),
{
    let (letter, factor) = size_letter_of(b.bytes);
    let mut text = String::new();
    push_decimal(&mut text, b.bytes / factor);
    text.append(letter);
    proof {
        assert(text@ =~= format_size_spec(b));
        lemma_size_round_trip(b);
    }
    text
}

/// A number of units that fits, written in decimal in front of its unit
/// letter, reads as that many units.
pub proof fn lemma_parse_duration_pair(count: nat, letter: char)
    requires
        duration_unit(letter) is Some,
        count * duration_unit(letter)->0 <= u64::MAX,
    ensures
        parse_duration_spec(decimal_digits(count).push(letter)) == Ok::<Duration, ParseError>(
            Duration { secs: (count * duration_unit(letter)->0) as u64 },
        ),
{
    let text = decimal_digits(count).push(letter);
    lemma_decimal_digits_value(count);
    assert(text.last() == letter);
    assert(text.drop_last() =~= decimal_digits(count));
}

/// A number of units that fits, written in decimal in front of its unit
/// letter, reads as that many units.
pub proof fn lemma_parse_size_pair(count: nat, letter: char)
    requires
        size_unit(letter) is Some,
        count * size_unit(letter)->0 <= u64::MAX,
    ensures
        parse_size_spec(decimal_digits(count).push(letter)) == Ok::<ByteCount, ParseError>(
            ByteCount { bytes: (count * size_unit(letter)->0) as u64 },
        ),
{
    let text = decimal_digits(count).push(letter);
    lemma_decimal_digits_value(count);
    assert(text.last() == letter);
    assert(text.drop_last() =~= decimal_digits(count));
}

/// Every age reads back from its text as itself.
pub proof fn lemma_duration_round_trip(d: Duration)
    ensures
        parse_duration_spec(format_duration_spec(d)) == Ok::<Duration, ParseError>(d),
{
    let letter = duration_letter(d.secs);
    let factor = duration_unit(letter)->0;
    let count = (d.secs / factor) as nat;
    assert(count * factor == d.secs) by {
        lemma_fundamental_div_mod(d.secs as int, factor as int);
        lemma_mul_is_commutative(count as int, factor as int);
    }
    lemma_parse_duration_pair(count, letter);
}

/// Every size reads back from its text as itself.
pub proof fn lemma_size_round_trip(b: ByteCount)
    ensures
        parse_size_spec(format_size_spec(b)) == Ok::<ByteCount, ParseError>(b),
{
    let letter = size_letter(b.bytes);
    let factor = size_unit(letter)->0;
    let count = (b.bytes / factor) as nat;
    assert(count * factor == b.bytes) by {
        lemma_fundamental_div_mod(b.bytes as int, factor as int);
        lemma_mul_is_commutative(count as int, factor as int);
    }
    lemma_parse_size_pair(count, letter);
}

/// An age that was read from a text, written out and read again, is the age
/// that was read first.
pub proof fn lemma_duration_reparse(s: Seq<char>)
    requires
        parse_duration_spec(s) is Ok,
    ensures
        parse_duration_spec(format_duration_spec(parse_duration_spec(s)->Ok_0))
            == parse_duration_spec(s),
{
    lemma_duration_round_trip(parse_duration_spec(s)->Ok_0);
}

/// A size that was read from a text, written out and read again, is the size
/// that was read first.
pub proof fn lemma_size_reparse(s: Seq<char>)
    requires
        parse_size_spec(s) is Ok,
    ensures
        parse_size_spec(format_size_spec(parse_size_spec(s)->Ok_0)) == parse_size_spec(s),
{
    lemma_size_round_trip(parse_size_spec(s)->Ok_0);
}

} // verus!
