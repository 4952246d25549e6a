//! The configuration of a run, and the reading of a tick rate.

use vstd::prelude::*;

verus! {

/// What a run is started with. It does not change while the run lasts.
#[derive(Debug, Clone, PartialEq, Eq)]
pub struct Config {
    /// Host of the server that the bots connect to.
    pub host: String,
    /// Port of the server.
    pub port: u16,
    /// Number of bots.
    pub count: usize,
    /// Prefix of the bots' names: bot `i` is called `{prefix}_{i}`.
    pub prefix: String,
    /// Time between two redraws of the interface, in milliseconds.
    pub rate: u64,
    /// Number of worker threads that carry the sessions.
    pub threads: usize,
}

/// What a [`Config`] is, with strings as sequences of characters.
pub struct ConfigView {
    pub host: Seq<char>,
    pub port: u16,
    pub count: usize,
    pub prefix: Seq<char>,
    pub rate: u64,
    pub threads: usize,
}

impl View for Config {
    type V = ConfigView;

    open spec fn view(&self) -> ConfigView {
        ConfigView {
            host: self.host@,
            port: self.port,
            count: self.count,
            prefix: self.prefix@,
            rate: self.rate,
            threads: self.threads,
        }
    }
}

/// Why a configuration cannot be run.
#[derive(Debug, Clone, Copy, PartialEq, Eq)]
pub enum ConfigError {
    /// The number of bots is zero.
    NoBots,
    /// The number of worker threads is zero.
    NoThreads,
}

impl Config {
    /// Checks that there is at least one bot and at least one worker
    /// thread. A missing bot is reported before a missing thread.
    pub fn validate(&self) -> (checked: Result<(), ConfigError>)
        ensures
            checked is Ok <==> self.count >= 1 && self.threads >= 1,
            checked == Err::<(), ConfigError>(ConfigError::NoBots) <==> self.count == 0,
            checked == Err::<(), ConfigError>(ConfigError::NoThreads) <==> self.count >= 1
                && self.threads == 0,
    {
        if self.count == 0 {
            Err(ConfigError::NoBots)
        } else if self.threads == 0 {
            Err(ConfigError::NoThreads)
        } else {
            Ok(())
        }
    }
}

/// Why a text is not a tick rate.
#[derive(Debug, Clone, Copy, PartialEq, Eq)]
pub enum ParseError {
    /// The text is empty.
    Empty,
    /// The text holds no digit, or a character that is no digit stands
    /// before the number has grown beyond 64 bits.
    InvalidDigit,
    /// A digit takes the number beyond 64 bits, and only digits stand
    /// before it.
    Overflow,
}

/// The value of a decimal digit, or `None` for any other character.
pub open spec fn digit_value(c: char) -> Option<nat> {
    if c == '0' {
        Some(0)
    } else if c == '1' {
        Some(1)
    } else if c == '2' {
        Some(2)
    } else if c == '3' {
        Some(3)
    } else if c == '4' {
        Some(4)
    } else if c == '5' {
        Some(5)
    } else if c == '6' {
        Some(6)
    } else if c == '7' {
        Some(7)
    } else if c == '8' {
        Some(8)
    } else if c == '9' {
        Some(9)
    } else {
        None
    }
}

/// The number that a sequence of decimal digits writes; 0 for none.
pub open spec fn digits_value(s: Seq<char>) -> nat
    decreases s.len(),
{
    if s.len() == 0 {
        0
    } else {
        digits_value(s.drop_last()) * 10 + digit_value(s.last()).unwrap_or(0)
    }
}

/// The text without its sign: a `+` in front may be there and says
/// nothing.
pub open spec fn unsigned(s: Seq<char>) -> Seq<char> {
    if s.len() > 0 && s[0] == '+' {
        s.skip(1)
    } else {
        s
    }
}

/// Whether reading stops at a character: it is no digit, or it is a digit
/// that takes the number written so far above `u64::MAX`.
pub open spec fn stops_at(digits: Seq<char>, i: int) -> bool {
    digit_value(digits[i]) is None || digits_value(digits.take(i + 1)) > u64::MAX
}

/// Whether reading from the left stops at this character and at none
/// before it.
pub open spec fn stops_first_at(digits: Seq<char>, i: int) -> bool {
    &&& 0 <= i < digits.len()
    &&& stops_at(digits, i)
    &&& forall|j: int| 0 <= j < i ==> !stops_at(digits, j)
}

/// The tick rate that a text gives, in milliseconds.
///
/// The text is a decimal number, with or without a `+` in front. An empty
/// text is `Empty`, a text without a digit `InvalidDigit`. The digits are
/// read from the left, and the first character that cannot be read
/// decides the error: `InvalidDigit` if it is no digit, `Overflow` if it is
/// a digit that takes the number above `u64::MAX`. What stands behind that
/// character is not looked at.
pub open spec fn duration_of(s: Seq<char>) -> Result<u64, ParseError> {
    let digits = unsigned(s);
    if s.len() == 0 {
        Err(ParseError::Empty)
    } else if digits.len() == 0 {
        Err(ParseError::InvalidDigit)
    } else if exists|i: int| stops_first_at(digits, i) {
        let first = choose|i: int| stops_first_at(digits, i);
        if digit_value(digits[first]) is None {
            Err(ParseError::InvalidDigit)
        } else {
            Err(ParseError::Overflow)
        }
    } else {
        Ok(digits_value(digits) as u64)
    }
}

/// Reading stops first at one character only.
pub proof fn lemma_one_first_stop(digits: Seq<char>, i: int, j: int)
    requires
        stops_first_at(digits, i),
        stops_first_at(digits, j),
    ensures
        i == j,
{
}

/// The value of a character as a decimal digit, if it is one.
fn digit_of(c: char) -> (d: Option<u64>)
    ensures
        match d {
            Some(v) => digit_value(c) == Some(v as nat) && v < 10,
            None => digit_value(c) is None,
        },
{
    match c {
        '0' => Some(0),
        '1' => Some(1),
        '2' => Some(2),
        '3' => Some(3),
        '4' => Some(4),
        '5' => Some(5),
        '6' => Some(6),
        '7' => Some(7),
        '8' => Some(8),
        '9' => Some(9),
        _ => None,
    }
}

/// Reads a tick rate, in milliseconds: see [`duration_of`].
pub fn parse_duration(arg: &str) -> (millis: Result<u64, ParseError>)
    ensures
        millis == duration_of(arg@),
{
    let len = arg.unicode_len();
    if len == 0 {
        return Err(ParseError::Empty);
    }
    let start: usize = if arg.get_char(0) == '+' {
        1
    } else {
        0
    };
    let ghost digits = unsigned(arg@);
    if start == len {
        return Err(ParseError::InvalidDigit);
    }
    let mut value: u64 = 0;
    let mut i: usize = start;
    while i < len
        invariant
            start <= i <= len,
            start < len,
            len == arg@.len(),
            digits == arg@.skip(start as int),
            digits == unsigned(arg@),
            forall|j: int| 0 <= j < i - start ==> !stops_at(digits, j),
            value == digits_value(digits.take(i - start)),
        decreases len - i,
    {
        let ghost at = i - start;
        assert(digits.take(at + 1).drop_last() =~= digits.take(at));
        let digit = match digit_of(arg.get_char(i)) {
            Some(digit) => digit,
            None => {
                proof {
                    assert(stops_first_at(digits, at));
                    lemma_one_first_stop(digits, at, choose|k: int| stops_first_at(digits, k));
                }
                return Err(ParseError::InvalidDigit);
            },
        };
        let sum = match value.checked_mul(10) {
            Some(tens) => tens.checked_add(digit),
            None => None,
        };
        match sum {
            Some(sum) => {
                value = sum;
            },
            None => {
                proof {
                    assert(stops_first_at(digits, at));
                    lemma_one_first_stop(digits, at, choose|k: int| stops_first_at(digits, k));
                }
                return Err(ParseError::Overflow);
            },
        }
        i += 1;
    }
    assert(digits.take(len - start) =~= digits);
    Ok(value)
}

impl ParseError {
    /// Says in words what is wrong with the text.
    pub fn message(&self) -> (text: String)
        ensures
            text@ == match *self {
                ParseError::Empty => "cannot parse integer from empty string"@,
                ParseError::InvalidDigit => "invalid digit found in string"@,
                ParseError::Overflow => "number too large to fit in target type"@,
            },
    {
        match self {
            ParseError::Empty => "cannot parse integer from empty string".to_owned(),
            ParseError::InvalidDigit => "invalid digit found in string".to_owned(),
            ParseError::Overflow => "number too large to fit in target type".to_owned(),
        }
    }
}

} // verus!
