//! MCCS/DDC-CI value types, numeric parsing and the retry rule for DDC commands.
use vstd::prelude::*;

use crate::text::{
    chars_of, concat2, digit_char, digit_to_char, hex_seq, hex_string, parse_u32_radix, string_from_chars,
    trim_chars, trim_seq, u32_from_str_radix,
};

verus! {

/// A VCP feature code (one byte).
#[derive(Debug, Clone, Copy, PartialEq, Eq, Structural, PartialOrd, Ord, Hash)]
pub struct VcpCode(pub u8);

/// A VCP feature value.
#[derive(Debug, Clone, Copy, PartialEq, Eq, Structural, PartialOrd, Ord, Hash)]
pub struct VcpValue(pub u32);

/// The errors of DDC commands and of parsing codes and values.
#[derive(Debug, Clone, PartialEq, Eq)]
pub enum DdcError {
    Transient(String),
    Permanent(String),
    InvalidVcpCode(String),
    InvalidVcpValue(String),
}

/// What `parse_u32` accepts: surrounding whitespace is ignored, a `0x`/`0X`
/// prefix selects hexadecimal, otherwise the text is decimal.
pub open spec fn spec_parse_u32(s: Seq<char>) -> Option<u32> {
    let t = trim_seq(s);
    if t.len() >= 2 && t[0] == '0' && (t[1] == 'x' || t[1] == 'X') {
        parse_u32_radix(t.subrange(2, t.len() as int), 16)
    } else {
        parse_u32_radix(t, 10)
    }
}

/// The text of a code as `Display` writes it: `0x` and two upper-case hex digits.
pub open spec fn code_text(code: u8) -> Seq<char> {
    seq!['0', 'x', digit_char((code / 16) as nat), digit_char((code % 16) as nat)]
}

/// The message of an error as its `Display` writes it.
pub open spec fn error_text(e: DdcError) -> Seq<char> {
    match e {
        DdcError::Transient(m) => "transient DDC error: "@ + m@,
        DdcError::Permanent(m) => "permanent DDC error: "@ + m@,
        DdcError::InvalidVcpCode(m) => "invalid VCP code: "@ + m@,
        DdcError::InvalidVcpValue(m) => "invalid VCP value: "@ + m@,
    }
}

impl VcpCode {
    pub fn new(code: u8) -> (r: Self)
        ensures
            r.0 == code,
    {
        VcpCode(code)
    }

    pub fn get(self) -> (r: u8)
        ensures
            r == self.0,
    {
        self.0
    }

    /// The `0xNN` text of the code.
    pub fn display(&self) -> (s: String)
        ensures
            s@ == code_text(self.0),
    {
        let hi = digit_to_char((self.0 / 16) as u64);
        let lo = digit_to_char((self.0 % 16) as u64);
        let v: Vec<char> = vec!['0', 'x', hi, lo];
        assert(v@ =~= code_text(self.0));
        string_from_chars(v.as_slice())
    }

    /// Parses a code written in decimal or as `0x` hex; the value must fit in a byte.
    pub fn parse_str(value: &str) -> (r: Result<VcpCode, DdcError>)
        ensures
            match r {
                Ok(code) => spec_parse_u32(value@) == Some(code.0 as u32),
                Err(e) => e == DdcError::InvalidVcpCode(e->InvalidVcpCode_0) && e->InvalidVcpCode_0@
                    == value@ && (spec_parse_u32(value@) is None || spec_parse_u32(value@).unwrap()
                    > 255),
            },
    {
        match parse_u32(value) {
            Ok(parsed) => {
                if parsed <= 255 {
                    Ok(VcpCode(parsed as u8))
                } else {
                    Err(DdcError::InvalidVcpCode(String::from_str(value)))
                }
            },
            Err(_) => Err(DdcError::InvalidVcpCode(String::from_str(value))),
        }
    }
}

impl VcpValue {
    pub fn new(value: u32) -> (r: Self)
        ensures
            r.0 == value,
    {
        VcpValue(value)
    }

    pub fn get(self) -> (r: u32)
        ensures
            r == self.0,
    {
        self.0
    }

    /// The `0x...` text of the value (upper-case hex, no padding).
    pub fn display(&self) -> (s: String)
        ensures
            s@ == "0x"@ + hex_seq(self.0 as nat),
    {
        let h = hex_string(self.0 as u64);
        concat2("0x", h.as_str())
    }

    /// Parses a value written in decimal or as `0x` hex.
    pub fn parse_str(value: &str) -> (r: Result<VcpValue, DdcError>)
        ensures
            match r {
                Ok(v) => spec_parse_u32(value@) == Some(v.0),
                Err(e) => e == DdcError::InvalidVcpValue(e->InvalidVcpValue_0)
                    && e->InvalidVcpValue_0@ == value@ && spec_parse_u32(value@) is None,
            },
    {
        match parse_u32(value) {
            Ok(parsed) => Ok(VcpValue(parsed)),
            Err(_) => Err(DdcError::InvalidVcpValue(String::from_str(value))),
        }
    }
}

impl std::str::FromStr for VcpCode {
    type Err = DdcError;

    /// As `VcpCode::parse_str`.
    fn from_str(value: &str) -> (r: Result<Self, Self::Err>)
        ensures
            match r {
                Ok(code) => spec_parse_u32(value@) == Some(code.0 as u32),
                Err(e) => e == DdcError::InvalidVcpCode(e->InvalidVcpCode_0) && e->InvalidVcpCode_0@
                    == value@ && (spec_parse_u32(value@) is None || spec_parse_u32(value@).unwrap()
                    > 255),
            },
    {
        VcpCode::parse_str(value)
    }
}

impl std::str::FromStr for VcpValue {
    type Err = DdcError;

    /// As `VcpValue::parse_str`.
    fn from_str(value: &str) -> (r: Result<Self, Self::Err>)
        ensures
            match r {
                Ok(v) => spec_parse_u32(value@) == Some(v.0),
                Err(e) => e == DdcError::InvalidVcpValue(e->InvalidVcpValue_0)
                    && e->InvalidVcpValue_0@ == value@ && spec_parse_u32(value@) is None,
            },
    {
        VcpValue::parse_str(value)
    }
}

impl DdcError {
    /// The text that the error displays.
    pub fn message(&self) -> (s: String)
        ensures
            s@ == error_text(*self),
    {
        match self {
            DdcError::Transient(m) => concat2("transient DDC error: ", m.as_str()),
            DdcError::Permanent(m) => concat2("permanent DDC error: ", m.as_str()),
            DdcError::InvalidVcpCode(m) => concat2("invalid VCP code: ", m.as_str()),
            DdcError::InvalidVcpValue(m) => concat2("invalid VCP value: ", m.as_str()),
        }
    }
}

/// A feature as a monitor reports it.
#[derive(Debug, Clone, PartialEq, Eq)]
pub struct VcpFeature {
    pub code: VcpCode,
    pub current: u32,
    pub maximum: u32,
}

/// How often and how patiently a DDC command is retried.
#[derive(Debug, Clone, Copy, PartialEq, Eq, Structural)]
pub struct RetryPolicy {
    pub attempts: usize,
    pub delay_ms: u64,
}

impl Default for RetryPolicy {
    fn default() -> (r: Self)
        ensures
            r.attempts == 3 && r.delay_ms == 40,
    {
        RetryPolicy { attempts: 3, delay_ms: 40 }
    }
}

/// What a command driver does after one attempt.
#[derive(Debug, PartialEq, Eq)]
pub enum RetryAction<T> {
    /// Stop and return this result.
    Finish(Result<T, DdcError>),
    /// Try again, after waiting this many milliseconds (zero: at once).
    RetryAfter(u64),
}

impl RetryPolicy {
    /// The number of attempts actually made: at least one.
    pub open spec fn spec_effective_attempts(self) -> usize {
        if self.attempts == 0 {
            1
        } else {
            self.attempts
        }
    }

    pub fn effective_attempts(&self) -> (n: usize)
        ensures
            n == self.spec_effective_attempts(),
            n >= 1,
    {
        if self.attempts == 0 {
            1
        } else {
            self.attempts
        }
    }

    /// The retry rule: a success or a non-transient error ends the command at
    /// once; a transient error is retried while attempts remain (waiting
    /// `delay_ms` between attempts) and is returned after the last one.
    pub fn next_action<T>(&self, attempt: usize, outcome: Result<T, DdcError>) -> (a: RetryAction<
        T,
    >)
        requires
            attempt < self.spec_effective_attempts(),
        ensures
            match outcome {
                Ok(_) => a == RetryAction::Finish(outcome),
                Err(e) => if e is Transient && attempt + 1 < self.spec_effective_attempts() {
                    a == RetryAction::<T>::RetryAfter(self.delay_ms)
                } else {
                    a == RetryAction::Finish(outcome)
                },
            },
            // The last attempt always finishes.
            attempt + 1 == self.spec_effective_attempts() ==> a is Finish,
    {
        let attempts = self.effective_attempts();
        match outcome {
            Ok(v) => RetryAction::Finish(Ok(v)),
            Err(DdcError::Transient(m)) => {
                if attempt + 1 < attempts {
                    RetryAction::RetryAfter(self.delay_ms)
                } else {
                    RetryAction::Finish(Err(DdcError::Transient(m)))
                }
            },
            Err(e) => RetryAction::Finish(Err(e)),
        }
    }
}

/// Numbers as the command line and profiles write them: decimal, or `0x`/`0X`
/// hexadecimal, with surrounding whitespace ignored.
pub fn parse_u32(value: &str) -> (r: Result<u32, std::num::ParseIntError>)
    ensures
        r is Ok <==> spec_parse_u32(value@) is Some,
        r matches Ok(v) ==> spec_parse_u32(value@) == Some(v),
{
    let chars = chars_of(value);
    let t = trim_chars(&chars);
    if t.len() >= 2 && t[0] == '0' && (t[1] == 'x' || t[1] == 'X') {
        let mut rest: Vec<char> = Vec::new();
        let mut i: usize = 2;
        while i < t.len()
            invariant
                2 <= i <= t.len(),
                rest@ == t@.subrange(2, i as int),
            decreases t.len() - i,
        {
            rest.push(t[i]);
            i = i + 1;
            assert(rest@ =~= t@.subrange(2, i as int));
        }
        let hex = string_from_chars(rest.as_slice());
        u32_from_str_radix(hex.as_str(), 16)
    } else {
        let dec = string_from_chars(t.as_slice());
        u32_from_str_radix(dec.as_str(), 10)
    }
}

} // verus!
