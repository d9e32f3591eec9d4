//! The two display-unit modes a user can pick, and the ASCII
//! case-insensitive reading of a command-line argument into one of them.

use vstd::prelude::*;
use crate::errors::Error;

verus! {

/// How readings are labelled: everyday units or strict SI units.
#[derive(Debug, Eq, PartialEq, Structural, Copy, Clone)]
pub enum Units {
    /// Degrees Celsius for temperatures.
    Human,
    /// Kelvin for temperatures.
    Si,
}

/// A character folded to lower case when it is an ASCII capital.
pub open spec fn lower_char(c: char) -> char {
    if 65 <= c as u32 <= 90 {
        ((c as u32 + 32) as u8) as char
    } else {
        c
    }
}

/// ASCII case-insensitive equality of two character sequences.
pub open spec fn eq_ignore_ascii_case(s: Seq<char>, t: Seq<char>) -> bool {
    s.len() == t.len() && forall|i: int|
        0 <= i < s.len() ==> lower_char(s[i]) == lower_char(t[i])
}

/// What reading an argument yields: `human` or `si`, in any ASCII casing;
/// everything else is rejected.
pub open spec fn parsed_units(s: Seq<char>) -> Result<Units, Error> {
    if eq_ignore_ascii_case(s, "human"@) {
        Ok(Units::Human)
    } else if eq_ignore_ascii_case(s, "si"@) {
        Ok(Units::Si)
    } else {
        Err(Error::ParseError)
    }
}

/// Fold an ASCII capital to lower case.
fn lower_char_exec(c: char) -> (r: char)
    ensures
        r == lower_char(c),
{
    let u = c as u32;
    if 65 <= u && u <= 90 {
        ((u + 32) as u8) as char
    } else {
        c
    }
}

/// ASCII case-insensitive comparison of two strings.
fn eq_ignore_case(s: &str, t: &str) -> (r: bool)
    ensures
        r == eq_ignore_ascii_case(s@, t@),
{
    let n = s.unicode_len();
    if n != t.unicode_len() {
        return false;
    }
    let mut i: usize = 0;
    while i < n
        invariant
            i <= n,
            n == s@.len(),
            n == t@.len(),
            forall|j: int| 0 <= j < i ==> lower_char(s@[j]) == lower_char(t@[j]),
        decreases n - i,
    {
        let a = lower_char_exec(s.get_char(i));
        let b = lower_char_exec(t.get_char(i));
        if a != b {
            return false;
        }
        i += 1;
    }
    true
}

impl Units {
    /// The spellings accepted on the command line.
    pub fn arg_variants() -> (r: [&'static str; 2])
        ensures
            r@[0]@ == "human"@,
            r@[1]@ == "si"@,
    {
        ["human", "si"]
    }

    /// Read a command-line argument, case-insensitively, into a unit mode.
    pub fn parse(s: &str) -> (r: Result<Units, Error>)
        ensures
            r == parsed_units(s@),
    {
        if eq_ignore_case(s, "human") {
            Ok(Units::Human)
        } else if eq_ignore_case(s, "si") {
            Ok(Units::Si)
        } else {
            Err(Error::ParseError)
        }
    }
}

impl core::str::FromStr for Units {
    type Err = Error;

    fn from_str(s: &str) -> Result<Self, Self::Err> {
        Units::parse(s)
    }
}

} // verus!
