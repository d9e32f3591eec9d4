//! Runtime configuration of the dashboard: verbosity, the tick interval in
//! seconds, and the display-unit mode. The interval is read from its
//! command-line spelling by a verified decimal parser.

use vstd::prelude::*;
use crate::units::Units;

verus! {

/// Is `c` an ASCII decimal digit?
pub open spec fn is_digit(c: char) -> bool {
    48 <= c as u32 <= 57
}

/// The numeric value of an ASCII digit.
pub open spec fn digit_value(c: char) -> int {
    c as u32 - 48
}

/// The number a digit string denotes, most significant digit first.
pub open spec fn digits_value(s: Seq<char>) -> int
    decreases s.len(),
{
    if s.len() == 0 {
        0
    } else {
        digits_value(s.drop_last()) * 10 + digit_value(s.last())
    }
}

/// The digits of a spelled number: an optional leading plus sign is skipped.
pub open spec fn number_body(s: Seq<char>) -> Seq<char> {
    if s.len() > 0 && s[0] == '+' {
        s.skip(1)
    } else {
        s
    }
}

/// Does `s` spell a number that fits in a `u64`?
pub open spec fn spells_u64(s: Seq<char>) -> bool {
    &&& s.len() > 0
    &&& (forall|i: int| 0 <= i < s.len() ==> is_digit(#[trigger] s[i]))
    &&& digits_value(s) <= u64::MAX
}

/// What reading a tick-interval argument yields: the number of seconds when
/// the argument spells a positive number that fits, and otherwise the
/// original spelling followed by an explanation.
pub open spec fn parsed_duration(s: Seq<char>) -> Result<u64, Seq<char>> {
    let body = number_body(s);
    if spells_u64(body) && digits_value(body) > 0 {
        Ok(digits_value(body) as u64)
    } else {
        Err(s + " isn't a positive number"@)
    }
}

/// A digit string denotes a nonnegative number.
proof fn lemma_digits_value_nonneg(s: Seq<char>)
    requires
        forall|i: int| 0 <= i < s.len() ==> is_digit(#[trigger] s[i]),
    ensures
        digits_value(s) >= 0,
    decreases s.len(),
{
    if s.len() > 0 {
        lemma_digits_value_nonneg(s.drop_last());
    }
}

/// Extending a digit string never shrinks the number it denotes.
proof fn lemma_digits_value_prefix(s: Seq<char>, i: int)
    requires
        0 <= i <= s.len(),
        forall|j: int| 0 <= j < s.len() ==> is_digit(#[trigger] s[j]),
    ensures
        digits_value(s.take(i)) <= digits_value(s),
    decreases s.len() - i,
{
    if i < s.len() {
        lemma_digits_value_prefix(s, i + 1);
        assert(s.take(i + 1).drop_last() =~= s.take(i));
        assert(forall|j: int| 0 <= j < s.take(i).len() ==> is_digit(#[trigger] s.take(i)[j]));
        lemma_digits_value_nonneg(s.take(i));
        assert(digits_value(s.take(i)) * 10 >= digits_value(s.take(i))) by (nonlinear_arith)
            requires
                digits_value(s.take(i)) >= 0,
        ;
    } else {
        assert(s.take(i) =~= s);
    }
}

/// The rejection message for a spelling that is not a positive number.
fn not_positive_message(raw: &str) -> (r: String)
    ensures
        r@ == raw@ + " isn't a positive number"@,
{
    let mut msg = raw.to_owned();
    msg.append(" isn't a positive number");
    msg
}

/// Read a tick interval, in seconds, from its command-line spelling: an
/// optional plus sign and decimal digits denoting a positive number that
/// fits in a `u64`; anything else is rejected with an explanation.
pub fn parse_duration(raw: &str) -> (r: Result<u64, String>)
    ensures
        match r {
            Ok(secs) => parsed_duration(raw@) == Ok::<u64, Seq<char>>(secs),
            Err(msg) => parsed_duration(raw@) == Err::<u64, Seq<char>>(msg@),
        },
{
    let n = raw.unicode_len();
    let has_sign = n > 0 && raw.get_char(0) == '+';
    let start: usize = if has_sign {
        1
    } else {
        0
    };
    proof {
        assert(number_body(raw@) =~= raw@.skip(start as int));
    }
    if start >= n {
        // empty digit part
        return Err(not_positive_message(raw));
    }
    let mut acc: u64 = 0;
    let mut i: usize = start;
    while i < n
        invariant
            start <= i <= n,
            n == raw@.len(),
            number_body(raw@) == raw@.skip(start as int),
            forall|j: int| start <= j < i ==> is_digit(#[trigger] raw@[j]),
            acc as int == digits_value(raw@.subrange(start as int, i as int)),
        decreases n - i,
    {
        let c = raw.get_char(i);
        let u = c as u32;
        if !(48 <= u && u <= 57) {
            // a non-digit in the digit part: the spelling is not a number
            proof {
                assert(number_body(raw@)[i - start] == raw@[i as int]);
                assert(!is_digit(number_body(raw@)[i - start]));
            }
            return Err(not_positive_message(raw));
        }
        let d = (u - 48) as u64;
        let ghost prefix = raw@.subrange(start as int, i as int);
        let ghost extended = raw@.subrange(start as int, i + 1);
        proof {
            assert(extended.drop_last() =~= prefix);
            vstd::arithmetic::div_mod::lemma_fundamental_div_mod(u64::MAX - d, 10);
            vstd::arithmetic::div_mod::lemma_mod_division_less_than_divisor(u64::MAX - d, 10);
        }
        if acc <= (u64::MAX - d) / 10 {
            acc = acc * 10 + d;
        } else {
            // the number can no longer fit in a u64, whatever follows
            proof {
                assert(digits_value(extended) > u64::MAX);
                if forall|j: int|
                    0 <= j < number_body(raw@).len() ==> is_digit(
                        #[trigger] number_body(raw@)[j],
                    ) {
                    lemma_digits_value_prefix(number_body(raw@), i + 1 - start);
                    assert forall|j: int| 0 <= j < i + 1 - start implies number_body(raw@).take(
                        i + 1 - start,
                    )[j] == extended[j] by {
                        assert(number_body(raw@)[j] == raw@[j + start]);
                    }
                    assert(number_body(raw@).take(i + 1 - start) =~= extended);
                }
                assert(!spells_u64(number_body(raw@)));
            }
            return Err(not_positive_message(raw));
        }
        i += 1;
    }
    proof {
        assert(raw@.subrange(start as int, n as int) =~= number_body(raw@));
    }
    if acc > 0 {
        Ok(acc)
    } else {
        Err(not_positive_message(raw))
    }
}

/// What the user chose on the command line, held as plain values.
#[derive(Debug, Clone, Copy)]
pub struct Config {
    verbose: usize,
    delay: u64,
    units: Units,
}

impl Config {
    /// The configured verbosity level.
    pub closed spec fn spec_verbosity(&self) -> usize {
        self.verbose
    }

    /// The configured tick interval, in seconds.
    pub closed spec fn spec_delay(&self) -> u64 {
        self.delay
    }

    /// The configured display-unit mode.
    pub closed spec fn spec_units(&self) -> Units {
        self.units
    }

    /// The tick interval is a positive duration.
    pub closed spec fn wf(&self) -> bool {
        self.delay > 0
    }

    /// Assemble a configuration; the tick interval must be positive, as
    /// `parse_duration` guarantees for values read from the command line.
    pub fn new(verbose: usize, delay: u64, units: Units) -> (r: Config)
        requires
            delay > 0,
        ensures
            r.wf(),
            r.spec_verbosity() == verbose,
            r.spec_delay() == delay,
            r.spec_units() == units,
    {
        Config { verbose, delay, units }
    }

    pub fn verbosity(&self) -> (r: usize)
        ensures
            r == self.spec_verbosity(),
    {
        self.verbose
    }

    pub fn delay(&self) -> (r: u64)
        ensures
            r == self.spec_delay(),
    {
        self.delay
    }

    pub fn units(&self) -> (r: Units)
        ensures
            r == self.spec_units(),
    {
        self.units
    }
}

} // verus!
