//! The polling period: how far apart checks for updates to individual
//! services are, in milliseconds.
//!
//! A hard floor (one minute) protects the artifact repository from
//! accidental hammering; an operator-set bypass flag disables the floor so
//! that tests and diagnostics can drive rapid polling. The period is
//! configured through an environment variable; the caller reads the
//! variable and hands its value in as a plain `Option<&str>`.

use vstd::prelude::*;

verus! {

/// The hard floor on the polling period, and also its default.
pub const MIN_PERIOD_MILLIS: u32 = 60_000;

/// Why a period string was rejected.
#[derive(Clone, Copy, Debug, PartialEq, Eq, Structural)]
pub enum ParsePeriodError {
    /// The string was empty.
    Empty,
    /// Some character was not a decimal digit (signs and whitespace
    /// included).
    InvalidDigit,
    /// The digits name a value above `u32::MAX`.
    Overflow,
}

/// Whether `c` is a decimal digit.
pub open spec fn is_digit(c: char) -> bool {
    '0' <= c <= '9'
}

/// The numeric value of the digit `c`.
pub open spec fn digit_val(c: char) -> nat
    recommends
        is_digit(c),
{
    (c as int - '0' as int) as nat
}

/// Whether every character of `s` is a decimal digit.
pub open spec fn all_digits(s: Seq<char>) -> bool {
    forall|i: int| 0 <= i < s.len() ==> is_digit(#[trigger] s[i])
}

/// The value of `s` read as a decimal numeral.
pub open spec fn dec_val(s: Seq<char>) -> nat
    recommends
        all_digits(s),
    decreases s.len(),
{
    if s.len() == 0 {
        0
    } else {
        dec_val(s.drop_last()) * 10 + digit_val(s.last())
    }
}

/// Whether `s` is a non-empty run of decimal digits whose value fits in 32
/// unsigned bits: exactly the strings the period parser accepts.
pub open spec fn valid_period_str(s: Seq<char>) -> bool {
    &&& s.len() > 0
    &&& all_digits(s)
    &&& dec_val(s) <= u32::MAX
}

/// Represents how far apart checks for updates to individual services
/// are, in milliseconds.
#[derive(Clone, Copy, Debug, PartialEq, Eq, Structural)]
pub struct ServiceUpdatePeriod {
    pub millis: u32,
}

impl ServiceUpdatePeriod {
    /// Reads a period from its decimal representation.
    ///
    /// Accepts exactly the non-empty all-digit strings whose value fits in
    /// 32 unsigned bits; rejects sign, whitespace, and every other
    /// non-digit character.
    pub fn from_str(s: &str) -> (r: Result<ServiceUpdatePeriod, ParsePeriodError>)
        ensures
            r is Ok <==> valid_period_str(s@),
            r matches Ok(p) ==> p.millis == dec_val(s@),
            r == Result::<ServiceUpdatePeriod, ParsePeriodError>::Err(ParsePeriodError::Empty)
                <==> s@.len() == 0,
            r == Result::<ServiceUpdatePeriod, ParsePeriodError>::Err(
                ParsePeriodError::InvalidDigit,
            ) <==> (s@.len() > 0 && !all_digits(s@)),
            r == Result::<ServiceUpdatePeriod, ParsePeriodError>::Err(ParsePeriodError::Overflow)
                <==> (s@.len() > 0 && all_digits(s@) && dec_val(s@) > u32::MAX),
    {
        let n = s.unicode_len();
        if n == 0 {
            return Err(ParsePeriodError::Empty);
        }
        let mut acc: u64 = 0;
        let mut i: usize = 0;
        while i < n
            invariant
                0 <= i <= n,
                n == s@.len(),
                all_digits(s@.take(i as int)),
                acc <= u32::MAX ==> acc == dec_val(s@.take(i as int)),
                acc > u32::MAX ==> dec_val(s@.take(i as int)) > u32::MAX,
                acc <= 0xa_0000_0000u64,
            decreases n - i,
        {
            let c = s.get_char(i);
            let code = c as u32;
            if code < 48 || code > 57 {
                assert(!is_digit(s@[i as int]));
                assert(!all_digits(s@));
                return Err(ParsePeriodError::InvalidDigit);
            }
            let d: u64 = (code - 48) as u64;
            proof {
                assert(s@.take(i + 1).drop_last() =~= s@.take(i as int));
                assert(s@.take(i + 1).last() == s@[i as int]);
            }
            if acc <= u32::MAX as u64 {
                acc = acc * 10 + d;
            }
            i = i + 1;
        }
        proof {
            assert(s@.take(n as int) =~= s@);
        }
        if acc > u32::MAX as u64 {
            return Err(ParsePeriodError::Overflow);
        }
        Ok(ServiceUpdatePeriod { millis: acc as u32 })
    }

    /// The period in milliseconds.
    pub fn as_millis(&self) -> (ms: u32)
        ensures
            ms == self.millis,
    {
        self.millis
    }
}

impl Default for ServiceUpdatePeriod {
    /// The default period equals the floor.
    fn default() -> (r: Self)
        ensures
            r.millis == MIN_PERIOD_MILLIS,
    {
        ServiceUpdatePeriod { millis: MIN_PERIOD_MILLIS }
    }
}

/// The period configured through the environment: the variable's value if
/// it parses, the default on any parse error or when the variable is
/// unset.
pub open spec fn spec_configured(var: Option<Seq<char>>) -> u32 {
    match var {
        Some(s) => if valid_period_str(s) {
            dec_val(s) as u32
        } else {
            MIN_PERIOD_MILLIS
        },
        None => MIN_PERIOD_MILLIS,
    }
}

/// The period actually used: the configured value, except that values
/// below the floor are raised to the floor unless the bypass flag is set.
pub open spec fn spec_effective(var: Option<Seq<char>>, bypass: bool) -> u32 {
    let configured = spec_configured(var);
    if configured < MIN_PERIOD_MILLIS && !bypass {
        MIN_PERIOD_MILLIS
    } else {
        configured
    }
}

/// With the bypass unset the effective period never falls below the
/// floor, whatever the period variable holds; with it set, the
/// configured value is used as it is.
pub proof fn lemma_effective_floor(var: Option<Seq<char>>, bypass: bool)
    ensures
        !bypass ==> spec_effective(var, false) >= MIN_PERIOD_MILLIS,
        bypass ==> spec_effective(var, true) == spec_configured(var),
{
}

/// Reads the configured period from the value of the period environment
/// variable (`None` when the variable is unset).
pub fn configured_period(var: Option<&str>) -> (r: ServiceUpdatePeriod)
    ensures
        r.millis == spec_configured(match var {
            Some(s) => Some(s@),
            None => None,
        }),
{
    match var {
        Some(s) => match ServiceUpdatePeriod::from_str(s) {
            Ok(p) => p,
            Err(_) => ServiceUpdatePeriod { millis: MIN_PERIOD_MILLIS },
        },
        None => ServiceUpdatePeriod { millis: MIN_PERIOD_MILLIS },
    }
}

/// The effective polling period in milliseconds, from the period
/// variable's value and whether the bypass variable is set.
pub fn effective_period(var: Option<&str>, bypass_set: bool) -> (ms: u32)
    ensures
        ms == spec_effective(
            match var {
                Some(s) => Some(s@),
                None => None,
            },
            bypass_set,
        ),
{
    let configured = configured_period(var);
    if configured.millis < MIN_PERIOD_MILLIS && !bypass_set {
        MIN_PERIOD_MILLIS
    } else {
        configured.millis
    }
}

} // verus!
