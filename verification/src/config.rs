//! The refresh interval: a positive number of milliseconds, fixed at
//! start-up from the `REFRESH_MS` setting.
//!
//! The setting is required: when it is absent the caller gets an error
//! carrying a diagnostic that names it. A value that cannot be read as a
//! positive integer falls back to a default of 1000 milliseconds; a value
//! of zero falls back the same way, since the interval's invariant is
//! strict positivity.

use vstd::prelude::*;

verus! {

/// Interval used when the configured value cannot be read as a positive
/// integer.
pub const FALLBACK_MS: u64 = 1000;

/// Start-up configuration failure.
#[derive(Debug)]
pub enum ConfigError {
    /// The `REFRESH_MS` setting was absent.
    MissingInterval,
}

impl ConfigError {
    /// Diagnostic shown when the process refuses to start.
    pub fn message(&self) -> (m: &'static str)
        ensures
            m@ == "REFRESH_MS must be set to a refresh interval in milliseconds"@,
    {
        "REFRESH_MS must be set to a refresh interval in milliseconds"
    }
}

/// An ASCII decimal digit.
pub open spec fn is_ascii_digit(b: u8) -> bool {
    48 <= b <= 57
}

/// Numeric value of one ASCII digit.
pub open spec fn digit_val(b: u8) -> nat {
    (b - 48) as nat
}

/// Every byte of `s` is an ASCII digit.
pub open spec fn all_digits(s: Seq<u8>) -> bool {
    forall|i: int| 0 <= i < s.len() ==> is_ascii_digit(#[trigger] s[i])
}

/// Value of a digit string read as a base-10 numeral.
pub open spec fn digits_value(s: Seq<u8>) -> nat
    decreases s.len(),
{
    if s.len() == 0 {
        0
    } else {
        digits_value(s.drop_last()) * 10 + digit_val(s.last())
    }
}

/// The digit part of a decimal numeral: everything after an optional
/// leading plus sign.
pub open spec fn numeral(s: Seq<u8>) -> Seq<u8> {
    if s.len() >= 1 && s[0] == 43 {
        s.subrange(1, s.len() as int)
    } else {
        s
    }
}

/// `s` is a decimal numeral whose value fits in a `u64`: an optional
/// leading plus sign, then at least one digit, with value at most
/// `u64::MAX`.
pub open spec fn parses_to_u64(s: Seq<u8>) -> bool {
    &&& numeral(s).len() > 0
    &&& all_digits(numeral(s))
    &&& digits_value(numeral(s)) <= u64::MAX
}

/// Extending a digit string never decreases its value.
proof fn lemma_digits_value_prefix(t: Seq<u8>, k: int)
    requires
        0 <= k <= t.len(),
    ensures
        digits_value(t) >= digits_value(t.subrange(0, k)),
    decreases t.len() - k,
{
    if k < t.len() {
        lemma_digits_value_prefix(t, k + 1);
        let p = t.subrange(0, k + 1);
        assert(p.drop_last() =~= t.subrange(0, k));
        assert(digits_value(p) == digits_value(t.subrange(0, k)) * 10 + digit_val(t[k]));
        assert(digits_value(t.subrange(0, k)) * 10 >= digits_value(t.subrange(0, k))) by (nonlinear_arith);
    } else {
        assert(t.subrange(0, k) =~= t);
    }
}

/// Reads `s` as a decimal `u64`: an optional leading plus sign followed
/// by digits. Returns `None` when `s` is empty, holds a non-digit, or
/// its value overflows a `u64`.
pub fn parse_u64(s: &[u8]) -> (r: Option<u64>)
    ensures
        match r {
            Some(v) => parses_to_u64(s@) && v == digits_value(numeral(s@)),
            None => !parses_to_u64(s@),
        },
{
    let n = s.len();
    let start: usize = if n >= 1 && s[0] == 43 {
        1
    } else {
        0
    };
    proof {
        assert(numeral(s@) =~= s@.subrange(start as int, n as int));
    }
    if start >= n {
        return None;
    }
    let mut acc: u64 = 0;
    let mut i: usize = start;
    while i < n
        invariant
            start <= i <= n,
            n == s@.len(),
            numeral(s@) =~= s@.subrange(start as int, n as int),
            all_digits(s@.subrange(start as int, i as int)),
            acc == digits_value(s@.subrange(start as int, i as int)),
        decreases n - i,
    {
        let b = s[i];
        if b < 48 || b > 57 {
            proof {
                assert(!is_ascii_digit(numeral(s@)[i - start]));
            }
            return None;
        }
        let d = (b - 48) as u64;
        let ghost pre = s@.subrange(start as int, i as int);
        let ghost ext = s@.subrange(start as int, i + 1 as int);
        proof {
            assert(ext.drop_last() =~= pre);
            assert(digits_value(ext) == acc * 10 + digit_val(b));
        }
        let stepped = match acc.checked_mul(10) {
            Some(m) => m.checked_add(d),
            None => None,
        };
        match stepped {
            Some(a) => {
                acc = a;
            },
            None => {
                proof {
                    if all_digits(numeral(s@)) {
                        lemma_digits_value_prefix(numeral(s@), i + 1 - start as int);
                        assert(numeral(s@).subrange(0, i + 1 - start as int) =~= ext);
                    }
                }
                return None;
            },
        }
        i += 1;
    }
    proof {
        assert(s@.subrange(start as int, i as int) =~= numeral(s@));
    }
    Some(acc)
}

/// The refresh interval in milliseconds; always at least one.
#[derive(Debug)]
pub struct RefreshInterval {
    ms: u64,
}

impl RefreshInterval {
    /// The interval's length in milliseconds.
    pub closed spec fn spec_ms(&self) -> u64 {
        self.ms
    }

    /// The interval is strictly positive, so consecutive sampling ticks
    /// are always separated by a non-zero delay.
    pub open spec fn valid(&self) -> bool {
        self.spec_ms() >= 1
    }

    pub fn millis(&self) -> (r: u64)
        ensures
            r == self.spec_ms(),
    {
        self.ms
    }
}

/// The interval that a given `REFRESH_MS` text configures: its decimal
/// value when that is a positive integer fitting in a `u64`, and the
/// fallback otherwise.
pub open spec fn interval_ms_of(s: Seq<u8>) -> u64 {
    if parses_to_u64(s) && digits_value(numeral(s)) >= 1 {
        digits_value(numeral(s)) as u64
    } else {
        FALLBACK_MS
    }
}

/// Fixes the refresh interval from the `REFRESH_MS` setting, handed in as
/// the raw bytes of the variable's value, or `None` when it is absent.
///
/// Absence is fatal: the caller gets an error whose diagnostic names the
/// variable. A present value yields a positive interval: its decimal
/// value when it reads as a positive integer, the fallback otherwise.
pub fn interval_from_setting(setting: Option<&[u8]>) -> (r: Result<RefreshInterval, ConfigError>)
    ensures
        match r {
            Ok(iv) => setting matches Some(b) && iv.spec_ms() == interval_ms_of(b@) && iv.valid(),
            Err(_) => setting is None,
        },
{
    match setting {
        None => Err(ConfigError::MissingInterval),
        Some(bytes) => {
            let ms: u64 = match parse_u64(bytes) {
                Some(v) => if v >= 1 {
                    v
                } else {
                    FALLBACK_MS
                },
                None => FALLBACK_MS,
            };
            Ok(RefreshInterval { ms })
        },
    }
}

} // verus!
