use vstd::prelude::*;

use crate::chars::{
    all_digits, chars_of, is_u64_numeral, numeral_val, parse_u64_chars, sub_chars, trim_back,
    trim_front, trimmed, trimmed_chars, u64_numeral_val,
};
use crate::error::ConfigError;

verus! {

/// An absolute span of time, kept as whole seconds plus a millisecond
/// remainder below one thousand.
#[derive(Debug, Clone, Copy, PartialEq, Eq, Structural)]
pub struct Interval {
    pub secs: u64,
    pub millis: u32,
}

impl Interval {
    /// The millisecond part stays below one second.
    pub open spec fn wf(self) -> bool {
        self.millis < 1000
    }

    /// The whole span expressed in milliseconds.
    pub open spec fn total_millis(self) -> int {
        self.secs * 1000 + self.millis
    }
}

/// What a duration string denotes, in milliseconds: `"<n>ms"` denotes `n`
/// and `"<n>s"` denotes `1000 * n`, where `<n>` is a decimal numeral that
/// fits in a `u64`, trimmed of surrounding white space. The `"ms"` suffix
/// is tried first, so `"500ms"` is milliseconds and not seconds. Every
/// other string denotes nothing.
pub open spec fn spec_parse_duration(s: Seq<char>) -> Option<int> {
    if s.len() >= 2 && s[s.len() - 2] == 'm' && s[s.len() - 1] == 's' {
        let t = trimmed(s.subrange(0, s.len() - 2));
        if is_u64_numeral(t) {
            Some(u64_numeral_val(t))
        } else {
            None
        }
    } else if s.len() >= 1 && s[s.len() - 1] == 's' {
        let t = trimmed(s.subrange(0, s.len() - 1));
        if is_u64_numeral(t) {
            Some(1000 * u64_numeral_val(t))
        } else {
            None
        }
    } else {
        None
    }
}

/// Turn a user-written duration such as `"500ms"` or `"1s"` into an
/// [`Interval`]; every string that denotes nothing is rejected with
/// [`ConfigError::InvalidDuration`].
pub fn parse_duration(s: &str) -> (r: Result<Interval, ConfigError>)
    ensures
        spec_parse_duration(s@) matches Some(ms) ==> r matches Ok(d) && d.wf()
            && d.total_millis() == ms,
        spec_parse_duration(s@) is None ==> (r matches Err(e) && e is InvalidDuration),
{
    let cs = chars_of(s);
    let n = cs.len();
    if n >= 2 && cs[n - 2] == 'm' && cs[n - 1] == 's' {
        let body = sub_chars(&cs, 0, n - 2);
        let num = trimmed_chars(&body);
        match parse_u64_chars(&num) {
            Some(ms) => {
                proof {
                    vstd::arithmetic::div_mod::lemma_fundamental_div_mod(ms as int, 1000);
                }
                Ok(Interval { secs: ms / 1000, millis: (ms % 1000) as u32 })
            },
            None => Err(ConfigError::InvalidDuration),
        }
    } else if n >= 1 && cs[n - 1] == 's' {
        let body = sub_chars(&cs, 0, n - 1);
        let num = trimmed_chars(&body);
        match parse_u64_chars(&num) {
            Some(secs) => Ok(Interval { secs, millis: 0 }),
            None => Err(ConfigError::InvalidDuration),
        }
    } else {
        Err(ConfigError::InvalidDuration)
    }
}

/// Trimming a digit string changes nothing: digits are not white space.
pub proof fn lemma_trim_digits(s: Seq<char>)
    requires
        s.len() > 0,
        all_digits(s),
    ensures
        trimmed(s) == s,
{
    assert(!crate::chars::is_space(s[0]));
    assert(trim_front(s) == s);
    assert(!crate::chars::is_space(s.last()));
    assert(trim_back(s) == s);
}

/// A numeral followed by `"ms"` denotes that many milliseconds, and the
/// same numeral followed by `"s"` denotes that many seconds.
pub proof fn lemma_parse_duration_units(num: Seq<char>, n: int)
    requires
        num.len() > 0,
        all_digits(num),
        numeral_val(num) == n,
        n <= u64::MAX,
    ensures
        spec_parse_duration(num + seq!['m', 's']) == Some(n),
        spec_parse_duration(num + seq!['s']) == Some(1000 * n),
{
    lemma_trim_digits(num);
    let ms = num + seq!['m', 's'];
    assert(ms.subrange(0, ms.len() - 2) =~= num);
    assert(num[0] != '+');
    assert(is_u64_numeral(num) && u64_numeral_val(num) == n);
    let sec = num + seq!['s'];
    assert(sec.subrange(0, sec.len() - 1) =~= num);
    assert(sec[sec.len() - 2] != 'm');
}

} // verus!
