//! Response classification: rate-limit detection and typed errors.
//!
//! Given a response's status code and its rate-limit reset header, decide
//! whether the response stands for a deprecated API, a rate limit (with the
//! seconds to wait), an error status, or success. A missing or malformed
//! reset header on a rate-limited response is reported as a plain status
//! error rather than a panic or a silent default.

use vstd::prelude::*;

use crate::Error;

verus! {

/// A decimal digit character.
pub open spec fn is_dec_digit(c: char) -> bool {
    '0' <= c && c <= '9'
}

/// The value of a decimal digit character.
pub open spec fn digit_val(c: char) -> nat
    recommends
        is_dec_digit(c),
{
    (c as u32 - 48) as nat
}

/// A non-empty string of decimal digits.
pub open spec fn is_dec_string(s: Seq<char>) -> bool {
    s.len() > 0 && forall|i: int| 0 <= i < s.len() ==> is_dec_digit(#[trigger] s[i])
}

/// The number a string of decimal digits denotes.
pub open spec fn dec_value(s: Seq<char>) -> nat
    decreases s.len(),
{
    if s.len() == 0 {
        0
    } else {
        dec_value(s.drop_last()) * 10 + digit_val(s.last())
    }
}

/// What a reset header parses to: the denoted number, provided the header is
/// all digits and the number fits the machine word.
pub open spec fn parsed_seconds(s: Seq<char>) -> Option<usize> {
    if is_dec_string(s) && dec_value(s) <= usize::MAX {
        Some(dec_value(s) as usize)
    } else {
        None
    }
}

proof fn lemma_dec_value_prefix_le(s: Seq<char>, i: int)
    requires
        0 <= i <= s.len(),
    ensures
        dec_value(s.take(i)) <= dec_value(s),
    decreases s.len(),
{
    if i < s.len() {
        assert(s.take(i) =~= s.drop_last().take(i));
        lemma_dec_value_prefix_le(s.drop_last(), i);
        assert(dec_value(s.drop_last()) <= dec_value(s.drop_last()) * 10 + digit_val(s.last()))
            by (nonlinear_arith);
    } else {
        assert(s.take(i) =~= s);
    }
}

/// Parse a decimal number, rejecting anything that is not all digits and
/// anything too large for the machine word.
pub fn parse_seconds(s: &str) -> (r: Option<usize>)
    ensures
        r == parsed_seconds(s@),
{
    let n = s.unicode_len();
    if n == 0 {
        return None;
    }
    let mut acc: usize = 0;
    let mut i: usize = 0;
    while i < n
        invariant
            0 < n == s@.len(),
            i <= n,
            forall|j: int| 0 <= j < i ==> is_dec_digit(#[trigger] s@[j]),
            acc == dec_value(s@.take(i as int)),
        decreases n - i,
    {
        let c = s.get_char(i);
        if !('0' <= c && c <= '9') {
            return None;
        }
        let d = (c as u32 - 48) as usize;
        proof {
            assert(s@.take(i + 1).drop_last() =~= s@.take(i as int));
            assert(s@.take(i + 1).last() == s@[i as int]);
        }
        if acc > (usize::MAX - d) / 10 {
            proof {
                let max = usize::MAX as nat;
                assert(acc * 10 + d > max) by (nonlinear_arith)
                    requires
                        acc > (max - d) / 10,
                        d < 10,
                        max >= d,
                {
                }
                lemma_dec_value_prefix_le(s@, i + 1);
            }
            return None;
        }
        proof {
            let max = usize::MAX as nat;
            assert(acc * 10 + d <= max) by (nonlinear_arith)
                requires
                    acc <= (max - d) / 10,
                    d < 10,
                    max >= d,
            {
            }
        }
        acc = acc * 10 + d;
        i += 1;
    }
    proof {
        assert(s@.take(n as int) =~= s@);
    }
    Some(acc)
}

/// The outcome of the rate-limit check on a response: its status code and the
/// value of its rate-limit reset header, if the header was present.
pub open spec fn rate_limit_outcome(status: u16, reset: Option<Seq<char>>) -> Result<(), Error> {
    if status == 410 {
        Err(Error::ApiDeprecated)
    } else if status == 429 {
        match reset {
            Some(h) => match parsed_seconds(h) {
                Some(n) => Err(Error::RateLimitExceeded(n)),
                None => Err(Error::HttpStatus(429)),
            },
            None => Err(Error::HttpStatus(429)),
        }
    } else {
        Ok(())
    }
}

/// Translate a rate-limited or deprecated response into its typed error.
///
/// Status 429 with a digit-string reset header becomes
/// [`Error::RateLimitExceeded`] carrying that number of seconds; 429 with a
/// missing or malformed header becomes [`Error::HttpStatus`]; 410 becomes
/// [`Error::ApiDeprecated`]; every other status passes through.
pub fn check_rate_limit(status: u16, ratelimit_reset: Option<&str>) -> (r: Result<(), Error>)
    ensures
        r == rate_limit_outcome(status, ratelimit_reset.deep_view()),
{
    if status == 410 {
        Err(Error::ApiDeprecated)
    } else if status == 429 {
        match ratelimit_reset {
            Some(h) => match parse_seconds(h) {
                Some(n) => Err(Error::RateLimitExceeded(n)),
                None => Err(Error::HttpStatus(429)),
            },
            None => Err(Error::HttpStatus(429)),
        }
    } else {
        Ok(())
    }
}

/// The full classification of a response: the rate-limit outcome, and an
/// error for every other client or server error status.
pub open spec fn status_outcome(status: u16, reset: Option<Seq<char>>) -> Result<(), Error> {
    if status == 410 || status == 429 {
        rate_limit_outcome(status, reset)
    } else if 400 <= status && status <= 599 {
        Err(Error::HttpStatus(status))
    } else {
        Ok(())
    }
}

/// Classify a response before its body is decoded: rate limits and the
/// deprecated API become their typed errors, any other 4xx or 5xx status
/// becomes [`Error::HttpStatus`], and everything else is success.
pub fn process_status(status: u16, ratelimit_reset: Option<&str>) -> (r: Result<(), Error>)
    ensures
        r == status_outcome(status, ratelimit_reset.deep_view()),
{
    match check_rate_limit(status, ratelimit_reset) {
        Err(e) => Err(e),
        Ok(()) => {
            if 400 <= status && status <= 599 {
                Err(Error::HttpStatus(status))
            } else {
                Ok(())
            }
        },
    }
}

} // verus!
