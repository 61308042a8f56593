//! The host's configuration of the maximum log file size, as a human-readable string.
use vstd::prelude::*;
use crate::logger::DEFAULT_MAX_FILE_SIZE;

verus! {

/// Why a configured size was refused.
#[derive(Debug, Clone, Copy, PartialEq, Eq, Structural)]
pub enum ConfigError {
    /// The text is not digits followed by one of the units B, KB, MB or GB.
    MalformedSize,
    /// The size does not fit in 128 bits.
    SizeTooLarge,
}

pub open spec fn is_digit(c: char) -> bool {
    '0' <= c <= '9'
}

/// The value of a run of decimal digits.
pub open spec fn digits_value(s: Seq<char>) -> nat
    decreases s.len(),
{
    if s.len() == 0 {
        0
    } else {
        digits_value(s.drop_last()) * 10 + (s.last() as nat - '0' as nat) as nat
    }
}

/// How many digits `s` starts with.
pub open spec fn digit_run(s: Seq<char>) -> nat
    decreases s.len(),
{
    if s.len() > 0 && is_digit(s[0]) {
        1 + digit_run(s.drop_first())
    } else {
        0
    }
}

/// The bytes that one unit stands for: none or B is one, KB a thousand, MB a
/// million, GB a billion.
pub open spec fn unit_multiplier(u: Seq<char>) -> Option<nat> {
    if u.len() == 0 || (u.len() == 1 && u[0] == 'B') {
        Some(1)
    } else if u.len() == 2 && u[1] == 'B' && u[0] == 'K' {
        Some(1000)
    } else if u.len() == 2 && u[1] == 'B' && u[0] == 'M' {
        Some(1000000)
    } else if u.len() == 2 && u[1] == 'B' && u[0] == 'G' {
        Some(1000000000)
    } else {
        None
    }
}

/// The number of bytes that a size text such as `10KB` stands for, if it is well formed.
pub open spec fn size_value(s: Seq<char>) -> Option<nat> {
    let k = digit_run(s);
    if k == 0 {
        None
    } else {
        match unit_multiplier(s.subrange(k as int, s.len() as int)) {
            Some(m) => Some(digits_value(s.subrange(0, k as int)) * m),
            None => None,
        }
    }
}

proof fn lemma_digit_run(s: Seq<char>, i: int)
    requires
        0 <= i <= s.len(),
        forall|j: int| 0 <= j < i ==> is_digit(#[trigger] s[j]),
        i == s.len() || !is_digit(s[i]),
    ensures
        digit_run(s) == i,
    decreases s.len(),
{
    if s.len() > 0 && i > 0 {
        assert forall|j: int| 0 <= j < i - 1 implies is_digit(#[trigger] s.drop_first()[j]) by {
            assert(s.drop_first()[j] == s[j + 1]);
        }
        lemma_digit_run(s.drop_first(), i - 1);
    }
}

/// Parses a size text such as `10KB` into a number of bytes.
pub fn parse_size(text: &str) -> (r: Result<u128, ConfigError>)
    ensures
        size_value(text@) is None <==> r == Err::<u128, ConfigError>(ConfigError::MalformedSize),
        r matches Ok(v) ==> size_value(text@) == Some(v as nat),
        r == Err::<u128, ConfigError>(ConfigError::SizeTooLarge) <==> (size_value(text@) matches Some(n)
            && n > u128::MAX),
{
    let len = text.unicode_len();
    let mut i: usize = 0;
    let mut value: u128 = 0;
    let mut overflow = false;
    while i < len && is_digit_char(text.get_char(i))
        invariant
            len == text@.len(),
            i <= len,
            forall|j: int| 0 <= j < i ==> is_digit(#[trigger] text@[j]),
            !overflow ==> value == digits_value(text@.subrange(0, i as int)),
            overflow ==> digits_value(text@.subrange(0, i as int)) > u128::MAX,
        decreases len - i,
    {
        let c = text.get_char(i);
        let d = (c as u32 - '0' as u32) as u128;
        proof {
            let p = text@.subrange(0, i as int + 1);
            assert(p.drop_last() =~= text@.subrange(0, i as int));
            assert(p.last() == c);
        }
        if !overflow {
            match value.checked_mul(10) {
                Some(t) => match t.checked_add(d) {
                    Some(v) => {
                        value = v;
                    },
                    None => {
                        overflow = true;
                    },
                },
                None => {
                    overflow = true;
                },
            }
        }
        i += 1;
    }
    proof {
        lemma_digit_run(text@, i as int);
    }
    if i == 0 {
        return Err(ConfigError::MalformedSize);
    }
    let rest = len - i;
    let mult: u128 = if rest == 0 {
        1
    } else if rest == 1 && text.get_char(i) == 'B' {
        1
    } else if rest == 2 && text.get_char(i + 1) == 'B' {
        let u = text.get_char(i);
        if u == 'K' {
            1000
        } else if u == 'M' {
            1000000
        } else if u == 'G' {
            1000000000
        } else {
            0
        }
    } else {
        0
    };
    proof {
        let u = text@.subrange(i as int, len as int);
        if rest >= 1 {
            assert(u[0] == text@[i as int]);
        }
        if rest == 2 {
            assert(u[1] == text@[i + 1]);
        }
    }
    if mult == 0 {
        return Err(ConfigError::MalformedSize);
    }
    if overflow {
        proof {
            let n = digits_value(text@.subrange(0, i as int));
            assert(n * mult >= n) by (nonlinear_arith)
                requires
                    mult >= 1,
            ;
        }
        return Err(ConfigError::SizeTooLarge);
    }
    match value.checked_mul(mult) {
        Some(v) => Ok(v),
        None => Err(ConfigError::SizeTooLarge),
    }
}

/// Whether `c` is a decimal digit.
fn is_digit_char(c: char) -> (r: bool)
    ensures
        r == is_digit(c),
{
    '0' <= c && c <= '9'
}

/// The maximum log file size that the host's configuration asks for: the default
/// where it gives none, else its parsed size text.
pub fn max_file_size_from_config(max_file_size: Option<&str>) -> (r: Result<u128, ConfigError>)
    ensures
        max_file_size is None ==> r == Ok::<u128, ConfigError>(DEFAULT_MAX_FILE_SIZE),
        max_file_size matches Some(t) ==> (r matches Ok(v) ==> size_value(t@) == Some(v as nat)),
        max_file_size matches Some(t) ==> (r == Err::<u128, ConfigError>(ConfigError::SizeTooLarge)
            <==> (size_value(t@) matches Some(n) && n > u128::MAX)),
        max_file_size matches Some(t) ==> (r == Err::<u128, ConfigError>(ConfigError::MalformedSize)
            <==> size_value(t@) is None),
{
    match max_file_size {
        None => Ok(DEFAULT_MAX_FILE_SIZE),
        Some(t) => parse_size(t),
    }
}

} // verus!
