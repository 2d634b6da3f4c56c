use vstd::prelude::*;
use crate::text::{
    before, cut, find_char, first_index, is_char, is_white, lemma_first_index,
    lemma_split_on_nonempty, lemma_trailing_white, not_white, split_on, trimmed, white_space,
};
use crate::version::Version;

verus! {

/// Why a text could not be read as a version.
#[derive(Debug, Clone, Copy, PartialEq, Eq, Structural)]
pub enum VersionError {
    /// The tool's output holds no 'v' before the version.
    MissingVersion,
    /// The release part is not three fields separated by dots.
    InvalidFormat,
    InvalidMajor,
    InvalidMinor,
    InvalidPatch,
}

pub open spec fn is_digit(c: char) -> bool {
    '0' <= c && c <= '9'
}

/// The value of a string of decimal digits, most significant first.
pub open spec fn digits_value(s: Seq<char>) -> nat
    decreases s.len(),
{
    if s.len() == 0 {
        0
    } else {
        digits_value(s.drop_last()) * 10 + ((s.last() as u32) - ('0' as u32)) as nat
    }
}

/// `s` without one leading '+'.
pub open spec fn unsigned_digits(s: Seq<char>) -> Seq<char> {
    if s.len() > 0 && s[0] == '+' {
        s.drop_first()
    } else {
        s
    }
}

pub open spec fn all_digits(d: Seq<char>) -> bool {
    forall|i: int| 0 <= i < d.len() ==> is_digit(#[trigger] d[i])
}

/// The `u32` that a text denotes in decimal: an optional '+', then at least one digit,
/// and a value that fits.
pub open spec fn u32_of_text(s: Seq<char>) -> Option<u32> {
    let d = unsigned_digits(s);
    if d.len() > 0 && all_digits(d) && digits_value(d) <= u32::MAX {
        Some(digits_value(d) as u32)
    } else {
        None
    }
}

/// The version that a text names: the part before the first '-' must be three
/// dot-separated decimal fields.
pub open spec fn version_of_text(s: Seq<char>) -> Result<Version, VersionError> {
    let parts = split_on(before(s, '-'), '.');
    if parts.len() != 3 {
        Err(VersionError::InvalidFormat)
    } else if u32_of_text(parts[0]) is None {
        Err(VersionError::InvalidMajor)
    } else if u32_of_text(parts[1]) is None {
        Err(VersionError::InvalidMinor)
    } else if u32_of_text(parts[2]) is None {
        Err(VersionError::InvalidPatch)
    } else {
        Ok(
            Version {
                major: u32_of_text(parts[0])->0,
                minor: u32_of_text(parts[1])->0,
                patch: u32_of_text(parts[2])->0,
            },
        )
    }
}

/// Reads a decimal `u32`, as `str::parse` does.
pub fn parse_u32(t: &str) -> (r: Option<u32>)
    ensures
        r == u32_of_text(t@),
{
    let n = t.unicode_len();
    let start: usize = if n > 0 && t.get_char(0) == '+' {
        1
    } else {
        0
    };
    let ghost d = unsigned_digits(t@);
    assert(d =~= t@.skip(start as int));
    if start == n {
        return None;
    }
    let cap: u64 = 0x1_0000_0000;
    let mut value: u64 = 0;
    let mut i = start;
    while i < n
        invariant
            n == t@.len(),
            start <= i <= n,
            d =~= t@.skip(start as int),
            d == unsigned_digits(t@),
            cap == 0x1_0000_0000,
            forall|j: int| 0 <= j < i - start ==> is_digit(#[trigger] d[j]),
            value as nat == if digits_value(d.take(i - start)) < cap {
                digits_value(d.take(i - start))
            } else {
                cap as nat
            },
        decreases n - i,
    {
        let c = t.get_char(i);
        assert(d[i - start] == c);
        if !('0' <= c && c <= '9') {
            assert(!is_digit(d[i - start]));
            return None;
        }
        let ghost k = (i - start) as int;
        assert(d.take(k + 1).drop_last() =~= d.take(k));
        assert(d.take(k + 1).last() == c);
        let digit = (c as u32 - '0' as u32) as u64;
        let ghost before_value = digits_value(d.take(k));
        assert(digits_value(d.take(k + 1)) == before_value * 10 + digit);
        if value >= cap {
            assert(before_value * 10 + digit >= before_value) by (nonlinear_arith);
            value = cap;
        } else {
            assert(value * 10 + digit <= 42949672969) by (nonlinear_arith)
                requires
                    value < 4294967296u64,
                    digit <= 9,
            ;
            let next = value * 10 + digit;
            value = if next >= cap {
                cap
            } else {
                next
            };
        }
        i = i + 1;
    }
    assert(d.take(n - start) =~= d);
    if value >= cap {
        None
    } else {
        Some(value as u32)
    }
}

/// Reads a version such as "6.1.0-18-amd64": the part before the first '-' must be
/// three dot-separated decimal numbers.
pub fn parse_version(s: &str) -> (r: Result<Version, VersionError>)
    ensures
        r == version_of_text(s@),
{
    let head = match cut(s, '-') {
        None => s,
        Some((a, _)) => a,
    };
    assert(head@ == before(s@, '-'));
    let (first, rest) = match cut(head, '.') {
        None => {
            return Err(VersionError::InvalidFormat);
        },
        Some(p) => p,
    };
    let (second, third) = match cut(rest, '.') {
        None => {
            return Err(VersionError::InvalidFormat);
        },
        Some(p) => p,
    };
    let tail = cut(third, '.');
    if tail.is_some() {
        proof {
            lemma_split_on_nonempty((tail->0).1@, '.');
        }
        assert(split_on(head@, '.').len() >= 4);
        return Err(VersionError::InvalidFormat);
    }
    let ghost parts = split_on(head@, '.');
    assert(parts =~= seq![first@, second@, third@]);
    let major = match parse_u32(first) {
        None => {
            return Err(VersionError::InvalidMajor);
        },
        Some(v) => v,
    };
    let minor = match parse_u32(second) {
        None => {
            return Err(VersionError::InvalidMinor);
        },
        Some(v) => v,
    };
    let patch = match parse_u32(third) {
        None => {
            return Err(VersionError::InvalidPatch);
        },
        Some(v) => v,
    };
    Ok(Version::new(major, minor, patch))
}

/// The characters that end the version token in the nftables tool's banner.
pub open spec fn token_stop() -> spec_fn(char) -> bool {
    |c: char| is_white(c) || c == '('
}

/// The version named by the output of `nft --version`: the token that follows the first
/// 'v', up to white space or '('.
pub open spec fn nftables_version_of_output(out: Seq<char>) -> Result<Version, VersionError> {
    let p = first_index(out, is_char('v'));
    if p >= out.len() {
        Err(VersionError::MissingVersion)
    } else {
        let after = out.skip(p + 1);
        version_of_text(after.take(first_index(after, token_stop())))
    }
}

/// The version named by the output of `uname -r`, white space at either end ignored.
pub open spec fn linux_version_of_output(out: Seq<char>) -> Result<Version, VersionError> {
    version_of_text(trimmed(out))
}

/// Reads the versions out of what the host's tools print.
pub struct VParser;

impl VParser {
    /// The kernel version in the output of `uname -r`.
    pub fn linux_version_from(output: &str) -> (r: Result<Version, VersionError>)
        ensures
            r == linux_version_of_output(output@),
    {
        let n = output.unicode_len();
        let mut a: usize = 0;
        while a < n && white_space(output.get_char(a))
            invariant
                n == output@.len(),
                a <= n,
                forall|j: int| 0 <= j < a ==> is_white(#[trigger] output@[j]),
            decreases n - a,
        {
            a = a + 1;
        }
        proof {
            lemma_first_index(output@, not_white(), a as int);
        }
        let t = output.substring_char(a, n);
        assert(t@ =~= output@.skip(a as int));
        let mut b: usize = n - a;
        while b > 0 && white_space(t.get_char(b - 1))
            invariant
                t@.len() == n - a,
                b <= t@.len(),
                forall|j: int| b <= j < t@.len() ==> is_white(#[trigger] t@[j]),
            decreases b,
        {
            b = b - 1;
        }
        proof {
            lemma_trailing_white(t@, b as int);
        }
        let core = t.substring_char(0, b);
        assert(core@ =~= trimmed(output@));
        parse_version(core)
    }

    /// The nftables version in the output of `nft --version`, such as
    /// "nftables v1.0.6 (Lester Gooch #5)".
    pub fn nftables_version_from(output: &str) -> (r: Result<Version, VersionError>)
        ensures
            r == nftables_version_of_output(output@),
    {
        let n = output.unicode_len();
        let p = find_char(output, 0, 'v');
        proof {
            lemma_first_index(output@, is_char('v'), p as int);
        }
        if p == n {
            return Err(VersionError::MissingVersion);
        }
        let after = output.substring_char(p + 1, n);
        assert(after@ =~= output@.skip(p + 1));
        let m = n - (p + 1);
        let mut e: usize = 0;
        while e < m && !(white_space(after.get_char(e)) || after.get_char(e) == '(')
            invariant
                m == after@.len(),
                e <= m,
                forall|j: int| 0 <= j < e ==> !(token_stop())(#[trigger] after@[j]),
            decreases m - e,
        {
            e = e + 1;
        }
        proof {
            lemma_first_index(after@, token_stop(), e as int);
        }
        let token = after.substring_char(0, e);
        assert(token@ =~= after@.take(e as int));
        parse_version(token)
    }
}

} // verus!
