use vstd::prelude::*;

use vstd::string::StrSliceExecFns;
use vstd::string::StringExecFns;

verus! {

// ---------------------------------------------------------------------------
// The device-presence cache: one opaque token per Unix account, kept in a
// file under the account's home directory.  Reading and writing the file,
// creating the cache directory, and transferring ownership are the calling
// program's concern; this module fixes the file's location, the bytes that
// are written, and how read contents are interpreted.
// ---------------------------------------------------------------------------

/// An opaque token enabling silent push delivery to a registered device.
#[derive(Debug, PartialEq, Eq)]
pub struct PresenceToken {
    pub token: String,
}

impl PresenceToken {
    /// A copy equal to this token.
    pub fn duplicate(&self) -> (r: PresenceToken)
        ensures
            r == *self,
    {
        PresenceToken { token: self.token.clone() }
    }
}

pub open spec fn spec_cache_dir(home: Seq<char>) -> Seq<char> {
    home + "/.cache"@
}

pub open spec fn spec_presence_file(home: Seq<char>) -> Seq<char> {
    home + "/.cache/toznyauth_pam_presence"@
}

/// The cache directory under a home directory; it is created with owner-only
/// permissions when missing.
pub fn cache_dir(home: &str) -> (r: String)
    ensures
        r@ == spec_cache_dir(home@),
{
    let mut p = String::from_str(home);
    p.append("/.cache");
    p
}

/// The path of the presence cache file under a home directory.
pub fn get_presence_file(home: &str) -> (r: String)
    ensures
        r@ == spec_presence_file(home@),
{
    let mut p = String::from_str(home);
    p.append("/.cache/toznyauth_pam_presence");
    assert(p@ =~= spec_presence_file(home@));
    p
}

/// How the cache file's contents are read back: an unreadable or missing
/// file yields no token, otherwise the whole text is the token.
pub open spec fn spec_get_presence(contents: Option<String>) -> Option<PresenceToken> {
    match contents {
        Option::None => Option::None,
        Option::Some(text) => Option::Some(PresenceToken { token: text }),
    }
}

/// Interprets the contents of the presence cache file, as read by the
/// caller: the whole text, when there is one, is the cached token.
pub fn get_presence(contents: Option<String>) -> (r: Option<PresenceToken>)
    ensures
        r == spec_get_presence(contents),
{
    match contents {
        Option::None => Option::None,
        Option::Some(text) => Option::Some(PresenceToken { token: text }),
    }
}

/// The exact text that the cache file is rewritten with when a token is
/// saved: the token's raw bytes, nothing else.
pub fn save_presence_content(p: &PresenceToken) -> (r: String)
    ensures
        r@ == p.token@,
{
    p.token.clone()
}

/// Saving a token and loading the same file back returns a token with
/// exactly the bytes that were written.
pub proof fn lemma_presence_round_trip(p: PresenceToken, written: String)
    requires
        written@ == p.token@,
    ensures
        spec_get_presence(Some(written)) matches Some(q) && q.token@ == p.token@,
{
}

// ---------------------------------------------------------------------------
// Parsing the OS identity database's numeric answer.  The owner of the cache
// file is re-resolved after every write because the writer may run with
// elevated privileges on behalf of the authenticating account.
// ---------------------------------------------------------------------------

pub open spec fn is_digit(c: char) -> bool {
    '0' <= c && c <= '9'
}

pub open spec fn digit_val(c: char) -> int {
    c as int - '0' as int
}

pub open spec fn all_digits(s: Seq<char>) -> bool {
    forall|i: int| 0 <= i < s.len() ==> is_digit(#[trigger] s[i])
}

/// The value of a non-empty digit string, most significant digit first.
pub open spec fn digits_val(s: Seq<char>) -> int
    decreases s.len(),
{
    if s.len() == 0 {
        0
    } else {
        digits_val(s.drop_last()) * 10 + digit_val(s.last())
    }
}

/// A signed decimal integer as the identity database prints one: an optional
/// sign, then only digits, at least one, with a value that fits the result
/// type.  Anything else (empty text, stray characters, trailing newline,
/// overflow) parses to nothing.
pub open spec fn spec_parse_id(s: Seq<char>) -> Option<int> {
    let neg = s.len() > 0 && s[0] == '-';
    let digits = if s.len() > 0 && (s[0] == '-' || s[0] == '+') {
        s.drop_first()
    } else {
        s
    };
    if digits.len() == 0 || !all_digits(digits) {
        Option::None
    } else {
        let v = if neg {
            -digits_val(digits)
        } else {
            digits_val(digits)
        };
        if i64::MIN <= v <= i64::MAX {
            Option::Some(v)
        } else {
            Option::None
        }
    }
}

proof fn lemma_digits_val_nonneg(s: Seq<char>)
    requires
        all_digits(s),
    ensures
        digits_val(s) >= 0,
    decreases s.len(),
{
    if s.len() > 0 {
        assert(all_digits(s.drop_last()));
        lemma_digits_val_nonneg(s.drop_last());
    }
}

proof fn lemma_digits_val_prefix(s: Seq<char>, k: int)
    requires
        all_digits(s),
        0 <= k <= s.len(),
    ensures
        digits_val(s) >= digits_val(s.take(k)),
    decreases s.len() - k,
{
    if k == s.len() {
        assert(s.take(k) =~= s);
    } else {
        assert(s.take(k + 1).drop_last() =~= s.take(k));
        assert(all_digits(s.take(k)));
        lemma_digits_val_nonneg(s.take(k));
        lemma_digits_val_prefix(s, k + 1);
    }
}

/// Parses the numeric identifier printed by the OS identity database.
pub fn get_id(s: &str) -> (r: Option<i64>)
    ensures
        match r {
            Option::Some(v) => spec_parse_id(s@) == Option::Some(v as int),
            Option::None => spec_parse_id(s@) is None,
        },
{
    let n: usize = s.unicode_len();
    let mut start: usize = 0;
    let mut neg: bool = false;
    if n > 0 {
        let c0 = s.get_char(0);
        if c0 == '-' {
            neg = true;
            start = 1;
        } else if c0 == '+' {
            start = 1;
        }
    }
    let ghost digits = if start == 1 {
        s@.drop_first()
    } else {
        s@
    };
    assert(digits =~= s@.subrange(start as int, n as int));
    if start >= n {
        return Option::None;
    }
    let mut acc: u128 = 0;
    let mut i: usize = start;
    while i < n
        invariant
            start <= i <= n,
            start < n,
            start <= 1,
            n == s@.len(),
            neg == (s@.len() > 0 && s@[0] == '-'),
            (start == 1) == (s@.len() > 0 && (s@[0] == '-' || s@[0] == '+')),
            digits == s@.subrange(start as int, n as int),
            digits == (if s@.len() > 0 && (s@[0] == '-' || s@[0] == '+') {
                s@.drop_first()
            } else {
                s@
            }),
            all_digits(s@.subrange(start as int, i as int)),
            acc == digits_val(s@.subrange(start as int, i as int)),
            acc <= 0xFFFF_FFFF_FFFF_FFFFu128 * 10 + 9,
        decreases n - i,
    {
        let c = s.get_char(i);
        if !('0' <= c && c <= '9') {
            assert(!is_digit(digits[i - start]));
            return Option::None;
        }
        if acc > 0xFFFF_FFFF_FFFF_FFFF {
            proof {
                if all_digits(digits) {
                    lemma_digits_val_prefix(digits, i - start);
                    assert(digits.take(i - start) =~= s@.subrange(start as int, i as int));
                }
            }
            return Option::None;
        }
        proof {
            assert(s@.subrange(start as int, i as int + 1).drop_last() =~= s@.subrange(
                start as int,
                i as int,
            ));
        }
        acc = acc * 10 + ((c as u32) as u128 - 48);
        i += 1;
    }
    assert(s@.subrange(start as int, n as int) =~= digits);
    if neg {
        if acc > 0x8000_0000_0000_0000 {
            return Option::None;
        }
        if acc == 0x8000_0000_0000_0000 {
            Option::Some(i64::MIN)
        } else {
            Option::Some(-(acc as i64))
        }
    } else {
        if acc > 0x7FFF_FFFF_FFFF_FFFF {
            return Option::None;
        }
        Option::Some(acc as i64)
    }
}

} // verus!
