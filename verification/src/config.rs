//! Settings of the server, read from the environment with defaults.

use vstd::prelude::*;

verus! {

pub open spec fn is_ascii_digit(c: char) -> bool {
    '0' <= c <= '9'
}

/// The value of a string of decimal digits.
pub open spec fn digits_value(s: Seq<char>) -> nat
    decreases s.len(),
{
    if s.len() == 0 {
        0
    } else {
        digits_value(s.drop_last()) * 10 + (s.last() as nat - '0' as nat) as nat
    }
}

/// The text after an optional leading '+'.
pub open spec fn sign_stripped(s: Seq<char>) -> Seq<char> {
    if s.len() > 0 && s[0] == '+' {
        s.drop_first()
    } else {
        s
    }
}

/// Every character is an ASCII digit.
pub open spec fn all_digits(d: Seq<char>) -> bool {
    forall|i: int| 0 <= i < d.len() ==> is_ascii_digit(#[trigger] d[i])
}

/// What `u16::from_str` accepts: an optional '+' and then one or more ASCII
/// digits whose value fits in a `u16`.
pub open spec fn decimal_u16(s: Seq<char>) -> Option<u16> {
    let digits = sign_stripped(s);
    if digits.len() > 0 && all_digits(digits) && digits_value(digits) <= u16::MAX {
        Some(digits_value(digits) as u16)
    } else {
        None
    }
}

proof fn lemma_digits_value_prefix(s: Seq<char>, k: int)
    requires
        0 <= k <= s.len(),
    ensures
        digits_value(s.take(k)) <= digits_value(s),
    decreases s.len() - k,
{
    if k < s.len() {
        lemma_digits_value_prefix(s, k + 1);
        assert(s.take(k + 1).drop_last() =~= s.take(k));
    } else {
        assert(s.take(k) =~= s);
    }
}

/// Parses a port number as `u16::from_str` does: an optional '+' and then
/// one or more ASCII digits whose value fits in a `u16`.
pub fn parse_port(text: &str) -> (value: Option<u16>)
    ensures
        value == decimal_u16(text@),
{
    let n = text.unicode_len();
    let start: usize = if n > 0 && text.get_char(0) == '+' { 1 } else { 0 };
    let ghost digits = text@.subrange(start as int, n as int);
    assert(digits =~= sign_stripped(text@));
    if start == n {
        return None;
    }
    let mut value: u32 = 0;
    let mut i: usize = start;
    while i < n
        invariant
            n == text@.len(),
            start <= i <= n,
            digits == text@.subrange(start as int, n as int),
            digits == sign_stripped(text@),
            value == digits_value(digits.take(i - start)),
            value <= u16::MAX,
            forall|j: int| 0 <= j < i - start ==> is_ascii_digit(#[trigger] digits[j]),
        decreases n - i,
    {
        let c = text.get_char(i);
        assert(c == digits[i - start]);
        if !('0' <= c && c <= '9') {
            assert(!is_ascii_digit(digits[i - start]));
            assert(!all_digits(digits));
            assert(decimal_u16(text@) is None);
            return None;
        }
        assert(digits.take(i - start + 1).drop_last() =~= digits.take(i - start));
        value = value * 10 + (c as u32 - 48);
        assert(('0' as nat) == 48);
        if value > 65535 {
            proof {
                lemma_digits_value_prefix(digits, i - start + 1);
                assert(digits_value(digits) > u16::MAX);
            }
            return None;
        }
        i = i + 1;
    }
    assert(digits.take(n - start) =~= digits);
    Some(value as u16)
}

/// A setting: its value where it is set, else `default`.
pub fn setting_or(value: Option<String>, default: &str) -> (setting: String)
    ensures
        setting@ == match value {
            Some(v) => v@,
            None => default@,
        },
{
    match value {
        Some(v) => v,
        None => default.to_owned(),
    }
}

/// The port setting: "8000" where it is unset; a text that is not a port
/// number gives 3000.
pub open spec fn spec_port(value: Option<Seq<char>>) -> u16 {
    let text = match value {
        Some(v) => v,
        None => "8000"@,
    };
    match decimal_u16(text) {
        Some(p) => p,
        None => 3000,
    }
}

/// The port the server listens on.
pub fn port_setting(value: Option<String>) -> (port: u16)
    ensures
        port == spec_port(
            match value {
                Some(v) => Some(v@),
                None => None,
            },
        ),
        value is None ==> port == 8000,
{
    let text = setting_or(value, "8000");
    proof {
        reveal_strlit("8000");
        let s = "8000"@;
        assert(s.drop_last().drop_last().drop_last() =~= seq!['8']);
        assert(s.drop_last().drop_last() =~= seq!['8', '0']);
        assert(s.drop_last() =~= seq!['8', '0', '0']);
        assert(seq!['8'].drop_last() =~= Seq::<char>::empty());
        assert(('8' as nat) == 56 && ('0' as nat) == 48);
        assert(digits_value(Seq::<char>::empty()) == 0);
        assert(seq!['8'].last() == '8');
        assert(digits_value(seq!['8']) == 8);
        assert(digits_value(seq!['8', '0']) == 80);
        assert(digits_value(seq!['8', '0', '0']) == 800);
        assert(digits_value(s) == 8000);
    }
    match parse_port(text.as_str()) {
        Some(p) => p,
        None => 3000,
    }
}

/// The path of a route: the public prefix followed by the route's own path.
pub fn route_path(prefix: &String, path: &str) -> (route: String)
    ensures
        route@ == prefix@ + path@,
{
    let mut route = prefix.clone();
    route.append(path);
    route
}

} // verus!
