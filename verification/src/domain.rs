//! Target-domain validation and normalization.

use vstd::prelude::*;
use vstd::string::*;

use crate::text::{find_char_from, first_char_from};

verus! {

/// Characters a domain name may contain: ASCII letters and digits, dots and
/// hyphens.
pub open spec fn is_domain_char(c: char) -> bool {
    ||| 'a' as u32 <= c as u32 <= 'z' as u32
    ||| 'A' as u32 <= c as u32 <= 'Z' as u32
    ||| '0' as u32 <= c as u32 <= '9' as u32
    ||| c == '.'
    ||| c == '-'
}

/// A well-formed domain: non-empty, at most 255 characters, only domain
/// characters (which excludes a port separator), and no leading or trailing
/// hyphen.
pub open spec fn valid_domain(s: Seq<char>) -> bool {
    &&& 0 < s.len() <= 255
    &&& forall|i: int| 0 <= i < s.len() ==> is_domain_char(s[i])
    &&& s[0] != '-'
    &&& s[s.len() - 1] != '-'
}

/// Whether `c` may appear in a domain name.
fn is_domain_char_exec(c: char) -> (r: bool)
    ensures
        r == is_domain_char(c),
{
    let u = c as u32;
    ('a' as u32 <= u && u <= 'z' as u32) || ('A' as u32 <= u && u <= 'Z' as u32) || ('0' as u32
        <= u && u <= '9' as u32) || c == '.' || c == '-'
}

/// Whether `domain` is a well-formed domain name.
pub fn is_valid_domain(domain: &str) -> (r: bool)
    ensures
        r == valid_domain(domain@),
{
    let n = domain.unicode_len();
    if n == 0 || n > 255 {
        return false;
    }
    let mut i: usize = 0;
    while i < n
        invariant
            n == domain@.len(),
            i <= n,
            forall|k: int| 0 <= k < i ==> is_domain_char(domain@[k]),
        decreases n - i,
    {
        if !is_domain_char_exec(domain.get_char(i)) {
            return false;
        }
        i = i + 1;
    }
    if domain.get_char(0) == '-' {
        return false;
    }
    if domain.get_char(n - 1) == '-' {
        return false;
    }
    true
}

/// ASCII whitespace, as trimmed from a raw domain entry.
pub open spec fn is_space_char(c: char) -> bool {
    c == ' ' || c == '\t' || c == '\r' || c == '\n'
}

/// Index of the first non-whitespace character at or after `i`, or the
/// length when the rest is all whitespace.
pub open spec fn first_non_space_from(s: Seq<char>, i: int) -> int
    decreases s.len() - i,
{
    if i < 0 || i >= s.len() {
        s.len() as int
    } else if !is_space_char(s[i]) {
        i
    } else {
        first_non_space_from(s, i + 1)
    }
}

/// End (exclusive) of the last non-whitespace character strictly before `i`,
/// or `0` when everything before `i` is whitespace.
pub open spec fn last_non_space_end(s: Seq<char>, i: int) -> int
    decreases i,
{
    if i <= 0 {
        0
    } else if !is_space_char(s[i - 1]) {
        i
    } else {
        last_non_space_end(s, i - 1)
    }
}

/// `s` with leading and trailing ASCII whitespace removed.
pub open spec fn trimmed(s: Seq<char>) -> Seq<char> {
    let a = first_non_space_from(s, 0);
    let b = last_non_space_end(s, s.len() as int);
    if a >= b {
        Seq::<char>::empty()
    } else {
        s.subrange(a, b)
    }
}

/// Whether `c` is ASCII whitespace.
fn is_space_exec(c: char) -> (r: bool)
    ensures
        r == is_space_char(c),
{
    c == ' ' || c == '\t' || c == '\r' || c == '\n'
}

/// `s` with leading and trailing ASCII whitespace removed.
pub fn trim_str(s: &str) -> (r: String)
    ensures
        r@ == trimmed(s@),
{
    let n = s.unicode_len();
    let mut a: usize = 0;
    while a < n && is_space_exec(s.get_char(a))
        invariant
            n == s@.len(),
            a <= n,
            first_non_space_from(s@, 0) == first_non_space_from(s@, a as int),
        decreases n - a,
    {
        a = a + 1;
    }
    if a == n {
        proof {
            assert(first_non_space_from(s@, a as int) == n);
            assert(last_non_space_end(s@, n as int) <= n) by {
                lemma_last_non_space_end_bound(s@, n as int);
            }
        }
        return String::new();
    }
    let mut b: usize = n;
    while b > a + 1 && is_space_exec(s.get_char(b - 1))
        invariant
            n == s@.len(),
            a < n,
            !is_space_char(s@[a as int]),
            a + 1 <= b <= n,
            last_non_space_end(s@, n as int) == last_non_space_end(s@, b as int),
        decreases b,
    {
        b = b - 1;
    }
    proof {
        if b == a + 1 && is_space_char(s@[b - 1]) {
            assert(false);
        }
        assert(last_non_space_end(s@, b as int) == b);
    }
    let core = s.substring_char(a, b);
    String::from_str(core)
}

/// The domain, trimmed of surrounding whitespace, with the default HTTPS
/// port appended.
pub fn format_domain_with_port(domain: &str) -> (r: String)
    ensures
        r@ == trimmed(domain@) + ":443"@,
{
    let mut out = trim_str(domain);
    out.append(":443");
    out
}

/// `last_non_space_end` never exceeds its bound.
proof fn lemma_last_non_space_end_bound(s: Seq<char>, i: int)
    requires
        0 <= i <= s.len(),
    ensures
        last_non_space_end(s, i) <= i,
    decreases i,
{
    if i > 0 && is_space_char(s[i - 1]) {
        lemma_last_non_space_end_bound(s, i - 1);
    }
}

/// The fixed domain menu: the target each numbered entry selects, already
/// carrying the default port. `0` (exit) and `6` (enter a custom domain)
/// are not targets and map to nothing, as does anything else.
pub open spec fn menu_domain(choice: Seq<char>) -> Option<Seq<char>> {
    if choice == "1"@ {
        Some("discord.com:443"@)
    } else if choice == "2"@ {
        Some("youtube.com:443"@)
    } else if choice == "3"@ {
        Some("spotify.com:443"@)
    } else if choice == "4"@ {
        Some("speedtest.net:443"@)
    } else if choice == "5"@ {
        Some("steampowered.com:443"@)
    } else {
        None
    }
}

/// The target domain a menu choice selects, when it selects one.
pub fn menu_domain_for(choice: &str) -> (r: Option<String>)
    ensures
        match r {
            Some(s) => menu_domain(choice@) == Some(s@),
            None => menu_domain(choice@) is None,
        },
{
    if crate::text::eq_str(choice, "1") {
        Some(String::from_str("discord.com:443"))
    } else if crate::text::eq_str(choice, "2") {
        Some(String::from_str("youtube.com:443"))
    } else if crate::text::eq_str(choice, "3") {
        Some(String::from_str("spotify.com:443"))
    } else if crate::text::eq_str(choice, "4") {
        Some(String::from_str("speedtest.net:443"))
    } else if crate::text::eq_str(choice, "5") {
        Some(String::from_str("steampowered.com:443"))
    } else {
        None
    }
}

/// The target with any `:port` suffix removed: everything before the first
/// colon.
pub fn domain_without_port(target: &str) -> (r: String)
    ensures
        r@ == target@.subrange(0, first_char_from(target@, ':', 0)),
{
    let k = find_char_from(target, ':', 0);
    let head = target.substring_char(0, k);
    String::from_str(head)
}

} // verus!
