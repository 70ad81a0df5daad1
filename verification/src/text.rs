//! Character-level helpers on strings: Unicode white space, blank names,
//! bearer prefixes.

use vstd::prelude::*;
use vstd::string::StrSliceExecFns;
use vstd::string::StringExecFns;

verus! {

/// The Unicode `White_Space` property, the set that `char::is_whitespace`
/// and `str::trim` use.
pub open spec fn is_white_space(c: char) -> bool {
    let u = c as u32;
    ||| 0x09 <= u <= 0x0d
    ||| u == 0x20
    ||| u == 0x85
    ||| u == 0xa0
    ||| u == 0x1680
    ||| 0x2000 <= u <= 0x200a
    ||| u == 0x2028
    ||| u == 0x2029
    ||| u == 0x202f
    ||| u == 0x205f
    ||| u == 0x3000
}

/// A string is blank when trimming it leaves nothing: every character is
/// white space.
pub open spec fn is_blank_seq(s: Seq<char>) -> bool {
    forall|i: int| 0 <= i < s.len() ==> is_white_space(#[trigger] s[i])
}

/// Whether `c` has the Unicode `White_Space` property.
pub fn char_is_white_space(c: char) -> (b: bool)
    ensures
        b == is_white_space(c),
{
    let u: u32 = c as u32;
    (0x09 <= u && u <= 0x0d) || u == 0x20 || u == 0x85 || u == 0xa0 || u == 0x1680 || (0x2000
        <= u && u <= 0x200a) || u == 0x2028 || u == 0x2029 || u == 0x202f || u == 0x205f || u
        == 0x3000
}

/// Whether `s.trim()` is empty.
pub fn is_blank(s: &str) -> (b: bool)
    ensures
        b == is_blank_seq(s@),
{
    let n: usize = s.unicode_len();
    let mut i: usize = 0;
    while i < n
        invariant
            n == s@.len(),
            i <= n,
            forall|j: int| 0 <= j < i ==> is_white_space(#[trigger] s@[j]),
        decreases n - i,
    {
        let c = s.get_char(i);
        if !char_is_white_space(c) {
            return false;
        }
        i = i + 1;
    }
    true
}


/// The scheme that introduces a token in an `Authorization` header.
pub open spec fn bearer_prefix() -> Seq<char> {
    seq!['B', 'e', 'a', 'r', 'e', 'r', ' ']
}

/// `s` starts with `"Bearer "`.
pub open spec fn has_bearer_prefix(s: Seq<char>) -> bool {
    s.len() >= 7 && s.take(7) == bearer_prefix()
}

/// Whether the characters of `s` from index `i` on start with `"Bearer "`.
pub fn has_bearer_prefix_at(s: &str, n: usize, i: usize) -> (b: bool)
    requires
        n == s@.len(),
        i <= n,
    ensures
        b == has_bearer_prefix(s@.skip(i as int)),
{
    if n - i < 7 {
        return false;
    }
    let b = s.get_char(i) == 'B' && s.get_char(i + 1) == 'e' && s.get_char(i + 2) == 'a'
        && s.get_char(i + 3) == 'r' && s.get_char(i + 4) == 'e' && s.get_char(i + 5) == 'r'
        && s.get_char(i + 6) == ' ';
    proof {
        let t = s@.skip(i as int).take(7);
        if b {
            assert(t =~= bearer_prefix());
        } else {
            if t == bearer_prefix() {
                assert(t[0] == s@[i as int]);
                assert(t[1] == s@[i + 1]);
                assert(t[2] == s@[i + 2]);
                assert(t[3] == s@[i + 3]);
                assert(t[4] == s@[i + 4]);
                assert(t[5] == s@[i + 5]);
                assert(t[6] == s@[i + 6]);
            }
        }
    }
    b
}

/// Whether `s.starts_with("Bearer ")`.
pub fn starts_with_bearer(s: &str) -> (b: bool)
    ensures
        b == has_bearer_prefix(s@),
{
    let n = s.unicode_len();
    assert(s@.skip(0) =~= s@);
    has_bearer_prefix_at(s, n, 0)
}

/// The token of a header that starts with `"Bearer "`: what follows that
/// one prefix.
pub fn after_bearer_prefix(s: &str) -> (r: String)
    requires
        has_bearer_prefix(s@),
    ensures
        r@ == s@.skip(7),
{
    let n = s.unicode_len();
    let rest = s.substring_char(7, n);
    assert(rest@ =~= s@.skip(7));
    String::from_str(rest)
}

} // verus!
