//! Resolution of the access key the JSON search API needs. The key file's
//! content is whitespace-split and its first token is the key; a missing or
//! unreadable file, or one with no token, leaves the credential missing.

use vstd::prelude::*;
use vstd::string::StrSliceExecFns;

use crate::errors::AgentError;

verus! {

/// Whether `c` has the Unicode white-space property, the set the key file
/// is split on.
pub open spec fn is_wspace(c: char) -> bool {
    c as u32 == 0x09 || 0x0A <= c as u32 <= 0x0D || c as u32 == 0x20 || c as u32 == 0x85
        || c as u32 == 0xA0 || c as u32 == 0x1680 || 0x2000 <= c as u32 <= 0x200A || c as u32
        == 0x2028 || c as u32 == 0x2029 || c as u32 == 0x202F || c as u32 == 0x205F || c as u32
        == 0x3000
}

/// The first position at or after `i` holding a non-white-space character,
/// or the length of `s` where none follows.
pub open spec fn next_non_ws(s: Seq<char>, i: int) -> int
    decreases s.len() - i,
{
    if i < 0 || i >= s.len() {
        s.len() as int
    } else if !is_wspace(s[i]) {
        i
    } else {
        next_non_ws(s, i + 1)
    }
}

/// The first position at or after `i` holding a white-space character, or
/// the length of `s` where none follows.
pub open spec fn next_ws(s: Seq<char>, i: int) -> int
    decreases s.len() - i,
{
    if i < 0 || i >= s.len() {
        s.len() as int
    } else if is_wspace(s[i]) {
        i
    } else {
        next_ws(s, i + 1)
    }
}

/// The first whitespace-delimited token of `s`, if `s` holds any
/// non-white-space character.
pub open spec fn first_token(s: Seq<char>) -> Option<Seq<char>> {
    let a = next_non_ws(s, 0);
    if a >= s.len() {
        None
    } else {
        Some(s.subrange(a, next_ws(s, a)))
    }
}

/// Whether `c` has the Unicode white-space property, as executable code.
fn is_wspace_exec(c: char) -> (r: bool)
    ensures
        r == is_wspace(c),
{
    let u = c as u32;
    u == 0x09 || (0x0A <= u && u <= 0x0D) || u == 0x20 || u == 0x85 || u == 0xA0 || u == 0x1680
        || (0x2000 <= u && u <= 0x200A) || u == 0x2028 || u == 0x2029 || u == 0x202F || u == 0x205F
        || u == 0x3000
}

/// The first whitespace-delimited token of the key file's content: no
/// surrounding white space, no trailing newline.
pub fn parse_secret(content: &str) -> (r: Option<String>)
    ensures
        match r {
            Some(k) => first_token(content@) == Some(k@),
            None => first_token(content@) is None,
        },
{
    let n = content.unicode_len();
    let mut a: usize = 0;
    while a < n && is_wspace_exec(content.get_char(a))
        invariant
            n == content@.len(),
            a <= n,
            next_non_ws(content@, 0) == next_non_ws(content@, a as int),
        decreases n - a,
    {
        a = a + 1;
    }
    if a == n {
        proof {
            assert(next_non_ws(content@, a as int) == n);
        }
        return None;
    }
    let mut b: usize = a;
    while b < n && !is_wspace_exec(content.get_char(b))
        invariant
            n == content@.len(),
            a <= b <= n,
            next_ws(content@, a as int) == next_ws(content@, b as int),
        decreases n - b,
    {
        b = b + 1;
    }
    proof {
        assert(next_non_ws(content@, a as int) == a);
        assert(next_ws(content@, b as int) == b);
    }
    Some(content.substring_char(a, b).to_owned())
}

/// Resolves the access key from the key file's content, where the file
/// could be read at all. A missing or unreadable file, or one holding no
/// token, leaves the credential missing.
pub fn resolve_secret(content: Option<&str>) -> (r: Result<String, AgentError>)
    ensures
        content is None ==> r == Err::<String, AgentError>(AgentError::CredentialMissing),
        content matches Some(s) ==> match first_token(s@) {
            Some(tok) => r matches Ok(k) && k@ == tok,
            None => r == Err::<String, AgentError>(AgentError::CredentialMissing),
        },
{
    match content {
        None => Err(AgentError::CredentialMissing),
        Some(s) => match parse_secret(s) {
            Some(k) => Ok(k),
            None => Err(AgentError::CredentialMissing),
        },
    }
}

} // verus!
