//! Handling of the JSON search API's response: the body parses as JSON of
//! the shape `{ "ResultSet": { "ResourceURI": "<string>" } }`, and the URI
//! string, with any literal quote characters removed, is the redirect
//! target the caller follows.

use vstd::prelude::*;
use vstd::string::StrSliceExecFns;
use vstd::string::StringExecFns;

use crate::errors::AgentError;

verus! {

/// The string at `ResultSet.ResourceURI` of the body parsed as JSON, or
/// nothing where the body is not JSON or that field is absent or not a
/// string. The result depends on the body text alone.
pub uninterp spec fn resource_uri_of(body: Seq<char>) -> Option<Seq<char>>;

/// An optional string, seen as its character sequence.
pub open spec fn opt_str_view(o: Option<String>) -> Option<Seq<char>> {
    match o {
        Some(s) => Some(s@),
        None => None,
    }
}

/// Relies on serde_json's `from_str`, `Value::get` and `Value::as_str`:
/// parses the body as JSON and hands back the string under
/// `ResultSet.ResourceURI`, or nothing where parsing fails or the field is
/// absent or not a string.
#[verifier::external_body]
fn resource_uri_field(body: &str) -> (r: Option<String>)
    ensures
        opt_str_view(r) == resource_uri_of(body@),
{
    let v: serde_json::Value = match serde_json::from_str(body) {
        Ok(v) => v,
        Err(_) => return None,
    };
    let uri = v.get("ResultSet")?.get("ResourceURI")?;
    match uri.as_str() {
        Some(s) => Some(s.to_owned()),
        None => None,
    }
}

/// `s` with every literal quote character removed.
pub open spec fn without_quotes(s: Seq<char>) -> Seq<char>
    decreases s.len(),
{
    if s.len() == 0 {
        Seq::empty()
    } else if s.last() == '"' {
        without_quotes(s.drop_last())
    } else {
        without_quotes(s.drop_last()).push(s.last())
    }
}

/// Removes every literal quote character from `s`.
pub fn strip_quotes(s: &str) -> (r: String)
    ensures
        r@ == without_quotes(s@),
{
    let n = s.unicode_len();
    let mut acc = String::new();
    let mut seg: usize = 0;
    let mut i: usize = 0;
    while i < n
        invariant
            n == s@.len(),
            seg <= i <= n,
            acc@ + s@.subrange(seg as int, i as int) == without_quotes(s@.take(i as int)),
            forall|j: int| seg <= j < i ==> s@[j] != '"',
        decreases n - i,
    {
        let c = s.get_char(i);
        proof {
            assert(s@.take(i + 1).drop_last() =~= s@.take(i as int));
            assert(s@.take(i + 1).last() == s@[i as int]);
        }
        if c as u32 == 34 {
            proof {
                assert(c == '"') by {
                    assert(c as u32 == 34);
                    assert('"' as u32 == 34);
                }
            }
            let piece = s.substring_char(seg, i);
            acc.append(piece);
            seg = i + 1;
            proof {
                assert(acc@ + s@.subrange(seg as int, i + 1) =~= without_quotes(s@.take(i + 1)));
            }
        } else {
            proof {
                assert(c != '"') by {
                    assert(c as u32 != 34);
                    assert('"' as u32 == 34);
                }
                assert(acc@ + s@.subrange(seg as int, i + 1) =~= without_quotes(s@.take(i + 1)));
            }
        }
        i = i + 1;
    }
    let piece = s.substring_char(seg, n);
    acc.append(piece);
    proof {
        assert(s@.take(n as int) =~= s@);
        assert(acc@ =~= without_quotes(s@));
    }
    acc
}

/// Resolves the redirect target from the API response body: the
/// `ResultSet.ResourceURI` string with any literal quote characters
/// removed. A body without that string field is a malformed response.
pub fn resolve_resource_uri(body: &str) -> (r: Result<String, AgentError>)
    ensures
        r matches Ok(u) ==> resource_uri_of(body@) matches Some(f) && u@ == without_quotes(f),
        r matches Err(e) ==> e == AgentError::MalformedResponse && resource_uri_of(body@) is None,
{
    match resource_uri_field(body) {
        Some(f) => Ok(strip_quotes(f.as_str())),
        None => Err(AgentError::MalformedResponse),
    }
}

} // verus!
