//! Deterministic construction of the two search queries: the web-search GET
//! against the result page, and the JSON-API GET that needs the access key.
//! Each builder fixes the full parameter set; serialisation and
//! percent-encoding follow standard URL query encoding.

use vstd::prelude::*;
use vstd::string::StringExecFns;

use crate::timefmt::digit_char;
use crate::timefmt::snapshot_of;
use crate::timefmt::valid_parts;
use crate::timefmt::TimeSnapshot;
use crate::timefmt::TimeSnapshotV;

verus! {

/// The fixed origin/destination pair one deployment serves: station display
/// names and the service's numeric station codes.
pub struct RouteConfig {
    pub dep: String,
    pub dep_code: String,
    pub arr: String,
    pub arr_code: String,
}

/// The mathematical image of a route: its fields as character sequences.
#[verifier::ext_equal]
pub struct RouteConfigV {
    pub dep: Seq<char>,
    pub dep_code: Seq<char>,
    pub arr: Seq<char>,
    pub arr_code: Seq<char>,
}

impl View for RouteConfig {
    type V = RouteConfigV;

    open spec fn view(&self) -> RouteConfigV {
        RouteConfigV {
            dep: self.dep@,
            dep_code: self.dep_code@,
            arr: self.arr@,
            arr_code: self.arr_code@,
        }
    }
}

/// The route this deployment is fixed to.
pub open spec fn standard_route() -> RouteConfigV {
    RouteConfigV {
        dep: "豊島園(都営線)"@,
        dep_code: "22836"@,
        arr: "中野坂上"@,
        arr_code: "22850"@,
    }
}

impl RouteConfig {
    /// The fixed route this deployment serves.
    pub fn standard() -> (r: RouteConfig)
        ensures
            r@ == standard_route(),
    {
        let r = RouteConfig {
            dep: "豊島園(都営線)".to_owned(),
            dep_code: "22836".to_owned(),
            arr: "中野坂上".to_owned(),
            arr_code: "22850".to_owned(),
        };
        proof {
            assert(r@ =~= standard_route());
        }
        r
    }
}

/// The web search's base path.
pub open spec fn web_base() -> Seq<char> {
    "https://roote.ekispert.net/ja/result"@
}

/// The JSON API's base path.
pub open spec fn api_base() -> Seq<char> {
    "http://api.ekispert.jp/v1/json/search/course/light"@
}

/// A sequence of string pairs, seen as character sequences.
pub open spec fn pairs_view(ps: Seq<(String, String)>) -> Seq<(Seq<char>, Seq<char>)> {
    ps.map_values(|p: (String, String)| (p.0@, p.1@))
}

/// The URL with the given base and the given query pairs appended, in
/// order, percent-encoded per standard URL query encoding. The result
/// depends on the base and the pairs alone.
pub uninterp spec fn url_of(base: Seq<char>, pairs: Seq<(Seq<char>, Seq<char>)>) -> Seq<char>;

/// Relies on url's `Url::parse` and `Url::query_pairs_mut`: parses the
/// base, replaces its query with the given pairs percent-encoded per the
/// form-urlencoded rules, and serialises the whole URL. Both fixed base
/// paths are absolute URLs that `Url::parse` accepts, so on them
/// serialisation always succeeds; other bases are left out.
#[verifier::external_body]
fn serialize_url(base: &str, pairs: &Vec<(String, String)>) -> (r: String)
    requires
        base@ == web_base() || base@ == api_base(),
    ensures
        r@ == url_of(base@, pairs_view(pairs@)),
{
    let mut url = url::Url::parse(base).expect("the fixed base paths parse");
    url.query_pairs_mut().clear().extend_pairs(pairs.iter().map(|p| (&p.0, &p.1)));
    String::from(url.as_str())
}

/// The full parameter set of the web-search query: the station pair, the
/// decomposed instant, and the protocol's fixed option flags.
pub open spec fn web_params(route: RouteConfigV, t: TimeSnapshotV) -> Seq<(Seq<char>, Seq<char>)> {
    seq![
        ("dep"@, route.dep),
        ("dep_code"@, route.dep_code),
        ("arr"@, route.arr),
        ("arr_code"@, route.arr_code),
        ("yyyymm"@, t.year_month),
        ("day"@, t.day),
        ("hour"@, t.hour),
        ("minute10"@, seq![t.min_tens]),
        ("minute1"@, seq![t.min_ones]),
        ("locale"@, "ja"@),
        ("connect"@, "true"@),
        ("highway"@, "true"@),
        ("liner"@, "true"@),
        ("local"@, "true"@),
        ("plane"@, "true"@),
        ("shinkansen"@, "true"@),
        ("ship"@, "true"@),
        ("sort"@, "time"@),
        ("submit_btn"@, "検索"@),
        ("surcharge"@, "3"@),
        ("ticket_type"@, "0"@),
        ("transfer"@, "2"@),
        ("type"@, "dep"@),
        ("utf8"@, "✓"@),
    ]
}

/// The web-search query string an instant and a route determine.
pub open spec fn web_query(route: RouteConfigV, t: TimeSnapshotV) -> Seq<char> {
    url_of(web_base(), web_params(route, t))
}

/// The full parameter set of the JSON-API query: the key, the raw station
/// codes, and the instant as `date` and `time` fields.
pub open spec fn api_params(route: RouteConfigV, t: TimeSnapshotV, key: Seq<char>) -> Seq<
    (Seq<char>, Seq<char>),
> {
    seq![
        ("key"@, key),
        ("from"@, route.dep_code),
        ("to"@, route.arr_code),
        ("date"@, t.year_month + t.day),
        ("time"@, t.hour + seq![t.min_tens, t.min_ones]),
    ]
}

/// The JSON-API query string an instant, a route and a key determine.
pub open spec fn api_query(route: RouteConfigV, t: TimeSnapshotV, key: Seq<char>) -> Seq<char> {
    url_of(api_base(), api_params(route, t, key))
}

/// The one-character string holding a digit character.
fn digit_char_to_string(c: char) -> (r: String)
    requires
        exists|d: nat| d < 10 && c == digit_char(d),
    ensures
        r@ == seq![c],
{
    let u = c as u32;
    proof {
        let d = choose|d: nat| d < 10 && c == digit_char(d);
        assert(48 <= u <= 57);
    }
    let r = crate::timefmt::u32_to_dec(u - 48);
    proof {
        let d = choose|d: nat| d < 10 && c == digit_char(d);
        assert((u - 48) as nat == d);
        assert(r@ =~= seq![c]);
    }
    r
}

/// Builds the web-search query for a route and a captured instant. The
/// result is fully determined by the two: construction always succeeds.
pub fn build_web_query(route: &RouteConfig, t: &TimeSnapshot) -> (u: String)
    requires
        t.wf(),
    ensures
        u@ == web_query(route@, t@),
{
    proof {
        lemma_wf_min_digits(t@);
    }
    let mut ps: Vec<(String, String)> = Vec::new();
    ps.push(("dep".to_owned(), route.dep.clone()));
    ps.push(("dep_code".to_owned(), route.dep_code.clone()));
    ps.push(("arr".to_owned(), route.arr.clone()));
    ps.push(("arr_code".to_owned(), route.arr_code.clone()));
    ps.push(("yyyymm".to_owned(), t.year_month.clone()));
    ps.push(("day".to_owned(), t.day.clone()));
    ps.push(("hour".to_owned(), t.hour.clone()));
    ps.push(("minute10".to_owned(), digit_char_to_string(t.min_tens)));
    ps.push(("minute1".to_owned(), digit_char_to_string(t.min_ones)));
    ps.push(("locale".to_owned(), "ja".to_owned()));
    ps.push(("connect".to_owned(), "true".to_owned()));
    ps.push(("highway".to_owned(), "true".to_owned()));
    ps.push(("liner".to_owned(), "true".to_owned()));
    ps.push(("local".to_owned(), "true".to_owned()));
    ps.push(("plane".to_owned(), "true".to_owned()));
    ps.push(("shinkansen".to_owned(), "true".to_owned()));
    ps.push(("ship".to_owned(), "true".to_owned()));
    ps.push(("sort".to_owned(), "time".to_owned()));
    ps.push(("submit_btn".to_owned(), "検索".to_owned()));
    ps.push(("surcharge".to_owned(), "3".to_owned()));
    ps.push(("ticket_type".to_owned(), "0".to_owned()));
    ps.push(("transfer".to_owned(), "2".to_owned()));
    ps.push(("type".to_owned(), "dep".to_owned()));
    ps.push(("utf8".to_owned(), "✓".to_owned()));
    proof {
        assert(pairs_view(ps@) =~= web_params(route@, t@));
    }
    serialize_url("https://roote.ekispert.net/ja/result", &ps)
}

/// Builds the JSON-API query for a route, a captured instant and a
/// resolved key. The result is fully determined by the three:
/// construction always succeeds.
pub fn build_api_query(route: &RouteConfig, t: &TimeSnapshot, key: &str) -> (u: String)
    requires
        t.wf(),
    ensures
        u@ == api_query(route@, t@, key@),
{
    proof {
        lemma_wf_min_digits(t@);
    }
    let mut date = t.year_month.clone();
    date.append(t.day.as_str());
    let mut time = t.hour.clone();
    time.append(digit_char_to_string(t.min_tens).as_str());
    time.append(digit_char_to_string(t.min_ones).as_str());
    proof {
        assert(time@ =~= t@.hour + seq![t@.min_tens, t@.min_ones]);
    }
    let mut ps: Vec<(String, String)> = Vec::new();
    ps.push(("key".to_owned(), key.to_owned()));
    ps.push(("from".to_owned(), route.dep_code.clone()));
    ps.push(("to".to_owned(), route.arr_code.clone()));
    ps.push(("date".to_owned(), date));
    ps.push(("time".to_owned(), time));
    proof {
        assert(pairs_view(ps@) =~= api_params(route@, t@, key@));
    }
    serialize_url("http://api.ekispert.jp/v1/json/search/course/light", &ps)
}

/// A well-formed snapshot's minute characters are digit characters.
proof fn lemma_wf_min_digits(v: TimeSnapshotV)
    requires
        exists|y: nat, mo: nat, d: nat, h: nat, mi: nat|
            valid_parts(y, mo, d, h, mi) && v == #[trigger] snapshot_of(y, mo, d, h, mi),
    ensures
        exists|d: nat| d < 10 && v.min_tens == digit_char(d),
        exists|d: nat| d < 10 && v.min_ones == digit_char(d),
{
    let (y, mo, d, h, mi) = choose|y: nat, mo: nat, d: nat, h: nat, mi: nat|
        valid_parts(y, mo, d, h, mi) && v == #[trigger] snapshot_of(y, mo, d, h, mi);
    assert(v.min_tens == digit_char(mi / 10 % 10));
    assert(v.min_ones == digit_char(mi % 10));
    assert(mi / 10 % 10 < 10 && mi % 10 < 10) by (nonlinear_arith);
}

/// Law: query construction is deterministic. The same route and the same
/// captured instant determine the same web-search query string, with the
/// same parameter content and encoding.
pub proof fn lemma_web_query_deterministic(
    r1: RouteConfigV,
    t1: TimeSnapshotV,
    r2: RouteConfigV,
    t2: TimeSnapshotV,
    u1: Seq<char>,
    u2: Seq<char>,
)
    requires
        r1 == r2,
        t1 == t2,
        u1 == web_query(r1, t1),
        u2 == web_query(r2, t2),
    ensures
        u1 == u2,
{
}

} // verus!
