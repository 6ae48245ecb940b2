//! Extraction of departure/arrival time pairs from a result page.
//!
//! The page marks each travel-time candidate with a fixed structural marker:
//! a `p` node whose class attribute is exactly `candidate_list_txt`. The text
//! of each such node is scanned left to right for time-of-day tokens (one or
//! two digits, a colon, two digits); a small per-node state machine stores
//! the first token as the departure time and the second as the arrival time,
//! ignoring any later tokens. A node yields a record exactly when it holds at
//! least one token; a node with a single token keeps an empty arrival field.

use vstd::prelude::*;
use vstd::string::StrSliceExecFns;

verus! {

/// One departure/arrival pair extracted from a candidate block.
#[derive(Debug)]
pub struct TrainTime {
    /// Departure time of day, "H:MM" or "HH:MM".
    pub from: String,
    /// Arrival time of day; empty when the block held a single time token.
    pub to: String,
}

/// The mathematical image of a record: its two fields as character
/// sequences.
#[verifier::ext_equal]
pub struct TrainTimeV {
    pub from: Seq<char>,
    pub to: Seq<char>,
}

impl View for TrainTime {
    type V = TrainTimeV;

    open spec fn view(&self) -> TrainTimeV {
        TrainTimeV { from: self.from@, to: self.to@ }
    }
}

impl DeepView for TrainTime {
    type V = TrainTimeV;

    open spec fn deep_view(&self) -> TrainTimeV {
        self@
    }
}

impl TrainTime {
    /// A record with both fields still empty.
    pub fn new() -> (r: TrainTime)
        ensures
            r.from@ == Seq::<char>::empty(),
            r.to@ == Seq::<char>::empty(),
    {
        TrainTime { from: String::new(), to: String::new() }
    }
}

impl PartialEq for TrainTime {
    /// Records are equal exactly when both fields agree.
    fn eq(&self, other: &TrainTime) -> (r: bool) {
        self.from == other.from && self.to == other.to
    }
}

impl vstd::std_specs::cmp::PartialEqSpecImpl for TrainTime {
    open spec fn obeys_eq_spec() -> bool {
        true
    }

    open spec fn eq_spec(&self, other: &TrainTime) -> bool {
        self.from@ == other.from@ && self.to@ == other.to@
    }
}

/// Whether `c` is a decimal digit.
pub open spec fn is_digit(c: char) -> bool {
    48 <= c as u32 <= 57
}

/// The length of the time-of-day token starting at position `i` of `s`, if
/// one starts there: one or two digits, a colon, then exactly two digits,
/// the two-digit hour preferred where both fit.
pub open spec fn token_len_at(s: Seq<char>, i: int) -> Option<int> {
    if 0 <= i && i + 5 <= s.len() && is_digit(s[i]) && is_digit(s[i + 1]) && s[i + 2] == ':'
        && is_digit(s[i + 3]) && is_digit(s[i + 4]) {
        Some(5int)
    } else if 0 <= i && i + 4 <= s.len() && is_digit(s[i]) && s[i + 1] == ':' && is_digit(
        s[i + 2],
    ) && is_digit(s[i + 3]) {
        Some(4int)
    } else {
        None
    }
}

/// The time-of-day tokens of `s` from position `i` on, leftmost first,
/// non-overlapping: where a token starts the scan resumes after it,
/// elsewhere it advances one character.
pub open spec fn time_tokens_from(s: Seq<char>, i: int) -> Seq<Seq<char>>
    decreases s.len() - i,
{
    if i < 0 || i >= s.len() {
        Seq::empty()
    } else {
        match token_len_at(s, i) {
            Some(l) => seq![s.subrange(i, i + l)] + time_tokens_from(s, i + l),
            None => time_tokens_from(s, i + 1),
        }
    }
}

/// All time-of-day tokens of `s`, leftmost first.
pub open spec fn time_tokens(s: Seq<char>) -> Seq<Seq<char>> {
    time_tokens_from(s, 0)
}

/// The record one candidate block's text yields: its first token as the
/// departure time and its second, if any, as the arrival time; no record
/// when the text holds no token.
pub open spec fn record_of_text(t: Seq<char>) -> Option<TrainTimeV> {
    let toks = time_tokens(t);
    if toks.len() == 0 {
        None
    } else {
        Some(
            TrainTimeV {
                from: toks[0],
                to: if toks.len() >= 2 {
                    toks[1]
                } else {
                    Seq::empty()
                },
            },
        )
    }
}

/// The records of a sequence of block texts, in block order.
pub open spec fn records_of(texts: Seq<Seq<char>>) -> Seq<TrainTimeV>
    decreases texts.len(),
{
    if texts.len() == 0 {
        Seq::empty()
    } else {
        let rest = records_of(texts.drop_last());
        match record_of_text(texts.last()) {
            Some(r) => rest.push(r),
            None => rest,
        }
    }
}

/// Whether `c` is a decimal digit, as executable code.
fn is_digit_exec(c: char) -> (r: bool)
    ensures
        r == is_digit(c),
{
    let u = c as u32;
    48 <= u && u <= 57
}

/// Decides whether a time-of-day token starts at position `i`, and its
/// length.
fn try_token_at(s: &str, i: usize, n: usize) -> (r: Option<usize>)
    requires
        n == s@.len(),
        i < n,
    ensures
        match r {
            Some(l) => token_len_at(s@, i as int) == Some(l as int) && i + l <= n,
            None => token_len_at(s@, i as int) is None,
        },
{
    if n - i >= 5 && is_digit_exec(s.get_char(i)) && is_digit_exec(s.get_char(i + 1))
        && s.get_char(i + 2) as u32 == 58 && is_digit_exec(s.get_char(i + 3)) && is_digit_exec(
        s.get_char(i + 4),
    ) {
        proof {
            assert(s@[i + 2] == ':') by {
                assert(s@[i + 2] as u32 == 58);
                assert(':' as u32 == 58);
            }
        }
        Some(5)
    } else if n - i >= 4 && is_digit_exec(s.get_char(i)) && s.get_char(i + 1) as u32 == 58
        && is_digit_exec(s.get_char(i + 2)) && is_digit_exec(s.get_char(i + 3)) {
        proof {
            assert(s@[i + 1] == ':') by {
                assert(s@[i + 1] as u32 == 58);
                assert(':' as u32 == 58);
            }
        }
        Some(4)
    } else {
        proof {
            assert(':' as u32 == 58);
        }
        None
    }
}

/// Collects the time-of-day tokens of one block text, leftmost first.
fn scan_text_tokens(s: &str) -> (toks: Vec<String>)
    ensures
        toks.deep_view() == time_tokens(s@),
{
    let n = s.unicode_len();
    let mut toks: Vec<String> = Vec::new();
    let mut i: usize = 0;
    while i < n
        invariant
            n == s@.len(),
            i <= n,
            toks.deep_view() + time_tokens_from(s@, i as int) == time_tokens(s@),
        decreases n - i,
    {
        let ghost prev = toks.deep_view();
        match try_token_at(s, i, n) {
            Some(l) => {
                let tok = s.substring_char(i, i + l);
                toks.push(tok.to_owned());
                proof {
                    assert(toks.deep_view() =~= prev.push(s@.subrange(i as int, i + l)));
                    assert(toks.deep_view() + time_tokens_from(s@, i + l) =~= prev
                        + time_tokens_from(s@, i as int));
                }
                i = i + l;
            },
            None => {
                i = i + 1;
            },
        }
    }
    proof {
        assert(time_tokens_from(s@, i as int) =~= Seq::<Seq<char>>::empty());
        assert(toks.deep_view() =~= toks.deep_view() + Seq::<Seq<char>>::empty());
    }
    toks
}

/// The two phases of the per-block scan, plus the resting state after both
/// times are stored.
#[derive(Clone, Copy)]
enum ScanPhase {
    /// No token stored yet; the next one is the departure time.
    ExpectFrom,
    /// Departure stored; the next token is the arrival time.
    ExpectTo,
    /// Both stored; later tokens are ignored.
    Done,
}

/// Runs the two-phase machine over one block text and yields its record, if
/// the text holds any time token.
fn record_of_text_exec(s: &str) -> (r: Option<TrainTime>)
    ensures
        match r {
            Some(tt) => record_of_text(s@) == Some(tt@),
            None => record_of_text(s@) is None,
        },
{
    let toks = scan_text_tokens(s);
    let mut phase = ScanPhase::ExpectFrom;
    let mut from = String::new();
    let mut to = String::new();
    let mut k: usize = 0;
    while k < toks.len()
        invariant
            toks.deep_view() == time_tokens(s@),
            k <= toks.len(),
            phase is ExpectFrom <==> k == 0,
            phase is ExpectFrom ==> to@ == Seq::<char>::empty(),
            phase is ExpectTo <==> k == 1 && toks.len() >= 1,
            phase is ExpectTo ==> from@ == time_tokens(s@)[0] && to@ == Seq::<char>::empty(),
            phase is Done ==> k >= 2 && from@ == time_tokens(s@)[0] && to@ == time_tokens(s@)[1],
        decreases toks.len() - k,
    {
        proof {
            assert(toks.deep_view()[k as int] == toks@[k as int]@);
        }
        match phase {
            ScanPhase::ExpectFrom => {
                from = toks[k].clone();
                phase = ScanPhase::ExpectTo;
            },
            ScanPhase::ExpectTo => {
                to = toks[k].clone();
                phase = ScanPhase::Done;
            },
            ScanPhase::Done => {},
        }
        k = k + 1;
    }
    match phase {
        ScanPhase::ExpectFrom => None,
        ScanPhase::ExpectTo => Some(TrainTime { from, to }),
        ScanPhase::Done => Some(TrainTime { from, to }),
    }
}

/// Turns the texts of the candidate blocks into records, in block order.
pub fn extract_from_texts(texts: &Vec<String>) -> (r: Vec<TrainTime>)
    ensures
        r.deep_view() == records_of(texts.deep_view()),
{
    let mut r: Vec<TrainTime> = Vec::new();
    let mut i: usize = 0;
    while i < texts.len()
        invariant
            i <= texts.len(),
            r.deep_view() == records_of(texts.deep_view().take(i as int)),
        decreases texts.len() - i,
    {
        let ghost prefix = texts.deep_view().take(i as int);
        let ghost prev = r.deep_view();
        match record_of_text_exec(&texts[i]) {
            Some(tt) => {
                r.push(tt);
            },
            None => {},
        }
        proof {
            let next = texts.deep_view().take(i + 1);
            assert(next.drop_last() =~= prefix);
            assert(next.last() == texts.deep_view()[i as int]);
            assert(records_of(next) == r.deep_view());
        }
        i = i + 1;
    }
    proof {
        assert(texts.deep_view().take(texts.len() as int) =~= texts.deep_view());
    }
    r
}

/// The texts of the candidate blocks a page holds, in document order. HTML
/// parsing is total and the result depends on the markup alone.
pub uninterp spec fn candidate_texts_of(html: Seq<char>) -> Seq<Seq<char>>;

/// Relies on scraper's `Html::parse_fragment` and `Selector`: selects every
/// `p` node whose class attribute is exactly `candidate_list_txt` and hands
/// back each node's concatenated text, in document order.
#[verifier::external_body]
fn candidate_texts(html: &str) -> (r: Vec<String>)
    ensures
        r.deep_view() == candidate_texts_of(html@),
{
    let doc = scraper::Html::parse_fragment(html);
    let sel = scraper::Selector::parse("p[class=\"candidate_list_txt\"]").unwrap();
    doc.select(&sel).map(|node| node.text().collect::<String>()).collect()
}

/// Extracts the ordered departure/arrival records of a result page.
pub fn extract(html: &str) -> (r: Vec<TrainTime>)
    ensures
        r.deep_view() == records_of(candidate_texts_of(html@)),
{
    let texts = candidate_texts(html);
    extract_from_texts(&texts)
}

/// Law: extraction is pure. Two extractions from the same page text yield
/// the same record sequence.
pub proof fn lemma_extract_pure(html: Seq<char>, r1: Seq<TrainTimeV>, r2: Seq<TrainTimeV>)
    requires
        r1 == records_of(candidate_texts_of(html)),
        r2 == records_of(candidate_texts_of(html)),
    ensures
        r1 == r2,
{
}

} // verus!
