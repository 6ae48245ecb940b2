//! The agent that one search runs through: it captures an instant, shapes
//! the query, hands the fetched response to the extractor, and holds the
//! resulting records. Fetching itself is the transport collaborator's work;
//! the agent only produces the URL to fetch and consumes the text fetched.

use vstd::prelude::*;
use vstd::string::StringExecFns;

use crate::errors::AgentError;
use crate::extract::candidate_texts_of;
use crate::extract::extract;
use crate::extract::records_of;
use crate::extract::TrainTime;
use crate::extract::TrainTimeV;
use crate::query::api_query;
use crate::query::build_api_query;
use crate::query::build_web_query;
use crate::query::standard_route;
use crate::query::web_query;
use crate::query::RouteConfig;
use crate::secret::first_token;
use crate::timefmt::snapshot_of;
use crate::timefmt::valid_parts;
use crate::timefmt::TimeSnapshot;
use crate::timefmt::TimeSnapshotV;

verus! {

/// A snapshot view that some instant with fields in the clock's ranges
/// decomposes into.
pub open spec fn snapshot_wf(v: TimeSnapshotV) -> bool {
    exists|y: nat, mo: nat, d: nat, h: nat, mi: nat|
        valid_parts(y, mo, d, h, mi) && v == #[trigger] snapshot_of(y, mo, d, h, mi)
}

/// One search's agent: the fixed route, the records of the last search,
/// and the access key once it has been resolved.
pub struct ApiAgent {
    /// The fixed origin/destination pair this agent serves.
    pub route: RouteConfig,
    /// The records of the most recent search, in document order.
    pub train_times: Vec<TrainTime>,
    /// The JSON API's access key, kept once resolved and never refreshed.
    pub access_key: Option<String>,
}

impl ApiAgent {
    /// An agent for the fixed route, with no records and no key yet.
    pub fn new() -> (r: ApiAgent)
        ensures
            r.route@ == standard_route(),
            r.train_times@ == Seq::<TrainTime>::empty(),
            r.access_key is None,
    {
        ApiAgent { route: RouteConfig::standard(), train_times: Vec::new(), access_key: None }
    }

    /// Builds the web-search URL for the current instant. Construction
    /// itself always succeeds; an error comes only from a clock year the
    /// protocol's six-digit `year_month` cannot carry, reported as the
    /// malformed-URL condition since no well-formed query URL exists for
    /// such an instant.
    pub fn search_url(&self) -> (r: Result<String, AgentError>)
        ensures
            r matches Ok(u) ==> exists|tv: TimeSnapshotV|
                #[trigger] snapshot_wf(tv) && u@ == web_query(self.route@, tv),
            r matches Err(e) ==> e == AgentError::MalformedUrl,
    {
        match TimeSnapshot::now() {
            None => Err(AgentError::MalformedUrl),
            Some(t) => {
                proof {
                    assert(snapshot_wf(t@));
                }
                Ok(build_web_query(&self.route, &t))
            },
        }
    }

    /// Records the outcome of one search: the records the fetched response
    /// text holds, replacing any earlier ones. Route and key are untouched.
    pub fn search_train_time(&mut self, html: &str)
        ensures
            final(self).train_times.deep_view() == records_of(candidate_texts_of(html@)),
            final(self).route == old(self).route,
            final(self).access_key == old(self).access_key,
    {
        self.train_times = extract(html);
    }

    /// Resolves and keeps the access key from the key file's content, read
    /// at most once per process: a key already held is kept as it is.
    pub fn set_access_key(&mut self, content: Option<&str>) -> (r: Result<(), AgentError>)
        ensures
            final(self).route == old(self).route,
            final(self).train_times == old(self).train_times,
            old(self).access_key is Some ==> r is Ok && final(self).access_key == old(self).access_key,
            old(self).access_key is None ==> {
                &&& content is None ==> r == Err::<(), AgentError>(AgentError::CredentialMissing)
                    && final(self).access_key is None
                &&& content matches Some(s) ==> match first_token(s@) {
                    Some(tok) => r is Ok && (final(self).access_key matches Some(k) && k@ == tok),
                    None => r == Err::<(), AgentError>(AgentError::CredentialMissing)
                        && final(self).access_key is None,
                }
            },
    {
        if self.access_key.is_some() {
            return Ok(());
        }
        match crate::secret::resolve_secret(content) {
            Ok(k) => {
                self.access_key = Some(k);
                Ok(())
            },
            Err(e) => Err(e),
        }
    }

    /// Builds the JSON-API URL for the current instant. The credential must
    /// have been resolved first; otherwise the API variant cannot be
    /// constructed. With a key held, construction fails only on a clock
    /// year the protocol cannot carry, reported as the malformed-URL
    /// condition.
    pub fn api_search_url(&self) -> (r: Result<String, AgentError>)
        ensures
            self.access_key is None ==> r == Err::<String, AgentError>(
                AgentError::CredentialMissing,
            ),
            self.access_key matches Some(k) ==> {
                &&& r matches Ok(u) ==> exists|tv: TimeSnapshotV|
                    #[trigger] snapshot_wf(tv) && u@ == api_query(self.route@, tv, k@)
                &&& r matches Err(e) ==> e == AgentError::MalformedUrl
            },
    {
        match &self.access_key {
            None => Err(AgentError::CredentialMissing),
            Some(k) => match TimeSnapshot::now() {
                None => Err(AgentError::MalformedUrl),
                Some(t) => {
                    proof {
                        assert(snapshot_wf(t@));
                    }
                    Ok(build_api_query(&self.route, &t, k.as_str()))
                },
            },
        }
    }
}

/// One line per record, departure and arrival joined by an arrow.
pub open spec fn rendered_line(t: TrainTimeV) -> Seq<char> {
    t.from + " -> "@ + t.to
}

/// The presentation of a record sequence: one line per record, lines
/// joined by a newline.
pub open spec fn rendered(ts: Seq<TrainTimeV>) -> Seq<char>
    decreases ts.len(),
{
    if ts.len() == 0 {
        Seq::empty()
    } else if ts.len() == 1 {
        rendered_line(ts[0])
    } else {
        rendered(ts.drop_last()) + "\n"@ + rendered_line(ts.last())
    }
}

/// Renders the records of one search as `"<from> -> <to>"` lines joined by
/// newlines.
pub fn index(times: &Vec<TrainTime>) -> (r: String)
    ensures
        r@ == rendered(times.deep_view()),
{
    let mut r = String::new();
    let mut i: usize = 0;
    while i < times.len()
        invariant
            i <= times.len(),
            r@ == rendered(times.deep_view().take(i as int)),
        decreases times.len() - i,
    {
        if i > 0 {
            r.append("\n");
        }
        r.append(times[i].from.as_str());
        r.append(" -> ");
        r.append(times[i].to.as_str());
        proof {
            let dv = times.deep_view();
            assert(dv.take(i + 1).drop_last() =~= dv.take(i as int));
            assert(dv.take(i + 1).last() == dv[i as int]);
            assert(times.deep_view()[i as int] == times@[i as int]@);
            assert(r@ =~= rendered(dv.take(i + 1)));
        }
        i = i + 1;
    }
    proof {
        assert(times.deep_view().take(times.len() as int) =~= times.deep_view());
    }
    r
}

} // verus!
