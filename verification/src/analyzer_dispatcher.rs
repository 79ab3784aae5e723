use vstd::prelude::*;
use vstd::string::StringExecFns;

use crate::graph::{lists_view, Graph};
use crate::recoverable::Recoverable;

verus! {

/// Why dispatching a subgraph to the analyzers failed.
pub enum AnalyzerDispatcherError {
    Unexpected(String),
}

impl AnalyzerDispatcherError {
    pub fn error_type(&self) -> (r: Recoverable)
        ensures
            r == Recoverable::Transient,
    {
        Recoverable::Transient
    }
}

/// A subgraph sent to the analyzer stored under `key`.
pub struct AnalyzerDispatchEvent {
    pub key: String,
    pub subgraph: Graph,
}

/// The message of a listed object that has no key.
pub open spec fn missing_key_message() -> Seq<char> {
    "S3Object is missing key"@
}

/// The analyzer keys of a bucket listing: each listed object's key, or an
/// error for an object without one. A listing without contents holds no keys.
pub fn keys_from_listing(contents: Option<Vec<Option<String>>>) -> (r: Vec<Result<String, String>>)
    ensures
        match contents {
            None => r@.len() == 0,
            Some(objects) => r@.len() == objects@.len() && forall|i: int| 0 <= i < r@.len() ==> match objects@[i] {
                Some(k) => r@[i] == Ok::<String, String>(k),
                None => #[trigger] r@[i] matches Err(m) && m@ == missing_key_message(),
            },
        },
{
    proof {
        reveal_strlit("S3Object is missing key");
    }
    let objects = match contents {
        Some(objects) => objects,
        None => return Vec::new(),
    };
    let mut r: Vec<Result<String, String>> = Vec::new();
    let mut i: usize = 0;
    while i < objects.len()
        invariant
            i <= objects.len(),
            r@.len() == i,
            forall|j: int| 0 <= j < i ==> match objects@[j] {
                Some(k) => r@[j] == Ok::<String, String>(k),
                None => #[trigger] r@[j] matches Err(m) && m@ == missing_key_message(),
            },
        decreases objects.len() - i,
    {
        match &objects[i] {
            Some(k) => r.push(Ok(k.clone())),
            None => r.push(Err(String::from_str("S3Object is missing key"))),
        }
        i = i + 1;
    }
    r
}

/// The result of dispatching: the events, or the events together with the
/// error of a partial success, or the error alone.
pub type DispatchResult = Result<Vec<AnalyzerDispatchEvent>, Result<(Vec<AnalyzerDispatchEvent>, AnalyzerDispatcherError), AnalyzerDispatcherError>>;

/// The keys that were read, in order.
pub open spec fn good_keys(keys: Seq<Result<String, String>>) -> Seq<Seq<char>>
    decreases keys.len(),
{
    if keys.len() == 0 {
        Seq::empty()
    } else {
        match keys.last() {
            Ok(k) => good_keys(keys.drop_last()).push(k@),
            Err(_) => good_keys(keys.drop_last()),
        }
    }
}

/// The message of the last key that could not be read, if any.
pub open spec fn last_key_error(keys: Seq<Result<String, String>>) -> Option<Seq<char>>
    decreases keys.len(),
{
    if keys.len() == 0 {
        None
    } else {
        match keys.last() {
            Err(m) => Some(m@),
            Ok(_) => last_key_error(keys.drop_last()),
        }
    }
}

/// The events and error of a dispatch result, where it has them.
pub open spec fn dispatched(r: DispatchResult) -> Seq<AnalyzerDispatchEvent> {
    match r {
        Ok(v) => v@,
        Err(Ok((v, _))) => v@,
        Err(Err(_)) => Seq::empty(),
    }
}

/// Builds one dispatch event per key that was read, each with a copy of the
/// subgraph. A key that could not be read makes the result a partial success
/// carrying the message of the last such key.
pub fn dispatch_events(keys: Vec<Result<String, String>>, subgraph: &Graph) -> (r: DispatchResult)
    requires
        subgraph.wf(),
    ensures
        dispatched(r).map_values(|e: AnalyzerDispatchEvent| e.key@) == good_keys(keys@),
        forall|i: int| 0 <= i < dispatched(r).len() ==> (#[trigger] dispatched(r)[i]).subgraph.nodes@ == subgraph.nodes@
            && lists_view(dispatched(r)[i].subgraph.edges@) == lists_view(subgraph.edges@)
            && dispatched(r)[i].subgraph.timestamp == subgraph.timestamp,
        match last_key_error(keys@) {
            None => r is Ok,
            Some(m) => r matches Err(Ok((_, AnalyzerDispatcherError::Unexpected(e)))) && e@ == m,
        },
{
    let mut events: Vec<AnalyzerDispatchEvent> = Vec::new();
    let mut failed: Option<String> = None;
    let mut i: usize = 0;
    while i < keys.len()
        invariant
            i <= keys.len(),
            subgraph.wf(),
            events@.map_values(|e: AnalyzerDispatchEvent| e.key@) == good_keys(keys@.take(i as int)),
            forall|j: int| 0 <= j < events@.len() ==> (#[trigger] events@[j]).subgraph.nodes@ == subgraph.nodes@
                && lists_view(events@[j].subgraph.edges@) == lists_view(subgraph.edges@)
                && events@[j].subgraph.timestamp == subgraph.timestamp,
            match last_key_error(keys@.take(i as int)) {
                None => failed is None,
                Some(m) => failed matches Some(e) && e@ == m,
            },
        decreases keys.len() - i,
    {
        assert(keys@.take(i + 1).drop_last() =~= keys@.take(i as int));
        assert(keys@.take(i + 1).last() == keys@[i as int]);
        match &keys[i] {
            Ok(k) => {
                events.push(AnalyzerDispatchEvent { key: k.clone(), subgraph: subgraph.clone() });
                assert(events@.map_values(|e: AnalyzerDispatchEvent| e.key@) =~= good_keys(keys@.take(i as int)).push(k@));
            },
            Err(m) => {
                failed = Some(m.clone());
            },
        }
        i = i + 1;
    }
    assert(keys@.take(keys@.len() as int) =~= keys@);
    match failed {
        None => Ok(events),
        Some(m) => Err(Ok((events, AnalyzerDispatcherError::Unexpected(m)))),
    }
}

} // verus!
