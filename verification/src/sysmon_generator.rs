use vstd::prelude::*;

use crate::graph::{lists_view, Graph};
use crate::identification::{all_wf, merge_subgraphs, merged_view};
use crate::recoverable::Recoverable;

verus! {

#[verifier::external_type_specification]
#[verifier::external_body]
pub struct ExChronoParseError(chrono::ParseError);

/// Why turning a Sysmon event into a subgraph failed.
pub enum SysmonGeneratorError {
    NegativeEventTime(i64),
    TimeError(chrono::ParseError),
    UnsupportedEventType(String),
}

impl SysmonGeneratorError {
    /// None of these errors goes away on retry.
    pub fn error_type(&self) -> (r: Recoverable)
        ensures
            r == Recoverable::Persistent,
    {
        match self {
            SysmonGeneratorError::NegativeEventTime(_) => Recoverable::Persistent,
            SysmonGeneratorError::TimeError(_) => Recoverable::Persistent,
            SysmonGeneratorError::UnsupportedEventType(_) => Recoverable::Persistent,
        }
    }
}

/// The events that were decoded, in order; those that could not be decoded
/// are left out.
pub open spec fn decoded_events<E, D>(events: Seq<Result<E, D>>) -> Seq<E>
    decreases events.len(),
{
    if events.len() == 0 {
        Seq::empty()
    } else {
        match events.last() {
            Ok(e) => decoded_events(events.drop_last()).push(e),
            Err(_) => decoded_events(events.drop_last()),
        }
    }
}

/// Keeps the events that were decoded, in order, and drops those that could
/// not be: a failure to decode one event does not stop the others.
pub fn keep_decoded<E, D>(events: Vec<Result<E, D>>) -> (r: Vec<E>)
    ensures
        r@ == decoded_events(events@),
{
    let ghost all = events@;
    assert(all.len() == events.len());
    let mut events = events;
    let mut kept: Vec<E> = Vec::new();
    let mut i: usize = 0;
    while events.len() > 0
        invariant
            events@ == all.skip(i as int),
            events@.len() == all.len() - i,
            all.len() <= usize::MAX,
            i <= all.len(),
            kept@ == decoded_events(all.take(i as int)),
        decreases events.len(),
    {
        let ghost before = events@;
        let x = events.remove(0);
        assert(all.take(i + 1).drop_last() =~= all.take(i as int));
        assert(before[0] == all[i as int]);
        assert(events@ =~= all.skip(i + 1));
        match x {
            Ok(e) => kept.push(e),
            Err(_) => {},
        }
        i = i + 1;
    }
    assert(all.take(i as int) =~= all);
    kept
}

/// The subgraphs among the results, in order.
pub open spec fn generated(results: Seq<Result<Graph, SysmonGeneratorError>>) -> Seq<Graph>
    decreases results.len(),
{
    if results.len() == 0 {
        Seq::empty()
    } else {
        match results.last() {
            Ok(g) => generated(results.drop_last()).push(g),
            Err(_) => generated(results.drop_last()),
        }
    }
}

/// Whether some result is an error.
pub open spec fn any_error(results: Seq<Result<Graph, SysmonGeneratorError>>) -> bool {
    exists|i: int| 0 <= i < results.len() && #[trigger] results[i] is Err
}

/// The position of the last error among the results, or -1.
pub open spec fn last_error_index(results: Seq<Result<Graph, SysmonGeneratorError>>) -> int
    decreases results.len(),
{
    if results.len() == 0 {
        -1
    } else if results.last() is Err {
        results.len() - 1
    } else {
        last_error_index(results.drop_last())
    }
}

pub proof fn lemma_last_error_index(results: Seq<Result<Graph, SysmonGeneratorError>>)
    ensures
        -1 <= last_error_index(results) < results.len(),
        last_error_index(results) >= 0 ==> results[last_error_index(results)] is Err,
        last_error_index(results) == -1 <==> !any_error(results),
    decreases results.len(),
{
    if results.len() > 0 {
        let t = results.drop_last();
        lemma_last_error_index(t);
        if last_error_index(results) >= 0 && !(results.last() is Err) {
            assert(results[last_error_index(t)] == t[last_error_index(t)]);
        }
        if any_error(results) && !(results.last() is Err) {
            let i = choose|i: int| 0 <= i < results.len() && #[trigger] results[i] is Err;
            assert(t[i] is Err);
        }
        if any_error(t) {
            let i = choose|i: int| 0 <= i < t.len() && #[trigger] t[i] is Err;
            assert(results[i] is Err);
        }
    }
}

/// The result of generating subgraphs: the merged subgraph, or the merged
/// subgraph together with the error of a partial success, or the error alone.
pub type GeneratorResult = Result<Graph, Result<(Graph, SysmonGeneratorError), SysmonGeneratorError>>;

/// What combining `results` gives: see [`combine_generated_subgraphs`].
pub open spec fn combination(results: Seq<Result<Graph, SysmonGeneratorError>>, r: GeneratorResult) -> bool {
    &&& !any_error(results) ==> r is Ok
    &&& any_error(results) && generated(results).len() > 0 ==> (r matches Err(Ok(_)))
    &&& any_error(results) && generated(results).len() == 0 ==> (r matches Err(Err(_)))
    &&& match r {
        Ok(g) => (g.nodes@, lists_view(g.edges@)) == merged_view(generated(results)) && g.timestamp == 0 && g.wf(),
        Err(Ok((g, _))) => (g.nodes@, lists_view(g.edges@)) == merged_view(generated(results)) && g.timestamp == 0 && g.wf(),
        Err(Err(_)) => true,
    }
    &&& match r {
        Err(Ok((_, e))) => results[last_error_index(results)] == Err::<Graph, SysmonGeneratorError>(e),
        Err(Err(e)) => results[last_error_index(results)] == Err::<Graph, SysmonGeneratorError>(e),
        Ok(_) => true,
    }
}

/// Combines the results of turning each event into a subgraph: the subgraphs
/// are merged, in order, into one. Without errors that graph is the result;
/// with errors the last one is reported, alongside the graph where some
/// subgraph was generated, alone where none was.
pub fn combine_generated_subgraphs(results: Vec<Result<Graph, SysmonGeneratorError>>) -> (r: GeneratorResult)
    requires
        all_wf(generated(results@)),
    ensures
        combination(results@, r),
{
    proof {
        lemma_last_error_index(results@);
    }
    let ghost all = results@;
    let n = results.len();
    assert(all.len() == n);
    let mut results = results;
    let mut subgraphs: Vec<Graph> = Vec::new();
    let mut last_error: Option<SysmonGeneratorError> = None;
    let mut i: usize = 0;
    while results.len() > 0
        invariant
            results@ == all.skip(i as int),
            results@.len() == all.len() - i,
            all.len() <= usize::MAX,
            i <= all.len(),
            subgraphs@ == generated(all.take(i as int)),
            match last_error {
                None => last_error_index(all.take(i as int)) == -1,
                Some(e) => last_error_index(all.take(i as int)) >= 0 && all[last_error_index(all.take(i as int))]
                    == Err::<Graph, SysmonGeneratorError>(e),
            },
        decreases results.len(),
    {
        let ghost before = results@;
        let x = results.remove(0);
        assert(all.take(i + 1).drop_last() =~= all.take(i as int));
        assert(all.take(i + 1).last() == all[i as int]);
        assert(before[0] == all[i as int]);
        assert(results@ =~= all.skip(i + 1));
        proof {
            lemma_last_error_index(all.take(i as int));
            if last_error_index(all.take(i as int)) >= 0 {
                assert(all.take(i as int)[last_error_index(all.take(i as int))] == all[last_error_index(all.take(i as int))]);
            }
        }
        match x {
            Ok(g) => subgraphs.push(g),
            Err(e) => last_error = Some(e),
        }
        i = i + 1;
    }
    assert(all.take(i as int) =~= all);
    proof {
        assert forall|j: int| 0 <= j < subgraphs@.len() implies #[trigger] subgraphs@[j].wf() by {
            assert(all_wf(generated(all)));
        }
    }
    let merged = merge_subgraphs(&subgraphs);
    match last_error {
        None => Ok(merged),
        Some(e) => {
            if subgraphs.len() == 0 {
                Err(Err(e))
            } else {
                Err(Ok((merged, e)))
            }
        },
    }
}

/// Each of `results` is what `convert` gives for the event at its position.
pub open spec fn converted<E, F>(convert: F, events: Seq<E>, results: Seq<Result<Graph, SysmonGeneratorError>>) -> bool
    where F: Fn(E) -> Result<Graph, SysmonGeneratorError>
{
    &&& results.len() == events.len()
    &&& forall|i: int| 0 <= i < events.len() ==> convert.ensures((events[i],), #[trigger] results[i])
}

/// Turns a batch of Sysmon events into one subgraph: events that could not
/// be decoded are dropped, each other event is turned into a subgraph with
/// `convert`, in order, and the results are combined as
/// [`combine_generated_subgraphs`] does.
pub fn generate_subgraphs<E, D, F>(events: Vec<Result<E, D>>, convert: F) -> (r: GeneratorResult)
    where F: Fn(E) -> Result<Graph, SysmonGeneratorError>
    requires
        forall|e: E| convert.requires((e,)),
        forall|e: E, g: Graph| convert.ensures((e,), Ok::<Graph, SysmonGeneratorError>(g)) ==> g.wf(),
    ensures
        exists|results: Seq<Result<Graph, SysmonGeneratorError>>|
            #[trigger] converted(convert, decoded_events(events@), results) && combination(results, r),
{
    let decoded = keep_decoded(events);
    let ghost all = decoded@;
    assert(all.len() == decoded.len());
    let mut decoded = decoded;
    let mut results: Vec<Result<Graph, SysmonGeneratorError>> = Vec::new();
    let mut i: usize = 0;
    while decoded.len() > 0
        invariant
            decoded@ == all.skip(i as int),
            decoded@.len() == all.len() - i,
            all.len() <= usize::MAX,
            i <= all.len(),
            results@.len() == i,
            forall|j: int| 0 <= j < i ==> convert.ensures((all[j],), #[trigger] results@[j]),
            all_wf(generated(results@)),
            forall|e: E| convert.requires((e,)),
            forall|e: E, g: Graph| convert.ensures((e,), Ok::<Graph, SysmonGeneratorError>(g)) ==> g.wf(),
        decreases decoded.len(),
    {
        let ghost before = decoded@;
        let e = decoded.remove(0);
        assert(before[0] == all[i as int]);
        assert(decoded@ =~= all.skip(i + 1));
        let x = convert(e);
        let ghost prev = results@;
        let ghost gx = x;
        results.push(x);
        assert(results@.drop_last() =~= prev);
        assert(results@.last() == gx);
        proof {
            match gx {
                Ok(g) => {
                    assert(g.wf());
                    assert(generated(results@) == generated(prev).push(g));
                    assert forall|k: int| 0 <= k < generated(results@).len() implies #[trigger] generated(results@)[k].wf() by {
                        if k < generated(prev).len() {
                            assert(generated(results@)[k] == generated(prev)[k]);
                        }
                    }
                },
                Err(_) => {
                    assert(generated(results@) == generated(prev));
                },
            }
        }
        i = i + 1;
    }
    assert(converted(convert, all, results@));
    combine_generated_subgraphs(results)
}

} // verus!
