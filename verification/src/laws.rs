//! What holds of every run of a [`TransactionBatch`](crate::transaction::TransactionBatch):
//! a run is the sequence of events the caller reports, and the actions the batch
//! answers with follow from [`step`] alone.
use crate::error::{spec_transaction_error_to_datastore, TransactionError};
use crate::transaction::{
    awaits, initial, reported, step, ActionView, BatchEvent, BatchPhase, BatchState,
};
use vstd::prelude::*;

verus! {

/// The state after the events `events`, starting from `s`, and the actions answered.
pub open spec fn run(s: BatchState, events: Seq<BatchEvent>) -> (BatchState, Seq<ActionView>)
    decreases events.len(),
{
    if events.len() == 0 {
        (s, Seq::empty())
    } else {
        let prev = run(s, events.drop_last());
        let next = step(prev.0, events.last());
        (next.0, prev.1.push(next.1))
    }
}

/// Every event of `events` answered the action that was pending.
pub open spec fn accepted(s: BatchState, events: Seq<BatchEvent>) -> bool {
    forall|k: int| 0 <= k < run(s, events).1.len() ==> !(#[trigger] run(s, events).1[k] is Refused)
}

/// The caller starts the batch and the transaction opens.
pub open spec fn opening() -> Seq<BatchEvent> {
    seq![BatchEvent::Start, BatchEvent::Begun(Ok(()))]
}

/// `j` queries in a row finish without error.
pub open spec fn successes(j: nat) -> Seq<BatchEvent> {
    Seq::new(j, |i: int| BatchEvent::Executed(Ok(())))
}

/// The first `j` queries are handed out, in order.
pub open spec fn executions(j: nat) -> Seq<ActionView> {
    Seq::new(j, |i: int| ActionView::Execute(i as nat))
}

/// The state of a batch of `n` queries after the opening and `j` successes.
pub open spec fn running(n: nat, j: nat) -> BatchState {
    if j < n {
        BatchState { phase: BatchPhase::Executing, executed: j + 1, total: n, failure: Seq::empty() }
    } else {
        BatchState { phase: BatchPhase::Committing, executed: n, total: n, failure: Seq::empty() }
    }
}

/// The actions answered to the opening and `j` successes, for `n` queries.
pub open spec fn running_actions(n: nat, j: nat) -> Seq<ActionView> {
    if j < n {
        seq![ActionView::Begin] + executions(j + 1)
    } else {
        seq![ActionView::Begin] + executions(n) + seq![ActionView::Commit]
    }
}

proof fn lemma_run_opening(n: nat, j: nat)
    requires
        j <= n,
    ensures
        run(initial(n), opening() + successes(j)).0 == running(n, j),
        run(initial(n), opening() + successes(j)).1 == running_actions(n, j),
    decreases j,
{
    let events = opening() + successes(j);
    if j == 0 {
        assert(events =~= opening());
        assert(opening().drop_last() =~= seq![BatchEvent::Start]);
        assert(seq![BatchEvent::Start].drop_last() =~= Seq::<BatchEvent>::empty());
        let s0 = run(initial(n), Seq::<BatchEvent>::empty());
        assert(s0.0 == initial(n));
        assert(s0.1 =~= Seq::<ActionView>::empty());
        let s1 = run(initial(n), seq![BatchEvent::Start]);
        assert(s1.0 == step(s0.0, BatchEvent::Start).0);
        assert(s1.0.phase == BatchPhase::Beginning);
        assert(s1.1 =~= seq![ActionView::Begin]);
        if n > 0 {
            assert(running_actions(n, 0) =~= seq![ActionView::Begin, ActionView::Execute(0)]);
        } else {
            assert(running_actions(n, 0) =~= seq![ActionView::Begin, ActionView::Commit]);
        }
    } else {
        lemma_run_opening(n, (j - 1) as nat);
        assert(events.drop_last() =~= opening() + successes((j - 1) as nat));
        assert(events.last() == BatchEvent::Executed(Ok(())));
        if j < n {
            assert(running_actions(n, j) =~= running_actions(n, (j - 1) as nat).push(
                ActionView::Execute(j),
            ));
        } else {
            assert(running_actions(n, j) =~= running_actions(n, (j - 1) as nat).push(
                ActionView::Commit,
            ));
        }
    }
}

/// The run in which the transaction fails to open.
pub open spec fn begin_failure_run(e: TransactionError) -> Seq<BatchEvent> {
    seq![BatchEvent::Start, BatchEvent::Begun(Err(e))]
}

/// The run in which the first `j` queries succeed and the next one fails with `e`.
pub open spec fn rollback_run(j: nat, e: TransactionError) -> Seq<BatchEvent> {
    opening() + successes(j) + seq![BatchEvent::Executed(Err(e)), BatchEvent::RolledBack]
}

/// The run in which all `n` queries succeed and the commit returns `r`.
pub open spec fn commit_run(n: nat, r: Result<(), TransactionError>) -> Seq<BatchEvent> {
    opening() + successes(n) + seq![BatchEvent::Committed(r)]
}

/// The state of a batch of `n` queries rolling back after query `j` failed with `e`.
pub open spec fn rolling_back(n: nat, j: nat, e: TransactionError) -> BatchState {
    BatchState {
        phase: BatchPhase::RollingBack,
        executed: j + 1,
        total: n,
        failure: spec_transaction_error_to_datastore(e),
    }
}

proof fn lemma_run_push(s: BatchState, events: Seq<BatchEvent>, e: BatchEvent)
    ensures
        run(s, events.push(e)).0 == step(run(s, events).0, e).0,
        run(s, events.push(e)).1 == run(s, events).1.push(step(run(s, events).0, e).1),
{
    assert(events.push(e).drop_last() =~= events);
}

proof fn lemma_accepted_drop_last(s: BatchState, events: Seq<BatchEvent>)
    requires
        accepted(s, events),
        events.len() > 0,
    ensures
        accepted(s, events.drop_last()),
        awaits(run(s, events.drop_last()).0, events.last()),
{
    let prev = events.drop_last();
    assert(events =~= prev.push(events.last()));
    lemma_run_push(s, prev, events.last());
    assert forall|k: int| 0 <= k < run(s, prev).1.len() implies !(#[trigger] run(
        s,
        prev,
    ).1[k] is Refused) by {
        assert(run(s, events).1[k] == run(s, prev).1[k]);
    }
    let last = run(s, events).1.len() - 1;
    assert(!(run(s, events).1[last] is Refused));
}

/// Nothing has been reported yet, or only the start.
spec fn opening_at(n: nat, events: Seq<BatchEvent>, s: BatchState, acts: Seq<ActionView>) -> bool {
    ||| events.len() == 0 && s == initial(n) && acts.len() == 0
    ||| events == seq![BatchEvent::Start] && s == BatchState {
        phase: BatchPhase::Beginning,
        ..initial(n)
    } && acts == seq![ActionView::Begin]
}

/// The transaction failed to open with `e`, and the batch reported it.
spec fn begin_failed_at(
    e: TransactionError,
    events: Seq<BatchEvent>,
    s: BatchState,
    acts: Seq<ActionView>,
) -> bool {
    &&& events == begin_failure_run(e)
    &&& s.phase == BatchPhase::Done
    &&& acts == seq![
        ActionView::Begin,
        ActionView::Finish(Err(spec_transaction_error_to_datastore(e))),
    ]
}

/// The transaction opened and the first `j` queries succeeded.
spec fn running_at(
    n: nat,
    j: nat,
    events: Seq<BatchEvent>,
    s: BatchState,
    acts: Seq<ActionView>,
) -> bool {
    &&& j <= n
    &&& events == opening() + successes(j)
    &&& s == running(n, j)
    &&& acts == running_actions(n, j)
}

/// The first `j` queries succeeded and the next one failed with `e`; the rollback is
/// pending.
spec fn rolling_back_at(
    n: nat,
    j: nat,
    e: TransactionError,
    events: Seq<BatchEvent>,
    s: BatchState,
    acts: Seq<ActionView>,
) -> bool {
    &&& j < n
    &&& events == opening() + successes(j) + seq![BatchEvent::Executed(Err(e))]
    &&& s == rolling_back(n, j, e)
    &&& acts == running_actions(n, j).push(ActionView::Rollback)
}

/// The first `j` queries succeeded, the next one failed with `e`, the rollback
/// finished and the batch reported the failure.
spec fn rolled_back_at(
    n: nat,
    j: nat,
    e: TransactionError,
    events: Seq<BatchEvent>,
    s: BatchState,
    acts: Seq<ActionView>,
) -> bool {
    &&& j < n
    &&& events == rollback_run(j, e)
    &&& s.phase == BatchPhase::Done
    &&& acts == running_actions(n, j) + seq![
        ActionView::Rollback,
        ActionView::Finish(Err(spec_transaction_error_to_datastore(e))),
    ]
}

/// Every query succeeded, the commit returned `r`, and the batch reported it.
spec fn committed_at(
    n: nat,
    r: Result<(), TransactionError>,
    events: Seq<BatchEvent>,
    s: BatchState,
    acts: Seq<ActionView>,
) -> bool {
    &&& events == commit_run(n, r)
    &&& s.phase == BatchPhase::Done
    &&& acts == running_actions(n, n).push(ActionView::Finish(reported(r)))
}

/// The events, state and answers of an accepted run of `n` queries take one of the
/// shapes above.
spec fn run_shape(n: nat, events: Seq<BatchEvent>, s: BatchState, acts: Seq<ActionView>) -> bool {
    ||| opening_at(n, events, s, acts)
    ||| exists|e: TransactionError| #[trigger] begin_failed_at(e, events, s, acts)
    ||| exists|j: nat| #[trigger] running_at(n, j, events, s, acts)
    ||| exists|j: nat, e: TransactionError| #[trigger] rolling_back_at(n, j, e, events, s, acts)
    ||| exists|j: nat, e: TransactionError| #[trigger] rolled_back_at(n, j, e, events, s, acts)
    ||| exists|r: Result<(), TransactionError>| #[trigger] committed_at(n, r, events, s, acts)
}

proof fn lemma_accepted_shape(n: nat, events: Seq<BatchEvent>)
    requires
        accepted(initial(n), events),
    ensures
        run_shape(n, events, run(initial(n), events).0, run(initial(n), events).1),
    decreases events.len(),
{
    let s0 = initial(n);
    if events.len() == 0 {
        assert(run(s0, events).1 =~= Seq::<ActionView>::empty());
        assert(opening_at(n, events, run(s0, events).0, run(s0, events).1));
        return;
    }
    let prev = events.drop_last();
    let ev = events.last();
    assert(events =~= prev.push(ev));
    lemma_accepted_drop_last(s0, events);
    lemma_accepted_shape(n, prev);
    lemma_run_push(s0, prev, ev);
    let ps = run(s0, prev).0;
    let pacts = run(s0, prev).1;
    let s = run(s0, events).0;
    let acts = run(s0, events).1;
    assert(awaits(ps, ev));
    if opening_at(n, prev, ps, pacts) {
        if prev.len() == 0 {
            assert(events =~= seq![BatchEvent::Start]);
            assert(acts =~= seq![ActionView::Begin]);
            assert(opening_at(n, events, s, acts));
        } else {
            match ev {
                BatchEvent::Begun(Ok(u)) => {
                    assert(u == ());
                    assert(events =~= opening() + successes(0));
                    lemma_run_opening(n, 0);
                    assert(running_at(n, 0, events, s, acts));
                },
                BatchEvent::Begun(Err(e)) => {
                    assert(events =~= begin_failure_run(e));
                    assert(acts =~= seq![
                        ActionView::Begin,
                        ActionView::Finish(Err(spec_transaction_error_to_datastore(e))),
                    ]);
                    assert(begin_failed_at(e, events, s, acts));
                },
                _ => {},
            }
        }
    } else if exists|j: nat| #[trigger] running_at(n, j, prev, ps, pacts) {
        let j = choose|j: nat| #[trigger] running_at(n, j, prev, ps, pacts);
        match ev {
            BatchEvent::Executed(Ok(u)) => {
                assert(u == ());
                assert(events =~= opening() + successes(j + 1));
                lemma_run_opening(n, j + 1);
                assert(running_at(n, j + 1, events, s, acts));
            },
            BatchEvent::Executed(Err(e)) => {
                assert(events =~= opening() + successes(j) + seq![BatchEvent::Executed(Err(e))]);
                assert(rolling_back_at(n, j, e, events, s, acts));
            },
            BatchEvent::Committed(r) => {
                assert(events =~= commit_run(n, r));
                assert(committed_at(n, r, events, s, acts));
            },
            _ => {},
        }
    } else if exists|j: nat, e: TransactionError| #[trigger] rolling_back_at(n, j, e, prev, ps, pacts) {
        let (j, e) = choose|j: nat, e: TransactionError| #[trigger] rolling_back_at(n, j, e, prev, ps, pacts);
        assert(ev == BatchEvent::RolledBack);
        assert(events =~= rollback_run(j, e));
        assert(acts =~= running_actions(n, j) + seq![
            ActionView::Rollback,
            ActionView::Finish(Err(spec_transaction_error_to_datastore(e))),
        ]);
        assert(rolled_back_at(n, j, e, events, s, acts));
    } else if exists|e: TransactionError| #[trigger] begin_failed_at(e, prev, ps, pacts) {
        assert(ps.phase == BatchPhase::Done);
    } else if exists|j: nat, e: TransactionError| #[trigger] rolled_back_at(n, j, e, prev, ps, pacts) {
        assert(ps.phase == BatchPhase::Done);
    } else {
        let r = choose|r: Result<(), TransactionError>| #[trigger] committed_at(n, r, prev, ps, pacts);
        assert(ps.phase == BatchPhase::Done);
    }
}

proof fn lemma_run_len(s: BatchState, events: Seq<BatchEvent>)
    ensures
        run(s, events).1.len() == events.len(),
    decreases events.len(),
{
    if events.len() > 0 {
        lemma_run_len(s, events.drop_last());
    }
}

/// A run answers each event without looking at the events that come after it: the
/// actions answered to the first `k` events of a run are the first `k` actions of the
/// run, and a run whose events were all accepted has all its beginnings accepted.
pub proof fn law_run_of_prefix(s: BatchState, events: Seq<BatchEvent>, k: nat)
    requires
        k <= events.len(),
    ensures
        run(s, events.take(k as int)).1 == run(s, events).1.take(k as int),
        accepted(s, events) ==> accepted(s, events.take(k as int)),
    decreases events.len(),
{
    lemma_run_len(s, events);
    if k == events.len() {
        assert(events.take(k as int) =~= events);
        assert(run(s, events).1.take(k as int) =~= run(s, events).1);
    } else {
        let prev = events.drop_last();
        assert(events =~= prev.push(events.last()));
        lemma_run_push(s, prev, events.last());
        lemma_run_len(s, prev);
        law_run_of_prefix(s, prev, k);
        assert(prev.take(k as int) =~= events.take(k as int));
        assert(run(s, events).1.take(k as int) =~= run(s, prev).1.take(k as int));
        if accepted(s, events) {
            lemma_accepted_drop_last(s, events);
        }
    }
}

/// When the transaction cannot be opened, no query runs and the batch reports the
/// failure, converted to a data store error.
pub proof fn law_begin_failure(n: nat, e: TransactionError)
    ensures
        accepted(initial(n), begin_failure_run(e)),
        run(initial(n), begin_failure_run(e)).1 == seq![
            ActionView::Begin,
            ActionView::Finish(Err(spec_transaction_error_to_datastore(e))),
        ],
        run(initial(n), begin_failure_run(e)).0.phase == BatchPhase::Done,
{
    let events = begin_failure_run(e);
    assert(events =~= seq![BatchEvent::Start].push(BatchEvent::Begun(Err(e))));
    assert(seq![BatchEvent::Start] =~= Seq::<BatchEvent>::empty().push(BatchEvent::Start));
    lemma_run_push(initial(n), Seq::empty(), BatchEvent::Start);
    lemma_run_push(initial(n), seq![BatchEvent::Start], BatchEvent::Begun(Err(e)));
    assert(run(initial(n), events).1 =~= seq![
        ActionView::Begin,
        ActionView::Finish(Err(spec_transaction_error_to_datastore(e))),
    ]);
}

/// When the first `j` queries succeed and the next one fails with `e`, the queries
/// are handed out in order up to the failing one, the transaction is rolled back and
/// never committed, and the batch reports `e` converted to a data store error,
/// whatever the rollback returned.
pub proof fn law_failed_query_is_rolled_back(n: nat, j: nat, e: TransactionError)
    requires
        j < n,
    ensures
        accepted(initial(n), rollback_run(j, e)),
        run(initial(n), rollback_run(j, e)).1 == seq![ActionView::Begin] + executions(j + 1)
            + seq![
            ActionView::Rollback,
            ActionView::Finish(Err(spec_transaction_error_to_datastore(e))),
        ],
        run(initial(n), rollback_run(j, e)).0.phase == BatchPhase::Done,
{
    let s0 = initial(n);
    let base = opening() + successes(j);
    let failed = base.push(BatchEvent::Executed(Err(e)));
    let events = rollback_run(j, e);
    assert(events =~= failed.push(BatchEvent::RolledBack));
    lemma_run_opening(n, j);
    lemma_run_push(s0, base, BatchEvent::Executed(Err(e)));
    lemma_run_push(s0, failed, BatchEvent::RolledBack);
    let acts = run(s0, events).1;
    assert(acts =~= seq![ActionView::Begin] + executions(j + 1) + seq![
        ActionView::Rollback,
        ActionView::Finish(Err(spec_transaction_error_to_datastore(e))),
    ]);
    assert forall|k: int| 0 <= k < acts.len() implies !(#[trigger] acts[k] is Refused) by {
        if 1 <= k < j + 2 {
            assert(acts[k] == executions(j + 1)[k - 1]);
        }
    }
}

/// When every query succeeds, each is handed out once, in order, then the transaction
/// is committed, and the batch reports what the commit returned.
pub proof fn law_commit_after_every_query(n: nat, r: Result<(), TransactionError>)
    ensures
        accepted(initial(n), commit_run(n, r)),
        run(initial(n), commit_run(n, r)).1 == seq![ActionView::Begin] + executions(n) + seq![
            ActionView::Commit,
            ActionView::Finish(reported(r)),
        ],
        run(initial(n), commit_run(n, r)).0.phase == BatchPhase::Done,
{
    let s0 = initial(n);
    let base = opening() + successes(n);
    let events = commit_run(n, r);
    assert(events =~= base.push(BatchEvent::Committed(r)));
    lemma_run_opening(n, n);
    lemma_run_push(s0, base, BatchEvent::Committed(r));
    let acts = run(s0, events).1;
    assert(acts =~= seq![ActionView::Begin] + executions(n) + seq![
        ActionView::Commit,
        ActionView::Finish(reported(r)),
    ]);
    assert forall|k: int| 0 <= k < acts.len() implies !(#[trigger] acts[k] is Refused) by {
        if 1 <= k < n + 1 {
            assert(acts[k] == executions(n)[k - 1]);
        }
    }
}

/// Every run that the batch accepts is a beginning of one of the three runs above:
/// the transaction fails to open; some queries succeed and the next fails; or every
/// query succeeds and the commit is reported.
pub proof fn law_no_other_runs(n: nat, events: Seq<BatchEvent>)
    requires
        accepted(initial(n), events),
    ensures
        (exists|e: TransactionError| events.is_prefix_of(#[trigger] begin_failure_run(e)))
            || (exists|j: nat, e: TransactionError|
            j < n && events.is_prefix_of(#[trigger] rollback_run(j, e))) || (exists|
            r: Result<(), TransactionError>,
        | events.is_prefix_of(#[trigger] commit_run(n, r))),
{
    lemma_accepted_shape(n, events);
    let s = run(initial(n), events).0;
    let acts = run(initial(n), events).1;
    let any = TransactionError::Retryable;
    if opening_at(n, events, s, acts) {
        assert(events =~= begin_failure_run(any).subrange(0, events.len() as int));
    } else if exists|e: TransactionError| #[trigger] begin_failed_at(e, events, s, acts) {
        let e = choose|e: TransactionError| #[trigger] begin_failed_at(e, events, s, acts);
        assert(events =~= begin_failure_run(e).subrange(0, events.len() as int));
    } else if exists|j: nat| #[trigger] running_at(n, j, events, s, acts) {
        let j = choose|j: nat| #[trigger] running_at(n, j, events, s, acts);
        if j < n {
            assert(events =~= rollback_run(j, any).subrange(0, events.len() as int));
        } else {
            assert(events =~= commit_run(n, Ok(())).subrange(0, events.len() as int));
        }
    } else if exists|j: nat, e: TransactionError| #[trigger] rolling_back_at(n, j, e, events, s, acts) {
        let (j, e) = choose|j: nat, e: TransactionError| #[trigger] rolling_back_at(n, j, e, events, s, acts);
        assert(events =~= rollback_run(j, e).subrange(0, events.len() as int));
    } else if exists|j: nat, e: TransactionError| #[trigger] rolled_back_at(n, j, e, events, s, acts) {
        let (j, e) = choose|j: nat, e: TransactionError| #[trigger] rolled_back_at(n, j, e, events, s, acts);
        assert(events =~= rollback_run(j, e).subrange(0, events.len() as int));
    } else {
        let r = choose|r: Result<(), TransactionError>| #[trigger] committed_at(n, r, events, s, acts);
        assert(events =~= commit_run(n, r).subrange(0, events.len() as int));
    }
}

/// The transaction is committed only after it opened and every query of the batch
/// succeeded: whenever the batch asks for the commit, the events so far are the
/// opening followed by one success per query.
pub proof fn law_commit_only_after_every_success(n: nat, events: Seq<BatchEvent>, k: nat)
    requires
        accepted(initial(n), events),
        k < events.len(),
        run(initial(n), events).1[k as int] is Commit,
    ensures
        events.take((k + 1) as int) == opening() + successes(n),
{
    let s0 = initial(n);
    let pre = events.take((k + 1) as int);
    lemma_run_len(s0, events);
    law_run_of_prefix(s0, events, k + 1);
    lemma_run_len(s0, pre);
    lemma_accepted_shape(n, pre);
    let s = run(s0, pre).0;
    let acts = run(s0, pre).1;
    assert(acts[k as int] is Commit);
    if opening_at(n, pre, s, acts) {
        assert(acts[k as int] == ActionView::Begin);
    } else if exists|j: nat| #[trigger] running_at(n, j, pre, s, acts) {
        let j = choose|j: nat| #[trigger] running_at(n, j, pre, s, acts);
        if j < n {
            assert(acts[k as int] == executions(j + 1)[j as int]);
        }
    } else if exists|j: nat, e: TransactionError| #[trigger] rolling_back_at(n, j, e, pre, s, acts) {
        let (j, e) = choose|j: nat, e: TransactionError| #[trigger] rolling_back_at(n, j, e, pre, s, acts);
        assert(acts[k as int] == ActionView::Rollback);
    } else if exists|e: TransactionError| #[trigger] begin_failed_at(e, pre, s, acts) {
        let e = choose|e: TransactionError| #[trigger] begin_failed_at(e, pre, s, acts);
        assert(acts[k as int] is Finish);
    } else if exists|j: nat, e: TransactionError| #[trigger] rolled_back_at(n, j, e, pre, s, acts) {
        let (j, e) = choose|j: nat, e: TransactionError| #[trigger] rolled_back_at(n, j, e, pre, s, acts);
        assert(acts[k as int] is Finish);
    } else {
        let r = choose|r: Result<(), TransactionError>| #[trigger] committed_at(n, r, pre, s, acts);
        assert(acts[k as int] is Finish);
    }
}

/// A failed query stops the batch: the batch answers it with a rollback, never asks
/// for the commit, and the only outcome it can report is that failure, converted to a
/// data store error.
pub proof fn law_failure_stops_the_batch(
    n: nat,
    events: Seq<BatchEvent>,
    k: nat,
    e: TransactionError,
)
    requires
        accepted(initial(n), events),
        k < events.len(),
        events[k as int] == BatchEvent::Executed(Err(e)),
    ensures
        run(initial(n), events).1[k as int] == ActionView::Rollback,
        forall|i: int|
            0 <= i < events.len() ==> !(#[trigger] run(initial(n), events).1[i] is Commit),
        forall|i: int|
            0 <= i < events.len() && (#[trigger] run(initial(n), events).1[i] is Finish) ==> run(
                initial(n),
                events,
            ).1[i] == ActionView::Finish(Err(spec_transaction_error_to_datastore(e))),
{
    let s0 = initial(n);
    lemma_run_len(s0, events);
    lemma_accepted_shape(n, events);
    let s = run(s0, events).0;
    let acts = run(s0, events).1;
    if opening_at(n, events, s, acts) {
        assert(events[k as int] == BatchEvent::Start);
    } else if exists|x: TransactionError| #[trigger] begin_failed_at(x, events, s, acts) {
        let x = choose|x: TransactionError| #[trigger] begin_failed_at(x, events, s, acts);
        assert(events[k as int] !is Executed);
    } else if exists|j: nat| #[trigger] running_at(n, j, events, s, acts) {
        let j = choose|j: nat| #[trigger] running_at(n, j, events, s, acts);
        if k >= 2 {
            assert(events[k as int] == successes(j)[k - 2]);
        }
    } else if exists|j: nat, x: TransactionError| #[trigger] rolling_back_at(n, j, x, events, s, acts) {
        let (j, x) = choose|j: nat, x: TransactionError| #[trigger] rolling_back_at(n, j, x, events, s, acts);
        if 2 <= k < j + 2 {
            assert(events[k as int] == successes(j)[k - 2]);
        }
        assert(k == j + 2);
        assert forall|i: int| 0 <= i < events.len() implies !(#[trigger] acts[i] is Commit)
            && !(acts[i] is Finish) by {
            if 1 <= i < j + 2 {
                assert(acts[i] == executions(j + 1)[i - 1]);
            }
        }
    } else if exists|j: nat, x: TransactionError| #[trigger] rolled_back_at(n, j, x, events, s, acts) {
        let (j, x) = choose|j: nat, x: TransactionError| #[trigger] rolled_back_at(n, j, x, events, s, acts);
        if 2 <= k < j + 2 {
            assert(events[k as int] == successes(j)[k - 2]);
        }
        assert(k == j + 2);
        assert(x == e);
        assert forall|i: int| 0 <= i < events.len() implies !(#[trigger] acts[i] is Commit) && (
        acts[i] is Finish ==> acts[i] == ActionView::Finish(
            Err(spec_transaction_error_to_datastore(e)),
        )) by {
            if 1 <= i < j + 2 {
                assert(acts[i] == executions(j + 1)[i - 1]);
            }
        }
    } else {
        let r = choose|r: Result<(), TransactionError>| #[trigger] committed_at(n, r, events, s, acts);
        if 2 <= k < n + 2 {
            assert(events[k as int] == successes(n)[k - 2]);
        }
        assert(events[k as int] is Committed);
    }
}

/// A failed commit fails the batch: after every query succeeded, the batch reports
/// success exactly when the commit returned success, and a failed commit is reported
/// as an error; a database error is reported with its own description, and a conflict
/// with the conflict's description.
pub proof fn law_failed_commit_fails_the_batch(n: nat, r: Result<(), TransactionError>)
    ensures
        ({
            let acts = run(initial(n), commit_run(n, r)).1;
            &&& acts.len() == n + 3
            &&& acts[(n + 2) as int] matches ActionView::Finish(outcome) && (outcome is Ok <==> r is Ok)
            &&& r matches Err(TransactionError::DatabaseError(inner)) ==> acts[(n + 2) as int]
                == ActionView::Finish(Err(inner.details@))
            &&& r matches Err(TransactionError::Retryable) ==> acts[(n + 2) as int] == ActionView::Finish(
                Err("transaction conflict (retryable)"@),
            )
        }),
{
    law_commit_after_every_query(n, r);
    let acts = run(initial(n), commit_run(n, r)).1;
    assert(acts[(n + 2) as int] == ActionView::Finish(reported(r)));
}

} // verus!
