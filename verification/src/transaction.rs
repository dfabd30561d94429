//! The decisions that run a batch of queries in one transaction.
//!
//! Opening a transaction, running a query, rolling back and committing are asynchronous
//! calls made by the caller. [`TransactionBatch`] decides, from what the previous call
//! returned, which call comes next and what the batch finally reports:
//! the transaction is opened under the default policy, queries run in order, the
//! transaction is committed only when every query succeeded, and it is rolled back as
//! soon as one fails.
use crate::error::{
    spec_transaction_error_to_datastore, transaction_error_to_datastore, DataStoreError,
    TransactionError, TransactionPolicy,
};
use crate::query::{ParameterizedQuery, QueryView};
use vstd::prelude::*;

verus! {

/// Where a batch stands.
#[derive(Clone, Copy, Debug, PartialEq, Eq, Structural)]
pub enum BatchPhase {
    /// Nothing has been asked for yet.
    Ready,
    /// Waiting for the transaction to open.
    Beginning,
    /// Waiting for a query to finish.
    Executing,
    /// A query failed; waiting for the rollback to finish.
    RollingBack,
    /// Every query succeeded; waiting for the commit to finish.
    Committing,
    /// The outcome has been reported.
    Done,
}

/// What the caller reports back to the batch.
#[derive(Debug)]
pub enum BatchEvent {
    /// The caller wants the batch to run.
    Start,
    /// Opening the transaction finished.
    Begun(Result<(), TransactionError>),
    /// The last query handed out finished (its rows are of no interest here).
    Executed(Result<(), TransactionError>),
    /// The rollback finished; whatever it returned is ignored.
    RolledBack,
    /// The commit finished.
    Committed(Result<(), TransactionError>),
}

/// What the batch asks the caller to do next.
#[derive(Debug)]
pub enum BatchAction {
    /// Open a transaction under this policy.
    Begin(TransactionPolicy),
    /// Run this query inside the transaction.
    Execute(ParameterizedQuery),
    /// Roll the transaction back.
    Rollback,
    /// Commit the transaction.
    Commit,
    /// Stop and report this outcome.
    Finish(Result<(), DataStoreError>),
}

/// The abstract state of a batch: its phase, how many queries have been handed out,
/// how many there are, and the description of the failure being rolled back.
#[verifier::ext_equal]
pub struct BatchState {
    pub phase: BatchPhase,
    pub executed: nat,
    pub total: nat,
    pub failure: Seq<char>,
}

/// An abstract action: the index of the query to run stands for the query.
/// `Refused` is the answer to an event that does not answer the pending action.
pub enum ActionView {
    Begin,
    Execute(nat),
    Rollback,
    Commit,
    Finish(Result<(), Seq<char>>),
    Refused,
}

/// The state of a batch of `n` queries before anything happened.
pub open spec fn initial(n: nat) -> BatchState {
    BatchState { phase: BatchPhase::Ready, executed: 0, total: n, failure: Seq::empty() }
}

/// The outcome reported for what a call into the transaction returned.
pub open spec fn reported(r: Result<(), TransactionError>) -> Result<(), Seq<char>> {
    match r {
        Ok(_) => Ok(()),
        Err(e) => Err(spec_transaction_error_to_datastore(e)),
    }
}

/// Whether `e` answers the action the batch in state `s` is waiting on.
pub open spec fn awaits(s: BatchState, e: BatchEvent) -> bool {
    match e {
        BatchEvent::Start => s.phase == BatchPhase::Ready,
        BatchEvent::Begun(_) => s.phase == BatchPhase::Beginning,
        BatchEvent::Executed(_) => s.phase == BatchPhase::Executing,
        BatchEvent::RolledBack => s.phase == BatchPhase::RollingBack,
        BatchEvent::Committed(_) => s.phase == BatchPhase::Committing,
    }
}

/// After a successful call: run the next query, or commit when none is left.
pub open spec fn proceed(s: BatchState) -> (BatchState, ActionView) {
    if s.executed < s.total {
        (
            BatchState { phase: BatchPhase::Executing, executed: s.executed + 1, ..s },
            ActionView::Execute(s.executed),
        )
    } else {
        (BatchState { phase: BatchPhase::Committing, ..s }, ActionView::Commit)
    }
}

/// One decision: the state after `e` and the action it calls for.
pub open spec fn step(s: BatchState, e: BatchEvent) -> (BatchState, ActionView) {
    if !awaits(s, e) {
        (s, ActionView::Refused)
    } else {
        match e {
            BatchEvent::Start => (BatchState { phase: BatchPhase::Beginning, ..s }, ActionView::Begin),
            BatchEvent::Begun(Err(x)) => (
                BatchState { phase: BatchPhase::Done, ..s },
                ActionView::Finish(Err(spec_transaction_error_to_datastore(x))),
            ),
            BatchEvent::Begun(Ok(_)) => proceed(s),
            BatchEvent::Executed(Ok(_)) => proceed(s),
            BatchEvent::Executed(Err(x)) => (
                BatchState {
                    phase: BatchPhase::RollingBack,
                    failure: spec_transaction_error_to_datastore(x),
                    ..s
                },
                ActionView::Rollback,
            ),
            BatchEvent::RolledBack => (
                BatchState { phase: BatchPhase::Done, failure: Seq::empty(), ..s },
                ActionView::Finish(Err(s.failure)),
            ),
            BatchEvent::Committed(r) => (
                BatchState { phase: BatchPhase::Done, ..s },
                ActionView::Finish(reported(r)),
            ),
        }
    }
}

/// Whether the executable action `a` is the abstract action `v`, queries being taken
/// from `planned`.
pub open spec fn realizes(a: BatchAction, v: ActionView, planned: Seq<QueryView>) -> bool {
    match v {
        ActionView::Begin => a matches BatchAction::Begin(p) && p == TransactionPolicy::Default,
        ActionView::Execute(i) => a matches BatchAction::Execute(q) && i < planned.len()
            && q@ == planned[i as int],
        ActionView::Rollback => a is Rollback,
        ActionView::Commit => a is Commit,
        ActionView::Finish(r) => a matches BatchAction::Finish(x) && match (x, r) {
            (Ok(_), Ok(_)) => true,
            (Err(xe), Err(re)) => xe.details@ == re,
            _ => false,
        },
        ActionView::Refused => false,
    }
}

/// Runs a batch of queries in one transaction, one decision at a time.
pub struct TransactionBatch {
    pending: Vec<ParameterizedQuery>,
    executed: usize,
    total: usize,
    phase: BatchPhase,
    failure: Option<DataStoreError>,
    planned: Ghost<Seq<QueryView>>,
}

impl View for TransactionBatch {
    type V = BatchState;

    closed spec fn view(&self) -> BatchState {
        BatchState {
            phase: self.phase,
            executed: self.executed as nat,
            total: self.total as nat,
            failure: match self.failure {
                Some(f) => f.details@,
                None => Seq::empty(),
            },
        }
    }
}

impl TransactionBatch {
    /// The queries of the batch, in the order they run.
    pub closed spec fn planned(&self) -> Seq<QueryView> {
        self.planned@
    }

    #[verifier::type_invariant]
    closed spec fn well_formed(&self) -> bool {
        &&& self.executed <= self.total
        &&& self.planned@.len() == self.total
        &&& self.pending@.len() == self.total - self.executed
        &&& forall|i: int|
            0 <= i < self.pending@.len() ==> #[trigger] self.pending@[i]@ == self.planned@[self.executed
                + i]
        &&& (self.phase == BatchPhase::RollingBack) == (self.failure is Some)
        &&& (self.phase == BatchPhase::Ready || self.phase == BatchPhase::Beginning) ==> self.executed
            == 0
        &&& self.phase == BatchPhase::Executing ==> self.executed >= 1
        &&& self.phase == BatchPhase::Committing ==> self.executed == self.total
    }

    /// A batch that will run `queries`, in order, in one transaction.
    pub fn new(queries: Vec<ParameterizedQuery>) -> (b: TransactionBatch)
        ensures
            b@ == initial(queries@.len()),
            b.planned() == queries@.map_values(|q: ParameterizedQuery| q@),
    {
        let total = queries.len();
        let ghost planned = queries@.map_values(|q: ParameterizedQuery| q@);
        TransactionBatch {
            pending: queries,
            executed: 0,
            total,
            phase: BatchPhase::Ready,
            failure: None,
            planned: Ghost(planned),
        }
    }

    /// Where the batch stands.
    pub fn phase(&self) -> (p: BatchPhase)
        ensures
            p == self@.phase,
    {
        self.phase
    }

    /// Whether `event` answers the action the batch is waiting on.
    pub fn is_awaiting(&self, event: &BatchEvent) -> (b: bool)
        ensures
            b == awaits(self@, *event),
    {
        match event {
            BatchEvent::Start => self.phase == BatchPhase::Ready,
            BatchEvent::Begun(_) => self.phase == BatchPhase::Beginning,
            BatchEvent::Executed(_) => self.phase == BatchPhase::Executing,
            BatchEvent::RolledBack => self.phase == BatchPhase::RollingBack,
            BatchEvent::Committed(_) => self.phase == BatchPhase::Committing,
        }
    }

    /// Hands out the next query, or asks for the commit when none is left.
    fn hand_out_next(self) -> (r: (TransactionBatch, BatchAction))
        requires
            self.phase == BatchPhase::Beginning || self.phase == BatchPhase::Executing,
        ensures
            r.0@ == proceed(self@).0,
            realizes(r.1, proceed(self@).1, self.planned()),
            r.0.planned() == self.planned(),
    {
        proof {
            use_type_invariant(&self);
        }
        let TransactionBatch { mut pending, executed, total, phase, failure, planned } = self;
        if executed < total {
            let query = pending.remove(0);
            let next = TransactionBatch {
                pending,
                executed: executed + 1,
                total,
                phase: BatchPhase::Executing,
                failure,
                planned,
            };
            (next, BatchAction::Execute(query))
        } else {
            let next = TransactionBatch {
                pending,
                executed,
                total,
                phase: BatchPhase::Committing,
                failure,
                planned,
            };
            (next, BatchAction::Commit)
        }
    }

    /// Takes what the last call returned and decides the next call, or the outcome.
    pub fn advance(self, event: BatchEvent) -> (r: (TransactionBatch, BatchAction))
        requires
            awaits(self@, event),
        ensures
            r.0@ == step(self@, event).0,
            realizes(r.1, step(self@, event).1, self.planned()),
            r.0.planned() == self.planned(),
            event matches BatchEvent::Committed(res) ==> r.1 matches BatchAction::Finish(out) && (
            out is Ok <==> res is Ok),
            event matches BatchEvent::Committed(Err(TransactionError::DatabaseError(inner)))
                ==> r.1 matches BatchAction::Finish(Err(d)) && d == inner,
            event matches BatchEvent::Committed(Err(TransactionError::Retryable))
                ==> r.1 matches BatchAction::Finish(Err(d)) && d.details@
                == "transaction conflict (retryable)"@,
            event matches BatchEvent::Begun(Err(TransactionError::DatabaseError(inner)))
                ==> r.1 matches BatchAction::Finish(Err(d)) && d == inner,
            event matches BatchEvent::Executed(Err(_)) ==> r.1 is Rollback,
    {
        proof {
            use_type_invariant(&self);
        }
        match event {
            BatchEvent::Begun(Ok(())) => self.hand_out_next(),
            BatchEvent::Executed(Ok(())) => self.hand_out_next(),
            BatchEvent::Start => {
                let TransactionBatch { pending, executed, total, phase, failure, planned } = self;
                let next = TransactionBatch {
                    pending,
                    executed,
                    total,
                    phase: BatchPhase::Beginning,
                    failure,
                    planned,
                };
                (next, BatchAction::Begin(TransactionPolicy::Default))
            },
            BatchEvent::Begun(Err(error)) => {
                let TransactionBatch { pending, executed, total, phase, failure, planned } = self;
                let next = TransactionBatch {
                    pending,
                    executed,
                    total,
                    phase: BatchPhase::Done,
                    failure,
                    planned,
                };
                (next, BatchAction::Finish(Err(transaction_error_to_datastore(error))))
            },
            BatchEvent::Executed(Err(error)) => {
                let TransactionBatch { pending, executed, total, phase, failure, planned } = self;
                let next = TransactionBatch {
                    pending,
                    executed,
                    total,
                    phase: BatchPhase::RollingBack,
                    failure: Some(transaction_error_to_datastore(error)),
                    planned,
                };
                (next, BatchAction::Rollback)
            },
            BatchEvent::RolledBack => {
                let TransactionBatch { pending, executed, total, phase, failure, planned } = self;
                let next = TransactionBatch {
                    pending,
                    executed,
                    total,
                    phase: BatchPhase::Done,
                    failure: None,
                    planned,
                };
                // A batch that is rolling back always holds its failure, so the
                // second arm is never taken.
                match failure {
                    Some(error) => (next, BatchAction::Finish(Err(error))),
                    None => (next, BatchAction::Finish(Ok(()))),
                }
            },
            BatchEvent::Committed(result) => {
                let TransactionBatch { pending, executed, total, phase, failure, planned } = self;
                let next = TransactionBatch {
                    pending,
                    executed,
                    total,
                    phase: BatchPhase::Done,
                    failure,
                    planned,
                };
                let outcome = match result {
                    Ok(()) => Ok(()),
                    Err(error) => Err(transaction_error_to_datastore(error)),
                };
                (next, BatchAction::Finish(outcome))
            },
        }
    }
}

} // verus!
