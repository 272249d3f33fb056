//! The per-request state machine shared by the three query shapes. It makes
//! every decision of a request; the caller performs each action it asks for
//! (normalization, reading the policy, the dispatch) and hands back the
//! outcome as the next event.

use vstd::prelude::*;

use crate::admission::{admits, check_strict_mode_batch, limit_exceeds, reports_first_violation, Pass, StrictModePolicy};
use crate::points::{public_points, PointGroupInternal, ScoredPointInternal};
use crate::query::{queries_of, BatchItem, QueryDescriptor, ReadConsistency, ReadParams};
use crate::response::{batch_responses, groups_response, single_response, GroupsResult, QueryError, QueryResponse, ServiceFailure};
use crate::shard::{resolve_shard_selector, spec_resolve_shard_selector, ShardKey};
use crate::usage::{merge_spec, InferenceUsage, UsageAccumulator};

verus! {

/// The three request shapes, which differ only in how they are dispatched
/// and what comes back.
#[derive(Clone, Copy, Debug, PartialEq, Eq, Structural)]
pub enum QueryShape {
    /// One query, answered by one ranked list.
    Single,
    /// An ordered batch of queries, answered by one ranked list each.
    Batch,
    /// One query whose answer the coordinator forms into groups.
    Grouped,
}

/// Where a request stands.
#[derive(Clone, Copy, Debug, PartialEq, Eq, Structural)]
pub enum Phase {
    Normalizing,
    AdmissionCheck,
    Dispatched,
    Assembled,
    Failed,
}

/// What the coordinator's answer became.
#[derive(Debug)]
pub enum QueryOutput {
    Single(QueryResponse),
    Batch(Vec<QueryResponse>),
    Groups(GroupsResult),
}

/// The outcome of a step performed for the request.
#[derive(Debug)]
pub enum Event {
    /// The query at the next position was normalized, possibly through the
    /// inference service, which may have reported usage.
    Normalized { query: QueryDescriptor, shard_key: Option<Vec<ShardKey>>, usage: Option<InferenceUsage> },
    /// Normalization of the next query failed.
    ConversionFailed(String),
    /// The collection's admission policy was read.
    PolicyLoaded(StrictModePolicy),
    /// The coordinator answered a single or batch dispatch.
    PointsReturned(Vec<Vec<ScoredPointInternal>>),
    /// The coordinator answered a grouped dispatch.
    GroupsReturned(Vec<PointGroupInternal>),
    /// The coordinator, or the collection's configuration, could not be
    /// reached.
    ServiceFailed(String),
    /// The deadline passed during dispatch.
    TimedOut,
}

/// What the request needs done next.
#[derive(Debug)]
pub enum Action {
    /// Normalize the query at this position of the submission.
    Normalize { index: usize },
    /// Read the collection's admission policy.
    FetchPolicy,
    /// Send the admitted items, in this order, to the coordinator.
    Dispatch {
        pass: Pass,
        shape: QueryShape,
        items: Vec<BatchItem>,
        consistency: Option<ReadConsistency>,
        timeout_secs: Option<u64>,
    },
    /// The request is over: send this outcome.
    Respond(Result<QueryOutput, QueryError>),
    /// The request is already over; nothing is left to do.
    Idle,
}

/// One request on its way through normalization, admission, dispatch and
/// assembly.
#[derive(Debug)]
pub struct QueryPipeline {
    pub shape: QueryShape,
    /// The number of queries submitted.
    pub total: usize,
    /// The items normalized so far, in submission order.
    pub batch: Vec<BatchItem>,
    /// The number of items handed to the coordinator.
    pub dispatched: usize,
    /// Inference usage merged over the request.
    pub usage: UsageAccumulator,
    pub params: ReadParams,
    pub phase: Phase,
}

/// The error that an event out of turn ends a request with.
pub open spec fn unexpected() -> QueryError {
    QueryError::Service(ServiceFailure::UnexpectedEvent)
}

/// The fields fixed when a request arrives.
pub open spec fn keeps_request(old: QueryPipeline, new: QueryPipeline) -> bool {
    new.shape == old.shape && new.total == old.total && new.params == old.params
}

/// A step taken while normalizing: the next item is appended in submission
/// order with its resolved shard selector and its usage merged; then either
/// the next query is normalized or, after the last, admission follows.
pub open spec fn normalizing_step(old: QueryPipeline, new: QueryPipeline, event: Event, action: Action) -> bool {
    match event {
        Event::Normalized { query, shard_key, usage } => {
            &&& new.batch@ == old.batch@.push(
                BatchItem { query, shard_selector: spec_resolve_shard_selector(shard_key) },
            )
            &&& new.usage == merge_spec(old.usage, usage)
            &&& new.dispatched == old.dispatched
            &&& if new.batch@.len() < old.total {
                new.phase is Normalizing && action == (Action::Normalize { index: new.batch@.len() as usize })
            } else {
                new.phase is AdmissionCheck && action is FetchPolicy
            }
        },
        Event::ConversionFailed(msg) => new.phase is Failed && new.usage == old.usage
            && action == Action::Respond(Err(QueryError::Conversion(msg))),
        _ => new.phase is Failed && new.usage == old.usage && action == Action::Respond(Err(unexpected())),
    }
}

/// A step taken at admission: the whole batch is sent, in order, with the
/// request's consistency and timeout, only if the policy admits every item;
/// otherwise the request fails with the first breach and nothing is sent.
/// A policy that could not be read fails the request too.
pub open spec fn admission_step(old: QueryPipeline, new: QueryPipeline, event: Event, action: Action) -> bool {
    &&& new.usage == old.usage
    &&& match event {
        Event::PolicyLoaded(policy) => if admits(policy, queries_of(old.batch@), old.params.timeout_secs) {
            &&& new.phase is Dispatched
            &&& new.dispatched == old.total
            &&& match action {
                Action::Dispatch { pass, shape, items, consistency, timeout_secs } => {
                    &&& pass.spec_len() == old.total
                    &&& shape == old.shape
                    &&& items@ == old.batch@
                    &&& consistency == old.params.consistency
                    &&& timeout_secs == old.params.timeout_secs
                },
                _ => false,
            }
        } else {
            &&& new.phase is Failed
            &&& match action {
                Action::Respond(Err(QueryError::Policy(v))) => reports_first_violation(
                    policy,
                    queries_of(old.batch@),
                    old.params.timeout_secs,
                    v,
                ),
                _ => false,
            }
        },
        Event::ServiceFailed(msg) => new.phase is Failed && action == Action::Respond(
            Err(QueryError::Service(ServiceFailure::Coordinator(msg))),
        ),
        _ => new.phase is Failed && action == Action::Respond(Err(unexpected())),
    }
}

/// What a single query's dispatch answer becomes: exactly one ranked list is
/// the response; none, or more than one, is a service error.
pub open spec fn single_outcome(res: Seq<Vec<ScoredPointInternal>>, action: Action) -> bool {
    match action {
        Action::Respond(Ok(QueryOutput::Single(resp))) => res.len() == 1 && resp.points@ == public_points(res[0]@),
        Action::Respond(Err(e)) => (res.len() == 0 && e == QueryError::Service(ServiceFailure::NoResponse))
            || (res.len() > 1 && e == QueryError::Service(
            ServiceFailure::CountMismatch { expected: 1, returned: res.len() as usize },
        )),
        _ => false,
    }
}

/// What a batch's dispatch answer becomes: one response per item sent, the
/// i-th from the i-th ranked list; a count that differs is a service error.
pub open spec fn batch_outcome(expected: usize, res: Seq<Vec<ScoredPointInternal>>, action: Action) -> bool {
    match action {
        Action::Respond(Ok(QueryOutput::Batch(v))) => {
            &&& res.len() == expected
            &&& v@.len() == expected
            &&& forall|i: int| 0 <= i < expected ==> (#[trigger] v@[i]).points@ == public_points(res[i]@)
        },
        Action::Respond(Err(e)) => res.len() != expected && e == QueryError::Service(
            ServiceFailure::CountMismatch { expected, returned: res.len() as usize },
        ),
        _ => false,
    }
}

/// What a grouped dispatch answer becomes: the same groups, in order.
pub open spec fn groups_outcome(groups: Seq<PointGroupInternal>, action: Action) -> bool {
    match action {
        Action::Respond(Ok(QueryOutput::Groups(r))) => {
            &&& r.groups@.len() == groups.len()
            &&& forall|i: int|
                0 <= i < groups.len() ==> #[trigger] r.groups@[i].id == groups[i].id
                    && r.groups@[i].hits@ == public_points(groups[i].hits@)
        },
        _ => false,
    }
}

/// A step taken after dispatch: the answer is checked against what was sent
/// and becomes the response, or the request fails.
pub open spec fn dispatched_step(old: QueryPipeline, new: QueryPipeline, event: Event, action: Action) -> bool {
    &&& new.usage == old.usage
    &&& new.batch == old.batch
    &&& new.dispatched == old.dispatched
    &&& (new.phase is Assembled || new.phase is Failed)
    &&& (new.phase is Assembled <==> (action is Respond && action->Respond_0 is Ok))
    &&& match event {
        Event::PointsReturned(res) => match old.shape {
            QueryShape::Single => single_outcome(res@, action),
            QueryShape::Batch => batch_outcome(old.dispatched, res@, action),
            QueryShape::Grouped => action == Action::Respond(Err(unexpected())),
        },
        Event::GroupsReturned(groups) => if old.shape is Grouped {
            groups_outcome(groups@, action)
        } else {
            action == Action::Respond(Err(unexpected()))
        },
        Event::ServiceFailed(msg) => action == Action::Respond(
            Err(QueryError::Service(ServiceFailure::Coordinator(msg))),
        ),
        Event::TimedOut => action == Action::Respond(Err(QueryError::Timeout)),
        _ => action == Action::Respond(Err(unexpected())),
    }
}

impl QueryPipeline {
    pub open spec fn wf(&self) -> bool {
        &&& (self.shape is Single || self.shape is Grouped) ==> self.total == 1
        &&& match self.phase {
            Phase::Normalizing => self.batch@.len() < self.total,
            Phase::AdmissionCheck => self.batch@.len() == self.total,
            Phase::Dispatched => self.batch@.len() == 0 && self.dispatched == self.total,
            _ => true,
        }
    }

    pub open spec fn is_terminal(&self) -> bool {
        self.phase is Assembled || self.phase is Failed
    }

    /// The state of a request of `total` queries that has just arrived.
    pub open spec fn received(shape: QueryShape, total: usize, params: ReadParams, p: QueryPipeline) -> bool {
        &&& p.shape == shape
        &&& p.total == total
        &&& p.batch@.len() == 0
        &&& p.dispatched == 0
        &&& p.usage == crate::usage::empty_usage()
        &&& p.params == params
        &&& p.phase == (if total == 0 { Phase::AdmissionCheck } else { Phase::Normalizing })
    }

    fn received_with(shape: QueryShape, total: usize, params: ReadParams) -> (r: QueryPipeline)
        requires
            (shape is Single || shape is Grouped) ==> total == 1,
        ensures
            r.wf(),
            Self::received(shape, total, params, r),
    {
        QueryPipeline {
            shape,
            total,
            batch: Vec::new(),
            dispatched: 0,
            usage: UsageAccumulator::new(),
            params,
            phase: if total == 0 { Phase::AdmissionCheck } else { Phase::Normalizing },
        }
    }

    /// A request of one query.
    pub fn new_single(params: ReadParams) -> (r: QueryPipeline)
        ensures
            r.wf(),
            Self::received(QueryShape::Single, 1, params, r),
    {
        Self::received_with(QueryShape::Single, 1, params)
    }

    /// A request of `total` queries, answered in submission order.
    pub fn new_batch(total: usize, params: ReadParams) -> (r: QueryPipeline)
        ensures
            r.wf(),
            Self::received(QueryShape::Batch, total, params, r),
    {
        Self::received_with(QueryShape::Batch, total, params)
    }

    /// A request of one grouped query.
    pub fn new_groups(params: ReadParams) -> (r: QueryPipeline)
        ensures
            r.wf(),
            Self::received(QueryShape::Grouped, 1, params, r),
    {
        Self::received_with(QueryShape::Grouped, 1, params)
    }

    /// The first action of a request that has just arrived: normalize its
    /// first query, or, for an empty batch, go straight to admission.
    pub fn first_action(&self) -> (action: Action)
        requires
            self.wf(),
            self.phase is Normalizing || self.phase is AdmissionCheck,
        ensures
            self.phase is Normalizing ==> action == (Action::Normalize { index: self.batch@.len() as usize }),
            self.phase is AdmissionCheck ==> action is FetchPolicy,
    {
        if self.phase == Phase::Normalizing {
            Action::Normalize { index: self.batch.len() }
        } else {
            Action::FetchPolicy
        }
    }

    fn fail(&mut self, error: QueryError) -> (action: Action)
        ensures
            final(self).phase is Failed,
            final(self).shape == old(self).shape,
            final(self).total == old(self).total,
            final(self).batch == old(self).batch,
            final(self).dispatched == old(self).dispatched,
            final(self).usage == old(self).usage,
            final(self).params == old(self).params,
            action == Action::Respond(Err(error)),
    {
        self.phase = Phase::Failed;
        Action::Respond(Err(error))
    }

    /// Ends the request with `result`: assembled if it succeeded, failed if not.
    fn finish(&mut self, result: Result<QueryOutput, QueryError>) -> (action: Action)
        ensures
            final(self).phase == (if result is Ok { Phase::Assembled } else { Phase::Failed }),
            final(self).shape == old(self).shape,
            final(self).total == old(self).total,
            final(self).batch == old(self).batch,
            final(self).dispatched == old(self).dispatched,
            final(self).usage == old(self).usage,
            final(self).params == old(self).params,
            action == Action::Respond(result),
    {
        self.phase = if result.is_ok() { Phase::Assembled } else { Phase::Failed };
        Action::Respond(result)
    }
    fn on_normalizing(&mut self, event: Event) -> (action: Action)
        requires
            old(self).wf(),
            old(self).phase is Normalizing,
        ensures
            final(self).wf(),
            keeps_request(*old(self), *final(self)),
            normalizing_step(*old(self), *final(self), event, action),
    {
        match event {
            Event::Normalized { query, shard_key, usage } => {
                let shard_selector = resolve_shard_selector(shard_key);
                self.batch.push(BatchItem { query, shard_selector });
                self.usage.merge_opt(usage);
                if self.batch.len() < self.total {
                    Action::Normalize { index: self.batch.len() }
                } else {
                    self.phase = Phase::AdmissionCheck;
                    Action::FetchPolicy
                }
            },
            Event::ConversionFailed(msg) => self.fail(QueryError::Conversion(msg)),
            _ => self.fail(QueryError::Service(ServiceFailure::UnexpectedEvent)),
        }
    }

    fn on_admission(&mut self, event: Event) -> (action: Action)
        requires
            old(self).wf(),
            old(self).phase is AdmissionCheck,
        ensures
            final(self).wf(),
            keeps_request(*old(self), *final(self)),
            admission_step(*old(self), *final(self), event, action),
    {
        match event {
            Event::PolicyLoaded(policy) => {
                match check_strict_mode_batch(&policy, &self.batch, self.params.timeout_secs) {
                    Ok(pass) => {
                        let mut items: Vec<BatchItem> = Vec::new();
                        std::mem::swap(&mut items, &mut self.batch);
                        self.dispatched = self.total;
                        self.phase = Phase::Dispatched;
                        Action::Dispatch {
                            pass,
                            shape: self.shape,
                            items,
                            consistency: self.params.consistency,
                            timeout_secs: self.params.timeout_secs,
                        }
                    },
                    Err(v) => self.fail(QueryError::Policy(v)),
                }
            },
            Event::ServiceFailed(msg) => self.fail(QueryError::Service(ServiceFailure::Coordinator(msg))),
            _ => self.fail(QueryError::Service(ServiceFailure::UnexpectedEvent)),
        }
    }

    fn on_dispatched(&mut self, event: Event) -> (action: Action)
        requires
            old(self).wf(),
            old(self).phase is Dispatched,
        ensures
            final(self).wf(),
            keeps_request(*old(self), *final(self)),
            dispatched_step(*old(self), *final(self), event, action),
    {
        match event {
            Event::PointsReturned(res) => match self.shape {
                QueryShape::Single => {
                    let out = match single_response(res) {
                        Ok(resp) => Ok(QueryOutput::Single(resp)),
                        Err(e) => Err(e),
                    };
                    self.finish(out)
                },
                QueryShape::Batch => {
                    let out = match batch_responses(self.dispatched, res) {
                        Ok(v) => Ok(QueryOutput::Batch(v)),
                        Err(e) => Err(e),
                    };
                    self.finish(out)
                },
                QueryShape::Grouped => self.fail(QueryError::Service(ServiceFailure::UnexpectedEvent)),
            },
            Event::GroupsReturned(groups) => {
                if self.shape == QueryShape::Grouped {
                    self.finish(Ok(QueryOutput::Groups(groups_response(groups))))
                } else {
                    self.fail(QueryError::Service(ServiceFailure::UnexpectedEvent))
                }
            },
            Event::ServiceFailed(msg) => self.fail(QueryError::Service(ServiceFailure::Coordinator(msg))),
            Event::TimedOut => self.fail(QueryError::Timeout),
            _ => self.fail(QueryError::Service(ServiceFailure::UnexpectedEvent)),
        }
    }

    /// Takes the outcome of the last action and decides the next one.
    /// Nothing is dispatched unless the whole batch was normalized and then
    /// admitted, and a request that is over ignores further events.
    pub fn on_event(&mut self, event: Event) -> (action: Action)
        requires
            old(self).wf(),
        ensures
            final(self).wf(),
            keeps_request(*old(self), *final(self)),
            old(self).is_terminal() ==> *final(self) == *old(self) && action is Idle,
            old(self).phase is Normalizing ==> normalizing_step(*old(self), *final(self), event, action),
            old(self).phase is AdmissionCheck ==> admission_step(*old(self), *final(self), event, action),
            old(self).phase is Dispatched ==> dispatched_step(*old(self), *final(self), event, action),
            action is Dispatch ==> old(self).phase is AdmissionCheck && event is PolicyLoaded && admits(
                event->PolicyLoaded_0,
                queries_of(old(self).batch@),
                old(self).params.timeout_secs,
            ),
            (old(self).phase is AdmissionCheck && event is PolicyLoaded && exists|i: int|
                0 <= i < old(self).batch@.len() && limit_exceeds(
                    event->PolicyLoaded_0,
                    #[trigger] queries_of(old(self).batch@)[i],
                )) ==> final(self).phase is Failed && !(action is Dispatch),
    {
        match self.phase {
            Phase::Normalizing => self.on_normalizing(event),
            Phase::AdmissionCheck => self.on_admission(event),
            Phase::Dispatched => self.on_dispatched(event),
            _ => Action::Idle,
        }
    }
}

/// A batch request that completes answers every submitted query, and the
/// i-th response comes from the coordinator's i-th ranked list.
pub proof fn lemma_batch_answers_every_item(
    old: QueryPipeline,
    new: QueryPipeline,
    event: Event,
    action: Action,
)
    requires
        old.wf(),
        old.shape is Batch,
        old.phase is Dispatched,
        dispatched_step(old, new, event, action),
        action is Respond && action->Respond_0 is Ok,
    ensures
        event is PointsReturned,
        action->Respond_0->Ok_0 is Batch,
        action->Respond_0->Ok_0->Batch_0@.len() == old.total,
        event->PointsReturned_0@.len() == old.total,
        forall|i: int|
            0 <= i < old.total ==> (#[trigger] action->Respond_0->Ok_0->Batch_0@[i]).points@
                == public_points(event->PointsReturned_0@[i]@),
{
}

} // verus!
