//! Handler: extracts the object context from the invocation event, drives
//! fetch, transform and publish in sequence, and maps each step's outcome to
//! the invocation's terminal result.
use vstd::prelude::*;
use crate::fetch::{FetchError, GetFile};
use crate::publish::{PublishError, PutFile};
use crate::thumb::{TransformError, get_thumbnail};

verus! {

/// The per-request bundle the platform hands the handler: where to read the
/// original object, and the one-time route and token for the response.
#[derive(Clone, Debug)]
pub struct ObjectContext {
    pub input_s3_url: String,
    pub output_route: String,
    pub output_token: String,
}

/// One invocation's payload: the platform owes it exactly one object
/// context; its absence is a fatal input error.
#[derive(Clone, Debug)]
pub struct InvocationEvent {
    pub get_object_context: Option<ObjectContext>,
}

/// What makes a whole invocation fail.
#[derive(Clone, Debug)]
pub enum HandlerError {
    /// The event carried no object context.
    MissingContext,
    /// The original object could not be retrieved.
    Retrieval(FetchError),
    /// The thumbnail could not be derived.
    Transformation(TransformError),
    /// The response could not be submitted; reported only under the
    /// escalating policy.
    Publication(PublishError),
}

/// Whether a failed submission fails the whole invocation. The platform has
/// its own channel for an unfulfilled response, so absorbing the failure is
/// the default; escalating it is the stricter alternative.
#[derive(Clone, Copy, Debug, PartialEq, Eq, Structural)]
pub enum PublishPolicy {
    AbsorbFailure,
    EscalateFailure,
}

/// Takes the one object context out of the event; an event without one fails
/// the invocation before any other step.
pub fn extract_context(event: InvocationEvent) -> (r: Result<ObjectContext, HandlerError>)
    ensures
        event.get_object_context is Some ==> r == Ok::<ObjectContext, HandlerError>(
            event.get_object_context->0,
        ),
        event.get_object_context is None ==> r == Err::<ObjectContext, HandlerError>(
            HandlerError::MissingContext,
        ),
{
    match event.get_object_context {
        Some(context) => Ok(context),
        None => Err(HandlerError::MissingContext),
    }
}

/// Drives one invocation: context, fetch, transform, publish. Fetch and
/// transform failures abort it; a publish failure is classified and, under
/// the absorbing policy, the invocation still succeeds.
pub fn function_handler<T: GetFile + PutFile>(
    event: InvocationEvent,
    size: u32,
    client: &T,
    policy: PublishPolicy,
) -> (r: Result<(), HandlerError>)
    requires
        1 <= size,
    ensures
        event.get_object_context is None <==> r == Err::<(), HandlerError>(
            HandlerError::MissingContext,
        ),
        policy is AbsorbFailure ==> !(r matches Err(HandlerError::Publication(_))),
        r matches Err(HandlerError::Publication(_)) ==> policy is EscalateFailure,
{
    let context = match extract_context(event) {
        Ok(context) => context,
        Err(e) => {
            return Err(e);
        },
    };
    let image = match client.get_file(context.input_s3_url) {
        Ok(image) => image,
        Err(e) => {
            return Err(HandlerError::Retrieval(e));
        },
    };
    let thumbnail = match get_thumbnail(&image, size) {
        Ok(thumbnail) => thumbnail,
        Err(e) => {
            return Err(HandlerError::Transformation(e));
        },
    };
    match client.put_file(context.output_route, context.output_token, thumbnail) {
        Ok(_message) => Ok(()),
        Err(e) => {
            match policy {
                PublishPolicy::AbsorbFailure => Ok(()),
                PublishPolicy::EscalateFailure => Err(HandlerError::Publication(e)),
            }
        },
    }
}

/// The phases one invocation passes through; `Done` and `Failed` are
/// terminal.
#[derive(Clone, Copy, Debug, PartialEq, Eq, Structural)]
pub enum Phase {
    Start,
    ContextExtracted,
    Fetched,
    Transformed,
    Done,
    Failed,
}

/// The outcome of the step a phase is waiting on.
#[derive(Clone, Copy, Debug, PartialEq, Eq, Structural)]
pub enum PhaseEvent {
    ContextFound,
    ContextMissing,
    FetchSucceeded,
    FetchFailed,
    TransformSucceeded,
    TransformFailed,
    PublishSucceeded,
    PublishFailed,
}

/// Which component each phase invokes: the fetcher runs from
/// `ContextExtracted`, the transformer from `Fetched`, the publisher from
/// `Transformed`; terminal phases invoke nothing.
pub open spec fn spec_invokes_fetcher(p: Phase) -> bool {
    p is ContextExtracted
}

pub open spec fn spec_invokes_transformer(p: Phase) -> bool {
    p is Fetched
}

pub open spec fn spec_invokes_publisher(p: Phase) -> bool {
    p is Transformed
}

/// The invocation's state machine: how each phase moves on the outcome of
/// its own step. An outcome that is not the one the phase waits on moves
/// nothing, and the terminal phases absorb everything.
pub open spec fn spec_phase_after(policy: PublishPolicy, p: Phase, e: PhaseEvent) -> Phase {
    match (p, e) {
        (Phase::Start, PhaseEvent::ContextFound) => Phase::ContextExtracted,
        (Phase::Start, PhaseEvent::ContextMissing) => Phase::Failed,
        (Phase::ContextExtracted, PhaseEvent::FetchSucceeded) => Phase::Fetched,
        (Phase::ContextExtracted, PhaseEvent::FetchFailed) => Phase::Failed,
        (Phase::Fetched, PhaseEvent::TransformSucceeded) => Phase::Transformed,
        (Phase::Fetched, PhaseEvent::TransformFailed) => Phase::Failed,
        (Phase::Transformed, PhaseEvent::PublishSucceeded) => Phase::Done,
        (Phase::Transformed, PhaseEvent::PublishFailed) => if policy is AbsorbFailure {
            Phase::Done
        } else {
            Phase::Failed
        },
        _ => p,
    }
}

/// The phase reached from `from` after a whole run of step outcomes.
pub open spec fn spec_run_phases(policy: PublishPolicy, from: Phase, events: Seq<PhaseEvent>) -> Phase
    decreases events.len(),
{
    if events.len() == 0 {
        from
    } else {
        spec_run_phases(policy, spec_phase_after(policy, from, events.first()), events.drop_first())
    }
}

/// Whether some point of the run, the start included, stands at `target`.
pub open spec fn spec_reaches(
    policy: PublishPolicy,
    from: Phase,
    events: Seq<PhaseEvent>,
    target: Phase,
) -> bool {
    exists|i: int| 0 <= i <= events.len() && spec_run_phases(policy, from, events.take(i)) == target
}

proof fn lemma_run_phases_snoc(policy: PublishPolicy, from: Phase, events: Seq<PhaseEvent>, e: PhaseEvent)
    ensures
        spec_run_phases(policy, from, events.push(e)) == spec_phase_after(
            policy,
            spec_run_phases(policy, from, events),
            e,
        ),
    decreases events.len(),
{
    if events.len() == 0 {
        assert(events.push(e).first() == e);
        assert(events.push(e).drop_first() =~= Seq::<PhaseEvent>::empty());
        assert(spec_run_phases(policy, from, events.push(e)) == spec_run_phases(
            policy,
            spec_phase_after(policy, from, e),
            Seq::<PhaseEvent>::empty(),
        ));
    } else {
        assert(events.push(e).first() == events.first());
        assert(events.push(e).drop_first() =~= events.drop_first().push(e));
        lemma_run_phases_snoc(
            policy,
            spec_phase_after(policy, from, events.first()),
            events.drop_first(),
            e,
        );
        assert(spec_run_phases(policy, from, events.push(e)) == spec_run_phases(
            policy,
            spec_phase_after(policy, from, events.first()),
            events.drop_first().push(e),
        ));
        assert(spec_run_phases(policy, from, events) == spec_run_phases(
            policy,
            spec_phase_after(policy, from, events.first()),
            events.drop_first(),
        ));
    }
}

proof fn lemma_entered_only_from(
    policy: PublishPolicy,
    events: Seq<PhaseEvent>,
    i: int,
    target: Phase,
    source: Phase,
)
    requires
        0 <= i <= events.len(),
        target != Phase::Start,
        spec_run_phases(policy, Phase::Start, events.take(i)) == target,
        forall|p: Phase, e: PhaseEvent|
            spec_phase_after(policy, p, e) == target ==> p == source || p == target,
    ensures
        exists|j: int|
            0 <= j < i && spec_run_phases(policy, Phase::Start, events.take(j)) == source,
    decreases i,
{
    assert(events.take(0) =~= Seq::<PhaseEvent>::empty());
    let prev = spec_run_phases(policy, Phase::Start, events.take(i - 1));
    assert(events.take(i) =~= events.take(i - 1).push(events[i - 1]));
    lemma_run_phases_snoc(policy, Phase::Start, events.take(i - 1), events[i - 1]);
    if prev == source {
    } else {
        lemma_entered_only_from(policy, events, i - 1, target, source);
    }
}

/// Ordering law: the pipeline is strictly sequential. A run that stands at
/// the phase that invokes the publisher stood earlier at the phase that
/// invokes the transformer, and one that stands there stood earlier still at
/// the phase that invokes the fetcher.
pub proof fn lemma_pipeline_order(policy: PublishPolicy, events: Seq<PhaseEvent>, i: int)
    requires
        0 <= i <= events.len(),
    ensures
        spec_invokes_publisher(spec_run_phases(policy, Phase::Start, events.take(i))) ==> exists|
            j: int,
        |
            0 <= j < i && spec_invokes_transformer(
                spec_run_phases(policy, Phase::Start, events.take(j)),
            ),
        spec_invokes_transformer(spec_run_phases(policy, Phase::Start, events.take(i))) ==> exists|
            j: int,
        |
            0 <= j < i && spec_invokes_fetcher(
                spec_run_phases(policy, Phase::Start, events.take(j)),
            ),
{
    if spec_run_phases(policy, Phase::Start, events.take(i)) == Phase::Transformed {
        lemma_entered_only_from(policy, events, i, Phase::Transformed, Phase::Fetched);
    }
    if spec_run_phases(policy, Phase::Start, events.take(i)) == Phase::Fetched {
        lemma_entered_only_from(policy, events, i, Phase::Fetched, Phase::ContextExtracted);
    }
}

/// A failed invocation stays failed: no later outcome moves it anywhere.
pub proof fn lemma_failed_is_terminal(policy: PublishPolicy, events: Seq<PhaseEvent>)
    ensures
        spec_run_phases(policy, Phase::Failed, events) == Phase::Failed,
    decreases events.len(),
{
    if events.len() > 0 {
        lemma_failed_is_terminal(policy, events.drop_first());
    }
}

/// Pipeline short-circuit law: when the fetch step fails, the invocation is
/// failed at once, and no later point of that invocation stands at a phase
/// that invokes the transformer or the publisher.
pub proof fn lemma_fetch_failure_short_circuits(policy: PublishPolicy, rest: Seq<PhaseEvent>)
    ensures
        spec_phase_after(policy, Phase::ContextExtracted, PhaseEvent::FetchFailed) == Phase::Failed,
        forall|p: Phase|
            spec_reaches(policy, Phase::Failed, rest, p) ==> !spec_invokes_transformer(p)
                && !spec_invokes_publisher(p),
{
    assert forall|i: int| 0 <= i <= rest.len() implies spec_run_phases(
        policy,
        Phase::Failed,
        rest.take(i),
    ) == Phase::Failed by {
        lemma_failed_is_terminal(policy, rest.take(i));
    }
}

/// Pipeline short-circuit law: when the transform step fails, the invocation
/// is failed at once, and no later point of that invocation stands at the
/// phase that invokes the publisher.
pub proof fn lemma_transform_failure_short_circuits(policy: PublishPolicy, rest: Seq<PhaseEvent>)
    ensures
        spec_phase_after(policy, Phase::Fetched, PhaseEvent::TransformFailed) == Phase::Failed,
        forall|p: Phase|
            spec_reaches(policy, Phase::Failed, rest, p) ==> !spec_invokes_publisher(p),
{
    assert forall|i: int| 0 <= i <= rest.len() implies spec_run_phases(
        policy,
        Phase::Failed,
        rest.take(i),
    ) == Phase::Failed by {
        lemma_failed_is_terminal(policy, rest.take(i));
    }
}

/// Publish independence law: under the absorbing policy, a failed submission
/// terminates the invocation in the same phase as a successful one, so the
/// invocation's outcome does not depend on the publisher.
pub proof fn lemma_publish_failure_preserves_outcome()
    ensures
        spec_phase_after(PublishPolicy::AbsorbFailure, Phase::Transformed, PhaseEvent::PublishFailed)
            == Phase::Done,
        spec_phase_after(
            PublishPolicy::AbsorbFailure,
            Phase::Transformed,
            PhaseEvent::PublishSucceeded,
        ) == Phase::Done,
{
}

} // verus!
