use vstd::prelude::*;
use crate::auth::{AuthSpec, Lookup, Verdicts};
use crate::lock::{ResourceLockTable, ScopedGuard};
use crate::model::{
    AuthError, AuthenticationContext, DomainError, Flow, LockAction, Request, ValidationError,
};

verus! {

/// What a response carries besides its status.
#[derive(Clone, Copy, Debug, PartialEq, Eq, Structural)]
pub enum Body {
    /// The handler succeeded; its payload goes out as it is.
    Payload,
    Unauthorized(AuthError),
    Contention,
    Invalid(ValidationError),
    Failure(DomainError),
}

/// The envelope every request ends in, tagged with the flow it belongs to.
#[derive(Clone, Copy, Debug, PartialEq, Eq, Structural)]
pub struct Response {
    pub status: u16,
    pub flow: Flow,
    pub body: Body,
}

/// Status of an authentication failure: forbidden where the caller is
/// known but lacks the permission, unauthorized otherwise.
pub open spec fn auth_status(error: AuthError) -> u16 {
    match error {
        AuthError::InsufficientPermission => 403,
        _ => 401,
    }
}

/// Status of a failure that the handler reported.
pub open spec fn domain_status(error: DomainError) -> u16 {
    match error {
        DomainError::NotFound => 404,
        DomainError::Conflict => 409,
        DomainError::Internal => 500,
    }
}

/// The response to a request that failed authentication.
pub open spec fn unauthorized(flow: Flow, error: AuthError) -> Response {
    Response { status: auth_status(error), flow, body: Body::Unauthorized(error) }
}

/// The response to a request whose resource stayed held: a conflict.
pub open spec fn contended(flow: Flow) -> Response {
    Response { status: 409, flow, body: Body::Contention }
}

/// The response to input that was refused.
pub open spec fn invalid(flow: Flow, error: ValidationError) -> Response {
    Response { status: 400, flow, body: Body::Invalid(error) }
}

/// The response for what the handler returned: 200 for success, else the
/// status of the failure, which is passed on as it came.
pub open spec fn concluded(flow: Flow, outcome: Result<(), DomainError>) -> Response {
    match outcome {
        Ok(_) => Response { status: 200, flow, body: Body::Payload },
        Err(error) => Response { status: domain_status(error), flow, body: Body::Failure(error) },
    }
}

impl Response {
    /// Builds the response to a request that failed authentication.
    pub fn for_auth_failure(flow: Flow, error: AuthError) -> (r: Response)
        ensures
            r == unauthorized(flow, error),
    {
        let status: u16 = match error {
            AuthError::InsufficientPermission => 403,
            _ => 401,
        };
        Response { status, flow, body: Body::Unauthorized(error) }
    }

    /// Builds the response to a request whose resource stayed held.
    pub fn for_contention(flow: Flow) -> (r: Response)
        ensures
            r == contended(flow),
    {
        Response { status: 409, flow, body: Body::Contention }
    }

    /// Builds the response to input that was refused.
    pub fn for_invalid_input(flow: Flow, error: ValidationError) -> (r: Response)
        ensures
            r == invalid(flow, error),
    {
        Response { status: 400, flow, body: Body::Invalid(error) }
    }

    /// Builds the response for what the handler returned.
    pub fn for_outcome(flow: Flow, outcome: Result<(), DomainError>) -> (r: Response)
        ensures
            r == concluded(flow, outcome),
    {
        match outcome {
            Ok(_) => Response { status: 200, flow, body: Body::Payload },
            Err(error) => {
                let status: u16 = match error {
                    DomainError::NotFound => 404,
                    DomainError::Conflict => 409,
                    DomainError::Internal => 500,
                };
                Response { status, flow, body: Body::Failure(error) }
            },
        }
    }
}

/// How far a dispatch has come.
#[derive(Debug)]
pub enum Stage {
    /// Nothing has been done yet.
    Received,
    /// A collaborator was asked about the credential.
    Authenticating,
    /// Authenticated, and waiting for a resource that somebody else holds.
    Locking { context: AuthenticationContext },
    /// The handler is running, under `guard` where the flow locks.
    Running { guard: Option<ScopedGuard> },
    /// The dispatch is over.
    Finished,
}

/// A stage as contracts see it: the guard stands as the key it holds.
pub enum Phase {
    Received,
    Authenticating,
    Locking { context: AuthenticationContext },
    Running { holding: Option<Seq<char>> },
    Finished,
}

impl Stage {
    /// The phase the stage stands for.
    pub open spec fn phase(self) -> Phase {
        match self {
            Stage::Received => Phase::Received,
            Stage::Authenticating => Phase::Authenticating,
            Stage::Locking { context } => Phase::Locking { context },
            Stage::Running { guard } => Phase::Running {
                holding: match guard {
                    Some(g) => Some(g.resource()),
                    None => None,
                },
            },
            Stage::Finished => Phase::Finished,
        }
    }
}

/// What happened outside since the last step.
#[derive(Debug)]
pub enum Event {
    /// The request came in.
    Arrived,
    /// The collaborators answered.
    Verdicts(Verdicts),
    /// The resource waited for may be free now.
    Retry,
    /// The bound on waiting for the resource has run out.
    WaitElapsed,
    /// The handler returned.
    Completed(Result<(), DomainError>),
    /// The request was abandoned from outside before it was answered.
    Cancelled,
}

/// What has to happen outside before the next step.
#[derive(Debug)]
pub enum Action {
    /// Ask this collaborator about the request's credential.
    Consult(Lookup),
    /// Run the handler for this caller.
    Invoke(AuthenticationContext),
    /// Wait for the resource, then retry or give up.
    Wait,
    /// Send this response; the dispatch is over.
    Respond(Response),
    /// The request was abandoned; there is nobody to answer.
    Abandon,
    /// The event does not belong to the stage; nothing changed.
    Ignored,
}

/// One request on its way through authentication, locking and the handler.
#[derive(Debug)]
pub struct Dispatch {
    pub flow: Flow,
    pub auth: AuthSpec,
    pub lock: LockAction,
    pub request: Request,
    pub stage: Stage,
}

/// Where an authenticated request goes next: straight to the handler
/// where the flow does not lock or the resource is free, which is then
/// taken; into waiting where the resource is held.
pub open spec fn proceeds(
    lock: LockAction,
    held: Set<Seq<char>>,
    context: AuthenticationContext,
) -> (Phase, Set<Seq<char>>, Action) {
    match lock {
        LockAction::NotApplicable => (
            Phase::Running { holding: None },
            held,
            Action::Invoke(context),
        ),
        LockAction::AcquireExclusive(key) => if held.contains(key@) {
            (Phase::Locking { context }, held, Action::Wait)
        } else {
            (Phase::Running { holding: Some(key@) }, held.insert(key@), Action::Invoke(context))
        },
    }
}

impl Dispatch {
    /// A lock is waited for or held only by a flow that declares it, and
    /// only on the resource it declares.
    pub open spec fn inv(self) -> bool {
        match self.stage.phase() {
            Phase::Locking { .. } => self.lock is AcquireExclusive,
            Phase::Running { holding: Some(key) } => self.lock is AcquireExclusive
                && self.lock->AcquireExclusive_0@ == key,
            _ => true,
        }
    }

    /// The step relation: from the phase, the held resources and the
    /// event to the next phase, the resources held afterwards and the action.
    pub open spec fn transition(self, held: Set<Seq<char>>, event: Event) -> (
        Phase,
        Set<Seq<char>>,
        Action,
    ) {
        self.advance(self.stage.phase(), held, event)
    }

    /// The step relation for a dispatch that stands in `phase`.
    pub open spec fn advance(self, phase: Phase, held: Set<Seq<char>>, event: Event) -> (
        Phase,
        Set<Seq<char>>,
        Action,
    ) {
        match (phase, event) {
            (Phase::Received, Event::Arrived) => if self.auth.consults(self.request)
                == Lookup::Nothing {
                (
                    Phase::Finished,
                    held,
                    Action::Respond(unauthorized(self.flow, self.auth.unmet())),
                )
            } else {
                (Phase::Authenticating, held, Action::Consult(self.auth.consults(self.request)))
            },
            (Phase::Authenticating, Event::Verdicts(verdicts)) => match self.auth.outcome(
                self.request,
                verdicts,
            ) {
                Err(error) => (
                    Phase::Finished,
                    held,
                    Action::Respond(unauthorized(self.flow, error)),
                ),
                Ok(context) => proceeds(self.lock, held, context),
            },
            (Phase::Locking { context }, Event::Retry) => proceeds(self.lock, held, context),
            (Phase::Locking { .. }, Event::WaitElapsed) => (
                Phase::Finished,
                held,
                Action::Respond(contended(self.flow)),
            ),
            (Phase::Running { holding }, Event::Completed(outcome)) => (
                Phase::Finished,
                match holding {
                    Some(key) => held.remove(key),
                    None => held,
                },
                Action::Respond(concluded(self.flow, outcome)),
            ),
            (Phase::Finished, Event::Cancelled) => (Phase::Finished, held, Action::Ignored),
            (Phase::Running { holding: Some(key) }, Event::Cancelled) => (
                Phase::Finished,
                held.remove(key),
                Action::Abandon,
            ),
            (_, Event::Cancelled) => (Phase::Finished, held, Action::Abandon),
            (phase, _) => (phase, held, Action::Ignored),
        }
    }

    /// Where a dispatch that stands in `phase` ends after `events`, one
    /// step for each, and which resources are held then.
    pub open spec fn run(self, phase: Phase, held: Set<Seq<char>>, events: Seq<Event>) -> (
        Phase,
        Set<Seq<char>>,
    )
        decreases events.len(),
    {
        if events.len() == 0 {
            (phase, held)
        } else {
            let next = self.advance(phase, held, events[0]);
            self.run(next.0, next.1, events.skip(1))
        }
    }

    /// Whether the held resources are exactly what a dispatch in `phase`
    /// holds by itself.
    pub open spec fn alone(phase: Phase, held: Set<Seq<char>>) -> bool {
        match phase {
            Phase::Running { holding: Some(key) } => held == Set::<Seq<char>>::empty().insert(key),
            _ => held == Set::<Seq<char>>::empty(),
        }
    }

    /// A dispatch of `request` that has not begun.
    pub fn new(flow: Flow, auth: AuthSpec, lock: LockAction, request: Request) -> (r: Dispatch)
        ensures
            r == (Dispatch { flow, auth, lock, request, stage: Stage::Received }),
            r.inv(),
    {
        Dispatch { flow, auth, lock, request, stage: Stage::Received }
    }

    /// Whether the dispatch is over.
    pub fn is_finished(&self) -> (r: bool)
        ensures
            r == (self.stage.phase() == Phase::Finished),
    {
        match &self.stage {
            Stage::Finished => true,
            _ => false,
        }
    }

    fn proceed(
        lock: &LockAction,
        table: &mut ResourceLockTable,
        context: AuthenticationContext,
    ) -> (r: (Stage, Action))
        ensures
            (r.0.phase(), final(table)@, r.1) == proceeds(*lock, old(table)@, context),
    {
        match lock {
            LockAction::NotApplicable => (Stage::Running { guard: None }, Action::Invoke(context)),
            LockAction::AcquireExclusive(key) => match table.acquire(key) {
                Ok(guard) => (Stage::Running { guard: Some(guard) }, Action::Invoke(context)),
                Err(_) => (Stage::Locking { context }, Action::Wait),
            },
        }
    }

    /// Takes the dispatch one step on: judges the event that came in for
    /// the stage the dispatch is in, and says what has to happen next.
    /// Authentication comes first, then the lock where the flow declares
    /// one, then the handler; whatever the handler returns, the lock is
    /// given back in the step that takes its result, and so it is when the
    /// request is cancelled. An event that does not belong to the stage
    /// changes nothing.
    pub fn step(self, table: &mut ResourceLockTable, event: Event) -> (r: (Dispatch, Action))
        ensures
            r.0.flow == self.flow,
            r.0.auth == self.auth,
            r.0.lock == self.lock,
            r.0.request == self.request,
            (r.0.stage.phase(), final(table)@, r.1) == self.transition(old(table)@, event),
            self.inv() ==> r.0.inv(),
    {
        let Dispatch { flow, auth, lock, request, stage } = self;
        match (stage, event) {
            (Stage::Received, Event::Arrived) => {
                let lookup = auth.lookup(&request);
                match lookup {
                    Lookup::Nothing => {
                        let response = Response::for_auth_failure(flow, auth.refusal());
                        (
                            Dispatch { flow, auth, lock, request, stage: Stage::Finished },
                            Action::Respond(response),
                        )
                    },
                    _ => (
                        Dispatch { flow, auth, lock, request, stage: Stage::Authenticating },
                        Action::Consult(lookup),
                    ),
                }
            },
            (Stage::Authenticating, Event::Verdicts(verdicts)) => {
                match auth.authenticate(&request, verdicts) {
                    Err(error) => {
                        let response = Response::for_auth_failure(flow, error);
                        (
                            Dispatch { flow, auth, lock, request, stage: Stage::Finished },
                            Action::Respond(response),
                        )
                    },
                    Ok(context) => {
                        let (stage, action) = Self::proceed(&lock, table, context);
                        (Dispatch { flow, auth, lock, request, stage }, action)
                    },
                }
            },
            (Stage::Locking { context }, Event::Retry) => {
                let (stage, action) = Self::proceed(&lock, table, context);
                (Dispatch { flow, auth, lock, request, stage }, action)
            },
            (Stage::Locking { context: _ }, Event::WaitElapsed) => {
                let response = Response::for_contention(flow);
                (
                    Dispatch { flow, auth, lock, request, stage: Stage::Finished },
                    Action::Respond(response),
                )
            },
            (Stage::Running { guard }, Event::Completed(outcome)) => {
                match guard {
                    Some(held) => {
                        table.release(held);
                    },
                    None => {},
                }
                let response = Response::for_outcome(flow, outcome);
                (
                    Dispatch { flow, auth, lock, request, stage: Stage::Finished },
                    Action::Respond(response),
                )
            },
            (Stage::Finished, Event::Cancelled) => (
                Dispatch { flow, auth, lock, request, stage: Stage::Finished },
                Action::Ignored,
            ),
            (Stage::Running { guard: Some(held) }, Event::Cancelled) => {
                table.release(held);
                (Dispatch { flow, auth, lock, request, stage: Stage::Finished }, Action::Abandon)
            },
            (_, Event::Cancelled) => (
                Dispatch { flow, auth, lock, request, stage: Stage::Finished },
                Action::Abandon,
            ),
            (stage, _) => (Dispatch { flow, auth, lock, request, stage }, Action::Ignored),
        }
    }
}

/// What is left of the handler's result once its payload is set aside.
pub open spec fn verdict_of<U>(result: Result<U, DomainError>) -> Result<(), DomainError> {
    match result {
        Ok(_) => Ok(()),
        Err(error) => Err(error),
    }
}

/// The payload of the handler's result, if it succeeded.
pub open spec fn payload_of<U>(result: Result<U, DomainError>) -> Option<U> {
    match result {
        Ok(payload) => Some(payload),
        Err(_) => None,
    }
}

/// Dispatches one request in one go, for a handler that can be called on
/// the spot and collaborators that have answered already; a lock that is
/// held is not waited for.
///
/// The steps are those of `Dispatch::step`, in their order: authentication
/// first, and on failure its response, with the handler not called and the
/// table not touched; then the lock, and the conflict response where the
/// resource is held; then the handler, called exactly once, and the lock
/// given back whatever it returned. The response is that of the handler's
/// result, and the payload comes with it on success. The table is left as
/// it was found.
pub fn dispatch<T, U, F>(
    flow: Flow,
    auth: AuthSpec,
    lock: LockAction,
    request: Request,
    verdicts: Verdicts,
    table: &mut ResourceLockTable,
    input: T,
    handler: F,
) -> (r: (Response, Option<U>)) where F: FnOnce(AuthenticationContext, T) -> Result<U, DomainError>
    requires
        auth.outcome(request, verdicts) is Ok && !(lock is AcquireExclusive && old(
            table,
        )@.contains(lock->AcquireExclusive_0@)) ==> call_requires(
            handler,
            (auth.outcome(request, verdicts)->Ok_0, input),
        ),
    ensures
        final(table)@ == old(table)@,
        match auth.outcome(request, verdicts) {
            Err(error) => r == (unauthorized(flow, error), None::<U>),
            Ok(context) => if lock is AcquireExclusive && old(table)@.contains(
                lock->AcquireExclusive_0@,
            ) {
                r == (contended(flow), None::<U>)
            } else {
                exists|result: Result<U, DomainError>|
                    call_ensures(handler, (context, input), result) && r == (
                        concluded(flow, verdict_of(result)),
                        payload_of(result),
                    )
            },
        },
{
    proof {
        if auth.consults(request) == Lookup::Nothing {
            auth.lemma_nothing_to_consult(request, verdicts);
        }
    }
    let ghost before = table@;
    let started = Dispatch::new(flow, auth, lock, request);
    let (asked, first) = started.step(table, Event::Arrived);
    match first {
        Action::Respond(response) => (response, None),
        Action::Consult(_) => {
            let (judged, second) = asked.step(table, Event::Verdicts(verdicts));
            match second {
                Action::Respond(response) => (response, None),
                Action::Wait => {
                    let (_, third) = judged.step(table, Event::WaitElapsed);
                    match third {
                        Action::Respond(response) => (response, None),
                        _ => unreached(),
                    }
                },
                Action::Invoke(context) => {
                    let result = handler(context, input);
                    let ghost returned = result;
                    let (outcome, payload) = match result {
                        Ok(payload) => (Ok(()), Some(payload)),
                        Err(error) => (Err(error), None),
                    };
                    let (_, third) = judged.step(table, Event::Completed(outcome));
                    proof {
                        assert(table@ =~= before);
                        assert(call_ensures(handler, (context, input), returned));
                        assert(outcome == verdict_of(returned));
                        assert(payload == payload_of(returned));
                    }
                    match third {
                        Action::Respond(response) => (response, payload),
                        _ => unreached(),
                    }
                },
                _ => unreached(),
            }
        },
        _ => unreached(),
    }
}

/// A request in which no strategy finds a credential is answered at once
/// with 401 and `MissingCredential`: no collaborator is asked, no lock is
/// touched and the handler is not run.
pub proof fn lemma_missing_credential_is_unauthorized(dispatch: Dispatch, held: Set<Seq<char>>)
    requires
        dispatch.stage.phase() == Phase::Received,
        dispatch.auth.consults(dispatch.request) == Lookup::Nothing,
        dispatch.auth.unmet() == AuthError::MissingCredential,
    ensures
        dispatch.transition(held, Event::Arrived) == (
            Phase::Finished,
            held,
            Action::Respond(
                Response {
                    status: 401,
                    flow: dispatch.flow,
                    body: Body::Unauthorized(AuthError::MissingCredential),
                },
            ),
        ),
{
}

/// Once the response is given nothing more happens: every later event is
/// ignored, so the handler is never run afterwards.
pub proof fn lemma_finished_is_final(dispatch: Dispatch, held: Set<Seq<char>>, event: Event)
    requires
        dispatch.stage.phase() == Phase::Finished,
    ensures
        dispatch.transition(held, event) == (Phase::Finished, held, Action::Ignored),
{
}

/// The handler is run only for a caller that authentication accepted,
/// and, where the flow locks, only in the step that takes the resource,
/// which was free before and is held after.
pub proof fn lemma_handler_runs_authenticated_and_locked(
    dispatch: Dispatch,
    held: Set<Seq<char>>,
    event: Event,
    context: AuthenticationContext,
)
    requires
        dispatch.transition(held, event).2 == Action::Invoke(context),
    ensures
        match (dispatch.stage.phase(), event) {
            (Phase::Authenticating, Event::Verdicts(verdicts)) => dispatch.auth.outcome(
                dispatch.request,
                verdicts,
            ) == Ok::<AuthenticationContext, AuthError>(context),
            (Phase::Locking { context: waiting }, Event::Retry) => waiting == context,
            _ => false,
        },
        match dispatch.lock {
            LockAction::NotApplicable => dispatch.transition(held, event).1 == held
                && dispatch.transition(held, event).0 == (Phase::Running { holding: None }),
            LockAction::AcquireExclusive(key) => !held.contains(key@) && dispatch.transition(
                held,
                event,
            ).1 == held.insert(key@) && dispatch.transition(held, event).0 == (Phase::Running {
                holding: Some(key@),
            }),
        },
{
}

/// While a resource is held, no dispatch that locks the same resource
/// gets to its handler, whatever event comes in: it waits or gives up.
pub proof fn lemma_held_resource_bars_handler(
    dispatch: Dispatch,
    held: Set<Seq<char>>,
    event: Event,
)
    requires
        dispatch.lock is AcquireExclusive,
        held.contains(dispatch.lock->AcquireExclusive_0@),
    ensures
        !(dispatch.transition(held, event).2 is Invoke),
{
}

/// A resource that the dispatch does not lock is never in its way:
/// with `other` held as well, every step ends in the same phase with the
/// same action, and `other` stays held.
pub proof fn lemma_other_resources_do_not_contend(
    dispatch: Dispatch,
    held: Set<Seq<char>>,
    other: Seq<char>,
    event: Event,
)
    requires
        dispatch.inv(),
        dispatch.lock is AcquireExclusive ==> dispatch.lock->AcquireExclusive_0@ != other,
    ensures
        dispatch.transition(held.insert(other), event).0 == dispatch.transition(held, event).0,
        dispatch.transition(held.insert(other), event).1 == dispatch.transition(
            held,
            event,
        ).1.insert(other),
        dispatch.transition(held.insert(other), event).2 == dispatch.transition(held, event).2,
{
    let with_other = dispatch.transition(held.insert(other), event).1;
    let without = dispatch.transition(held, event).1;
    assert(with_other =~= without.insert(other));
}

/// The lock is given back in the step that takes the handler's result,
/// whatever that result is, a failure included; a table that held only
/// this resource is empty afterwards.
pub proof fn lemma_lock_released_on_every_outcome(
    dispatch: Dispatch,
    held: Set<Seq<char>>,
    key: Seq<char>,
    outcome: Result<(), DomainError>,
)
    requires
        dispatch.stage.phase() == (Phase::Running { holding: Some(key) }),
    ensures
        dispatch.transition(held, Event::Completed(outcome)) == (
            Phase::Finished,
            held.remove(key),
            Action::Respond(concluded(dispatch.flow, outcome)),
        ),
        !dispatch.transition(held, Event::Completed(outcome)).1.contains(key),
        held == Set::<Seq<char>>::empty().insert(key) ==> dispatch.transition(
            held,
            Event::Completed(outcome),
        ).1 == Set::<Seq<char>>::empty(),
{
    assert(Set::<Seq<char>>::empty().insert(key).remove(key) =~= Set::<Seq<char>>::empty());
}

/// Cancelling ends a dispatch wherever it stands. A lock that it held is
/// given back; one that it did not hold yet was never taken, so the held
/// resources stay as they were.
pub proof fn lemma_cancellation_leaves_no_lock(dispatch: Dispatch, held: Set<Seq<char>>)
    ensures
        dispatch.transition(held, Event::Cancelled).0 == Phase::Finished,
        dispatch.transition(held, Event::Cancelled).1 == match dispatch.stage.phase() {
            Phase::Running { holding: Some(key) } => held.remove(key),
            _ => held,
        },
        !(dispatch.transition(held, Event::Cancelled).2 is Invoke),
{
}

/// A dispatch that runs alone holds at most the one resource it locks,
/// and nothing once it is over: after whatever events, the held resources
/// are exactly what its phase accounts for. In particular a finished
/// dispatch leaves the table empty, however it came to its end.
pub proof fn lemma_lone_dispatch_leaves_nothing_held(
    dispatch: Dispatch,
    phase: Phase,
    held: Set<Seq<char>>,
    events: Seq<Event>,
)
    requires
        Dispatch::alone(phase, held),
    ensures
        Dispatch::alone(dispatch.run(phase, held, events).0, dispatch.run(phase, held, events).1),
        dispatch.run(phase, held, events).0 == Phase::Finished ==> dispatch.run(
            phase,
            held,
            events,
        ).1 == Set::<Seq<char>>::empty(),
    decreases events.len(),
{
    if events.len() > 0 {
        let next = dispatch.advance(phase, held, events[0]);
        assert(Dispatch::alone(next.0, next.1)) by {
            match phase {
                Phase::Running { holding: Some(key) } => {
                    assert(held.remove(key) =~= Set::<Seq<char>>::empty());
                },
                _ => {},
            }
        }
        lemma_lone_dispatch_leaves_nothing_held(dispatch, next.0, next.1, events.skip(1));
    }
}

/// Two dispatches that lock the same resource do not interleave. While
/// the first runs its handler, the second, whatever event it is given,
/// does not start its own and a retry keeps it waiting; once the first has
/// taken its handler's result, whatever that is, a retry of the second
/// takes the lock and starts the handler.
pub proof fn lemma_same_resource_is_serialized(
    first: Dispatch,
    second: Dispatch,
    held: Set<Seq<char>>,
    key: Seq<char>,
    context: AuthenticationContext,
    event: Event,
    outcome: Result<(), DomainError>,
)
    requires
        first.stage.phase() == (Phase::Running { holding: Some(key) }),
        held.contains(key),
        second.lock is AcquireExclusive,
        second.lock->AcquireExclusive_0@ == key,
        second.stage.phase() == (Phase::Locking { context }),
    ensures
        !(second.transition(held, event).2 is Invoke),
        second.transition(held, Event::Retry) == (Phase::Locking { context }, held, Action::Wait),
        second.transition(
            first.transition(held, Event::Completed(outcome)).1,
            Event::Retry,
        ) == (Phase::Running { holding: Some(key) }, held, Action::Invoke(context)),
{
    assert(held.remove(key).insert(key) =~= held);
}

} // verus!
