//! Authorization of one request, as a sequence of decisions between awaited
//! checks: the exact caller Instance, the actor assertion bound to the
//! operation, live organization membership, and the Access Control decision.
//!
//! The caller drives the sequence: it looks at the stage, performs the check
//! the stage awaits, and hands the answer back as an event.
use vstd::prelude::*;

use crate::text::{bounded_opaque, valid_opaque_id, MAX_ID_BYTES};

verus! {

/// Why a runtime failure ended an authorization.
#[derive(Clone, Copy, Debug, PartialEq, Eq, Structural)]
pub enum RuntimeCause {
    /// The Instance's assertion verification key is invalid.
    InvalidVerifier,
    /// A dependency invocation failed at runtime; its own failure is reported.
    Dependency,
    /// Organization Membership answered with a domain error.
    MembershipProtocolViolation,
    /// Access Control answered with a domain error.
    AccessProtocolViolation,
}

/// Why a request was not authorized.
#[derive(Clone, Copy, Debug, PartialEq, Eq, Structural)]
pub enum AuthorizationFailure {
    Unauthenticated,
    Forbidden,
    Runtime(RuntimeCause),
}

/// An authorized request: the exact caller Instance and the actor subject.
#[derive(Clone, Debug, PartialEq, Eq)]
pub struct Authorized {
    pub caller: String,
    pub actor: String,
}

/// What the authorization of one request is checked against: the allowed
/// caller Instances and the organization the request is about.
#[derive(Clone, Debug)]
pub struct AuthRequest {
    pub callers: Vec<String>,
    pub organization_id: String,
}

/// Where an authorization stands, and so what it awaits next.
#[derive(Debug)]
pub enum AuthStage {
    /// Awaits the caller Instance of the invocation.
    AwaitingCaller,
    /// Awaits the actor projected from the assertion bound to the operation.
    AwaitingActor { caller: String },
    /// Awaits Organization Membership's answer for the actor.
    AwaitingMembership { caller: String, actor: String },
    /// Awaits Access Control's decision for the actor.
    AwaitingPermission { caller: String, actor: String },
    /// Done.
    Finished(Result<Authorized, AuthorizationFailure>),
}

/// The outcome of verifying and projecting the actor assertion.
#[derive(Debug)]
pub enum ActorProjection {
    /// The Instance's verifier could not be built.
    VerifierUnavailable,
    /// The assertion is missing, invalid, or bound to another operation.
    Rejected,
    /// The assertion's subject.
    Subject(String),
}

/// What an awaited dependency answered.
#[derive(Clone, Copy, Debug, PartialEq, Eq, Structural)]
pub enum DependencyReply {
    /// The answer: membership active, or permission allowed.
    Answer(bool),
    /// The invocation failed at runtime.
    RuntimeFailure,
    /// The dependency answered with a domain error.
    DomainError,
}

/// The answer to what a stage awaits.
#[derive(Debug)]
pub enum AuthEvent {
    CallerInstance(Option<String>),
    ActorProjected(ActorProjection),
    MembershipChecked(DependencyReply),
    PermissionChecked(DependencyReply),
}

/// `caller` is one of the allowed caller Instances.
pub open spec fn allowed_caller(callers: Seq<String>, caller: Seq<char>) -> bool {
    exists|i: int| 0 <= i < callers.len() && #[trigger] callers[i]@ == caller
}

/// The stage after `event`. An event that does not answer what the stage
/// awaits leaves it as it is.
pub open spec fn advanced(request: AuthRequest, stage: AuthStage, event: AuthEvent) -> AuthStage {
    match stage {
        AuthStage::AwaitingCaller => match event {
            AuthEvent::CallerInstance(c) => match c {
                Some(x) => if allowed_caller(request.callers@, x@) {
                    AuthStage::AwaitingActor { caller: x }
                } else {
                    AuthStage::Finished(Err(AuthorizationFailure::Forbidden))
                },
                None => AuthStage::Finished(Err(AuthorizationFailure::Forbidden)),
            },
            _ => stage,
        },
        AuthStage::AwaitingActor { caller } => match event {
            AuthEvent::ActorProjected(p) => match p {
                ActorProjection::VerifierUnavailable => AuthStage::Finished(
                    Err(AuthorizationFailure::Runtime(RuntimeCause::InvalidVerifier)),
                ),
                ActorProjection::Rejected => AuthStage::Finished(
                    Err(AuthorizationFailure::Unauthenticated),
                ),
                ActorProjection::Subject(a) => if bounded_opaque(
                    request.organization_id@,
                    MAX_ID_BYTES as int,
                ) && bounded_opaque(a@, MAX_ID_BYTES as int) {
                    AuthStage::AwaitingMembership { caller, actor: a }
                } else {
                    AuthStage::Finished(Err(AuthorizationFailure::Forbidden))
                },
            },
            _ => AuthStage::AwaitingActor { caller },
        },
        AuthStage::AwaitingMembership { caller, actor } => match event {
            AuthEvent::MembershipChecked(reply) => match reply {
                DependencyReply::Answer(active) => if active {
                    AuthStage::AwaitingPermission { caller, actor }
                } else {
                    AuthStage::Finished(Err(AuthorizationFailure::Forbidden))
                },
                DependencyReply::RuntimeFailure => AuthStage::Finished(
                    Err(AuthorizationFailure::Runtime(RuntimeCause::Dependency)),
                ),
                DependencyReply::DomainError => AuthStage::Finished(
                    Err(AuthorizationFailure::Runtime(RuntimeCause::MembershipProtocolViolation)),
                ),
            },
            _ => AuthStage::AwaitingMembership { caller, actor },
        },
        AuthStage::AwaitingPermission { caller, actor } => match event {
            AuthEvent::PermissionChecked(reply) => match reply {
                DependencyReply::Answer(allowed) => if allowed {
                    AuthStage::Finished(Ok(Authorized { caller, actor }))
                } else {
                    AuthStage::Finished(Err(AuthorizationFailure::Forbidden))
                },
                DependencyReply::RuntimeFailure => AuthStage::Finished(
                    Err(AuthorizationFailure::Runtime(RuntimeCause::Dependency)),
                ),
                DependencyReply::DomainError => AuthStage::Finished(
                    Err(AuthorizationFailure::Runtime(RuntimeCause::AccessProtocolViolation)),
                ),
            },
            _ => AuthStage::AwaitingPermission { caller, actor },
        },
        AuthStage::Finished(r) => AuthStage::Finished(r),
    }
}

fn caller_allowed(callers: &[String], caller: &String) -> (r: bool)
    ensures
        r == allowed_caller(callers@, caller@),
{
    let mut i: usize = 0;
    while i < callers.len()
        invariant
            i <= callers@.len(),
            forall|j: int| 0 <= j < i ==> #[trigger] callers@[j]@ != caller@,
        decreases callers@.len() - i,
    {
        if callers[i] == *caller {
            assert(callers@[i as int]@ == caller@);
            return true;
        }
        i += 1;
    }
    false
}

/// The first stage of an authorization.
pub fn start() -> (r: AuthStage)
    ensures
        r == AuthStage::AwaitingCaller,
{
    AuthStage::AwaitingCaller
}

/// Decides on `event` and moves the authorization to its next stage.
pub fn advance(request: &AuthRequest, stage: AuthStage, event: AuthEvent) -> (r: AuthStage)
    ensures
        r == advanced(*request, stage, event),
{
    match stage {
        AuthStage::AwaitingCaller => match event {
            AuthEvent::CallerInstance(c) => match c {
                Some(x) => {
                    if caller_allowed(request.callers.as_slice(), &x) {
                        AuthStage::AwaitingActor { caller: x }
                    } else {
                        AuthStage::Finished(Err(AuthorizationFailure::Forbidden))
                    }
                },
                None => AuthStage::Finished(Err(AuthorizationFailure::Forbidden)),
            },
            _ => AuthStage::AwaitingCaller,
        },
        AuthStage::AwaitingActor { caller } => match event {
            AuthEvent::ActorProjected(p) => match p {
                ActorProjection::VerifierUnavailable => AuthStage::Finished(
                    Err(AuthorizationFailure::Runtime(RuntimeCause::InvalidVerifier)),
                ),
                ActorProjection::Rejected => AuthStage::Finished(
                    Err(AuthorizationFailure::Unauthenticated),
                ),
                ActorProjection::Subject(a) => {
                    if valid_opaque_id(request.organization_id.as_str()) && valid_opaque_id(
                        a.as_str(),
                    ) {
                        AuthStage::AwaitingMembership { caller, actor: a }
                    } else {
                        AuthStage::Finished(Err(AuthorizationFailure::Forbidden))
                    }
                },
            },
            _ => AuthStage::AwaitingActor { caller },
        },
        AuthStage::AwaitingMembership { caller, actor } => match event {
            AuthEvent::MembershipChecked(reply) => match reply {
                DependencyReply::Answer(active) => {
                    if active {
                        AuthStage::AwaitingPermission { caller, actor }
                    } else {
                        AuthStage::Finished(Err(AuthorizationFailure::Forbidden))
                    }
                },
                DependencyReply::RuntimeFailure => AuthStage::Finished(
                    Err(AuthorizationFailure::Runtime(RuntimeCause::Dependency)),
                ),
                DependencyReply::DomainError => AuthStage::Finished(
                    Err(AuthorizationFailure::Runtime(RuntimeCause::MembershipProtocolViolation)),
                ),
            },
            _ => AuthStage::AwaitingMembership { caller, actor },
        },
        AuthStage::AwaitingPermission { caller, actor } => match event {
            AuthEvent::PermissionChecked(reply) => match reply {
                DependencyReply::Answer(allowed) => {
                    if allowed {
                        AuthStage::Finished(Ok(Authorized { caller, actor }))
                    } else {
                        AuthStage::Finished(Err(AuthorizationFailure::Forbidden))
                    }
                },
                DependencyReply::RuntimeFailure => AuthStage::Finished(
                    Err(AuthorizationFailure::Runtime(RuntimeCause::Dependency)),
                ),
                DependencyReply::DomainError => AuthStage::Finished(
                    Err(AuthorizationFailure::Runtime(RuntimeCause::AccessProtocolViolation)),
                ),
            },
            _ => AuthStage::AwaitingPermission { caller, actor },
        },
        AuthStage::Finished(r) => AuthStage::Finished(r),
    }
}

/// The stage reached from `stage` after `events`, in order.
pub open spec fn run(request: AuthRequest, stage: AuthStage, events: Seq<AuthEvent>) -> AuthStage
    decreases events.len(),
{
    if events.len() == 0 {
        stage
    } else {
        run(request, advanced(request, stage, events[0]), events.drop_first())
    }
}


/// What holds of every stage an authorization reaches: a recorded caller is
/// allowed, and a recorded actor and the organization are valid identifiers.
pub open spec fn stage_invariant(request: AuthRequest, stage: AuthStage) -> bool {
    match stage {
        AuthStage::AwaitingCaller => true,
        AuthStage::AwaitingActor { caller } => allowed_caller(request.callers@, caller@),
        AuthStage::AwaitingMembership { caller, actor } => {
            &&& allowed_caller(request.callers@, caller@)
            &&& bounded_opaque(request.organization_id@, MAX_ID_BYTES as int)
            &&& bounded_opaque(actor@, MAX_ID_BYTES as int)
        },
        AuthStage::AwaitingPermission { caller, actor } => {
            &&& allowed_caller(request.callers@, caller@)
            &&& bounded_opaque(request.organization_id@, MAX_ID_BYTES as int)
            &&& bounded_opaque(actor@, MAX_ID_BYTES as int)
        },
        AuthStage::Finished(r) => match r {
            Ok(a) => {
                &&& allowed_caller(request.callers@, a.caller@)
                &&& bounded_opaque(request.organization_id@, MAX_ID_BYTES as int)
                &&& bounded_opaque(a.actor@, MAX_ID_BYTES as int)
            },
            Err(_) => true,
        },
    }
}

/// Each decision keeps the stage invariant.
pub proof fn lemma_advanced_keeps_invariant(request: AuthRequest, stage: AuthStage, event: AuthEvent)
    requires
        stage_invariant(request, stage),
    ensures
        stage_invariant(request, advanced(request, stage, event)),
{
}

proof fn lemma_run_finished(
    request: AuthRequest,
    r: Result<Authorized, AuthorizationFailure>,
    events: Seq<AuthEvent>,
)
    ensures
        run(request, AuthStage::Finished(r), events) == AuthStage::Finished(r),
    decreases events.len(),
{
    if events.len() > 0 {
        lemma_run_finished(request, r, events.drop_first());
    }
}

/// The event answered at some point of `events`.
pub open spec fn answered(events: Seq<AuthEvent>, event: AuthEvent) -> bool {
    exists|i: int| 0 <= i < events.len() && events[i] == event
}

proof fn lemma_answered_later(events: Seq<AuthEvent>, event: AuthEvent)
    requires
        events.len() > 0,
        answered(events.drop_first(), event),
    ensures
        answered(events, event),
{
    let i = choose|i: int|
        0 <= i < events.drop_first().len() && events.drop_first()[i] == event;
    assert(events[i + 1] == event);
}

proof fn lemma_run_authorized(
    request: AuthRequest,
    stage: AuthStage,
    events: Seq<AuthEvent>,
    a: Authorized,
)
    requires
        run(request, stage, events) == AuthStage::Finished(Ok::<Authorized, AuthorizationFailure>(a)),
        stage_invariant(request, stage),
    ensures
        stage_invariant(request, AuthStage::Finished(Ok::<Authorized, AuthorizationFailure>(a))),
        match stage {
            AuthStage::AwaitingCaller => {
                &&& answered(events, AuthEvent::CallerInstance(Some(a.caller)))
                &&& answered(events, AuthEvent::ActorProjected(ActorProjection::Subject(a.actor)))
                &&& answered(events, AuthEvent::MembershipChecked(DependencyReply::Answer(true)))
                &&& answered(events, AuthEvent::PermissionChecked(DependencyReply::Answer(true)))
            },
            AuthStage::AwaitingActor { caller } => {
                &&& caller == a.caller
                &&& answered(events, AuthEvent::ActorProjected(ActorProjection::Subject(a.actor)))
                &&& answered(events, AuthEvent::MembershipChecked(DependencyReply::Answer(true)))
                &&& answered(events, AuthEvent::PermissionChecked(DependencyReply::Answer(true)))
            },
            AuthStage::AwaitingMembership { caller, actor } => {
                &&& caller == a.caller
                &&& actor == a.actor
                &&& answered(events, AuthEvent::MembershipChecked(DependencyReply::Answer(true)))
                &&& answered(events, AuthEvent::PermissionChecked(DependencyReply::Answer(true)))
            },
            AuthStage::AwaitingPermission { caller, actor } => {
                &&& caller == a.caller
                &&& actor == a.actor
                &&& answered(events, AuthEvent::PermissionChecked(DependencyReply::Answer(true)))
            },
            AuthStage::Finished(r) => r == Ok::<Authorized, AuthorizationFailure>(a),
        },
    decreases events.len(),
{
    if events.len() == 0 {
        return;
    }
    let e = events[0];
    let next = advanced(request, stage, e);
    lemma_advanced_keeps_invariant(request, stage, e);
    lemma_run_authorized(request, next, events.drop_first(), a);
    if let AuthStage::Finished(r) = next {
        lemma_run_finished(request, r, events.drop_first());
    }
    let tail = events.drop_first();
    assert(events[0] == e);
    match stage {
        AuthStage::AwaitingCaller => {
            if next is AwaitingCaller {
                lemma_answered_later(events, AuthEvent::CallerInstance(Some(a.caller)));
            } else {
                assert(answered(events, AuthEvent::CallerInstance(Some(a.caller))));
            }
            lemma_answered_later(events, AuthEvent::ActorProjected(ActorProjection::Subject(a.actor)));
            lemma_answered_later(events, AuthEvent::MembershipChecked(DependencyReply::Answer(true)));
            lemma_answered_later(events, AuthEvent::PermissionChecked(DependencyReply::Answer(true)));
        },
        AuthStage::AwaitingActor { caller } => {
            if next is AwaitingActor {
                lemma_answered_later(events, AuthEvent::ActorProjected(ActorProjection::Subject(a.actor)));
            } else {
                assert(answered(events, AuthEvent::ActorProjected(ActorProjection::Subject(a.actor))));
            }
            lemma_answered_later(events, AuthEvent::MembershipChecked(DependencyReply::Answer(true)));
            lemma_answered_later(events, AuthEvent::PermissionChecked(DependencyReply::Answer(true)));
        },
        AuthStage::AwaitingMembership { caller, actor } => {
            if next is AwaitingMembership {
                lemma_answered_later(events, AuthEvent::MembershipChecked(DependencyReply::Answer(true)));
            } else {
                assert(answered(events, AuthEvent::MembershipChecked(DependencyReply::Answer(true))));
            }
            lemma_answered_later(events, AuthEvent::PermissionChecked(DependencyReply::Answer(true)));
        },
        AuthStage::AwaitingPermission { caller, actor } => {
            if next is AwaitingPermission {
                lemma_answered_later(events, AuthEvent::PermissionChecked(DependencyReply::Answer(true)));
            } else {
                assert(answered(events, AuthEvent::PermissionChecked(DependencyReply::Answer(true))));
            }
        },
        AuthStage::Finished(r) => {},
    }
}

/// A request is authorized only after every check passed: its caller
/// Instance is one of the allowed callers, the actor assertion named the
/// actor, the organization and the actor are valid identifiers, Organization
/// Membership answered that the membership is active, and Access Control
/// allowed the permission.
pub proof fn authorized_only_after_every_check(
    request: AuthRequest,
    events: Seq<AuthEvent>,
    authorized: Authorized,
)
    requires
        run(request, AuthStage::AwaitingCaller, events) == AuthStage::Finished(
            Ok::<Authorized, AuthorizationFailure>(authorized),
        ),
    ensures
        allowed_caller(request.callers@, authorized.caller@),
        bounded_opaque(request.organization_id@, MAX_ID_BYTES as int),
        bounded_opaque(authorized.actor@, MAX_ID_BYTES as int),
        answered(events, AuthEvent::CallerInstance(Some(authorized.caller))),
        answered(events, AuthEvent::ActorProjected(ActorProjection::Subject(authorized.actor))),
        answered(events, AuthEvent::MembershipChecked(DependencyReply::Answer(true))),
        answered(events, AuthEvent::PermissionChecked(DependencyReply::Answer(true))),
{
    lemma_run_authorized(request, AuthStage::AwaitingCaller, events, authorized);
}

/// A caller Instance that is not allowed ends the authorization at once as
/// forbidden, before any assertion is verified or dependency asked.
pub proof fn unknown_caller_is_refused_first(request: AuthRequest, caller: Option<String>)
    requires
        match caller {
            Some(c) => !allowed_caller(request.callers@, c@),
            None => true,
        },
    ensures
        advanced(request, AuthStage::AwaitingCaller, AuthEvent::CallerInstance(caller))
            == AuthStage::Finished(Err::<Authorized, AuthorizationFailure>(
            AuthorizationFailure::Forbidden,
        )),
{
}

} // verus!
