use lenso_project_portfolio::operations::{auth_request, permission, role, Operation, Role};
use lenso_project_portfolio::config::validate_config;
use lenso_auth_sdk::{
    audience, ActorAssertion, ActorAssertionIssuer, ActorProjectionError, AssertionClock,
    TypedActor, Validity,
};
use lenso_kernel::{CancellationToken, InvocationContext};
use time::{Duration as TimeDuration, OffsetDateTime};
use lenso_project_portfolio::authorize::{
    advance, start, ActorProjection, AuthEvent, AuthRequest, AuthStage, AuthorizationFailure,
    Authorized, DependencyReply, RuntimeCause,
};
use lenso_project_portfolio::config::{ProjectPortfolioConfig, ProjectPortfolioConfigError};
use lenso_project_portfolio::errors::{read_auth_error, PortfolioReadError};
use lenso_project_portfolio::rollup::{compute_rollup, InitiativeRecord, ProjectRecord};

fn config() -> ProjectPortfolioConfig {
    let issuer = ActorAssertionIssuer::new("auth.users", b"portfolio-test-key");
    ProjectPortfolioConfig::new(
        "project_portfolio".to_owned(),
        "portfolio/database-url".to_owned(),
        "auth.users".to_owned(),
        issuer.public_key_base64(),
        vec!["portfolio-api".to_owned()],
        vec!["portfolio-admin".to_owned()],
    )
    .unwrap()
}

#[test]
fn configuration_rejects_duplicate_callers() {
    let mut invalid = config();
    invalid.portfolio_callers.push("portfolio-api".to_owned());
    assert_eq!(
        invalid.validate(),
        Err(ProjectPortfolioConfigError::InvalidPortfolioCallers)
    );
}

fn authorize(callers: &[&str], organization_id: &str, events: Vec<AuthEvent>) -> AuthStage {
    let request = AuthRequest {
        callers: callers.iter().map(|c| c.to_string()).collect(),
        organization_id: organization_id.to_owned(),
    };
    let mut stage = start();
    for event in events {
        stage = advance(&request, stage, event);
    }
    stage
}

#[test]
fn caller_is_rejected_before_assertion_or_storage() {
    let stage = authorize(
        &["portfolio-api"],
        "org",
        vec![AuthEvent::CallerInstance(Some("unknown".to_owned()))],
    );
    let AuthStage::Finished(Err(failure)) = stage else {
        panic!("an unknown caller must end the authorization");
    };
    assert_eq!(failure, AuthorizationFailure::Forbidden);
    let result: Result<(), PortfolioReadError> = Err(read_auth_error(&failure).unwrap());
    assert_eq!(result, Err(PortfolioReadError::Forbidden));
}

#[test]
fn rollup_uses_only_owned_project_snapshots() {
    let initiative = InitiativeRecord {
        initiative_id: "ini".to_owned(),
        organization_id: "org".to_owned(),
        name: "Launch".to_owned(),
        summary: None,
        owner_subject: None,
        target_start: None,
        target_date: None,
        health: "at_risk".to_owned(),
        progress: 55,
        project_count: 2,
        archived: false,
        revision: "3".to_owned(),
        created_at: "2026-08-30T00:00:00Z".to_owned(),
        updated_at: "2026-08-30T00:00:00Z".to_owned(),
        archived_at: None,
        row_seq: 1,
    };
    let project = |id: &str, status: &str, health: &str, progress| ProjectRecord {
        project_id: id.to_owned(),
        name_snapshot: id.to_owned(),
        status_category: status.to_owned(),
        health: health.to_owned(),
        progress,
        target_start: Some("2026-08-01".to_owned()),
        target_date: Some("2026-09-01".to_owned()),
        snapshot_revision: "p1".to_owned(),
        observed_at: "2026-08-30T00:00:00Z".to_owned(),
        position: 0,
        membership_revision: "1".to_owned(),
        initiative_revision: None,
    };
    let rollup = compute_rollup(
        &initiative,
        &[
            project("a", "completed", "on_track", 100),
            project("b", "started", "off_track", 20),
        ],
        0,
    )
    .unwrap();
    assert_eq!(rollup.project_count, 2);
    assert_eq!(rollup.completed_count, 1);
    assert_eq!(rollup.off_track_count, 1);
    let average = rollup
        .average_project_progress
        .map(|average| average.total as f64 / average.count as f64);
    assert_eq!(average, Some(60.0));
    assert_eq!(rollup.source, "owned_project_snapshots");
}

#[test]
fn full_authorization_records_caller_and_actor() {
    let stage = authorize(
        &["portfolio-api", "portfolio-admin"],
        "org-1",
        vec![
            AuthEvent::CallerInstance(Some("portfolio-admin".to_owned())),
            AuthEvent::ActorProjected(ActorProjection::Subject("usr_1".to_owned())),
            AuthEvent::MembershipChecked(DependencyReply::Answer(true)),
            AuthEvent::PermissionChecked(DependencyReply::Answer(true)),
        ],
    );
    let AuthStage::Finished(Ok(authorized)) = stage else {
        panic!("every check passed");
    };
    assert_eq!(
        authorized,
        Authorized {
            caller: "portfolio-admin".to_owned(),
            actor: "usr_1".to_owned()
        }
    );
}

#[test]
fn authorization_failures_at_each_stage() {
    let missing_caller = authorize(&["portfolio-api"], "org", vec![AuthEvent::CallerInstance(None)]);
    assert!(matches!(
        missing_caller,
        AuthStage::Finished(Err(AuthorizationFailure::Forbidden))
    ));
    let rejected = authorize(
        &["portfolio-api"],
        "org",
        vec![
            AuthEvent::CallerInstance(Some("portfolio-api".to_owned())),
            AuthEvent::ActorProjected(ActorProjection::Rejected),
        ],
    );
    assert!(matches!(
        rejected,
        AuthStage::Finished(Err(AuthorizationFailure::Unauthenticated))
    ));
    let no_verifier = authorize(
        &["portfolio-api"],
        "org",
        vec![
            AuthEvent::CallerInstance(Some("portfolio-api".to_owned())),
            AuthEvent::ActorProjected(ActorProjection::VerifierUnavailable),
        ],
    );
    assert!(matches!(
        no_verifier,
        AuthStage::Finished(Err(AuthorizationFailure::Runtime(
            RuntimeCause::InvalidVerifier
        )))
    ));
    let bad_actor = authorize(
        &["portfolio-api"],
        "org",
        vec![
            AuthEvent::CallerInstance(Some("portfolio-api".to_owned())),
            AuthEvent::ActorProjected(ActorProjection::Subject("usr\u{7}".to_owned())),
        ],
    );
    assert!(matches!(
        bad_actor,
        AuthStage::Finished(Err(AuthorizationFailure::Forbidden))
    ));
    let inactive = authorize(
        &["portfolio-api"],
        "org",
        vec![
            AuthEvent::CallerInstance(Some("portfolio-api".to_owned())),
            AuthEvent::ActorProjected(ActorProjection::Subject("usr_1".to_owned())),
            AuthEvent::MembershipChecked(DependencyReply::Answer(false)),
        ],
    );
    assert!(matches!(
        inactive,
        AuthStage::Finished(Err(AuthorizationFailure::Forbidden))
    ));
    let membership_domain = authorize(
        &["portfolio-api"],
        "org",
        vec![
            AuthEvent::CallerInstance(Some("portfolio-api".to_owned())),
            AuthEvent::ActorProjected(ActorProjection::Subject("usr_1".to_owned())),
            AuthEvent::MembershipChecked(DependencyReply::DomainError),
        ],
    );
    assert!(matches!(
        membership_domain,
        AuthStage::Finished(Err(AuthorizationFailure::Runtime(
            RuntimeCause::MembershipProtocolViolation
        )))
    ));
    let denied = authorize(
        &["portfolio-api"],
        "org",
        vec![
            AuthEvent::CallerInstance(Some("portfolio-api".to_owned())),
            AuthEvent::ActorProjected(ActorProjection::Subject("usr_1".to_owned())),
            AuthEvent::MembershipChecked(DependencyReply::Answer(true)),
            AuthEvent::PermissionChecked(DependencyReply::Answer(false)),
        ],
    );
    assert!(matches!(
        denied,
        AuthStage::Finished(Err(AuthorizationFailure::Forbidden))
    ));
    let access_runtime = authorize(
        &["portfolio-api"],
        "org",
        vec![
            AuthEvent::CallerInstance(Some("portfolio-api".to_owned())),
            AuthEvent::ActorProjected(ActorProjection::Subject("usr_1".to_owned())),
            AuthEvent::MembershipChecked(DependencyReply::Answer(true)),
            AuthEvent::PermissionChecked(DependencyReply::RuntimeFailure),
        ],
    );
    assert!(matches!(
        access_runtime,
        AuthStage::Finished(Err(AuthorizationFailure::Runtime(RuntimeCause::Dependency)))
    ));
}

#[test]
fn out_of_turn_event_leaves_stage() {
    let stage = authorize(
        &["portfolio-api"],
        "org",
        vec![AuthEvent::MembershipChecked(DependencyReply::Answer(true))],
    );
    assert!(matches!(stage, AuthStage::AwaitingCaller));
}

#[test]
fn configuration_errors_in_order() {
    let issuer = ActorAssertionIssuer::new("auth.users", b"portfolio-test-key");
    let key = issuer.public_key_base64();
    let build = |schema: &str, secret: &str, issuer: &str, key: &str, portfolio: Vec<&str>, admin: Vec<&str>| {
        ProjectPortfolioConfig::new(
            schema.to_owned(),
            secret.to_owned(),
            issuer.to_owned(),
            key.to_owned(),
            portfolio.into_iter().map(str::to_owned).collect(),
            admin.into_iter().map(str::to_owned).collect(),
        )
    };
    assert!(build("portfolio", "db", "auth.users", &key, vec!["a"], vec!["b"]).is_ok());
    assert_eq!(
        build("not-valid", "db", "auth.users", &key, vec!["a"], vec!["b"]),
        Err(ProjectPortfolioConfigError::InvalidSchema)
    );
    assert_eq!(
        build("pg_portfolio", "db", "auth.users", &key, vec!["a"], vec!["b"]),
        Err(ProjectPortfolioConfigError::InvalidSchema)
    );
    assert_eq!(
        build("portfolio", "a//b", "auth.users", &key, vec!["a"], vec!["b"]),
        Err(ProjectPortfolioConfigError::InvalidSecretReference)
    );
    assert_eq!(
        build("portfolio", "db", "auth users", &key, vec!["a"], vec!["b"]),
        Err(ProjectPortfolioConfigError::InvalidAuthIssuer)
    );
    assert_eq!(
        build("portfolio", "db", "auth.users", "not-a-key", vec!["a"], vec!["b"]),
        Err(ProjectPortfolioConfigError::InvalidAuthPublicKey)
    );
    assert_eq!(
        build("portfolio", "db", "auth.users", &key, vec![], vec!["b"]),
        Err(ProjectPortfolioConfigError::InvalidPortfolioCallers)
    );
    assert_eq!(
        build("portfolio", "db", "auth.users", &key, vec!["a"], vec!["b", "b"]),
        Err(ProjectPortfolioConfigError::InvalidAdminCallers)
    );
    assert_eq!(
        ProjectPortfolioConfigError::InvalidAdminCallers.message(),
        "admin_callers must contain unique exact Instance keys"
    );
    assert!(config().assertion_verifier().is_some());
}

#[test]
fn schema_name_is_validated_by_postgres_kit() {
    let issuer = ActorAssertionIssuer::new("auth.users", b"portfolio-test-key");
    let with_schema = |schema: &str| {
        ProjectPortfolioConfig::new(
            schema.to_owned(),
            "db".to_owned(),
            "auth.users".to_owned(),
            issuer.public_key_base64(),
            vec!["a".to_owned()],
            vec!["b".to_owned()],
        )
    };
    assert!(with_schema("portfolio").is_ok());
    assert!(with_schema("not-valid").is_err());
}

#[test]
fn invalid_configuration_detail_names_the_field() {
    assert_eq!(validate_config(&config()), Ok(()));
    let mut invalid = config();
    invalid.schema = "public".to_owned();
    assert_eq!(
        validate_config(&invalid),
        Err("Project Portfolio configuration is invalid: invalid owned PostgreSQL schema".to_owned())
    );
}

#[test]
fn operations_use_their_role_allowlist_and_permission() {
    let config = config();
    let admin = auth_request(&config, Operation::ReorderProjects, "org");
    assert_eq!(admin.callers, vec!["portfolio-admin".to_owned()]);
    assert_eq!(admin.organization_id, "org");
    assert_eq!(role(Operation::ReorderProjects), Role::Admin);
    assert_eq!(permission(Operation::ReorderProjects), "portfolio.initiatives.admin");
    let read = auth_request(&config, Operation::ReadRollup, "org");
    assert_eq!(read.callers, vec!["portfolio-api".to_owned()]);
    assert_eq!(permission(Operation::ReadRollup), "portfolio.initiatives.read");
    assert_eq!(permission(Operation::AddInitiativeUpdate), "portfolio.initiatives.write");
    assert_eq!(role(Operation::CreateInitiative), Role::Portfolio);
    let forbidden = authorize(
        &["portfolio-admin"],
        "org",
        vec![AuthEvent::CallerInstance(Some("portfolio-api".to_owned()))],
    );
    assert!(matches!(
        forbidden,
        AuthStage::Finished(Err(AuthorizationFailure::Forbidden))
    ));
}

const PORTFOLIO_CAPABILITY_ID: &str = "lenso.project-portfolio@1";
const GET_INITIATIVE_OPERATION: &str = "get_initiative";
const UPDATE_INITIATIVE_OPERATION: &str = "update_initiative";

#[derive(Clone, Debug)]
struct PortfolioActor {
    subject: String,
}

impl TypedActor for PortfolioActor {
    fn from_assertion(assertion: &ActorAssertion) -> Result<Self, ActorProjectionError> {
        Ok(Self {
            subject: assertion.subject().to_owned(),
        })
    }
}

#[derive(Clone, Copy, Debug)]
struct UtcClock;

impl AssertionClock for UtcClock {
    fn now(&self) -> OffsetDateTime {
        OffsetDateTime::now_utc()
    }
}

fn context(caller: &str) -> InvocationContext {
    InvocationContext::new(1, None, CancellationToken::new()).with_caller_instance(caller)
}

#[test]
fn actor_assertion_is_bound_to_exact_operation() {
    let issuer = ActorAssertionIssuer::new("auth.users", b"portfolio-test-key");
    let now = OffsetDateTime::now_utc();
    let assertion = issuer.issue(
        "usr_1",
        "user",
        "strong",
        [audience(PORTFOLIO_CAPABILITY_ID, GET_INITIATIVE_OPERATION)],
        Validity::new(
            now - TimeDuration::seconds(1),
            now + TimeDuration::minutes(1),
        )
        .unwrap(),
        std::collections::BTreeMap::default(),
    );
    let context = assertion.attach(context("portfolio-api")).unwrap();
    let actor = config()
        .assertion_verifier()
        .unwrap()
        .project_context::<PortfolioActor>(
            &context,
            PORTFOLIO_CAPABILITY_ID,
            GET_INITIATIVE_OPERATION,
            &UtcClock,
        )
        .unwrap();
    assert_eq!(actor.subject, "usr_1");
    assert!(
        config()
            .assertion_verifier()
            .unwrap()
            .project_context::<PortfolioActor>(
                &context,
                PORTFOLIO_CAPABILITY_ID,
                UPDATE_INITIATIVE_OPERATION,
                &UtcClock,
            )
            .is_err()
    );
}
