//! Immutable configuration of one Project Portfolio Plugin Instance.
use vstd::prelude::*;
use vstd::string::*;
use vstd::utf8::*;

use crate::text::{
    caller_list, id_bytes, secret_reference_bytes, valid_callers, valid_id, valid_secret_reference,
};

verus! {

#[verifier::external_type_specification]
#[verifier::external_body]
pub struct ExActorAssertionVerifier(lenso_auth_sdk::ActorAssertionVerifier);

/// Name for whether `lenso_auth_sdk::ActorAssertionVerifier::from_public_key_base64`
/// accepts `public_key` (URL-safe unpadded base64 of a 32-byte Ed25519 key).
pub uninterp spec fn verification_key_accepted(public_key: Seq<char>) -> bool;

/// An owned PostgreSQL schema name as `lenso_postgres_kit` accepts it: 1 to 63
/// bytes, a lowercase ASCII letter first, then lowercase letters, digits or
/// `_`, and neither `public`, `information_schema` nor a `pg_` name.
pub open spec fn owned_schema_name(b: Seq<u8>) -> bool {
    &&& 0 < b.len() <= 63
    &&& 97 <= b[0] <= 122
    &&& forall|i: int|
        1 <= i < b.len() ==> ((97 <= #[trigger] b[i] <= 122) || (48 <= b[i] <= 57) || b[i] == 95)
    &&& b != seq![112u8, 117, 98, 108, 105, 99]
    &&& b != seq![
        105u8, 110, 102, 111, 114, 109, 97, 116, 105, 111, 110, 95, 115, 99, 104, 101, 109, 97,
    ]
    &&& !(b.len() >= 3 && b[0] == 112 && b[1] == 103 && b[2] == 95)
}

/// Calls `lenso_postgres_kit::SchemaPlan::new` with an empty migration list and
/// reports whether it refused the schema name. `SchemaPlan::new` checks the
/// name before it reads any migration, and refuses it with
/// `PlanError::InvalidSchemaName` exactly when `owned_schema_name` fails.
#[verifier::external_body]
fn schema_name_accepted(schema: &str) -> (r: bool)
    ensures
        r == owned_schema_name(schema.spec_bytes()),
{
    !matches!(
        lenso_postgres_kit::SchemaPlan::new(schema, &[]),
        Err(lenso_postgres_kit::PlanError::InvalidSchemaName { .. })
    )
}

/// Calls `lenso_auth_sdk::ActorAssertionVerifier::from_public_key_base64`.
/// Trusted: a verifier comes back exactly when the key is accepted; the
/// source shows that the issuer plays no part in that.
#[verifier::external_body]
fn actor_verifier(issuer: &str, public_key: &str) -> (r: Option<
    lenso_auth_sdk::ActorAssertionVerifier,
>)
    ensures
        r is Some <==> verification_key_accepted(public_key@),
{
    lenso_auth_sdk::ActorAssertionVerifier::from_public_key_base64(issuer, public_key).ok()
}

/// Immutable configuration for one Project Portfolio Plugin Instance.
#[derive(Clone, Debug, PartialEq, Eq)]
pub struct ProjectPortfolioConfig {
    pub schema: String,
    pub database_url_secret: String,
    pub auth_issuer: String,
    pub auth_assertion_public_key: String,
    pub portfolio_callers: Vec<String>,
    pub admin_callers: Vec<String>,
}

/// Why a configuration is refused.
#[derive(Clone, Copy, Debug, PartialEq, Eq, Structural)]
pub enum ProjectPortfolioConfigError {
    InvalidSchema,
    InvalidSecretReference,
    InvalidAuthIssuer,
    InvalidAuthPublicKey,
    InvalidPortfolioCallers,
    InvalidAdminCallers,
}

impl ProjectPortfolioConfigError {
    /// The message the error displays.
    pub fn message(&self) -> (r: &'static str)
        ensures
            r@ == config_error_message(*self),
    {
        proof {
            reveal_strlit("invalid owned PostgreSQL schema");
            reveal_strlit("invalid database URL secret reference");
            reveal_strlit("invalid Auth issuer");
            reveal_strlit("invalid Auth assertion public key");
            reveal_strlit("portfolio_callers must contain unique exact Instance keys");
            reveal_strlit("admin_callers must contain unique exact Instance keys");
        }
        match self {
            ProjectPortfolioConfigError::InvalidSchema => "invalid owned PostgreSQL schema",
            ProjectPortfolioConfigError::InvalidSecretReference => "invalid database URL secret reference",
            ProjectPortfolioConfigError::InvalidAuthIssuer => "invalid Auth issuer",
            ProjectPortfolioConfigError::InvalidAuthPublicKey => "invalid Auth assertion public key",
            ProjectPortfolioConfigError::InvalidPortfolioCallers => "portfolio_callers must contain unique exact Instance keys",
            ProjectPortfolioConfigError::InvalidAdminCallers => "admin_callers must contain unique exact Instance keys",
        }
    }
}

/// The text of each configuration error.
pub open spec fn config_error_message(e: ProjectPortfolioConfigError) -> Seq<char> {
    match e {
        ProjectPortfolioConfigError::InvalidSchema => "invalid owned PostgreSQL schema"@,
        ProjectPortfolioConfigError::InvalidSecretReference => "invalid database URL secret reference"@,
        ProjectPortfolioConfigError::InvalidAuthIssuer => "invalid Auth issuer"@,
        ProjectPortfolioConfigError::InvalidAuthPublicKey => "invalid Auth assertion public key"@,
        ProjectPortfolioConfigError::InvalidPortfolioCallers => "portfolio_callers must contain unique exact Instance keys"@,
        ProjectPortfolioConfigError::InvalidAdminCallers => "admin_callers must contain unique exact Instance keys"@,
    }
}

/// The first check that `config` fails, in the order the checks are made:
/// schema, database secret reference, Auth issuer, Auth key, portfolio
/// callers, admin callers.
pub open spec fn config_error(config: ProjectPortfolioConfig) -> Option<ProjectPortfolioConfigError> {
    if !owned_schema_name(encode_utf8(config.schema@)) {
        Some(ProjectPortfolioConfigError::InvalidSchema)
    } else if !secret_reference_bytes(encode_utf8(config.database_url_secret@)) {
        Some(ProjectPortfolioConfigError::InvalidSecretReference)
    } else if !id_bytes(encode_utf8(config.auth_issuer@)) {
        Some(ProjectPortfolioConfigError::InvalidAuthIssuer)
    } else if !verification_key_accepted(config.auth_assertion_public_key@) {
        Some(ProjectPortfolioConfigError::InvalidAuthPublicKey)
    } else if !caller_list(config.portfolio_callers@) {
        Some(ProjectPortfolioConfigError::InvalidPortfolioCallers)
    } else if !caller_list(config.admin_callers@) {
        Some(ProjectPortfolioConfigError::InvalidAdminCallers)
    } else {
        None
    }
}

impl ProjectPortfolioConfig {
    /// Builds a configuration and validates it.
    pub fn new(
        schema: String,
        database_url_secret: String,
        auth_issuer: String,
        auth_assertion_public_key: String,
        portfolio_callers: Vec<String>,
        admin_callers: Vec<String>,
    ) -> (r: Result<Self, ProjectPortfolioConfigError>)
        ensures
            ({
                let value = ProjectPortfolioConfig {
                    schema,
                    database_url_secret,
                    auth_issuer,
                    auth_assertion_public_key,
                    portfolio_callers,
                    admin_callers,
                };
                match config_error(value) {
                    Some(e) => r == Err::<Self, ProjectPortfolioConfigError>(e),
                    None => r == Ok::<Self, ProjectPortfolioConfigError>(value),
                }
            }),
    {
        let value = ProjectPortfolioConfig {
            schema,
            database_url_secret,
            auth_issuer,
            auth_assertion_public_key,
            portfolio_callers,
            admin_callers,
        };
        match value.validate() {
            Ok(()) => Ok(value),
            Err(e) => Err(e),
        }
    }

    /// Checks every field, in order, and reports the first one refused.
    pub fn validate(&self) -> (r: Result<(), ProjectPortfolioConfigError>)
        ensures
            match config_error(*self) {
                Some(e) => r == Err::<(), ProjectPortfolioConfigError>(e),
                None => r is Ok,
            },
    {
        if !schema_name_accepted(self.schema.as_str()) {
            return Err(ProjectPortfolioConfigError::InvalidSchema);
        }
        if !valid_secret_reference(self.database_url_secret.as_str()) {
            return Err(ProjectPortfolioConfigError::InvalidSecretReference);
        }
        if !valid_id(self.auth_issuer.as_str()) {
            return Err(ProjectPortfolioConfigError::InvalidAuthIssuer);
        }
        if actor_verifier(self.auth_issuer.as_str(), self.auth_assertion_public_key.as_str()).is_none() {
            return Err(ProjectPortfolioConfigError::InvalidAuthPublicKey);
        }
        if !valid_callers(self.portfolio_callers.as_slice()) {
            return Err(ProjectPortfolioConfigError::InvalidPortfolioCallers);
        }
        if !valid_callers(self.admin_callers.as_slice()) {
            return Err(ProjectPortfolioConfigError::InvalidAdminCallers);
        }
        Ok(())
    }

    /// The verifier of actor assertions for this Instance, when its key is accepted.
    pub fn assertion_verifier(&self) -> (r: Option<lenso_auth_sdk::ActorAssertionVerifier>)
        ensures
            r is Some <==> verification_key_accepted(self.auth_assertion_public_key@),
    {
        actor_verifier(self.auth_issuer.as_str(), self.auth_assertion_public_key.as_str())
    }
}

/// The detail of the plan failure that an invalid configuration is reported as.
pub open spec fn config_failure_detail(e: ProjectPortfolioConfigError) -> Seq<char> {
    "Project Portfolio configuration is invalid: "@ + config_error_message(e)
}

/// Validates a configuration as the plugin host does before activation; a
/// refusal carries the detail the host reports.
pub fn validate_config(config: &ProjectPortfolioConfig) -> (r: Result<(), String>)
    ensures
        match config_error(*config) {
            Some(e) => r matches Err(detail) && detail@ == config_failure_detail(e),
            None => r is Ok,
        },
{
    match config.validate() {
        Ok(()) => Ok(()),
        Err(e) => {
            let mut detail = String::from_str("Project Portfolio configuration is invalid: ");
            detail.append(e.message());
            Err(detail)
        },
    }
}

} // verus!
