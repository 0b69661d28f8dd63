//! Setup wizard startup gating.
use vstd::prelude::*;

pub mod state;
pub mod validate;

verus! {

#[verifier::external_type_specification]
#[verifier::external_body]
pub struct ExAuthMethod(agent_client_protocol::v1::schema::AuthMethod);

/// Minimal placeholder state for the provider setup wizard.
#[derive(Debug, Clone, Default, PartialEq, Eq)]
pub struct SetupWizardState;

impl SetupWizardState {
    pub fn new() -> (r: Self)
        ensures
            r == SetupWizardState,
    {
        SetupWizardState
    }
}

/// Fresh users can start with no advertised auth methods. At cold start that opens
/// provider setup instead of the interactive login flow, unless login is forced.
pub fn cold_start_needs_provider_setup(
    auth_methods: &[agent_client_protocol::v1::schema::AuthMethod],
    force_login: bool,
) -> (r: bool)
    ensures
        r == (auth_methods@.len() == 0 && !force_login),
{
    auth_methods.len() == 0 && !force_login
}

} // verus!
