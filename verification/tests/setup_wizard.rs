use agent_client_protocol::v1::schema as acp;
use xai_grok_pager::setup_wizard::{cold_start_needs_provider_setup, SetupWizardState};

fn make_auth_method(id: &str, name: &str) -> acp::AuthMethod {
    acp::AuthMethod::Agent(acp::AuthMethodAgent::new(acp::AuthMethodId::new(id), name.to_string()))
}

#[test]
fn empty_auth_methods_request_provider_setup_not_login() {
    assert!(cold_start_needs_provider_setup(&[], false));
}

#[test]
fn advertised_auth_methods_skip_provider_setup() {
    let methods = vec![make_auth_method("grok.com", "grok.com")];
    assert!(!cold_start_needs_provider_setup(&methods, false));
}

#[test]
fn force_login_disables_provider_setup_gate() {
    assert!(!cold_start_needs_provider_setup(&[], true));
}

#[test]
fn forced_login_with_methods_skips_provider_setup() {
    let methods = vec![make_auth_method("xai.api_key", "API key")];
    assert!(!cold_start_needs_provider_setup(&methods, true));
}

#[test]
fn placeholder_state_is_its_default() {
    assert_eq!(SetupWizardState::new(), SetupWizardState::default());
}
