use xai_grok_pager::setup_wizard::state::{
    default_display_name, derived_env_key_for_preset, non_empty, sanitize_catalog_component, session_env_export,
    EditFieldFocus,
    SetupWizardPhase, SetupWizardState,
};

fn wizard_for(preset: &str) -> SetupWizardState {
    let mut state = SetupWizardState::new();
    state.select_preset_by_id(preset).unwrap();
    state.confirm_selected_preset().unwrap();
    state
}

fn type_into(state: &mut SetupWizardState, focus: EditFieldFocus, text: &str) {
    state.edit_fields_mut().unwrap().focus = focus;
    assert!(state.push_str(text));
}

#[test]
fn new_wizard_starts_at_the_first_preset() {
    let state = SetupWizardState::new();
    assert_eq!(state.phase(), &SetupWizardPhase::SelectPreset);
    assert_eq!(state.preset_cursor(), 0);
    assert_eq!(state.selected_preset().id, "openai");
    assert!(state.edit_fields().is_none());
    assert_eq!(state.presets().len(), 8);
    assert_eq!(SetupWizardState::default(), state);
}

#[test]
fn preset_navigation_wraps_both_ways() {
    let mut state = SetupWizardState::new();
    state.select_prev_preset();
    assert_eq!(state.preset_cursor(), 7);
    assert_eq!(state.selected_preset().id, "custom");
    state.select_next_preset();
    assert_eq!(state.preset_cursor(), 0);
    for _ in 0..8 {
        state.select_next_preset();
    }
    assert_eq!(state.preset_cursor(), 0);
    state.select_next_preset();
    state.select_prev_preset();
    assert_eq!(state.preset_cursor(), 0);
}

#[test]
fn presets_are_selected_by_id() {
    let mut state = SetupWizardState::new();
    assert_eq!(state.select_preset_by_id("ollama"), Ok(()));
    assert_eq!(state.preset_cursor(), 2);
    assert_eq!(state.select_preset_by_id("nope"), Err("Unknown preset: nope".to_string()));
    assert_eq!(state.preset_cursor(), 2);
}

#[test]
fn confirming_ollama_prefills_a_keyless_form() {
    let state = wizard_for("ollama");
    assert_eq!(state.phase(), &SetupWizardPhase::EditFields);
    let fields = state.edit_fields().unwrap();
    assert_eq!(fields.base_url, "http://localhost:11434/v1");
    assert_eq!(fields.name, "Ollama");
    assert_eq!(fields.model, "");
    assert!(fields.auth_not_required);
    assert_eq!(fields.env_key_name, None);
    assert!(!fields.requires_api_key());
    assert_eq!(
        fields.visible_focus_order(),
        vec![EditFieldFocus::BaseUrl, EditFieldFocus::Model, EditFieldFocus::Name, EditFieldFocus::Submit, EditFieldFocus::Back]
    );
    assert_eq!(state.focus(), Some(EditFieldFocus::BaseUrl));
}

#[test]
fn custom_preset_gets_the_custom_env_key() {
    let state = wizard_for("custom");
    assert_eq!(state.edit_fields().unwrap().env_key_name.as_deref(), Some("CUSTOM_PROVIDER_API_KEY"));
    let state = wizard_for("anthropic");
    let fields = state.edit_fields().unwrap();
    assert_eq!(fields.env_key_name.as_deref(), Some("ANTHROPIC_API_KEY"));
    assert_eq!(fields.extra_headers.get("anthropic-version").map(String::as_str), Some("2023-06-01"));
}

#[test]
fn focus_cycles_through_the_shown_fields() {
    let mut state = wizard_for("openai");
    let order = state.edit_fields().unwrap().visible_focus_order();
    assert_eq!(order.len(), 7);
    for expected in order.iter().skip(1).chain(order.iter().take(1)) {
        state.focus_next();
        assert_eq!(state.focus(), Some(*expected));
    }
    state.focus_prev();
    assert_eq!(state.focus(), Some(EditFieldFocus::Back));
    state.focus_next();
    assert_eq!(state.focus(), Some(EditFieldFocus::BaseUrl));
}

#[test]
fn a_hidden_focus_goes_back_to_the_base_url() {
    let mut state = wizard_for("ollama");
    state.edit_fields_mut().unwrap().focus = EditFieldFocus::ApiKey;
    state.finish_with_error("boom");
    state.focus_next();
    assert_eq!(state.focus(), Some(EditFieldFocus::BaseUrl));
    assert_eq!(state.current_error(), Some("boom"));
}

#[test]
fn typing_edits_the_focused_field_and_clears_errors() {
    let mut state = wizard_for("openai");
    state.focus_next();
    state.finish_with_error("failed");
    assert_eq!(state.current_error(), Some("failed"));
    assert!(state.insert_char('g'));
    assert_eq!(state.phase(), &SetupWizardPhase::EditFields);
    assert!(state.push_str("pt-4o"));
    assert_eq!(state.edit_fields().unwrap().model, "gpt-4o");
    assert!(state.insert_char('!'));
    assert!(state.backspace());
    assert_eq!(state.edit_fields().unwrap().model, "gpt-4o");
    state.set_model("");
    assert!(!state.backspace());
    state.edit_fields_mut().unwrap().focus = EditFieldFocus::Submit;
    assert!(!state.insert_char('x'));
    assert!(!state.push_str("x"));
}

#[test]
fn no_form_means_no_edits() {
    let mut state = SetupWizardState::new();
    assert!(!state.insert_char('a'));
    assert!(!state.backspace());
    assert!(!state.toggle_store_key_in_config());
    state.set_model("m");
    state.focus_next();
    assert_eq!(state.focus(), None);
    assert_eq!(state.build_validate_request(None).unwrap_err(), "No preset selected");
    assert_eq!(state.build_provider_write().unwrap_err(), "No preset selected");
    assert_eq!(state.build_submission(None).unwrap_err(), "No preset selected");
}

#[test]
fn store_key_toggles_only_when_a_key_is_needed() {
    let mut state = wizard_for("openai");
    assert!(state.toggle_store_key_in_config());
    assert!(state.edit_fields().unwrap().store_key_in_config);
    assert!(state.toggle_store_key_in_config());
    assert!(!state.edit_fields().unwrap().store_key_in_config);
    let mut keyless = wizard_for("ollama");
    assert!(!keyless.toggle_store_key_in_config());
}

#[test]
fn phases_follow_the_flow() {
    let mut state = wizard_for("openai");
    state.start_validating();
    assert_eq!(state.phase(), &SetupWizardPhase::Validating);
    state.clear_error_state();
    assert_eq!(state.phase(), &SetupWizardPhase::Validating);
    state.finish_with_error("nope");
    state.clear_error_state();
    assert_eq!(state.phase(), &SetupWizardPhase::EditFields);
    state.return_to_preset_select();
    assert_eq!(state.phase(), &SetupWizardPhase::SelectPreset);
    assert!(state.edit_fields().is_some());
}

#[test]
fn required_fields_are_checked_in_order() {
    let mut state = wizard_for("custom");
    assert_eq!(state.build_validate_request(None).unwrap_err(), "Provider base URL is required");
    type_into(&mut state, EditFieldFocus::BaseUrl, "http://llm.local/v1");
    assert_eq!(state.build_provider_write().unwrap_err(), "Provider model is required");
    type_into(&mut state, EditFieldFocus::Model, "  my-model ");
    assert_eq!(
        state.build_validate_request(None).unwrap_err(),
        "API key required (enter one now or export CUSTOM_PROVIDER_API_KEY)"
    );
    assert_eq!(
        state.build_submission(None).unwrap_err(),
        "API key required (enter one now or export CUSTOM_PROVIDER_API_KEY)"
    );
    let request = state.build_validate_request(Some("  env-key ")).unwrap();
    assert_eq!(request.api_key.as_deref(), Some("env-key"));
    assert_eq!(request.model, "my-model");
    assert_eq!(request.base_url, "http://llm.local/v1");
}

#[test]
fn an_empty_environment_value_does_not_count_as_a_key() {
    let mut state = wizard_for("openai");
    type_into(&mut state, EditFieldFocus::Model, "gpt-4o");
    assert_eq!(
        state.build_validate_request(Some("   ")).unwrap_err(),
        "API key required (enter one now or export OPENAI_API_KEY)"
    );
}

#[test]
fn openai_submission_uses_the_env_key_when_exported() {
    let mut state = wizard_for("openai");
    type_into(&mut state, EditFieldFocus::Model, "GPT-4o");
    type_into(&mut state, EditFieldFocus::ApiKey, " sk-typed ");
    let submission = state.build_submission(Some("sk-env")).unwrap();
    assert_eq!(submission.validate.api_key.as_deref(), Some("sk-typed"));
    assert_eq!(submission.write.catalog_id, "openai-gpt-4o");
    assert_eq!(submission.write.name, "OpenAI");
    assert_eq!(submission.write.env_key.as_deref(), Some("OPENAI_API_KEY"));
    assert_eq!(submission.write.api_key, None);
    assert_eq!(submission.post_setup_notice, None);
}

#[test]
fn typed_key_without_its_env_var_is_used_for_the_session_only() {
    let mut state = wizard_for("openai");
    type_into(&mut state, EditFieldFocus::Model, "gpt-4o");
    type_into(&mut state, EditFieldFocus::ApiKey, " sk-typed ");
    let submission = state.build_submission(None).unwrap();
    assert_eq!(submission.validate.api_key.as_deref(), Some("sk-typed"));
    assert_eq!(submission.write.api_key, None);
    assert_eq!(submission.write.env_key.as_deref(), Some("OPENAI_API_KEY"));
    assert_eq!(
        submission.post_setup_notice.as_deref(),
        Some("Saved provider config. OPENAI_API_KEY is not exported in this environment, so the typed API key is used for this session only. Export OPENAI_API_KEY to keep using it.")
    );
    let fields = state.edit_fields().unwrap();
    assert_eq!(
        session_env_export(fields, None),
        Some(("OPENAI_API_KEY".to_string(), "sk-typed".to_string()))
    );
    assert_eq!(session_env_export(fields, Some("sk-env")), None);
}

#[test]
fn typed_key_is_stored_only_on_opt_in_and_with_a_warning() {
    let mut state = wizard_for("openai");
    type_into(&mut state, EditFieldFocus::Model, "gpt-4o");
    type_into(&mut state, EditFieldFocus::ApiKey, "sk-typed");
    assert!(state.toggle_store_key_in_config());
    let submission = state.build_submission(None).unwrap();
    assert_eq!(submission.write.api_key.as_deref(), Some("sk-typed"));
    assert_eq!(
        submission.post_setup_notice.as_deref(),
        Some("Saved provider config. The API key is stored in plain text in config.toml; keep that file private.")
    );
    assert_eq!(session_env_export(state.edit_fields().unwrap(), None), None);
    let submission = state.build_submission(Some("sk-env")).unwrap();
    assert_eq!(submission.write.api_key.as_deref(), Some("sk-typed"));
}

#[test]
fn ollama_write_needs_no_key() {
    let mut state = wizard_for("ollama");
    type_into(&mut state, EditFieldFocus::Model, "Llama 3.1 : 70B");
    type_into(&mut state, EditFieldFocus::Name, "");
    state.edit_fields_mut().unwrap().name.clear();
    let submission = state.build_submission(None).unwrap();
    assert_eq!(submission.validate.api_key, None);
    assert!(submission.validate.auth_not_required);
    assert_eq!(submission.write.catalog_id, "ollama-llama-3-1-70b");
    assert_eq!(submission.write.name, "Ollama Llama 3.1 : 70B");
    assert_eq!(submission.write.env_key, None);
    assert_eq!(submission.write.api_key, None);
    assert!(submission.write.auth_not_required);
}

#[test]
fn catalog_components_are_sanitized() {
    assert_eq!(sanitize_catalog_component("GPT-4o"), "gpt-4o");
    assert_eq!(sanitize_catalog_component("--A__b--"), "a-b");
    assert_eq!(sanitize_catalog_component("***"), "model");
    assert_eq!(sanitize_catalog_component(""), "model");
    assert_eq!(sanitize_catalog_component("meta/llama:3"), "meta-llama-3");
    assert_eq!(sanitize_catalog_component("Ünïcode"), "n-code");
}

#[test]
fn env_keys_are_derived_from_preset_ids() {
    assert_eq!(derived_env_key_for_preset("my-provider.v2"), "MY_PROVIDER_V2_API_KEY");
    assert_eq!(derived_env_key_for_preset("CuStOm"), "CUSTOM_PROVIDER_API_KEY");
    assert_eq!(derived_env_key_for_preset(""), "CUSTOM_PROVIDER_API_KEY");
}

#[test]
fn helpers_behave_as_documented() {
    assert_eq!(non_empty(""), None);
    assert_eq!(non_empty("x"), Some("x"));
    assert_eq!(default_display_name("OpenAI", "gpt-4o"), "OpenAI gpt-4o");
}

#[test]
fn cloned_wizard_keeps_its_form() {
    let mut state = wizard_for("anthropic");
    type_into(&mut state, EditFieldFocus::Model, "sonnet-4");
    let copy = state.clone();
    assert_eq!(copy, state);
}

#[test]
fn catalog_components_are_well_formed() {
    for model in ["GPT-4o", "  spaced  out ", "-x-", "a--b", "Ω", "llama3:70b-instruct-q4_K_M", ""] {
        let c = sanitize_catalog_component(model);
        assert!(!c.is_empty());
        assert!(c.chars().all(|ch| ch.is_ascii_lowercase() || ch.is_ascii_digit() || ch == '-'));
        assert!(!c.starts_with('-') && !c.ends_with('-'));
        assert!(!c.contains("--"));
    }
}

#[test]
fn pasting_text_equals_typing_it_character_by_character() {
    let mut pasted = wizard_for("openai");
    let mut typed = wizard_for("openai");
    pasted.edit_fields_mut().unwrap().focus = EditFieldFocus::Name;
    typed.edit_fields_mut().unwrap().focus = EditFieldFocus::Name;
    assert!(pasted.push_str("My model"));
    for ch in "My model".chars() {
        assert!(typed.insert_char(ch));
    }
    assert_eq!(pasted, typed);
    assert!(pasted.edit_fields().unwrap().name.ends_with("My model"));
}
