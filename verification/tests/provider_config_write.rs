use indexmap::IndexMap;
use xai_grok_pager::provider_config_write::{
    merge_provider_model_config, render_provider_model_config, ConfigWriteError, ProviderModelWrite,
};

fn openai_write() -> ProviderModelWrite {
    ProviderModelWrite {
        catalog_id: "openai-gpt-4o".into(),
        model: "gpt-4o".into(),
        name: "GPT-4o".into(),
        base_url: "https://api.openai.com/v1".into(),
        api_backend: "chat_completions".into(),
        env_key: Some("OPENAI_API_KEY".into()),
        api_key: None,
        auth_not_required: false,
        extra_headers: Default::default(),
    }
}

fn ollama_write() -> ProviderModelWrite {
    ProviderModelWrite {
        catalog_id: "ollama-llama3".into(),
        model: "llama3".into(),
        name: "Llama 3".into(),
        base_url: "http://localhost:11434/v1".into(),
        api_backend: "chat_completions".into(),
        env_key: None,
        api_key: None,
        auth_not_required: true,
        extra_headers: Default::default(),
    }
}

#[test]
fn writes_auth_models_and_model_table() {
    let body = render_provider_model_config("", &openai_write()).unwrap();
    assert!(body.contains("preferred_method") && body.contains("api_key"));
    assert!(body.contains("[models]"));
    assert!(body.contains("default = \"openai-gpt-4o\""));
    assert!(body.contains("[model.openai-gpt-4o]"));
    assert!(body.contains("base_url = \"https://api.openai.com/v1\""));
    assert!(body.contains("env_key = \"OPENAI_API_KEY\""));
}

#[test]
fn merge_preserves_unrelated_tables() {
    let body = render_provider_model_config("[ui]\nvim_mode = true\n", &ollama_write()).unwrap();
    assert!(body.contains("vim_mode = true"));
    assert!(body.contains("auth_not_required = true"));
}

#[test]
fn invalid_existing_config_returns_error_without_clobbering_file() {
    let invalid = "this is [not valid toml\n";
    let err = render_provider_model_config(invalid, &openai_write()).expect_err("invalid TOML should not be overwritten");
    assert_eq!(
        err.refusal_message("/tmp/config.toml"),
        match &err {
            ConfigWriteError::Unparseable { detail } => {
                assert!(!detail.is_empty());
                format!("refusing to overwrite unparseable /tmp/config.toml: {detail}")
            }
        }
    );
}

#[test]
fn written_config_reads_back_with_every_field() {
    let mut write = openai_write();
    write.api_key = Some("sk-test".into());
    let mut headers = IndexMap::new();
    headers.insert("anthropic-version".to_string(), "2023-06-01".to_string());
    write.extra_headers = headers;
    let body = render_provider_model_config("", &write).unwrap();
    let doc: toml_edit::DocumentMut = body.parse().unwrap();
    assert_eq!(doc["auth"]["preferred_method"].as_str(), Some("api_key"));
    assert_eq!(doc["models"]["default"].as_str(), Some("openai-gpt-4o"));
    let model = &doc["model"]["openai-gpt-4o"];
    assert_eq!(model["model"].as_str(), Some("gpt-4o"));
    assert_eq!(model["name"].as_str(), Some("GPT-4o"));
    assert_eq!(model["base_url"].as_str(), Some("https://api.openai.com/v1"));
    assert_eq!(model["api_backend"].as_str(), Some("chat_completions"));
    assert_eq!(model["env_key"].as_str(), Some("OPENAI_API_KEY"));
    assert_eq!(model["api_key"].as_str(), Some("sk-test"));
    assert!(model.get("auth_not_required").is_none());
    assert_eq!(model["extra_headers"]["anthropic-version"].as_str(), Some("2023-06-01"));
}

#[test]
fn rewriting_a_model_drops_fields_it_no_longer_has() {
    let mut first = openai_write();
    first.api_key = Some("sk-old".into());
    let mut headers = IndexMap::new();
    headers.insert("x-extra".to_string(), "1".to_string());
    first.extra_headers = headers;
    let body = render_provider_model_config("", &first).unwrap();
    let second = openai_write();
    let body = render_provider_model_config(&body, &second).unwrap();
    let doc: toml_edit::DocumentMut = body.parse().unwrap();
    let model = &doc["model"]["openai-gpt-4o"];
    assert!(model.get("api_key").is_none());
    assert!(model.get("extra_headers").is_none());
    assert_eq!(model["env_key"].as_str(), Some("OPENAI_API_KEY"));
}

#[test]
fn merging_twice_gives_the_same_document() {
    let once = render_provider_model_config("[ui]\nvim_mode = true\n", &openai_write()).unwrap();
    let twice = render_provider_model_config(&once, &openai_write()).unwrap();
    let a: toml_edit::DocumentMut = once.parse().unwrap();
    let b: toml_edit::DocumentMut = twice.parse().unwrap();
    assert_eq!(a.to_string(), b.to_string());
}

#[test]
fn a_second_provider_keeps_the_first_and_becomes_the_default() {
    let once = render_provider_model_config("", &openai_write()).unwrap();
    let twice = render_provider_model_config(&once, &ollama_write()).unwrap();
    let doc: toml_edit::DocumentMut = twice.parse().unwrap();
    assert_eq!(doc["models"]["default"].as_str(), Some("ollama-llama3"));
    assert_eq!(doc["model"]["openai-gpt-4o"]["model"].as_str(), Some("gpt-4o"));
    assert_eq!(doc["model"]["ollama-llama3"]["auth_not_required"].as_bool(), Some(true));
}

#[test]
fn non_table_items_in_the_way_are_replaced_by_tables() {
    let body = render_provider_model_config("auth = 5\nmodels = \"x\"\n", &openai_write()).unwrap();
    let doc: toml_edit::DocumentMut = body.parse().unwrap();
    assert_eq!(doc["auth"]["preferred_method"].as_str(), Some("api_key"));
    assert_eq!(doc["models"]["default"].as_str(), Some("openai-gpt-4o"));
}

#[test]
fn merge_gives_a_document_with_the_model() {
    let doc = merge_provider_model_config("", &ollama_write()).unwrap();
    assert_eq!(doc["model"]["ollama-llama3"]["base_url"].as_str(), Some("http://localhost:11434/v1"));
    assert!(doc["model"]["ollama-llama3"].get("env_key").is_none());
}

#[test]
fn extra_headers_are_written_in_their_order() {
    let mut write = openai_write();
    let mut headers = IndexMap::new();
    headers.insert("x-zeta".to_string(), "1".to_string());
    headers.insert("x-alpha".to_string(), "2".to_string());
    headers.insert("x-mid".to_string(), "3".to_string());
    write.extra_headers = headers;
    let body = render_provider_model_config("[model.openai-gpt-4o.extra_headers]\nx-old = \"0\"\nx-mid = \"9\"\n", &write).unwrap();
    let doc: toml_edit::DocumentMut = body.parse().unwrap();
    let table = doc["model"]["openai-gpt-4o"]["extra_headers"].as_table().unwrap();
    let keys: Vec<&str> = table.iter().map(|(k, _)| k).collect();
    assert_eq!(keys, vec!["x-zeta", "x-alpha", "x-mid"]);
    assert_eq!(table["x-mid"].as_str(), Some("3"));
}

#[test]
fn unwritten_keys_inside_written_tables_are_kept() {
    let existing = "[auth]\nother = 1\n\n[models]\nfallback = \"x\"\n\n[model]\nshared = true\n\n[model.openai-gpt-4o]\ncustom = \"keep\"\nmodel = \"old\"\n\n[model.other]\nmodel = \"m\"\n";
    let body = render_provider_model_config(existing, &openai_write()).unwrap();
    let doc: toml_edit::DocumentMut = body.parse().unwrap();
    assert_eq!(doc["auth"]["other"].as_integer(), Some(1));
    assert_eq!(doc["auth"]["preferred_method"].as_str(), Some("api_key"));
    assert_eq!(doc["models"]["fallback"].as_str(), Some("x"));
    assert_eq!(doc["model"]["shared"].as_bool(), Some(true));
    assert_eq!(doc["model"]["other"]["model"].as_str(), Some("m"));
    assert_eq!(doc["model"]["openai-gpt-4o"]["custom"].as_str(), Some("keep"));
    assert_eq!(doc["model"]["openai-gpt-4o"]["model"].as_str(), Some("gpt-4o"));
}

#[test]
fn written_keys_keep_their_slots_and_new_ones_go_last() {
    let existing = "[model.openai-gpt-4o]\ncustom = \"keep\"\nmodel = \"old\"\napi_key = \"sk-old\"\n";
    let body = render_provider_model_config(existing, &openai_write()).unwrap();
    let doc: toml_edit::DocumentMut = body.parse().unwrap();
    let table = doc["model"]["openai-gpt-4o"].as_table().unwrap();
    let keys: Vec<&str> = table.iter().map(|(k, _)| k).collect();
    assert_eq!(keys, vec!["custom", "model", "name", "base_url", "api_backend", "env_key"]);
    let fresh = render_provider_model_config("", &openai_write()).unwrap();
    let doc: toml_edit::DocumentMut = fresh.parse().unwrap();
    let roots: Vec<&str> = doc.as_table().iter().map(|(k, _)| k).collect();
    assert_eq!(roots, vec!["auth", "models", "model"]);
}
