use xai_grok_pager::provider_presets::all_presets;

#[test]
fn all_presets_includes_expected_ids() {
    let ids: Vec<_> = all_presets().iter().map(|preset| preset.id).collect();

    for expected in ["openai", "anthropic", "ollama", "openrouter", "groq", "together", "deepseek", "custom"] {
        assert!(ids.contains(&expected), "expected preset list to contain {expected:?}, got {ids:?}");
    }
}

#[test]
fn anthropic_and_ollama_presets_capture_special_auth_behavior() {
    let presets = all_presets();
    let anthropic = presets.iter().find(|preset| preset.id == "anthropic").expect("anthropic preset");
    assert_eq!(anthropic.api_backend, "messages");
    assert_eq!(anthropic.extra_headers.get("anthropic-version").map(String::as_str), Some("2023-06-01"));

    let ollama = presets.iter().find(|preset| preset.id == "ollama").expect("ollama preset");
    assert!(ollama.auth_not_required);
    assert_eq!(ollama.default_env_key, None);
}

#[test]
fn presets_are_listed_in_display_order_with_their_urls() {
    let presets = all_presets();
    assert_eq!(presets.len(), 8);
    let table: Vec<_> = presets.iter().map(|p| (p.id, p.label, p.base_url, p.api_backend, p.default_env_key)).collect();
    assert_eq!(
        table,
        vec![
            ("openai", "OpenAI", "https://api.openai.com/v1", "chat_completions", Some("OPENAI_API_KEY")),
            ("anthropic", "Anthropic", "https://api.anthropic.com/v1", "messages", Some("ANTHROPIC_API_KEY")),
            ("ollama", "Ollama", "http://localhost:11434/v1", "chat_completions", None),
            ("openrouter", "OpenRouter", "https://openrouter.ai/api/v1", "chat_completions", Some("OPENROUTER_API_KEY")),
            ("groq", "Groq", "https://api.groq.com/openai/v1", "chat_completions", Some("GROQ_API_KEY")),
            ("together", "Together", "https://api.together.xyz/v1", "chat_completions", Some("TOGETHER_API_KEY")),
            ("deepseek", "DeepSeek", "https://api.deepseek.com/v1", "chat_completions", Some("DEEPSEEK_API_KEY")),
            ("custom", "Custom OpenAI-compatible", "", "chat_completions", None),
        ]
    );
    assert_eq!(presets.iter().filter(|p| !p.extra_headers.is_empty()).count(), 1);
}

#[test]
fn cloned_preset_keeps_its_headers() {
    let presets = all_presets();
    let copy = presets[1].clone();
    assert_eq!(copy, presets[1]);
    assert_eq!(copy.extra_headers.len(), 1);
}

#[test]
fn preset_ids_are_distinct() {
    let presets = all_presets();
    for (i, a) in presets.iter().enumerate() {
        for b in presets.iter().skip(i + 1) {
            assert_ne!(a.id, b.id);
        }
    }
}
