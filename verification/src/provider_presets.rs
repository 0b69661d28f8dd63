//! The table of provider presets offered by the setup wizard.
use vstd::prelude::*;
use crate::headers::{header_entries, headers_clone, headers_insert, headers_new};

verus! {

/// One provider the wizard can prefill: where it lives, which backend it speaks and
/// how it authenticates.
#[derive(Debug, PartialEq, Eq)]
pub struct ProviderPreset {
    pub id: &'static str,
    pub label: &'static str,
    pub base_url: &'static str,
    pub api_backend: &'static str,
    pub default_env_key: Option<&'static str>,
    pub auth_not_required: bool,
    pub extra_headers: indexmap::IndexMap<String, String>,
}

impl Clone for ProviderPreset {
    fn clone(&self) -> (r: Self)
        ensures
            r@ == self@,
    {
        ProviderPreset {
            id: self.id,
            label: self.label,
            base_url: self.base_url,
            api_backend: self.api_backend,
            default_env_key: self.default_env_key,
            auth_not_required: self.auth_not_required,
            extra_headers: headers_clone(&self.extra_headers),
        }
    }
}

/// What a preset holds, as plain values.
pub struct PresetView {
    pub id: Seq<char>,
    pub label: Seq<char>,
    pub base_url: Seq<char>,
    pub api_backend: Seq<char>,
    pub default_env_key: Option<Seq<char>>,
    pub auth_not_required: bool,
    pub extra_headers: Seq<(Seq<char>, Seq<char>)>,
}

pub open spec fn opt_str_view(o: Option<&'static str>) -> Option<Seq<char>> {
    match o {
        Some(s) => Some(s@),
        None => None,
    }
}

impl View for ProviderPreset {
    type V = PresetView;

    open spec fn view(&self) -> PresetView {
        PresetView {
            id: self.id@,
            label: self.label@,
            base_url: self.base_url@,
            api_backend: self.api_backend@,
            default_env_key: opt_str_view(self.default_env_key),
            auth_not_required: self.auth_not_required,
            extra_headers: header_entries(self.extra_headers),
        }
    }
}

/// A preset that speaks `chat_completions`, needs a key and sends no extra headers.
pub open spec fn bearer_preset(
    id: Seq<char>,
    label: Seq<char>,
    base_url: Seq<char>,
    env_key: Option<Seq<char>>,
) -> PresetView {
    PresetView {
        id,
        label,
        base_url,
        api_backend: "chat_completions"@,
        default_env_key: env_key,
        auth_not_required: false,
        extra_headers: Seq::empty(),
    }
}

/// The presets, in the order the wizard lists them.
pub open spec fn preset_table() -> Seq<PresetView> {
    seq![
        bearer_preset("openai"@, "OpenAI"@, "https://api.openai.com/v1"@, Some("OPENAI_API_KEY"@)),
        PresetView {
            id: "anthropic"@,
            label: "Anthropic"@,
            base_url: "https://api.anthropic.com/v1"@,
            api_backend: "messages"@,
            default_env_key: Some("ANTHROPIC_API_KEY"@),
            auth_not_required: false,
            extra_headers: seq![("anthropic-version"@, "2023-06-01"@)],
        },
        PresetView {
            id: "ollama"@,
            label: "Ollama"@,
            base_url: "http://localhost:11434/v1"@,
            api_backend: "chat_completions"@,
            default_env_key: None,
            auth_not_required: true,
            extra_headers: Seq::empty(),
        },
        bearer_preset("openrouter"@, "OpenRouter"@, "https://openrouter.ai/api/v1"@, Some("OPENROUTER_API_KEY"@)),
        bearer_preset("groq"@, "Groq"@, "https://api.groq.com/openai/v1"@, Some("GROQ_API_KEY"@)),
        bearer_preset("together"@, "Together"@, "https://api.together.xyz/v1"@, Some("TOGETHER_API_KEY"@)),
        bearer_preset("deepseek"@, "DeepSeek"@, "https://api.deepseek.com/v1"@, Some("DEEPSEEK_API_KEY"@)),
        bearer_preset("custom"@, "Custom OpenAI-compatible"@, ""@, None),
    ]
}

/// The number of presets.
pub open spec fn preset_count() -> nat {
    preset_table().len()
}

fn bearer(
    id: &'static str,
    label: &'static str,
    base_url: &'static str,
    env_key: Option<&'static str>,
) -> (p: ProviderPreset)
    ensures
        p@ == bearer_preset(id@, label@, base_url@, opt_str_view(env_key)),
{
    ProviderPreset {
        id,
        label,
        base_url,
        api_backend: "chat_completions",
        default_env_key: env_key,
        auth_not_required: false,
        extra_headers: headers_new(),
    }
}

/// Every preset, in display order.
pub fn all_presets() -> (r: Vec<ProviderPreset>)
    ensures
        r@.len() == preset_table().len(),
        forall|i: int| 0 <= i < r@.len() ==> #[trigger] r@[i]@ == preset_table()[i],
{
    let mut anthropic_headers = headers_new();
    headers_insert(&mut anthropic_headers, "anthropic-version".to_owned(), "2023-06-01".to_owned());
    let mut r: Vec<ProviderPreset> = Vec::new();
    r.push(bearer("openai", "OpenAI", "https://api.openai.com/v1", Some("OPENAI_API_KEY")));
    r.push(ProviderPreset {
        id: "anthropic",
        label: "Anthropic",
        base_url: "https://api.anthropic.com/v1",
        api_backend: "messages",
        default_env_key: Some("ANTHROPIC_API_KEY"),
        auth_not_required: false,
        extra_headers: anthropic_headers,
    });
    r.push(ProviderPreset {
        id: "ollama",
        label: "Ollama",
        base_url: "http://localhost:11434/v1",
        api_backend: "chat_completions",
        default_env_key: None,
        auth_not_required: true,
        extra_headers: headers_new(),
    });
    r.push(bearer("openrouter", "OpenRouter", "https://openrouter.ai/api/v1", Some("OPENROUTER_API_KEY")));
    r.push(bearer("groq", "Groq", "https://api.groq.com/openai/v1", Some("GROQ_API_KEY")));
    r.push(bearer("together", "Together", "https://api.together.xyz/v1", Some("TOGETHER_API_KEY")));
    r.push(bearer("deepseek", "DeepSeek", "https://api.deepseek.com/v1", Some("DEEPSEEK_API_KEY")));
    r.push(bearer("custom", "Custom OpenAI-compatible", "", None));
    assert(r@[0]@ == preset_table()[0]);
    assert(r@[1]@ == preset_table()[1]);
    assert(r@[2]@ == preset_table()[2]);
    assert(r@[3]@ == preset_table()[3]);
    assert(r@[4]@ == preset_table()[4]);
    assert(r@[5]@ == preset_table()[5]);
    assert(r@[6]@ == preset_table()[6]);
    assert(r@[7]@ == preset_table()[7]);
    r
}

} // verus!
