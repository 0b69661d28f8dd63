use xai_grok_pager::models::{
    default_image_description_model, default_model, default_session_summary_model,
    default_web_search_model, CatalogError, DefaultModelEntry, DefaultModels, DEFAULT_MODELS_JSON,
};

fn catalog_from_json(text: &str) -> DefaultModels {
    let value: serde_json::Value = serde_json::from_str(text).expect("parse");
    let field = |name: &str| value.get(name).and_then(|v| v.as_str()).map(str::to_string);
    DefaultModels {
        default: field("default").expect("default"),
        web_search: field("web_search"),
        image_description: field("image_description"),
        session_summary: field("session_summary"),
        models: value
            .get("models")
            .and_then(|m| m.as_array())
            .expect("models")
            .iter()
            .map(|m| DefaultModelEntry { model: m.get("model").and_then(|v| v.as_str()).unwrap().to_string() })
            .collect(),
    }
}

#[test]
fn empty_catalog_allows_blank_default() {
    let parsed = catalog_from_json(r#"{"default":"","models":[]}"#);
    assert_eq!(parsed.default, "");
    assert!(parsed.models.is_empty());
    assert_eq!(parsed.check(), Ok(()));
}

#[test]
fn embedded_default_model_is_blank() {
    assert_eq!(default_model(), "");
    assert!(DefaultModels::embedded().models.is_empty());
}

#[test]
fn embedded_catalog_matches_embedded_json() {
    let parsed = catalog_from_json(DEFAULT_MODELS_JSON);
    assert_eq!(parsed, DefaultModels::embedded());
    assert_eq!(DefaultModels::embedded().check(), Ok(()));
}

#[test]
fn every_role_of_the_embedded_catalog_is_blank() {
    assert_eq!(default_web_search_model(), "");
    assert_eq!(default_image_description_model(), "");
    assert_eq!(default_session_summary_model(), "");
}

#[test]
fn roles_fall_back_to_the_default_only_when_unset() {
    let catalog = DefaultModels {
        default: "grok-build".to_string(),
        web_search: None,
        image_description: Some("vision".to_string()),
        session_summary: Some(String::new()),
        models: vec![DefaultModelEntry { model: "grok-build".to_string() }],
    };
    assert_eq!(catalog.default_model(), "grok-build");
    assert_eq!(catalog.web_search_model(), "grok-build");
    assert_eq!(catalog.image_description_model(), "vision");
    assert_eq!(catalog.session_summary_model(), "");
    assert_eq!(catalog.check(), Ok(()));
}

#[test]
fn blank_default_with_models_is_refused() {
    let catalog = DefaultModels {
        default: String::new(),
        web_search: None,
        image_description: None,
        session_summary: None,
        models: vec![DefaultModelEntry { model: "m".to_string() }],
    };
    assert_eq!(catalog.check(), Err(CatalogError::BlankDefaultWithModels));
}

#[test]
fn unlisted_default_is_refused_with_the_listed_ids() {
    let catalog = DefaultModels {
        default: "x".to_string(),
        web_search: None,
        image_description: None,
        session_summary: None,
        models: vec![DefaultModelEntry { model: "a".to_string() }, DefaultModelEntry { model: "b".to_string() }],
    };
    assert_eq!(
        catalog.check(),
        Err(CatalogError::DefaultNotListed {
            default: "x".to_string(),
            models: vec!["a".to_string(), "b".to_string()]
        })
    );
}
