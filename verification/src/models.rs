//! Default model ids baked into the build, and how each role falls back to the
//! primary default.
//!
//! At runtime each model is resolved via: CLI flag > ENV var > config.toml > remote
//! settings > these defaults.
use vstd::prelude::*;
use crate::text::string_of;

verus! {

/// The baked-in catalog as JSON. The defaults are provider-neutral: no default model
/// and no models, so config or setup must supply one.
pub const DEFAULT_MODELS_JSON: &'static str = "{\n  \"default\": \"\",\n  \"web_search\": \"\",\n  \"image_description\": \"\",\n  \"session_summary\": \"\",\n  \"models\": []\n}\n";

/// One model of the catalog.
#[derive(Debug, Clone, PartialEq, Eq)]
pub struct DefaultModelEntry {
    pub model: String,
}

/// The default model catalog.
#[derive(Debug, PartialEq, Eq)]
pub struct DefaultModels {
    pub default: String,
    /// Falls back to `default` if not specified.
    pub web_search: Option<String>,
    /// Falls back to `default` if not specified.
    pub image_description: Option<String>,
    /// Falls back to `default` if not specified.
    pub session_summary: Option<String>,
    pub models: Vec<DefaultModelEntry>,
}

/// Why a catalog is refused.
#[derive(Debug, PartialEq, Eq)]
pub enum CatalogError {
    /// The default is blank but models are listed.
    BlankDefaultWithModels,
    /// The default is not one of the listed models.
    DefaultNotListed { default: String, models: Vec<String> },
}

/// A role's model: its own entry when there is one (even a blank one), else the default.
pub open spec fn fallback_spec(own: Option<String>, default: Seq<char>) -> Seq<char> {
    match own {
        Some(s) => s@,
        None => default,
    }
}

impl DefaultModels {
    /// A blank default comes with no models; any other default is one of the models.
    pub open spec fn is_consistent(&self) -> bool {
        if self.default@.len() == 0 {
            self.models@.len() == 0
        } else {
            exists|i: int| 0 <= i < self.models@.len() && #[trigger] self.models@[i].model@ == self.default@
        }
    }

    /// The catalog built into this build.
    pub fn embedded() -> (r: DefaultModels)
        ensures
            r.default@ == Seq::<char>::empty(),
            r.web_search matches Some(s) && s@ == Seq::<char>::empty(),
            r.image_description matches Some(s) && s@ == Seq::<char>::empty(),
            r.session_summary matches Some(s) && s@ == Seq::<char>::empty(),
            r.models@.len() == 0,
            r.is_consistent(),
    {
        DefaultModels {
            default: String::new(),
            web_search: Some(String::new()),
            image_description: Some(String::new()),
            session_summary: Some(String::new()),
            models: Vec::new(),
        }
    }

    /// Checks the catalog: a blank default needs an empty model list, any other default
    /// must be listed.
    pub fn check(&self) -> (r: Result<(), CatalogError>)
        ensures
            r is Ok <==> self.is_consistent(),
            r matches Err(CatalogError::BlankDefaultWithModels) ==> self.default@.len() == 0,
            r matches Err(CatalogError::DefaultNotListed { default, models }) ==> {
                &&& self.default@.len() > 0
                &&& default@ == self.default@
                &&& models@.len() == self.models@.len()
                &&& forall|i: int| 0 <= i < models@.len() ==> #[trigger] models@[i]@ == self.models@[i].model@
                &&& forall|i: int| 0 <= i < self.models@.len() ==> #[trigger] self.models@[i].model@ != self.default@
            },
    {
        if self.default.as_str().is_empty() {
            if self.models.len() == 0 {
                Ok(())
            } else {
                Err(CatalogError::BlankDefaultWithModels)
            }
        } else {
            let mut ids: Vec<String> = Vec::new();
            let mut found = false;
            let mut i: usize = 0;
            while i < self.models.len()
                invariant
                    i <= self.models@.len(),
                    ids@.len() == i,
                    forall|j: int| 0 <= j < i ==> #[trigger] ids@[j]@ == self.models@[j].model@,
                    found <==> exists|j: int| 0 <= j < i && #[trigger] self.models@[j].model@ == self.default@,
                decreases self.models.len() - i,
            {
                if crate::text::str_eq(self.models[i].model.as_str(), self.default.as_str()) {
                    found = true;
                }
                ids.push(self.models[i].model.clone());
                i = i + 1;
            }
            if found {
                Ok(())
            } else {
                Err(CatalogError::DefaultNotListed { default: self.default.clone(), models: ids })
            }
        }
    }

    /// The primary model. Blank means there is no baked-in default.
    pub fn default_model(&self) -> (r: &str)
        ensures
            r@ == self.default@,
    {
        self.default.as_str()
    }

    /// The model for web search synthesis.
    pub fn web_search_model(&self) -> (r: &str)
        ensures
            r@ == fallback_spec(self.web_search, self.default@),
    {
        match &self.web_search {
            Some(s) => s.as_str(),
            None => self.default.as_str(),
        }
    }

    /// The model for describing images.
    pub fn image_description_model(&self) -> (r: &str)
        ensures
            r@ == fallback_spec(self.image_description, self.default@),
    {
        match &self.image_description {
            Some(s) => s.as_str(),
            None => self.default.as_str(),
        }
    }

    /// The model for session titles.
    pub fn session_summary_model(&self) -> (r: &str)
        ensures
            r@ == fallback_spec(self.session_summary, self.default@),
    {
        match &self.session_summary {
            Some(s) => s.as_str(),
            None => self.default.as_str(),
        }
    }
}

/// Primary model for coding tasks and general fallback. Empty means there is no
/// baked-in default; config or setup flows must supply one.
pub fn default_model() -> (r: String)
    ensures
        r@ == Seq::<char>::empty(),
{
    let d = DefaultModels::embedded();
    string_of(d.default_model())
}

/// Model for web search tool synthesis. Falls back to the default model.
pub fn default_web_search_model() -> (r: String)
    ensures
        r@ == Seq::<char>::empty(),
{
    let d = DefaultModels::embedded();
    string_of(d.web_search_model())
}

/// Model for image describe. Falls back to the default model.
pub fn default_image_description_model() -> (r: String)
    ensures
        r@ == Seq::<char>::empty(),
{
    let d = DefaultModels::embedded();
    string_of(d.image_description_model())
}

/// Model for session title generation. Falls back to the default model.
pub fn default_session_summary_model() -> (r: String)
    ensures
        r@ == Seq::<char>::empty(),
{
    let d = DefaultModels::embedded();
    string_of(d.session_summary_model())
}

} // verus!
