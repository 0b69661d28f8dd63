//! The provider setup wizard: pick a preset, edit its fields, and build the probe and
//! the config write from them.
use vstd::prelude::*;
use crate::headers::{header_entries, headers_clone};
use crate::provider_config_write::ProviderModelWrite;
use crate::provider_presets::{all_presets, preset_count, preset_table, PresetView, ProviderPreset};
use crate::setup_wizard::validate::{clone_opt_string, opt_string_view, ValidateRequest};
use crate::text::{is_ascii_alphanumeric_spec, opt_str_ref_view, str_eq, string_of, to_ascii_lowercase_spec, to_ascii_uppercase_spec, trim_end_char, trim_end_char_spec, trim_spec};

verus! {

pub const CUSTOM_PROVIDER_ENV_KEY: &'static str = "CUSTOM_PROVIDER_API_KEY";

/// `str::eq_ignore_ascii_case`: the two strings match once ASCII letters are lowercased.
pub assume_specification[ str::eq_ignore_ascii_case ](a: &str, b: &str) -> (r: bool)
    ensures
        r == eq_ignore_ascii_case_spec(a@, b@),
;

pub open spec fn eq_ignore_ascii_case_spec(a: Seq<char>, b: Seq<char>) -> bool {
    &&& a.len() == b.len()
    &&& forall|i: int| 0 <= i < a.len() ==> to_ascii_lowercase_spec(#[trigger] a[i]) == to_ascii_lowercase_spec(b[i])
}

#[derive(Debug, PartialEq, Eq)]
pub enum SetupWizardPhase {
    SelectPreset,
    EditFields,
    Validating,
    Error(String),
}

impl Clone for SetupWizardPhase {
    fn clone(&self) -> (r: Self)
        ensures
            r@ == self@,
    {
        match self {
            SetupWizardPhase::SelectPreset => SetupWizardPhase::SelectPreset,
            SetupWizardPhase::EditFields => SetupWizardPhase::EditFields,
            SetupWizardPhase::Validating => SetupWizardPhase::Validating,
            SetupWizardPhase::Error(m) => SetupWizardPhase::Error(m.clone()),
        }
    }
}

/// A wizard phase as plain values.
pub enum PhaseView {
    SelectPreset,
    EditFields,
    Validating,
    Error(Seq<char>),
}

impl View for SetupWizardPhase {
    type V = PhaseView;

    open spec fn view(&self) -> PhaseView {
        match self {
            SetupWizardPhase::SelectPreset => PhaseView::SelectPreset,
            SetupWizardPhase::EditFields => PhaseView::EditFields,
            SetupWizardPhase::Validating => PhaseView::Validating,
            SetupWizardPhase::Error(m) => PhaseView::Error(m@),
        }
    }
}

#[derive(Debug, Clone, Copy, PartialEq, Eq, Structural)]
pub enum EditFieldFocus {
    BaseUrl,
    Model,
    Name,
    ApiKey,
    StoreKeyInConfig,
    Submit,
    Back,
}

/// What a finished wizard hands on: the probe to run, the config to write, and a
/// notice to show once the config is saved.
#[derive(Debug)]
pub struct SetupWizardSubmission {
    pub validate: ValidateRequest,
    pub write: ProviderModelWrite,
    pub post_setup_notice: Option<String>,
}

/// The form the user edits after choosing a preset.
#[derive(Debug, PartialEq, Eq)]
pub struct EditFieldsState {
    pub preset_id: String,
    pub preset_label: String,
    pub base_url: String,
    pub model: String,
    pub name: String,
    pub api_key_input: String,
    pub store_key_in_config: bool,
    pub api_backend: String,
    pub env_key_name: Option<String>,
    pub auth_not_required: bool,
    pub extra_headers: indexmap::IndexMap<String, String>,
    pub focus: EditFieldFocus,
}

// ---------------------------------------------------------------------------
// Specifications of the form's derived values
// ---------------------------------------------------------------------------

/// The environment variable name derived from a preset id: ASCII letters and digits
/// uppercased, everything else `_`, then `_API_KEY`; `custom` (any case) and the empty
/// id use the custom provider's variable.
pub open spec fn derived_env_key_spec(id: Seq<char>) -> Seq<char> {
    if eq_ignore_ascii_case_spec(id, "custom"@) || id.len() == 0 {
        CUSTOM_PROVIDER_ENV_KEY@
    } else {
        env_key_chars(id) + "_API_KEY"@
    }
}

pub open spec fn env_key_char(c: char) -> char {
    if is_ascii_alphanumeric_spec(c) {
        to_ascii_uppercase_spec(c)
    } else {
        '_'
    }
}

pub open spec fn env_key_chars(id: Seq<char>) -> Seq<char> {
    id.map_values(|c: char| env_key_char(c))
}

/// The environment variable a preset's form starts with.
pub open spec fn env_key_for_preset(p: PresetView) -> Option<Seq<char>> {
    if p.auth_not_required {
        None
    } else {
        match p.default_env_key {
            Some(k) => Some(k),
            None => Some(derived_env_key_spec(p.id)),
        }
    }
}

/// `f` is the fresh form for preset `p`.
pub open spec fn fields_from_preset_spec(f: EditFieldsState, p: PresetView) -> bool {
    &&& f.preset_id@ == p.id
    &&& f.preset_label@ == p.label
    &&& f.base_url@ == p.base_url
    &&& f.model@ == Seq::<char>::empty()
    &&& f.name@ == p.label
    &&& f.api_key_input@ == Seq::<char>::empty()
    &&& !f.store_key_in_config
    &&& f.api_backend@ == p.api_backend
    &&& opt_string_view(f.env_key_name) == env_key_for_preset(p)
    &&& f.auth_not_required == p.auth_not_required
    &&& header_entries(f.extra_headers) == p.extra_headers
    &&& f.focus == EditFieldFocus::BaseUrl
}

/// The fields in the order focus cycles through them; the key fields only show when a
/// key is needed.
pub open spec fn focus_order_spec(requires_key: bool) -> Seq<EditFieldFocus> {
    if requires_key {
        seq![
            EditFieldFocus::BaseUrl,
            EditFieldFocus::Model,
            EditFieldFocus::Name,
            EditFieldFocus::ApiKey,
            EditFieldFocus::StoreKeyInConfig,
            EditFieldFocus::Submit,
            EditFieldFocus::Back,
        ]
    } else {
        seq![
            EditFieldFocus::BaseUrl,
            EditFieldFocus::Model,
            EditFieldFocus::Name,
            EditFieldFocus::Submit,
            EditFieldFocus::Back,
        ]
    }
}

/// The position of `f` in `order`, if it is there.
pub open spec fn focus_position(order: Seq<EditFieldFocus>, f: EditFieldFocus) -> Option<int>
    decreases order.len(),
{
    if order.len() == 0 {
        None
    } else if order[0] == f {
        Some(0)
    } else {
        match focus_position(order.drop_first(), f) {
            Some(i) => Some(i + 1),
            None => None,
        }
    }
}

/// The focus after moving forward, or `None` when the current focus is not shown.
pub open spec fn next_focus_spec(f: EditFieldFocus, requires_key: bool) -> Option<EditFieldFocus> {
    let order = focus_order_spec(requires_key);
    match focus_position(order, f) {
        Some(i) => Some(order[(i + 1) % (order.len() as int)]),
        None => None,
    }
}

/// The focus after moving back, or `None` when the current focus is not shown.
pub open spec fn prev_focus_spec(f: EditFieldFocus, requires_key: bool) -> Option<EditFieldFocus> {
    let order = focus_order_spec(requires_key);
    match focus_position(order, f) {
        Some(i) => Some(if i == 0 { order[order.len() - 1] } else { order[i - 1] }),
        None => None,
    }
}

pub open spec fn is_text_focus(t: EditFieldFocus) -> bool {
    ||| t == EditFieldFocus::BaseUrl
    ||| t == EditFieldFocus::Model
    ||| t == EditFieldFocus::Name
    ||| t == EditFieldFocus::ApiKey
}

/// The text of the field `t`.
pub open spec fn text_of(f: EditFieldsState, t: EditFieldFocus) -> Seq<char> {
    match t {
        EditFieldFocus::BaseUrl => f.base_url@,
        EditFieldFocus::Model => f.model@,
        EditFieldFocus::Name => f.name@,
        EditFieldFocus::ApiKey => f.api_key_input@,
        _ => Seq::empty(),
    }
}

/// `g` is `f` with at most the text field `t` changed.
pub open spec fn same_except_text(f: EditFieldsState, g: EditFieldsState, t: EditFieldFocus) -> bool {
    &&& (t != EditFieldFocus::BaseUrl ==> g.base_url == f.base_url)
    &&& (t != EditFieldFocus::Model ==> g.model == f.model)
    &&& (t != EditFieldFocus::Name ==> g.name == f.name)
    &&& (t != EditFieldFocus::ApiKey ==> g.api_key_input == f.api_key_input)
    &&& g.preset_id == f.preset_id
    &&& g.preset_label == f.preset_label
    &&& g.store_key_in_config == f.store_key_in_config
    &&& g.api_backend == f.api_backend
    &&& g.env_key_name == f.env_key_name
    &&& g.auth_not_required == f.auth_not_required
    &&& g.extra_headers == f.extra_headers
    &&& g.focus == f.focus
}

/// `f` and `g` hold the same values.
pub open spec fn same_form(f: EditFieldsState, g: EditFieldsState) -> bool {
    &&& g.preset_id@ == f.preset_id@
    &&& g.preset_label@ == f.preset_label@
    &&& g.base_url@ == f.base_url@
    &&& g.model@ == f.model@
    &&& g.name@ == f.name@
    &&& g.api_key_input@ == f.api_key_input@
    &&& g.store_key_in_config == f.store_key_in_config
    &&& g.api_backend@ == f.api_backend@
    &&& opt_string_view(g.env_key_name) == opt_string_view(f.env_key_name)
    &&& g.auth_not_required == f.auth_not_required
    &&& header_entries(g.extra_headers) == header_entries(f.extra_headers)
    &&& g.focus == f.focus
}

/// `g` is `f` with at most the focus changed.
pub open spec fn same_except_focus(f: EditFieldsState, g: EditFieldsState) -> bool {
    &&& same_except_focus_store(f, g)
    &&& g.store_key_in_config == f.store_key_in_config
}

/// `g` is `f` with at most the focus and the "store key" flag changed.
pub open spec fn same_except_focus_store(f: EditFieldsState, g: EditFieldsState) -> bool {
    &&& g.base_url == f.base_url
    &&& g.model == f.model
    &&& g.name == f.name
    &&& g.api_key_input == f.api_key_input
    &&& g.preset_id == f.preset_id
    &&& g.preset_label == f.preset_label
    &&& g.api_backend == f.api_backend
    &&& g.env_key_name == f.env_key_name
    &&& g.auth_not_required == f.auth_not_required
    &&& g.extra_headers == f.extra_headers
}

/// What typing the text `s` does to the wizard, `r` telling whether it was taken: it
/// is taken exactly when a text field has focus, and then `s` is appended to that
/// field, an error phase goes back to editing, and nothing else changes; otherwise
/// nothing changes.
pub open spec fn typed_text(a: WizardView, b: WizardView, r: bool, s: Seq<char>) -> bool {
    &&& r == (a.edit_fields matches Some(f) && is_text_focus(f.focus))
    &&& r ==> {
        let f = a.edit_fields->0;
        &&& b.preset_cursor == a.preset_cursor
        &&& b.phase == cleared_phase(a.phase)
        &&& b.edit_fields matches Some(g) && same_except_text(f, g, f.focus) && text_of(g, f.focus) == text_of(
            f,
            f.focus,
        ) + s
    }
    &&& !r ==> b == a
}

/// An error phase goes back to editing; every other phase stays.
pub open spec fn cleared_phase(p: PhaseView) -> PhaseView {
    match p {
        PhaseView::Error(_) => PhaseView::EditFields,
        _ => p,
    }
}

/// `Some(s)` unless `s` is empty.
pub open spec fn non_empty_spec(s: Seq<char>) -> Option<Seq<char>> {
    if s.len() == 0 {
        None
    } else {
        Some(s)
    }
}

/// The name shown when the user left the name blank.
pub open spec fn default_display_name_spec(label: Seq<char>, model: Seq<char>) -> Seq<char> {
    label + " "@ + model
}

/// The user typed a key without asking to store it, and the environment variable it
/// belongs in is not exported: the key is used for this session only, and the user is
/// told to export the variable. `env_value` is the value of the variable named by
/// `env_key_name`, `None` when it is not set.
pub open spec fn env_export_needed_spec(f: EditFieldsState, env_value: Option<Seq<char>>) -> bool {
    &&& !f.auth_not_required
    &&& !f.store_key_in_config
    &&& trim_spec(f.api_key_input@).len() > 0
    &&& f.env_key_name is Some
    &&& env_value is None
}

/// The key written to config: the typed key, only when the user opted in to storing it.
pub open spec fn stored_api_key_spec(f: EditFieldsState) -> Option<Seq<char>> {
    let entered = trim_spec(f.api_key_input@);
    if entered.len() > 0 && f.store_key_in_config {
        Some(entered)
    } else {
        None
    }
}

/// The warning shown after saving a key in config.
pub open spec fn stored_key_warning_spec() -> Seq<char> {
    "Saved provider config. The API key is stored in plain text in config.toml; keep that file private."@
}

/// The notice shown after saving: a warning when the key went to config, or, when the
/// typed key's environment variable is not exported, that the key holds for this
/// session only and the variable should be exported.
pub open spec fn post_setup_notice_spec(f: EditFieldsState, env_value: Option<Seq<char>>) -> Option<Seq<char>> {
    if stored_api_key_spec(f) is Some {
        Some(stored_key_warning_spec())
    } else {
        match f.env_key_name {
            Some(k) => if env_export_needed_spec(f, env_value) {
                Some(
                    "Saved provider config. "@ + k@
                        + " is not exported in this environment, so the typed API key is used for this session only. Export "@
                        + k@ + " to keep using it."@,
                )
            } else {
                None
            },
            None => None,
        }
    }
}

/// The variable to set for this session, and its value, when the typed key's
/// environment variable is not exported.
pub open spec fn session_env_export_spec(f: EditFieldsState, env_value: Option<Seq<char>>) -> Option<(Seq<char>, Seq<char>)> {
    if env_export_needed_spec(f, env_value) {
        Some((opt_string_view(f.env_key_name)->0, trim_spec(f.api_key_input@)))
    } else {
        None
    }
}

/// The key used to probe the provider, or the message saying one is needed.
pub open spec fn probe_api_key_spec(f: EditFieldsState, env_value: Option<Seq<char>>) -> Result<Option<Seq<char>>, Seq<char>> {
    if f.auth_not_required {
        Ok(None)
    } else if trim_spec(f.api_key_input@).len() > 0 {
        Ok(Some(trim_spec(f.api_key_input@)))
    } else if f.env_key_name is Some && env_value is Some && trim_spec(env_value->0).len() > 0 {
        Ok(Some(trim_spec(env_value->0)))
    } else {
        Err(
            "API key required (enter one now or export "@ + match f.env_key_name {
                Some(k) => k@,
                None => "provider API key environment variable"@,
            } + ")"@,
        )
    }
}

/// Why the form cannot be submitted, checked in the order the wizard checks it; `None`
/// when it can.
pub open spec fn validate_error_spec(f: EditFieldsState, env_value: Option<Seq<char>>) -> Option<Seq<char>> {
    if trim_spec(f.base_url@).len() == 0 {
        Some("Provider base URL is required"@)
    } else if trim_spec(f.model@).len() == 0 {
        Some("Provider model is required"@)
    } else {
        match probe_api_key_spec(f, env_value) {
            Ok(_) => None,
            Err(m) => Some(m),
        }
    }
}

/// Why no config write can be built from the form; `None` when one can.
pub open spec fn write_error_spec(f: EditFieldsState) -> Option<Seq<char>> {
    if trim_spec(f.base_url@).len() == 0 {
        Some("Provider base URL is required"@)
    } else if trim_spec(f.model@).len() == 0 {
        Some("Provider model is required"@)
    } else {
        None
    }
}

/// `v` is the probe built from form `f`.
pub open spec fn validate_request_from(v: ValidateRequest, f: EditFieldsState, env_value: Option<Seq<char>>) -> bool {
    &&& v.base_url@ == trim_spec(f.base_url@)
    &&& v.model@ == trim_spec(f.model@)
    &&& probe_api_key_spec(f, env_value) == Ok::<Option<Seq<char>>, Seq<char>>(opt_string_view(v.api_key))
    &&& v.api_backend@ == f.api_backend@
    &&& v.auth_not_required == f.auth_not_required
    &&& header_entries(v.extra_headers) == header_entries(f.extra_headers)
}

/// The catalog id of a saved model: preset id, `-`, and the sanitized model id.
pub open spec fn catalog_id_spec(preset_id: Seq<char>, model: Seq<char>) -> Seq<char> {
    preset_id + "-"@ + sanitize_spec(model)
}

/// `w` is the config write built from form `f`.
pub open spec fn provider_write_from(w: ProviderModelWrite, f: EditFieldsState) -> bool {
    let model = trim_spec(f.model@);
    &&& w.catalog_id@ == catalog_id_spec(f.preset_id@, model)
    &&& w.model@ == model
    &&& w.name@ == (if trim_spec(f.name@).len() == 0 {
        default_display_name_spec(f.preset_label@, model)
    } else {
        trim_spec(f.name@)
    })
    &&& w.base_url@ == trim_spec(f.base_url@)
    &&& w.api_backend@ == f.api_backend@
    &&& opt_string_view(w.env_key) == (if f.auth_not_required {
        None
    } else {
        opt_string_view(f.env_key_name)
    })
    &&& opt_string_view(w.api_key) == stored_api_key_spec(f)
    &&& w.auth_not_required == f.auth_not_required
    &&& header_entries(w.extra_headers) == header_entries(f.extra_headers)
}

// ---------------------------------------------------------------------------
// Catalog id sanitizing
// ---------------------------------------------------------------------------

/// The model id with every ASCII letter or digit lowercased and every run of other
/// characters collapsed into one `-`; the flag says whether it ends in such a run.
pub open spec fn collapse_spec(s: Seq<char>) -> (Seq<char>, bool)
    decreases s.len(),
{
    if s.len() == 0 {
        (Seq::empty(), false)
    } else {
        let (r, last_dash) = collapse_spec(s.drop_last());
        let c = s.last();
        if is_ascii_alphanumeric_spec(c) {
            (r.push(to_ascii_lowercase_spec(c)), false)
        } else if !last_dash {
            (r.push('-'), true)
        } else {
            (r, true)
        }
    }
}

/// `s` without its leading occurrences of `c`.
pub open spec fn trim_start_char_spec(s: Seq<char>, c: char) -> Seq<char>
    decreases s.len(),
{
    if s.len() > 0 && s[0] == c {
        trim_start_char_spec(s.drop_first(), c)
    } else {
        s
    }
}

/// The catalog component of a model id: the collapsed id without leading or trailing
/// `-`, or `model` when nothing is left.
pub open spec fn sanitize_spec(model: Seq<char>) -> Seq<char> {
    let t = trim_end_char_spec(trim_start_char_spec(collapse_spec(model).0, '-'), '-');
    if t.len() == 0 {
        "model"@
    } else {
        t
    }
}

// ---------------------------------------------------------------------------
// The form
// ---------------------------------------------------------------------------

impl Clone for EditFieldsState {
    fn clone(&self) -> (r: Self)
        ensures
            same_form(*self, r),
    {
        EditFieldsState {
            preset_id: self.preset_id.clone(),
            preset_label: self.preset_label.clone(),
            base_url: self.base_url.clone(),
            model: self.model.clone(),
            name: self.name.clone(),
            api_key_input: self.api_key_input.clone(),
            store_key_in_config: self.store_key_in_config,
            api_backend: self.api_backend.clone(),
            env_key_name: clone_opt_string(&self.env_key_name),
            auth_not_required: self.auth_not_required,
            extra_headers: headers_clone(&self.extra_headers),
            focus: self.focus,
        }
    }
}

impl EditFieldsState {
    /// The fresh form for `preset`.
    pub fn from_preset(preset: &ProviderPreset) -> (r: Self)
        ensures
            fields_from_preset_spec(r, preset@),
    {
        let env_key_name = if preset.auth_not_required {
            None
        } else {
            match preset.default_env_key {
                Some(key) => Some(string_of(key)),
                None => Some(derived_env_key_for_preset(preset.id)),
            }
        };
        EditFieldsState {
            preset_id: string_of(preset.id),
            preset_label: string_of(preset.label),
            base_url: string_of(preset.base_url),
            model: String::new(),
            name: string_of(preset.label),
            api_key_input: String::new(),
            store_key_in_config: false,
            api_backend: string_of(preset.api_backend),
            env_key_name,
            auth_not_required: preset.auth_not_required,
            extra_headers: headers_clone(&preset.extra_headers),
            focus: EditFieldFocus::BaseUrl,
        }
    }

    /// Whether the provider needs an API key.
    pub fn requires_api_key(&self) -> (r: bool)
        ensures
            r == !self.auth_not_required,
    {
        !self.auth_not_required
    }

    /// The fields focus cycles through, in order.
    pub fn visible_focus_order(&self) -> (r: Vec<EditFieldFocus>)
        ensures
            r@ == focus_order_spec(!self.auth_not_required),
    {
        let mut order = vec![EditFieldFocus::BaseUrl, EditFieldFocus::Model, EditFieldFocus::Name];
        if self.requires_api_key() {
            order.push(EditFieldFocus::ApiKey);
            order.push(EditFieldFocus::StoreKeyInConfig);
        }
        order.push(EditFieldFocus::Submit);
        order.push(EditFieldFocus::Back);
        assert(order@ =~= focus_order_spec(!self.auth_not_required));
        order
    }
}

/// Where `f` stands in `order`.
fn position_of(order: &Vec<EditFieldFocus>, f: EditFieldFocus) -> (r: Option<usize>)
    ensures
        match r {
            Some(i) => focus_position(order@, f) == Some(i as int),
            None => focus_position(order@, f) is None,
        },
{
    let mut i: usize = 0;
    while i < order.len()
        invariant
            i <= order@.len(),
            forall|j: int| 0 <= j < i ==> order@[j] != f,
        decreases order.len() - i,
    {
        if order[i] == f {
            proof { lemma_focus_position_first(order@, f, i as int); }
            return Some(i);
        }
        i = i + 1;
    }
    proof { lemma_focus_position_absent(order@, f); }
    None
}

pub proof fn lemma_focus_position_first(order: Seq<EditFieldFocus>, f: EditFieldFocus, i: int)
    requires
        0 <= i < order.len(),
        order[i] == f,
        forall|j: int| 0 <= j < i ==> order[j] != f,
    ensures
        focus_position(order, f) == Some(i),
    decreases i,
{
    if i > 0 {
        lemma_focus_position_first(order.drop_first(), f, i - 1);
    }
}

proof fn lemma_focus_position_absent(order: Seq<EditFieldFocus>, f: EditFieldFocus)
    requires
        forall|j: int| 0 <= j < order.len() ==> order[j] != f,
    ensures
        focus_position(order, f) is None,
    decreases order.len(),
{
    if order.len() > 0 {
        lemma_focus_position_absent(order.drop_first(), f);
    }
}

pub proof fn lemma_focus_position_bounds(order: Seq<EditFieldFocus>, f: EditFieldFocus)
    ensures
        focus_position(order, f) matches Some(i) ==> 0 <= i < order.len() && order[i] == f,
    decreases order.len(),
{
    if order.len() > 0 {
        lemma_focus_position_bounds(order.drop_first(), f);
    }
}

// ---------------------------------------------------------------------------
// The wizard
// ---------------------------------------------------------------------------

/// A position in the preset list; always names a preset.
#[derive(Debug, Clone, Copy, PartialEq, Eq)]
struct PresetCursor {
    index: usize,
}

impl PresetCursor {
    #[verifier::type_invariant]
    spec fn in_range(self) -> bool {
        self.index < preset_count()
    }

    fn get(self) -> (r: usize)
        ensures
            r == self.index,
            r < preset_count(),
    {
        proof { use_type_invariant(self); }
        self.index
    }
}

#[derive(Debug, PartialEq, Eq)]
pub struct SetupWizardState {
    preset_cursor: PresetCursor,
    phase: SetupWizardPhase,
    edit_fields: Option<EditFieldsState>,
}

/// The wizard as plain values: the highlighted preset, the phase and the form.
pub struct WizardView {
    pub preset_cursor: nat,
    pub phase: PhaseView,
    pub edit_fields: Option<EditFieldsState>,
}

impl View for SetupWizardState {
    type V = WizardView;

    closed spec fn view(&self) -> WizardView {
        WizardView {
            preset_cursor: self.preset_cursor.index as nat,
            phase: self.phase@,
            edit_fields: self.edit_fields,
        }
    }
}

impl Default for SetupWizardState {
    fn default() -> (r: Self)
        ensures
            r@.preset_cursor == 0,
            r@.phase == PhaseView::SelectPreset,
            r@.edit_fields is None,
    {
        Self::new()
    }
}

impl Clone for SetupWizardState {
    fn clone(&self) -> (r: Self)
        ensures
            r@.preset_cursor == self@.preset_cursor,
            r@.phase == self@.phase,
            match (self@.edit_fields, r@.edit_fields) {
                (Some(f), Some(g)) => same_form(f, g),
                (None, None) => true,
                _ => false,
            },
    {
        SetupWizardState {
            preset_cursor: self.preset_cursor,
            phase: self.phase.clone(),
            edit_fields: match &self.edit_fields {
                Some(f) => Some(f.clone()),
                None => None,
            },
        }
    }
}

/// The cursor after moving down the preset list: wraps from the last to the first.
pub open spec fn next_cursor(c: nat) -> nat {
    ((c + 1) % preset_count()) as nat
}

/// The cursor after moving up the preset list: wraps from the first to the last.
pub open spec fn prev_cursor(c: nat) -> nat {
    if c == 0 {
        (preset_count() - 1) as nat
    } else {
        (c - 1) as nat
    }
}

/// The position of the preset named `id`, if there is one.
pub open spec fn preset_index_of(id: Seq<char>) -> Option<nat> {
    if exists|i: int| 0 <= i < preset_count() && #[trigger] preset_table()[i].id == id {
        Some((choose|i: int| 0 <= i < preset_count() && #[trigger] preset_table()[i].id == id) as nat)
    } else {
        None
    }
}

impl SetupWizardState {
    /// A wizard at the top of the preset list, with no form yet.
    pub fn new() -> (r: Self)
        ensures
            r@.preset_cursor == 0,
            r@.phase == PhaseView::SelectPreset,
            r@.edit_fields is None,
    {
        SetupWizardState { preset_cursor: PresetCursor { index: 0 }, phase: SetupWizardPhase::SelectPreset, edit_fields: None }
    }

    pub fn phase(&self) -> (r: &SetupWizardPhase)
        ensures
            r@ == self@.phase,
    {
        &self.phase
    }

    pub fn preset_cursor(&self) -> (r: usize)
        ensures
            r == self@.preset_cursor,
            r < preset_count(),
    {
        self.preset_cursor.get()
    }

    pub fn presets(&self) -> (r: Vec<ProviderPreset>)
        ensures
            r@.len() == preset_count(),
            forall|i: int| 0 <= i < r@.len() ==> #[trigger] r@[i]@ == preset_table()[i],
    {
        all_presets()
    }

    /// The highlighted preset.
    pub fn selected_preset(&self) -> (r: ProviderPreset)
        ensures
            self@.preset_cursor < preset_count(),
            r@ == preset_table()[self@.preset_cursor as int],
    {
        let presets = all_presets();
        presets[self.preset_cursor.get()].clone()
    }

    pub fn edit_fields(&self) -> (r: Option<&EditFieldsState>)
        ensures
            match r {
                Some(f) => self@.edit_fields == Some(*f),
                None => self@.edit_fields is None,
            },
    {
        self.edit_fields.as_ref()
    }

    pub fn select_next_preset(&mut self)
        ensures
            final(self)@.preset_cursor == next_cursor(old(self)@.preset_cursor),
            final(self)@.phase == old(self)@.phase,
            final(self)@.edit_fields == old(self)@.edit_fields,
    {
        let total = all_presets().len();
        if total == 0 {
            return;
        }
        let current = self.preset_cursor.get();
        self.preset_cursor = PresetCursor { index: (current + 1) % total };
    }

    pub fn select_prev_preset(&mut self)
        ensures
            final(self)@.preset_cursor == prev_cursor(old(self)@.preset_cursor),
            final(self)@.phase == old(self)@.phase,
            final(self)@.edit_fields == old(self)@.edit_fields,
    {
        let total = all_presets().len();
        if total == 0 {
            return;
        }
        let current = self.preset_cursor.get();
        self.preset_cursor = PresetCursor { index: if current == 0 {
            total - 1
        } else {
            current - 1
        } };
    }

    /// The form, for editing in place.
    pub fn edit_fields_mut(&mut self) -> (r: Option<&mut EditFieldsState>)
        ensures
            match r {
                Some(f) => old(self)@.edit_fields == Some(*f)
                    && final(self)@.edit_fields == Some(*final(f))
                    && final(self)@.preset_cursor == old(self)@.preset_cursor
                    && final(self)@.phase == old(self)@.phase,
                None => old(self)@.edit_fields is None && final(self)@ == old(self)@,
            },
    {
        self.edit_fields.as_mut()
    }

    /// Highlights the preset named `preset_id`; an unknown name changes nothing.
    pub fn select_preset_by_id(&mut self, preset_id: &str) -> (r: Result<(), String>)
        ensures
            r is Ok ==> {
                &&& final(self)@.preset_cursor < preset_count()
                &&& preset_table()[final(self)@.preset_cursor as int].id == preset_id@
                &&& forall|j: int| 0 <= j < final(self)@.preset_cursor ==> #[trigger] preset_table()[j].id != preset_id@
                &&& final(self)@.phase == old(self)@.phase
                &&& final(self)@.edit_fields == old(self)@.edit_fields
            },
            r matches Err(e) ==> {
                &&& forall|j: int| 0 <= j < preset_count() ==> #[trigger] preset_table()[j].id != preset_id@
                &&& final(self)@ == old(self)@
                &&& e@ == "Unknown preset: "@ + preset_id@
            },
    {
        let presets = all_presets();
        let mut i: usize = 0;
        while i < presets.len()
            invariant
                presets@.len() == preset_count(),
                forall|k: int| 0 <= k < presets@.len() ==> #[trigger] presets@[k]@ == preset_table()[k],
                i <= presets@.len(),
                forall|j: int| 0 <= j < i ==> #[trigger] preset_table()[j].id != preset_id@,
                *self == *old(self),
            decreases presets.len() - i,
        {
            assert(presets@[i as int]@ == preset_table()[i as int]);
            if str_eq(presets[i].id, preset_id) {
                self.preset_cursor = PresetCursor { index: i };
                return Ok(());
            }
            i = i + 1;
        }
        let mut e = string_of("Unknown preset: ");
        e.push_str(preset_id);
        Err(e)
    }

    /// Opens the form for the highlighted preset.
    pub fn confirm_selected_preset(&mut self) -> (r: Result<(), String>)
        ensures
            r is Ok,
            final(self)@.preset_cursor == old(self)@.preset_cursor,
            final(self)@.phase == PhaseView::EditFields,
            final(self)@.edit_fields matches Some(f) && fields_from_preset_spec(
                f,
                preset_table()[old(self)@.preset_cursor as int],
            ),
    {
        let preset = self.selected_preset();
        self.edit_fields = Some(EditFieldsState::from_preset(&preset));
        self.phase = SetupWizardPhase::EditFields;
        Ok(())
    }

    /// Replaces the model id.
    pub fn set_model(&mut self, value: &str)
        ensures
            match old(self)@.edit_fields {
                None => final(self)@ == old(self)@,
                Some(f) => {
                    &&& final(self)@.preset_cursor == old(self)@.preset_cursor
                    &&& final(self)@.phase == cleared_phase(old(self)@.phase)
                    &&& final(self)@.edit_fields matches Some(g) && same_except_text(f, g, EditFieldFocus::Model)
                        && g.model@ == value@
                },
            },
    {
        let changed = match &mut self.edit_fields {
            Some(fields) => {
                fields.model = string_of(value);
                true
            },
            None => false,
        };
        if changed {
            self.clear_error_state();
        }
    }

    /// The focused field, when the form is open.
    pub fn focus(&self) -> (r: Option<EditFieldFocus>)
        ensures
            match self@.edit_fields {
                Some(f) => r == Some(f.focus),
                None => r is None,
            },
    {
        match &self.edit_fields {
            Some(fields) => Some(fields.focus),
            None => None,
        }
    }

    /// Moves focus to the next shown field, wrapping around; a focus that is not shown
    /// goes back to the base URL.
    pub fn focus_next(&mut self)
        ensures
            match old(self)@.edit_fields {
                None => final(self)@ == old(self)@,
                Some(f) => {
                    &&& final(self)@.preset_cursor == old(self)@.preset_cursor
                    &&& final(self)@.edit_fields matches Some(g) && same_except_focus(f, g) && match next_focus_spec(
                        f.focus,
                        !f.auth_not_required,
                    ) {
                        Some(n) => g.focus == n && final(self)@.phase == cleared_phase(old(self)@.phase),
                        None => g.focus == EditFieldFocus::BaseUrl && final(self)@.phase == old(self)@.phase,
                    }
                },
            },
    {
        let moved = match &mut self.edit_fields {
            None => false,
            Some(fields) => {
                let order = fields.visible_focus_order();
                match position_of(&order, fields.focus) {
                    None => {
                        fields.focus = EditFieldFocus::BaseUrl;
                        false
                    },
                    Some(current_idx) => {
                        proof { lemma_focus_position_bounds(order@, fields.focus); }
                        fields.focus = order[(current_idx + 1) % order.len()];
                        true
                    },
                }
            },
        };
        if moved {
            self.clear_error_state();
        }
    }

    /// Moves focus to the previous shown field, wrapping around; a focus that is not
    /// shown goes back to the base URL.
    pub fn focus_prev(&mut self)
        ensures
            match old(self)@.edit_fields {
                None => final(self)@ == old(self)@,
                Some(f) => {
                    &&& final(self)@.preset_cursor == old(self)@.preset_cursor
                    &&& final(self)@.edit_fields matches Some(g) && same_except_focus(f, g) && match prev_focus_spec(
                        f.focus,
                        !f.auth_not_required,
                    ) {
                        Some(n) => g.focus == n && final(self)@.phase == cleared_phase(old(self)@.phase),
                        None => g.focus == EditFieldFocus::BaseUrl && final(self)@.phase == old(self)@.phase,
                    }
                },
            },
    {
        let moved = match &mut self.edit_fields {
            None => false,
            Some(fields) => {
                let order = fields.visible_focus_order();
                match position_of(&order, fields.focus) {
                    None => {
                        fields.focus = EditFieldFocus::BaseUrl;
                        false
                    },
                    Some(current_idx) => {
                        proof { lemma_focus_position_bounds(order@, fields.focus); }
                        fields.focus = if current_idx == 0 {
                            order[order.len() - 1]
                        } else {
                            order[current_idx - 1]
                        };
                        true
                    },
                }
            },
        };
        if moved {
            self.clear_error_state();
        }
    }

    pub fn return_to_preset_select(&mut self)
        ensures
            final(self)@.phase == PhaseView::SelectPreset,
            final(self)@.preset_cursor == old(self)@.preset_cursor,
            final(self)@.edit_fields == old(self)@.edit_fields,
    {
        self.phase = SetupWizardPhase::SelectPreset;
    }

    pub fn start_validating(&mut self)
        ensures
            final(self)@.phase == PhaseView::Validating,
            final(self)@.preset_cursor == old(self)@.preset_cursor,
            final(self)@.edit_fields == old(self)@.edit_fields,
    {
        self.phase = SetupWizardPhase::Validating;
    }

    pub fn finish_with_error(&mut self, message: &str)
        ensures
            final(self)@.phase == PhaseView::Error(message@),
            final(self)@.preset_cursor == old(self)@.preset_cursor,
            final(self)@.edit_fields == old(self)@.edit_fields,
    {
        self.phase = SetupWizardPhase::Error(string_of(message));
    }

    /// Leaves an error shown by going back to editing.
    pub fn clear_error_state(&mut self)
        ensures
            final(self)@.phase == cleared_phase(old(self)@.phase),
            final(self)@.preset_cursor == old(self)@.preset_cursor,
            final(self)@.edit_fields == old(self)@.edit_fields,
    {
        let is_error = match &self.phase {
            SetupWizardPhase::Error(_) => true,
            _ => false,
        };
        if is_error {
            self.phase = SetupWizardPhase::EditFields;
        }
    }

    pub fn current_error(&self) -> (r: Option<&str>)
        ensures
            match self@.phase {
                PhaseView::Error(m) => r matches Some(s) && s@ == m,
                _ => r is None,
            },
    {
        match &self.phase {
            SetupWizardPhase::Error(message) => Some(message.as_str()),
            _ => None,
        }
    }

    /// Types one character into the focused text field.
    pub fn insert_char(&mut self, ch: char) -> (r: bool)
        ensures
            typed_text(old(self)@, final(self)@, r, seq![ch]),
    {
        proof {
            assert forall|x: Seq<char>| #[trigger] x.push(ch) == x + seq![ch] by {
                assert(x.push(ch) =~= x + seq![ch]);
            }
        }
        let done = match &mut self.edit_fields {
            None => false,
            Some(fields) => match fields.focus {
                EditFieldFocus::BaseUrl => {
                    fields.base_url.push(ch);
                    true
                },
                EditFieldFocus::Model => {
                    fields.model.push(ch);
                    true
                },
                EditFieldFocus::Name => {
                    fields.name.push(ch);
                    true
                },
                EditFieldFocus::ApiKey => {
                    fields.api_key_input.push(ch);
                    true
                },
                _ => false,
            },
        };
        if done {
            self.clear_error_state();
        }
        done
    }

    /// Types a pasted string into the focused text field.
    pub fn push_str(&mut self, value: &str) -> (r: bool)
        ensures
            typed_text(old(self)@, final(self)@, r, value@),
    {
        let done = match &mut self.edit_fields {
            None => false,
            Some(fields) => match fields.focus {
                EditFieldFocus::BaseUrl => {
                    fields.base_url.push_str(value);
                    true
                },
                EditFieldFocus::Model => {
                    fields.model.push_str(value);
                    true
                },
                EditFieldFocus::Name => {
                    fields.name.push_str(value);
                    true
                },
                EditFieldFocus::ApiKey => {
                    fields.api_key_input.push_str(value);
                    true
                },
                _ => false,
            },
        };
        if done {
            self.clear_error_state();
        }
        done
    }

    /// Deletes the last character of the focused text field.
    pub fn backspace(&mut self) -> (r: bool)
        ensures
            r == (old(self)@.edit_fields matches Some(f) && is_text_focus(f.focus) && text_of(f, f.focus).len()
                > 0),
            r ==> {
                let f = old(self)@.edit_fields->0;
                &&& final(self)@.preset_cursor == old(self)@.preset_cursor
                &&& final(self)@.phase == cleared_phase(old(self)@.phase)
                &&& final(self)@.edit_fields matches Some(g) && same_except_text(f, g, f.focus)
                    && text_of(g, f.focus) == text_of(f, f.focus).drop_last()
            },
            !r ==> final(self)@ == old(self)@,
    {
        let done = match &mut self.edit_fields {
            None => false,
            Some(fields) => match fields.focus {
                EditFieldFocus::BaseUrl => fields.base_url.pop().is_some(),
                EditFieldFocus::Model => fields.model.pop().is_some(),
                EditFieldFocus::Name => fields.name.pop().is_some(),
                EditFieldFocus::ApiKey => fields.api_key_input.pop().is_some(),
                _ => false,
            },
        };
        if done {
            self.clear_error_state();
        }
        done
    }

    /// Flips whether the typed key is stored in config; only for providers that need a key.
    pub fn toggle_store_key_in_config(&mut self) -> (r: bool)
        ensures
            r == (old(self)@.edit_fields matches Some(f) && !f.auth_not_required),
            r ==> {
                let f = old(self)@.edit_fields->0;
                &&& final(self)@.preset_cursor == old(self)@.preset_cursor
                &&& final(self)@.phase == cleared_phase(old(self)@.phase)
                &&& final(self)@.edit_fields matches Some(g) && same_except_focus_store(f, g)
                    && g.focus == f.focus && g.store_key_in_config == !f.store_key_in_config
            },
            !r ==> final(self)@ == old(self)@,
    {
        let done = match &mut self.edit_fields {
            None => false,
            Some(fields) => {
                if !fields.requires_api_key() {
                    false
                } else {
                    fields.store_key_in_config = !fields.store_key_in_config;
                    true
                }
            },
        };
        if done {
            self.clear_error_state();
        }
        done
    }

    /// The probe for the provider in the form. `env_key_value` is the value of the
    /// environment variable the form names, `None` when it is not set.
    pub fn build_validate_request(&self, env_key_value: Option<&str>) -> (r: Result<ValidateRequest, String>)
        ensures
            match self@.edit_fields {
                None => r matches Err(e) && e@ == "No preset selected"@,
                Some(f) => match validate_error_spec(f, opt_str_ref_view(env_key_value)) {
                    Some(m) => r matches Err(e) && e@ == m,
                    None => r matches Ok(v) && validate_request_from(v, f, opt_str_ref_view(env_key_value)),
                },
            },
    {
        let fields = match &self.edit_fields {
            Some(fields) => fields,
            None => return Err(string_of("No preset selected")),
        };
        let base_url = fields.base_url.as_str().trim();
        if base_url.is_empty() {
            return Err(string_of("Provider base URL is required"));
        }
        let model = fields.model.as_str().trim();
        if model.is_empty() {
            return Err(string_of("Provider model is required"));
        }
        let api_key = resolve_probe_api_key(fields, env_key_value)?;
        Ok(ValidateRequest {
            base_url: string_of(base_url),
            model: string_of(model),
            api_key,
            api_backend: fields.api_backend.clone(),
            auth_not_required: fields.auth_not_required,
            extra_headers: headers_clone(&fields.extra_headers),
        })
    }

    /// The config write for the provider in the form.
    pub fn build_provider_write(&self) -> (r: Result<ProviderModelWrite, String>)
        ensures
            match self@.edit_fields {
                None => r matches Err(e) && e@ == "No preset selected"@,
                Some(f) => match write_error_spec(f) {
                    Some(m) => r matches Err(e) && e@ == m,
                    None => r matches Ok(w) && provider_write_from(w, f),
                },
            },
    {
        let fields = match &self.edit_fields {
            Some(fields) => fields,
            None => return Err(string_of("No preset selected")),
        };
        let base_url = fields.base_url.as_str().trim();
        if base_url.is_empty() {
            return Err(string_of("Provider base URL is required"));
        }
        let model = fields.model.as_str().trim();
        if model.is_empty() {
            return Err(string_of("Provider model is required"));
        }
        let name = if fields.name.as_str().trim().is_empty() {
            default_display_name(fields.preset_label.as_str(), model)
        } else {
            string_of(fields.name.as_str().trim())
        };
        let stored_api_key = stored_api_key(fields);
        let mut catalog_id = fields.preset_id.clone();
        catalog_id.push('-');
        let component = sanitize_catalog_component(model);
        catalog_id.push_str(component.as_str());
        proof {
            reveal_strlit("-");
            assert(catalog_id@ =~= fields.preset_id@ + "-"@ + sanitize_spec(model@));
        }
        Ok(ProviderModelWrite {
            catalog_id,
            model: string_of(model),
            name,
            base_url: string_of(base_url),
            api_backend: fields.api_backend.clone(),
            env_key: if fields.auth_not_required {
                None
            } else {
                clone_opt_string(&fields.env_key_name)
            },
            api_key: stored_api_key,
            auth_not_required: fields.auth_not_required,
            extra_headers: headers_clone(&fields.extra_headers),
        })
    }

    /// The probe, the config write and the notice to show after saving.
    /// `env_key_value` is the value of the environment variable the form names, `None`
    /// when it is not set.
    pub fn build_submission(&self, env_key_value: Option<&str>) -> (r: Result<SetupWizardSubmission, String>)
        ensures
            match self@.edit_fields {
                None => r matches Err(e) && e@ == "No preset selected"@,
                Some(f) => match validate_error_spec(f, opt_str_ref_view(env_key_value)) {
                    Some(m) => r matches Err(e) && e@ == m,
                    None => r matches Ok(sub) && validate_request_from(sub.validate, f, opt_str_ref_view(env_key_value))
                        && provider_write_from(sub.write, f)
                        && opt_string_view(sub.post_setup_notice) == post_setup_notice_spec(f, opt_str_ref_view(env_key_value)),
                },
            },
    {
        let fields = match &self.edit_fields {
            Some(fields) => fields,
            None => return Err(string_of("No preset selected")),
        };
        let validate = self.build_validate_request(env_key_value)?;
        let write = self.build_provider_write()?;
        let post_setup_notice = post_setup_notice(fields, env_key_value);
        Ok(SetupWizardSubmission { validate, write, post_setup_notice })
    }
}

// ---------------------------------------------------------------------------
// Helpers
// ---------------------------------------------------------------------------

/// `Some(value)` unless `value` is empty.
pub fn non_empty(value: &str) -> (r: Option<&str>)
    ensures
        match r {
            Some(s) => s@ == value@ && value@.len() > 0,
            None => value@.len() == 0,
        },
{
    if !value.is_empty() {
        Some(value)
    } else {
        None
    }
}

/// `preset_label model`.
pub fn default_display_name(preset_label: &str, model: &str) -> (r: String)
    ensures
        r@ == default_display_name_spec(preset_label@, model@),
{
    let mut r = string_of(preset_label);
    r.push(' ');
    r.push_str(model);
    proof {
        reveal_strlit(" ");
        assert(r@ =~= preset_label@ + " "@ + model@);
    }
    r
}

/// The typed key when it goes to config: only when the user opted in to storing it.
pub fn stored_api_key(fields: &EditFieldsState) -> (r: Option<String>)
    ensures
        opt_string_view(r) == stored_api_key_spec(*fields),
{
    let entered = match non_empty(fields.api_key_input.as_str().trim()) {
        Some(entered) => string_of(entered),
        None => return None,
    };
    if fields.store_key_in_config {
        Some(entered)
    } else {
        None
    }
}

/// The notice shown after saving (see [`post_setup_notice_spec`]).
pub fn post_setup_notice(fields: &EditFieldsState, env_key_value: Option<&str>) -> (r: Option<String>)
    ensures
        opt_string_view(r) == post_setup_notice_spec(*fields, opt_str_ref_view(env_key_value)),
{
    if stored_api_key(fields).is_some() {
        return Some(string_of(
            "Saved provider config. The API key is stored in plain text in config.toml; keep that file private.",
        ));
    }
    let env_key = match &fields.env_key_name {
        Some(k) => k,
        None => return None,
    };
    if typed_key_needs_env_export(fields, env_key_value) {
        let mut notice = string_of("Saved provider config. ");
        notice.push_str(env_key.as_str());
        notice.push_str(" is not exported in this environment, so the typed API key is used for this session only. Export ");
        notice.push_str(env_key.as_str());
        notice.push_str(" to keep using it.");
        Some(notice)
    } else {
        None
    }
}

/// Whether the typed key, not stored in config, lacks its exported environment variable.
pub fn typed_key_needs_env_export(fields: &EditFieldsState, env_key_value: Option<&str>) -> (r: bool)
    ensures
        r == env_export_needed_spec(*fields, opt_str_ref_view(env_key_value)),
{
    !fields.auth_not_required && !fields.store_key_in_config && non_empty(fields.api_key_input.as_str().trim()).is_some()
        && fields.env_key_name.is_some() && env_key_value.is_none()
}

/// The environment variable to set for this session and its value, when the typed key
/// is not stored and its variable is not exported.
pub fn session_env_export(fields: &EditFieldsState, env_key_value: Option<&str>) -> (r: Option<(String, String)>)
    ensures
        match r {
            Some((k, v)) => session_env_export_spec(*fields, opt_str_ref_view(env_key_value)) == Some((k@, v@)),
            None => session_env_export_spec(*fields, opt_str_ref_view(env_key_value)) is None,
        },
{
    if !typed_key_needs_env_export(fields, env_key_value) {
        return None;
    }
    match &fields.env_key_name {
        Some(k) => Some((k.clone(), string_of(fields.api_key_input.as_str().trim()))),
        None => None,
    }
}

/// The key to probe with: none when the provider needs none, else the typed key, else
/// the environment variable's value.
pub fn resolve_probe_api_key(fields: &EditFieldsState, env_key_value: Option<&str>) -> (r: Result<Option<String>, String>)
    ensures
        match r {
            Ok(k) => probe_api_key_spec(*fields, opt_str_ref_view(env_key_value)) == Ok::<Option<Seq<char>>, Seq<char>>(opt_string_view(k)),
            Err(e) => probe_api_key_spec(*fields, opt_str_ref_view(env_key_value)) == Err::<Option<Seq<char>>, Seq<char>>(e@),
        },
{
    if fields.auth_not_required {
        return Ok(None);
    }
    if let Some(entered) = non_empty(fields.api_key_input.as_str().trim()) {
        return Ok(Some(string_of(entered)));
    }
    if fields.env_key_name.is_some() {
        if let Some(env_value) = env_key_value {
            if let Some(value) = non_empty(env_value.trim()) {
                return Ok(Some(string_of(value)));
            }
        }
    }
    let mut message = string_of("API key required (enter one now or export ");
    match &fields.env_key_name {
        Some(k) => message.push_str(k.as_str()),
        None => message.push_str("provider API key environment variable"),
    }
    message.push_str(")");
    Err(message)
}

/// The environment variable name for a preset that names none.
pub fn derived_env_key_for_preset(preset_id: &str) -> (r: String)
    ensures
        r@ == derived_env_key_spec(preset_id@),
{
    if preset_id.eq_ignore_ascii_case("custom") {
        return string_of(CUSTOM_PROVIDER_ENV_KEY);
    }
    let mut env = String::new();
    let n = preset_id.unicode_len();
    let mut i: usize = 0;
    while i < n
        invariant
            n == preset_id@.len(),
            i <= n,
            env@ == env_key_chars(preset_id@.subrange(0, i as int)),
        decreases n - i,
    {
        let ch = preset_id.get_char(i);
        if ch.is_ascii_alphanumeric() {
            env.push(ch.to_ascii_uppercase());
        } else {
            env.push('_');
        }
        assert(env_key_chars(preset_id@.subrange(0, i + 1)) =~= env_key_chars(preset_id@.subrange(0, i as int)).push(env_key_char(ch)));
        i = i + 1;
    }
    assert(preset_id@.subrange(0, n as int) =~= preset_id@);
    if env.as_str().is_empty() {
        string_of(CUSTOM_PROVIDER_ENV_KEY)
    } else {
        env.push_str("_API_KEY");
        env
    }
}

/// The catalog component of a model id (see [`sanitize_spec`]).
pub fn sanitize_catalog_component(model: &str) -> (r: String)
    ensures
        r@ == sanitize_spec(model@),
{
    let mut sanitized = String::new();
    let mut last_dash = false;
    let n = model.unicode_len();
    let mut i: usize = 0;
    while i < n
        invariant
            n == model@.len(),
            i <= n,
            (sanitized@, last_dash) == collapse_spec(model@.subrange(0, i as int)),
        decreases n - i,
    {
        let ch = model.get_char(i);
        assert(model@.subrange(0, i + 1).drop_last() =~= model@.subrange(0, i as int));
        if ch.is_ascii_alphanumeric() {
            sanitized.push(ch.to_ascii_lowercase());
            last_dash = false;
        } else if !last_dash {
            sanitized.push('-');
            last_dash = true;
        }
        i = i + 1;
    }
    assert(model@.subrange(0, n as int) =~= model@);
    let s = sanitized.as_str();
    let len = s.unicode_len();
    let mut start: usize = 0;
    assert(s@.subrange(0, len as int) =~= s@);
    while start < len && s.get_char(start) == '-'
        invariant
            len == s@.len(),
            start <= len,
            trim_start_char_spec(s@, '-') == trim_start_char_spec(s@.subrange(start as int, len as int), '-'),
        decreases len - start,
    {
        assert(s@.subrange(start as int, len as int).drop_first() =~= s@.subrange(start + 1, len as int));
        start = start + 1;
    }
    assert(trim_start_char_spec(s@.subrange(start as int, len as int), '-') == s@.subrange(start as int, len as int));
    let rest = s.substring_char(start, len);
    let trimmed = trim_end_char(rest, '-');
    if trimmed.as_str().is_empty() {
        string_of("model")
    } else {
        trimmed
    }
}

} // verus!
