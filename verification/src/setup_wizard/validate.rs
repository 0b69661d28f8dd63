//! What the wizard checks before it saves a provider: the probe request and the
//! decisions taken on the provider's answers.
use vstd::prelude::*;
use crate::headers::{header_entries, headers_clone, headers_get_index, headers_len};
use crate::text::{opt_str_ref_view, str_eq, string_of, trim_end_char, trim_end_char_spec, trim_spec};

verus! {

/// The endpoint, model and credentials to probe.
#[derive(Debug, PartialEq, Eq)]
pub struct ValidateRequest {
    pub base_url: String,
    pub model: String,
    pub api_key: Option<String>,
    pub api_backend: String,
    pub auth_not_required: bool,
    pub extra_headers: indexmap::IndexMap<String, String>,
}

pub open spec fn opt_string_view(o: Option<String>) -> Option<Seq<char>> {
    match o {
        Some(s) => Some(s@),
        None => None,
    }
}

pub fn clone_opt_string(o: &Option<String>) -> (r: Option<String>)
    ensures
        opt_string_view(r) == opt_string_view(*o),
{
    match o {
        Some(s) => Some(s.clone()),
        None => None,
    }
}

impl ValidateRequest {
    /// Two requests carry the same values.
    pub open spec fn same_as(self, other: ValidateRequest) -> bool {
        &&& self.base_url@ == other.base_url@
        &&& self.model@ == other.model@
        &&& opt_string_view(self.api_key) == opt_string_view(other.api_key)
        &&& self.api_backend@ == other.api_backend@
        &&& self.auth_not_required == other.auth_not_required
        &&& header_entries(self.extra_headers) == header_entries(other.extra_headers)
    }
}

impl Clone for ValidateRequest {
    fn clone(&self) -> (r: Self)
        ensures
            r.same_as(*self),
    {
        ValidateRequest {
            base_url: self.base_url.clone(),
            model: self.model.clone(),
            api_key: clone_opt_string(&self.api_key),
            api_backend: self.api_backend.clone(),
            auth_not_required: self.auth_not_required,
            extra_headers: headers_clone(&self.extra_headers),
        }
    }
}

/// One header to set on the probe requests, in order; a later header replaces an
/// earlier one with the same name.
#[derive(Debug, Clone, PartialEq, Eq)]
pub struct HeaderInsert {
    pub name: String,
    pub value: String,
}

/// Which generation endpoint the fallback probe posts to.
#[derive(Debug, Clone, Copy, PartialEq, Eq, Structural)]
pub enum ProbeKind {
    /// `messages`, with `max_tokens` and `messages`.
    Messages,
    /// `responses`, with `max_output_tokens` and `input`.
    Responses,
    /// `chat/completions`, with `max_tokens` and `messages`.
    ChatCompletions,
}

/// The one-token request posted when the provider has no `/models` listing.
#[derive(Debug, Clone, PartialEq, Eq)]
pub struct GenerationProbe {
    pub url: String,
    pub kind: ProbeKind,
    pub model: String,
}

/// What to do after the `/models` request answered with a status.
#[derive(Debug, Clone, Copy, PartialEq, Eq, Structural)]
pub enum ModelsProbeOutcome {
    /// A success status: the provider is valid.
    Valid,
    /// Not found: try the generation endpoint instead.
    ProbeGeneration,
    /// Any other status: validation failed.
    Failed,
}

/// A character HTTP accepts in a header name: an ASCII letter (either case) or digit,
/// or one of ``!#$%&'*+-.^_`|~``.
pub open spec fn header_name_char_ok(c: char) -> bool {
    ||| 'a' <= c && c <= 'z'
    ||| 'A' <= c && c <= 'Z'
    ||| '0' <= c && c <= '9'
    ||| c == '!' || c == '#' || c == '$' || c == '%' || c == '&' || c == '\'' || c == '*' || c == '+'
    ||| c == '-' || c == '.' || c == '^' || c == '_' || c == '`' || c == '|' || c == '~'
}

/// Whether HTTP accepts `name` as a header name: one to 65535 name characters.
pub open spec fn http_header_name_ok(name: Seq<char>) -> bool {
    &&& 1 <= name.len() <= 65535
    &&& forall|i: int| 0 <= i < name.len() ==> header_name_char_ok(#[trigger] name[i])
}

/// A character HTTP accepts in a header value: any but the control characters other
/// than tab.
pub open spec fn header_value_char_ok(c: char) -> bool {
    ((c as u32) >= 32 && (c as u32) != 127) || c == '\t'
}

pub open spec fn header_value_ok(v: Seq<char>) -> bool {
    forall|i: int| 0 <= i < v.len() ==> header_value_char_ok(#[trigger] v[i])
}

/// `reqwest::header::HeaderName::from_bytes` on the name's bytes succeeds: there are
/// one to 65535 bytes, each a name character (any byte of a non-ASCII character is
/// refused).
#[verifier::external_body]
fn header_name_valid(name: &str) -> (r: bool)
    ensures
        r == http_header_name_ok(name@),
{
    reqwest::header::HeaderName::from_bytes(name.as_bytes()).is_ok()
}

/// `reqwest::header::HeaderValue::from_str` succeeds: every byte is tab, or at least 32
/// and not 127.
#[verifier::external_body]
fn header_value_valid(value: &str) -> (r: bool)
    ensures
        r == header_value_ok(value@),
{
    reqwest::header::HeaderValue::from_str(value).is_ok()
}

/// The extra headers checked in order: the first bad name or value stops with its message.
pub open spec fn extra_headers_plan(s: Seq<(Seq<char>, Seq<char>)>) -> Result<Seq<(Seq<char>, Seq<char>)>, Seq<char>>
    decreases s.len(),
{
    if s.len() == 0 {
        Ok(Seq::empty())
    } else {
        match extra_headers_plan(s.drop_last()) {
            Err(m) => Err(m),
            Ok(prev) => {
                let (name, value) = s.last();
                if !http_header_name_ok(name) {
                    Err("bad header name "@ + name)
                } else if !header_value_ok(value) {
                    Err("bad header value for "@ + name)
                } else {
                    Ok(prev.push((name, value)))
                }
            },
        }
    }
}

/// The API key to send: the request's key without surrounding whitespace, when that
/// leaves something.
pub open spec fn request_key_spec(api_key: Option<Seq<char>>) -> Option<Seq<char>> {
    match api_key {
        Some(k) => if trim_spec(k).len() > 0 {
            Some(trim_spec(k))
        } else {
            None
        },
        None => None,
    }
}

/// The headers of the probe requests in the order they are set, or why they cannot be built.
pub open spec fn header_plan_spec(r: ValidateRequest) -> Result<Seq<(Seq<char>, Seq<char>)>, Seq<char>> {
    match extra_headers_plan(header_entries(r.extra_headers)) {
        Err(m) => Err(m),
        Ok(extra) => {
            let base = seq![("content-type"@, "application/json"@)] + extra;
            if r.auth_not_required {
                Ok(base)
            } else {
                match request_key_spec(opt_string_view(r.api_key)) {
                    None => Err("API key required to validate this provider"@),
                    Some(key) => if r.api_backend@ == "messages"@ {
                        if header_value_ok(key) {
                            Ok(base.push(("x-api-key"@, key)))
                        } else {
                            Err("invalid API key header value"@)
                        }
                    } else {
                        if header_value_ok("Bearer "@ + key) {
                            Ok(base.push(("authorization"@, "Bearer "@ + key)))
                        } else {
                            Err("invalid Authorization header value"@)
                        }
                    },
                }
            }
        },
    }
}

pub open spec fn inserts_view(v: Seq<HeaderInsert>) -> Seq<(Seq<char>, Seq<char>)> {
    v.map_values(|h: HeaderInsert| (h.name@, h.value@))
}

fn header(name: &str, value: &str) -> (h: HeaderInsert)
    ensures
        h.name@ == name@,
        h.value@ == value@,
{
    HeaderInsert { name: string_of(name), value: string_of(value) }
}

/// The headers of the probe requests, in the order they are set.
pub fn build_headers(request: &ValidateRequest) -> (r: Result<Vec<HeaderInsert>, String>)
    ensures
        match header_plan_spec(*request) {
            Ok(plan) => r matches Ok(v) && inserts_view(v@) == plan,
            Err(m) => r matches Err(e) && e@ == m,
        },
{
    let mut headers: Vec<HeaderInsert> = Vec::new();
    headers.push(header("content-type", "application/json"));
    let ghost base = seq![("content-type"@, "application/json"@)];
    assert(inserts_view(headers@) =~= base);
    let n = headers_len(&request.extra_headers);
    let mut i: usize = 0;
    while i < n
        invariant
            n == header_entries(request.extra_headers).len(),
            i <= n,
            base == seq![("content-type"@, "application/json"@)],
            extra_headers_plan(header_entries(request.extra_headers).subrange(0, i as int)) matches Ok(prev)
                && inserts_view(headers@) == base + prev,
        decreases n - i,
    {
        let ghost s = header_entries(request.extra_headers).subrange(0, i + 1);
        assert(s.drop_last() =~= header_entries(request.extra_headers).subrange(0, i as int));
        let (name, value) = headers_get_index(&request.extra_headers, i);
        if !header_name_valid(name.as_str()) {
            let mut e = string_of("bad header name ");
            e.push_str(name.as_str());
            proof { lemma_plan_error_persists(header_entries(request.extra_headers), i as int + 1); }
            return Err(e);
        }
        if !header_value_valid(value.as_str()) {
            let mut e = string_of("bad header value for ");
            e.push_str(name.as_str());
            proof { lemma_plan_error_persists(header_entries(request.extra_headers), i as int + 1); }
            return Err(e);
        }
        let ghost before = headers@;
        headers.push(HeaderInsert { name: name.clone(), value: value.clone() });
        assert(inserts_view(headers@) =~= inserts_view(before).push((name@, value@)));
        i = i + 1;
    }
    assert(header_entries(request.extra_headers).subrange(0, n as int) =~= header_entries(request.extra_headers));
    if request.auth_not_required {
        return Ok(headers);
    }
    let api_key = match &request.api_key {
        Some(k) => {
            let t = k.as_str().trim();
            if t.is_empty() {
                return Err(string_of("API key required to validate this provider"));
            }
            t
        },
        None => return Err(string_of("API key required to validate this provider")),
    };
    if str_eq(request.api_backend.as_str(), "messages") {
        if !header_value_valid(api_key) {
            return Err(string_of("invalid API key header value"));
        }
        let ghost before = headers@;
        headers.push(header("x-api-key", api_key));
        assert(inserts_view(headers@) =~= inserts_view(before).push(("x-api-key"@, api_key@)));
    } else {
        let mut bearer = string_of("Bearer ");
        bearer.push_str(api_key);
        if !header_value_valid(bearer.as_str()) {
            return Err(string_of("invalid Authorization header value"));
        }
        let ghost before = headers@;
        headers.push(HeaderInsert { name: string_of("authorization"), value: bearer });
        assert(inserts_view(headers@) =~= inserts_view(before).push(("authorization"@, "Bearer "@ + api_key@)));
    }
    Ok(headers)
}

/// Once the headers of a prefix fail, every longer prefix fails with the same message.
proof fn lemma_plan_error_persists(s: Seq<(Seq<char>, Seq<char>)>, k: int)
    requires
        0 < k <= s.len(),
        extra_headers_plan(s.subrange(0, k)) is Err,
    ensures
        extra_headers_plan(s) == extra_headers_plan(s.subrange(0, k)),
    decreases s.len() - k,
{
    if k < s.len() {
        assert(s.subrange(0, k + 1).drop_last() =~= s.subrange(0, k));
        lemma_plan_error_persists(s, k + 1);
    } else {
        assert(s.subrange(0, k) =~= s);
    }
}

/// The listing URL probed first: the trimmed base URL without trailing `/`, then `/models`.
pub open spec fn models_url_spec(base_url: Seq<char>) -> Seq<char> {
    trim_end_char_spec(trim_spec(base_url), '/') + "/models"@
}

/// Checks the request and gives the URL of the `/models` listing to probe.
pub fn validation_target(request: &ValidateRequest) -> (r: Result<String, String>)
    ensures
        trim_spec(request.base_url@).len() == 0 ==> (r matches Err(e) && e@ == "Provider base URL is required"@),
        trim_spec(request.base_url@).len() > 0 && trim_spec(request.model@).len() == 0 ==> (r matches Err(e)
            && e@ == "Provider model is required"@),
        trim_spec(request.base_url@).len() > 0 && trim_spec(request.model@).len() > 0 ==> (r matches Ok(url)
            && url@ == models_url_spec(request.base_url@)),
{
    let base_url = request.base_url.as_str().trim();
    if base_url.is_empty() {
        return Err(string_of("Provider base URL is required"));
    }
    let model = request.model.as_str().trim();
    if model.is_empty() {
        return Err(string_of("Provider model is required"));
    }
    let mut url = trim_end_char(base_url, '/');
    url.push_str("/models");
    Ok(url)
}

/// What an answer of the `/models` listing means.
pub fn models_probe_outcome(status: u16) -> (r: ModelsProbeOutcome)
    ensures
        200 <= status <= 299 ==> r == ModelsProbeOutcome::Valid,
        status == 404 ==> r == ModelsProbeOutcome::ProbeGeneration,
        !(200 <= status <= 299) && status != 404 ==> r == ModelsProbeOutcome::Failed,
{
    if 200 <= status && status <= 299 {
        ModelsProbeOutcome::Valid
    } else if status == 404 {
        ModelsProbeOutcome::ProbeGeneration
    } else {
        ModelsProbeOutcome::Failed
    }
}

/// Whether an answer of the generation probe means the provider is valid.
pub fn generation_probe_succeeded(status: u16) -> (r: bool)
    ensures
        r == (200 <= status <= 299),
{
    200 <= status && status <= 299
}

pub open spec fn probe_kind_spec(api_backend: Seq<char>) -> ProbeKind {
    if api_backend == "messages"@ {
        ProbeKind::Messages
    } else if api_backend == "responses"@ {
        ProbeKind::Responses
    } else {
        ProbeKind::ChatCompletions
    }
}

pub open spec fn probe_path_spec(kind: ProbeKind) -> Seq<char> {
    match kind {
        ProbeKind::Messages => "messages"@,
        ProbeKind::Responses => "responses"@,
        ProbeKind::ChatCompletions => "chat/completions"@,
    }
}

/// The generation probe for the request's backend: `messages`, `responses`, or
/// `chat/completions` for any other backend, under the base URL without trailing `/`.
pub fn generation_probe(request: &ValidateRequest) -> (r: GenerationProbe)
    ensures
        r.kind == probe_kind_spec(request.api_backend@),
        r.url@ == trim_end_char_spec(request.base_url@, '/') + "/"@ + probe_path_spec(r.kind),
        r.model@ == trim_spec(request.model@),
{
    let kind = if str_eq(request.api_backend.as_str(), "messages") {
        ProbeKind::Messages
    } else if str_eq(request.api_backend.as_str(), "responses") {
        ProbeKind::Responses
    } else {
        ProbeKind::ChatCompletions
    };
    let path = match kind {
        ProbeKind::Messages => "messages",
        ProbeKind::Responses => "responses",
        ProbeKind::ChatCompletions => "chat/completions",
    };
    let mut url = trim_end_char(request.base_url.as_str(), '/');
    url.push('/');
    url.push_str(path);
    proof {
        reveal_strlit("/");
        assert(url@ =~= trim_end_char_spec(request.base_url@, '/') + "/"@ + probe_path_spec(kind));
    }
    GenerationProbe { url, kind, model: string_of(request.model.as_str().trim()) }
}

/// The JSON fields of the one-token generation probe: the model, a token limit of
/// one under the backend's name for it, and a single user message `ping` under the
/// backend's name for the input.
#[derive(Debug, Clone, PartialEq, Eq)]
pub struct ProbeBody {
    pub model: String,
    pub token_limit_field: String,
    pub token_limit: u32,
    pub input_field: String,
    pub role: String,
    pub content: String,
}

/// The name of the token limit: `max_output_tokens` for `responses`, else `max_tokens`.
pub open spec fn token_limit_field_spec(kind: ProbeKind) -> Seq<char> {
    match kind {
        ProbeKind::Responses => "max_output_tokens"@,
        _ => "max_tokens"@,
    }
}

/// The name of the input list: `input` for `responses`, else `messages`.
pub open spec fn input_field_spec(kind: ProbeKind) -> Seq<char> {
    match kind {
        ProbeKind::Responses => "input"@,
        _ => "messages"@,
    }
}

/// The body fields posted by the generation probe.
pub fn generation_probe_body(probe: &GenerationProbe) -> (r: ProbeBody)
    ensures
        r.model@ == probe.model@,
        r.token_limit_field@ == token_limit_field_spec(probe.kind),
        r.token_limit == 1,
        r.input_field@ == input_field_spec(probe.kind),
        r.role@ == "user"@,
        r.content@ == "ping"@,
{
    let (token_limit_field, input_field) = match probe.kind {
        ProbeKind::Responses => ("max_output_tokens", "input"),
        _ => ("max_tokens", "messages"),
    };
    ProbeBody {
        model: string_of(probe.model.as_str()),
        token_limit_field: string_of(token_limit_field),
        token_limit: 1,
        input_field: string_of(input_field),
        role: string_of("user"),
        content: string_of("ping"),
    }
}

/// The body excerpt shown in a failure: trimmed, at most 200 characters and then `...`,
/// or a placeholder when empty.
pub open spec fn body_snippet_spec(body: Seq<char>) -> Seq<char> {
    let t = trim_spec(body);
    if t.len() == 0 {
        "<empty response body>"@
    } else if t.len() <= 200 {
        t
    } else {
        t.subrange(0, 200) + "..."@
    }
}

/// The body excerpt shown in a failure message.
pub fn body_snippet(body: &str) -> (r: String)
    ensures
        r@ == body_snippet_spec(body@),
{
    let trimmed = body.trim();
    if trimmed.is_empty() {
        return string_of("<empty response body>");
    }
    let max_len: usize = 200;
    if trimmed.unicode_len() <= max_len {
        string_of(trimmed)
    } else {
        let mut snippet = string_of(trimmed.substring_char(0, max_len));
        snippet.push_str("...");
        snippet
    }
}

/// The message for a failed validation: the status, then the body excerpt.
pub fn validation_failure_message(status: &str, body: &str) -> (r: String)
    ensures
        r@ == "Validation failed with "@ + status@ + ": "@ + body_snippet_spec(body@),
{
    let mut m = string_of("Validation failed with ");
    m.push_str(status);
    m.push_str(": ");
    let snippet = body_snippet(body);
    m.push_str(snippet.as_str());
    m
}

} // verus!
