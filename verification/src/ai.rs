//! AI icon synthesis: the HTTP request each provider is sent, how each response is read,
//! and what follows once the image is saved.

use vstd::prelude::*;
use vstd::string::StringSliceAdditionalSpecFns;
use vstd::utf8::encode_utf8;
use base64::Engine;
use crate::codec::{decode_guessed_image, guessed_image};
use crate::error::IconToolkitError;
use crate::path::{join_path, parent_of, path_join, path_parent};
use crate::text::{decimal, decimal_string, opt_view};
use crate::types::{AiGeneratorOptions, AiProvider, IconGeneratorOptions, IconTarget, Mode};

verus! {

/// The body of an image synthesis request; each variant is one JSON object shape.
pub enum AiRequestBody {
    /// OpenAI images API (also used for OpenAI-compatible endpoints, without quality).
    ImageGeneration {
        model: String,
        prompt: String,
        n: u32,
        size: String,
        quality: Option<String>,
        response_format: String,
    },
    /// A `multipart/form-data` body (Stability AI stable image generation), as its
    /// `Content-Type` header value and its text.
    Form { content_type: String, body: String },
    /// Gemini Imagen predict: one instance and these parameters.
    Predict { prompt: String, sample_count: u32, aspect_ratio: String, mime_type: String },
}

/// A POST request with a JSON body to an image synthesis provider.
pub struct AiRequest {
    /// The provider's name in error messages.
    pub provider_label: String,
    pub url: String,
    /// Value of the `Authorization` header, if one is sent.
    pub authorization: Option<String>,
    /// Whether an `Accept: application/json` header is sent.
    pub accept_json: bool,
    pub body: AiRequestBody,
}

/// The prompt actually sent: the user's prompt with icon style directions appended.
pub open spec fn enhanced_prompt(p: Seq<char>) -> Seq<char> {
    p + ", modern app icon, clean vector design, isolated on neutral background, crisp details, 8k"@
}

/// The provider's name in error messages.
pub open spec fn provider_label(p: AiProvider) -> Seq<char> {
    match p {
        AiProvider::OpenAi => "OpenAI"@,
        AiProvider::Stability => "Stability AI"@,
        AiProvider::Gemini => "Gemini"@,
        AiProvider::GenericOpenAi => "Generic OpenAI"@,
    }
}

/// The environment variable that holds the provider's key when none is given.
pub open spec fn key_variable(p: AiProvider) -> Seq<char> {
    match p {
        AiProvider::OpenAi => "OPENAI_API_KEY"@,
        AiProvider::Stability => "STABILITY_API_KEY"@,
        AiProvider::Gemini => "GEMINI_API_KEY"@,
        AiProvider::GenericOpenAi => "OPENAI_API_KEY"@,
    }
}

/// The name of the environment variable that holds the provider's API key.
pub fn key_env_var(p: AiProvider) -> (r: &'static str)
    ensures
        r@ == key_variable(p),
{
    match p {
        AiProvider::OpenAi => "OPENAI_API_KEY",
        AiProvider::Stability => "STABILITY_API_KEY",
        AiProvider::Gemini => "GEMINI_API_KEY",
        AiProvider::GenericOpenAi => "OPENAI_API_KEY",
    }
}

/// The key used: the one given, else the environment's.
pub open spec fn chosen_key(given: Option<String>, env: Option<String>) -> Option<Seq<char>> {
    match given {
        Some(k) => Some(k@),
        None => opt_view(env),
    }
}

/// The model used: the one given, else the provider's default.
pub open spec fn model_or(m: Option<String>, default: Seq<char>) -> Seq<char> {
    match m {
        Some(x) => x@,
        None => default,
    }
}

/// The side of an OpenAI image: the requested size, at least 1024 (DALL-E 3 offers no
/// smaller square image); the saved image is resized to the requested size.
pub open spec fn openai_side(size: u32) -> u32 {
    if size >= 1024 {
        size
    } else {
        1024
    }
}

/// The `WxH` size string of a request to an OpenAI-compatible endpoint.
pub open spec fn square_size(size: u32) -> Seq<char> {
    decimal(size as nat) + seq!['x'] + decimal(size as nat)
}

/// The boundary between the parts of a multipart form body.
pub open spec fn form_boundary() -> Seq<char> {
    "icon-toolkit-form-boundary"@
}

/// One text field of a multipart form body.
pub open spec fn form_part(name: Seq<char>, value: Seq<char>) -> Seq<char> {
    "--"@ + form_boundary() + "\r\nContent-Disposition: form-data; name=\""@ + name
        + "\"\r\n\r\n"@ + value + "\r\n"@
}

/// The form of a Stability AI request: the prompt, a PNG output and a square image.
pub open spec fn stability_form(prompt: Seq<char>) -> Seq<char> {
    form_part("prompt"@, prompt) + form_part("output_format"@, "png"@) + form_part(
        "aspect_ratio"@,
        "1:1"@,
    ) + "--"@ + form_boundary() + "--\r\n"@
}

/// The endpoint of a Stability AI stable image model.
pub open spec fn stability_endpoint(model: Seq<char>) -> Seq<char> {
    "https://api.stability.ai/v2beta/stable-image/generate/"@ + model
}

/// The message of the error for a missing key.
pub open spec fn missing_key_message(p: AiProvider) -> Seq<char> {
    match p {
        AiProvider::OpenAi => "OpenAI API key missing. Pass --api-key or set OPENAI_API_KEY environment variable."@,
        AiProvider::Stability => "Stability API key missing. Pass --api-key or set STABILITY_API_KEY environment variable."@,
        AiProvider::Gemini => "Gemini API key missing. Pass --api-key or set GEMINI_API_KEY environment variable."@,
        AiProvider::GenericOpenAi => Seq::empty(),
    }
}

/// The default endpoint of OpenAI-compatible providers.
pub open spec fn openai_endpoint() -> Seq<char> {
    "https://api.openai.com/v1/images/generations"@
}

/// What the request for options `o` is, given the key found in the environment.
pub open spec fn request_spec(o: AiGeneratorOptions, env_key: Option<String>, req: AiRequest) -> bool {
    let prompt = enhanced_prompt(o.prompt@);
    let key = chosen_key(o.api_key, env_key);
    &&& req.provider_label@ == provider_label(o.provider)
    &&& match o.provider {
        AiProvider::OpenAi => {
            &&& req.url@ == openai_endpoint()
            &&& opt_view(req.authorization) == Some("Bearer "@ + key.unwrap())
            &&& !req.accept_json
            &&& req.body matches AiRequestBody::ImageGeneration {
                model,
                prompt: p,
                n,
                size,
                quality,
                response_format,
            } && model@ == model_or(o.model, "dall-e-3"@) && p@ == prompt && n == 1 && size@
                == square_size(openai_side(o.size)) && opt_view(quality) == Some(o.quality@) && response_format@
                == "b64_json"@
        },
        AiProvider::Stability => {
            &&& req.url@ == stability_endpoint(model_or(o.model, "core"@))
            &&& opt_view(req.authorization) == Some("Bearer "@ + key.unwrap())
            &&& req.accept_json
            &&& req.body matches AiRequestBody::Form { content_type, body } && content_type@
                == "multipart/form-data; boundary="@ + form_boundary() && body@ == stability_form(
                prompt,
            )
        },
        AiProvider::Gemini => {
            &&& req.url@ == "https://generativelanguage.googleapis.com/v1beta/models/"@ + model_or(
                o.model,
                "imagen-3.0-generate-002"@,
            ) + ":predict?key="@ + key.unwrap()
            &&& req.authorization is None
            &&& !req.accept_json
            &&& req.body matches AiRequestBody::Predict {
                prompt: p,
                sample_count,
                aspect_ratio,
                mime_type,
            } && p@ == prompt && sample_count == 1 && aspect_ratio@ == "1:1"@ && mime_type@
                == "image/png"@
        },
        AiProvider::GenericOpenAi => {
            &&& req.url@ == match o.endpoint {
                Some(e) => e@,
                None => openai_endpoint(),
            }
            &&& opt_view(req.authorization) == match key {
                Some(k) => if k.len() > 0 {
                    Some("Bearer "@ + k)
                } else {
                    None
                },
                None => None,
            }
            &&& !req.accept_json
            &&& req.body matches AiRequestBody::ImageGeneration {
                model,
                prompt: p,
                n,
                size,
                quality,
                response_format,
            } && model@ == model_or(o.model, "dall-e-3"@) && p@ == prompt && n == 1 && size@
                == square_size(o.size) && quality is None && response_format@ == "b64_json"@
        },
    }
}

fn copy(s: &str) -> (r: String)
    ensures
        r@ == s@,
{
    String::from_str(s)
}

fn label(p: AiProvider) -> (r: String)
    ensures
        r@ == provider_label(p),
{
    match p {
        AiProvider::OpenAi => copy("OpenAI"),
        AiProvider::Stability => copy("Stability AI"),
        AiProvider::Gemini => copy("Gemini"),
        AiProvider::GenericOpenAi => copy("Generic OpenAI"),
    }
}

fn model_or_default(m: &Option<String>, default: &str) -> (r: String)
    ensures
        r@ == model_or(*m, default@),
{
    match m {
        Some(x) => copy(x.as_str()),
        None => copy(default),
    }
}

fn bearer(key: &str) -> (r: String)
    ensures
        r@ == "Bearer "@ + key@,
{
    let mut s = String::new();
    s.append("Bearer ");
    s.append(key);
    s
}

fn square(side: u32) -> (r: String)
    ensures
        r@ == decimal(side as nat) + seq!['x'] + decimal(side as nat),
{
    let d = decimal_string(side as u64);
    let mut s = String::new();
    s.append(d.as_str());
    let x = crate::text::string_from_chars(&vec!['x']);
    s.append(x.as_str());
    s.append(d.as_str());
    s
}

fn push_form_part(s: &mut String, name: &str, value: &str)
    ensures
        final(s)@ == old(s)@ + form_part(name@, value@),
{
    s.append("--");
    s.append("icon-toolkit-form-boundary");
    s.append("\r\nContent-Disposition: form-data; name=\"");
    s.append(name);
    s.append("\"\r\n\r\n");
    s.append(value);
    s.append("\r\n");
}

fn stability_form_text(prompt: &str) -> (r: String)
    ensures
        r@ == stability_form(prompt@),
{
    let mut s = String::new();
    push_form_part(&mut s, "prompt", prompt);
    push_form_part(&mut s, "output_format", "png");
    push_form_part(&mut s, "aspect_ratio", "1:1");
    s.append("--");
    s.append("icon-toolkit-form-boundary");
    s.append("--\r\n");
    s
}

/// Builds the request for options `o`; `env_key` is the value of the provider's key
/// variable (`key_env_var`) in the environment, if set. Fails when no key is found for
/// a provider that needs one.
pub fn ai_request(o: &AiGeneratorOptions, env_key: Option<String>) -> (r: Result<AiRequest, IconToolkitError>)
    ensures
        match r {
            Ok(req) => request_spec(*o, env_key, req) && (o.provider != AiProvider::GenericOpenAi
                ==> chosen_key(o.api_key, env_key) is Some),
            Err(e) => {
                &&& o.provider != AiProvider::GenericOpenAi
                &&& chosen_key(o.api_key, env_key) is None
                &&& e matches IconToolkitError::InvalidConfig(m)
                &&& m@ == missing_key_message(o.provider)
            },
        },
{
    let mut prompt = String::new();
    prompt.append(o.prompt.as_str());
    prompt.append(", modern app icon, clean vector design, isolated on neutral background, crisp details, 8k");
    let key: Option<String> = match &o.api_key {
        Some(k) => Some(copy(k.as_str())),
        None => env_key,
    };
    match o.provider {
        AiProvider::OpenAi => {
            let k = match key {
                Some(k) => k,
                None => {
                    return Err(IconToolkitError::InvalidConfig(copy(
                        "OpenAI API key missing. Pass --api-key or set OPENAI_API_KEY environment variable.",
                    )));
                },
            };
            Ok(AiRequest {
                provider_label: label(o.provider),
                url: copy("https://api.openai.com/v1/images/generations"),
                authorization: Some(bearer(k.as_str())),
                accept_json: false,
                body: AiRequestBody::ImageGeneration {
                    model: model_or_default(&o.model, "dall-e-3"),
                    prompt,
                    n: 1,
                    size: square(if o.size >= 1024 { o.size } else { 1024 }),
                    quality: Some(copy(o.quality.as_str())),
                    response_format: copy("b64_json"),
                },
            })
        },
        AiProvider::Stability => {
            let k = match key {
                Some(k) => k,
                None => {
                    return Err(IconToolkitError::InvalidConfig(copy(
                        "Stability API key missing. Pass --api-key or set STABILITY_API_KEY environment variable.",
                    )));
                },
            };
            let model = model_or_default(&o.model, "core");
            let mut url = String::new();
            url.append("https://api.stability.ai/v2beta/stable-image/generate/");
            url.append(model.as_str());
            let mut content_type = String::new();
            content_type.append("multipart/form-data; boundary=");
            content_type.append("icon-toolkit-form-boundary");
            Ok(AiRequest {
                provider_label: label(o.provider),
                url,
                authorization: Some(bearer(k.as_str())),
                accept_json: true,
                body: AiRequestBody::Form { content_type, body: stability_form_text(prompt.as_str()) },
            })
        },
        AiProvider::Gemini => {
            let k = match key {
                Some(k) => k,
                None => {
                    return Err(IconToolkitError::InvalidConfig(copy(
                        "Gemini API key missing. Pass --api-key or set GEMINI_API_KEY environment variable.",
                    )));
                },
            };
            let model = model_or_default(&o.model, "imagen-3.0-generate-002");
            let mut url = String::new();
            url.append("https://generativelanguage.googleapis.com/v1beta/models/");
            url.append(model.as_str());
            url.append(":predict?key=");
            url.append(k.as_str());
            Ok(AiRequest {
                provider_label: label(o.provider),
                url,
                authorization: None,
                accept_json: false,
                body: AiRequestBody::Predict {
                    prompt,
                    sample_count: 1,
                    aspect_ratio: copy("1:1"),
                    mime_type: copy("image/png"),
                },
            })
        },
        AiProvider::GenericOpenAi => {
            let url = match &o.endpoint {
                Some(e) => copy(e.as_str()),
                None => copy("https://api.openai.com/v1/images/generations"),
            };
            let authorization = match key {
                Some(k) => {
                    if k.as_str().unicode_len() > 0 {
                        Some(bearer(k.as_str()))
                    } else {
                        None
                    }
                },
                None => None,
            };
            Ok(AiRequest {
                provider_label: label(o.provider),
                url,
                authorization,
                accept_json: false,
                body: AiRequestBody::ImageGeneration {
                    model: model_or_default(&o.model, "dall-e-3"),
                    prompt,
                    n: 1,
                    size: square(o.size),
                    quality: None,
                    response_format: copy("b64_json"),
                },
            })
        },
    }
}

} // verus!

verus! {

/// What decoding text with the `base64` crate's `STANDARD` engine (padded standard
/// alphabet) gives: the bytes, or the display text of the decode error.
pub uninterp spec fn base64_standard_decoding(data: Seq<u8>) -> Result<Seq<u8>, Seq<char>>;

/// Calls `base64::engine::general_purpose::STANDARD.decode`; a decode error is turned
/// into its display text. The outcome is a function of the input bytes alone, which the
/// contract names.
#[verifier::external_body]
fn base64_decode(s: &str) -> (r: Result<Vec<u8>, String>)
    ensures
        match base64_standard_decoding(s.spec_bytes()) {
            Ok(b) => r matches Ok(v) && v@ == b,
            Err(m) => r matches Err(e) && e@ == m,
        },
{
    base64::engine::general_purpose::STANDARD.decode(s).map_err(|e| e.to_string())
}

/// One key of a path into a JSON document.
pub enum JsonKey {
    Field(String),
    Index(usize),
}

/// The view of a JSON path: field names, or indices.
pub open spec fn json_key_view(k: JsonKey) -> Result<Seq<char>, usize> {
    match k {
        JsonKey::Field(f) => Ok(f@),
        JsonKey::Index(i) => Err(i),
    }
}

fn field(name: &str) -> (k: JsonKey)
    ensures
        json_key_view(k) == Ok::<Seq<char>, usize>(name@),
{
    JsonKey::Field(String::from_str(name))
}

/// Where a provider's JSON response holds the base64 image.
pub open spec fn payload_path_spec(p: AiProvider) -> Seq<Result<Seq<char>, usize>> {
    match p {
        AiProvider::Stability => seq![Ok("image"@)],
        AiProvider::Gemini => seq![Ok("predictions"@), Err(0usize), Ok("bytesBase64Encoded"@)],
        _ => seq![Ok("data"@), Err(0usize), Ok("b64_json"@)],
    }
}

/// The path of the string field that holds the base64 image in a provider's response.
pub fn payload_path(p: AiProvider) -> (r: Vec<JsonKey>)
    ensures
        r@.map_values(|k: JsonKey| json_key_view(k)) == payload_path_spec(p),
{
    let mut v: Vec<JsonKey> = Vec::new();
    match p {
        AiProvider::Stability => {
            v.push(field("image"));
        },
        AiProvider::Gemini => {
            v.push(field("predictions"));
            v.push(JsonKey::Index(0));
            v.push(field("bytesBase64Encoded"));
        },
        _ => {
            v.push(field("data"));
            v.push(JsonKey::Index(0));
            v.push(field("b64_json"));
        },
    }
    assert(v@.map_values(|k: JsonKey| json_key_view(k)) =~= payload_path_spec(p));
    v
}

/// The path of the string field that holds an image URL, for the providers that may
/// answer with one (OpenAI-compatible endpoints).
pub fn url_path(p: AiProvider) -> (r: Option<Vec<JsonKey>>)
    ensures
        match r {
            Some(v) => p == AiProvider::GenericOpenAi && v@.map_values(|k: JsonKey| json_key_view(k))
                == seq![Ok("data"@), Err(0usize), Ok::<Seq<char>, usize>("url"@)],
            None => p != AiProvider::GenericOpenAi,
        },
{
    match p {
        AiProvider::GenericOpenAi => {
            let mut v: Vec<JsonKey> = Vec::new();
            v.push(field("data"));
            v.push(JsonKey::Index(0));
            v.push(field("url"));
            assert(v@.map_values(|k: JsonKey| json_key_view(k)) =~= seq![
                Ok("data"@),
                Err(0usize),
                Ok::<Seq<char>, usize>("url"@),
            ]);
            Some(v)
        },
        _ => None,
    }
}

/// Where a synthesis stands, between two outside operations.
#[derive(Debug, Clone, Copy, PartialEq, Eq, Structural)]
pub enum AiPhase {
    /// The request was sent; its response is awaited.
    AwaitingResponse,
    /// The text of an unsuccessful response is awaited.
    AwaitingErrorText,
    /// The JSON of a successful response is awaited.
    AwaitingJson,
    /// The download of an image URL is awaited.
    AwaitingDownload,
    /// The bytes of the downloaded image are awaited.
    AwaitingDownloadBody,
    /// Nothing more is awaited.
    Done,
}

/// What an outside operation of a synthesis gave.
pub enum AiEvent {
    /// The request was answered; `success` tells whether the status is a success.
    Response { success: bool },
    /// The request could not be sent or answered, with the error's text.
    SendFailed(String),
    /// The text of an unsuccessful response (empty when it could not be read).
    ErrorText(String),
    /// The JSON response, reduced to the strings at `payload_path` and `url_path`.
    Json { payload: Option<String>, url: Option<String> },
    /// The response was not JSON, with the error's text.
    JsonFailed(String),
    /// The image URL answered.
    Downloaded,
    /// The image URL could not be fetched, with the error's text.
    DownloadFailed(String),
    /// The bytes of the downloaded image.
    DownloadBody(Vec<u8>),
    /// The bytes of the downloaded image could not be read, with the error's text.
    DownloadBodyFailed(String),
}

/// What to do next in a synthesis.
pub enum AiAction {
    /// Read the body of the unsuccessful response as text.
    ReadErrorText,
    /// Read the body of the response as JSON.
    ReadJson,
    /// Fetch the image at this URL.
    Download(String),
    /// Read the body of the downloaded image.
    ReadDownloadBody,
    /// Save these image bytes: the synthesis succeeded.
    Save(Vec<u8>),
    /// Stop with this error.
    Fail(IconToolkitError),
}

/// Whether `e` is an event that can follow in `phase`.
pub open spec fn event_expected(phase: AiPhase, e: AiEvent) -> bool {
    match phase {
        AiPhase::AwaitingResponse => e is Response || e is SendFailed,
        AiPhase::AwaitingErrorText => e is ErrorText,
        AiPhase::AwaitingJson => e is Json || e is JsonFailed,
        AiPhase::AwaitingDownload => e is Downloaded || e is DownloadFailed,
        AiPhase::AwaitingDownloadBody => e is DownloadBody || e is DownloadBodyFailed,
        AiPhase::Done => false,
    }
}

/// Whether `e` is an event that can follow in `phase`.
pub fn is_event_expected(phase: AiPhase, e: &AiEvent) -> (r: bool)
    ensures
        r == event_expected(phase, *e),
{
    match phase {
        AiPhase::AwaitingResponse => matches!(e, AiEvent::Response { .. } | AiEvent::SendFailed(_)),
        AiPhase::AwaitingErrorText => matches!(e, AiEvent::ErrorText(_)),
        AiPhase::AwaitingJson => matches!(e, AiEvent::Json { .. } | AiEvent::JsonFailed(_)),
        AiPhase::AwaitingDownload => matches!(e, AiEvent::Downloaded | AiEvent::DownloadFailed(_)),
        AiPhase::AwaitingDownloadBody => matches!(
            e,
            AiEvent::DownloadBody(_) | AiEvent::DownloadBodyFailed(_)
        ),
        AiPhase::Done => false,
    }
}

/// The message prefix of an unreadable JSON response.
pub open spec fn json_failure_prefix(p: AiProvider) -> Seq<char> {
    match p {
        AiProvider::Stability => "Failed to parse JSON response: "@,
        AiProvider::Gemini => "Failed to parse JSON response: "@,
        _ => "Failed to parse response JSON: "@,
    }
}

/// The message of a JSON response without the image.
pub open spec fn missing_payload_message(p: AiProvider) -> Seq<char> {
    match p {
        AiProvider::OpenAi => "Response did not contain b64_json image payload"@,
        AiProvider::Stability => "Response did not contain image payload"@,
        AiProvider::Gemini => "Response did not contain image bytes payload"@,
        AiProvider::GenericOpenAi => "Response did not contain b64_json or image URL"@,
    }
}

/// Whether `a` stops the synthesis with the provider's service error `msg`.
pub open spec fn fails_with(a: AiAction, p: AiProvider, msg: Seq<char>) -> bool {
    a matches AiAction::Fail(IconToolkitError::AiService { provider, message }) && provider@
        == provider_label(p) && message@ == msg
}

/// The next phase and action of a synthesis with provider `p`, in phase `phase`, after
/// event `e`.
pub open spec fn ai_step_spec(p: AiProvider, phase: AiPhase, e: AiEvent, r: (AiPhase, AiAction)) -> bool {
    match e {
        AiEvent::Response { success } => if success {
            r.0 == AiPhase::AwaitingJson && r.1 is ReadJson
        } else {
            r.0 == AiPhase::AwaitingErrorText && r.1 is ReadErrorText
        },
        AiEvent::SendFailed(m) => r.0 == AiPhase::Done && fails_with(r.1, p, m@),
        AiEvent::ErrorText(t) => r.0 == AiPhase::Done && fails_with(
            r.1,
            p,
            "API returned HTTP error: "@ + t@,
        ),
        AiEvent::JsonFailed(m) => r.0 == AiPhase::Done && fails_with(
            r.1,
            p,
            json_failure_prefix(p) + m@,
        ),
        AiEvent::Json { payload, url } => match payload {
            Some(b) => r.0 == AiPhase::Done && match base64_standard_decoding(encode_utf8(b@)) {
                Ok(bytes) => r.1 matches AiAction::Save(v) && v@ == bytes,
                Err(m) => fails_with(r.1, p, "Failed to decode base64 image data: "@ + m),
            },
            None => match url {
                Some(u) if p == AiProvider::GenericOpenAi => {
                    &&& r.0 == AiPhase::AwaitingDownload
                    &&& r.1 matches AiAction::Download(x)
                    &&& x@ == u@
                },
                _ => r.0 == AiPhase::Done && fails_with(r.1, p, missing_payload_message(p)),
            },
        },
        AiEvent::Downloaded => r.0 == AiPhase::AwaitingDownloadBody && r.1 is ReadDownloadBody,
        AiEvent::DownloadFailed(m) => r.0 == AiPhase::Done && fails_with(
            r.1,
            p,
            "Failed to fetch image from URL: "@ + m@,
        ),
        AiEvent::DownloadBody(b) => {
            &&& r.0 == AiPhase::Done
            &&& r.1 matches AiAction::Save(v)
            &&& v@ == b@
        },
        AiEvent::DownloadBodyFailed(m) => r.0 == AiPhase::Done && fails_with(
            r.1,
            p,
            "Failed to read image bytes: "@ + m@,
        ),
    }
}

} // verus!

verus! {

fn service_error(p: AiProvider, prefix: &str, detail: &str) -> (e: IconToolkitError)
    ensures
        e matches IconToolkitError::AiService { provider, message } && provider@ == provider_label(p)
            && message@ == prefix@ + detail@,
{
    let mut m = String::new();
    m.append(prefix);
    m.append(detail);
    IconToolkitError::AiService { provider: label(p), message: m }
}

fn missing_payload_error(p: AiProvider) -> (e: IconToolkitError)
    ensures
        e matches IconToolkitError::AiService { provider, message } && provider@ == provider_label(p)
            && message@ == missing_payload_message(p),
{
    let m = match p {
        AiProvider::OpenAi => copy("Response did not contain b64_json image payload"),
        AiProvider::Stability => copy("Response did not contain image payload"),
        AiProvider::Gemini => copy("Response did not contain image bytes payload"),
        AiProvider::GenericOpenAi => copy("Response did not contain b64_json or image URL"),
    };
    IconToolkitError::AiService { provider: label(p), message: m }
}

/// Advances a synthesis with provider `p`: from `phase`, after event `e`, the next phase
/// and what to do.
pub fn ai_step(p: AiProvider, phase: AiPhase, e: AiEvent) -> (r: (AiPhase, AiAction))
    requires
        event_expected(phase, e),
    ensures
        ai_step_spec(p, phase, e, r),
{
    match e {
        AiEvent::Response { success } => {
            if success {
                (AiPhase::AwaitingJson, AiAction::ReadJson)
            } else {
                (AiPhase::AwaitingErrorText, AiAction::ReadErrorText)
            }
        },
        AiEvent::SendFailed(m) => {
            let err = service_error(p, "", m.as_str());
            proof {
                reveal_strlit("");
                assert(""@ + m@ =~= m@);
            }
            (AiPhase::Done, AiAction::Fail(err))
        },
        AiEvent::ErrorText(t) => (
            AiPhase::Done,
            AiAction::Fail(service_error(p, "API returned HTTP error: ", t.as_str())),
        ),
        AiEvent::JsonFailed(m) => {
            let prefix = match p {
                AiProvider::Stability => "Failed to parse JSON response: ",
                AiProvider::Gemini => "Failed to parse JSON response: ",
                _ => "Failed to parse response JSON: ",
            };
            (AiPhase::Done, AiAction::Fail(service_error(p, prefix, m.as_str())))
        },
        AiEvent::Json { payload, url } => match payload {
            Some(b) => match base64_decode(b.as_str()) {
                Ok(bytes) => (AiPhase::Done, AiAction::Save(bytes)),
                Err(m) => (
                    AiPhase::Done,
                    AiAction::Fail(
                        service_error(p, "Failed to decode base64 image data: ", m.as_str()),
                    ),
                ),
            },
            None => match url {
                Some(u) if p == AiProvider::GenericOpenAi => (
                    AiPhase::AwaitingDownload,
                    AiAction::Download(u),
                ),
                _ => (AiPhase::Done, AiAction::Fail(missing_payload_error(p))),
            },
        },
        AiEvent::Downloaded => (AiPhase::AwaitingDownloadBody, AiAction::ReadDownloadBody),
        AiEvent::DownloadFailed(m) => (
            AiPhase::Done,
            AiAction::Fail(service_error(p, "Failed to fetch image from URL: ", m.as_str())),
        ),
        AiEvent::DownloadBody(b) => (AiPhase::Done, AiAction::Save(b)),
        AiEvent::DownloadBodyFailed(m) => (
            AiPhase::Done,
            AiAction::Fail(service_error(p, "Failed to read image bytes: ", m.as_str())),
        ),
    }
}

/// The directory to create before the image is saved: the parent of its path, if any.
pub fn image_dir(o: &AiGeneratorOptions) -> (r: Option<String>)
    ensures
        opt_view(r) == path_parent(o.output_path@),
{
    parent_of(o.output_path.as_str())
}

/// The directory an icon set generated from the new image goes to: `targets` next to
/// the image (or under `.` when its path has no parent).
pub open spec fn targets_dir(image: Seq<char>) -> Seq<char> {
    path_join(
        match path_parent(image) {
            Some(d) => d,
            None => "."@,
        },
        "targets"@,
    )
}

/// The options of the icon set generated from the new image, when targets were asked
/// for: the image as light source, every target asked for, into `targets_dir`, with no
/// padding, background or rounding.
pub fn auto_generate_options(o: &AiGeneratorOptions) -> (r: Option<IconGeneratorOptions>)
    ensures
        match o.auto_generate_targets {
            Some(ts) => r matches Some(g) && g.input_path@ == o.output_path@ && g.dark_input_path is None
                && g.targets@ == ts@ && g.mode == Mode::Light && g.output_dir@ == targets_dir(
                o.output_path@,
            ) && g.padding_percent == 0 && g.background_color is None && g.border_radius_percent
                == 0,
            None => r is None,
        },
{
    match &o.auto_generate_targets {
        Some(ts) => {
            let base = match parent_of(o.output_path.as_str()) {
                Some(d) => d,
                None => copy("."),
            };
            let out = join_path(base.as_str(), "targets");
            let mut targets: Vec<IconTarget> = Vec::new();
            let mut i: usize = 0;
            while i < ts.len()
                invariant
                    i <= ts.len(),
                    targets@ == ts@.take(i as int),
                decreases ts.len() - i,
            {
                targets.push(ts[i]);
                i = i + 1;
                assert(targets@ =~= ts@.take(i as int));
            }
            assert(ts@.take(ts.len() as int) =~= ts@);
            Some(
                IconGeneratorOptions {
                    input_path: copy(o.output_path.as_str()),
                    dark_input_path: None,
                    targets,
                    mode: Mode::Light,
                    output_dir: out,
                    padding_percent: 0,
                    background_color: None,
                    border_radius_percent: 0,
                },
            )
        },
        None => None,
    }
}

/// How the image a provider sent is written to the output path.
pub enum ImageOutput {
    /// The image already has the requested size: its bytes are written as received.
    AsReceived(Vec<u8>),
    /// The decoded image (`width`×`height`, RGBA pixels) is resized to `side`×`side`
    /// and saved in the format of the output path's extension.
    Resized { width: u32, height: u32, pixels: Vec<u8>, side: u32 },
}

/// What is written for the image `bytes` a provider sent: the requested size `o.size`
/// is the side of the saved image. An image that already has it (or a size of zero,
/// which asks for none) is kept as received, and so are bytes the `image` crate cannot
/// decode; any other image is resized.
pub open spec fn image_output_spec(
    o: AiGeneratorOptions,
    bytes: Seq<u8>,
    r: ImageOutput,
) -> bool {
    match guessed_image(bytes) {
        Ok((w, h, px)) => if o.size == 0 || (w == o.size && h == o.size) {
            r matches ImageOutput::AsReceived(b) && b@ == bytes
        } else {
            (r matches ImageOutput::Resized { width, height, pixels, side } && width == w
                && height == h && pixels@ == px && side == o.size)
        },
        Err(_) => r matches ImageOutput::AsReceived(b) && b@ == bytes,
    }
}

/// Decides how the image `bytes` sent by the provider is saved at the requested size.
pub fn image_output(o: &AiGeneratorOptions, bytes: Vec<u8>) -> (r: ImageOutput)
    ensures
        image_output_spec(*o, bytes@, r),
        r matches ImageOutput::Resized { width, height, pixels, .. } ==> pixels@.len() == 4
            * width * height,
{
    match decode_guessed_image(bytes.as_slice()) {
        Ok((w, h, px)) => {
            if o.size == 0 || (w == o.size && h == o.size) {
                ImageOutput::AsReceived(bytes)
            } else {
                ImageOutput::Resized { width: w, height: h, pixels: px, side: o.size }
            }
        },
        Err(_) => ImageOutput::AsReceived(bytes),
    }
}

/// The result of a synthesis that saved its image, with the result of the icon set
/// generated from it, if any.
pub fn ai_result(o: &AiGeneratorOptions, targets_result: Option<crate::types::GeneratorResult>) -> (r: crate::types::AiGeneratorResult)
    ensures
        r.image_path@ == o.output_path@,
        r.targets_result == targets_result,
{
    crate::types::AiGeneratorResult { image_path: copy(o.output_path.as_str()), targets_result }
}

} // verus!

verus! {

/// A synthesis stops exactly when it saves its image or fails: every step that reaches
/// `Done` saves or fails, and every other step reads or downloads.
pub proof fn lemma_ai_step_stops_only_on_save_or_failure(
    p: AiProvider,
    phase: AiPhase,
    e: AiEvent,
    r: (AiPhase, AiAction),
)
    requires
        event_expected(phase, e),
        ai_step_spec(p, phase, e, r),
    ensures
        (r.0 == AiPhase::Done) <==> (r.1 is Save || r.1 is Fail),
{
}

/// Only an OpenAI-compatible endpoint may answer with an image URL to download; for the
/// other providers a JSON answer without the base64 image is a failure.
pub proof fn lemma_only_generic_downloads(p: AiProvider, phase: AiPhase, e: AiEvent, r: (AiPhase, AiAction))
    requires
        event_expected(phase, e),
        ai_step_spec(p, phase, e, r),
        r.1 is Download,
    ensures
        p == AiProvider::GenericOpenAi,
        phase == AiPhase::AwaitingJson,
{
}

} // verus!

verus! {

/// The key a request authenticates with is the one the user gave, whatever the
/// environment holds; the environment's key is used only when none is given. (For
/// OpenAI and Stability AI it is sent as a bearer token, for Gemini in the URL, and for
/// an OpenAI-compatible endpoint as a bearer token when it is not empty.)
pub proof fn lemma_given_key_overrides_environment(
    o: AiGeneratorOptions,
    env_key: Option<String>,
    req: AiRequest,
)
    requires
        request_spec(o, env_key, req),
        o.provider != AiProvider::GenericOpenAi ==> (o.api_key is Some || env_key is Some),
    ensures
        ({
            let k = match o.api_key {
                Some(g) => g@,
                None => env_key.unwrap()@,
            };
            &&& (o.provider == AiProvider::OpenAi || o.provider == AiProvider::Stability)
                ==> opt_view(req.authorization) == Some("Bearer "@ + k)
            &&& o.provider == AiProvider::Gemini ==> req.url@.subrange(
                req.url@.len() - k.len(),
                req.url@.len() as int,
            ) == k
            &&& o.provider == AiProvider::GenericOpenAi && (o.api_key is Some || env_key is Some)
                && k.len() > 0 ==> opt_view(req.authorization) == Some("Bearer "@ + k)
        }),
{
    if o.provider == AiProvider::Gemini {
        let k = match o.api_key {
            Some(g) => g@,
            None => env_key.unwrap()@,
        };
        let u = req.url@;
        assert(u.subrange(u.len() - k.len(), u.len() as int) =~= k);
    }
}

} // verus!
