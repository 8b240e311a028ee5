//! The boundary to the `async_openai` transport client.
//!
//! Every item here is trusted: each wraps exactly the listed calls into
//! `async_openai`, converts between its types and plain values, and states no
//! more than that crate's source shows. The values of the declared types are
//! opaque to the rest of the library; they are only carried through to the
//! driver that performs the actual network exchange.

use vstd::prelude::*;
use crate::codec::string_views;
use async_openai::Client;
use async_openai::config::OpenAIConfig;
use async_openai::error::OpenAIError;
use async_openai::types::completions::CreateCompletionRequest;
use async_openai::types::completions::CreateCompletionRequestArgs;
use async_openai::types::completions::CreateCompletionResponse;

verus! {

#[verifier::external_type_specification]
#[verifier::external_body]
pub struct ExOpenAIConfig(OpenAIConfig);

/// The exclusively owned handle to the transport client.
///
/// `async_openai::Client<C>` itself cannot be declared to the verifier (its
/// `C: Config` bound names a trait the verifier does not know), so the handle
/// holds it opaquely. The driver that performs the network exchange reaches
/// the client through the public `inner` field; the verified logic only
/// carries the handle.
#[verifier::external_body]
pub struct TransportHandle {
    pub inner: Client<OpenAIConfig>,
}

#[verifier::external_type_specification]
#[verifier::external_body]
pub struct ExCreateCompletionRequest(CreateCompletionRequest);

#[verifier::external_type_specification]
#[verifier::external_body]
pub struct ExCreateCompletionResponse(CreateCompletionResponse);

#[verifier::external_type_specification]
#[verifier::external_body]
pub struct ExOpenAIError(OpenAIError);

/// Relies on `OpenAIConfig::new`, `with_api_key`, `with_api_base` and
/// `with_org_id`: each stores the given string in the configuration value.
/// Nothing is stated of the opaque result; it is only carried through.
#[verifier::external_body]
pub(crate) fn make_config(api_key: &str, base_url: &str, org_id: &str) -> OpenAIConfig {
    OpenAIConfig::new().with_api_key(api_key).with_api_base(base_url).with_org_id(org_id)
}

/// Relies on `Client::with_config`: wraps the configuration in a client
/// handle without performing any network traffic.
#[verifier::external_body]
pub(crate) fn client_with_config(config: OpenAIConfig) -> TransportHandle {
    TransportHandle { inner: Client::with_config(config) }
}

/// The completion request the builder assembles from a model, a prompt and a
/// token cap: `stream` set and those three values stored. A function of the
/// arguments alone.
pub uninterp spec fn request_of(
    model: Seq<char>,
    prompt: Seq<char>,
    max_tokens: u32,
) -> CreateCompletionRequest;

/// The candidate texts carried by one response chunk, one per choice, in the
/// order the response holds them. A function of the chunk alone.
pub uninterp spec fn texts_of(response: CreateCompletionResponse) -> Seq<Seq<char>>;

/// The display text of one transport error. A function of the error alone.
pub uninterp spec fn error_text_of(error: OpenAIError) -> Seq<char>;

/// Relies on `CreateCompletionRequestArgs::{default, model, prompt, stream,
/// max_tokens, build}`. The builder is declared with a struct-level default,
/// so `build` never reports a missing field: it always returns `Ok`, holding
/// the request assembled from exactly the given values.
#[verifier::external_body]
pub(crate) fn build_request(model: &str, prompt: &str, max_tokens: u32) -> (r: Result<
    CreateCompletionRequest,
    OpenAIError,
>)
    ensures
        r is Ok,
        r matches Ok(q) ==> q == request_of(model@, prompt@, max_tokens),
{
    CreateCompletionRequestArgs::default()
        .model(model)
        .prompt(prompt)
        .stream(true)
        .max_tokens(max_tokens)
        .build()
}

/// Relies on the public `choices` field of `CreateCompletionResponse` and the
/// public `text` field of each `Choice`: hands out the candidate texts of the
/// chunk, one per choice, in the order the response carries them.
#[verifier::external_body]
pub(crate) fn chunk_texts(response: &CreateCompletionResponse) -> (r: Vec<String>)
    ensures
        string_views(r@) == texts_of(*response),
{
    response.choices.iter().map(|c| c.text.clone()).collect()
}

/// Relies on the `Display` impl of `OpenAIError` for a human-readable
/// message, deterministic per error value.
#[verifier::external_body]
pub(crate) fn openai_error_text(error: &OpenAIError) -> (r: String)
    ensures
        r@ == error_text_of(*error),
{
    format!("{}", error)
}

} // verus!
