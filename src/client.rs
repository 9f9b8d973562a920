use vstd::prelude::*;
use vstd::string::StringExecFns;
use std::sync::Arc;

use crate::content_builder::ContentBuilder;
use crate::embed_builder::EmbedBuilder;
use crate::error::Error;
use crate::outside::{parse_url, url_accepts};

verus! {

/// The production endpoint that a client talks to unless told otherwise.
pub const DEFAULT_BASE_URL: &'static str = "https://generativelanguage.googleapis.com/v1beta/";

/// The model that a client uses unless told otherwise.
pub const DEFAULT_MODEL: &'static str = "models/gemini-2.5-flash";

/// The model of the "pro" constructor.
pub const PRO_MODEL: &'static str = "models/gemini-2.5-pro";

/// The four operations of the remote API.
#[derive(Debug, Clone, Copy, PartialEq, Eq, Structural)]
pub enum Endpoint {
    GenerateContent,
    StreamGenerateContent,
    EmbedContent,
    BatchEmbedContents,
}

impl Endpoint {
    /// The operation's name in the URL, after the colon.
    pub open spec fn spec_name(self) -> Seq<char> {
        match self {
            Endpoint::GenerateContent => "generateContent"@,
            Endpoint::StreamGenerateContent => "streamGenerateContent"@,
            Endpoint::EmbedContent => "embedContent"@,
            Endpoint::BatchEmbedContents => "batchEmbedContents"@,
        }
    }

    /// The operation's name in the URL.
    pub fn name(self) -> (r: &'static str)
        ensures
            r@ == self.spec_name(),
    {
        match self {
            Endpoint::GenerateContent => "generateContent",
            Endpoint::StreamGenerateContent => "streamGenerateContent",
            Endpoint::EmbedContent => "embedContent",
            Endpoint::BatchEmbedContents => "batchEmbedContents",
        }
    }
}

/// The text of the URL for one operation: `{base}{model}:{operation}?key={key}`.
pub open spec fn request_url(
    base_url: Seq<char>,
    model: Seq<char>,
    endpoint: Endpoint,
    api_key: Seq<char>,
) -> Seq<char> {
    base_url + model + ":"@ + endpoint.spec_name() + "?key="@ + api_key
}

/// Whether the client's URL for `endpoint` parses.
pub open spec fn endpoint_url_ok(c: &GeminiClient, endpoint: Endpoint) -> bool {
    url_accepts(request_url(c.base_url@, c.model@, endpoint, c.api_key@))
}

/// The URL of each operation, spelled out: the base URL and the model, then
/// the operation's name after a colon, then the key as the `key` query
/// parameter.
pub proof fn lemma_request_url_shape(base_url: Seq<char>, model: Seq<char>, api_key: Seq<char>)
    ensures
        request_url(base_url, model, Endpoint::GenerateContent, api_key) == base_url + model
            + ":generateContent?key="@ + api_key,
        request_url(base_url, model, Endpoint::StreamGenerateContent, api_key) == base_url + model
            + ":streamGenerateContent?key="@ + api_key,
        request_url(base_url, model, Endpoint::EmbedContent, api_key) == base_url + model
            + ":embedContent?key="@ + api_key,
        request_url(base_url, model, Endpoint::BatchEmbedContents, api_key) == base_url + model
            + ":batchEmbedContents?key="@ + api_key,
{
    reveal_strlit(":");
    reveal_strlit("?key=");
    reveal_strlit("generateContent");
    reveal_strlit("streamGenerateContent");
    reveal_strlit("embedContent");
    reveal_strlit("batchEmbedContents");
    reveal_strlit(":generateContent?key=");
    reveal_strlit(":streamGenerateContent?key=");
    reveal_strlit(":embedContent?key=");
    reveal_strlit(":batchEmbedContents?key=");
    let pre = base_url + model;
    assert(":"@ + "generateContent"@ + "?key="@ =~= ":generateContent?key="@);
    assert(":"@ + "streamGenerateContent"@ + "?key="@ =~= ":streamGenerateContent?key="@);
    assert(":"@ + "embedContent"@ + "?key="@ =~= ":embedContent?key="@);
    assert(":"@ + "batchEmbedContents"@ + "?key="@ =~= ":batchEmbedContents?key="@);
    assert forall|e: Seq<char>| pre + ":"@ + e + "?key="@ + api_key =~= pre + (":"@ + e + "?key="@)
        + api_key by {}
}

/// Whether an HTTP status counts as success.
pub open spec fn is_success(status: u16) -> bool {
    200 <= status <= 299
}

/// Decides on a finished HTTP exchange: a status outside 200..=299 becomes
/// an `ApiError` that carries the status and the body text unchanged; on
/// success the body is handed on for decoding.
pub fn check_response(status: u16, body: String) -> (r: Result<String, Error>)
    ensures
        is_success(status) ==> (r matches Ok(b) && b@ == body@),
        !is_success(status) ==> (r matches Err(Error::ApiError { status_code, message })
            && status_code == status && message@ == body@),
{
    if 200 <= status && status <= 299 {
        Ok(body)
    } else {
        Err(Error::ApiError { status_code: status, message: body })
    }
}

/// The core of the transport: the key, the model and the base URL that every
/// request of a client is sent with. It never changes after construction.
#[derive(Debug)]
pub struct GeminiClient {
    pub api_key: String,
    pub model: String,
    pub base_url: String,
}

/// A request ready to be sent: the operation, its URL, and the body.
#[derive(Debug)]
pub struct Dispatch<R> {
    pub endpoint: Endpoint,
    pub url: url::Url,
    pub request: R,
}

impl GeminiClient {
    /// A client for the production endpoint.
    pub fn new(api_key: String, model: String) -> (r: GeminiClient)
        ensures
            r.api_key@ == api_key@,
            r.model@ == model@,
            r.base_url@ == DEFAULT_BASE_URL@,
    {
        GeminiClient::with_base_url(api_key, model, DEFAULT_BASE_URL.to_owned())
    }

    /// A client for the given base URL.
    pub fn with_base_url(api_key: String, model: String, base_url: String) -> (r: GeminiClient)
        ensures
            r.api_key@ == api_key@,
            r.model@ == model@,
            r.base_url@ == base_url@,
    {
        GeminiClient { api_key, model, base_url }
    }

    /// The URL text for `endpoint`.
    pub fn url_text(&self, endpoint: Endpoint) -> (r: String)
        ensures
            r@ == request_url(self.base_url@, self.model@, endpoint, self.api_key@),
    {
        let mut s = self.base_url.clone();
        s.append(self.model.as_str());
        s.append(":");
        s.append(endpoint.name());
        s.append("?key=");
        s.append(self.api_key.as_str());
        s
    }

    /// The URL for `endpoint`, parsed; a text that does not parse is a
    /// `RequestError`.
    pub fn build_url(&self, endpoint: Endpoint) -> (r: Result<url::Url, Error>)
        ensures
            r is Ok <==> url_accepts(request_url(self.base_url@, self.model@, endpoint, self.api_key@)),
            r is Err ==> r matches Err(Error::RequestError(_)),
    {
        let text = self.url_text(endpoint);
        match parse_url(text.as_str()) {
            Ok(u) => Ok(u),
            Err(m) => Err(Error::RequestError(m)),
        }
    }

    /// Pairs `request` with the parsed URL of `endpoint`.
    pub fn dispatch<R>(&self, endpoint: Endpoint, request: R) -> (r: Result<Dispatch<R>, Error>)
        ensures
            r is Ok <==> url_accepts(request_url(self.base_url@, self.model@, endpoint, self.api_key@)),
            r is Err ==> r matches Err(Error::RequestError(_)),
            r matches Ok(d) ==> d.endpoint == endpoint && d.request == request,
    {
        match self.build_url(endpoint) {
            Ok(url) => Ok(Dispatch { endpoint, url, request }),
            Err(e) => Err(e),
        }
    }
}

/// The entry point: a cheaply cloned handle to one immutable transport core,
/// from which fresh builders are made. Clones share the core and nothing
/// else, so calls made from them never see each other's state.
#[derive(Clone)]
pub struct Gemini {
    client: Arc<GeminiClient>,
}

impl Gemini {
    /// The transport core behind this handle.
    pub closed spec fn transport(&self) -> GeminiClient {
        *self.client
    }

    /// The key, model and base URL of this handle are those given.
    pub open spec fn is_for(&self, api_key: Seq<char>, model: Seq<char>, base_url: Seq<char>) -> bool {
        &&& self.transport().api_key@ == api_key
        &&& self.transport().model@ == model
        &&& self.transport().base_url@ == base_url
    }

    /// A client of the default model on the production endpoint.
    pub fn new(api_key: String) -> (r: Gemini)
        ensures
            r.is_for(api_key@, DEFAULT_MODEL@, DEFAULT_BASE_URL@),
    {
        Gemini::with_model(api_key, DEFAULT_MODEL.to_owned())
    }

    /// A client of the pro model on the production endpoint.
    pub fn pro(api_key: String) -> (r: Gemini)
        ensures
            r.is_for(api_key@, PRO_MODEL@, DEFAULT_BASE_URL@),
    {
        Gemini::with_model(api_key, PRO_MODEL.to_owned())
    }

    /// A client of `model` on the production endpoint.
    pub fn with_model(api_key: String, model: String) -> (r: Gemini)
        ensures
            r.is_for(api_key@, model@, DEFAULT_BASE_URL@),
    {
        Gemini::with_model_and_base_url(api_key, model, DEFAULT_BASE_URL.to_owned())
    }

    /// A client of the default model at `base_url`.
    pub fn with_base_url(api_key: String, base_url: String) -> (r: Gemini)
        ensures
            r.is_for(api_key@, DEFAULT_MODEL@, base_url@),
    {
        Gemini::with_model_and_base_url(api_key, DEFAULT_MODEL.to_owned(), base_url)
    }

    /// A client of `model` at `base_url`.
    pub fn with_model_and_base_url(api_key: String, model: String, base_url: String) -> (r: Gemini)
        ensures
            r.is_for(api_key@, model@, base_url@),
    {
        let client = GeminiClient::with_base_url(api_key, model, base_url);
        Gemini { client: Arc::new(client) }
    }

    /// A fresh generation builder on this handle's core.
    pub fn generate_content(&self) -> (r: ContentBuilder)
        ensures
            r.client() == self.transport(),
            r.contents().len() == 0,
            r.system_instruction() is None,
            r.generation_config() is None,
            r.tools().len() == 0,
            r.function_calling_mode() is None,
    {
        ContentBuilder::new(self.client.clone())
    }

    /// A fresh embedding builder on this handle's core.
    pub fn embed_content(&self) -> (r: EmbedBuilder)
        ensures
            r.client() == self.transport(),
            r.contents().len() == 0,
            r.task_type() is None,
            r.title() is None,
            r.output_dimensionality() is None,
    {
        EmbedBuilder::new(self.client.clone())
    }
}

} // verus!
