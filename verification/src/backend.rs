//! The reasoning backend as this library sees it: which provider a name stands for, how a
//! chat completion request is addressed, and what is made of the answer.

use vstd::prelude::*;
use vstd::string::*;
use crate::message::{optional_text, ChatResponse, Message, ToolCall, ToolDefinition};
use crate::text::{prefixed, same_text};

verus! {

/// The address of the backend where the environment names none.
pub open spec fn default_base_url() -> Seq<char> {
    "https://api.openai.com/v1"@
}

/// The model where neither the caller nor the environment names one.
pub open spec fn default_model() -> Seq<char> {
    "gpt-4"@
}

/// Why a backend call failed.
#[derive(Debug, PartialEq, Eq)]
pub enum TransportError {
    /// The backend could not be reached; the transport's message.
    Unreachable(String),
    /// The backend answered with a status that is no success; the status and the error body.
    Status { status: String, body: String },
    /// The answer's body could not be read.
    InvalidBody(String),
    /// The answer holds no choice.
    NoChoices,
}

/// The mathematical content of a `TransportError`.
pub ghost enum TransportErrorView {
    Unreachable(Seq<char>),
    Status { status: Seq<char>, body: Seq<char> },
    InvalidBody(Seq<char>),
    NoChoices,
}

impl View for TransportError {
    type V = TransportErrorView;

    open spec fn view(&self) -> TransportErrorView {
        match self {
            TransportError::Unreachable(fault) => TransportErrorView::Unreachable(fault@),
            TransportError::Status { status, body } => TransportErrorView::Status {
                status: status@,
                body: body@,
            },
            TransportError::InvalidBody(fault) => TransportErrorView::InvalidBody(fault@),
            TransportError::NoChoices => TransportErrorView::NoChoices,
        }
    }
}

/// The text that reports a transport error; a status that is no success is reported with
/// the status and the error body that the backend gave.
pub open spec fn transport_error_text(error: TransportErrorView) -> Seq<char> {
    match error {
        TransportErrorView::Unreachable(_) => "Failed to send request to OpenAI API"@,
        TransportErrorView::Status { status, body } => "OpenAI API error ("@ + status + "): "@
            + body,
        TransportErrorView::InvalidBody(_) => "Failed to parse OpenAI API response"@,
        TransportErrorView::NoChoices => "No choices in response"@,
    }
}

impl TransportError {
    /// The text that reports this error.
    pub fn message(&self) -> (r: String)
        ensures
            r@ == transport_error_text(self@),
    {
        match self {
            TransportError::Unreachable(_) => String::from_str(
                "Failed to send request to OpenAI API",
            ),
            TransportError::Status { status, body } => {
                let mut r = prefixed("OpenAI API error (", status.as_str());
                r.append("): ");
                r.append(body.as_str());
                r
            },
            TransportError::InvalidBody(_) => String::from_str(
                "Failed to parse OpenAI API response",
            ),
            TransportError::NoChoices => String::from_str("No choices in response"),
        }
    }
}

/// A text in lower case, as `str::to_lowercase` gives it.
pub uninterp spec fn lowercased_text(text: Seq<char>) -> Seq<char>;

/// Calls `str::to_lowercase`. Trusted: the result is a function of the text, named
/// `lowercased_text`.
#[verifier::external_body]
fn lowercase(text: &str) -> (r: String)
    ensures
        r@ == lowercased_text(text@),
{
    text.to_lowercase()
}

/// The backends that this library knows.
#[derive(Clone, Copy, Debug, PartialEq, Eq, Structural)]
pub enum ProviderKind {
    OpenAI,
}

/// Why no backend could be set up.
#[derive(Debug, PartialEq, Eq)]
pub enum ProviderError {
    /// No backend has this name; the name as the caller wrote it.
    UnsupportedProvider(String),
    /// No credential is configured.
    MissingApiKey,
}

/// The mathematical content of a `ProviderError`.
pub ghost enum ProviderErrorView {
    UnsupportedProvider(Seq<char>),
    MissingApiKey,
}

impl View for ProviderError {
    type V = ProviderErrorView;

    open spec fn view(&self) -> ProviderErrorView {
        match self {
            ProviderError::UnsupportedProvider(name) => ProviderErrorView::UnsupportedProvider(
                name@,
            ),
            ProviderError::MissingApiKey => ProviderErrorView::MissingApiKey,
        }
    }
}

/// The text that reports a provider error.
pub open spec fn provider_error_text(error: ProviderErrorView) -> Seq<char> {
    match error {
        ProviderErrorView::UnsupportedProvider(name) => "Unsupported provider: "@ + name,
        ProviderErrorView::MissingApiKey => "OPENAI_API_KEY environment variable not set"@,
    }
}

impl ProviderError {
    /// The text that reports this error.
    pub fn message(&self) -> (r: String)
        ensures
            r@ == provider_error_text(self@),
    {
        match self {
            ProviderError::UnsupportedProvider(name) => prefixed(
                "Unsupported provider: ",
                name.as_str(),
            ),
            ProviderError::MissingApiKey => String::from_str(
                "OPENAI_API_KEY environment variable not set",
            ),
        }
    }
}

/// The content of a provider kind or of the error in its place.
pub open spec fn kind_view(kind: Result<ProviderKind, ProviderError>) -> Result<
    ProviderKind,
    ProviderErrorView,
> {
    match kind {
        Ok(k) => Ok(k),
        Err(error) => Err(error@),
    }
}

/// The provider that a name in lower case stands for; `given` is the name as the caller
/// wrote it.
pub open spec fn kind_of_lowercase(lowered: Seq<char>, given: Seq<char>) -> Result<
    ProviderKind,
    ProviderErrorView,
> {
    if lowered == "openai"@ {
        Ok(ProviderKind::OpenAI)
    } else {
        Err(ProviderErrorView::UnsupportedProvider(given))
    }
}

/// The provider that a name in lower case stands for, or the error that names `given`, the
/// name as the caller wrote it.
pub fn provider_for_lowercase(lowered: &str, given: &str) -> (r: Result<
    ProviderKind,
    ProviderError,
>)
    ensures
        kind_view(r) == kind_of_lowercase(lowered@, given@),
{
    if same_text(lowered, "openai") {
        Ok(ProviderKind::OpenAI)
    } else {
        Err(ProviderError::UnsupportedProvider(String::from_str(given)))
    }
}

/// The provider that a name stands for, letter case ignored.
pub fn provider_kind(provider: &str) -> (r: Result<ProviderKind, ProviderError>)
    ensures
        kind_view(r) == kind_of_lowercase(lowercased_text(provider@), provider@),
{
    let lowered = lowercase(provider);
    provider_for_lowercase(lowered.as_str(), provider)
}

/// The settings of one OpenAI-compatible backend.
#[derive(Clone, Debug, PartialEq, Eq)]
pub struct OpenAIProvider {
    api_key: String,
    base_url: String,
    model: String,
}

impl OpenAIProvider {
    /// The credential.
    pub closed spec fn spec_api_key(&self) -> Seq<char> {
        self.api_key@
    }

    /// The address of the backend.
    pub closed spec fn spec_base_url(&self) -> Seq<char> {
        self.base_url@
    }

    /// The model.
    pub closed spec fn spec_model(&self) -> Seq<char> {
        self.model@
    }

    /// The settings that the caller's choice of model and the environment give: without a
    /// credential there are none; the address defaults; the caller's model goes before the
    /// environment's, and that before the default.
    pub fn new(
        model: Option<&str>,
        api_key: Option<String>,
        base_url: Option<String>,
        environment_model: Option<String>,
    ) -> (r: Result<OpenAIProvider, ProviderError>)
        ensures
            api_key is None ==> (r matches Err(error) && error@
                == ProviderErrorView::MissingApiKey),
            api_key matches Some(key) ==> (r matches Ok(provider) && provider.is_set_up(
                optional_str(model),
                key@,
                optional_text(base_url),
                optional_text(environment_model),
            )),
    {
        match api_key {
            None => Err(ProviderError::MissingApiKey),
            Some(key) => {
                let base_url = match base_url {
                    Some(url) => url,
                    None => String::from_str("https://api.openai.com/v1"),
                };
                let model = match model {
                    Some(m) => String::from_str(m),
                    None => match environment_model {
                        Some(m) => m,
                        None => String::from_str("gpt-4"),
                    },
                };
                Ok(OpenAIProvider { api_key: key, base_url, model })
            },
        }
    }

    /// Whether these are the settings for a credential, a choice of model, and what the
    /// environment says of address and model.
    pub open spec fn is_set_up(
        &self,
        model: Option<Seq<char>>,
        api_key: Seq<char>,
        base_url: Option<Seq<char>>,
        environment_model: Option<Seq<char>>,
    ) -> bool {
        &&& self.spec_api_key() == api_key
        &&& self.spec_base_url() == (match base_url {
            Some(url) => url,
            None => default_base_url(),
        })
        &&& self.spec_model() == (match model {
            Some(m) => m,
            None => match environment_model {
                Some(m) => m,
                None => default_model(),
            },
        })
    }

    /// The model.
    pub fn model_name(&self) -> (r: &str)
        ensures
            r@ == self.spec_model(),
    {
        self.model.as_str()
    }

    /// The address that chat completion requests are posted to.
    pub fn completions_url(&self) -> (r: String)
        ensures
            r@ == self.spec_base_url() + "/chat/completions"@,
    {
        prefixed(self.base_url.as_str(), "/chat/completions")
    }

    /// The value of the authorization header: the credential as a bearer token.
    pub fn authorization(&self) -> (r: String)
        ensures
            r@ == "Bearer "@ + self.spec_api_key(),
    {
        prefixed("Bearer ", self.api_key.as_str())
    }
}

/// The content of an optional string slice.
pub open spec fn optional_str(text: Option<&str>) -> Option<Seq<char>> {
    match text {
        Some(s) => Some(s@),
        None => None,
    }
}

/// Sets up the backend that a provider name stands for, letter case ignored, from the
/// caller's choice of model and what the environment holds. A name that stands for no
/// backend is refused before the credential is looked at.
pub fn create_provider(
    provider: &str,
    model: Option<&str>,
    api_key: Option<String>,
    base_url: Option<String>,
    environment_model: Option<String>,
) -> (r: Result<OpenAIProvider, ProviderError>)
    ensures
        match kind_of_lowercase(lowercased_text(provider@), provider@) {
            Err(error) => r matches Err(e) && e@ == error,
            Ok(_) => match api_key {
                None => r matches Err(e) && e@ == ProviderErrorView::MissingApiKey,
                Some(key) => r matches Ok(p) && p.is_set_up(
                    optional_str(model),
                    key@,
                    optional_text(base_url),
                    optional_text(environment_model),
                ),
            },
        },
{
    match provider_kind(provider) {
        Err(error) => Err(error),
        Ok(ProviderKind::OpenAI) => OpenAIProvider::new(
            model,
            api_key,
            base_url,
            environment_model,
        ),
    }
}

/// The body of a chat completion request.
#[derive(Clone, Debug, PartialEq, Eq)]
pub struct ChatRequest {
    pub model: String,
    pub messages: Vec<Message>,
    pub tools: Option<Vec<ToolDefinition>>,
    pub tool_choice: Option<String>,
}

impl OpenAIProvider {
    /// The body of the request that asks this backend to go on from `messages`: the
    /// messages and tools as they were given, this backend's model, and the tool choice
    /// `auto` exactly when tools are given.
    pub fn chat_request(&self, messages: Vec<Message>, tools: Option<Vec<ToolDefinition>>) -> (r:
        ChatRequest)
        ensures
            r.model@ == self.spec_model(),
            r.messages == messages,
            r.tools == tools,
            optional_text(r.tool_choice) == (if tools is Some {
                Some("auto"@)
            } else {
                None
            }),
    {
        let choice = tool_choice(tools.is_some());
        ChatRequest { model: self.model.clone(), messages, tools, tool_choice: choice }
    }
}

/// The tool choice of a request: `auto` exactly when the request carries tools.
pub fn tool_choice(has_tools: bool) -> (r: Option<String>)
    ensures
        optional_text(r) == (if has_tools {
            Some("auto"@)
        } else {
            None
        }),
{
    if has_tools {
        Some(String::from_str("auto"))
    } else {
        None
    }
}

/// The answer that the first choice of a completion stands for: a missing content is empty.
pub fn response_from_choice(
    content: Option<String>,
    tool_calls: Option<Vec<ToolCall>>,
    finish_reason: String,
) -> (r: ChatResponse)
    ensures
        r.content@ == (match content {
            Some(text) => text@,
            None => Seq::<char>::empty(),
        }),
        r.tool_calls == tool_calls,
        r.finish_reason@ == finish_reason@,
{
    let content = match content {
        Some(text) => text,
        None => String::new(),
    };
    ChatResponse { content, tool_calls, finish_reason }
}

} // verus!
