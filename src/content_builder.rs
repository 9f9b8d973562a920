use vstd::prelude::*;
use std::sync::Arc;

use crate::client::{endpoint_url_ok, Dispatch, Endpoint, GeminiClient};
use crate::error::Error;
use crate::models::{Content, FunctionCallingMode, GenerateContentRequest, Message, Role};

verus! {

/// Collects a conversation and its options; `execute` and `execute_stream`
/// consume it and turn it into a request. Messages are only ever appended.
pub struct ContentBuilder {
    client: Arc<GeminiClient>,
    contents: Vec<Content>,
    system_instruction: Option<Content>,
    generation_config: Option<serde_json::Value>,
    tools: Vec<serde_json::Value>,
    function_calling_mode: Option<FunctionCallingMode>,
}

/// The request that a builder in the given state comes to.
pub open spec fn generation_request_of(
    req: GenerateContentRequest,
    contents: Seq<Content>,
    system_instruction: Option<Content>,
    generation_config: Option<serde_json::Value>,
    tools: Seq<serde_json::Value>,
    function_calling_mode: Option<FunctionCallingMode>,
) -> bool {
    &&& req.contents@ == contents
    &&& req.system_instruction == system_instruction
    &&& req.generation_config == generation_config
    &&& (if tools.len() == 0 {
        req.tools is None
    } else {
        req.tools matches Some(t) && t@ == tools
    })
    &&& req.function_calling_mode == function_calling_mode
}

impl ContentBuilder {
    /// The transport core that the request will go through.
    pub closed spec fn client(&self) -> GeminiClient {
        *self.client
    }

    /// The turns collected so far, in order, each tagged with its role.
    pub closed spec fn contents(&self) -> Seq<Content> {
        self.contents@
    }

    pub closed spec fn system_instruction(&self) -> Option<Content> {
        self.system_instruction
    }

    pub closed spec fn generation_config(&self) -> Option<serde_json::Value> {
        self.generation_config
    }

    pub closed spec fn tools(&self) -> Seq<serde_json::Value> {
        self.tools@
    }

    pub closed spec fn function_calling_mode(&self) -> Option<FunctionCallingMode> {
        self.function_calling_mode
    }

    /// Everything but the turns is as in `other`.
    pub open spec fn same_options(&self, other: &ContentBuilder) -> bool {
        &&& self.client() == other.client()
        &&& self.system_instruction() == other.system_instruction()
        &&& self.generation_config() == other.generation_config()
        &&& self.tools() == other.tools()
        &&& self.function_calling_mode() == other.function_calling_mode()
    }

    /// A builder with no turn and no option set.
    pub fn new(client: Arc<GeminiClient>) -> (r: ContentBuilder)
        ensures
            r.client() == *client,
            r.contents().len() == 0,
            r.system_instruction() is None,
            r.generation_config() is None,
            r.tools().len() == 0,
            r.function_calling_mode() is None,
    {
        ContentBuilder {
            client,
            contents: Vec::new(),
            system_instruction: None,
            generation_config: None,
            tools: Vec::new(),
            function_calling_mode: None,
        }
    }

    /// Sets the system instruction to one text part.
    pub fn with_system_prompt(self, text: String) -> (r: ContentBuilder)
        ensures
            r.system_instruction() matches Some(c) && c.is_text(text@) && c.role is None,
            r.contents() == self.contents(),
            r.client() == self.client(),
            r.generation_config() == self.generation_config(),
            r.tools() == self.tools(),
            r.function_calling_mode() == self.function_calling_mode(),
    {
        let mut b = self;
        b.system_instruction = Some(Content::text(text));
        b
    }

    /// Appends a turn; its content is tagged with the message's role.
    pub fn with_message(self, message: Message) -> (r: ContentBuilder)
        ensures
            r.contents() == self.contents().push(
                Content { parts: message.content.parts, role: Some(message.role) },
            ),
            r.same_options(&self),
    {
        let mut b = self;
        let Message { content, role } = message;
        let Content { parts, role: _ } = content;
        b.contents.push(Content { parts, role: Some(role) });
        b
    }

    /// Appends a user turn of one text part.
    pub fn with_user_message(self, text: String) -> (r: ContentBuilder)
        ensures
            r.contents().len() == self.contents().len() + 1,
            r.contents().drop_last() == self.contents(),
            r.contents().last().is_text(text@),
            r.contents().last().role == Some(Role::User),
            r.same_options(&self),
    {
        let r = self.with_message(Message::user(text));
        proof {
            assert(r.contents().drop_last() =~= self.contents());
        }
        r
    }

    /// Appends a model turn of one text part.
    pub fn with_model_message(self, text: String) -> (r: ContentBuilder)
        ensures
            r.contents().len() == self.contents().len() + 1,
            r.contents().drop_last() == self.contents(),
            r.contents().last().is_text(text@),
            r.contents().last().role == Some(Role::Model),
            r.same_options(&self),
    {
        let r = self.with_message(Message::model(text));
        proof {
            assert(r.contents().drop_last() =~= self.contents());
        }
        r
    }

    /// Appends a user turn that hands back what a called function returned.
    pub fn with_function_response(self, name: String, response: serde_json::Value) -> (r:
        ContentBuilder)
        ensures
            r.contents().len() == self.contents().len() + 1,
            r.contents().drop_last() == self.contents(),
            r.contents().last().is_function_response(name@, response),
            r.same_options(&self),
    {
        let mut b = self;
        b.contents.push(Content::function_response(name, response));
        proof {
            assert(b.contents@.drop_last() =~= self.contents@);
        }
        b
    }

    /// Sets the generation config.
    pub fn with_generation_config(self, config: serde_json::Value) -> (r: ContentBuilder)
        ensures
            r.generation_config() == Some(config),
            r.contents() == self.contents(),
            r.client() == self.client(),
            r.system_instruction() == self.system_instruction(),
            r.tools() == self.tools(),
            r.function_calling_mode() == self.function_calling_mode(),
    {
        let mut b = self;
        b.generation_config = Some(config);
        b
    }

    /// Offers one more tool to the model.
    pub fn with_tool(self, tool: serde_json::Value) -> (r: ContentBuilder)
        ensures
            r.tools() == self.tools().push(tool),
            r.contents() == self.contents(),
            r.client() == self.client(),
            r.system_instruction() == self.system_instruction(),
            r.generation_config() == self.generation_config(),
            r.function_calling_mode() == self.function_calling_mode(),
    {
        let mut b = self;
        b.tools.push(tool);
        b
    }

    /// Sets how the model may use the tools.
    pub fn with_function_calling_mode(self, mode: FunctionCallingMode) -> (r: ContentBuilder)
        ensures
            r.function_calling_mode() == Some(mode),
            r.contents() == self.contents(),
            r.client() == self.client(),
            r.system_instruction() == self.system_instruction(),
            r.generation_config() == self.generation_config(),
            r.tools() == self.tools(),
    {
        let mut b = self;
        b.function_calling_mode = Some(mode);
        b
    }

    fn into_request(self, endpoint: Endpoint) -> (r: Result<Dispatch<GenerateContentRequest>, Error>)
        ensures
            r is Ok <==> endpoint_url_ok(&self.client(), endpoint),
            r is Err ==> r matches Err(Error::RequestError(_)),
            r matches Ok(d) ==> d.endpoint == endpoint && generation_request_of(
                d.request,
                self.contents(),
                self.system_instruction(),
                self.generation_config(),
                self.tools(),
                self.function_calling_mode(),
            ),
    {
        let ContentBuilder {
            client,
            contents,
            system_instruction,
            generation_config,
            tools,
            function_calling_mode,
        } = self;
        let tools = if tools.len() == 0 {
            None
        } else {
            Some(tools)
        };
        let request = GenerateContentRequest {
            contents,
            generation_config,
            tools,
            function_calling_mode,
            system_instruction,
        };
        client.dispatch(endpoint, request)
    }

    /// The generation request, for a single response.
    pub fn execute(self) -> (r: Result<Dispatch<GenerateContentRequest>, Error>)
        ensures
            r is Ok <==> endpoint_url_ok(&self.client(), Endpoint::GenerateContent),
            r is Err ==> r matches Err(Error::RequestError(_)),
            r matches Ok(d) ==> d.endpoint == Endpoint::GenerateContent && generation_request_of(
                d.request,
                self.contents(),
                self.system_instruction(),
                self.generation_config(),
                self.tools(),
                self.function_calling_mode(),
            ),
    {
        self.into_request(Endpoint::GenerateContent)
    }

    /// The generation request, for a streamed answer.
    pub fn execute_stream(self) -> (r: Result<Dispatch<GenerateContentRequest>, Error>)
        ensures
            r is Ok <==> endpoint_url_ok(&self.client(), Endpoint::StreamGenerateContent),
            r is Err ==> r matches Err(Error::RequestError(_)),
            r matches Ok(d) ==> d.endpoint == Endpoint::StreamGenerateContent
                && generation_request_of(
                d.request,
                self.contents(),
                self.system_instruction(),
                self.generation_config(),
                self.tools(),
                self.function_calling_mode(),
            ),
    {
        self.into_request(Endpoint::StreamGenerateContent)
    }
}

} // verus!
