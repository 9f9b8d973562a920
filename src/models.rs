use vstd::prelude::*;

verus! {

/// The party that produced a turn of a conversation.
#[derive(Debug, Clone, Copy, PartialEq, Eq, Structural)]
pub enum Role {
    User,
    Model,
    System,
}

/// A call of a declared function, as the model asked for it.
#[derive(Debug)]
pub struct FunctionCall {
    pub name: String,
    pub args: serde_json::Value,
}

/// What a declared function returned, handed back to the model.
#[derive(Debug)]
pub struct FunctionResponse {
    pub name: String,
    pub response: serde_json::Value,
}

/// One atomic piece of a turn.
#[derive(Debug)]
pub enum Part {
    Text { text: String },
    FunctionCall { function_call: FunctionCall },
    FunctionResponse { function_response: FunctionResponse },
}

/// The parts of one turn, in order.
#[derive(Debug)]
pub struct Content {
    pub parts: Vec<Part>,
    pub role: Option<Role>,
}

/// A turn tagged with the party that produced it.
#[derive(Debug)]
pub struct Message {
    pub content: Content,
    pub role: Role,
}

/// How the model may use the tools that a request offers.
#[derive(Debug, Clone, Copy, PartialEq, Eq, Structural)]
pub enum FunctionCallingMode {
    Auto,
    Any,
    Disallowed,
}

/// The intended use of an embedding.
#[derive(Debug, Clone, Copy, PartialEq, Eq, Structural)]
pub enum TaskType {
    Unspecified,
    RetrievalQuery,
    RetrievalDocument,
    SemanticSimilarity,
    Classification,
    Clustering,
    QuestionAnswering,
    FactVerification,
}


impl Content {
    /// Whether this content is a single text part holding `text`.
    pub open spec fn is_text(&self, text: Seq<char>) -> bool {
        &&& self.parts@.len() == 1
        &&& self.parts@[0] matches Part::Text { text: t } && t@ == text
    }

    /// A content of one text part and no role.
    pub fn text(text: String) -> (r: Content)
        ensures
            r.is_text(text@),
            r.role is None,
    {
        Content { parts: vec![Part::Text { text }], role: None }
    }

    /// Whether this content is a single function-response part for `name`
    /// holding `response`, with the user role.
    pub open spec fn is_function_response(&self, name: Seq<char>, response: serde_json::Value) -> bool {
        &&& self.parts@.len() == 1
        &&& self.parts@[0] matches Part::FunctionResponse { function_response: f }
        &&& f.name@ == name
        &&& f.response == response
        &&& self.role == Some(Role::User)
    }

    /// A content of one function-response part, with the user role.
    pub fn function_response(name: String, response: serde_json::Value) -> (r: Content)
        ensures
            r.is_function_response(name@, response),
    {
        let function_response = FunctionResponse { name, response };
        Content {
            parts: vec![Part::FunctionResponse { function_response }],
            role: Some(Role::User),
        }
    }
}

impl Message {
    /// A user turn holding `text`.
    pub fn user(text: String) -> (r: Message)
        ensures
            r.role == Role::User,
            r.content.is_text(text@),
            r.content.role == Some(Role::User),
    {
        let mut content = Content::text(text);
        content.role = Some(Role::User);
        Message { content, role: Role::User }
    }

    /// A model turn holding `text`.
    pub fn model(text: String) -> (r: Message)
        ensures
            r.role == Role::Model,
            r.content.is_text(text@),
            r.content.role == Some(Role::Model),
    {
        let mut content = Content::text(text);
        content.role = Some(Role::Model);
        Message { content, role: Role::Model }
    }

    /// A text to embed: its content is one text part and carries no role.
    pub fn embed(text: String) -> (r: Message)
        ensures
            r.role == Role::User,
            r.content.is_text(text@),
            r.content.role is None,
    {
        Message { content: Content::text(text), role: Role::User }
    }
}

/// One text to embed, with the options of the call.
#[derive(Debug)]
pub struct EmbedContentRequest {
    pub model: String,
    pub content: Content,
    pub task_type: Option<TaskType>,
    pub title: Option<String>,
    pub output_dimensionality: Option<i32>,
}

/// Several texts to embed in one call, in order.
#[derive(Debug)]
pub struct BatchEmbedContentsRequest {
    pub requests: Vec<EmbedContentRequest>,
}

/// A generation call: the conversation so far and its options. The generation
/// config and the tools are JSON values, passed to the remote API as they are.
#[derive(Debug)]
pub struct GenerateContentRequest {
    pub contents: Vec<Content>,
    pub generation_config: Option<serde_json::Value>,
    pub tools: Option<Vec<serde_json::Value>>,
    pub function_calling_mode: Option<FunctionCallingMode>,
    pub system_instruction: Option<Content>,
}

} // verus!
