//! A typed client for a generative-content API: request builders, the
//! endpoint and response rules of the transport, and one error taxonomy.
//! The HTTP exchange itself is left to the caller's transport.

mod client;
mod content_builder;
mod embed_builder;
mod error;
mod models;
mod outside;
mod stream;

pub use client::{
    check_response, Dispatch, Endpoint, Gemini, GeminiClient, DEFAULT_BASE_URL, DEFAULT_MODEL,
    PRO_MODEL,
};
pub use content_builder::ContentBuilder;
pub use embed_builder::EmbedBuilder;
pub use error::Error;
pub use models::{
    BatchEmbedContentsRequest, Content, EmbedContentRequest, FunctionCall, FunctionCallingMode,
    FunctionResponse, GenerateContentRequest, Message, Part, Role, TaskType,
};
pub use stream::ResponseStream;
