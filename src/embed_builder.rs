use vstd::prelude::*;
use std::sync::Arc;

use crate::client::{endpoint_url_ok, Dispatch, Endpoint, GeminiClient};
use crate::error::Error;
use crate::models::{BatchEmbedContentsRequest, Content, EmbedContentRequest, Message, TaskType};

verus! {

/// A copy of an optional text.
fn copy_title(t: &Option<String>) -> (r: Option<String>)
    ensures
        r == *t,
{
    match t {
        Some(s) => Some(s.clone()),
        None => None,
    }
}

/// Collects the texts of an embedding call and its options; `execute` and
/// `execute_batch` consume it and turn it into a request.
pub struct EmbedBuilder {
    client: Arc<GeminiClient>,
    contents: Vec<Content>,
    task_type: Option<TaskType>,
    title: Option<String>,
    output_dimensionality: Option<i32>,
}

impl EmbedBuilder {
    /// The transport core that the request will go through.
    pub closed spec fn client(&self) -> GeminiClient {
        *self.client
    }

    /// The contents collected so far, one per text, in order.
    pub closed spec fn contents(&self) -> Seq<Content> {
        self.contents@
    }

    pub closed spec fn task_type(&self) -> Option<TaskType> {
        self.task_type
    }

    pub closed spec fn title(&self) -> Option<String> {
        self.title
    }

    pub closed spec fn output_dimensionality(&self) -> Option<i32> {
        self.output_dimensionality
    }

    /// A builder with no text and no option set.
    pub fn new(client: Arc<GeminiClient>) -> (r: EmbedBuilder)
        ensures
            r.client() == *client,
            r.contents().len() == 0,
            r.task_type() is None,
            r.title() is None,
            r.output_dimensionality() is None,
    {
        EmbedBuilder {
            client,
            contents: Vec::new(),
            task_type: None,
            title: None,
            output_dimensionality: None,
        }
    }

    /// Adds one text, as a content of one text part.
    pub fn with_text(self, text: String) -> (r: EmbedBuilder)
        ensures
            r.contents().len() == self.contents().len() + 1,
            r.contents().take(self.contents().len() as int) == self.contents(),
            r.contents().last().is_text(text@),
            r.contents().last().role is None,
            r.client() == self.client(),
            r.task_type() == self.task_type(),
            r.title() == self.title(),
            r.output_dimensionality() == self.output_dimensionality(),
    {
        let mut b = self;
        let message = Message::embed(text);
        b.contents.push(message.content);
        proof {
            assert(b.contents@.take(self.contents@.len() as int) =~= self.contents@);
        }
        b
    }

    /// Adds each text of `chunks`, in order, as a content of one text part.
    pub fn with_chunks(self, chunks: Vec<String>) -> (r: EmbedBuilder)
        ensures
            r.contents().len() == self.contents().len() + chunks@.len(),
            r.contents().take(self.contents().len() as int) == self.contents(),
            forall|i: int| 0 <= i < chunks@.len() ==> ({
                let c = #[trigger] r.contents()[self.contents().len() + i];
                c.is_text(chunks@[i]@) && c.role is None
            }),
            r.client() == self.client(),
            r.task_type() == self.task_type(),
            r.title() == self.title(),
            r.output_dimensionality() == self.output_dimensionality(),
    {
        let mut b = self;
        let mut chunks = chunks;
        let ghost n0 = self.contents@.len();
        let ghost all = chunks@;
        while chunks.len() > 0
            invariant
                b.contents@.len() + chunks@.len() == n0 + all.len(),
                b.contents@.len() >= n0,
                chunks@ == all.subrange(b.contents@.len() - n0, all.len() as int),
                b.contents@.take(n0 as int) == self.contents@,
                forall|i: int| 0 <= i < b.contents@.len() - n0 ==> ({
                    let c = #[trigger] b.contents@[n0 + i];
                    c.is_text(all[i]@) && c.role is None
                }),
                *b.client == *self.client,
                b.task_type == self.task_type,
                b.title == self.title,
                b.output_dimensionality == self.output_dimensionality,
            decreases chunks@.len(),
        {
            let chunk = chunks.remove(0);
            let message = Message::embed(chunk);
            let ghost before = b.contents@;
            b.contents.push(message.content);
            proof {
                assert(b.contents@.take(n0 as int) =~= before.take(n0 as int));
            }
        }
        b
    }

    /// Sets the task type.
    pub fn with_task_type(self, task_type: TaskType) -> (r: EmbedBuilder)
        ensures
            r.task_type() == Some(task_type),
            r.contents() == self.contents(),
            r.client() == self.client(),
            r.title() == self.title(),
            r.output_dimensionality() == self.output_dimensionality(),
    {
        let mut b = self;
        b.task_type = Some(task_type);
        b
    }

    /// Sets the document title (supported by newer models only).
    pub fn with_title(self, title: String) -> (r: EmbedBuilder)
        ensures
            r.title() == Some(title),
            r.contents() == self.contents(),
            r.client() == self.client(),
            r.task_type() == self.task_type(),
            r.output_dimensionality() == self.output_dimensionality(),
    {
        let mut b = self;
        b.title = Some(title);
        b
    }

    /// Caps the length of the embedding: values past the cap are cut from the
    /// end (supported by newer models only).
    pub fn with_output_dimensionality(self, output_dimensionality: i32) -> (r: EmbedBuilder)
        ensures
            r.output_dimensionality() == Some(output_dimensionality),
            r.contents() == self.contents(),
            r.client() == self.client(),
            r.task_type() == self.task_type(),
            r.title() == self.title(),
    {
        let mut b = self;
        b.output_dimensionality = Some(output_dimensionality);
        b
    }

    /// The single-embedding request for the first text. With no text it is a
    /// `RequestError`, as is a URL that does not parse.
    pub fn execute(self) -> (r: Result<Dispatch<EmbedContentRequest>, Error>)
        ensures
            self.contents().len() == 0 ==> r matches Err(Error::RequestError(_)),
            self.contents().len() > 0 ==> (r is Ok <==> endpoint_url_ok(
                &self.client(),
                Endpoint::EmbedContent,
            )),
            r is Err ==> r matches Err(Error::RequestError(_)),
            r matches Ok(d) ==> {
                &&& d.endpoint == Endpoint::EmbedContent
                &&& d.request.model == self.client().model
                &&& d.request.content == self.contents()[0]
                &&& d.request.task_type == self.task_type()
                &&& d.request.title == self.title()
                &&& d.request.output_dimensionality == self.output_dimensionality()
            },
    {
        let EmbedBuilder { client, mut contents, task_type, title, output_dimensionality } = self;
        if contents.len() == 0 {
            return Err(Error::RequestError("no content to embed".to_owned()));
        }
        let content = contents.remove(0);
        let request = EmbedContentRequest {
            model: client.model.clone(),
            content,
            task_type,
            title,
            output_dimensionality,
        };
        client.dispatch(Endpoint::EmbedContent, request)
    }

    /// The batch request: one request per text, in order, each with the
    /// builder's task type, title and output cap. No text gives an empty
    /// batch. A URL that does not parse is a `RequestError`.
    pub fn execute_batch(self) -> (r: Result<Dispatch<BatchEmbedContentsRequest>, Error>)
        ensures
            r is Ok <==> endpoint_url_ok(&self.client(), Endpoint::BatchEmbedContents),
            r is Err ==> r matches Err(Error::RequestError(_)),
            r matches Ok(d) ==> {
                &&& d.endpoint == Endpoint::BatchEmbedContents
                &&& d.request.requests@.len() == self.contents().len()
                &&& forall|i: int| 0 <= i < self.contents().len() ==> {
                    let q = #[trigger] d.request.requests@[i];
                    &&& q.model == self.client().model
                    &&& q.content == self.contents()[i]
                    &&& q.task_type == self.task_type()
                    &&& q.title == self.title()
                    &&& q.output_dimensionality == self.output_dimensionality()
                }
            },
    {
        let EmbedBuilder { client, mut contents, task_type, title, output_dimensionality } = self;
        let ghost all = contents@;
        let mut requests: Vec<EmbedContentRequest> = Vec::new();
        while contents.len() > 0
            invariant
                requests@.len() + contents@.len() == all.len(),
                contents@ == all.subrange(requests@.len() as int, all.len() as int),
                forall|i: int| 0 <= i < requests@.len() ==> {
                    let q = #[trigger] requests@[i];
                    &&& q.model == client.model
                    &&& q.content == all[i]
                    &&& q.task_type == task_type
                    &&& q.title == title
                    &&& q.output_dimensionality == output_dimensionality
                },
            decreases contents@.len(),
        {
            let content = contents.remove(0);
            let request = EmbedContentRequest {
                model: client.model.clone(),
                content,
                task_type,
                title: copy_title(&title),
                output_dimensionality,
            };
            requests.push(request);
        }
        client.dispatch(Endpoint::BatchEmbedContents, BatchEmbedContentsRequest { requests })
    }
}

} // verus!
