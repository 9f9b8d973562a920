use gemini_rust::{Endpoint, Error, FunctionCallingMode, Gemini, Part, Role, TaskType};

fn text_of(parts: &[Part]) -> Option<&str> {
    match parts {
        [Part::Text { text }] => Some(text.as_str()),
        _ => None,
    }
}

#[test]
fn batch_keeps_order_and_shared_options() {
    let g = Gemini::with_model("k".to_string(), "models/e".to_string());
    let d = g
        .embed_content()
        .with_chunks(vec!["a".to_string(), "b".to_string(), "c".to_string()])
        .with_task_type(TaskType::RetrievalDocument)
        .with_title("T".to_string())
        .with_output_dimensionality(64)
        .execute_batch()
        .unwrap();
    assert_eq!(d.endpoint, Endpoint::BatchEmbedContents);
    let reqs = &d.request.requests;
    assert_eq!(reqs.len(), 3);
    for (q, want) in reqs.iter().zip(["a", "b", "c"]) {
        assert_eq!(text_of(&q.content.parts), Some(want));
        assert_eq!(q.content.role, None);
        assert_eq!(q.model, "models/e");
        assert_eq!(q.task_type, Some(TaskType::RetrievalDocument));
        assert_eq!(q.title, Some("T".to_string()));
        assert_eq!(q.output_dimensionality, Some(64));
    }
}

#[test]
fn batch_of_no_chunk_is_empty() {
    let d = Gemini::new("k".to_string()).embed_content().execute_batch().unwrap();
    assert!(d.request.requests.is_empty());
}

#[test]
fn text_and_chunks_append_in_order() {
    let d = Gemini::new("k".to_string())
        .embed_content()
        .with_text("x".to_string())
        .with_chunks(vec!["y".to_string(), "z".to_string()])
        .with_text("w".to_string())
        .execute_batch()
        .unwrap();
    let texts: Vec<&str> =
        d.request.requests.iter().map(|q| text_of(&q.content.parts).unwrap()).collect();
    assert_eq!(texts, vec!["x", "y", "z", "w"]);
    assert_eq!(d.request.requests[0].task_type, None);
    assert_eq!(d.request.requests[0].title, None);
    assert_eq!(d.request.requests[0].output_dimensionality, None);
}

#[test]
fn execute_without_chunk_is_an_error() {
    let r = Gemini::new("k".to_string()).embed_content().with_task_type(TaskType::Clustering).execute();
    assert!(matches!(r, Err(Error::RequestError(_))));
}

#[test]
fn execute_uses_the_first_chunk() {
    let d = Gemini::new("k".to_string())
        .embed_content()
        .with_chunks(vec!["one".to_string(), "two".to_string()])
        .with_output_dimensionality(8)
        .execute()
        .unwrap();
    assert_eq!(d.endpoint, Endpoint::EmbedContent);
    assert_eq!(text_of(&d.request.content.parts), Some("one"));
    assert_eq!(d.request.output_dimensionality, Some(8));
    assert_eq!(d.request.title, None);
}

#[test]
fn execute_with_bad_base_url_is_an_error() {
    let r = Gemini::with_base_url("k".to_string(), "::".to_string())
        .embed_content()
        .with_text("t".to_string())
        .execute();
    assert!(matches!(r, Err(Error::RequestError(_))));
}

#[test]
fn conversation_keeps_turns_and_roles() {
    let d = Gemini::new("k".to_string())
        .generate_content()
        .with_system_prompt("be brief".to_string())
        .with_user_message("hi".to_string())
        .with_model_message("hello".to_string())
        .with_function_response("lookup".to_string(), serde_json::Value::Bool(true))
        .with_function_calling_mode(FunctionCallingMode::Any)
        .execute()
        .unwrap();
    let req = d.request;
    assert_eq!(req.contents.len(), 3);
    assert_eq!(text_of(&req.contents[0].parts), Some("hi"));
    assert_eq!(req.contents[0].role, Some(Role::User));
    assert_eq!(text_of(&req.contents[1].parts), Some("hello"));
    assert_eq!(req.contents[1].role, Some(Role::Model));
    match &req.contents[2].parts[..] {
        [Part::FunctionResponse { function_response }] => {
            assert_eq!(function_response.name, "lookup");
            assert_eq!(function_response.response, serde_json::Value::Bool(true));
        }
        _ => panic!("expected a function response"),
    }
    assert_eq!(req.contents[2].role, Some(Role::User));
    let sys = req.system_instruction.unwrap();
    assert_eq!(text_of(&sys.parts), Some("be brief"));
    assert_eq!(sys.role, None);
    assert_eq!(req.function_calling_mode, Some(FunctionCallingMode::Any));
    assert!(req.tools.is_none());
    assert!(req.generation_config.is_none());
}

#[test]
fn tools_and_config_are_passed_on() {
    let tool = serde_json::Value::String("tool-1".to_string());
    let config = serde_json::Value::Null;
    let d = Gemini::new("k".to_string())
        .generate_content()
        .with_tool(tool.clone())
        .with_tool(serde_json::Value::Bool(false))
        .with_generation_config(config.clone())
        .execute_stream()
        .unwrap();
    assert_eq!(d.endpoint, Endpoint::StreamGenerateContent);
    assert_eq!(d.request.tools, Some(vec![tool, serde_json::Value::Bool(false)]));
    assert_eq!(d.request.generation_config, Some(config));
    assert!(d.request.contents.is_empty());
}

#[test]
fn message_roles_are_kept() {
    let m = gemini_rust::Message::user("q".to_string());
    let d = Gemini::new("k".to_string())
        .generate_content()
        .with_message(m)
        .with_message(gemini_rust::Message::embed("r".to_string()))
        .execute()
        .unwrap();
    assert_eq!(d.request.contents[0].role, Some(Role::User));
    assert_eq!(d.request.contents[1].role, Some(Role::User));
    assert_eq!(text_of(&d.request.contents[1].parts), Some("r"));
}
