use gemini_rust::{check_response, Endpoint, Error, Gemini, GeminiClient, ResponseStream};

fn client() -> GeminiClient {
    GeminiClient::with_base_url(
        "k3y".to_string(),
        "models/m1".to_string(),
        "https://example.com/v1/".to_string(),
    )
}

#[test]
fn url_text_for_each_endpoint() {
    let c = client();
    assert_eq!(
        c.url_text(Endpoint::GenerateContent),
        "https://example.com/v1/models/m1:generateContent?key=k3y"
    );
    assert_eq!(
        c.url_text(Endpoint::StreamGenerateContent),
        "https://example.com/v1/models/m1:streamGenerateContent?key=k3y"
    );
    assert_eq!(
        c.url_text(Endpoint::EmbedContent),
        "https://example.com/v1/models/m1:embedContent?key=k3y"
    );
    assert_eq!(
        c.url_text(Endpoint::BatchEmbedContents),
        "https://example.com/v1/models/m1:batchEmbedContents?key=k3y"
    );
}

#[test]
fn default_client_url() {
    let c = GeminiClient::new("abc".to_string(), "models/gemini-2.5-flash".to_string());
    let url = c.build_url(Endpoint::GenerateContent).unwrap();
    assert_eq!(
        url.as_str(),
        "https://generativelanguage.googleapis.com/v1beta/models/gemini-2.5-flash:generateContent?key=abc"
    );
}

#[test]
fn build_url_parses_the_text() {
    let url = client().build_url(Endpoint::EmbedContent).unwrap();
    assert_eq!(url.as_str(), "https://example.com/v1/models/m1:embedContent?key=k3y");
    assert_eq!(url.host_str(), Some("example.com"));
}

#[test]
fn bad_base_url_is_request_error() {
    let c = GeminiClient::with_base_url("k".to_string(), "m".to_string(), "not a url ".to_string());
    assert!(matches!(c.build_url(Endpoint::GenerateContent), Err(Error::RequestError(_))));
    let d = c.dispatch(Endpoint::EmbedContent, 5u8);
    assert!(matches!(d, Err(Error::RequestError(_))));
}

#[test]
fn success_status_hands_body_on() {
    assert_eq!(check_response(200, "{\"a\":1}".to_string()), Ok("{\"a\":1}".to_string()));
    assert_eq!(check_response(299, "x".to_string()), Ok("x".to_string()));
}

#[test]
fn non_success_status_is_api_error() {
    for status in [100u16, 199, 300, 404, 429, 500, 503] {
        let body = format!("{{\"error\":{{\"code\":{}}}}}", status);
        assert_eq!(
            check_response(status, body.clone()),
            Err(Error::ApiError { status_code: status, message: body })
        );
    }
}

#[test]
fn stream_yields_each_response_in_order() {
    let mut s = ResponseStream::from_parsed(Ok(vec![10, 20, 30]));
    assert!(!s.is_finished());
    assert_eq!(s.next(), Some(Ok(10)));
    assert_eq!(s.next(), Some(Ok(20)));
    assert_eq!(s.next(), Some(Ok(30)));
    assert_eq!(s.next(), None);
    assert!(s.is_finished());
    assert_eq!(s.next(), None);
}

#[test]
fn stream_of_empty_array_is_empty() {
    let mut s: ResponseStream<u32> = ResponseStream::from_parsed(Ok(vec![]));
    assert!(s.is_finished());
    assert_eq!(s.next(), None);
}

#[test]
fn stream_of_bad_body_yields_one_error() {
    let mut s: ResponseStream<u32> =
        ResponseStream::from_parsed(Err("expected `[` at line 1".to_string()));
    assert_eq!(s.next(), Some(Err(Error::JsonError("expected `[` at line 1".to_string()))));
    assert_eq!(s.next(), None);
    assert_eq!(s.next(), None);
}

#[test]
fn stream_drain_takes_everything() {
    let mut s = ResponseStream::from_parsed(Ok(vec!["a", "b"]));
    assert_eq!(s.next(), Some(Ok("a")));
    let rest = s.drain();
    assert_eq!(rest, vec![Ok("b")]);
    assert!(s.is_finished());
    assert_eq!(s.drain(), vec![]);
}

#[test]
fn facade_constructors_pick_model_and_base() {
    let d = Gemini::new("k".to_string()).embed_content().with_text("t".to_string()).execute().unwrap();
    assert_eq!(
        d.url.as_str(),
        "https://generativelanguage.googleapis.com/v1beta/models/gemini-2.5-flash:embedContent?key=k"
    );
    assert_eq!(d.request.model, "models/gemini-2.5-flash");

    let d = Gemini::pro("k".to_string()).generate_content().execute().unwrap();
    assert_eq!(
        d.url.as_str(),
        "https://generativelanguage.googleapis.com/v1beta/models/gemini-2.5-pro:generateContent?key=k"
    );

    let d = Gemini::with_model("k".to_string(), "models/x".to_string())
        .generate_content()
        .execute_stream()
        .unwrap();
    assert_eq!(
        d.url.as_str(),
        "https://generativelanguage.googleapis.com/v1beta/models/x:streamGenerateContent?key=k"
    );

    let d = Gemini::with_base_url("k".to_string(), "http://localhost:8080/".to_string())
        .embed_content()
        .execute_batch()
        .unwrap();
    assert_eq!(
        d.url.as_str(),
        "http://localhost:8080/models/gemini-2.5-flash:batchEmbedContents?key=k"
    );

    let d = Gemini::with_model_and_base_url(
        "k".to_string(),
        "models/y".to_string(),
        "https://h.test/api/".to_string(),
    )
    .generate_content()
    .execute()
    .unwrap();
    assert_eq!(d.url.as_str(), "https://h.test/api/models/y:generateContent?key=k");
    assert_eq!(d.endpoint, Endpoint::GenerateContent);
}

#[test]
fn facade_clones_make_independent_requests() {
    let g = Gemini::with_model("k".to_string(), "models/m".to_string());
    let h = g.clone();
    let a = g.embed_content().with_text("first".to_string()).with_title("A".to_string());
    let b = h.embed_content().with_text("second".to_string());
    let da = a.execute().unwrap();
    let db = b.execute().unwrap();
    assert_eq!(da.request.title, Some("A".to_string()));
    assert_eq!(db.request.title, None);
    assert!(matches!(&da.request.content.parts[0], gemini_rust::Part::Text { text } if text == "first"));
    assert!(matches!(&db.request.content.parts[0], gemini_rust::Part::Text { text } if text == "second"));
    assert_eq!(da.url.as_str(), db.url.as_str());
}
