use newsapi::{
    check_status, map_response_err, parse_response, response_from_json, Article, Json,
    NewsAPIResponse, NewsApiError,
};

fn text(value: &str) -> Json {
    Json::Text(String::from(value))
}

fn member(key: &str, value: Json) -> (String, Json) {
    (String::from(key), value)
}

fn article(title: &str, url: &str) -> Json {
    Json::Object(vec![member("title", text(title)), member("url", text(url))])
}

fn pairs(response: &NewsAPIResponse) -> Vec<(String, String)> {
    response
        .articles()
        .iter()
        .map(|article| (String::from(article.title()), String::from(article.url())))
        .collect()
}

#[test]
fn disabled_key_has_its_own_message() {
    assert_eq!(
        map_response_err(Some(String::from("apiKeyDisabled"))),
        NewsApiError::BadRequest("Your API key has been disabled")
    );
}

#[test]
fn other_codes_are_unknown() {
    assert_eq!(map_response_err(None), NewsApiError::BadRequest("Unknown error"));
    assert_eq!(
        map_response_err(Some(String::from("rateLimited"))),
        NewsApiError::BadRequest("Unknown error")
    );
    assert_eq!(
        map_response_err(Some(String::from(""))),
        NewsApiError::BadRequest("Unknown error")
    );
    assert_eq!(
        map_response_err(Some(String::from("apikeydisabled"))),
        NewsApiError::BadRequest("Unknown error")
    );
    assert_eq!(
        map_response_err(Some(String::from("apiKeyDisabled "))),
        NewsApiError::BadRequest("Unknown error")
    );
}

#[test]
fn errors_have_their_messages() {
    assert_eq!(NewsApiError::RequestFailed.message(), "Failed fetching articles");
    assert_eq!(
        NewsApiError::FailedResponseToString.message(),
        "Failed converting response to string"
    );
    assert_eq!(NewsApiError::ArticleParseFailed.message(), "Article Parsing Failed");
    assert_eq!(NewsApiError::UrlParsingFailed.message(), "Url Parsing Failed");
    assert_eq!(
        NewsApiError::BadRequest("Unknown error").message(),
        "Request failed: Unknown error"
    );
    assert_eq!(NewsApiError::AsyncRequestFailed.message(), "Async Request Failed");
}

#[test]
fn ok_body_yields_its_article() {
    let body = br#"{"status":"ok","articles":[{"title":"A","url":"http://x"}],"code":null}"#;
    let response = parse_response(body).unwrap();
    assert_eq!(response.status(), "ok");
    assert_eq!(response.code(), None);
    assert_eq!(response.articles(), &vec![Article::new("A", "http://x")]);
    assert_eq!(response.articles()[0].title(), "A");
    assert_eq!(response.articles()[0].url(), "http://x");
}

#[test]
fn disabled_key_body_is_a_bad_request() {
    let body = br#"{"status":"error","articles":[],"code":"apiKeyDisabled"}"#;
    assert_eq!(
        parse_response(body),
        Err(NewsApiError::BadRequest("Your API key has been disabled"))
    );
}

#[test]
fn error_body_drops_its_articles() {
    let body = br#"{"status":"error","articles":[{"title":"A","url":"http://x"}],"code":"apiKeyDisabled"}"#;
    assert_eq!(
        parse_response(body),
        Err(NewsApiError::BadRequest("Your API key has been disabled"))
    );
}

#[test]
fn error_body_with_other_code_is_unknown() {
    assert_eq!(
        parse_response(br#"{"status":"error","articles":[],"code":"sourcesTooMany"}"#),
        Err(NewsApiError::BadRequest("Unknown error"))
    );
    assert_eq!(
        parse_response(br#"{"status":"error","articles":[],"code":null}"#),
        Err(NewsApiError::BadRequest("Unknown error"))
    );
    assert_eq!(
        parse_response(br#"{"status":"error","articles":[]}"#),
        Err(NewsApiError::BadRequest("Unknown error"))
    );
}

#[test]
fn any_status_but_ok_is_a_failure() {
    assert_eq!(
        parse_response(br#"{"status":"OK","articles":[]}"#),
        Err(NewsApiError::BadRequest("Unknown error"))
    );
    assert_eq!(
        parse_response(br#"{"status":"","articles":[]}"#),
        Err(NewsApiError::BadRequest("Unknown error"))
    );
}

#[test]
fn malformed_body_is_a_parse_failure() {
    assert_eq!(
        parse_response(br#"{"status":"ok","articles":[{"title":"A","url":"ht"#),
        Err(NewsApiError::ArticleParseFailed)
    );
    assert_eq!(parse_response(b""), Err(NewsApiError::ArticleParseFailed));
    assert_eq!(parse_response(b"{"), Err(NewsApiError::ArticleParseFailed));
    assert_eq!(parse_response(b"not json"), Err(NewsApiError::ArticleParseFailed));
    assert_eq!(
        parse_response(br#"{"status":"ok","articles":[]} trailing"#),
        Err(NewsApiError::ArticleParseFailed)
    );
    assert_eq!(parse_response(&[0xff, 0xfe]), Err(NewsApiError::ArticleParseFailed));
}

#[test]
fn body_of_another_shape_is_a_parse_failure() {
    let bodies: Vec<&[u8]> = vec![
        b"null",
        b"[]",
        b"\"ok\"",
        b"{}",
        br#"{"articles":[]}"#,
        br#"{"status":"ok"}"#,
        br#"{"status":1,"articles":[]}"#,
        br#"{"status":null,"articles":[]}"#,
        br#"{"status":"ok","articles":{}}"#,
        br#"{"status":"ok","articles":null}"#,
        br#"{"status":"ok","articles":[1]}"#,
        br#"{"status":"ok","articles":[{"title":"A"}]}"#,
        br#"{"status":"ok","articles":[{"url":"http://x"}]}"#,
        br#"{"status":"ok","articles":[{"title":null,"url":"http://x"}]}"#,
        br#"{"status":"ok","articles":[{"title":"A","url":7}]}"#,
        br#"{"status":"ok","articles":[{"title":"A","url":"http://x"},[]]}"#,
        br#"{"status":"ok","articles":[],"code":5}"#,
        br#"{"status":"ok","articles":[],"code":false}"#,
        br#"{"status":"error","articles":[],"code":["apiKeyDisabled"]}"#,
    ];
    for body in bodies {
        assert_eq!(parse_response(body), Err(NewsApiError::ArticleParseFailed));
    }
}

#[test]
fn ok_body_without_articles_is_empty() {
    let response = parse_response(br#"{"status":"ok","articles":[]}"#).unwrap();
    assert!(response.articles().is_empty());
}

#[test]
fn ok_body_keeps_the_order_of_its_articles() {
    let body = br#"{
        "status": "ok",
        "articles": [
            {"title": "third", "url": "http://c"},
            {"title": "first", "url": "http://a"},
            {"title": "second", "url": "http://b"},
            {"title": "first", "url": "http://a"}
        ]
    }"#;
    let response = parse_response(body).unwrap();
    assert_eq!(
        pairs(&response),
        vec![
            (String::from("third"), String::from("http://c")),
            (String::from("first"), String::from("http://a")),
            (String::from("second"), String::from("http://b")),
            (String::from("first"), String::from("http://a")),
        ]
    );
}

#[test]
fn members_that_are_not_asked_for_are_passed_over() {
    let body = br#"{
        "status": "ok",
        "totalResults": 1,
        "articles": [
            {
                "source": {"id": null, "name": "Example"},
                "author": null,
                "title": "A \"quoted\" title",
                "description": "d",
                "url": "http://x/\u00e9",
                "publishedAt": "2021-01-01T00:00:00Z",
                "content": 1.5e3
            }
        ]
    }"#;
    let response = parse_response(body).unwrap();
    assert_eq!(
        pairs(&response),
        vec![(String::from("A \"quoted\" title"), String::from("http://x/\u{e9}"))]
    );
}

#[test]
fn numbers_that_are_not_asked_for_may_be_of_any_size() {
    let body = br#"{
        "status": "ok",
        "totalResults": 1e999,
        "articles": [
            {"title": "A", "url": "http://x", "score": -123456789012345678901234567890.5e-400}
        ]
    }"#;
    let response = parse_response(body).unwrap();
    assert_eq!(pairs(&response), vec![(String::from("A"), String::from("http://x"))]);
    assert_eq!(Json::parse(b"1e999"), Some(Json::Number));
    assert_eq!(Json::parse(b"01"), None);
    assert_eq!(Json::parse(b"1."), None);
}

#[test]
fn ok_body_may_carry_a_code() {
    let response = parse_response(br#"{"status":"ok","articles":[],"code":"odd"}"#).unwrap();
    assert_eq!(response.code(), Some("odd"));
}

#[test]
fn json_parse_reads_each_kind_of_document() {
    assert_eq!(Json::parse(b"null"), Some(Json::Null));
    assert_eq!(Json::parse(b" true "), Some(Json::Bool(true)));
    assert_eq!(Json::parse(b"12"), Some(Json::Number));
    assert_eq!(Json::parse(b"-1.5"), Some(Json::Number));
    assert_eq!(Json::parse(b"\"a\\nb\""), Some(text("a\nb")));
    assert_eq!(
        Json::parse(b"[null, [false], \"x\"]"),
        Some(Json::Array(vec![Json::Null, Json::Array(vec![Json::Bool(false)]), text("x")]))
    );
    assert_eq!(
        Json::parse(br#"{"a": {"b": []}}"#),
        Some(Json::Object(vec![member(
            "a",
            Json::Object(vec![member("b", Json::Array(vec![]))])
        )]))
    );
    assert_eq!(Json::parse(b"[1,"), None);
    assert_eq!(Json::parse(b""), None);
}

#[test]
fn json_parse_keeps_one_member_for_each_key() {
    let document = Json::parse(br#"{"k": 1, "k": "last"}"#).unwrap();
    assert_eq!(document, Json::Object(vec![member("k", text("last"))]));
}

#[test]
fn document_with_ok_status_yields_its_articles() {
    let document = Json::Object(vec![
        member("status", text("ok")),
        member("articles", Json::Array(vec![article("A", "http://x"), article("B", "http://y")])),
        member("code", Json::Null),
    ]);
    let response = response_from_json(&document).unwrap();
    assert_eq!(
        response,
        NewsAPIResponse::new(
            String::from("ok"),
            vec![Article::new("A", "http://x"), Article::new("B", "http://y")],
            None
        )
    );
}

#[test]
fn first_of_two_members_with_one_key_counts() {
    let document = Json::Object(vec![
        member("status", text("error")),
        member("status", text("ok")),
        member("articles", Json::Array(vec![])),
        member("code", text("apiKeyDisabled")),
        member("code", Json::Number),
    ]);
    assert_eq!(
        response_from_json(&document),
        Err(NewsApiError::BadRequest("Your API key has been disabled"))
    );
}

#[test]
fn document_of_another_shape_is_a_parse_failure() {
    assert_eq!(response_from_json(&Json::Null), Err(NewsApiError::ArticleParseFailed));
    assert_eq!(
        response_from_json(&Json::Array(vec![text("ok"), Json::Array(vec![]), Json::Null])),
        Err(NewsApiError::ArticleParseFailed)
    );
    assert_eq!(
        response_from_json(&Json::Object(vec![
            member("status", text("error")),
            member("articles", Json::Array(vec![Json::Number])),
        ])),
        Err(NewsApiError::ArticleParseFailed)
    );
    assert_eq!(
        response_from_json(&Json::Object(vec![
            member("status", text("ok")),
            member("articles", Json::Array(vec![])),
            member("code", Json::Bool(true)),
        ])),
        Err(NewsApiError::ArticleParseFailed)
    );
}

#[test]
fn check_status_keeps_an_ok_envelope() {
    let response =
        NewsAPIResponse::new(String::from("ok"), vec![Article::new("A", "http://x")], None);
    assert_eq!(check_status(response.clone()), Ok(response));
}

#[test]
fn check_status_maps_the_code() {
    let disabled = NewsAPIResponse::new(
        String::from("error"),
        vec![Article::new("A", "http://x")],
        Some(String::from("apiKeyDisabled")),
    );
    assert_eq!(
        check_status(disabled),
        Err(NewsApiError::BadRequest("Your API key has been disabled"))
    );
    let unknown = NewsAPIResponse::new(String::from("error"), vec![], None);
    assert_eq!(check_status(unknown), Err(NewsApiError::BadRequest("Unknown error")));
}

#[test]
fn envelope_comes_apart_as_it_was_made() {
    let response = NewsAPIResponse::new(
        String::from("ok"),
        vec![Article::from_parts(String::from("A"), String::from("http://x"))],
        Some(String::from("c")),
    );
    assert_eq!(response.status(), "ok");
    assert_eq!(response.code(), Some("c"));
    let (status, articles, code) = response.into_parts();
    assert_eq!(status, "ok");
    assert_eq!(articles, vec![Article::new("A", "http://x")]);
    assert_eq!(code, Some(String::from("c")));
}
