//! The shape of a reply: which JSON documents are envelopes, and what each
//! one holds.

use vstd::prelude::*;
use vstd::string::*;
use crate::article::{
    article_views, ok_status, Article, ArticleView, NewsAPIResponse, ResponseView,
};
use crate::error::{map_response_err, response_error_text, NewsApiError};
use crate::json::{find_member, member, parsed_json, Json};
use crate::text::same_text;

verus! {

/// The text of the first member with the given key, where that member is a
/// string.
pub open spec fn text_member(members: Seq<(String, Json)>, key: Seq<char>) -> Option<Seq<char>> {
    match member(members, key) {
        Some(value) => value.text(),
        None => None,
    }
}

/// The article that a document stands for: an object whose members `title`
/// and `url` are strings. Other members are passed over.
pub open spec fn article_of(json: Json) -> Option<ArticleView> {
    match json {
        Json::Object(members) => match (
            text_member(members@, "title"@),
            text_member(members@, "url"@),
        ) {
            (Some(title), Some(url)) => Some(ArticleView { title, url }),
            _ => None,
        },
        _ => None,
    }
}

/// The articles that the elements of an array stand for, in their order;
/// `None` where one of them is no article.
pub open spec fn articles_of(items: Seq<Json>) -> Option<Seq<ArticleView>> {
    if forall|at: int| 0 <= at < items.len() ==> article_of(#[trigger] items[at]) is Some {
        Some(Seq::new(items.len(), |at: int| article_of(items[at]).unwrap()))
    } else {
        None
    }
}

/// The error code of an envelope: absent where there is no member `code` or
/// where it is null, the text where it is a string; `None` where it is
/// anything else.
pub open spec fn code_of(members: Seq<(String, Json)>) -> Option<Option<Seq<char>>> {
    match member(members, "code"@) {
        None => Some(None),
        Some(Json::Null) => Some(None),
        Some(Json::Text(code)) => Some(Some(code@)),
        Some(_) => None,
    }
}

/// The articles of an envelope: its member `articles`, an array of articles.
pub open spec fn articles_member(members: Seq<(String, Json)>) -> Option<Seq<ArticleView>> {
    match member(members, "articles"@) {
        Some(Json::Array(items)) => articles_of(items@),
        _ => None,
    }
}

/// The envelope that a document stands for: an object with a string
/// `status`, an array `articles` of articles and, if at all, a `code` that is
/// a string or null. Other members are passed over.
pub open spec fn envelope_of(json: Json) -> Option<ResponseView> {
    match json {
        Json::Object(members) => match (
            text_member(members@, "status"@),
            articles_member(members@),
            code_of(members@),
        ) {
            (Some(status), Some(articles), Some(code)) => Some(
                ResponseView { status, articles, code },
            ),
            _ => None,
        },
        _ => None,
    }
}

/// What an envelope means to the caller: itself where the service reports
/// success, and else the reason that its error code stands for.
pub open spec fn verdict_of(envelope: ResponseView) -> Result<ResponseView, Seq<char>> {
    if envelope.status == ok_status() {
        Ok(envelope)
    } else {
        Err(response_error_text(envelope.code))
    }
}

/// What a document means to the caller: `None` where it is no envelope.
pub open spec fn response_of(json: Json) -> Option<Result<ResponseView, Seq<char>>> {
    match envelope_of(json) {
        Some(envelope) => Some(verdict_of(envelope)),
        None => None,
    }
}

/// Whether `outcome` is what a request with the given meaning ends in.
pub open spec fn answers(
    outcome: Result<NewsAPIResponse, NewsApiError>,
    meaning: Option<Result<ResponseView, Seq<char>>>,
) -> bool {
    match meaning {
        None => outcome == Err::<NewsAPIResponse, NewsApiError>(NewsApiError::ArticleParseFailed),
        Some(Err(reason)) => outcome matches Err(error) && error.is_bad_request(reason),
        Some(Ok(envelope)) => outcome matches Ok(response) && response@ == envelope,
    }
}

/// An envelope whose status is [`ok_status`] yields its articles: as many as
/// the array `articles` has elements, in the order of the array, each with
/// the title and the address of its element. The error code may be absent,
/// null or a string.
pub proof fn lemma_ok_envelope_yields_articles(
    json: Json,
    items: Seq<Json>,
    articles: Seq<ArticleView>,
)
    requires
        json matches Json::Object(members) && {
            &&& text_member(members@, "status"@) == Some(ok_status())
            &&& member(members@, "articles"@) matches Some(Json::Array(elements)) && elements@
                == items
            &&& code_of(members@) is Some
        },
        articles.len() == items.len(),
        forall|at: int|
            0 <= at < items.len() ==> article_of(#[trigger] items[at]) == Some(articles[at]),
    ensures
        response_of(json) matches Some(Ok(envelope)) && envelope.articles == articles,
{
    assert(articles_of(items).unwrap() =~= articles);
}

/// The same of a body: where its bytes read as such an envelope, the request
/// ends in these articles.
pub proof fn lemma_ok_body_yields_articles(
    body: Seq<u8>,
    json: Json,
    items: Seq<Json>,
    articles: Seq<ArticleView>,
    outcome: Result<NewsAPIResponse, NewsApiError>,
)
    requires
        parsed_json(body) == Some(json),
        json matches Json::Object(members) && {
            &&& text_member(members@, "status"@) == Some(ok_status())
            &&& member(members@, "articles"@) matches Some(Json::Array(elements)) && elements@
                == items
            &&& code_of(members@) is Some
        },
        articles.len() == items.len(),
        forall|at: int|
            0 <= at < items.len() ==> article_of(#[trigger] items[at]) == Some(articles[at]),
        answers(outcome, response_of_body(body)),
    ensures
        outcome matches Ok(response) && response@.articles == articles,
{
    lemma_ok_envelope_yields_articles(json, items, articles);
}

/// Looks up the first member with the given key and reads it as a string.
pub fn find_text<'a>(members: &'a Vec<(String, Json)>, key: &str) -> (found: Option<&'a String>)
    ensures
        match found {
            Some(text) => text_member(members@, key@) == Some(text@),
            None => text_member(members@, key@) is None,
        },
{
    match find_member(members, key) {
        Some(Json::Text(text)) => Some(text),
        _ => None,
    }
}

/// Reads one article.
pub fn decode_article(json: &Json) -> (decoded: Option<Article>)
    ensures
        match decoded {
            Some(article) => article_of(*json) == Some(article@),
            None => article_of(*json) is None,
        },
{
    match json {
        Json::Object(members) => {
            let title = match find_text(members, "title") {
                Some(title) => title,
                None => { return None; },
            };
            let url = match find_text(members, "url") {
                Some(url) => url,
                None => { return None; },
            };
            Some(Article::from_parts(title.clone(), url.clone()))
        },
        _ => None,
    }
}

/// Reads the articles of an array, in their order.
pub fn decode_articles(items: &Vec<Json>) -> (decoded: Option<Vec<Article>>)
    ensures
        match decoded {
            Some(articles) => articles_of(items@) == Some(article_views(articles@)),
            None => articles_of(items@) is None,
        },
{
    let mut articles: Vec<Article> = Vec::new();
    let mut at: usize = 0;
    while at < items.len()
        invariant
            at <= items.len(),
            articles@.len() == at,
            forall|seen: int|
                0 <= seen < at ==> article_of(#[trigger] items@[seen]) == Some(articles@[seen]@),
        decreases items.len() - at,
    {
        match decode_article(&items[at]) {
            Some(article) => {
                articles.push(article);
            },
            None => {
                assert(article_of(items@[at as int]) is None);
                return None;
            },
        }
        at += 1;
    }
    assert(articles_of(items@).unwrap() =~= article_views(articles@));
    Some(articles)
}

/// Reads the error code of an envelope.
pub fn decode_code(members: &Vec<(String, Json)>) -> (decoded: Option<Option<String>>)
    ensures
        match decoded {
            Some(Some(code)) => code_of(members@) == Some(Some(code@)),
            Some(None) => code_of(members@) == Some(None::<Seq<char>>),
            None => code_of(members@) is None,
        },
{
    match find_member(members, "code") {
        None => Some(None),
        Some(Json::Null) => Some(None),
        Some(Json::Text(code)) => Some(Some(code.clone())),
        Some(_) => None,
    }
}

/// Reads an envelope from a document, whatever its status says.
pub fn decode_envelope(json: &Json) -> (decoded: Result<NewsAPIResponse, NewsApiError>)
    ensures
        match decoded {
            Ok(response) => envelope_of(*json) == Some(response@),
            Err(error) => envelope_of(*json) is None && error == NewsApiError::ArticleParseFailed,
        },
{
    match json {
        Json::Object(members) => {
            let status = match find_text(members, "status") {
                Some(status) => status,
                None => { return Err(NewsApiError::ArticleParseFailed); },
            };
            let articles = match find_member(members, "articles") {
                Some(Json::Array(items)) => match decode_articles(items) {
                    Some(articles) => articles,
                    None => { return Err(NewsApiError::ArticleParseFailed); },
                },
                _ => { return Err(NewsApiError::ArticleParseFailed); },
            };
            let code = match decode_code(members) {
                Some(code) => code,
                None => { return Err(NewsApiError::ArticleParseFailed); },
            };
            Ok(NewsAPIResponse::new(status.clone(), articles, code))
        },
        _ => Err(NewsApiError::ArticleParseFailed),
    }
}

/// Decides what an envelope means: it is the result where its status is
/// [`ok_status`]; with any other status the articles are dropped and the
/// error code is mapped to its error.
pub fn check_status(response: NewsAPIResponse) -> (outcome: Result<NewsAPIResponse, NewsApiError>)
    ensures
        answers(outcome, Some(verdict_of(response@))),
{
    if same_text(response.status(), "ok") {
        Ok(response)
    } else {
        let (_, _, code) = response.into_parts();
        Err(map_response_err(code))
    }
}

/// Reads a reply from a document: the envelope where the service reports
/// success, the mapped failure where it reports one, and a parse failure
/// where the document is no envelope.
pub fn response_from_json(json: &Json) -> (outcome: Result<NewsAPIResponse, NewsApiError>)
    ensures
        answers(outcome, response_of(*json)),
{
    match decode_envelope(json) {
        Ok(response) => check_status(response),
        Err(error) => Err(error),
    }
}

/// What the bytes of a body mean to the caller: `None` where they are not
/// JSON or no envelope.
pub open spec fn response_of_body(body: Seq<u8>) -> Option<Result<ResponseView, Seq<char>>> {
    match parsed_json(body) {
        Some(json) => response_of(json),
        None => None,
    }
}

/// Reads a reply from the bytes of its body.
pub fn parse_response(body: &[u8]) -> (outcome: Result<NewsAPIResponse, NewsApiError>)
    ensures
        answers(outcome, response_of_body(body@)),
        parsed_json(body@) is None ==> outcome == Err::<NewsAPIResponse, NewsApiError>(
            NewsApiError::ArticleParseFailed,
        ),
{
    match Json::parse(body) {
        Some(json) => response_from_json(&json),
        None => Err(NewsApiError::ArticleParseFailed),
    }
}

} // verus!
