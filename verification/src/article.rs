//! What a reply holds: the envelope and its articles.

use vstd::prelude::*;
use vstd::string::*;

verus! {

/// An article as a value: its two texts.
pub struct ArticleView {
    pub title: Seq<char>,
    pub url: Seq<char>,
}

/// One headline: a title and the address of the full text.
#[derive(Debug, Clone, PartialEq, Eq)]
pub struct Article {
    title: String,
    url: String,
}

impl View for Article {
    type V = ArticleView;

    closed spec fn view(&self) -> ArticleView {
        ArticleView { title: self.title@, url: self.url@ }
    }
}

impl Article {
    /// An article with the given title and address.
    pub fn new(title: &str, url: &str) -> (article: Article)
        ensures
            article@ == (ArticleView { title: title@, url: url@ }),
    {
        Article { title: String::from_str(title), url: String::from_str(url) }
    }

    /// An article that takes over the two strings.
    pub fn from_parts(title: String, url: String) -> (article: Article)
        ensures
            article@ == (ArticleView { title: title@, url: url@ }),
    {
        Article { title, url }
    }

    pub fn title(&self) -> (title: &str)
        ensures
            title@ == self@.title,
    {
        self.title.as_str()
    }

    pub fn url(&self) -> (url: &str)
        ensures
            url@ == self@.url,
    {
        self.url.as_str()
    }
}

/// The articles of a list as values, in the order of the list.
pub open spec fn article_views(articles: Seq<Article>) -> Seq<ArticleView> {
    Seq::new(articles.len(), |i: int| articles[i]@)
}

/// An envelope as a value.
pub struct ResponseView {
    pub status: Seq<char>,
    pub articles: Seq<ArticleView>,
    pub code: Option<Seq<char>>,
}

/// The status with which the service reports success.
pub open spec fn ok_status() -> Seq<char> {
    "ok"@
}

/// The envelope of a reply. Unless the status is [`ok_status`] the articles
/// mean nothing, and the code says what went wrong.
#[derive(Debug, Clone, PartialEq, Eq)]
pub struct NewsAPIResponse {
    status: String,
    articles: Vec<Article>,
    code: Option<String>,
}

impl View for NewsAPIResponse {
    type V = ResponseView;

    closed spec fn view(&self) -> ResponseView {
        ResponseView {
            status: self.status@,
            articles: article_views(self.articles@),
            code: match self.code {
                Some(text) => Some(text@),
                None => None,
            },
        }
    }
}

impl NewsAPIResponse {
    /// An envelope made of the three parts.
    pub fn new(status: String, articles: Vec<Article>, code: Option<String>) -> (response:
        NewsAPIResponse)
        ensures
            response@ == (ResponseView {
                status: status@,
                articles: article_views(articles@),
                code: match code {
                    Some(text) => Some(text@),
                    None => None,
                },
            }),
    {
        NewsAPIResponse { status, articles, code }
    }

    pub fn articles(&self) -> (articles: &Vec<Article>)
        ensures
            article_views(articles@) == self@.articles,
    {
        &self.articles
    }

    /// The status that the service reported.
    pub fn status(&self) -> (status: &str)
        ensures
            status@ == self@.status,
    {
        self.status.as_str()
    }

    /// The error code that the service reported, if any.
    pub fn code(&self) -> (code: Option<&str>)
        ensures
            code is Some == self@.code is Some,
            code matches Some(text) ==> self@.code == Some(text@),
    {
        match &self.code {
            Some(text) => Some(text.as_str()),
            None => None,
        }
    }

    /// Takes the envelope apart.
    pub fn into_parts(self) -> (parts: (String, Vec<Article>, Option<String>))
        ensures
            self@ == (ResponseView {
                status: parts.0@,
                articles: article_views(parts.1@),
                code: match parts.2 {
                    Some(text) => Some(text@),
                    None => None,
                },
            }),
    {
        (self.status, self.articles, self.code)
    }
}

} // verus!
