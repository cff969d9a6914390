//! The lines in which a list of articles is shown.

use vstd::prelude::*;
use vstd::string::*;
use crate::article::{article_views, Article, ArticleView};

verus! {

/// The line above all articles.
pub open spec fn banner() -> Seq<char> {
    "# QuickNews \n\n"@
}

/// The line that holds the title of an article.
pub open spec fn title_line(article: ArticleView) -> Seq<char> {
    "`# "@ + article.title + "`"@
}

/// The line that quotes the address of an article.
pub open spec fn url_line(article: ArticleView) -> Seq<char> {
    "> *"@ + article.url + "*"@
}

/// The line that closes an article.
pub open spec fn rule() -> Seq<char> {
    "---"@
}

/// The three lines of each article, one article after the other.
pub open spec fn article_lines(articles: Seq<ArticleView>) -> Seq<Seq<char>>
    decreases articles.len(),
{
    if articles.len() == 0 {
        Seq::empty()
    } else {
        article_lines(articles.drop_last()) + seq![
            title_line(articles.last()),
            url_line(articles.last()),
            rule(),
        ]
    }
}

/// The lines that show a list of articles: the banner, then the articles.
pub open spec fn rendered(articles: Seq<ArticleView>) -> Seq<Seq<char>> {
    seq![banner()] + article_lines(articles)
}

/// The texts of a list of strings.
pub open spec fn texts(lines: Seq<String>) -> Seq<Seq<char>> {
    Seq::new(lines.len(), |at: int| lines[at]@)
}

/// Lays a list of articles out in lines of Markdown: a banner, and for each
/// article, in the order of the list, its title, its address and a rule.
pub fn render_articles(articles: &Vec<Article>) -> (lines: Vec<String>)
    ensures
        texts(lines@) == rendered(article_views(articles@)),
{
    let mut lines: Vec<String> = Vec::new();
    lines.push(String::from_str("# QuickNews \n\n"));
    let ghost all = article_views(articles@);
    assert(all.take(0) =~= Seq::<ArticleView>::empty());
    assert(texts(lines@) =~= rendered(all.take(0)));
    let mut at: usize = 0;
    while at < articles.len()
        invariant
            at <= articles.len(),
            all == article_views(articles@),
            texts(lines@) == rendered(all.take(at as int)),
        decreases articles.len() - at,
    {
        let article = &articles[at];
        let ghost before = texts(lines@);
        lines.push(String::from_str("`# ").concat(article.title()).concat("`"));
        lines.push(String::from_str("> *").concat(article.url()).concat("*"));
        lines.push(String::from_str("---"));
        proof {
            let seen = all.take(at as int + 1);
            assert(seen.drop_last() =~= all.take(at as int));
            assert(seen.last() == articles@[at as int]@);
            assert(texts(lines@) =~= before + seq![
                title_line(seen.last()),
                url_line(seen.last()),
                rule(),
            ]);
            assert(texts(lines@) =~= rendered(seen));
        }
        at += 1;
    }
    assert(all.take(at as int) =~= all);
    lines
}

} // verus!
