use crate::error::{map_response_err, reason_for_code, NewsApiError};
use crate::json::{
    json_is_null, json_items, json_member, json_member_of, json_of, json_shape_error, json_text,
    json_value, parse_json, JsonView,
};
use vstd::prelude::*;

verus! {

/// What an article holds.
pub struct ArticleView {
    pub title: Seq<char>,
    pub url: Seq<char>,
    pub published_at: Seq<char>,
}

/// One news item: its title, its address and when it was published
/// (an ISO-8601 date-time such as `2023-05-01T10:00:00Z`).
#[derive(Debug)]
pub struct Article {
    title: String,
    url: String,
    published_at: String,
}

impl View for Article {
    type V = ArticleView;

    closed spec fn view(&self) -> ArticleView {
        ArticleView { title: self.title@, url: self.url@, published_at: self.published_at@ }
    }
}

impl Article {
    pub fn new(title: String, url: String, published_at: String) -> (r: Article)
        ensures
            r@ == (ArticleView { title: title@, url: url@, published_at: published_at@ }),
    {
        Article { title, url, published_at }
    }

    pub fn get_title(&self) -> (r: &str)
        ensures
            r@ == self@.title,
    {
        self.title.as_str()
    }

    pub fn gert_url(&self) -> (r: &str)
        ensures
            r@ == self@.url,
    {
        self.url.as_str()
    }

    pub fn get_published_at(&self) -> (r: &str)
        ensures
            r@ == self@.published_at,
    {
        self.published_at.as_str()
    }
}

/// The views of a sequence of articles.
pub open spec fn article_views(a: Seq<Article>) -> Seq<ArticleView> {
    a.map_values(|x: Article| x@)
}

/// What an envelope holds.
pub struct NewsApiResponseView {
    pub status: Seq<char>,
    pub articles: Seq<ArticleView>,
    pub code: Option<Seq<char>>,
}

/// The envelope that the API answers with: a status, the articles, and a
/// code that says what went wrong when the status is not `ok`.
#[derive(Debug)]
pub struct NewsApiResponse {
    status: String,
    pub articles: Vec<Article>,
    code: Option<String>,
}

impl View for NewsApiResponse {
    type V = NewsApiResponseView;

    closed spec fn view(&self) -> NewsApiResponseView {
        NewsApiResponseView {
            status: self.status@,
            articles: article_views(self.articles@),
            code: match self.code {
                Some(c) => Some(c@),
                None => None,
            },
        }
    }
}

/// The status of a successful envelope.
pub open spec fn status_ok() -> Seq<char> {
    "ok"@
}

impl NewsApiResponse {
    pub fn new(status: String, articles: Vec<Article>, code: Option<String>) -> (r:
        NewsApiResponse)
        ensures
            r@.status == status@,
            r@.articles == article_views(articles@),
            r@.code == (match code {
                Some(c) => Some(c@),
                None => None,
            }),
    {
        NewsApiResponse { status, articles, code }
    }

    pub fn get_articles(&self) -> (r: &Vec<Article>)
        ensures
            article_views(r@) == self@.articles,
    {
        &self.articles
    }

    pub fn get_status(&self) -> (r: &str)
        ensures
            r@ == self@.status,
    {
        self.status.as_str()
    }

    pub fn get_code(&self) -> (r: Option<&str>)
        ensures
            match r {
                Some(c) => self@.code == Some(c@),
                None => self@.code is None,
            },
    {
        match &self.code {
            Some(c) => Some(c.as_str()),
            None => None,
        }
    }
}

/// Hands an envelope on when its status is `ok`, and turns it into the error
/// that its code names otherwise.
pub fn check_status(response: NewsApiResponse) -> (r: Result<NewsApiResponse, NewsApiError>)
    ensures
        response@.status == status_ok() ==> (r matches Ok(kept) && kept@ == response@),
        response@.status != status_ok() ==> (r matches Err(e) && e is BadRequest
            && e->BadRequest_0@ == reason_for_code(response@.code)),
{
    let ok = String::from_str("ok");
    if response.status == ok {
        Ok(response)
    } else {
        Err(map_response_err(response.code))
    }
}

/// The text of the string member `key` of a JSON object, if it has one.
pub open spec fn text_member(j: JsonView, key: Seq<char>) -> Option<Seq<char>> {
    match json_member_of(j, key) {
        Some(JsonView::Str(s)) => Some(s),
        _ => None,
    }
}

/// The article that a JSON object describes: it must have the string
/// members `title`, `url` and `publishedAt`; others are ignored.
pub open spec fn article_of(j: JsonView) -> Option<ArticleView> {
    match (text_member(j, "title"@), text_member(j, "url"@), text_member(j, "publishedAt"@)) {
        (Some(t), Some(u), Some(p)) => Some(ArticleView { title: t, url: u, published_at: p }),
        _ => None,
    }
}

/// One article for each item of a JSON array, in order; `None` as soon as one
/// item describes no article.
pub open spec fn articles_of(items: Seq<JsonView>) -> Option<Seq<ArticleView>> {
    if forall|i: int| 0 <= i < items.len() ==> (#[trigger] article_of(items[i])) is Some {
        Some(items.map_values(|x: JsonView| article_of(x)->Some_0))
    } else {
        None
    }
}

/// The code of an envelope: a missing or null `code` is no code, a string
/// is that code, and anything else is no envelope (`None`).
pub open spec fn code_of(j: JsonView) -> Option<Option<Seq<char>>> {
    match json_member_of(j, "code"@) {
        None => Some(None),
        Some(JsonView::Null) => Some(None),
        Some(JsonView::Str(c)) => Some(Some(c)),
        _ => None,
    }
}

/// The articles of an envelope with status `status`: `articles` must be an
/// array of articles; it may be missing only when the status is not `ok`,
/// and then there are none.
pub open spec fn article_list_of(j: JsonView, status: Seq<char>) -> Option<Seq<ArticleView>> {
    match json_member_of(j, "articles"@) {
        None => if status == status_ok() {
            None
        } else {
            Some(Seq::empty())
        },
        Some(JsonView::Array(items)) => articles_of(items),
        _ => None,
    }
}

/// The envelope that a JSON document is, if it has the envelope's shape: an
/// object with a string `status`, a code and a list of articles as above.
pub open spec fn envelope_of(j: JsonView) -> Option<NewsApiResponseView> {
    match text_member(j, "status"@) {
        Some(status) => match (code_of(j), article_list_of(j, status)) {
            (Some(code), Some(articles)) => Some(
                NewsApiResponseView { status, articles, code },
            ),
            _ => None,
        },
        None => None,
    }
}

/// What the body of a response is mapped to: `Ok` with the envelope when it
/// has status `ok`, the error that its code names for another status, and
/// a parse error for a body that is no JSON or no envelope.
pub open spec fn response_outcome(body: Seq<char>, r: Result<NewsApiResponse, NewsApiError>) -> bool {
    match json_of(body) {
        None => r matches Err(e) && e is ArticleParseFailed,
        Some(j) => match envelope_of(j) {
            None => r matches Err(e) && e is ArticleParseFailed,
            Some(env) => if env.status == status_ok() {
                r matches Ok(resp) && resp@ == env
            } else {
                r matches Err(e) && e is BadRequest && e->BadRequest_0@ == reason_for_code(env.code)
            },
        },
    }
}

/// The text of the string member `key` of a JSON object; a missing member,
/// or one that is no string, is a shape error.
fn required_text(v: &serde_json::Value, key: &str) -> (r: Result<String, NewsApiError>)
    ensures
        match text_member(json_value(*v), key@) {
            Some(s) => r matches Ok(t) && t@ == s,
            None => r matches Err(e) && e is ArticleParseFailed,
        },
{
    match json_member(v, key) {
        Some(m) => match json_text(m) {
            Some(t) => Ok(t),
            None => Err(NewsApiError::ArticleParseFailed(json_shape_error("expected a string"))),
        },
        None => Err(NewsApiError::ArticleParseFailed(json_shape_error("missing field"))),
    }
}

/// One article read from a JSON object with the string members `title`,
/// `url` and `publishedAt`.
fn read_article(v: &serde_json::Value) -> (r: Result<Article, NewsApiError>)
    ensures
        match article_of(json_value(*v)) {
            Some(a) => r matches Ok(x) && x@ == a,
            None => r matches Err(e) && e is ArticleParseFailed,
        },
{
    let title = required_text(v, "title")?;
    let url = required_text(v, "url")?;
    let published_at = required_text(v, "publishedAt")?;
    Ok(Article::new(title, url, published_at))
}

/// The trees of a list of JSON values.
pub open spec fn json_values(items: Seq<serde_json::Value>) -> Seq<JsonView> {
    items.map_values(|v: serde_json::Value| json_value(v))
}

/// One article for each item of a JSON array, in the same order; an item
/// that is not a well-formed article fails the whole list.
fn read_articles(items: &Vec<serde_json::Value>) -> (r: Result<Vec<Article>, NewsApiError>)
    ensures
        match articles_of(json_values(items@)) {
            Some(a) => r matches Ok(x) && article_views(x@) == a,
            None => r matches Err(e) && e is ArticleParseFailed,
        },
{
    let ghost js = json_values(items@);
    let mut articles: Vec<Article> = Vec::new();
    let n = items.len();
    let mut i: usize = 0;
    while i < n
        invariant
            n == items@.len(),
            js == json_values(items@),
            i <= n,
            forall|j: int| 0 <= j < i ==> (#[trigger] article_of(js[j])) is Some,
            article_views(articles@) =~= js.take(i as int).map_values(
                |x: JsonView| article_of(x)->Some_0,
            ),
        decreases n - i,
    {
        match read_article(&items[i]) {
            Ok(article) => {
                let ghost before = articles@;
                let ghost seen = article@;
                articles.push(article);
                proof {
                    assert(articles@ =~= before.push(article));
                    assert(article_views(articles@) =~= article_views(before).push(seen));
                    assert(js.take(i + 1) =~= js.take(i as int).push(js[i as int]));
                }
            },
            Err(e) => {
                proof {
                    assert(article_of(js[i as int]) is None);
                }
                return Err(e);
            },
        }
        i = i + 1;
    }
    proof {
        assert(js.take(n as int) =~= js);
    }
    Ok(articles)
}

/// Reads the raw body of a response as the API's envelope and checks its
/// status. The body must be a JSON object with a string `status`; `code`,
/// when present and not null, is a string; `articles` is an array of
/// objects, each with the strings `title`, `url` and `publishedAt`, and may
/// be missing only when the status is not `ok`. A body of any other shape is
/// an `ArticleParseFailed` error, and so is one article that lacks a field:
/// no article is dropped. A well-formed envelope then goes through
/// `check_status`.
pub fn map_response(body: &str) -> (r: Result<NewsApiResponse, NewsApiError>)
    ensures
        response_outcome(body@, r),
{
    let doc = match parse_json(body) {
        Ok(doc) => doc,
        Err(e) => return Err(NewsApiError::ArticleParseFailed(e)),
    };
    let ghost j = json_value(doc);
    let status = required_text(&doc, "status")?;
    let code = match json_member(&doc, "code") {
        Some(c) => {
            if json_is_null(c) {
                None
            } else {
                match json_text(c) {
                    Some(t) => Some(t),
                    None => {
                        return Err(
                            NewsApiError::ArticleParseFailed(json_shape_error("expected a string")),
                        );
                    },
                }
            }
        },
        None => None,
    };
    let articles = match json_member(&doc, "articles") {
        Some(a) => match json_items(a) {
            Some(items) => {
                proof {
                    assert(json_values(items@) =~= json_member_of(j, "articles"@)->Some_0->Array_0);
                }
                read_articles(items)?
            },
            None => {
                return Err(NewsApiError::ArticleParseFailed(json_shape_error("expected an array")));
            },
        },
        None => {
            let ok = String::from_str("ok");
            if status == ok {
                return Err(NewsApiError::ArticleParseFailed(json_shape_error("missing field")));
            }
            Vec::new()
        },
    };
    check_status(NewsApiResponse::new(status, articles, code))
}

} // verus!
