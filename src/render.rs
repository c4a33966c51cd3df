use crate::article::{Article, ArticleView};
use vstd::prelude::*;

verus! {

/// `YYYY-MM-DDTHH:MM:SSZ` written as `DD/MM/YYYY`: characters 8 to 10 are
/// the day, 5 to 7 the month and 0 to 4 the year.
pub open spec fn date_text(s: Seq<char>) -> Seq<char> {
    s.subrange(8, 10) + "/"@ + s.subrange(5, 7) + "/"@ + s.subrange(0, 4)
}

/// The heading above the articles.
pub open spec fn heading_text() -> Seq<char> {
    "# Top Headlines\n"@
}

/// The lines that show one article: its date, its title, its address and a
/// rule below them.
pub open spec fn article_text(a: ArticleView) -> Seq<char> {
    date_text(a.published_at) + "\n"@ + "`"@ + a.title + "`\n"@ + "*"@ + a.url + "* \n"@
        + "--- \n\n"@
}

/// The text that shows the articles `a`, one after the other.
pub open spec fn articles_text(a: Seq<Article>) -> Seq<char>
    decreases a.len(),
{
    if a.len() == 0 {
        Seq::empty()
    } else {
        articles_text(a.drop_last()) + article_text(a.last()@)
    }
}

/// The publication date of an article written as `DD/MM/YYYY`; `None` when
/// the timestamp is too short to hold a date.
pub fn render_date(published_at: &str) -> (r: Option<String>)
    ensures
        r is Some <==> published_at@.len() >= 10,
        r matches Some(d) ==> d@ == date_text(published_at@),
{
    let n = published_at.unicode_len();
    if n < 10 {
        return None;
    }
    let day = published_at.substring_char(8, 10);
    let month = published_at.substring_char(5, 7);
    let year = published_at.substring_char(0, 4);
    Some(String::from_str(day).concat("/").concat(month).concat("/").concat(year))
}

/// The text that shows the articles under the heading, as markdown.
pub fn render_articles(articles: &Vec<Article>) -> (r: String)
    requires
        forall|i: int| 0 <= i < articles@.len() ==> (#[trigger] articles@[i])@.published_at.len() >= 10,
    ensures
        r@ == heading_text() + articles_text(articles@),
{
    let mut text = String::from_str("# Top Headlines\n");
    let mut i: usize = 0;
    while i < articles.len()
        invariant
            i <= articles@.len(),
            forall|j: int| 0 <= j < articles@.len() ==> (#[trigger] articles@[j])@.published_at.len() >= 10,
            text@ == heading_text() + articles_text(articles@.subrange(0, i as int)),
        decreases articles@.len() - i,
    {
        let a = &articles[i];
        let date = match render_date(a.get_published_at()) {
            Some(d) => d,
            None => String::new(),
        };
        text = text.concat(date.as_str()).concat("\n");
        text = text.concat("`").concat(a.get_title()).concat("`\n");
        text = text.concat("*").concat(a.gert_url()).concat("* \n");
        text = text.concat("--- \n\n");
        proof {
            assert(articles@.subrange(0, i + 1).drop_last() =~= articles@.subrange(0, i as int));
        }
        i = i + 1;
    }
    proof {
        assert(articles@.subrange(0, articles@.len() as int) =~= articles@);
    }
    text
}

} // verus!
