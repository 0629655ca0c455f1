//! The run as a whole: from the line a reader typed and the outcome of the
//! exchange with CoinGecko to the text that is shown.
//!
//! Placeholders for absent fields appear only in the rendered text. The
//! records themselves keep their fields absent.

use crate::api::{coingecko_feed, fetch_coinmarketcap_news, sample_article, select_from_feed};
use crate::error::{AppError, FetchError};
use crate::json::json_document;
use crate::models::{ArticleView, NewsArticle, RawArticleView};
use crate::normalizer::{normalized, raw_articles, selected};
use crate::text::{
    is_substring, lowercase, occurs_at, to_lowercase, to_uppercase, trim, trimmed, uppercase,
};
use vstd::prelude::*;

verus! {

/// The query that a typed line stands for: the line without the white space
/// around it, in lowercase.
pub open spec fn query_of(input: Seq<char>) -> Seq<char> {
    lowercase(trimmed(input))
}

/// Turns the line a reader typed into the query.
pub fn prepare_query(input: &str) -> (query: String)
    ensures
        query@ == query_of(input@),
{
    to_lowercase(trim(input))
}

/// The text shown for a field: the field itself, or `placeholder` where the
/// field is absent.
pub open spec fn shown(field: Option<Seq<char>>, placeholder: Seq<char>) -> Seq<char> {
    match field {
        Some(text) => text,
        None => placeholder,
    }
}

/// The text block of one article: five labelled lines and a blank line.
pub open spec fn article_block(article: ArticleView) -> Seq<char> {
    "Title: "@ + article.title + "\nSource: "@ + shown(article.source, "Unknown"@) + "\nDate: "@
        + shown(article.date, "Unknown"@) + "\nSummary: "@ + shown(article.summary, "No summary"@)
        + "\nLink: "@ + shown(article.link, "No link"@) + "\n\n"@
}

/// The text blocks of a list of articles, one after the other.
pub open spec fn article_blocks(articles: Seq<ArticleView>) -> Seq<char> {
    articles.map_values(|article: ArticleView| article_block(article)).flatten()
}

/// The whole report: a heading with the query in uppercase, then the
/// articles of each provider under the provider's own heading.
pub open spec fn report_text(
    query: Seq<char>,
    coingecko: Seq<ArticleView>,
    coinmarketcap: Seq<ArticleView>,
) -> Seq<char> {
    "\n=== News for "@ + uppercase(query) + " ===\n"@ + "\nCoinGecko News:\n"@ + article_blocks(
        coingecko,
    ) + "\nCoinMarketCap News:\n"@ + article_blocks(coinmarketcap)
}

/// A matching article that came without a description is stored without a
/// summary, and its text block shows `No summary` on the summary line.
pub proof fn lemma_absent_summary_shown_as_placeholder(raw: RawArticleView, query: Seq<char>)
    requires
        selected(raw, query) is Some,
        raw.description is None,
    ensures
        selected(raw, query)->0.summary is None,
        is_substring(
            "\nSummary: "@ + "No summary"@ + "\nLink: "@,
            article_block(selected(raw, query)->0),
        ),
{
    let article = selected(raw, query)->0;
    let needle = "\nSummary: "@ + "No summary"@ + "\nLink: "@;
    let before = "Title: "@ + article.title + "\nSource: "@ + shown(article.source, "Unknown"@)
        + "\nDate: "@ + shown(article.date, "Unknown"@);
    let after = shown(article.link, "No link"@) + "\n\n"@;
    let start = before.len() as int;
    assert(article_block(article) =~= before + needle + after);
    assert((before + needle + after).subrange(start, start + needle.len()) =~= needle);
    assert(occurs_at(needle, article_block(article), start));
}

/// Appends a field, or the placeholder where the field is absent.
fn append_shown(out: &mut String, field: &Option<String>, placeholder: &str)
    ensures
        final(out)@ == old(out)@ + shown(field.deep_view(), placeholder@),
{
    match field {
        Some(text) => out.append(text.as_str()),
        None => out.append(placeholder),
    }
}

/// Renders one article as its text block.
pub fn render_article(article: &NewsArticle) -> (block: String)
    ensures
        block@ == article_block(article@),
{
    let mut block = String::from_str("Title: ");
    block.append(article.title.as_str());
    block.append("\nSource: ");
    append_shown(&mut block, &article.source, "Unknown");
    block.append("\nDate: ");
    append_shown(&mut block, &article.date, "Unknown");
    block.append("\nSummary: ");
    append_shown(&mut block, &article.summary, "No summary");
    block.append("\nLink: ");
    append_shown(&mut block, &article.link, "No link");
    block.append("\n\n");
    block
}

/// Appends the text blocks of a list of articles.
fn append_blocks(out: &mut String, articles: &Vec<NewsArticle>)
    ensures
        final(out)@ == old(out)@ + article_blocks(articles.deep_view()),
{
    let ghost all = articles.deep_view();
    let ghost block_of = |article: ArticleView| article_block(article);
    let mut i: usize = 0;
    assert(all.take(0).map_values(block_of) =~= Seq::<Seq<char>>::empty());
    while i < articles.len()
        invariant
            i <= articles.len(),
            all == articles.deep_view(),
            block_of == |article: ArticleView| article_block(article),
            out@ == old(out)@ + all.take(i as int).map_values(block_of).flatten(),
        decreases articles.len() - i,
    {
        let block = render_article(&articles[i]);
        out.append(block.as_str());
        proof {
            let done = all.take(i as int).map_values(block_of);
            assert(all.take(i + 1).map_values(block_of) =~= done.push(block@));
            done.lemma_flatten_push(block@);
        }
        i += 1;
    }
    assert(all.take(i as int) == all);
}

/// Renders the report for a query and the articles of the two providers.
pub fn render_report(
    query: &str,
    coingecko: &Vec<NewsArticle>,
    coinmarketcap: &Vec<NewsArticle>,
) -> (report: String)
    ensures
        report@ == report_text(query@, coingecko.deep_view(), coinmarketcap.deep_view()),
{
    let mut report = String::from_str("\n=== News for ");
    let heading = to_uppercase(query);
    report.append(heading.as_str());
    report.append(" ===\n");
    report.append("\nCoinGecko News:\n");
    append_blocks(&mut report, coingecko);
    report.append("\nCoinMarketCap News:\n");
    append_blocks(&mut report, coinmarketcap);
    report
}

/// What a successful run hands to its caller.
#[derive(Debug, Clone, PartialEq, Eq)]
pub struct Briefing {
    /// Remarks for the diagnostic stream, in the order in which they arose.
    pub notices: Vec<String>,
    /// The report for the reader.
    pub report: String,
}

/// The remarks that a feed gives rise to: one where CoinGecko's answer has
/// no article list, none otherwise.
pub open spec fn notices_for<T>(feed: Option<T>) -> Seq<Seq<char>> {
    match feed {
        Some(_) => Seq::empty(),
        None => seq!["No 'data' array in CoinGecko response"@],
    }
}

/// Runs the aggregation for the line a reader typed and the outcome of the
/// exchange with CoinGecko.
///
/// A failure of the CoinGecko exchange ends the run with that failure: no
/// report is made, not even of CoinMarketCap's articles. Otherwise the run
/// succeeds with the report of both providers for the prepared query.
pub fn run(input: &str, response: Result<Vec<u8>, String>) -> (outcome: Result<Briefing, AppError>)
    ensures
        match response {
            Err(cause) => outcome matches Err(AppError::Fetch(FetchError::Transport(description)))
                && description@ == cause@,
            Ok(body) => match json_document(body@) {
                Some(root) => outcome matches Ok(briefing) && briefing.report@ == report_text(
                    query_of(input@),
                    normalized(root, query_of(input@)),
                    seq![sample_article(query_of(input@))],
                ) && briefing.notices.deep_view() == notices_for(raw_articles(root)),
                None => outcome matches Err(AppError::Fetch(FetchError::Parse(_))),
            },
        },
{
    let query = prepare_query(input);
    let feed = match coingecko_feed(response) {
        Ok(feed) => feed,
        Err(error) => {
            return Err(AppError::from(error));
        },
    };
    let mut notices: Vec<String> = Vec::new();
    if feed.is_none() {
        notices.push(String::from_str("No 'data' array in CoinGecko response"));
    }
    assert(notices.deep_view() =~= notices_for(feed.deep_view()));
    let coingecko = select_from_feed(feed, query.as_str());
    let coinmarketcap = match fetch_coinmarketcap_news(query.as_str()) {
        Ok(articles) => articles,
        Err(error) => {
            return Err(AppError::from(error));
        },
    };
    let report = render_report(query.as_str(), &coingecko, &coinmarketcap);
    Ok(Briefing { notices, report })
}

} // verus!
