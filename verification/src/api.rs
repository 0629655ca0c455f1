//! The two news providers.
//!
//! CoinGecko is asked over HTTPS. The exchange itself is left to the caller:
//! [`coingecko_request`] says what to send, and [`fetch_coingecko_news`]
//! takes what came back. CoinMarketCap needs a key to be asked, so
//! [`fetch_coinmarketcap_news`] answers with one fixed sample article.

use crate::error::FetchError;
use crate::json::{json_document, json_view, parse};
use crate::models::{ArticleView, NewsArticle, RawArticle, RawArticleView};
use crate::normalizer::{extract_articles, normalized, raw_articles, select_all, select_articles};
use crate::text::{is_substring, occurs_at};
use vstd::prelude::*;

verus! {

/// A GET request without body, credentials or query parameters.
#[derive(Debug, Clone, PartialEq, Eq)]
pub struct GetRequest {
    /// Address to ask.
    pub url: String,
    /// Media type to name in the `accept` header.
    pub accept: String,
}

/// Address of CoinGecko's news list.
pub open spec fn coingecko_news_url() -> Seq<char> {
    "https://api.coingecko.com/api/v3/news"@
}

/// The one request that is sent to CoinGecko, whatever the query.
pub fn coingecko_request() -> (request: GetRequest)
    ensures
        request.url@ == coingecko_news_url(),
        request.accept@ == "application/json"@,
{
    GetRequest {
        url: String::from_str("https://api.coingecko.com/api/v3/news"),
        accept: String::from_str("application/json"),
    }
}

/// Reads the body of a provider's answer as JSON.
pub fn decode(body: &[u8]) -> (decoded: Result<serde_json::Value, FetchError>)
    ensures
        match json_document(body@) {
            Some(document) => decoded matches Ok(root) && json_view(root) == document,
            None => decoded matches Err(FetchError::Parse(_)),
        },
{
    match parse(body) {
        Ok(root) => Ok(root),
        Err(error) => Err(FetchError::Parse(error)),
    }
}

/// Reads the article list out of what the exchange with CoinGecko gave:
/// the body of the answer, or the description of why there is none.
///
/// A failed exchange is a transport failure that carries the description. A
/// body that is not JSON is a parse failure; the status of the answer plays
/// no part. A JSON body without an article list is `Ok(None)`.
pub fn coingecko_feed(response: Result<Vec<u8>, String>) -> (feed: Result<
    Option<Vec<RawArticle>>,
    FetchError,
>)
    ensures
        match response {
            Err(cause) => feed matches Err(FetchError::Transport(description)) && description@
                == cause@,
            Ok(body) => match json_document(body@) {
                Some(root) => feed matches Ok(raws) && raws.deep_view() == raw_articles(root),
                None => feed matches Err(FetchError::Parse(_)),
            },
        },
{
    let body = match response {
        Ok(body) => body,
        Err(cause) => {
            return Err(FetchError::Transport(cause));
        },
    };
    let root = match decode(body.as_slice()) {
        Ok(root) => root,
        Err(error) => {
            return Err(error);
        },
    };
    Ok(extract_articles(&root))
}

/// The articles of a feed that match `query`; a feed without a list has none.
pub open spec fn feed_selection(feed: Option<Seq<RawArticleView>>, query: Seq<char>) -> Seq<
    ArticleView,
> {
    match feed {
        Some(raws) => select_all(raws, query),
        None => Seq::empty(),
    }
}

/// Keeps the articles of a feed that match `crypto`.
pub fn select_from_feed(feed: Option<Vec<RawArticle>>, crypto: &str) -> (articles: Vec<
    NewsArticle,
>)
    ensures
        articles.deep_view() == feed_selection(feed.deep_view(), crypto@),
{
    match feed {
        Some(raws) => select_articles(raws, crypto),
        None => Vec::new(),
    }
}

/// The CoinGecko articles whose title contains `crypto` without regard to
/// case, from what the exchange with CoinGecko gave.
///
/// Fails exactly where the exchange failed or the body is not JSON. Every
/// JSON body succeeds, with no articles where none matches or the body has
/// no list.
pub fn fetch_coingecko_news(response: Result<Vec<u8>, String>, crypto: &str) -> (news: Result<
    Vec<NewsArticle>,
    FetchError,
>)
    ensures
        match response {
            Err(cause) => news matches Err(FetchError::Transport(description)) && description@
                == cause@,
            Ok(body) => match json_document(body@) {
                Some(root) => news matches Ok(articles) && articles.deep_view() == normalized(
                    root,
                    crypto@,
                ),
                None => news matches Err(FetchError::Parse(_)),
            },
        },
{
    match coingecko_feed(response) {
        Ok(feed) => Ok(select_from_feed(feed, crypto)),
        Err(error) => Err(error),
    }
}

/// The sample article that stands for CoinMarketCap's answer to `query`.
pub open spec fn sample_article(query: Seq<char>) -> ArticleView {
    ArticleView {
        title: "Sample News for "@ + query,
        source: Some("CoinMarketCap"@),
        date: Some("2025-04-15"@),
        summary: Some("This is a mocked article due to API key requirement."@),
        link: Some("https://coinmarketcap.com"@),
    }
}

/// The CoinMarketCap articles for `crypto`: always exactly the one
/// [`sample_article`], with no exchange at all.
pub fn fetch_coinmarketcap_news(crypto: &str) -> (news: Result<Vec<NewsArticle>, FetchError>)
    ensures
        news matches Ok(articles) && articles.deep_view() == seq![sample_article(crypto@)],
{
    let mut title = String::from_str("Sample News for ");
    title.append(crypto);
    let article = NewsArticle {
        title,
        source: Some(String::from_str("CoinMarketCap")),
        date: Some(String::from_str("2025-04-15")),
        summary: Some(String::from_str("This is a mocked article due to API key requirement.")),
        link: Some(String::from_str("https://coinmarketcap.com")),
    };
    let mut articles: Vec<NewsArticle> = Vec::new();
    articles.push(article);
    assert(articles.deep_view() =~= seq![sample_article(crypto@)]);
    Ok(articles)
}

/// The title of the sample article contains the query as it was given.
pub proof fn lemma_sample_title_contains_query(query: Seq<char>)
    ensures
        is_substring(query, sample_article(query).title),
{
    let prefix = "Sample News for "@;
    let start = prefix.len() as int;
    assert((prefix + query).subrange(start, start + query.len()) =~= query);
    assert(occurs_at(query, sample_article(query).title, start));
}

} // verus!
