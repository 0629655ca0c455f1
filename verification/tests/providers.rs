use crypto_news_aggregator::api::{
    coingecko_feed, coingecko_request, decode, fetch_coingecko_news, fetch_coinmarketcap_news,
    select_from_feed,
};
use crypto_news_aggregator::{AppError, FetchError, NewsArticle, RawArticle};

fn body(text: &str) -> Result<Vec<u8>, String> {
    Ok(text.as_bytes().to_vec())
}

#[test]
fn stub_returns_one_record_for_ethereum() {
    let news = fetch_coinmarketcap_news("ethereum").unwrap();
    assert_eq!(news.len(), 1);
    assert!(news[0].title.contains("ethereum"));
    assert_eq!(news[0].source.as_deref(), Some("CoinMarketCap"));
}

#[test]
fn stub_record_is_fixed_but_for_the_query() {
    assert_eq!(
        fetch_coinmarketcap_news("ethereum").unwrap(),
        vec![NewsArticle {
            title: "Sample News for ethereum".to_string(),
            source: Some("CoinMarketCap".to_string()),
            date: Some("2025-04-15".to_string()),
            summary: Some("This is a mocked article due to API key requirement.".to_string()),
            link: Some("https://coinmarketcap.com".to_string()),
        }]
    );
}

#[test]
fn stub_gives_the_same_answer_every_time() {
    assert_eq!(fetch_coinmarketcap_news("ethereum").unwrap(), fetch_coinmarketcap_news("ethereum").unwrap());
}

#[test]
fn stub_embeds_the_query_as_given() {
    assert_eq!(fetch_coinmarketcap_news("").unwrap()[0].title, "Sample News for ");
    assert_eq!(fetch_coinmarketcap_news("BTC Ω").unwrap()[0].title, "Sample News for BTC Ω");
}

#[test]
fn transport_failure_is_tagged_and_yields_no_records() {
    let news = fetch_coingecko_news(Err("connection refused".to_string()), "bitcoin");
    assert!(matches!(news, Err(FetchError::Transport(ref cause)) if cause == "connection refused"));
}

#[test]
fn body_that_is_not_json_is_a_parse_failure() {
    for text in ["<html>502 Bad Gateway</html>", "", "{\"data\": [", "{} trailing", "{'data': []}"] {
        assert!(matches!(fetch_coingecko_news(body(text), "bitcoin"), Err(FetchError::Parse(_))));
    }
}

#[test]
fn body_that_is_not_utf8_is_a_parse_failure() {
    let news = fetch_coingecko_news(Ok(vec![b'"', 0xff, b'"']), "bitcoin");
    assert!(matches!(news, Err(FetchError::Parse(_))));
}

#[test]
fn json_body_gives_the_matching_articles() {
    let news = fetch_coingecko_news(
        body(r#"{"data": [{"title": "Bitcoin Hits New High", "source": "Desk"}, {"title": "Ether"}]}"#),
        "bitcoin",
    )
    .unwrap();
    assert_eq!(
        news,
        vec![NewsArticle {
            title: "Bitcoin Hits New High".to_string(),
            source: Some("Desk".to_string()),
            date: None,
            summary: None,
            link: None,
        }]
    );
}

#[test]
fn json_body_without_match_is_success_with_no_records() {
    let news = fetch_coingecko_news(body(r#"{"data": [{"title": "Ether"}]}"#), "bitcoin");
    assert_eq!(news.unwrap(), vec![]);
}

#[test]
fn json_body_without_list_is_success_with_no_records() {
    assert_eq!(fetch_coingecko_news(body("{}"), "bitcoin").unwrap(), vec![]);
    assert_eq!(fetch_coingecko_news(body(r#"{"error": "rate limited"}"#), "").unwrap(), vec![]);
}

#[test]
fn feed_tells_a_missing_list_from_an_empty_one() {
    assert_eq!(coingecko_feed(body("{}")).unwrap(), None);
    assert_eq!(coingecko_feed(body(r#"{"data": []}"#)).unwrap(), Some(vec![]));
}

#[test]
fn feed_reports_both_failures() {
    assert!(matches!(coingecko_feed(Err("timeout".to_string())), Err(FetchError::Transport(ref cause)) if cause == "timeout"));
    assert!(matches!(coingecko_feed(body("not json")), Err(FetchError::Parse(_))));
}

#[test]
fn select_from_feed_without_list_is_empty() {
    assert!(select_from_feed(None, "").is_empty());
    let raw = RawArticle {
        title: Some("Bitcoin".to_string()),
        source: None,
        updated_at: None,
        description: None,
        url: None,
    };
    assert_eq!(select_from_feed(Some(vec![raw]), "bit").len(), 1);
}

#[test]
fn decode_parses_a_document() {
    let root = decode(b" {\"data\": [1, 2]} ").unwrap();
    assert_eq!(root, serde_json::from_str::<serde_json::Value>(r#"{"data":[1,2]}"#).unwrap());
    assert!(matches!(decode(b"nope"), Err(FetchError::Parse(_))));
}

#[test]
fn request_is_the_fixed_get() {
    let request = coingecko_request();
    assert_eq!(request.url, "https://api.coingecko.com/api/v3/news");
    assert_eq!(request.accept, "application/json");
}

#[test]
fn fetch_error_converts_into_app_error() {
    let error = AppError::from(FetchError::Transport("down".to_string()));
    assert!(matches!(error, AppError::Fetch(FetchError::Transport(ref cause)) if cause == "down"));
}
