//! Cryptocurrency news aggregation.
//!
//! The crate turns the JSON answer of a news provider into uniform
//! [`NewsArticle`] records, keeps the records whose title mentions the asset
//! a reader asked for, and renders the result as a plain-text report.
//!
//! The crate does no input or output. A caller sends the request that
//! [`api::coingecko_request`] describes and hands what came back to
//! [`fetch_coingecko_news`], or hands the typed line and the outcome of the
//! exchange to [`report::run`] for the whole report.
//!
//! Every function has a contract, and Verus proves each of them but for the
//! few wrappers in [`json`] and [`text`] that call into `serde_json` and the
//! standard library.

pub mod api;
pub mod error;
pub mod json;
pub mod models;
pub mod normalizer;
pub mod report;
pub mod text;

pub use api::{fetch_coingecko_news, fetch_coinmarketcap_news};
pub use error::{AppError, FetchError};
pub use models::{ArticleView, NewsArticle, RawArticle, RawArticleView};
