//! A small client for a news-aggregation HTTP API: the request it sends is
//! built here, and the JSON envelope it gets back is mapped to articles or to
//! an error. The HTTP call itself is made by the caller.

pub mod error;
pub mod urls;
pub mod client;
pub mod json;
pub mod article;
pub mod render;

pub use article::{map_response, Article, NewsApiResponse};
pub use client::{Country, Endpoint, HttpRequest, NewsApi};
pub use error::NewsApiError;
pub use render::{render_articles, render_date};
