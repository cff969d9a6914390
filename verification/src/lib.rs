//! A small client for a news headline service: it builds the request URL,
//! reads the JSON envelope of a reply, and turns the service's error codes
//! into typed errors. The byte transfer itself is left to the caller.

pub mod address;
pub mod article;
pub mod client;
pub mod endpoint;
pub mod envelope;
pub mod error;
pub mod json;
pub mod parts;
pub mod render;
pub mod text;

pub use article::{Article, NewsAPIResponse};
pub use client::{
    asks_for, build_url, interpret_reply, Header, NewsAPI, Reply, Request, Transport,
};
pub use endpoint::{Country, Endpoint};
pub use envelope::{check_status, parse_response, response_from_json};
pub use error::{map_response_err, NewsApiError};
pub use json::Json;
pub use render::render_articles;
