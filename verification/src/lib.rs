//! Client library for the QuickChart chart-rendering web service.
//!
//! A chart description plus optional rendering parameters are collected in a
//! [`QuickchartClient`]; from that state the library builds a GET URL
//! ([`QuickchartClient::get_url`]) or a JSON request body
//! ([`QuickchartClient::build_json_body`]) for the service's POST endpoints,
//! and interprets the service's responses ([`extract_short_url`],
//! [`render_response`]).

mod client;
mod jsonio;
mod laws;
mod text;

pub use client::{
    chart_endpoint_url, compact_chart, create_endpoint_url, extract_short_url, render_response,
    QCError, QuickchartClient,
};
pub use laws::{
    lemma_chart_url_starts_with_endpoint, lemma_compact_chart_collapses,
    lemma_pct_all_no_whitespace,
};
pub use text::{
    collapse_whitespace, json_quote, pct_encode, space_collapsed, strip_quotes, u64_to_dec,
};
