//! Price discovery over retailer search pages: search URLs, request headers,
//! price, title and link extraction, the cache-aside rules, the per-site
//! scrape state machine and the choice of the best offer.
//!
//! Prices are whole cents (`u64`); texts are `String`s whose bytes the
//! contracts speak of.

pub mod agent;
pub mod cache;
pub mod collect;
pub mod envelope;
pub mod extract;
pub mod median;
pub mod model;
pub mod outside;
pub mod page;
pub mod price;
pub mod scrape;
pub mod select;
pub mod text;
pub mod urls;
