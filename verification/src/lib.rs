//! Verified core of a documentation-site crawler.
//!
//! The crate models the crawl of one documentation domain: normalizing and
//! domain-filtering URLs, deduplicating discovered links, naming and building
//! the markdown artifact for each page, and the step-by-step control flow of a
//! whole run. Network and filesystem effects are left to the caller, which
//! drives the crawl through [`crawl::CrawlRun`] by performing each returned
//! action and reporting its outcome back as an event.

pub mod crawl;
pub mod discover;
pub mod error;
pub mod page;
pub mod sanitize;
pub mod schema;
pub mod urls;
