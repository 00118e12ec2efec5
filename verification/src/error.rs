//! Fatal errors of a crawl run.
//!
//! Page-scoped failures never appear here: they are recorded per page by the
//! orchestrator and do not end a run.

use vstd::prelude::*;
use vstd::string::StringExecFns;

verus! {

/// An error that ends the whole run before any page is written.
#[derive(Debug)]
pub enum CrawlError {
    /// The start URL is not a well-formed absolute URL.
    MalformedUrl,
    /// The start URL parses but carries no domain component.
    NoDomain,
    /// The output directory could not be created.
    DirectoryCreationFailed { message: String },
    /// The one links request failed, so there is nothing to process.
    LinkDiscoveryFailed { message: String },
}

/// The human-readable form of each fatal error.
pub open spec fn spec_error_message(e: CrawlError) -> Seq<char> {
    match e {
        CrawlError::MalformedUrl => "start URL is not a well-formed absolute URL"@,
        CrawlError::NoDomain => "start URL has no domain"@,
        CrawlError::DirectoryCreationFailed { message } => "failed to create output directory: "@
            + message@,
        CrawlError::LinkDiscoveryFailed { message } => "failed to discover links: "@ + message@,
    }
}

impl CrawlError {
    /// An equal copy of the error.
    pub fn duplicate(&self) -> (r: CrawlError)
        ensures
            r == *self,
    {
        match self {
            CrawlError::MalformedUrl => CrawlError::MalformedUrl,
            CrawlError::NoDomain => CrawlError::NoDomain,
            CrawlError::DirectoryCreationFailed { message } => CrawlError::DirectoryCreationFailed {
                message: message.clone(),
            },
            CrawlError::LinkDiscoveryFailed { message } => CrawlError::LinkDiscoveryFailed {
                message: message.clone(),
            },
        }
    }

    /// A human-readable description of the error, for the caller to report.
    pub fn message(&self) -> (r: String)
        ensures
            r@ == spec_error_message(*self),
    {
        match self {
            CrawlError::MalformedUrl => String::from_str(
                "start URL is not a well-formed absolute URL",
            ),
            CrawlError::NoDomain => String::from_str("start URL has no domain"),
            CrawlError::DirectoryCreationFailed { message } => String::from_str(
                "failed to create output directory: ",
            ).concat(message.as_str()),
            CrawlError::LinkDiscoveryFailed { message } => String::from_str(
                "failed to discover links: ",
            ).concat(message.as_str()),
        }
    }
}

} // verus!
