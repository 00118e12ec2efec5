//! The request and response shapes of the remote extraction engine.
//!
//! These are plain data. The crate never talks to the network itself: the
//! caller sends requests built from these values and hands the decoded
//! response data back in.

use vstd::prelude::*;

verus! {

/// An interaction step the remote engine can perform on a page before
/// extracting content.
pub enum Action {
    /// Wait for a duration in milliseconds, or for an element to appear.
    Wait { milliseconds: Option<u32>, selector: Option<String> },
    /// Take a screenshot of the page, or of one element.
    Screenshot { selector: Option<String> },
    /// Click the element matching the selector.
    Click { selector: String },
    /// Write text into the element matching the selector.
    WriteText { selector: String, text: String },
    /// Press a keyboard key.
    PressKey { key: String },
    /// Scroll by a number of pixels, negative for up.
    Scroll { pixels: i32 },
    /// Extract content from the element matching the selector.
    Scrape { selector: String },
    /// Run a piece of JavaScript on the page.
    ExecuteJavaScript { script: String },
}

/// Geographical and language preferences for a request.
pub struct Location {
    /// ISO 3166-1 alpha-2 country code of the request origin.
    pub country: Option<String>,
    /// Preferred languages, in order of priority.
    pub languages: Option<Vec<String>>,
}

/// Metadata the engine reports about a scraped page.
pub struct Metadata {
    /// The page title, when one was found.
    pub title: Option<String>,
    /// The page description from its meta tags.
    pub description: Option<String>,
    /// The page language.
    pub language: Option<String>,
    /// The URL the content was scraped from.
    pub source_url: Option<String>,
    /// The HTTP status code of the page request.
    pub status_code: Option<i32>,
    /// An error message, when scraping failed on the remote side.
    pub error: Option<String>,
}

/// The content and metadata returned for one page.
pub struct ScrapeData {
    /// The markdown rendering of the page, when requested and available.
    pub markdown: Option<String>,
    /// The cleaned HTML rendering.
    pub html: Option<String>,
    /// The raw HTML of the page.
    pub raw_html: Option<String>,
    /// A base64-encoded screenshot.
    pub screenshot: Option<String>,
    /// The URLs found on the page, when requested.
    pub links: Option<Vec<String>>,
    /// Metadata about the page; always present.
    pub metadata: Metadata,
    /// A warning from the scraping process, such as a partial render.
    pub warning: Option<String>,
}

/// One response of the remote engine's scrape endpoint.
pub struct ScrapeResponse {
    /// Whether the engine reports the request as successful.
    pub success: bool,
    /// The scraped content and metadata.
    pub data: ScrapeData,
}

} // verus!
