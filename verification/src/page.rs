//! Page persistence planning: the output filename, the frontmatter block and
//! the artifact content for one fetched page.
//!
//! Planning is pure; the caller performs the one write the plan asks for.

use vstd::prelude::*;
use vstd::string::StringExecFns;
use crate::sanitize::sanitize_filename;
use crate::sanitize::sanitized;
use crate::schema::ScrapeData;

verus! {

/// Whether metadata carries a usable title: present and non-empty.
pub open spec fn spec_has_title(title: Option<Seq<char>>) -> bool {
    title matches Some(t) && t.len() > 0
}

/// The output filename for one page: the sanitized title with extension
/// `.md`; without a usable title, `page_` followed by the sanitized URL.
pub open spec fn spec_filename(title: Option<Seq<char>>, url: Seq<char>) -> Seq<char> {
    if spec_has_title(title) {
        sanitized(title->0) + ".md"@
    } else {
        "page_"@ + sanitized(url) + ".md"@
    }
}

/// The frontmatter block: a `---` delimited header holding the title line
/// (omitted when the response has no title), the source URL line (omitted
/// when the response has none) and the scrape timestamp, followed by a blank
/// line.
pub open spec fn spec_frontmatter(
    title: Option<Seq<char>>,
    source_url: Option<Seq<char>>,
    timestamp: Seq<char>,
) -> Seq<char> {
    "---\n"@ + (match title {
        Some(t) => "title: \""@ + t + "\"\n"@,
        None => Seq::<char>::empty(),
    }) + (match source_url {
        Some(u) => "url: \""@ + u + "\"\n"@,
        None => Seq::<char>::empty(),
    }) + "scrapeDate: "@ + timestamp + "\n"@ + "---\n\n"@
}

/// The file content for one page: frontmatter followed by the markdown body;
/// nothing when the response carries no markdown.
pub open spec fn spec_content(
    title: Option<Seq<char>>,
    source_url: Option<Seq<char>>,
    markdown: Option<Seq<char>>,
    timestamp: Seq<char>,
) -> Option<Seq<char>> {
    match markdown {
        Some(m) => Some(spec_frontmatter(title, source_url, timestamp) + m),
        None => None,
    }
}

/// Everything the caller must do for one fetched page: which file to write
/// under the output directory, with what content, and which warning to
/// surface. `content` is `None` when the response carried no markdown: no
/// file is written and the page still counts as processed.
pub struct PagePlan {
    /// The filename of the artifact, already sanitized.
    pub filename: String,
    /// The full file content, or `None` when there is nothing to write.
    pub content: Option<String>,
    /// The engine's warning for this page, to surface as a diagnostic.
    pub warning: Option<String>,
}

/// Builds the frontmatter block for one page from its metadata and the
/// timestamp of the write.
pub fn build_frontmatter(
    title: &Option<String>,
    source_url: &Option<String>,
    timestamp: &str,
) -> (r: String)
    ensures
        r@ == spec_frontmatter(title.deep_view(), source_url.deep_view(), timestamp@),
{
    let mut out = String::from_str("---\n");
    if let Some(t) = title {
        out.append("title: \"");
        out.append(t.as_str());
        out.append("\"\n");
    }
    if let Some(u) = source_url {
        out.append("url: \"");
        out.append(u.as_str());
        out.append("\"\n");
    }
    out.append("scrapeDate: ");
    out.append(timestamp);
    out.append("\n");
    out.append("---\n\n");
    proof {
        assert(out@ =~= spec_frontmatter(title.deep_view(), source_url.deep_view(), timestamp@));
    }
    out
}

/// Relies on std's `SystemTime::now` and chrono's `DateTime::from_timestamp`
/// and `DateTime::to_rfc3339`: the current UTC time in RFC 3339 form, or
/// `None` when the system clock reads before the Unix epoch or beyond
/// chrono's representable range, so that no clock reading can panic here.
/// A returned timestamp is never empty; nothing more is assumed of its
/// value: planning is verified for every timestamp string.
#[verifier::external_body]
fn now_rfc3339() -> (r: Option<String>)
    ensures
        r matches Some(s) ==> s@.len() > 0,
{
    match std::time::SystemTime::now().duration_since(std::time::UNIX_EPOCH) {
        Ok(d) => {
            match chrono::DateTime::<chrono::Utc>::from_timestamp(
                d.as_secs() as i64,
                d.subsec_nanos(),
            ) {
                Some(t) => Some(t.to_rfc3339()),
                None => None,
            }
        },
        Err(_) => None,
    }
}

/// Plans the artifact for one page from the response data and the timestamp
/// of the write: filename by the title-then-URL fallback chain, content as
/// frontmatter plus markdown (absent markdown means nothing to write), and
/// the engine's warning passed through.
pub fn plan_page(url: &str, data: &ScrapeData, timestamp: &str) -> (r: PagePlan)
    ensures
        r.filename@ == spec_filename(data.metadata.title.deep_view(), url@),
        r.content.deep_view() == spec_content(
            data.metadata.title.deep_view(),
            data.metadata.source_url.deep_view(),
            data.markdown.deep_view(),
            timestamp@,
        ),
        r.warning == data.warning,
{
    let has_title = match &data.metadata.title {
        Some(t) => !t.as_str().is_empty(),
        None => false,
    };
    let filename = if has_title {
        let t = match &data.metadata.title {
            Some(t) => t.as_str(),
            None => "",
        };
        sanitize_filename(t).concat(".md")
    } else {
        String::from_str("page_").concat(sanitize_filename(url).as_str()).concat(".md")
    };
    let content = match &data.markdown {
        Some(m) => {
            let fm = build_frontmatter(&data.metadata.title, &data.metadata.source_url, timestamp);
            Some(fm.concat(m.as_str()))
        },
        None => None,
    };
    let warning = match &data.warning {
        Some(w) => Some(w.clone()),
        None => None,
    };
    PagePlan { filename, content, warning }
}

/// Plans the artifact for one page, stamping it with the current UTC time;
/// when the system clock is unusable, the epoch timestamp stands in.
///
/// The filename, the presence of content and the warning do not depend on
/// the clock; the content is the planned artifact for a non-empty timestamp
/// string, the moment of the call whenever the clock could be read.
pub fn plan_page_now(url: &str, data: &ScrapeData) -> (r: PagePlan)
    ensures
        r.filename@ == spec_filename(data.metadata.title.deep_view(), url@),
        r.content is Some <==> data.markdown is Some,
        exists|ts: Seq<char>|
            ts.len() > 0 && r.content.deep_view() == #[trigger] spec_content(
                data.metadata.title.deep_view(),
                data.metadata.source_url.deep_view(),
                data.markdown.deep_view(),
                ts,
            ),
        r.warning == data.warning,
{
    let ts = match now_rfc3339() {
        Some(t) => t,
        None => String::from_str("1970-01-01T00:00:00+00:00"),
    };
    proof {
        reveal_strlit("1970-01-01T00:00:00+00:00");
        assert(ts@.len() > 0);
    }
    let r = plan_page(url, data, ts.as_str());
    proof {
        assert(r.content.deep_view() == spec_content(
            data.metadata.title.deep_view(),
            data.metadata.source_url.deep_view(),
            data.markdown.deep_view(),
            ts@,
        ));
    }
    r
}

} // verus!
