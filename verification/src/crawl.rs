//! Crawl orchestration: a linear state machine from resolving the output
//! directory, through one round of link discovery, to processing every
//! discovered page in turn.
//!
//! The machine only decides; the caller performs each returned
//! [`CrawlAction`] (create the directory, send a request, write a file) and
//! reports what happened as the next [`CrawlEvent`]. A page's failure is
//! recorded in that page's report and never ends the run: only directory
//! creation and link discovery are fatal.

use vstd::prelude::*;
use crate::discover::discover_links;
use crate::discover::spec_discovered;
use crate::error::CrawlError;
use crate::page::plan_page_now;
use crate::page::spec_content;
use crate::page::spec_filename;
use crate::sanitize::sanitize_filename;
use crate::sanitize::sanitized;
use crate::schema::ScrapeData;
use crate::urls::extract_domain;
use crate::urls::url_domain;
use crate::urls::url_parses;

verus! {

/// How processing one discovered link ended.
pub enum PageOutcome {
    /// The artifact was written under this filename in the output directory.
    Saved { filename: String },
    /// The response carried no markdown; nothing was written, and the page
    /// still counts as processed.
    NoContent,
    /// The extraction request for this page failed.
    FetchFailed { message: String },
    /// Writing the artifact failed.
    WriteFailed { message: String },
}

/// The record of one processed link.
pub struct PageReport {
    /// The discovered link this report is about.
    pub link: String,
    /// How its processing ended.
    pub outcome: PageOutcome,
    /// The engine's warning for this page, if it sent one.
    pub warning: Option<String>,
}

/// What the caller must do next.
pub enum CrawlAction {
    /// Ensure a directory of this name exists under the working directory,
    /// reusing it if already present; answer with `DirectoryMade` or
    /// `DirectoryFailed`.
    CreateDirectory { name: String },
    /// Request the links of this page from the extraction engine; answer
    /// with `LinksFetched` or `LinksFetchFailed`.
    FetchLinks { url: String },
    /// Request the markdown of this page from the extraction engine; answer
    /// with `PageFetched` or `PageFetchFailed`.
    FetchPage { url: String },
    /// Write the content to `directory/filename`, overwriting any existing
    /// file; answer with `FileWritten` or `FileWriteFailed`.
    WriteFile { directory: String, filename: String, content: String },
    /// The run is over, successfully or with the fatal error given.
    Finish { result: Result<(), CrawlError> },
}

/// What the caller reports back after performing an action.
pub enum CrawlEvent {
    /// The output directory exists.
    DirectoryMade,
    /// The output directory could not be created.
    DirectoryFailed { message: String },
    /// The links request succeeded, with the data of its response.
    LinksFetched { data: ScrapeData },
    /// The links request failed.
    LinksFetchFailed { message: String },
    /// The page request succeeded, with the data of its response.
    PageFetched { data: ScrapeData },
    /// The page request failed.
    PageFetchFailed { message: String },
    /// The artifact was written.
    FileWritten,
    /// The artifact could not be written.
    FileWriteFailed { message: String },
}

/// Where the run stands: which action's answer it is waiting for.
pub enum CrawlPhase {
    /// Waiting for the output directory.
    Resolving,
    /// Waiting for the links of the start page.
    Discovering,
    /// Waiting for the markdown of the current page.
    Fetching,
    /// Waiting for the current page's artifact to be written.
    Writing { filename: String, warning: Option<String> },
    /// The run is over.
    Finished { result: Result<(), CrawlError> },
}

/// One crawl run: the start URL, the resolved output directory, the
/// discovered links, and how far processing has come.
pub struct CrawlRun {
    /// The URL the crawl starts from.
    pub start_url: String,
    /// The sanitized per-domain output directory name.
    pub directory: String,
    /// Where the run stands.
    pub phase: CrawlPhase,
    /// The discovered links, fixed once discovery succeeds, processed in
    /// order.
    pub links: Vec<String>,
    /// The index of the link being processed.
    pub next: usize,
    /// One report per processed link, in processing order.
    pub reports: Vec<PageReport>,
}

/// Structural soundness of a run: while a page is being processed, `next`
/// points at a discovered link.
pub open spec fn wf_run(run: CrawlRun) -> bool {
    &&& run.next <= run.links.len()
    &&& (run.phase is Fetching || run.phase is Writing) ==> run.next < run.links.len()
}

/// Whether the event answers the action the run is waiting for.
pub open spec fn spec_expects(run: CrawlRun, ev: CrawlEvent) -> bool {
    match (run.phase, ev) {
        (CrawlPhase::Resolving, CrawlEvent::DirectoryMade) => true,
        (CrawlPhase::Resolving, CrawlEvent::DirectoryFailed { .. }) => true,
        (CrawlPhase::Discovering, CrawlEvent::LinksFetched { .. }) => true,
        (CrawlPhase::Discovering, CrawlEvent::LinksFetchFailed { .. }) => true,
        (CrawlPhase::Fetching, CrawlEvent::PageFetched { .. }) => true,
        (CrawlPhase::Fetching, CrawlEvent::PageFetchFailed { .. }) => true,
        (CrawlPhase::Writing { .. }, CrawlEvent::FileWritten) => true,
        (CrawlPhase::Writing { .. }, CrawlEvent::FileWriteFailed { .. }) => true,
        _ => false,
    }
}

/// The start URL and the output directory never change over a run.
pub open spec fn spec_keeps_target(pre: CrawlRun, post: CrawlRun) -> bool {
    &&& post.start_url == pre.start_url
    &&& post.directory == pre.directory
}

/// A fatal end: the run finishes with the error, nothing else changes, and
/// the caller is told to stop with that same error.
pub open spec fn spec_fatal(
    pre: CrawlRun,
    post: CrawlRun,
    action: CrawlAction,
    e: CrawlError,
) -> bool {
    &&& post.links == pre.links
    &&& post.next == pre.next
    &&& post.reports == pre.reports
    &&& post.phase == (CrawlPhase::Finished { result: Err::<(), CrawlError>(e) })
    &&& action == (CrawlAction::Finish { result: Err::<(), CrawlError>(e) })
}

/// One page is done: its report is appended, and the run moves to the next
/// link, or ends successfully after the last one. A page never ends the run
/// with a failure.
pub open spec fn spec_advanced(
    pre: CrawlRun,
    post: CrawlRun,
    action: CrawlAction,
    report: PageReport,
) -> bool {
    &&& spec_keeps_target(pre, post)
    &&& post.links == pre.links
    &&& post.next == pre.next + 1
    &&& post.reports@ == pre.reports@.push(report)
    &&& report.link == pre.links@[pre.next as int]
    &&& if pre.next + 1 < pre.links.len() {
        &&& post.phase is Fetching
        &&& (action matches CrawlAction::FetchPage { url } && url == pre.links@[pre.next as int
            + 1])
    } else {
        &&& post.phase == (CrawlPhase::Finished { result: Ok::<(), CrawlError>(()) })
        &&& action == (CrawlAction::Finish { result: Ok::<(), CrawlError>(()) })
    }
}

/// The full transition relation of a run: for each phase and the event that
/// answers it, what the new state and the returned action are.
pub open spec fn spec_step(
    pre: CrawlRun,
    ev: CrawlEvent,
    post: CrawlRun,
    action: CrawlAction,
) -> bool {
    spec_keeps_target(pre, post) && match (pre.phase, ev) {
        (CrawlPhase::Resolving, CrawlEvent::DirectoryMade) => {
            &&& post.links == pre.links
            &&& post.next == pre.next
            &&& post.reports == pre.reports
            &&& post.phase is Discovering
            &&& (action matches CrawlAction::FetchLinks { url } && url@ == pre.start_url@)
        },
        (CrawlPhase::Resolving, CrawlEvent::DirectoryFailed { message }) => spec_fatal(
            pre,
            post,
            action,
            CrawlError::DirectoryCreationFailed { message },
        ),
        (CrawlPhase::Discovering, CrawlEvent::LinksFetched { data }) => {
            let candidates = match data.links {
                Some(l) => l.deep_view(),
                None => Seq::<Seq<char>>::empty(),
            };
            if url_parses(pre.start_url@) && url_domain(pre.start_url@) is Some {
                &&& post.reports == pre.reports
                &&& post.next == 0
                &&& post.links.deep_view().no_duplicates()
                &&& post.links.deep_view().to_set() == spec_discovered(pre.start_url@, candidates)
                &&& if post.links.len() == 0 {
                    &&& post.phase == (CrawlPhase::Finished { result: Ok::<(), CrawlError>(()) })
                    &&& action == (CrawlAction::Finish { result: Ok::<(), CrawlError>(()) })
                } else {
                    &&& post.phase is Fetching
                    &&& (action matches CrawlAction::FetchPage { url } && url == post.links@[0])
                }
            } else {
                spec_fatal(
                    pre,
                    post,
                    action,
                    if url_parses(pre.start_url@) {
                        CrawlError::NoDomain
                    } else {
                        CrawlError::MalformedUrl
                    },
                )
            }
        },
        (CrawlPhase::Discovering, CrawlEvent::LinksFetchFailed { message }) => spec_fatal(
            pre,
            post,
            action,
            CrawlError::LinkDiscoveryFailed { message },
        ),
        (CrawlPhase::Fetching, CrawlEvent::PageFetched { data }) => {
            let link = pre.links@[pre.next as int];
            let title = data.metadata.title.deep_view();
            let source_url = data.metadata.source_url.deep_view();
            if data.markdown is Some {
                &&& post.links == pre.links
                &&& post.next == pre.next
                &&& post.reports == pre.reports
                &&& (post.phase matches CrawlPhase::Writing { filename, warning } && {
                    &&& filename@ == spec_filename(title, link@)
                    &&& warning == data.warning
                })
                &&& (action matches CrawlAction::WriteFile { directory, filename, content } && {
                    &&& directory@ == pre.directory@
                    &&& filename@ == spec_filename(title, link@)
                    &&& exists|ts: Seq<char>|
                        ts.len() > 0 && Some(content@) == #[trigger] spec_content(
                            title,
                            source_url,
                            data.markdown.deep_view(),
                            ts,
                        )
                })
            } else {
                spec_advanced(
                    pre,
                    post,
                    action,
                    (PageReport {
                        link,
                        outcome: PageOutcome::NoContent,
                        warning: data.warning,
                    }),
                )
            }
        },
        (CrawlPhase::Fetching, CrawlEvent::PageFetchFailed { message }) => spec_advanced(
            pre,
            post,
            action,
            (PageReport {
                link: pre.links@[pre.next as int],
                outcome: PageOutcome::FetchFailed { message },
                warning: None,
            }),
        ),
        (CrawlPhase::Writing { filename, warning }, CrawlEvent::FileWritten) => spec_advanced(
            pre,
            post,
            action,
            (PageReport {
                link: pre.links@[pre.next as int],
                outcome: PageOutcome::Saved { filename },
                warning,
            }),
        ),
        (CrawlPhase::Writing { filename: _, warning }, CrawlEvent::FileWriteFailed { message }) => spec_advanced(
            pre,
            post,
            action,
            (PageReport {
                link: pre.links@[pre.next as int],
                outcome: PageOutcome::WriteFailed { message },
                warning,
            }),
        ),
        _ => false,
    }
}

/// A page-scoped failure never ends the run: feeding a failed page fetch or
/// a failed artifact write into a run only records that page's report, and
/// the run moves on to the next link or to a successful end — never to a
/// fatal one.
pub proof fn lemma_page_failure_is_isolated(
    pre: CrawlRun,
    ev: CrawlEvent,
    post: CrawlRun,
    action: CrawlAction,
)
    requires
        wf_run(pre),
        spec_expects(pre, ev),
        spec_step(pre, ev, post, action),
        ev is PageFetchFailed || ev is FileWriteFailed,
    ensures
        !(post.phase matches CrawlPhase::Finished { result } && result is Err),
        !(action matches CrawlAction::Finish { result } && result is Err),
        post.next == pre.next + 1,
        post.reports@.len() == pre.reports@.len() + 1,
        post.links == pre.links,
{
}

/// Derives the output directory name for a start URL: its domain, sanitized
/// into a single safe path component.
///
/// Fails with `MalformedUrl` exactly when the start URL does not parse, and
/// with `NoDomain` exactly when it parses but carries no domain.
pub fn resolve_directory_name(start_url: &str) -> (r: Result<String, CrawlError>)
    ensures
        r is Ok <==> url_parses(start_url@) && url_domain(start_url@) is Some,
        r matches Ok(name) ==> name@ == sanitized(url_domain(start_url@)->0),
        r matches Err(e) ==> e == (if url_parses(start_url@) {
            CrawlError::NoDomain
        } else {
            CrawlError::MalformedUrl
        }),
{
    match extract_domain(start_url) {
        Ok(domain) => Ok(sanitize_filename(domain.as_str())),
        Err(e) => Err(e),
    }
}

fn clone_opt_string(o: &Option<String>) -> (r: Option<String>)
    ensures
        r == *o,
{
    match o {
        Some(s) => Some(s.clone()),
        None => None,
    }
}

impl CrawlRun {
    /// Starts a run: resolves the output directory name from the start URL
    /// and asks the caller to create that directory.
    ///
    /// Fails with `MalformedUrl` or `NoDomain` exactly as
    /// [`resolve_directory_name`] does: a start URL without a resolvable
    /// domain ends the run before any network activity.
    pub fn new(start_url: &str) -> (r: Result<(CrawlRun, CrawlAction), CrawlError>)
        ensures
            r is Ok <==> url_parses(start_url@) && url_domain(start_url@) is Some,
            r matches Ok((run, action)) ==> {
                &&& wf_run(run)
                &&& run.start_url@ == start_url@
                &&& run.directory@ == sanitized(url_domain(start_url@)->0)
                &&& run.phase is Resolving
                &&& run.links@ == Seq::<String>::empty()
                &&& run.next == 0
                &&& run.reports@ == Seq::<PageReport>::empty()
                &&& (action matches CrawlAction::CreateDirectory { name } && name@
                    == run.directory@)
            },
            r matches Err(e) ==> e == (if url_parses(start_url@) {
                CrawlError::NoDomain
            } else {
                CrawlError::MalformedUrl
            }),
    {
        let directory = match resolve_directory_name(start_url) {
            Ok(name) => name,
            Err(e) => { return Err(e) },
        };
        let run = CrawlRun {
            start_url: String::from_str(start_url),
            directory: directory.clone(),
            phase: CrawlPhase::Resolving,
            links: Vec::new(),
            next: 0,
            reports: Vec::new(),
        };
        Ok((run, CrawlAction::CreateDirectory { name: directory }))
    }

    /// Records one finished page and moves on: to fetching the next link, or
    /// to a successful end after the last one.
    fn advance(&mut self, report: PageReport) -> (action: CrawlAction)
        requires
            wf_run(*old(self)),
            old(self).next < old(self).links.len(),
            report.link == old(self).links@[old(self).next as int],
        ensures
            wf_run(*final(self)),
            spec_advanced(*old(self), *final(self), action, report),
    {
        self.reports.push(report);
        self.next = self.next + 1;
        if self.next < self.links.len() {
            self.phase = CrawlPhase::Fetching;
            CrawlAction::FetchPage { url: self.links[self.next].clone() }
        } else {
            self.phase = CrawlPhase::Finished { result: Ok(()) };
            CrawlAction::Finish { result: Ok(()) }
        }
    }

    /// Feeds the answer to the pending action into the run and returns what
    /// to do next.
    ///
    /// The transition taken is exactly [`spec_step`]: a failed directory or
    /// links request ends the run with its fatal error, while a failed page
    /// fetch or write only goes into that page's report and the run moves
    /// on.
    pub fn step(&mut self, event: CrawlEvent) -> (action: CrawlAction)
        requires
            wf_run(*old(self)),
            spec_expects(*old(self), event),
        ensures
            wf_run(*final(self)),
            spec_step(*old(self), event, *final(self), action),
    {
        match event {
            CrawlEvent::DirectoryMade => {
                self.phase = CrawlPhase::Discovering;
                CrawlAction::FetchLinks { url: self.start_url.clone() }
            },
            CrawlEvent::DirectoryFailed { message } => {
                let e = CrawlError::DirectoryCreationFailed { message };
                let copy = e.duplicate();
                self.phase = CrawlPhase::Finished { result: Err(e) };
                CrawlAction::Finish { result: Err(copy) }
            },
            CrawlEvent::LinksFetched { data } => {
                let ghost wanted = match &data.links {
                    Some(l) => l.deep_view(),
                    None => Seq::<Seq<char>>::empty(),
                };
                let candidates = match data.links {
                    Some(l) => l,
                    None => Vec::new(),
                };
                proof {
                    assert(candidates.deep_view() =~= wanted);
                }
                match discover_links(self.start_url.as_str(), &candidates) {
                    Ok(links) => {
                        self.links = links;
                        self.next = 0;
                        if self.links.len() == 0 {
                            self.phase = CrawlPhase::Finished { result: Ok(()) };
                            CrawlAction::Finish { result: Ok(()) }
                        } else {
                            self.phase = CrawlPhase::Fetching;
                            CrawlAction::FetchPage { url: self.links[0].clone() }
                        }
                    },
                    Err(e) => {
                        let copy = e.duplicate();
                        self.phase = CrawlPhase::Finished { result: Err(e) };
                        CrawlAction::Finish { result: Err(copy) }
                    },
                }
            },
            CrawlEvent::LinksFetchFailed { message } => {
                let e = CrawlError::LinkDiscoveryFailed { message };
                let copy = e.duplicate();
                self.phase = CrawlPhase::Finished { result: Err(e) };
                CrawlAction::Finish { result: Err(copy) }
            },
            CrawlEvent::PageFetched { data } => {
                let link = self.links[self.next].clone();
                let plan = plan_page_now(link.as_str(), &data);
                let ghost title = data.metadata.title.deep_view();
                let ghost source_url = data.metadata.source_url.deep_view();
                let ghost markdown = data.markdown.deep_view();
                let ghost planned = plan.content.deep_view();
                match plan.content {
                    Some(content) => {
                        proof {
                            assert(planned == Some(content@));
                            let ts = choose|ts: Seq<char>|
                                ts.len() > 0 && planned == #[trigger] spec_content(
                                    title,
                                    source_url,
                                    markdown,
                                    ts,
                                );
                            assert(ts.len() > 0 && Some(content@) == spec_content(
                                title,
                                source_url,
                                markdown,
                                ts,
                            ));
                        }
                        self.phase = CrawlPhase::Writing {
                            filename: plan.filename.clone(),
                            warning: plan.warning,
                        };
                        CrawlAction::WriteFile {
                            directory: self.directory.clone(),
                            filename: plan.filename,
                            content,
                        }
                    },
                    None => {
                        let report = PageReport {
                            link,
                            outcome: PageOutcome::NoContent,
                            warning: plan.warning,
                        };
                        self.advance(report)
                    },
                }
            },
            CrawlEvent::PageFetchFailed { message } => {
                let link = self.links[self.next].clone();
                let report = PageReport {
                    link,
                    outcome: PageOutcome::FetchFailed { message },
                    warning: None,
                };
                self.advance(report)
            },
            CrawlEvent::FileWritten => {
                let (filename, warning) = match &self.phase {
                    CrawlPhase::Writing { filename, warning } => (
                        filename.clone(),
                        clone_opt_string(warning),
                    ),
                    _ => {
                        proof {
                            assert(false);
                        }
                        (String::new(), None)
                    },
                };
                let link = self.links[self.next].clone();
                let report = PageReport {
                    link,
                    outcome: PageOutcome::Saved { filename },
                    warning,
                };
                self.advance(report)
            },
            CrawlEvent::FileWriteFailed { message } => {
                let warning = match &self.phase {
                    CrawlPhase::Writing { filename: _, warning } => clone_opt_string(warning),
                    _ => {
                        proof {
                            assert(false);
                        }
                        None
                    },
                };
                let link = self.links[self.next].clone();
                let report = PageReport {
                    link,
                    outcome: PageOutcome::WriteFailed { message },
                    warning,
                };
                self.advance(report)
            },
        }
    }
}

} // verus!
