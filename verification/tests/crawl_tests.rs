use doccrawl::crawl::CrawlAction;
use doccrawl::crawl::CrawlEvent;
use doccrawl::crawl::CrawlRun;
use doccrawl::crawl::PageOutcome;
use doccrawl::crawl::resolve_directory_name;
use doccrawl::error::CrawlError;
use doccrawl::schema::Metadata;
use doccrawl::schema::ScrapeData;

fn empty_metadata() -> Metadata {
    Metadata {
        title: None,
        description: None,
        language: None,
        source_url: None,
        status_code: Some(200),
        error: None,
    }
}

fn links_data(links: &[&str]) -> ScrapeData {
    ScrapeData {
        markdown: None,
        html: None,
        raw_html: None,
        screenshot: None,
        links: Some(links.iter().map(|s| s.to_string()).collect()),
        metadata: empty_metadata(),
        warning: None,
    }
}

fn markdown_data(title: Option<&str>, markdown: Option<&str>) -> ScrapeData {
    let mut metadata = empty_metadata();
    metadata.title = title.map(|s| s.to_string());
    ScrapeData {
        markdown: markdown.map(|s| s.to_string()),
        html: None,
        raw_html: None,
        screenshot: None,
        links: None,
        metadata,
        warning: None,
    }
}

#[test]
fn resolves_the_directory_from_the_domain() {
    assert_eq!(resolve_directory_name("https://docs.example.com/page").unwrap(), "docs_example_com");
    assert!(matches!(resolve_directory_name("garbage"), Err(CrawlError::MalformedUrl)));
}

#[test]
fn a_run_starts_by_creating_the_domain_directory() {
    let (run, action) = CrawlRun::new("https://docs.example.com").unwrap();
    match action {
        CrawlAction::CreateDirectory { name } => assert_eq!(name, "docs_example_com"),
        _ => panic!("expected a directory action"),
    }
    assert_eq!(run.directory, "docs_example_com");
}

#[test]
fn a_run_refuses_a_start_url_without_domain() {
    assert!(matches!(CrawlRun::new("no url at all"), Err(CrawlError::MalformedUrl)));
    assert!(matches!(CrawlRun::new("https://10.0.0.8/docs"), Err(CrawlError::NoDomain)));
}

#[test]
fn directory_failure_is_fatal() {
    let (mut run, _) = CrawlRun::new("https://docs.example.com").unwrap();
    let action = run.step(CrawlEvent::DirectoryFailed { message: "denied".to_string() });
    match action {
        CrawlAction::Finish { result } => {
            assert!(matches!(result, Err(CrawlError::DirectoryCreationFailed { .. })));
        },
        _ => panic!("expected the run to end"),
    }
}

#[test]
fn links_failure_is_fatal() {
    let (mut run, _) = CrawlRun::new("https://docs.example.com").unwrap();
    run.step(CrawlEvent::DirectoryMade);
    let action = run.step(CrawlEvent::LinksFetchFailed { message: "status 500".to_string() });
    match action {
        CrawlAction::Finish { result } => {
            assert!(matches!(result, Err(CrawlError::LinkDiscoveryFailed { .. })));
        },
        _ => panic!("expected the run to end"),
    }
}

#[test]
fn a_response_without_links_ends_the_run_successfully() {
    let (mut run, _) = CrawlRun::new("https://docs.example.com").unwrap();
    run.step(CrawlEvent::DirectoryMade);
    let mut data = links_data(&[]);
    data.links = None;
    let action = run.step(CrawlEvent::LinksFetched { data });
    assert!(matches!(action, CrawlAction::Finish { result: Ok(()) }));
}

#[test]
fn discovery_merges_fragments_and_drops_other_domains() {
    let (mut run, _) = CrawlRun::new("https://docs.example.com").unwrap();
    let action = run.step(CrawlEvent::DirectoryMade);
    match action {
        CrawlAction::FetchLinks { url } => assert_eq!(url, "https://docs.example.com"),
        _ => panic!("expected a links request"),
    }
    let data = links_data(&[
        "https://docs.example.com/a",
        "https://docs.example.com/a#section",
        "https://docs.example.com/b",
        "https://other.com/c",
    ]);
    let mut action = run.step(CrawlEvent::LinksFetched { data });
    let mut fetched: Vec<String> = Vec::new();
    let mut written: Vec<String> = Vec::new();
    loop {
        match action {
            CrawlAction::FetchPage { url } => {
                fetched.push(url);
                action = run.step(CrawlEvent::PageFetched {
                    data: markdown_data(Some("Title"), Some("body")),
                });
            },
            CrawlAction::WriteFile { directory, filename, content } => {
                assert_eq!(directory, "docs_example_com");
                assert!(content.ends_with("body"));
                written.push(filename);
                action = run.step(CrawlEvent::FileWritten);
            },
            CrawlAction::Finish { result } => {
                assert!(result.is_ok());
                break;
            },
            _ => panic!("unexpected action during page processing"),
        }
    }
    fetched.sort();
    assert_eq!(fetched, vec![
        "https://docs.example.com/a".to_string(),
        "https://docs.example.com/b".to_string(),
    ]);
    assert_eq!(written.len(), 2);
    assert_eq!(run.reports.len(), 2);
    assert!(run.reports.iter().all(|r| matches!(r.outcome, PageOutcome::Saved { .. })));
}

#[test]
fn one_failing_page_does_not_end_the_run() {
    let (mut run, _) = CrawlRun::new("https://docs.example.com").unwrap();
    run.step(CrawlEvent::DirectoryMade);
    let data = links_data(&["https://docs.example.com/a", "https://docs.example.com/b"]);
    let mut action = run.step(CrawlEvent::LinksFetched { data });
    let mut failed_once = false;
    let mut written: Vec<String> = Vec::new();
    loop {
        match action {
            CrawlAction::FetchPage { url: _ } => {
                if failed_once {
                    action = run.step(CrawlEvent::PageFetched {
                        data: markdown_data(Some("Kept Page"), Some("survives")),
                    });
                } else {
                    failed_once = true;
                    action = run.step(CrawlEvent::PageFetchFailed {
                        message: "transport failure".to_string(),
                    });
                }
            },
            CrawlAction::WriteFile { filename, .. } => {
                written.push(filename);
                action = run.step(CrawlEvent::FileWritten);
            },
            CrawlAction::Finish { result } => {
                assert!(result.is_ok(), "a page failure must not end the run");
                break;
            },
            _ => panic!("unexpected action during page processing"),
        }
    }
    assert_eq!(written, vec!["Kept_Page.md".to_string()]);
    assert_eq!(run.reports.len(), 2);
    assert!(matches!(run.reports[0].outcome, PageOutcome::FetchFailed { .. }));
    assert!(matches!(run.reports[1].outcome, PageOutcome::Saved { .. }));
}

#[test]
fn a_page_without_markdown_is_skipped_but_processed() {
    let (mut run, _) = CrawlRun::new("https://docs.example.com").unwrap();
    run.step(CrawlEvent::DirectoryMade);
    let data = links_data(&["https://docs.example.com/a"]);
    let action = run.step(CrawlEvent::LinksFetched { data });
    assert!(matches!(action, CrawlAction::FetchPage { .. }));
    let action = run.step(CrawlEvent::PageFetched { data: markdown_data(Some("T"), None) });
    assert!(matches!(action, CrawlAction::Finish { result: Ok(()) }));
    assert_eq!(run.reports.len(), 1);
    assert!(matches!(run.reports[0].outcome, PageOutcome::NoContent));
}

#[test]
fn a_failed_write_is_recorded_and_the_run_goes_on() {
    let (mut run, _) = CrawlRun::new("https://docs.example.com").unwrap();
    run.step(CrawlEvent::DirectoryMade);
    let data = links_data(&["https://docs.example.com/a"]);
    run.step(CrawlEvent::LinksFetched { data });
    let action = run.step(CrawlEvent::PageFetched {
        data: markdown_data(Some("T"), Some("body")),
    });
    assert!(matches!(action, CrawlAction::WriteFile { .. }));
    let action = run.step(CrawlEvent::FileWriteFailed { message: "disk full".to_string() });
    assert!(matches!(action, CrawlAction::Finish { result: Ok(()) }));
    assert_eq!(run.reports.len(), 1);
    assert!(matches!(run.reports[0].outcome, PageOutcome::WriteFailed { .. }));
}

#[test]
fn page_warnings_reach_the_report() {
    let (mut run, _) = CrawlRun::new("https://docs.example.com").unwrap();
    run.step(CrawlEvent::DirectoryMade);
    let data = links_data(&["https://docs.example.com/a"]);
    run.step(CrawlEvent::LinksFetched { data });
    let mut page = markdown_data(Some("T"), Some("body"));
    page.warning = Some("paywall hit".to_string());
    let action = run.step(CrawlEvent::PageFetched { data: page });
    assert!(matches!(action, CrawlAction::WriteFile { .. }));
    run.step(CrawlEvent::FileWritten);
    assert_eq!(run.reports[0].warning.as_deref(), Some("paywall hit"));
}
