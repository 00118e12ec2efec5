use doccrawl::error::CrawlError;
use doccrawl::urls::extract_domain;
use doccrawl::urls::same_domain;
use doccrawl::urls::strip_fragment;

#[test]
fn extracts_the_domain() {
    assert_eq!(extract_domain("https://docs.example.com/page").unwrap(), "docs.example.com");
}

#[test]
fn subdomains_are_distinct_domains() {
    assert_eq!(extract_domain("https://example.com/").unwrap(), "example.com");
    assert!(!same_domain("https://example.com/", "https://docs.example.com/"));
}

#[test]
fn malformed_url_has_no_domain() {
    assert!(matches!(extract_domain("not a url"), Err(CrawlError::MalformedUrl)));
}

#[test]
fn ip_host_is_no_domain() {
    assert!(matches!(extract_domain("https://127.0.0.1/x"), Err(CrawlError::NoDomain)));
}

#[test]
fn same_domain_holds_for_equal_domains() {
    assert!(same_domain("https://docs.example.com/a", "https://docs.example.com/b#frag"));
    assert!(same_domain("https://docs.example.com", "https://docs.example.com/deep/path?q=1"));
}

#[test]
fn same_domain_rejects_other_domains() {
    assert!(!same_domain("https://docs.example.com/a", "https://other.com/page"));
    assert!(!same_domain("https://docs.example.com/a", "not a url"));
}

#[test]
fn strip_fragment_removes_only_the_fragment() {
    assert_eq!(
        strip_fragment("https://docs.example.com/a#section").unwrap(),
        "https://docs.example.com/a"
    );
}

#[test]
fn urls_differing_only_by_fragment_strip_to_the_same_form() {
    let pairs = [
        ("https://docs.example.com/a", "https://docs.example.com/a#section"),
        ("https://docs.example.com/?q=1", "https://docs.example.com/?q=1#x"),
        ("https://docs.example.com/b#one", "https://docs.example.com/b#two"),
    ];
    for (left, right) in pairs {
        assert_eq!(strip_fragment(left).unwrap(), strip_fragment(right).unwrap());
    }
}

#[test]
fn strip_fragment_fails_on_malformed_url() {
    assert!(matches!(strip_fragment("::not::a::url::"), Err(CrawlError::MalformedUrl)));
}

#[test]
fn error_messages_name_the_failure() {
    assert_eq!(
        CrawlError::MalformedUrl.message(),
        "start URL is not a well-formed absolute URL"
    );
    assert_eq!(CrawlError::NoDomain.message(), "start URL has no domain");
    let dir = CrawlError::DirectoryCreationFailed { message: "denied".to_string() };
    assert_eq!(dir.message(), "failed to create output directory: denied");
    let disc = CrawlError::LinkDiscoveryFailed { message: "status 500".to_string() };
    assert_eq!(disc.message(), "failed to discover links: status 500");
}
