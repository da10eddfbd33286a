use crawler::address::SiteUrl;
use crawler::helper::normalize_url;

fn normalized(text: &str) -> String {
    let mut url = SiteUrl::parse(text).expect("a URL");
    normalize_url(&mut url);
    url.as_str().to_string()
}

#[test]
fn normalize_strips_query_and_fragment() {
    assert_eq!(normalized("http://example.test/b?x=1#frag"), "http://example.test/b");
}

#[test]
fn normalize_strips_fragment_alone() {
    assert_eq!(normalized("http://example.test/a#top"), "http://example.test/a");
}

#[test]
fn normalize_strips_query_alone() {
    assert_eq!(normalized("http://example.test/a?utm=1&x=2"), "http://example.test/a");
}

#[test]
fn normalize_keeps_scheme_host_port_and_path() {
    assert_eq!(
        normalized("https://user@example.test:8443/a/b/c.html?q#f"),
        "https://user@example.test:8443/a/b/c.html"
    );
}

#[test]
fn normalize_leaves_a_normalized_url_unchanged() {
    assert_eq!(normalized("http://example.test/a"), "http://example.test/a");
}

#[test]
fn normalize_is_idempotent() {
    for text in [
        "http://example.test/b?x=1#frag",
        "http://example.test/",
        "http://example.test/a#",
        "http://example.test/a?",
        "data:text/plain,hello #frag",
        "data:text/plain,a  ?q  #f ",
        "file:///tmp/x?y#z",
        "http://example.test/a b?c d#e f",
        "mailto:someone@example.test?subject=a#b",
        "http://example.test/?x#y?z#w",
    ] {
        let once = normalized(text);
        assert_eq!(normalized(&once), once);
    }
}

#[test]
fn parse_reads_the_serialization() {
    let url = SiteUrl::parse("HTTP://Example.TEST").expect("a URL");
    assert_eq!(url.as_str(), "http://example.test/");
    assert!(SiteUrl::parse("no url").is_none());
    assert!(SiteUrl::parse("/relative").is_none());
}

#[test]
fn join_resolves_against_the_base() {
    let base = SiteUrl::parse("http://example.test/dir/page.html").expect("a URL");
    assert_eq!(base.join("/robots.txt").expect("a URL").as_str(), "http://example.test/robots.txt");
    assert_eq!(base.join("other.html").expect("a URL").as_str(), "http://example.test/dir/other.html");
    assert_eq!(base.join("http://else.test/x").expect("a URL").as_str(), "http://else.test/x");
    assert!(base.join("http://[broken").is_none());
}

#[test]
fn url_parts_are_read() {
    let url = SiteUrl::parse("http://example.test/a?x=1#f").expect("a URL");
    assert!(url.has_query());
    assert!(url.has_fragment());
    assert_eq!(url.host_str(), Some("example.test".to_string()));
    assert_eq!(url.without_fragment().as_str(), "http://example.test/a?x=1");
    assert_eq!(url.without_query().as_str(), "http://example.test/a#f");
    let bare = SiteUrl::parse("http://example.test/a").expect("a URL");
    assert!(!bare.has_query());
    assert!(!bare.has_fragment());
    assert!(bare.reads(&"http://example.test/a".to_string()));
    assert!(!bare.reads(&"http://example.test/b".to_string()));
    assert_eq!(SiteUrl::parse("data:text/plain,x").expect("a URL").host_str(), None);
    assert_eq!(bare.duplicate().into_text(), "http://example.test/a");
}
