use crawler::parser::first_of;
use crawler::parser::first_or_empty;
use crawler::parser::present_values;
use crawler::parser::Parser;

const PAGE: &str = "<html><head><title>Home</title>\
<meta property=\"og:description\" content=\"A page\">\
<meta property=\"description\" content=\"second\"></head>\
<body><a href=\"/a\">A</a><a name=\"x\">no target</a><a href=\"/b?x=1#frag\">B</a></body></html>";

#[test]
fn title_is_the_first_title_element() {
    assert_eq!(Parser::parse_title(PAGE), Some("Home".to_string()));
    assert_eq!(
        Parser::parse_title("<title>One</title><body><svg><title>Two</title></svg></body>"),
        Some("One".to_string())
    );
}

#[test]
fn title_may_be_missing() {
    assert_eq!(Parser::parse_title("<html><body><p>text</p></body></html>"), None);
    assert_eq!(Parser::parse_title(""), None);
}

#[test]
fn description_is_the_content_of_the_first_match() {
    assert_eq!(Parser::parse_desc(PAGE), Some("A page".to_string()));
}

#[test]
fn description_without_content_is_empty() {
    assert_eq!(
        Parser::parse_desc("<html><head><meta property=\"description\"></head></html>"),
        Some(String::new())
    );
}

#[test]
fn description_may_be_missing() {
    assert_eq!(Parser::parse_desc("<html><head><meta name=\"description\" content=\"x\"></head></html>"), None);
}

#[test]
fn links_are_the_targets_in_document_order() {
    assert_eq!(
        Parser::parse_urls(PAGE),
        Some(vec!["/a".to_string(), "/b?x=1#frag".to_string()])
    );
}

#[test]
fn links_of_a_page_without_anchors_are_none() {
    assert_eq!(Parser::parse_urls("<p>nothing</p>"), Some(vec![]));
}

#[test]
fn first_of_picks_the_first() {
    assert_eq!(first_of(&vec![]), None);
    assert_eq!(first_of(&vec!["x".to_string(), "y".to_string()]), Some("x".to_string()));
}

#[test]
fn first_or_empty_fills_an_absent_value() {
    assert_eq!(first_or_empty(&vec![]), None);
    assert_eq!(first_or_empty(&vec![None, Some("y".to_string())]), Some(String::new()));
    assert_eq!(first_or_empty(&vec![Some("x".to_string()), None]), Some("x".to_string()));
}

#[test]
fn present_values_drops_the_absent() {
    assert_eq!(present_values(&vec![]), Vec::<String>::new());
    assert_eq!(
        present_values(&vec![None, Some("a".to_string()), None, Some("b".to_string())]),
        vec!["a".to_string(), "b".to_string()]
    );
}
