use crawler::pipeline::ask_policy;
use crawler::robots::Policy;

#[test]
fn policy_disallows_what_robots_txt_disallows() {
    let policy = Policy::new("testbot", "User-agent: *\nDisallow: /private").expect("a policy");
    assert!(!policy.allowed("http://example.test/private"));
    assert!(!policy.allowed("http://example.test/private/page.html"));
    assert!(policy.allowed("http://example.test/public"));
    assert!(policy.allowed("http://example.test/"));
}

#[test]
fn policy_follows_the_agent_group() {
    let text = "User-agent: testbot\nDisallow: /\n\nUser-agent: *\nAllow: /";
    assert!(!Policy::new("testbot", text).expect("a policy").allowed("http://example.test/a"));
    assert!(Policy::new("otherbot", text).expect("a policy").allowed("http://example.test/a"));
}

#[test]
fn policy_allows_all() {
    let policy = Policy::new("testbot", "User-agent: *\nAllow: /").expect("a policy");
    assert!(policy.allowed("http://example.test/anything?x=1"));
}

#[test]
fn policy_answers_for_the_url() {
    let text = "User-agent: *\nDisallow: /private";
    assert_eq!(ask_policy("testbot", text, "http://example.test/private/x"), Some(false));
    assert_eq!(ask_policy("testbot", text, "http://example.test/open"), Some(true));
}

#[test]
fn policy_that_cannot_be_read_is_none() {
    let text = format!("User-agent: *\nDisallow: /{}$", "x*".repeat(50000));
    assert!(Policy::new("testbot", &text).is_none());
    assert_eq!(ask_policy("testbot", &text, "http://example.test/"), None);
}
