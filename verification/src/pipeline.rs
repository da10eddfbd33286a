//! The fetch pipeline of one URL: the politeness check, the page, its links
//! and its document, as a sequence of decisions.
//!
//! The pipeline performs no I/O. Each function decides one step and says
//! what is to be done next; the caller performs the request and hands the
//! reply to the function of the next step. Between two steps the state is
//! free for other workers.

use crate::address::host_of;
use crate::address::joined;
use crate::address::parsed;
use crate::address::SiteUrl;
use crate::cache::has_key;
use crate::cache::lemma_stored_bounded;
use crate::cache::lemma_touched_bounded;
use crate::cache::stored;
use crate::cache::touched;
use crate::crawler::Crawler;
use crate::crawler::CrawlerView;
use crate::helper::is_normalized;
use crate::helper::normalize_url;
use crate::helper::normalized;
use crate::parser::description_of;
use crate::parser::links_of;
use crate::parser::title_of;
use crate::parser::Parser;
use crate::robots::verdict;
use crate::robots::Policy;
use crate::text::text_of;
use crate::text::texts;
use vstd::prelude::*;

verus! {

/// What is stored of a page that was visited.
#[derive(Debug, Clone)]
pub struct Document {
    /// The URL that the page came from in the end.
    pub url: String,
    /// The host of that URL, empty where it has none.
    pub host: String,
    /// The page's title, where it has one.
    pub title: Option<String>,
    /// The page's description, where it has one.
    pub description: Option<String>,
    /// When the page was visited, in seconds since the epoch.
    pub date: u64,
}

/// A document in contracts.
pub struct DocumentView {
    pub url: Seq<char>,
    pub host: Seq<char>,
    pub title: Option<Seq<char>>,
    pub description: Option<Seq<char>>,
    pub date: u64,
}

impl View for Document {
    type V = DocumentView;

    open spec fn view(&self) -> DocumentView {
        DocumentView {
            url: self.url@,
            host: self.host@,
            title: text_of(self.title),
            description: text_of(self.description),
            date: self.date,
        }
    }
}

/// How a request ended.
#[derive(Debug, Clone)]
pub enum FetchReply {
    /// A response, with the URL that it came from in the end and its body.
    Body { effective_url: String, body: String },
    /// The server answered with an error status.
    Status(u16),
    /// No answer: the connection failed or timed out.
    Failed,
}

/// A reply in contracts.
pub enum ReplyView {
    Body { effective_url: Seq<char>, body: Seq<char> },
    Status(u16),
    Failed,
}

impl View for FetchReply {
    type V = ReplyView;

    open spec fn view(&self) -> ReplyView {
        match self {
            FetchReply::Body { effective_url, body } => ReplyView::Body {
                effective_url: effective_url@,
                body: body@,
            },
            FetchReply::Status(code) => ReplyView::Status(*code),
            FetchReply::Failed => ReplyView::Failed,
        }
    }
}

/// Why the pipeline of a URL ended.
#[derive(Debug, Clone, Copy, PartialEq, Eq, Structural)]
pub enum Outcome {
    /// The text is no URL, or no robots.txt URL can be formed from it.
    /// Nothing is recorded.
    Malformed,
    /// The URL is in the dedup cache. Nothing is requested.
    Skipped,
    /// The request for robots.txt was redirected. Nothing is recorded.
    RobotsRedirected,
    /// The request for robots.txt met an error status. The URL is recorded
    /// as failed.
    RobotsRefused(u16),
    /// The request for robots.txt got no answer. The URL is recorded as
    /// failed.
    RobotsUnreachable,
    /// robots.txt is empty. Nothing is recorded.
    RobotsEmpty,
    /// robots.txt cannot be read. Nothing is recorded.
    RobotsUnreadable,
    /// robots.txt disallows the URL. Nothing is recorded.
    Disallowed,
    /// The page was redirected to what is no URL. Nothing is recorded.
    BadRedirect,
    /// The request for the page met an error status. The URL is recorded as
    /// failed.
    PageRefused(u16),
    /// The request for the page got no answer. The URL is recorded as
    /// failed.
    PageUnreachable,
    /// The page is empty. Nothing is recorded.
    PageEmpty,
    /// The page's document was stored, and the URL is recorded as done.
    Stored,
}

/// What the pipeline of a URL asks for next.
pub enum Step {
    /// Request `robots_url` in the name of `user_agent` and hand the reply
    /// to `robots_fetched`.
    FetchRobots { url: SiteUrl, robots_url: SiteUrl, user_agent: String },
    /// Request `url` in the name of `user_agent` and hand the reply to
    /// `page_fetched`.
    FetchPage { url: SiteUrl, user_agent: String },
    /// Store `document`, then call `document_stored`.
    Store { url: SiteUrl, document: Document },
    /// Nothing: the pipeline has ended.
    Done(Outcome),
}

/// A step in contracts.
pub enum StepView {
    FetchRobots { url: Seq<char>, robots_url: Seq<char>, user_agent: Seq<char> },
    FetchPage { url: Seq<char>, user_agent: Seq<char> },
    Store { url: Seq<char>, document: DocumentView },
    Done(Outcome),
}

impl View for Step {
    type V = StepView;

    open spec fn view(&self) -> StepView {
        match self {
            Step::FetchRobots { url, robots_url, user_agent } => StepView::FetchRobots {
                url: url@,
                robots_url: robots_url@,
                user_agent: user_agent@,
            },
            Step::FetchPage { url, user_agent } => StepView::FetchPage {
                url: url@,
                user_agent: user_agent@,
            },
            Step::Store { url, document } => StepView::Store { url: url@, document: document@ },
            Step::Done(outcome) => StepView::Done(*outcome),
        }
    }
}

/// What `process_site` decides for the text `input`: the state after it and
/// the step that it asks for.
pub open spec fn begun(state: CrawlerView, input: Seq<char>) -> (CrawlerView, StepView) {
    match parsed(input) {
        None => (state, StepView::Done(Outcome::Malformed)),
        Some(url) => {
            if has_key(state.cached, normalized(url)) {
                (
                    CrawlerView { cached: touched(state.cached, normalized(url)), ..state },
                    StepView::Done(Outcome::Skipped),
                )
            } else {
                match joined(url, "/robots.txt"@) {
                    None => (state, StepView::Done(Outcome::Malformed)),
                    Some(robots_url) => (
                        state,
                        StepView::FetchRobots { url, robots_url, user_agent: state.user_agent },
                    ),
                }
            }
        },
    }
}

/// What the policy's answer means for the pipeline of `url`, run in the
/// name of `user_agent`.
pub open spec fn judged(url: Seq<char>, user_agent: Seq<char>, verdict: Option<bool>) -> StepView {
    match verdict {
        None => StepView::Done(Outcome::RobotsUnreadable),
        Some(allowed) => if allowed {
            StepView::FetchPage { url, user_agent }
        } else {
            StepView::Done(Outcome::Disallowed)
        },
    }
}

/// What `robots_fetched` decides on the reply to the request for
/// `robots_url`, in the pipeline of `url`.
pub open spec fn after_robots(
    state: CrawlerView,
    url: Seq<char>,
    robots_url: Seq<char>,
    reply: ReplyView,
) -> (CrawlerView, StepView) {
    match reply {
        ReplyView::Body { effective_url, body } => {
            if effective_url != robots_url {
                (state, StepView::Done(Outcome::RobotsRedirected))
            } else if body.len() == 0 {
                (state, StepView::Done(Outcome::RobotsEmpty))
            } else {
                (state, judged(url, state.user_agent, verdict(state.user_agent, body, url)))
            }
        },
        ReplyView::Status(code) => (
            state.record(normalized(url), false),
            StepView::Done(Outcome::RobotsRefused(code)),
        ),
        ReplyView::Failed => (
            state.record(normalized(url), false),
            StepView::Done(Outcome::RobotsUnreachable),
        ),
    }
}

/// What the links of a page add to the frontier: each link that resolves
/// against `base`, normalized, in the order of the links. A link that does
/// not resolve is passed over.
pub open spec fn expanded(base: Seq<char>, links: Seq<Seq<char>>) -> Seq<Seq<char>>
    decreases links.len(),
{
    if links.len() == 0 {
        Seq::empty()
    } else {
        match joined(base, links.last()) {
            Some(target) => expanded(base, links.drop_last()).push(normalized(target)),
            None => expanded(base, links.drop_last()),
        }
    }
}

/// The host that a document names: the URL's host, empty where it has none.
pub open spec fn host_or_empty(url: Seq<char>) -> Seq<char> {
    match host_of(url) {
        Some(host) => host,
        None => Seq::empty(),
    }
}

/// The links that a page is expanded by: those that it holds, none where
/// they cannot be extracted.
pub open spec fn links_or_none(body: Seq<char>) -> Seq<Seq<char>> {
    match links_of(body) {
        Some(links) => links,
        None => Seq::empty(),
    }
}

/// The document of the page `body` that was found at `url` at the time
/// `now`.
pub open spec fn document_of(url: Seq<char>, body: Seq<char>, now: u64) -> DocumentView {
    DocumentView {
        url,
        host: host_or_empty(url),
        title: title_of(body),
        description: description_of(body),
        date: now,
    }
}

/// The URL that the pipeline goes on with after the page came from
/// `effective_url`: `url` itself where the request was not redirected, else
/// the URL that `effective_url` holds, if it holds one.
pub open spec fn redirected(url: Seq<char>, effective_url: Seq<char>) -> Option<Seq<char>> {
    if effective_url == url {
        Some(url)
    } else {
        parsed(effective_url)
    }
}

/// What `page_fetched` decides on the reply to the request for `url`.
pub open spec fn after_page(state: CrawlerView, url: Seq<char>, reply: ReplyView, now: u64) -> (
    CrawlerView,
    StepView,
) {
    match reply {
        ReplyView::Body { effective_url, body } => {
            match redirected(url, effective_url) {
                None => (state, StepView::Done(Outcome::BadRedirect)),
                Some(page) => {
                    if body.len() == 0 {
                        (state, StepView::Done(Outcome::PageEmpty))
                    } else {
                        (
                            CrawlerView {
                                frontier: state.frontier + expanded(page, links_or_none(body)),
                                ..state
                            },
                            StepView::Store { url: page, document: document_of(page, body, now) },
                        )
                    }
                },
            }
        },
        ReplyView::Status(code) => (
            state.record(normalized(url), false),
            StepView::Done(Outcome::PageRefused(code)),
        ),
        ReplyView::Failed => (
            state.record(normalized(url), false),
            StepView::Done(Outcome::PageUnreachable),
        ),
    }
}

/// The key under which a URL is kept in the dedup cache: its canonical form.
pub fn cache_key(url: &SiteUrl) -> (key: String)
    ensures
        key@ == normalized(url@),
{
    let mut canonical = url.duplicate();
    normalize_url(&mut canonical);
    canonical.into_text()
}

/// Goes on after the policy was asked: to the page where the visit is
/// allowed, to the end where it is not or where robots.txt cannot be read.
pub fn judge(url: SiteUrl, user_agent: String, verdict: Option<bool>) -> (step: Step)
    ensures
        step@ == judged(url@, user_agent@, verdict),
{
    match verdict {
        None => Step::Done(Outcome::RobotsUnreadable),
        Some(allowed) => if allowed {
            Step::FetchPage { url, user_agent }
        } else {
            Step::Done(Outcome::Disallowed)
        },
    }
}

/// Asks the site's policy: what `user_agent` may do with `url` by the
/// robots.txt text `body`.
pub fn ask_policy(user_agent: &str, body: &str, url: &str) -> (answer: Option<bool>)
    ensures
        answer == verdict(user_agent@, body@, url@),
{
    match Policy::new(user_agent, body) {
        Some(policy) => Some(policy.allowed(url)),
        None => None,
    }
}

/// Builds the document of a page from what was extracted of it.
pub fn compose_document(
    url: &SiteUrl,
    title: Option<String>,
    description: Option<String>,
    now: u64,
) -> (document: Document)
    ensures
        document@ == (DocumentView {
            url: url@,
            host: host_or_empty(url@),
            title: text_of(title),
            description: text_of(description),
            date: now,
        }),
{
    let host = match url.host_str() {
        Some(host) => host,
        None => String::new(),
    };
    Document { url: url.as_str().to_owned(), host, title, description, date: now }
}

impl Crawler {
    /// Begins the pipeline of one URL: reads it, skips it if the dedup cache
    /// holds its canonical form, and else asks for the site's robots.txt.
    /// A URL that the cache holds is never requested again.
    pub fn process_site(&mut self, url: &str) -> (step: Step)
        ensures
            (final(self)@, step@) == begun(old(self)@, url@),
            old(self)@.wf() ==> final(self)@.wf(),
    {
        let url = match SiteUrl::parse(url) {
            Some(url) => url,
            None => {
                return Step::Done(Outcome::Malformed);
            },
        };
        let key = cache_key(&url);
        if self.is_cache_contains(key.as_str()) {
            return Step::Done(Outcome::Skipped);
        }
        match url.join("/robots.txt") {
            Some(robots_url) => Step::FetchRobots {
                url,
                robots_url,
                user_agent: self.user_agent().to_owned(),
            },
            None => Step::Done(Outcome::Malformed),
        }
    }

    /// Takes the reply to the request for robots.txt. A redirected, empty
    /// or unreadable robots.txt and a disallowed URL end the pipeline and
    /// leave no trace; an error status or no answer ends it with the URL
    /// recorded as failed. Else the page is asked for.
    pub fn robots_fetched(&mut self, url: SiteUrl, robots_url: SiteUrl, reply: FetchReply) -> (step:
        Step)
        ensures
            (final(self)@, step@) == after_robots(old(self)@, url@, robots_url@, reply@),
            old(self)@.wf() ==> final(self)@.wf(),
    {
        match reply {
            FetchReply::Body { effective_url, body } => {
                if !robots_url.reads(&effective_url) {
                    Step::Done(Outcome::RobotsRedirected)
                } else if body.as_str().is_empty() {
                    Step::Done(Outcome::RobotsEmpty)
                } else {
                    let answer = ask_policy(self.user_agent(), body.as_str(), url.as_str());
                    judge(url, self.user_agent().to_owned(), answer)
                }
            },
            FetchReply::Status(code) => {
                self.put_cache(cache_key(&url), false);
                Step::Done(Outcome::RobotsRefused(code))
            },
            FetchReply::Failed => {
                self.put_cache(cache_key(&url), false);
                Step::Done(Outcome::RobotsUnreachable)
            },
        }
    }

    /// Puts on the frontier what the links of a page lead to: each link is
    /// resolved against `base` and normalized; one that does not resolve is
    /// passed over.
    pub fn expand_links(&mut self, base: &SiteUrl, links: &Vec<String>)
        ensures
            final(self)@ == (CrawlerView {
                frontier: old(self)@.frontier + expanded(base@, texts(links@)),
                ..old(self)@
            }),
    {
        let ghost start = self@;
        let ghost all = texts(links@);
        let mut i: usize = 0;
        while i < links.len()
            invariant
                i <= links.len(),
                all == texts(links@),
                self@ == (CrawlerView {
                    frontier: start.frontier + expanded(base@, all.subrange(0, i as int)),
                    ..start
                }),
            decreases links.len() - i,
        {
            assert(all.subrange(0, i + 1).drop_last() == all.subrange(0, i as int));
            match base.join(links[i].as_str()) {
                Some(mut target) => {
                    normalize_url(&mut target);
                    self.push_sites(target.into_text());
                },
                None => {},
            }
            i += 1;
        }
        assert(all.subrange(0, i as int) == all);
    }

    /// Takes the reply to the request for the page. An error status or no
    /// answer ends the pipeline with the URL recorded as failed; an empty
    /// page and a redirect to what is no URL end it and leave no trace.
    /// Else the pipeline goes on with the URL that the page came from in
    /// the end: the page's links are put on the frontier, and its document
    /// is handed out to be stored.
    pub fn page_fetched(&mut self, url: SiteUrl, reply: FetchReply, now: u64) -> (step: Step)
        ensures
            (final(self)@, step@) == after_page(old(self)@, url@, reply@, now),
            old(self)@.wf() ==> final(self)@.wf(),
    {
        match reply {
            FetchReply::Body { effective_url, body } => {
                let page = if url.reads(&effective_url) {
                    url
                } else {
                    match SiteUrl::parse(effective_url.as_str()) {
                        Some(page) => page,
                        None => {
                            return Step::Done(Outcome::BadRedirect);
                        },
                    }
                };
                if body.as_str().is_empty() {
                    return Step::Done(Outcome::PageEmpty);
                }
                let links = match Parser::parse_urls(body.as_str()) {
                    Some(links) => links,
                    None => Vec::new(),
                };
                let title = Parser::parse_title(body.as_str());
                let description = Parser::parse_desc(body.as_str());
                self.expand_links(&page, &links);
                let document = compose_document(&page, title, description, now);
                Step::Store { url: page, document }
            },
            FetchReply::Status(code) => {
                self.put_cache(cache_key(&url), false);
                Step::Done(Outcome::PageRefused(code))
            },
            FetchReply::Failed => {
                self.put_cache(cache_key(&url), false);
                Step::Done(Outcome::PageUnreachable)
            },
        }
    }

    /// Ends the pipeline of a page whose document was stored: the URL that
    /// the page came from in the end is recorded as done.
    pub fn document_stored(&mut self, url: SiteUrl) -> (step: Step)
        ensures
            final(self)@ == old(self)@.record(normalized(url@), true),
            step@ == StepView::Done(Outcome::Stored),
            old(self)@.wf() ==> final(self)@.wf(),
    {
        self.put_cache(cache_key(&url), true);
        Step::Done(Outcome::Stored)
    }
}

/// The steps of a pipeline come in their order, and each may be the last:
/// a pipeline begins with the request for robots.txt or ends at once, the
/// reply to it leads to the request for the page or to the end, and the
/// page's reply to its document or to the end. So a pipeline makes two
/// requests at most, and stores one document at most.
pub proof fn lemma_steps_in_order(
    state: CrawlerView,
    input: Seq<char>,
    url: Seq<char>,
    robots_url: Seq<char>,
    reply: ReplyView,
    now: u64,
)
    ensures
        begun(state, input).1 is FetchRobots || begun(state, input).1 is Done,
        after_robots(state, url, robots_url, reply).1 is FetchPage || after_robots(
            state,
            url,
            robots_url,
            reply,
        ).1 is Done,
        after_page(state, url, reply, now).1 is Store || after_page(state, url, reply, now).1
            is Done,
{
}

/// A page puts one URL on the frontier for each of its links at most.
pub proof fn lemma_expanded_bounded(base: Seq<char>, links: Seq<Seq<char>>)
    ensures
        expanded(base, links).len() <= links.len(),
    decreases links.len(),
{
    if links.len() > 0 {
        lemma_expanded_bounded(base, links.drop_last());
    }
}

/// Dedup safety: a URL whose canonical form the dedup cache holds, with
/// either outcome, is skipped. Nothing is requested for it, and nothing
/// changes but the entry's place in the order of use.
pub proof fn lemma_cached_is_skipped(state: CrawlerView, input: Seq<char>, url: Seq<char>)
    requires
        parsed(input) == Some(url),
        has_key(state.cached, normalized(url)),
    ensures
        begun(state, input).1 == StepView::Done(Outcome::Skipped),
        begun(state, input).0 == (CrawlerView {
            cached: touched(state.cached, normalized(url)),
            ..state
        }),
        state.wf() ==> has_key(begun(state, input).0.cached, normalized(url)),
{
    if state.wf() {
        lemma_touched_bounded(state.cached, normalized(url));
    }
}

/// A URL that was recorded, as done or as failed, in a cache that holds at
/// least one entry is skipped when it comes up next.
pub proof fn lemma_recorded_is_skipped(
    state: CrawlerView,
    input: Seq<char>,
    url: Seq<char>,
    outcome: bool,
)
    requires
        state.wf(),
        state.capacity >= 1,
        parsed(input) == Some(url),
    ensures
        begun(state.record(normalized(url), outcome), input).1 == StepView::Done(
            Outcome::Skipped,
        ),
{
    lemma_stored_bounded(state.cached, state.capacity, normalized(url), outcome);
}

/// Redirect consistency: where the page of `url` came from another URL in
/// the end, the document names that URL, and it is that URL whose canonical
/// form is recorded once the document is stored: the URL itself where it
/// has neither query nor fragment.
pub proof fn lemma_redirect_consistency(
    state: CrawlerView,
    url: Seq<char>,
    effective_url: Seq<char>,
    page: Seq<char>,
    body: Seq<char>,
    now: u64,
)
    requires
        effective_url != url,
        parsed(effective_url) == Some(page),
        body.len() > 0,
    ensures
        ({
            let (next, step) = after_page(
                state,
                url,
                ReplyView::Body { effective_url, body },
                now,
            );
            &&& step matches StepView::Store { url: kept, document }
            &&& kept == page
            &&& document.url == page
            &&& next.record(normalized(kept), true).cached == stored(
                state.cached,
                state.capacity,
                normalized(page),
                true,
            )
            &&& is_normalized(page) ==> normalized(kept) == page
        }),
{
}

} // verus!
