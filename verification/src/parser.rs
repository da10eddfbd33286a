//! What the crawler reads from a page: its title, its description and the
//! links that leave it. The `scraper` crate parses the markup and selects
//! the elements.

use crate::text::optional_texts;
use crate::text::text_of;
use crate::text::texts;
use scraper::Html;
use scraper::Selector;
use vstd::prelude::*;

verus! {

/// Whether `Selector::parse` reads `selector` as a CSS selector group.
pub uninterp spec fn selector_readable(selector: Seq<char>) -> bool;

/// The inner HTML of each element that `Html::select` yields for `selector`
/// in the document that `Html::parse_document` builds from `source`, in the
/// order in which it yields them.
pub uninterp spec fn selected_html(source: Seq<char>, selector: Seq<char>) -> Seq<Seq<char>>;

/// For each element that `Html::select` yields for `selector` in the
/// document built from `source`, in order, the value of its attribute
/// `name`, where it has that attribute.
pub uninterp spec fn selected_attr(
    source: Seq<char>,
    selector: Seq<char>,
    name: Seq<char>,
) -> Seq<Option<Seq<char>>>;

/// `Selector::parse`, asked only whether it succeeds.
#[verifier::external_body]
fn selector_reads(selector: &str) -> (readable: bool)
    ensures
        readable == selector_readable(selector@),
{
    Selector::parse(selector).is_ok()
}

/// `Html::select` for the selector that `Selector::parse` reads from
/// `selector`, on the document that `Html::parse_document` builds from
/// `source`; each element is handed out as its `ElementRef::inner_html`.
#[verifier::external_body]
fn select_html(source: &str, selector: &str) -> (found: Vec<String>)
    requires
        selector_readable(selector@),
    ensures
        texts(found@) == selected_html(source@, selector@),
{
    let chosen = Selector::parse(selector).unwrap();
    Html::parse_document(source).select(&chosen).map(|element| element.inner_html()).collect()
}

/// `Html::select` for the selector that `Selector::parse` reads from
/// `selector`, on the document that `Html::parse_document` builds from
/// `source`; each element is handed out as what `Element::attr` finds under
/// `name`.
#[verifier::external_body]
fn select_attr(source: &str, selector: &str, name: &str) -> (found: Vec<Option<String>>)
    requires
        selector_readable(selector@),
    ensures
        optional_texts(found@) == selected_attr(source@, selector@, name@),
{
    let chosen = Selector::parse(selector).unwrap();
    Html::parse_document(source).select(&chosen).map(
        |element| element.value().attr(name).map(String::from),
    ).collect()
}

/// The values that are present, in their order.
pub open spec fn present(values: Seq<Option<Seq<char>>>) -> Seq<Seq<char>>
    decreases values.len(),
{
    if values.len() == 0 {
        Seq::empty()
    } else {
        match values.last() {
            Some(text) => present(values.drop_last()).push(text),
            None => present(values.drop_last()),
        }
    }
}

/// The first text, where there is one.
pub open spec fn first_text(found: Seq<Seq<char>>) -> Option<Seq<char>> {
    if found.len() > 0 {
        Some(found[0])
    } else {
        None
    }
}

/// The first value, an absent one counted as empty, where there is a first.
pub open spec fn first_value(found: Seq<Option<Seq<char>>>) -> Option<Seq<char>> {
    if found.len() > 0 {
        match found[0] {
            Some(text) => Some(text),
            None => Some(Seq::empty()),
        }
    } else {
        None
    }
}

/// The title that a page with these `title` elements has: the inner HTML of
/// the first of them.
pub fn first_of(found: &Vec<String>) -> (first: Option<String>)
    ensures
        text_of(first) == first_text(texts(found@)),
{
    if found.len() > 0 {
        Some(found[0].clone())
    } else {
        None
    }
}

/// The description that a page with these description elements has: the
/// `content` of the first of them, empty where that element has none.
pub fn first_or_empty(found: &Vec<Option<String>>) -> (first: Option<String>)
    ensures
        text_of(first) == first_value(optional_texts(found@)),
{
    if found.len() > 0 {
        match &found[0] {
            Some(text) => Some(text.clone()),
            None => Some(String::new()),
        }
    } else {
        None
    }
}

/// The link targets that a page with these anchors has: the `href` of each
/// anchor that has one, in document order.
pub fn present_values(found: &Vec<Option<String>>) -> (values: Vec<String>)
    ensures
        texts(values@) == present(optional_texts(found@)),
{
    let mut values: Vec<String> = Vec::new();
    let mut i: usize = 0;
    while i < found.len()
        invariant
            i <= found.len(),
            texts(values@) == present(optional_texts(found@).subrange(0, i as int)),
        decreases found.len() - i,
    {
        assert(optional_texts(found@).subrange(0, i + 1).drop_last() == optional_texts(
            found@,
        ).subrange(0, i as int));
        match &found[i] {
            Some(text) => {
                values.push(text.clone());
            },
            None => {},
        }
        i += 1;
    }
    assert(optional_texts(found@).subrange(0, i as int) == optional_texts(found@));
    values
}

/// The title of the page `source`.
pub open spec fn title_of(source: Seq<char>) -> Option<Seq<char>> {
    if selector_readable("title"@) {
        first_text(selected_html(source, "title"@))
    } else {
        None
    }
}

/// The description of the page `source`.
pub open spec fn description_of(source: Seq<char>) -> Option<Seq<char>> {
    if selector_readable("meta[property*=\"desc\"]"@) {
        first_value(selected_attr(source, "meta[property*=\"desc\"]"@, "content"@))
    } else {
        None
    }
}

/// The link targets of the page `source`, as they stand in it.
pub open spec fn links_of(source: Seq<char>) -> Option<Seq<Seq<char>>> {
    if selector_readable("a"@) {
        Some(present(selected_attr(source, "a"@, "href"@)))
    } else {
        None
    }
}

/// The extractor.
pub struct Parser {}

impl Parser {
    /// The page's title: the inner HTML of its first `title` element, or
    /// nothing where it has none.
    pub fn parse_title(doc: &str) -> (title: Option<String>)
        ensures
            text_of(title) == title_of(doc@),
    {
        if selector_reads("title") {
            first_of(&select_html(doc, "title"))
        } else {
            None
        }
    }

    /// The page's description: the `content` of the first `meta` element
    /// whose `property` holds `desc`, empty where that element has no
    /// `content`, or nothing where there is no such element.
    pub fn parse_desc(doc: &str) -> (desc: Option<String>)
        ensures
            text_of(desc) == description_of(doc@),
    {
        if selector_reads("meta[property*=\"desc\"]") {
            first_or_empty(&select_attr(doc, "meta[property*=\"desc\"]", "content"))
        } else {
            None
        }
    }

    /// The page's outbound links: the `href` of each `a` element that has
    /// one, in document order.
    pub fn parse_urls(doc: &str) -> (urls: Option<Vec<String>>)
        ensures
            match urls {
                Some(list) => links_of(doc@) == Some(texts(list@)),
                None => links_of(doc@).is_none(),
            },
    {
        if selector_reads("a") {
            Some(present_values(&select_attr(doc, "a", "href")))
        } else {
            None
        }
    }
}

} // verus!
