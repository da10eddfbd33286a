//! Absolute URLs, held by their serialization. The `url` crate reads and
//! rewrites them; what it returns is named here, and the rest of the library
//! reasons over those names.

use crate::text::text_of;
use url::Url;
use vstd::prelude::*;

verus! {

/// The serialization of the URL that `Url::parse` reads from `input`, or
/// `None` where it reads none.
pub uninterp spec fn parsed(input: Seq<char>) -> Option<Seq<char>>;

/// The serialization of the URL that `Url::join` resolves `reference` to
/// against the URL `base`, or `None` where it resolves to none.
pub uninterp spec fn joined(base: Seq<char>, reference: Seq<char>) -> Option<Seq<char>>;

/// Whether `Url::fragment` finds a fragment in the URL `text`.
pub uninterp spec fn bears_fragment(text: Seq<char>) -> bool;

/// Whether `Url::query` finds a query in the URL `text`.
pub uninterp spec fn bears_query(text: Seq<char>) -> bool;

/// The serialization of the URL `text` after `Url::set_fragment(None)`.
pub uninterp spec fn fragment_cleared(text: Seq<char>) -> Seq<char>;

/// The serialization of the URL `text` after `Url::set_query(None)`.
pub uninterp spec fn query_cleared(text: Seq<char>) -> Seq<char>;

/// What `Url::host_str` returns for the URL `text`.
pub uninterp spec fn host_of(text: Seq<char>) -> Option<Seq<char>>;

/// `text` is the serialization of a URL: it parses, and to itself.
pub open spec fn is_url(text: Seq<char>) -> bool {
    parsed(text) == Some(text)
}

/// `Url::parse`, the result handed out as its serialization. The crate keeps
/// as an invariant of every `Url` that its serialization parses back to an
/// equal `Url`, so what comes out is a URL's serialization.
#[verifier::external_body]
fn url_parse(input: &str) -> (text: Option<String>)
    ensures
        text_of(text) == parsed(input@),
        text matches Some(t) ==> is_url(t@),
{
    match Url::parse(input) {
        Ok(url) => Some(String::from(url)),
        Err(_) => None,
    }
}

/// `Url::join` on the `Url` that `Url::parse` reads from `base`, the result
/// handed out as its serialization: again one that parses back to an equal
/// `Url`.
#[verifier::external_body]
fn url_join(base: &str, reference: &str) -> (text: Option<String>)
    requires
        is_url(base@),
    ensures
        text_of(text) == joined(base@, reference@),
        text matches Some(t) ==> is_url(t@),
{
    match Url::parse(base).unwrap().join(reference) {
        Ok(url) => Some(String::from(url)),
        Err(_) => None,
    }
}

/// `Url::fragment` on the `Url` that `Url::parse` reads from `text`, asked
/// only whether there is a fragment.
#[verifier::external_body]
fn url_has_fragment(text: &str) -> (found: bool)
    requires
        is_url(text@),
    ensures
        found == bears_fragment(text@),
{
    Url::parse(text).unwrap().fragment().is_some()
}

/// `Url::query` on the `Url` that `Url::parse` reads from `text`, asked only
/// whether there is a query.
#[verifier::external_body]
fn url_has_query(text: &str) -> (found: bool)
    requires
        is_url(text@),
    ensures
        found == bears_query(text@),
{
    Url::parse(text).unwrap().query().is_some()
}

/// `Url::set_fragment(None)` on the `Url` that `Url::parse` reads from
/// `text`, the result handed out as its serialization. The fragment goes,
/// and whether there is a query stays as it was; by the crate's invariant
/// the same holds of the `Url` that the result parses back to.
#[verifier::external_body]
fn url_clear_fragment(text: &str) -> (cleared: String)
    requires
        is_url(text@),
    ensures
        cleared@ == fragment_cleared(text@),
        is_url(cleared@),
        !bears_fragment(cleared@),
        bears_query(cleared@) == bears_query(text@),
{
    let mut url = Url::parse(text).unwrap();
    url.set_fragment(None);
    String::from(url)
}

/// `Url::set_query(None)` on the `Url` that `Url::parse` reads from `text`,
/// the result handed out as its serialization. The query goes, and whether
/// there is a fragment stays as it was; by the crate's invariant the same
/// holds of the `Url` that the result parses back to.
#[verifier::external_body]
fn url_clear_query(text: &str) -> (cleared: String)
    requires
        is_url(text@),
    ensures
        cleared@ == query_cleared(text@),
        is_url(cleared@),
        !bears_query(cleared@),
        bears_fragment(cleared@) == bears_fragment(text@),
{
    let mut url = Url::parse(text).unwrap();
    url.set_query(None);
    String::from(url)
}

/// `Url::host_str` on the `Url` that `Url::parse` reads from `text`.
#[verifier::external_body]
fn url_host(text: &str) -> (host: Option<String>)
    requires
        is_url(text@),
    ensures
        text_of(host) == host_of(text@),
{
    Url::parse(text).unwrap().host_str().map(String::from)
}

/// An absolute URL. Its view is its serialization.
pub struct SiteUrl {
    text: String,
}

impl View for SiteUrl {
    type V = Seq<char>;

    closed spec fn view(&self) -> Seq<char> {
        self.text@
    }
}

impl SiteUrl {
    #[verifier::type_invariant]
    spec fn well_formed(self) -> bool {
        is_url(self.text@)
    }

    /// Reads an absolute URL, or nothing where `input` holds none.
    pub fn parse(input: &str) -> (url: Option<SiteUrl>)
        ensures
            match url {
                Some(u) => parsed(input@) == Some(u@),
                None => parsed(input@).is_none(),
            },
    {
        match url_parse(input) {
            Some(text) => Some(SiteUrl { text }),
            None => None,
        }
    }

    /// Resolves `reference` against this URL, or nothing where it does not
    /// resolve.
    pub fn join(&self, reference: &str) -> (url: Option<SiteUrl>)
        ensures
            match url {
                Some(u) => joined(self@, reference@) == Some(u@),
                None => joined(self@, reference@).is_none(),
            },
    {
        proof {
            use_type_invariant(self);
        }
        match url_join(self.text.as_str(), reference) {
            Some(text) => Some(SiteUrl { text }),
            None => None,
        }
    }

    /// The serialization.
    pub fn as_str(&self) -> (text: &str)
        ensures
            text@ == self@,
    {
        self.text.as_str()
    }

    /// Whether the URL has a fragment.
    pub fn has_fragment(&self) -> (found: bool)
        ensures
            found == bears_fragment(self@),
    {
        proof {
            use_type_invariant(self);
        }
        url_has_fragment(self.text.as_str())
    }

    /// Whether the URL has a query.
    pub fn has_query(&self) -> (found: bool)
        ensures
            found == bears_query(self@),
    {
        proof {
            use_type_invariant(self);
        }
        url_has_query(self.text.as_str())
    }

    /// The URL without its fragment.
    pub fn without_fragment(&self) -> (url: SiteUrl)
        ensures
            url@ == fragment_cleared(self@),
            !bears_fragment(url@),
            bears_query(url@) == bears_query(self@),
    {
        proof {
            use_type_invariant(self);
        }
        SiteUrl { text: url_clear_fragment(self.text.as_str()) }
    }

    /// The URL without its query.
    pub fn without_query(&self) -> (url: SiteUrl)
        ensures
            url@ == query_cleared(self@),
            !bears_query(url@),
            bears_fragment(url@) == bears_fragment(self@),
    {
        proof {
            use_type_invariant(self);
        }
        SiteUrl { text: url_clear_query(self.text.as_str()) }
    }

    /// The host, where the URL has one.
    pub fn host_str(&self) -> (host: Option<String>)
        ensures
            text_of(host) == host_of(self@),
    {
        proof {
            use_type_invariant(self);
        }
        url_host(self.text.as_str())
    }

    /// Whether `text` is this URL's serialization.
    pub fn reads(&self, text: &String) -> (same: bool)
        ensures
            same == (self@ == text@),
    {
        self.text == *text
    }

    /// The serialization, owned.
    pub fn into_text(self) -> (text: String)
        ensures
            text@ == self@,
    {
        self.text
    }

    /// A copy of this URL.
    pub fn duplicate(&self) -> (url: SiteUrl)
        ensures
            url@ == self@,
    {
        proof {
            use_type_invariant(self);
        }
        SiteUrl { text: self.text.clone() }
    }
}

} // verus!
