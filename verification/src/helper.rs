//! URL normalization.

use crate::address::bears_fragment;
use crate::address::bears_query;
use crate::address::fragment_cleared;
use crate::address::query_cleared;
use crate::address::SiteUrl;
use vstd::prelude::*;

verus! {

/// The canonical form of the URL `text`: its fragment and its query are
/// removed, where it has them, and nothing else is touched.
pub open spec fn normalized(text: Seq<char>) -> Seq<char> {
    let bare = if bears_fragment(text) {
        fragment_cleared(text)
    } else {
        text
    };
    if bears_query(bare) {
        query_cleared(bare)
    } else {
        bare
    }
}

/// Whether the URL `text` has neither fragment nor query.
pub open spec fn is_normalized(text: Seq<char>) -> bool {
    !bears_fragment(text) && !bears_query(text)
}

/// Brings `url` to its canonical form. The result has neither fragment nor
/// query, so normalizing is idempotent: a URL that is already normalized
/// comes back unchanged, and normalizing the result changes nothing.
pub fn normalize_url(url: &mut SiteUrl)
    ensures
        final(url)@ == normalized(old(url)@),
        is_normalized(final(url)@),
        is_normalized(old(url)@) ==> final(url)@ == old(url)@,
        normalized(normalized(old(url)@)) == normalized(old(url)@),
{
    if url.has_fragment() {
        *url = url.without_fragment();
    }
    if url.has_query() {
        *url = url.without_query();
    }
}

} // verus!
