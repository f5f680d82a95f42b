//! Short paths for exercising a catalog directly: build one from source
//! text, and render one of its messages without arguments.

use vstd::prelude::*;
use fluent::FluentBundle;
use fluent::FluentResource;
use crate::fluent_api::add_content;
use crate::fluent_api::catalog_entries;
use crate::fluent_api::catalog_functions;
use crate::fluent_api::catalog_ids;
use crate::fluent_api::catalog_literals;
use crate::fluent_api::catalog_plain;
use crate::fluent_api::catalog_valued;
use crate::fluent_api::ftl_clean;
use crate::fluent_api::ftl_entries;
use crate::fluent_api::ftl_ids;
use crate::fluent_api::ftl_literals;
use crate::fluent_api::ftl_valued;
use crate::fluent_api::langid_ok;
use crate::fluent_api::new_catalog;
use crate::fluent_api::render_message;

verus! {

/// Build a catalog for one locale code straight from catalog source text;
/// no grammar functions are registered here, callers add what they need.
/// This succeeds exactly when the code is a well-formed language identifier
/// and the text parses cleanly; the catalog then holds exactly the parsed
/// messages.
pub fn fast_bundle(code: &str, content: &str) -> (r: Option<FluentBundle<FluentResource>>)
    ensures
        (r is Some) == (langid_ok(code@) && ftl_clean(content@)),
        r matches Some(b) ==> catalog_ids(b) == ftl_ids(content@) && catalog_valued(b)
            == ftl_valued(content@) && catalog_entries(b) == ftl_entries(content@)
            && catalog_functions(b) == Set::<Seq<char>>::empty() && catalog_literals(b)
            == ftl_literals(content@) && catalog_plain(b),
{
    let mut b = match new_catalog(code) {
        None => {
            return None;
        },
        Some(v) => v,
    };
    proof {
        assert(catalog_entries(b).disjoint(ftl_entries(content@)));
    }
    if !add_content(&mut b, content) {
        return None;
    }
    proof {
        assert(catalog_ids(b) =~= ftl_ids(content@));
        assert(catalog_valued(b) =~= ftl_valued(content@));
        assert(catalog_entries(b) =~= ftl_entries(content@));
        assert(catalog_literals(b) =~= ftl_literals(content@));
    }
    Some(b)
}

/// Render one message of a catalog without arguments. None when the
/// catalog does not hold the message, or holds it without a value.
pub fn fast_format(bundle: &FluentBundle<FluentResource>, id: &str) -> (r: Option<String>)
    ensures
        (r is Some) == catalog_valued(*bundle).contains(id@),
{
    match render_message(bundle, id, None) {
        Some((text, _render_errors)) => Some(text),
        None => None,
    }
}

} // verus!
