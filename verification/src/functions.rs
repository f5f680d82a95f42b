//! The grammar-function registry: the fixed set of named transforms that a
//! message pattern may invoke while it renders — random pick, definite
//! article, indefinite article.

use vstd::prelude::*;
use fluent::FluentArgs;
use fluent::FluentBundle;
use fluent::FluentResource;
use fluent::FluentValue;
use crate::fluent_api::catalog_entries;
use crate::fluent_api::catalog_functions;
use crate::fluent_api::catalog_ids;
use crate::fluent_api::catalog_literals;
use crate::fluent_api::catalog_plain;
use crate::fluent_api::catalog_valued;

pub mod en;

verus! {

/// Relies on rand::thread_rng and Rng::gen_range: a random index strictly
/// below `len`.
#[verifier::external_body]
fn choose_index(len: usize) -> (i: usize)
    requires
        len > 0,
    ensures
        i < len,
{
    rand::Rng::gen_range(&mut rand::thread_rng(), 0..len)
}

/// Relies on FluentValue's Clone impl: the clone equals the original value.
#[verifier::external_body]
fn clone_value<'a>(v: &FluentValue<'a>) -> (r: FluentValue<'a>)
    ensures
        r == *v,
{
    v.clone()
}

/// Choose one of the positional values, at random; None when there are
/// none. With a single value there is no choice to make: that value comes
/// back as it stands.
pub fn pick_value<'a>(positional: &[FluentValue<'a>]) -> (r: Option<FluentValue<'a>>)
    ensures
        (r is Some) == (positional@.len() > 0),
        r matches Some(v) ==> positional@.contains(v),
        positional@.len() == 1 ==> r == Some(positional@[0]),
{
    if positional.len() == 0 {
        None
    } else {
        let i = choose_index(positional.len());
        let v = clone_value(vstd::slice::slice_index_get(positional, i));
        proof {
            assert(positional@[i as int] == v);
            assert(positional@.contains(v));
        }
        Some(v)
    }
}

/// The PICK grammar function: one of its positional arguments, chosen at
/// random; the error value when it was handed none, never an abort. Relies
/// on the fluent value types only to move values through.
#[verifier::external_body]
pub fn pick<'a>(positional: &[FluentValue<'a>], _named: &FluentArgs) -> (r: FluentValue<'a>) {
    match pick_value(positional) {
        Some(v) => v,
        None => FluentValue::Error,
    }
}

/// Register the grammar functions PICK, THE and A on a catalog. Relies on
/// FluentBundle::add_function: registration succeeds exactly when none of
/// the three names is already an entry, and then adds exactly those three
/// dispatchable function names; a message lookup never yields a function
/// entry, so the catalog's message sets stay as they were either way. On
/// failure the registrations made before the duplicate remain, so beyond
/// the message sets nothing is promised of that outcome.
#[verifier::external_body]
pub fn add_functions(bundle: &mut FluentBundle<FluentResource>) -> (ok: bool)
    ensures
        ok == (!catalog_entries(*old(bundle)).contains("PICK"@) && !catalog_entries(
            *old(bundle),
        ).contains("THE"@) && !catalog_entries(*old(bundle)).contains("A"@)),
        catalog_ids(*final(bundle)) == catalog_ids(*old(bundle)),
        catalog_valued(*final(bundle)) == catalog_valued(*old(bundle)),
        catalog_literals(*final(bundle)) == catalog_literals(*old(bundle)),
        catalog_plain(*final(bundle)) == catalog_plain(*old(bundle)),
        ok ==> catalog_entries(*final(bundle)) == catalog_entries(*old(bundle)).insert(
            "PICK"@,
        ).insert("THE"@).insert("A"@),
        ok ==> catalog_functions(*final(bundle)) == catalog_functions(*old(bundle)).insert(
            "PICK"@,
        ).insert("THE"@).insert("A"@),
{
    let r_pick = bundle.add_function("PICK", pick);
    let r_the = bundle.add_function("THE", en::the);
    let r_a = bundle.add_function("A", en::a);
    r_pick.is_ok() && r_the.is_ok() && r_a.is_ok()
}

} // verus!
