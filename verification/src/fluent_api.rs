//! The trusted boundary to the fluent message-formatting crate. The catalog
//! type, its values and its argument maps are opaque here; what the engine's
//! proofs need of them is stated over abstract views: the message ids and
//! entry names a catalog holds, the grammar functions it dispatches, and the
//! map of argument bindings handed to a render.

use vstd::prelude::*;
use fluent::FluentArgs;
use fluent::FluentBundle;
use fluent::FluentResource;
use fluent::FluentValue;

verus! {

#[verifier::external_type_specification]
#[verifier::external_body]
#[verifier::reject_recursive_types(R)]
#[verifier::reject_recursive_types(M)]
pub struct ExFluentBundle<R, M>(fluent::bundle::FluentBundle<R, M>);

#[verifier::external_type_specification]
#[verifier::external_body]
pub struct ExIntlLangMemoizer(intl_memoizer::IntlLangMemoizer);

#[verifier::external_type_specification]
#[verifier::external_body]
pub struct ExFluentResource(FluentResource);

#[verifier::external_type_specification]
#[verifier::external_body]
pub struct ExFluentValue<'a>(FluentValue<'a>);

#[verifier::external_type_specification]
#[verifier::external_body]
pub struct ExFluentArgs<'a>(FluentArgs<'a>);

/// The ids of the messages a catalog holds.
pub uninterp spec fn catalog_ids(b: FluentBundle<FluentResource>) -> Set<Seq<char>>;

/// The ids of the catalog's messages that have a value (a renderable
/// pattern); a message may also carry only attributes.
pub uninterp spec fn catalog_valued(b: FluentBundle<FluentResource>) -> Set<Seq<char>>;

/// The names of every entry a catalog holds — messages, terms and grammar
/// functions share one namespace, and an addition fails on any collision.
pub uninterp spec fn catalog_entries(b: FluentBundle<FluentResource>) -> Set<Seq<char>>;

/// The names of the grammar functions a catalog dispatches.
pub uninterp spec fn catalog_functions(b: FluentBundle<FluentResource>) -> Set<Seq<char>>;

/// The catalog's fixed-text messages: each id whose message value is pure
/// literal text (no placeable), mapped to that text as the parser read it.
pub uninterp spec fn catalog_literals(b: FluentBundle<FluentResource>) -> Map<Seq<char>, Seq<char>>;

/// The catalog renders text verbatim: no text transform and no custom value
/// formatter is installed. Every catalog this crate builds is plain.
pub uninterp spec fn catalog_plain(b: FluentBundle<FluentResource>) -> bool;

/// The ids of the messages that fluent's parser reads out of catalog source
/// text: a fixed function of the text alone.
pub uninterp spec fn ftl_ids(content: Seq<char>) -> Set<Seq<char>>;

/// Of those, the ids whose message carries a value.
pub uninterp spec fn ftl_valued(content: Seq<char>) -> Set<Seq<char>>;

/// The entry names — messages and terms — fluent's parser reads out of
/// catalog source text.
pub uninterp spec fn ftl_entries(content: Seq<char>) -> Set<Seq<char>>;

/// The fixed-text messages of catalog source text: each id whose message
/// value is pure literal text, mapped to that text as the parser reads it —
/// a fixed function of the text alone.
pub uninterp spec fn ftl_literals(content: Seq<char>) -> Map<Seq<char>, Seq<char>>;

/// Whether fluent's parser accepts the text without errors and its entry
/// names are pairwise distinct: a fixed function of the text alone, and
/// exactly the condition under which the text loads into a fresh catalog.
pub uninterp spec fn ftl_clean(content: Seq<char>) -> bool;

/// Whether the text is a well-formed language identifier, as the langid
/// parser decides it: a fixed function of the text alone.
pub uninterp spec fn langid_ok(code: Seq<char>) -> bool;

/// One binding in an argument map: plain text, or a numeric binding.
pub enum ArgView {
    Text(Seq<char>),
    Number(Seq<char>),
}

/// An argument map that owns all its keys and values.
pub type OwnedArgs = FluentArgs<'static>;

/// The bindings an argument map holds, keyed by argument name.
pub uninterp spec fn args_entries(a: OwnedArgs) -> Map<Seq<char>, ArgView>;

/// The binding a numeric argument text compiles to: what the number parser
/// makes of the text, or the text itself where it is not numeric — a fixed
/// function of the text alone, left otherwise unnamed (two spellings of one
/// number may compile to one and the same binding).
pub uninterp spec fn number_view_of(text: Seq<char>) -> ArgView;

/// Relies on str::parse::<LanguageIdentifier> and FluentBundle::new (and
/// set_use_isolating, which only configures directionality marks): the parse
/// succeeds exactly on well-formed language identifiers, and a fresh bundle
/// holds no entries of any kind, with no transform or formatter installed.
#[verifier::external_body]
pub(crate) fn new_catalog(code: &str) -> (r: Option<FluentBundle<FluentResource>>)
    ensures
        (r is Some) == langid_ok(code@),
        r matches Some(b) ==> catalog_ids(b) == Set::<Seq<char>>::empty() && catalog_valued(b)
            == Set::<Seq<char>>::empty() && catalog_entries(b) == Set::<Seq<char>>::empty()
            && catalog_functions(b) == Set::<Seq<char>>::empty() && catalog_literals(b).dom()
            == Set::<Seq<char>>::empty() && catalog_plain(b),
{
    let lang = match code.parse() {
        Ok(v) => v,
        Err(_) => return None,
    };
    let mut bundle: FluentBundle<FluentResource> = FluentBundle::new(vec![lang]);
    bundle.set_use_isolating(false);
    Some(bundle)
}

/// Relies on FluentResource::try_new and FluentBundle::add_resource: the
/// addition succeeds exactly when the text parses cleanly and none of its
/// entry names collides with one the bundle already holds; the bundle then
/// gains exactly the parsed entries. On failure the caller discards the
/// bundle (a colliding addition is partial), so nothing more is promised
/// of it.
#[verifier::external_body]
pub(crate) fn add_content(bundle: &mut FluentBundle<FluentResource>, content: &str) -> (ok: bool)
    ensures
        ok == (ftl_clean(content@) && catalog_entries(*old(bundle)).disjoint(
            ftl_entries(content@),
        )),
        ok ==> catalog_ids(*final(bundle)) == catalog_ids(*old(bundle)).union(ftl_ids(content@)),
        ok ==> catalog_valued(*final(bundle)) == catalog_valued(*old(bundle)).union(
            ftl_valued(content@),
        ),
        ok ==> catalog_entries(*final(bundle)) == catalog_entries(*old(bundle)).union(
            ftl_entries(content@),
        ),
        ok ==> catalog_functions(*final(bundle)) == catalog_functions(*old(bundle)),
        ok ==> catalog_literals(*final(bundle)) == catalog_literals(*old(bundle)).union_prefer_right(
            ftl_literals(content@),
        ),
        catalog_plain(*final(bundle)) == catalog_plain(*old(bundle)),
{
    let resource = match FluentResource::try_new(content.to_owned()) {
        Ok(v) => v,
        Err(_) => return false,
    };
    bundle.add_resource(resource).is_ok()
}

/// Relies on FluentBundle::get_message: a message is found exactly when the
/// bundle holds one under this id (function and term entries are never
/// returned by a message lookup).
#[verifier::external_body]
pub(crate) fn has_message(bundle: &FluentBundle<FluentResource>, id: &str) -> (r: bool)
    ensures
        r == catalog_ids(*bundle).contains(id@),
{
    bundle.get_message(id).is_some()
}

/// Relies on FluentBundle::get_message, FluentMessage::value and
/// FluentBundle::format_pattern: a message renders to some text exactly when
/// the bundle holds it and it has a value; format_pattern never aborts, it
/// substitutes error markers in place and collects non-fatal errors, whose
/// descriptions come back beside the text. Of the text only this much is
/// stated: a pure-literal message of a plain catalog renders to its own
/// text, verbatim; any other pattern may draw on arguments or the
/// random-pick grammar function, and is left unspecified.
#[verifier::external_body]
pub(crate) fn render_message(
    bundle: &FluentBundle<FluentResource>,
    id: &str,
    args: Option<&OwnedArgs>,
) -> (r: Option<(String, Vec<String>)>)
    ensures
        (r is Some) == catalog_valued(*bundle).contains(id@),
        r matches Some(p) ==> (catalog_plain(*bundle) && catalog_literals(*bundle).dom().contains(
            id@,
        ) ==> p.0@ == catalog_literals(*bundle)[id@]),
{
    let message = bundle.get_message(id)?;
    let value = message.value()?;
    let mut errors = Vec::new();
    let text = bundle.format_pattern(value, args, &mut errors).to_string();
    Some((text, errors.into_iter().map(|e| format!("{e:?}")).collect()))
}

/// Relies on FluentArgs::new: a new argument map holds no binding.
#[verifier::external_body]
pub(crate) fn args_new() -> (r: OwnedArgs)
    ensures
        args_entries(r).dom() == Set::<Seq<char>>::empty(),
{
    FluentArgs::new()
}

/// Relies on FluentArgs::set: binds the key to the given text, replacing any
/// prior binding of that key and touching no other.
#[verifier::external_body]
pub(crate) fn args_set_text(args: &mut OwnedArgs, key: &str, value: String)
    ensures
        args_entries(*final(args)) == args_entries(*old(args)).insert(
            key@,
            ArgView::Text(value@),
        ),
{
    args.set(key.to_owned(), FluentValue::String(value.into()));
}

/// Relies on FluentNumber::from_str and FluentArgs::set (mirroring what
/// FluentValue::try_number does with borrowed text): binds the key to what
/// the number parser makes of the text — the named `number_view_of`, a
/// function of the text alone — replacing any prior binding of that key and
/// touching no other.
#[verifier::external_body]
pub(crate) fn args_set_number(args: &mut OwnedArgs, key: &str, text: &str)
    ensures
        args_entries(*final(args)) == args_entries(*old(args)).insert(
            key@,
            number_view_of(text@),
        ),
{
    let value = match text.parse::<fluent::types::FluentNumber>() {
        Ok(n) => FluentValue::Number(n),
        Err(_) => FluentValue::String(text.to_owned().into()),
    };
    args.set(key.to_owned(), value);
}

} // verus!
