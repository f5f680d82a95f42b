use fluent_onyx::localization_bundle::LocalizationBundles;
use fluent_onyx::localization_resource::LocalizationResource;
use fluent_onyx::localizeable_data::LocalizeArg;
use fluent_onyx::localizeable_data::LocalizeableData;
use fluent_onyx::test_utils::fast_bundle;
use fluent_onyx::test_utils::fast_format;

fn request(id: &str, code: &str) -> LocalizeableData {
    LocalizeableData { id: id.to_string(), code: code.to_string(), args: None }
}

#[test]
fn test_unknown_code_resolves_to_none() {
    let ctx = LocalizationBundles::new();
    assert!(ctx.resolve_bundle("en").is_none());

    let mut with_table = LocalizationBundles::new();
    with_table.set_fallbacks(vec![("ru".to_string(), "en".to_string())]);
    // No catalog and no fallback entry for this code.
    assert!(with_table.resolve_bundle("de").is_none());
}

#[test]
fn test_cyclic_fallback_table_terminates() {
    let mut ctx = LocalizationBundles::new();
    ctx.set_fallbacks(vec![
        ("a".to_string(), "b".to_string()),
        ("b".to_string(), "a".to_string()),
    ]);
    assert!(ctx.resolve_bundle("a").is_none());
    assert!(ctx.resolve_bundle("b").is_none());
    assert!(ctx.resolve_message(request("anything", "a")).is_none());
}

#[test]
fn test_bundle_fallback_chain() {
    let mut ctx = LocalizationBundles::new();
    let en = fast_bundle("en", "hello = Hi!").unwrap();
    ctx.add_bundle("en".to_string(), en);
    ctx.set_fallbacks(vec![
        ("ru".to_string(), "en".to_string()),
        ("be".to_string(), "ru".to_string()),
    ]);
    assert!(ctx.resolve_bundle("en").is_some());
    assert!(ctx.resolve_bundle("ru").is_some());
    assert!(ctx.resolve_bundle("be").is_some());
    assert!(ctx.resolve_bundle("de").is_none());
}

#[test]
fn test_plain_message_text_unchanged() {
    let mut ctx = LocalizationBundles::new();
    let en = fast_bundle("en", "hello-world = Hello World!").unwrap();
    ctx.add_bundle("en".to_string(), en);
    let result = ctx.resolve_message(request("hello-world", "en")).unwrap();
    assert_eq!(result, "Hello World!");
}

#[test]
fn test_missing_message_resolves_to_none() {
    let mut ctx = LocalizationBundles::new();
    let en = fast_bundle("en", "hello = Hi!").unwrap();
    ctx.add_bundle("en".to_string(), en);
    assert!(ctx.resolve_message(request("absent", "en")).is_none());
}

#[test]
fn test_message_level_fallback() {
    let mut ctx = LocalizationBundles::new();
    let en = fast_bundle("en", "only-english = English text").unwrap();
    let ru = fast_bundle("ru", "greeting = Privet").unwrap();
    ctx.add_bundle("en".to_string(), en);
    ctx.add_bundle("ru".to_string(), ru);
    ctx.set_fallbacks(vec![("ru".to_string(), "en".to_string())]);
    // The ru catalog exists but lacks the message: the whole resolution is
    // retried with the mapped code, not just the bundle lookup.
    let result = ctx.resolve_message(request("only-english", "ru")).unwrap();
    assert_eq!(result, "English text");
}

#[test]
fn test_message_level_cycle_terminates() {
    let mut ctx = LocalizationBundles::new();
    let aa = fast_bundle("aa", "something = else").unwrap();
    let ab = fast_bundle("ab", "unrelated = text").unwrap();
    ctx.add_bundle("aa".to_string(), aa);
    ctx.add_bundle("ab".to_string(), ab);
    ctx.set_fallbacks(vec![
        ("aa".to_string(), "ab".to_string()),
        ("ab".to_string(), "aa".to_string()),
    ]);
    assert!(ctx.resolve_message(request("missing-everywhere", "aa")).is_none());
}

#[test]
fn test_nested_argument_resolves_before_substitution() {
    let mut ctx = LocalizationBundles::new();
    let en = fast_bundle(
        "en",
        "greeting = Hello, { $name }!\nada = Ada",
    )
    .unwrap();
    ctx.add_bundle("en".to_string(), en);
    let data = LocalizeableData {
        id: "greeting".to_string(),
        code: "en".to_string(),
        args: Some(vec![(
            "name".to_string(),
            LocalizeArg::Nested(Box::new(request("ada", "en"))),
        )]),
    };
    let result = ctx.resolve_message(data).unwrap();
    assert_eq!(result, "Hello, Ada!");
}

#[test]
fn test_failed_nested_argument_falls_back_to_its_code() {
    let mut ctx = LocalizationBundles::new();
    let en = fast_bundle("en", "greeting = Hello, { $name }!").unwrap();
    ctx.add_bundle("en".to_string(), en);
    let data = LocalizeableData {
        id: "greeting".to_string(),
        code: "en".to_string(),
        args: Some(vec![(
            "name".to_string(),
            LocalizeArg::Nested(Box::new(request("missing", "zz"))),
        )]),
    };
    let result = ctx.resolve_message(data).unwrap();
    assert_eq!(result, "Hello, zz!");
}

#[test]
fn test_scalar_arguments_render() {
    let mut ctx = LocalizationBundles::new();
    let en = fast_bundle(
        "en",
        "counted = { $count } items\nflagged = flag is { $flag }\nnamed = by { $who }",
    )
    .unwrap();
    ctx.add_bundle("en".to_string(), en);
    let counted = LocalizeableData {
        id: "counted".to_string(),
        code: "en".to_string(),
        args: Some(vec![("count".to_string(), LocalizeArg::Number("5".to_string()))]),
    };
    assert_eq!(ctx.resolve_message(counted).unwrap(), "5 items");
    let flagged = LocalizeableData {
        id: "flagged".to_string(),
        code: "en".to_string(),
        args: Some(vec![("flag".to_string(), LocalizeArg::Bool(true))]),
    };
    assert_eq!(ctx.resolve_message(flagged).unwrap(), "flag is true");
    let named = LocalizeableData {
        id: "named".to_string(),
        code: "en".to_string(),
        args: Some(vec![("who".to_string(), LocalizeArg::Str("Ada".to_string()))]),
    };
    assert_eq!(ctx.resolve_message(named).unwrap(), "by Ada");
}

#[test]
fn test_resource_bundle_has_grammar_functions() {
    let res = LocalizationResource::new(
        "data/en.ftl".to_string(),
        "en".to_string(),
        "articled = { THE(\"sun\") } and { A(\"apple\") }".to_string(),
    );
    assert_eq!(res.path(), "data/en.ftl");
    assert_eq!(res.code(), "en");
    assert_eq!(res.content(), "articled = { THE(\"sun\") } and { A(\"apple\") }");
    let bundle = res.to_bundle().unwrap();
    assert_eq!(fast_format(&bundle, "articled").unwrap(), "the sun and an apple");
}

#[test]
fn test_bad_locale_code_gives_no_bundle() {
    assert!(fast_bundle("not a locale code!!", "hello = Hi!").is_none());
}

#[test]
fn test_unparsable_catalog_gives_no_bundle() {
    assert!(fast_bundle("en", "= this is not valid fluent syntax").is_none());
}

#[test]
fn test_fallbacks_accessor_round_trip() {
    let mut ctx = LocalizationBundles::new();
    assert!(ctx.fallbacks().is_none());
    ctx.set_fallbacks(vec![("ru".to_string(), "en".to_string())]);
    let table = ctx.fallbacks().unwrap();
    assert_eq!(table.len(), 1);
    assert_eq!(table[0].0, "ru");
    assert_eq!(table[0].1, "en");
    assert_eq!(ctx.bundles().len(), 0);
}

#[test]
fn test_bundles_mut_reload_path() {
    let mut ctx = LocalizationBundles::new();
    let en = fast_bundle("en", "hello = Hi!").unwrap();
    ctx.add_bundle("en".to_string(), en);
    assert!(ctx.resolve_bundle("en").is_some());
    ctx.bundles_mut().clear();
    assert!(ctx.resolve_bundle("en").is_none());
}

#[test]
fn test_render_errors_are_reported_out_of_band() {
    let mut ctx = LocalizationBundles::new();
    let en = fast_bundle("en", "greeting = Hello, { $name }!").unwrap();
    ctx.add_bundle("en".to_string(), en);
    // The argument is missing: the render still succeeds, substituting an
    // error marker, and the error comes back beside the text.
    let (text, render_errors) = ctx
        .resolve_message_with_errors(request("greeting", "en"))
        .unwrap();
    assert!(!render_errors.is_empty());
    assert!(text.starts_with("Hello, "));

    // A clean render reports no errors.
    let (text, render_errors) = ctx
        .resolve_message_with_errors({
            let mut data = request("greeting", "en");
            data.args = Some(vec![(
                "name".to_string(),
                LocalizeArg::Str("Ada".to_string()),
            )]);
            data
        })
        .unwrap();
    assert!(render_errors.is_empty());
    assert_eq!(text, "Hello, Ada!");
}
