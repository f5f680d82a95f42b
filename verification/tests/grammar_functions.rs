use fluent::FluentArgs;
use fluent::FluentValue;
use fluent_onyx::functions::en;
use fluent_onyx::functions::pick;
use fluent_onyx::functions::pick_value;
use fluent_onyx::test_utils::fast_bundle;
use fluent_onyx::test_utils::fast_format;

#[test]
fn test_pick() {
    let mut bundle = fast_bundle(
        "en",
        r#"
foo = { PICK("one") }
"#,
    )
    .unwrap();

    bundle.add_function("PICK", pick).unwrap();

    let result = fast_format(&bundle, "foo").unwrap();

    assert_eq!(result, "one")
}

#[test]
fn test_the() {
    let mut bundle = fast_bundle(
        "en",
        r#"
lowercase = { THE("sun") }
uppercase = { THE("sun", case: "upper") }"#,
    )
    .unwrap();

    bundle.add_function("THE", en::the).unwrap();

    assert_eq!(fast_format(&bundle, "lowercase").unwrap(), "the sun");
    assert_eq!(fast_format(&bundle, "uppercase").unwrap(), "The sun");
}

#[test]
fn test_no_more_the() {
    let mut bundle = fast_bundle(
        "en",
        r#"
lowercase = { THE("the sun") }
uppercase = { THE("The sun", case: "upper") }"#,
    )
    .unwrap();

    bundle.add_function("THE", en::the).unwrap();

    assert_eq!(fast_format(&bundle, "lowercase").unwrap(), "the sun");
    assert_eq!(fast_format(&bundle, "uppercase").unwrap(), "The sun");
}

#[test]
fn test_a() {
    let mut bundle = fast_bundle(
        "en",
        r#"
lowercase = { A("bucket") }
uppercase = { A("bucket", case: "upper") }
"#,
    )
    .unwrap();

    bundle.add_function("A", en::a).unwrap();

    assert_eq!(fast_format(&bundle, "lowercase").unwrap(), "a bucket");
    assert_eq!(fast_format(&bundle, "uppercase").unwrap(), "A bucket");
}

#[test]
fn test_an() {
    let mut bundle = fast_bundle(
        "en",
        r#"
lowercase = { A("apple") }
uppercase = { A("apple", case: "upper") }
"#,
    )
    .unwrap();

    bundle.add_function("A", en::a).unwrap();

    assert_eq!(fast_format(&bundle, "lowercase").unwrap(), "an apple");
    assert_eq!(fast_format(&bundle, "uppercase").unwrap(), "An apple");
}

#[test]
fn test_no_more_a() {
    let mut bundle = fast_bundle(
        "en",
        r#"
lowercase = { A("a bucket") }
uppercase = { A("A bucket", case: "upper") }
"#,
    )
    .unwrap();

    bundle.add_function("A", en::a).unwrap();

    assert_eq!(fast_format(&bundle, "lowercase").unwrap(), "a bucket");
    assert_eq!(fast_format(&bundle, "uppercase").unwrap(), "A bucket");
}

#[test]
fn test_the_word_inserts_article() {
    assert_eq!(en::the_word("sun", false), "the sun");
    assert_eq!(en::the_word("sun", true), "The sun");
}

#[test]
fn test_the_word_token_not_prefix() {
    // "theory" begins with the letters t-h-e but its first token is not
    // the article, so the article is still inserted.
    assert_eq!(en::the_word("theory", false), "the theory");
    assert_eq!(en::the_word("the sun", false), "the sun");
    assert_eq!(en::the_word("The Sun", false), "The Sun");
}

#[test]
fn test_the_word_idempotent() {
    let once = en::the_word("sun", false);
    assert_eq!(en::the_word(&once, false), once);
    let upper = en::the_word("moon", true);
    assert_eq!(en::the_word(&upper, false), upper);
}

#[test]
fn test_a_word_vowel_choice() {
    assert_eq!(en::a_word("bucket", false), "a bucket");
    assert_eq!(en::a_word("apple", false), "an apple");
    assert_eq!(en::a_word("Apple", false), "an Apple");
    assert_eq!(en::a_word("apple", true), "An apple");
}

#[test]
fn test_a_word_idempotent() {
    let once = en::a_word("apple", false);
    assert_eq!(en::a_word(&once, false), once);
    assert_eq!(en::a_word("a bucket", false), "a bucket");
    assert_eq!(en::a_word("An apple", false), "An apple");
}

#[test]
fn test_upper_requested() {
    assert!(en::upper_requested(&Some("upper".to_string())));
    assert!(!en::upper_requested(&Some("Upper".to_string())));
    assert!(!en::upper_requested(&None));
}

#[test]
fn test_pick_single_value_is_returned() {
    let values = [FluentValue::String("x".into())];
    let picked = pick_value(&values).unwrap();
    assert_eq!(picked, FluentValue::String("x".into()));
}

#[test]
fn test_pick_empty_gives_error_marker() {
    let values: [FluentValue; 0] = [];
    assert!(pick_value(&values).is_none());
    let named = FluentArgs::new();
    let marker = pick(&values, &named);
    assert!(matches!(marker, FluentValue::Error));
}

#[test]
fn test_pick_chooses_among_values() {
    let values = [
        FluentValue::String("left".into()),
        FluentValue::String("right".into()),
    ];
    let named = FluentArgs::new();
    for _ in 0..16 {
        let picked = pick(&values, &named);
        assert!(picked == values[0] || picked == values[1]);
    }
}

#[test]
fn test_token_split_on_unicode_whitespace() {
    // The first token is delimited by any Unicode whitespace, as
    // str::split_whitespace delimits it.
    assert_eq!(en::the_word("the\tsun", false), "the\tsun");
    assert_eq!(en::the_word("the\u{00A0}sun", false), "the\u{00A0}sun");
    assert_eq!(en::a_word("a\u{2003}bucket", false), "a\u{2003}bucket");
    assert_eq!(en::the_word(" \u{2028}sun", true), "The  \u{2028}sun");
}
