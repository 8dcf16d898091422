use autograder_setup::utils::{replace_double_hashtag, slug_id, yaml_quote};

#[test]
fn slug_id_basic_lowercases_and_replaces_non_alnum_with_single_dashes() {
    assert_eq!(slug_id("HelloWorld"), "helloworld");
    assert_eq!(slug_id("Hello World"), "hello-world");
    assert_eq!(slug_id("hello_world"), "hello-world"); // underscore → dash
    assert_eq!(slug_id("hello---world"), "hello-world"); // collapse
    assert_eq!(slug_id(" hello\tworld "), "hello-world"); // trim/collapse
    assert_eq!(slug_id("A  B   C"), "a-b-c");
    assert_eq!(slug_id("--Already-Slug--"), "already-slug"); // trims ends
}

#[test]
fn slug_id_handles_unicode_by_treating_non_ascii_as_separators() {
    assert_eq!(slug_id("naïve Café — test"), "na-ve-caf-test");
    assert_eq!(slug_id("ok✅?no!"), "ok-no");
}

#[test]
fn slug_id_only_dashes_or_symbols_yields_empty_or_clean_slug() {
    assert_eq!(slug_id("----"), "");
    assert_eq!(slug_id("   "), "");
    assert_eq!(slug_id("!!!abc???"), "abc");
}

#[test]
fn yaml_quote_wraps_in_double_quotes_and_escapes_internal_quotes() {
    assert_eq!(yaml_quote("plain"), "\"plain\"");
    assert_eq!(yaml_quote("he said \"hi\""), "\"he said \\\"hi\\\"\"");
    assert_eq!(yaml_quote("a:b"), "\"a:b\""); // just wrapped; no extra escaping
    assert_eq!(yaml_quote("path\\with\\slashes"), "\"path\\with\\slashes\"");
    assert_eq!(yaml_quote("line1\nline2"), "\"line1\nline2\"");
}

#[test]
fn slug_of_a_slug_is_the_same_slug() {
    for name in ["Hello World", "--A--b__c--", "x", "", "naïve Café", "TEST_COUNT_MEMBER/CARGO.TOML"] {
        let once = slug_id(name);
        assert_eq!(slug_id(&once), once);
    }
}

#[test]
fn replace_double_hashtag_fills_every_placeholder() {
    assert_eq!(replace_double_hashtag("at least ## commits", 12), "at least 12 commits");
    assert_eq!(replace_double_hashtag("##+##", 0), "0+0");
    assert_eq!(replace_double_hashtag("###", 7), "7#");
    assert_eq!(replace_double_hashtag("none", 4294967295), "none");
    assert_eq!(replace_double_hashtag("##", 4294967295), "4294967295");
}
