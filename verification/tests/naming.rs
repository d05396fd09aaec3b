use cmdkit_macros::naming::to_pascal;
use cmdkit_macros::strategy::factory_name;

#[test]
fn pascal_of_snake_case_names() {
    assert_eq!(to_pascal("create_directory"), "CreateDirectory");
    assert_eq!(to_pascal("list"), "List");
    assert_eq!(to_pascal("a_b_c"), "ABC");
}

#[test]
fn pascal_of_empty_and_underscore_only_names() {
    assert_eq!(to_pascal(""), "");
    assert_eq!(to_pascal("_"), "");
    assert_eq!(to_pascal("___"), "");
}

#[test]
fn pascal_skips_leading_trailing_and_repeated_underscores() {
    assert_eq!(to_pascal("_private_name"), "PrivateName");
    assert_eq!(to_pascal("trailing_"), "Trailing");
    assert_eq!(to_pascal("double__underscore"), "DoubleUnderscore");
}

#[test]
fn pascal_keeps_the_rest_of_each_word() {
    assert_eq!(to_pascal("already_Mixed_CASE"), "AlreadyMixedCASE");
    assert_eq!(to_pascal("v2_api"), "V2Api");
    assert_eq!(to_pascal("x9"), "X9");
}

#[test]
fn pascal_uses_the_unicode_uppercase_mapping() {
    assert_eq!(to_pascal("élan_vital"), "ÉlanVital");
    // the uppercase mapping of 'ß' has two characters
    assert_eq!(to_pascal("ßtraße"), "SStraße");
}

#[test]
fn pascal_splits_at_an_underscore() {
    let left = "make_new";
    let right = "thing_now";
    let joined = format!("{}_{}", left, right);
    assert_eq!(to_pascal(&joined), format!("{}{}", to_pascal(left), to_pascal(right)));
}

#[test]
fn pascal_is_idempotent_on_ascii_names() {
    for name in ["simple_cli_strategy", "_x_", "abc", "Already", "a1_b2"] {
        let once = to_pascal(name);
        assert_eq!(to_pascal(&once), once);
        assert!(!once.contains('_'));
        assert_eq!(once.len(), name.chars().filter(|c| *c != '_').count());
    }
}

#[test]
fn factory_name_appends_strategy() {
    assert_eq!(factory_name("create_directory"), "create_directory_strategy");
    assert_eq!(factory_name(""), "_strategy");
}

#[test]
fn pascal_is_empty_exactly_for_underscore_only_names() {
    for name in ["", "_", "__", "____", "a", "_é_", "ß", "__x__"] {
        assert_eq!(to_pascal(name).is_empty(), name.chars().all(|c| c == '_'));
    }
}
