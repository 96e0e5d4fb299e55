use nested_env_parser::environment::read_variable;
use nested_env_parser::{expand, Env, ExpansionMode, OsFamily};

#[test]
fn resolves_unix_placeholders() {
    envmnt::set("VALUE1", "Hello,");
    envmnt::set("VALUE2", "world");
    assert_eq!(expand("$VALUE1 ${VALUE2}!", ExpansionMode::Unix), "Hello, world!");
    let env = Env::new("$VALUE1 ${VALUE2}!", OsFamily::Unix);
    assert_eq!(env.as_str(), "Hello, world!");
}

#[test]
fn leaves_undefined_variable_as_written() {
    envmnt::remove("UNDEFINED_XYZ");
    assert_eq!(expand("$UNDEFINED_XYZ", ExpansionMode::Unix), "$UNDEFINED_XYZ");
    assert_eq!(expand("${UNDEFINED_XYZ}", ExpansionMode::Unix), "${UNDEFINED_XYZ}");
    assert_eq!(expand("%UNDEFINED_XYZ%", ExpansionMode::Windows), "%UNDEFINED_XYZ%");
    assert_eq!(expand("a $UNDEFINED_XYZ b", ExpansionMode::All), "a $UNDEFINED_XYZ b");
}

#[test]
fn copies_unclosed_brace() {
    envmnt::set("UNCLOSED", "closed");
    assert_eq!(expand("${UNCLOSED", ExpansionMode::Unix), "${UNCLOSED");
    assert_eq!(expand("%UNCLOSED", ExpansionMode::Windows), "%UNCLOSED");
}

#[test]
fn empty_names_stay_as_written() {
    assert_eq!(expand("${}", ExpansionMode::Unix), "${}");
    assert_eq!(expand("%%", ExpansionMode::Windows), "%%");
}

#[test]
fn plain_text_is_unchanged_in_every_mode() {
    for mode in [ExpansionMode::Unix, ExpansionMode::Windows, ExpansionMode::All] {
        assert_eq!(expand("nothing to expand here", mode), "nothing to expand here");
        assert_eq!(expand("", mode), "");
    }
}

#[test]
fn expanding_a_plain_result_again_changes_nothing() {
    envmnt::set("FIXED_POINT_A", "one");
    envmnt::set("FIXED_POINT_B", "two");
    let once = expand("$FIXED_POINT_A and ${FIXED_POINT_B}", ExpansionMode::Unix);
    assert_eq!(once, "one and two");
    assert_eq!(expand(&once, ExpansionMode::Unix), once);
}

#[test]
fn substituted_values_are_not_scanned_again() {
    envmnt::set("ONE_PASS_OUTER", "$ONE_PASS_INNER %ONE_PASS_INNER%");
    envmnt::set("ONE_PASS_INNER", "deep");
    assert_eq!(expand("${ONE_PASS_OUTER}", ExpansionMode::All), "$ONE_PASS_INNER %ONE_PASS_INNER%");
}

#[test]
fn read_variable_reports_what_is_set() {
    envmnt::set("READ_VARIABLE_SET", "value");
    envmnt::remove("READ_VARIABLE_UNSET");
    assert_eq!(read_variable("READ_VARIABLE_SET"), Some("value".to_string()));
    assert_eq!(read_variable("READ_VARIABLE_UNSET"), None);
    assert_eq!(read_variable(""), None);
    assert_eq!(read_variable("A=B"), None);
}

#[test]
fn env_compares_with_plain_strings_both_ways() {
    let env = Env::new("abc", OsFamily::Unix);
    assert!(env == *"abc");
    assert!(*"abc" == env);
    assert!(env == "abc".to_string());
    assert!("abc".to_string() == env);
    assert!(env.eq_str("abc"));
    assert!(!(env == *"abd"));
    assert!(!("ab".to_string() == env));
    assert!(!env.eq_str("abcd"));
}

#[test]
fn env_reads_like_a_string() {
    let env = Env::with_mode("abc", ExpansionMode::All);
    assert_eq!(env.len(), 3);
    assert_eq!(env.as_str(), "abc");
    let text: &str = env.as_ref();
    assert_eq!(text, "abc");
    let copy = env.clone();
    assert!(copy == env);
    assert_eq!(env.into_string(), "abc".to_string());
}

#[test]
fn env_takes_the_mode_of_the_family() {
    envmnt::set("FAMILY_VALUE", "set");
    assert_eq!(Env::new("$FAMILY_VALUE %FAMILY_VALUE%", OsFamily::Unix).as_str(), "set %FAMILY_VALUE%");
    assert_eq!(Env::new("$FAMILY_VALUE %FAMILY_VALUE%", OsFamily::Windows).as_str(), "$FAMILY_VALUE set");
    assert_eq!(Env::new("$FAMILY_VALUE %FAMILY_VALUE%", OsFamily::Other).as_str(), "set set");
}
