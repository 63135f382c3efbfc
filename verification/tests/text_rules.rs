use seance::config::{anchor_pattern, default_forward_pings, AutoproxyConfig, Config, System};
use seance::config::Member;
use seance::text::{parse_u64, split_by, str_eq, trim};

fn member(name: &str, pattern: &str) -> Member {
    Member {
        name: name.to_string(),
        message_pattern: anchor_pattern(pattern),
        discord_token: "token".to_string(),
        user_id: None,
        presence: None,
        status: None,
    }
}

fn system_with(members: Vec<Member>, autoproxy: Option<AutoproxyConfig>) -> System {
    System {
        reference_user_id: "1".to_string(),
        members,
        forward_pings: false,
        autoproxy,
        pluralkit: None,
        ui_color: None,
    }
}

#[test]
fn trim_removes_surrounding_whitespace() {
    assert_eq!(trim("  hello  "), "hello");
    assert_eq!(trim("hello"), "hello");
    assert_eq!(trim("\t a b \n"), "a b");
    assert_eq!(trim("   "), "");
    assert_eq!(trim(""), "");
}

#[test]
fn split_keeps_empty_segments() {
    let parts = split_by("!s/world/there/", '/');
    assert_eq!(parts, vec!["!s", "world", "there", ""]);
    let parts = split_by("abc", '/');
    assert_eq!(parts, vec!["abc"]);
    let parts = split_by("a//b", '/');
    assert_eq!(parts, vec!["a", "", "b"]);
}

#[test]
fn parse_u64_accepts_digits_only() {
    assert_eq!(parse_u64("123"), Some(123));
    assert_eq!(parse_u64("0"), Some(0));
    assert_eq!(parse_u64("18446744073709551615"), Some(u64::MAX));
    assert_eq!(parse_u64(""), None);
    assert_eq!(parse_u64("12a"), None);
    assert_eq!(parse_u64("+5"), None);
    assert_eq!(parse_u64("18446744073709551616"), None);
    assert_eq!(parse_u64("99999999999999999999999"), None);
}

#[test]
fn str_eq_compares_characters() {
    assert!(str_eq("abc", "abc"));
    assert!(!str_eq("abc", "abd"));
    assert!(!str_eq("abc", "ab"));
    assert!(str_eq("", ""));
}

#[test]
fn anchor_pattern_wraps_once() {
    assert_eq!(anchor_pattern("abc"), "^abc$");
    assert_eq!(anchor_pattern("^abc$"), "^abc$");
    assert_eq!(anchor_pattern("^abc"), "^abc$");
    assert_eq!(anchor_pattern("abc$"), "^abc$");
    assert_eq!(anchor_pattern(""), "^$");
}

#[test]
fn forward_pings_default_is_off() {
    assert!(!default_forward_pings());
}

#[test]
fn config_validation_checks_autoproxy_member_name() {
    let good = Config {
        systems: vec![(
            "sys".to_string(),
            system_with(
                vec![member("A", "A:(?P<content>.*)")],
                Some(AutoproxyConfig::Member { name: "A".to_string() }),
            ),
        )],
    };
    assert!(good.validate());

    let bad = Config {
        systems: vec![(
            "sys".to_string(),
            system_with(
                vec![member("A", "A:(?P<content>.*)")],
                Some(AutoproxyConfig::Member { name: "B".to_string() }),
            ),
        )],
    };
    assert!(!bad.validate());

    let none = Config {
        systems: vec![("sys".to_string(), system_with(vec![member("A", "x")], None))],
    };
    assert!(none.validate());
}
