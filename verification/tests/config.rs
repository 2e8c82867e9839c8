//! Configuration parsing: the key = value format, lookups, keys, and
//! the display-position syntax.
use dreampipe::ident::u32_to_dec;
use dreampipe::util::parse_u32;
use dreampipe::util::trim_str;
use dreampipe::CompositorConfig;
use dreampipe::Config;
use dreampipe::DisplayPosition;

#[test]
fn bindings_are_parsed_trimmed_and_overridden() {
    let cfg = Config::from_str(
        "a = 1\n# a comment line\n  b=  2  # trailing comment\nline without separator\na = 3\n",
    );
    assert_eq!(cfg.get("a"), Some("3".to_string()));
    assert_eq!(cfg.get("b"), Some("2".to_string()));
    assert_eq!(cfg.get("line without separator"), None);
    assert_eq!(cfg.get("c"), None);
}

#[test]
fn empty_and_comment_only_input_yields_no_bindings() {
    let cfg = Config::from_str("");
    assert_eq!(cfg.get(""), None);
    let cfg2 = Config::from_str("# only\n   \n\t\n# comments");
    assert_eq!(cfg2.get("only"), None);
}

#[test]
fn values_may_contain_equals_signs() {
    let cfg = Config::from_str("key = a=b");
    assert_eq!(cfg.get("key"), Some("a=b".to_string()));
}

#[test]
fn offset_key_appends_the_suffix() {
    assert_eq!(CompositorConfig::offset_key("card0-HDMI-A-1"), "card0-HDMI-A-1.offset");
    assert_eq!(CompositorConfig::offset_key(""), ".offset");
}

#[test]
fn display_position_parses_two_coordinates() {
    let p = DisplayPosition::from_str("10 20").unwrap();
    assert_eq!(p.x, 10);
    assert_eq!(p.y, 20);
    let p2 = DisplayPosition::from_str("4294967295 0").unwrap();
    assert_eq!(p2.x, 4294967295);
    assert_eq!(p2.y, 0);
}

#[test]
fn display_position_rejects_bad_syntax() {
    assert!(DisplayPosition::from_str("1020").is_err());
    assert!(DisplayPosition::from_str("10 20 30").is_err());
    assert!(DisplayPosition::from_str("a 20").is_err());
    assert!(DisplayPosition::from_str("10 b").is_err());
    assert!(DisplayPosition::from_str("4294967296 0").is_err());
    assert!(DisplayPosition::from_str("").is_err());
}

#[test]
fn decimal_parsing_covers_the_edges() {
    assert_eq!(parse_u32("0"), Some(0));
    assert_eq!(parse_u32("007"), Some(7));
    assert_eq!(parse_u32("4294967295"), Some(4294967295));
    assert_eq!(parse_u32("4294967296"), None);
    assert_eq!(parse_u32(""), None);
    assert_eq!(parse_u32("12a"), None);
    assert_eq!(parse_u32("-1"), None);
}

#[test]
fn decimal_rendering_round_trips() {
    assert_eq!(u32_to_dec(0), "0");
    assert_eq!(u32_to_dec(10), "10");
    assert_eq!(u32_to_dec(4294967295), "4294967295");
    assert_eq!(parse_u32(&u32_to_dec(123456789)), Some(123456789));
}

#[test]
fn trimming_strips_outer_whitespace_only() {
    assert_eq!(trim_str("  a b \t\r\n"), "a b");
    assert_eq!(trim_str(""), "");
    assert_eq!(trim_str(" \t "), "");
    assert_eq!(trim_str("x"), "x");
}
