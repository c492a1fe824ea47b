use std::hash::{Hash, Hasher};

use reclaw_core::hash::{hex_text, stable_value_hash};
use reclaw_core::ids::{new_id, new_plain_id};
use reclaw_core::json::{field_names, field_values, object, overlay, set_field, Json};
use reclaw_core::lists::{sanitize, sorted_set};
use reclaw_core::paths::{
    absolutize_path, extension, file_name, join_path, normalize_lexical_path, parent,
};
use reclaw_core::slug::slug_of;
use reclaw_core::sorted_map::SortedMap;
use reclaw_core::text::{
    contains, decimal_text, decimal_text_signed, join, parse_number, precedes, same_ignoring_case,
    split_at_char, strip_prefix, to_lower, trim, trim_char, trim_non_empty,
};

fn owned(items: &[&str]) -> Vec<String> {
    items.iter().map(|s| s.to_string()).collect()
}

#[test]
fn texts_are_trimmed() {
    assert_eq!(trim("\u{a0} a b\t\n"), "a b");
    assert_eq!(trim(&trim("  x ")), trim("  x "));
    assert_eq!(trim_char("//a/b/", '/'), "a/b");
    assert_eq!(trim_non_empty(" \t"), None);
    assert_eq!(trim_non_empty(" x ").as_deref(), Some("x"));
}

#[test]
fn texts_are_split_and_joined() {
    assert_eq!(split_at_char("a::b", ':'), vec!["a", "", "b"]);
    assert_eq!(split_at_char("", ':'), vec![""]);
    assert_eq!(join(&owned(&["a", "b"]), ", "), "a, b");
    assert_eq!(strip_prefix("abc", "ab").as_deref(), Some("c"));
    assert_eq!(strip_prefix("abc", "b"), None);
    assert!(contains("python-lint", "lint"));
    assert!(!contains("py", "python"));
}

#[test]
fn letters_are_compared() {
    assert_eq!(to_lower("ÄBc"), "Äbc");
    assert!(same_ignoring_case("ToKeN", "token"));
    assert!(precedes("a", "b") && !precedes("b", "a") && precedes("a", "aa"));
}

#[test]
fn numbers_are_written_and_read() {
    assert_eq!(decimal_text(0), "0");
    assert_eq!(decimal_text(u64::MAX), "18446744073709551615");
    assert_eq!(decimal_text_signed(-42), "-42");
    assert_eq!(decimal_text_signed(i64::MIN), "-9223372036854775808");
    assert_eq!(parse_number("15", 59), Some(15));
    assert_eq!(parse_number("+7", 59), Some(7));
    assert_eq!(parse_number("60", 59), None);
    assert_eq!(parse_number("x", 59), None);
    assert_eq!(parse_number("", 59), None);
}

#[test]
fn slugs_are_stable() {
    let once = slug_of("  Team_Alpha  7!", false);
    assert_eq!(once, "team-alpha-7");
    assert_eq!(slug_of(&once, false), once);
    assert_eq!(slug_of("A:B", true), "a-b");
    assert_eq!(slug_of("A:B", false), "ab");
    assert_eq!(slug_of("TEAM alpha", false), slug_of("team ALPHA", false));
}

#[test]
fn lists_hold_each_text_once() {
    let values = owned(&[" b ", "a", "", "b", "a "]);
    assert_eq!(sanitize(&values), vec!["b", "a"]);
    assert_eq!(sorted_set(&values), vec!["a", "b"]);
}

#[test]
fn maps_keep_their_keys_in_order() {
    let mut map: SortedMap<u8> = SortedMap::new();
    map.insert("b".to_owned(), 2);
    map.insert("a".to_owned(), 1);
    map.insert("b".to_owned(), 3);
    assert_eq!(map.len(), 2);
    assert_eq!(map.entry(0).0, "a");
    assert_eq!(map.get("b"), Some(&3));
    assert_eq!(map.remove("a"), Some(1));
    assert_eq!(map.remove("a"), None);
    assert!(!map.contains_key("a"));
}

#[test]
fn paths_are_resolved() {
    assert_eq!(join_path("/a", "b"), "/a/b");
    assert_eq!(join_path("/a/", "b"), "/a/b");
    assert_eq!(join_path("/a", "/b"), "/b");
    assert_eq!(parent("/a/b").as_deref(), Some("/a"));
    assert_eq!(file_name("/a/b.toml").as_deref(), Some("b.toml"));
    assert_eq!(extension("/a/b.toml").as_deref(), Some("toml"));
    assert_eq!(extension("/a/.hidden"), None);
    let once = normalize_lexical_path("/a/./b/../c").to_text();
    assert_eq!(once, "/a/c");
    assert_eq!(normalize_lexical_path(&once).to_text(), once);
    assert!(normalize_lexical_path("/a/b").is_within(&normalize_lexical_path("/a")));
    assert!(!normalize_lexical_path("/ab").is_within(&normalize_lexical_path("/a")));
    assert_eq!(absolutize_path("x", Some("/cwd")), "/cwd/x");
    assert_eq!(absolutize_path("/x", Some("/cwd")), "/x");
}

#[test]
fn json_is_read_and_written() {
    let value = Json::read(b"{\"b\": [1, -2, 1.5, \"x\", null, true], \"a\": {}}").expect("JSON");
    assert_eq!(value.to_text(), "{\"a\":{},\"b\":[1,-2,1.5,\"x\",null,true]}");
    assert_eq!(value.copy().to_text(), value.to_text());
    assert!(Json::read(b"{").is_err());
    let raw: serde_json::Value = serde_json::from_str("[18446744073709551615, -1]").expect("JSON");
    assert_eq!(Json::of_value(raw.clone()).to_value(), raw);
}

#[test]
fn members_stand_in_order() {
    let mut o = object();
    set_field(&mut o, "b", Json::Unsigned(2));
    set_field(&mut o, "a", Json::Bool(true));
    assert_eq!(field_names(&o), vec!["a", "b"]);
    assert_eq!(field_values(&o)[0].as_bool(), Some(true));
    let mut over = object();
    set_field(&mut over, "b", Json::Null);
    overlay(&mut o, &over);
    assert_eq!(Json::Object(o).to_text(), "{\"a\":true,\"b\":null}");
}

#[test]
fn ids_differ() {
    let a = new_id();
    assert_eq!(a.len(), 36);
    assert_eq!(&a[14..15], "4");
    assert!(a != new_id());
    let plain = new_plain_id();
    assert_eq!(plain.len(), 32);
    assert!(plain.chars().all(|c| c.is_ascii_hexdigit()));
}

#[test]
fn hashes_tell_values_apart() {
    assert_eq!(hex_text(255, 16), "00000000000000ff");
    let a = stable_value_hash(&Json::Text("a".to_owned()));
    assert_eq!(a.len(), 16);
    assert_eq!(a, stable_value_hash(&Json::Text("a".to_owned())));
    assert!(a != stable_value_hash(&Json::Text("b".to_owned())));
    let expected = {
        let mut hasher = std::collections::hash_map::DefaultHasher::new();
        "\"a\"".to_owned().hash(&mut hasher);
        format!("{:016x}", hasher.finish())
    };
    assert_eq!(a, expected);
}

#[test]
fn fractions_are_kept_to_the_last_digit() {
    let mut n: u64 = 1;
    for _ in 0..2_000 {
        n = n.wrapping_mul(6_364_136_223_846_793_005).wrapping_add(1_442_695_040_888_963_407);
        let number = f64::from_bits(n);
        if number.is_finite() {
            let value = serde_json::Value::from(number);
            let json = Json::of_value(value.clone());
            assert_eq!(json.to_value(), value);
            assert_eq!(json.copy().to_text(), value.to_string());
            assert_eq!(stable_value_hash(&json), stable_value_hash(&Json::of_value(json.to_value())));
        }
    }
    let raw = b"[0.30000000000000004, 1.7976931348623157e308, 2.2250738585072014e-308, -0.0]";
    let read: serde_json::Value = serde_json::from_slice(raw).expect("JSON");
    assert_eq!(Json::read(raw).expect("JSON").to_text(), read.to_string());
}
