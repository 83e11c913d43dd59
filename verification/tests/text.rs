use relay_server::str_map::StrMap;
use relay_server::text::{
    chars_of, clone_opt, contains, decimal_string, hex_encode, join_with_space, starts_with,
    str_eq, string_from_chars,
};
use relay_server::validate::{has_length_between, validation_error};

#[test]
fn str_eq_compares_texts() {
    assert!(str_eq("", ""));
    assert!(str_eq("abc", "abc"));
    assert!(!str_eq("abc", "abd"));
    assert!(!str_eq("abc", "ab"));
}

#[test]
fn chars_round_trip() {
    assert_eq!(chars_of("aé—z"), vec!['a', 'é', '—', 'z']);
    assert_eq!(string_from_chars(&vec!['a', 'é', '—', 'z']), "aé—z");
    assert_eq!(string_from_chars(&vec![]), "");
    assert_eq!(clone_opt(&Some("x".to_string())), Some("x".to_string()));
    assert_eq!(clone_opt(&None), None);
}

#[test]
fn starts_with_and_contains() {
    assert!(starts_with("10.0.0.1", "10."));
    assert!(!starts_with("110.0.0.1", "10."));
    assert!(starts_with("abc", ""));
    assert!(starts_with("", ""));
    assert!(!starts_with("", "a"));
    assert!(!starts_with("ab", "abc"));
    assert!(contains("Session not found", "not found"));
    assert!(contains("Session is full (maximum 8 participants)", "full"));
    assert!(!contains("Session is full (maximum 8 participants)", "not found"));
    assert!(contains("abc", ""));
    assert!(contains("", ""));
    assert!(!contains("", "a"));
    assert!(contains("aab", "ab"));
    assert!(contains("xlocalhost", "localhost"));
    assert!(!contains("localhos", "localhost"));
}

#[test]
fn join_with_space_puts_one_space_between() {
    assert_eq!(join_with_space(&vec![]), "");
    assert_eq!(join_with_space(&vec!["a".to_string()]), "a");
    assert_eq!(
        join_with_space(&vec!["a".to_string(), "b c".to_string(), "".to_string()]),
        "a b c "
    );
}

#[test]
fn decimal_string_writes_numerals() {
    assert_eq!(decimal_string(0), "0");
    assert_eq!(decimal_string(7), "7");
    assert_eq!(decimal_string(10), "10");
    assert_eq!(decimal_string(1000), "1000");
    assert_eq!(decimal_string(u32::MAX), "4294967295");
}

#[test]
fn hex_encode_writes_two_digits_per_byte() {
    assert_eq!(hex_encode(&vec![]), "");
    assert_eq!(hex_encode(&vec![0]), "00");
    assert_eq!(hex_encode(&vec![255, 16, 1]), "ff1001");
    let all: Vec<u8> = (0..=255).collect();
    let expected: String = all.iter().map(|b| format!("{:02x}", b)).collect();
    assert_eq!(hex_encode(&all), expected);
}

#[test]
fn length_bounds_count_characters() {
    assert!(has_length_between("a", 1, 1));
    assert!(!has_length_between("", 1, 255));
    assert!(has_length_between("ééé", 3, 3));
    assert!(!has_length_between("ééé", 4, 6));
    assert!(!has_length_between("abcd", 1, 3));
    assert_eq!(validation_error("f"), "Validation error: f: length is out of range");
}

#[test]
fn str_map_keeps_the_order_of_insertion() {
    let mut map: StrMap<u32> = StrMap::new();
    assert_eq!(map.len(), 0);
    assert_eq!(map.insert("b".to_string(), 1), None);
    assert_eq!(map.insert("a".to_string(), 2), None);
    assert_eq!(map.insert("c".to_string(), 3), None);
    assert_eq!(map.insert("a".to_string(), 4), Some(2));
    assert_eq!(map.len(), 3);
    assert_eq!(map.find("b"), Some(0));
    assert_eq!(map.find("a"), Some(1));
    assert_eq!(map.find("z"), None);
    assert_eq!(map.get("a"), Some(&4));
    assert_eq!(map.get("z"), None);
    assert!(map.contains_key("c"));
    assert_eq!(map.key_at(2), "c");
    assert_eq!(*map.value_at(2), 3);
    assert_eq!(map.replace_at(0, 9), 1);
    assert_eq!(map.get("b"), Some(&9));
    assert_eq!(map.remove("z"), None);
    assert_eq!(map.remove("b"), Some(9));
    assert_eq!(map.find("a"), Some(0));
    assert_eq!(map.remove_at(1), ("c".to_string(), 3));
    assert_eq!(map.len(), 1);
}

#[test]
fn str_map_retains_the_flagged_entries() {
    let mut map: StrMap<u32> = StrMap::new();
    for (i, k) in ["a", "b", "c", "d", "e"].iter().enumerate() {
        map.insert(k.to_string(), i as u32);
    }
    map.retain_flags(&vec![true, false, true, false, false]);
    assert_eq!(map.len(), 2);
    assert_eq!(map.key_at(0), "a");
    assert_eq!(map.key_at(1), "c");
    assert_eq!(map.get("c"), Some(&2));
    assert_eq!(map.get("b"), None);
    map.retain_flags(&vec![false, false]);
    assert_eq!(map.len(), 0);
    map.retain_flags(&vec![]);
    assert_eq!(map.len(), 0);
}
