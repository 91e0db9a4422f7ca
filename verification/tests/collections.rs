use pyoxidizer::name_map::NameMap;
use pyoxidizer::string_set::StringSet;
use pyoxidizer::text::{
    str_contains, str_ends_with, str_eq, str_lt, str_starts_with, strings_contain,
};

fn set_of(names: &[&str]) -> StringSet {
    let mut set = StringSet::new();
    for name in names {
        set.insert(name.to_string());
    }
    set
}

#[test]
fn strings_are_ordered_by_their_bytes() {
    assert!(str_lt("a", "b"));
    assert!(!str_lt("b", "a"));
    assert!(!str_lt("a", "a"));
    assert!(str_lt("", "a"));
    assert!(!str_lt("a", ""));
    assert!(str_lt("ab", "abc"));
    assert!(str_lt("Z", "a"));
    assert!(str_lt("abc", "abd"));
    // As `str` orders them: by the bytes of the encoding.
    assert!(str_lt("z", "é"));
    assert_eq!(str_lt("é", "z"), "é" < "z");
    assert_eq!(str_lt("foo.bar", "foo_bar"), "foo.bar" < "foo_bar");
}

#[test]
fn strings_are_equal_when_their_text_is() {
    assert!(str_eq("", ""));
    assert!(str_eq("shared-library", "shared-library"));
    assert!(!str_eq("shared-library", "shared-librarz"));
    assert!(!str_eq("a", "ab"));
    assert!(!str_eq("ab", "a"));
}

#[test]
fn substrings_are_found() {
    assert!(str_contains("x86_64-pc-windows-msvc", "pc-windows"));
    assert!(!str_contains("x86_64-unknown-linux-gnu", "pc-windows"));
    assert!(str_contains("x86_64-unknown-linux-musl", "linux-musl"));
    assert!(str_contains("abc", ""));
    assert!(str_contains("", ""));
    assert!(!str_contains("", "a"));
    assert!(!str_contains("ab", "abc"));
    assert!(str_contains("aab", "ab"));
}

#[test]
fn ends_and_beginnings_are_found() {
    assert!(str_ends_with("cpython.tar.zst", ".tar.zst"));
    assert!(!str_ends_with("cpython.tar.gz", ".tar.zst"));
    assert!(!str_ends_with("zst", ".tar.zst"));
    assert!(str_ends_with("abc", ""));
    assert!(str_starts_with("__init__.py", "__init__."));
    assert!(!str_starts_with("__init__", "__init__."));
    assert!(!str_starts_with("x__init__.py", "__init__."));
    assert!(str_starts_with("abc", ""));
}

#[test]
fn a_string_is_found_in_a_list() {
    let items = vec!["static".to_string(), "shared-library".to_string()];
    assert!(strings_contain(&items, "shared-library"));
    assert!(strings_contain(&items, "static"));
    assert!(!strings_contain(&items, "shared"));
    assert!(!strings_contain(&Vec::new(), "shared-library"));
}

#[test]
fn a_set_keeps_its_names_in_order_and_once() {
    let mut set = StringSet::new();
    assert!(set.is_empty());
    assert!(set.insert("m".to_string()));
    assert!(set.insert("z".to_string()));
    assert!(set.insert("a".to_string()));
    assert!(!set.insert("m".to_string()));
    assert_eq!(set.len(), 3);
    assert_eq!(
        set.names(),
        &vec!["a".to_string(), "m".to_string(), "z".to_string()]
    );
    assert!(set.contains("a"));
    assert!(set.contains("m"));
    assert!(set.contains("z"));
    assert!(!set.contains("b"));
    assert!(!set.contains(""));
    assert!(!set.is_empty());
}

#[test]
fn a_set_takes_the_names_of_another() {
    let mut set = set_of(&["ssl", "crypto"]);
    set.extend(&set_of(&["z", "crypto", "bz2"]));
    assert_eq!(
        set.names(),
        &vec![
            "bz2".to_string(),
            "crypto".to_string(),
            "ssl".to_string(),
            "z".to_string()
        ]
    );
    let copy = set.clone();
    assert_eq!(copy, set);
}

#[test]
fn a_map_holds_one_value_for_a_name() {
    let mut map: NameMap<u32> = NameMap::new();
    assert_eq!(map.len(), 0);
    map.insert("b".to_string(), 2);
    map.insert("a".to_string(), 1);
    map.insert("c".to_string(), 3);
    map.insert("b".to_string(), 20);
    assert_eq!(map.len(), 3);
    assert_eq!(map.get("a"), Some(&1));
    assert_eq!(map.get("b"), Some(&20));
    assert_eq!(map.get("c"), Some(&3));
    assert_eq!(map.get("d"), None);
    assert!(map.contains_key("a"));
    assert!(!map.contains_key("ab"));
    assert_eq!(
        map.items(),
        &vec![
            ("a".to_string(), 1),
            ("b".to_string(), 20),
            ("c".to_string(), 3)
        ]
    );
}

#[test]
fn a_map_drops_what_is_taken_out_or_not_kept() {
    let mut map: NameMap<u32> = NameMap::new();
    for (i, name) in ["d", "b", "a", "c"].iter().enumerate() {
        map.insert(name.to_string(), i as u32);
    }
    assert_eq!(map.remove("b"), Some(1));
    assert_eq!(map.remove("b"), None);
    assert_eq!(map.len(), 3);
    map.retain_names(&set_of(&["a", "d", "x"]));
    assert_eq!(map.items(), &vec![("a".to_string(), 2), ("d".to_string(), 0)]);
    let copy = map.clone();
    assert_eq!(copy, map);
    map.retain_names(&StringSet::new());
    assert_eq!(map.len(), 0);
}
