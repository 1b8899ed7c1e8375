use regex_value::{Regex, RegexError, Region};

#[test]
fn caches_compiled_regex() {
    let regex = Regex::new(String::from(r"\w+"));

    assert!(!regex.is_compiled());
    assert!(regex.is_match("test"));
    assert!(regex.is_compiled());
}

#[test]
fn try_compile_accepts_valid_pattern() {
    assert!(Regex::try_compile(r"(a)(b)?").is_none());
    assert!(Regex::try_compile(r"\w+").is_none());
}

#[test]
fn try_compile_rejects_unbalanced_group() {
    let err = Regex::try_compile("(a");
    assert_eq!(err, Some(RegexError::InvalidPattern));
}

#[test]
fn round_trip_from_pattern() {
    let v = Regex::new(String::from(r"a(b|c)*d"));
    let bytes = v.serialize().unwrap();
    let loaded = Regex::deserialize(bytes);
    assert!(loaded == v);
    assert!(v == loaded);
}

#[test]
fn round_trip_from_blob() {
    let first = Regex::new(String::from(r"x[0-9]+")).serialize().unwrap();
    let v = Regex::deserialize(first);
    let bytes = v.serialize().unwrap();
    let loaded = Regex::deserialize(bytes);
    assert!(loaded == v);
}

#[test]
fn round_trip_from_tree() {
    let tree = Regex::new(String::from(r"ab+")).expr_tree().unwrap();
    let v = Regex::from_expr_tree(tree);
    let bytes = v.serialize().unwrap();
    let loaded = Regex::deserialize(bytes);
    assert!(loaded == v);
}

#[test]
fn serialize_emits_tree_encoding_from_any_form() {
    let from_text = Regex::new(String::from(r"ab+"));
    let from_tree = Regex::from_expr_tree(from_text.expr_tree().unwrap());
    let from_blob = Regex::deserialize(from_text.serialize().unwrap());
    let expected = bincode::serialize(&String::from(r"ab+")).unwrap();
    assert_ne!(expected, b"ab+".to_vec());
    assert_eq!(from_text.serialize().unwrap(), expected);
    assert_eq!(from_tree.serialize().unwrap(), expected);
    assert_eq!(from_blob.serialize().unwrap(), expected);
}

#[test]
fn serialize_invalid_pattern_fails() {
    let v = Regex::new(String::from("(a"));
    assert_eq!(v.serialize(), Err(RegexError::InvalidPattern));
}

#[test]
fn corrupt_blob_is_reported() {
    let v = Regex::deserialize(vec![0xff, 0xfe, 0x00]);
    assert_eq!(v.serialize(), Err(RegexError::CorruptEncoding));
    match v.expr_tree() {
        Ok(_) => panic!("corrupt blob must not decode"),
        Err(e) => assert_eq!(e, RegexError::CorruptEncoding),
    }
    assert_eq!(v.try_is_match("anything"), None);
}

#[test]
fn clone_independence() {
    let original = Regex::new(String::from(r"c[ad]+r"));
    let clone_a = original.clone();
    let clone_b = original.clone();

    assert!(clone_a.is_match("cadar"));
    assert!(clone_b.is_match("car"));
    assert!(clone_a.is_compiled());
    assert!(clone_b.is_compiled());
    assert!(!original.is_compiled());

    assert!(clone_a == clone_b);
    assert!(clone_a == original);
    assert!(clone_b == original);
}

#[test]
fn region_correctness() {
    let regex = Regex::new(String::from(r"(a)(b)?"));
    let mut region = Region::new();
    let matched = regex.search("a", 0, 1, Some(&mut region));
    assert!(matched);
    assert_eq!(region.pos(0), Some((0, 1)));
    assert_eq!(region.pos(1), Some((0, 1)));
    assert_eq!(region.pos(2), None);
}

#[test]
fn region_reuse_across_patterns() {
    let three_groups = Regex::new(String::from(r"(h)(i)(!)"));
    let mut region = Region::new();
    assert!(three_groups.search("hi!", 0, 3, Some(&mut region)));
    assert!(region.pos(2).is_some());
    assert!(region.pos(3).is_some());

    let word = Regex::new(String::from(r"\w+"));
    assert!(word.search("hi", 0, 2, Some(&mut region)));
    assert_eq!(region.pos(0), Some((0, 2)));
    assert_eq!(region.pos(2), None);
    assert_eq!(region.pos(3), None);
}

#[test]
fn bounded_search_matches_inside_range() {
    let regex = Regex::new(String::from("a"));
    let mut region = Region::new();
    let matched = regex.search("aaa", 1, 2, Some(&mut region));
    assert!(matched);
    assert_eq!(region.pos(0), Some((1, 2)));
}

#[test]
fn search_without_region() {
    let regex = Regex::new(String::from("b"));
    assert!(regex.search("abc", 0, 3, None));
    assert!(!regex.search("abc", 2, 3, None));
}

#[test]
fn no_match_keeps_region_contents() {
    let first = Regex::new(String::from(r"(x)(y)"));
    let mut region = Region::new();
    assert!(first.search("xy", 0, 2, Some(&mut region)));
    assert_eq!(region.pos(1), Some((0, 1)));

    let second = Regex::new(String::from("z"));
    assert!(!second.search("xy", 0, 2, Some(&mut region)));
    assert_eq!(region.pos(1), Some((0, 1)));
}

#[test]
fn equality_across_representations() {
    let from_text = Regex::new(String::from(r"ab*"));
    let tree = from_text.expr_tree().unwrap();
    let from_tree = Regex::from_expr_tree(tree);

    assert!(!from_text.is_compiled());
    assert!(!from_tree.is_compiled());
    assert!(from_tree == from_text);
    assert!(from_text == from_tree);
}

#[test]
fn unequal_patterns_compare_unequal() {
    let a = Regex::new(String::from("abc"));
    let b = Regex::new(String::from("abd"));
    assert!(a != b);
}

#[test]
fn invalid_value_equals_nothing() {
    let bad = Regex::new(String::from("(a"));
    let good = Regex::new(String::from("a"));
    assert!(bad != good);
    assert!(bad != bad.clone());
}

#[test]
fn try_is_match_checks_the_pattern() {
    let good = Regex::new(String::from(r"b.d"));
    assert_eq!(good.try_is_match("dcb"), Some(false));
    assert_eq!(good.try_is_match("bad"), Some(true));

    let bad = Regex::new(String::from("(a"));
    assert_eq!(bad.try_is_match("bad"), None);
}

#[test]
fn try_search_checks_bounds() {
    let regex = Regex::new(String::from("é"));
    let text = "aé";
    let mut region = Region::new();
    assert_eq!(regex.try_search(text, 0, 2, Some(&mut region)), None);
    assert_eq!(regex.try_search(text, 0, 3, Some(&mut region)), Some(true));
    assert_eq!(region.pos(0), Some((1, 3)));
    assert_eq!(regex.try_search(text, 0, 9, None), None);
}

#[test]
fn empty_region_has_no_positions() {
    let region = Region::new();
    assert_eq!(region.pos(0), None);
    let default_region = Region::default();
    assert_eq!(default_region.pos(0), None);
}

#[test]
fn is_match_compiles_lazily_from_blob() {
    let bytes = Regex::new(String::from(r"\d{2}")).serialize().unwrap();
    let v = Regex::deserialize(bytes);
    assert!(!v.is_compiled());
    assert!(v.is_match("year 2026"));
    assert!(!v.is_match("no digits"));
    assert!(v.is_compiled());
}
