use my_reboot::errors::ErrorCategory;
use my_reboot::file_content_as_hash_map::file_content_to_hash_map as parse_content;
use my_reboot::grubenv::{Grubenv, GRUBENV_CONTENT_LENGTH};
use my_reboot::properties::{escape_value, unescape_value, Properties};
use my_reboot::string_map::StringMap;

const GRUBENV_HEADER_LINE: &str = "# GRUB Environment Block\n";

#[test]
fn file_content_to_hash_map() {
    let file_content = "abc=xyz\n#ignored line\njjj=123";

    let hash_map = my_reboot::file_content_as_hash_map::file_content_to_hash_map(file_content)
        .unwrap();

    assert_eq!(hash_map.len(), 2);
    assert_eq!(hash_map.get("abc").unwrap().as_str(), "xyz");
    assert_eq!(hash_map.get("jjj").unwrap().as_str(), "123");
}

#[test]
fn hash_map_to_file_content() {
    const EXPECTED_LINE_1: &str = "abc=xyz\n";
    const EXPECTED_LINE_2: &str = "jjj=123\n";
    let expected_prefix_1 = format!("{EXPECTED_LINE_1}{EXPECTED_LINE_2}");
    let expected_prefix_2 = format!("{EXPECTED_LINE_2}{EXPECTED_LINE_1}");
    assert_eq!(expected_prefix_1.len(), expected_prefix_2.len());

    let mut hash_map = StringMap::new();
    hash_map.set("abc", "xyz");
    hash_map.set("jjj", "123");

    let file_content = my_reboot::file_content_as_hash_map::hash_map_to_file_content(&hash_map);

    assert!(file_content == expected_prefix_1 || file_content == expected_prefix_2);
}

#[test]
fn comment_stripping_scenario() {
    let hash_map = parse_content("abc=xyz\n#ignored\njjj=123").unwrap();

    assert_eq!(hash_map.len(), 2);
    assert_eq!(hash_map.get("abc").unwrap().as_str(), "xyz");
    assert_eq!(hash_map.get("jjj").unwrap().as_str(), "123");
}

#[test]
fn parse_serialize_round_trip() {
    let mut m = StringMap::new();
    m.set("alpha", "one=two");
    m.set("beta", "");
    m.set("gamma", "with spaces");

    let reparsed =
        parse_content(&my_reboot::file_content_as_hash_map::hash_map_to_file_content(&m)).unwrap();

    assert_eq!(reparsed.len(), 3);
    assert_eq!(reparsed.get("alpha").unwrap().as_str(), "one=two");
    assert_eq!(reparsed.get("beta").unwrap().as_str(), "");
    assert_eq!(reparsed.get("gamma").unwrap().as_str(), "with spaces");
}

#[test]
fn line_without_equals_is_an_integrity_error() {
    let result = parse_content("abc=xyz\nbroken line");

    let e = result.err().expect("result should be Err(_)");
    assert_eq!(e.category, ErrorCategory::Integrity);
}

#[test]
fn escape_doubles_backslashes() {
    assert_eq!(escape_value(r"a\b\\c"), r"a\\b\\\\c");
    assert_eq!(escape_value("plain"), "plain");
}

#[test]
fn unescape_halves_doubled_backslashes() {
    assert_eq!(unescape_value(r"a\\b\\\\c"), r"a\b\\c");
    assert_eq!(unescape_value(r"\"), r"\");
}

#[test]
fn escape_round_trip() {
    for v in [r"\", r"\\", r"a\b", r"ends with \", r"\\\ mixed \ up", ""] {
        assert_eq!(unescape_value(&escape_value(v)), v);
    }
}

fn create_properties() -> Properties {
    let mut properties = Properties::empty();
    properties.set("abc", "xyz");
    properties.set("jjj", "12\\3");
    properties
}

#[test]
fn hash_map_from_file_content() {
    let file_content = "abc=xyz\n#ignored line\njjj=12\\\\3";

    let hash_map = Properties::hash_map_from_file_content(file_content).unwrap();

    assert_eq!(hash_map.len(), 2);
    assert_eq!(hash_map.get("abc").unwrap().as_str(), "xyz");
    assert_eq!(hash_map.get("jjj").unwrap().as_str(), r"12\3");
}

#[test]
fn properties_get() {
    let properties = create_properties();

    assert_eq!(properties.get("abc"), Some(&"xyz".to_string()));
    assert_eq!(properties.get("jjj"), Some(&r"12\3".to_string()));
}

#[test]
fn properties_set() {
    let mut properties = create_properties();

    properties.set("@@@", "###");
    properties.set("jjj", "999");

    assert_eq!(properties.len(), 3);
    assert_eq!(properties.get("abc").unwrap().as_str(), "xyz");
    assert_eq!(properties.get("jjj").unwrap().as_str(), "999");
    assert_eq!(properties.get("@@@").unwrap().as_str(), "###");
}

#[test]
fn properties_unset() {
    let mut properties = create_properties();

    properties.unset("jjj");

    assert_eq!(properties.len(), 1);
    assert_eq!(properties.get("abc").unwrap().as_str(), "xyz");
}

#[test]
fn properties_to_file_content() {
    const EXPECTED_LINE_1: &str = "abc=xyz\n";
    const EXPECTED_LINE_2: &str = "jjj=12\\\\3\n";
    let expected_prefix_1 = format!("{EXPECTED_LINE_1}{EXPECTED_LINE_2}");
    let expected_prefix_2 = format!("{EXPECTED_LINE_2}{EXPECTED_LINE_1}");
    assert_eq!(expected_prefix_1.len(), expected_prefix_2.len());

    let properties = create_properties();

    let file_content = properties.to_file_content();
    assert!(file_content == expected_prefix_1 || file_content == expected_prefix_2);
}

#[test]
fn properties_load_round_trip() {
    let properties = create_properties();

    let reloaded = Properties::from_file_content(&properties.to_file_content()).unwrap();

    assert_eq!(reloaded.len(), 2);
    assert_eq!(reloaded.get("abc").unwrap().as_str(), "xyz");
    assert_eq!(reloaded.get("jjj").unwrap().as_str(), r"12\3");
}

fn create_grubenv() -> Grubenv {
    let mut grubenv = Grubenv::empty();
    grubenv.set("abc", "xyz");
    grubenv.set("jjj", "123");
    grubenv
}

#[test]
fn from_file_content() {
    let file_content = "abc=xyz\n#ignored line\njjj=123";

    let grubenv = Grubenv::from_file_content(file_content).unwrap();

    assert_eq!(grubenv.len(), 2);
    assert_eq!(grubenv.get("abc").unwrap().as_str(), "xyz");
    assert_eq!(grubenv.get("jjj").unwrap().as_str(), "123");
}

#[test]
fn grubenv_get() {
    let grubenv = create_grubenv();

    assert_eq!(grubenv.get("abc"), Some(&"xyz".to_string()));
    assert_eq!(grubenv.get("jjj"), Some(&"123".to_string()));
}

#[test]
fn grubenv_set() {
    let mut grubenv = create_grubenv();

    grubenv.set("@@@", "###");
    grubenv.set("jjj", "999");

    assert_eq!(grubenv.len(), 3);
    assert_eq!(grubenv.get("abc").unwrap().as_str(), "xyz");
    assert_eq!(grubenv.get("jjj").unwrap().as_str(), "999");
    assert_eq!(grubenv.get("@@@").unwrap().as_str(), "###");
}

#[test]
fn grubenv_unset() {
    let mut grubenv = create_grubenv();

    grubenv.unset("abc");

    assert_eq!(grubenv.len(), 1);
    assert_eq!(grubenv.get("jjj").unwrap().as_str(), "123");
}

#[test]
fn grubenv_to_file_content() {
    const EXPECTED_LINE_1: &str = "abc=xyz\n";
    const EXPECTED_LINE_2: &str = "jjj=123\n";
    let expected_lines_1_and_2 = format!("{EXPECTED_LINE_1}{EXPECTED_LINE_2}");
    let expected_lines_2_and_1 = format!("{EXPECTED_LINE_2}{EXPECTED_LINE_1}");
    assert_eq!(expected_lines_1_and_2.len(), expected_lines_2_and_1.len());

    let grubenv = create_grubenv();

    let file_content = grubenv.to_file_content().unwrap();

    assert_eq!(file_content.len(), GRUBENV_CONTENT_LENGTH);
    assert!(file_content.starts_with(GRUBENV_HEADER_LINE));

    let remaining = &file_content[GRUBENV_HEADER_LINE.len()..];
    assert!(
        remaining.starts_with(&expected_lines_1_and_2)
            || remaining.starts_with(&expected_lines_2_and_1)
    );

    let remaining = &remaining[expected_lines_1_and_2.len()..];
    assert!(!remaining.contains(|c| c != '#'));
}

#[test]
fn grubenv_round_trip_stays_full_size() {
    let grubenv = create_grubenv();

    let reloaded = Grubenv::from_file_content(&grubenv.to_file_content().unwrap()).unwrap();

    assert_eq!(reloaded.len(), 2);
    assert_eq!(reloaded.get("abc").unwrap().as_str(), "xyz");
    assert_eq!(reloaded.get("jjj").unwrap().as_str(), "123");
    assert_eq!(
        reloaded.to_file_content().unwrap().len(),
        GRUBENV_CONTENT_LENGTH
    );
}

#[test]
fn grubenv_overflow_is_fatal() {
    let mut grubenv = Grubenv::empty();
    let long_value: String = std::iter::repeat('x').take(1100).collect();
    grubenv.set("big", &long_value);

    let result = grubenv.to_file_content();

    let e = result.err().expect("result should be Err(_)");
    assert_eq!(e.category, ErrorCategory::Integrity);
}

#[test]
fn empty_content_parses_to_an_empty_map() {
    let hash_map = parse_content("").unwrap();
    assert_eq!(hash_map.len(), 0);

    let only_comments = parse_content("# one\n#two\n").unwrap();
    assert_eq!(only_comments.len(), 0);
}

#[test]
fn later_duplicate_keys_override_earlier_ones() {
    let hash_map = parse_content("k=1\nk=2\n").unwrap();

    assert_eq!(hash_map.len(), 1);
    assert_eq!(hash_map.get("k").unwrap().as_str(), "2");
}

#[test]
fn grubenv_content_may_fill_the_block_exactly() {
    // Header (25 bytes) + "k=" + value + "\n" = 1024 exactly.
    let mut grubenv = Grubenv::empty();
    let value: String = std::iter::repeat('x').take(996).collect();
    grubenv.set("k", &value);

    let content = grubenv.to_file_content().unwrap();
    assert_eq!(content.len(), GRUBENV_CONTENT_LENGTH);
    assert!(!content.contains('#') || content.starts_with(GRUBENV_HEADER_LINE));

    // One more byte and the block overflows.
    let value: String = std::iter::repeat('x').take(997).collect();
    grubenv.set("k", &value);
    assert_eq!(
        grubenv.to_file_content().err().unwrap().category,
        ErrorCategory::Integrity
    );
}

#[test]
fn unescape_inline_rewrites_every_value() {
    let mut map = StringMap::new();
    map.set("a", r"x\\y");
    map.set("b", r"\\\\");

    Properties::unescape_inline(&mut map);

    assert_eq!(map.get("a").unwrap().as_str(), r"x\y");
    assert_eq!(map.get("b").unwrap().as_str(), r"\\");
}
