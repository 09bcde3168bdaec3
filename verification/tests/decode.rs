use mdtypst::meta::decode_frontmatter;

#[test]
fn empty_block_yields_default() {
    let meta = decode_frontmatter("").unwrap();
    assert_eq!(meta.title, "");
}

#[test]
fn title_taken_as_is() {
    let meta = decode_frontmatter("title: Hello").unwrap();
    assert_eq!(meta.title, "Hello");
}

#[test]
fn unknown_keys_are_ignored() {
    let meta = decode_frontmatter("title: X\nauthor: Y\ndate: 2024-01-01").unwrap();
    assert_eq!(meta.title, "X");
}

#[test]
fn missing_title_defaults_to_empty() {
    let meta = decode_frontmatter("author: Y").unwrap();
    assert_eq!(meta.title, "");
}

#[test]
fn quoted_title_keeps_punctuation() {
    let meta = decode_frontmatter("title: \"A: B\"").unwrap();
    assert_eq!(meta.title, "A: B");
}

#[test]
fn numeric_title_is_its_text() {
    let meta = decode_frontmatter("title: 2024").unwrap();
    assert_eq!(meta.title, "2024");
}

#[test]
fn boolean_title_is_its_text() {
    let meta = decode_frontmatter("title: true").unwrap();
    assert_eq!(meta.title, "true");
}

#[test]
fn empty_title_value_is_empty_text() {
    let meta = decode_frontmatter("title:\nauthor: Y").unwrap();
    assert_eq!(meta.title, "");
}

#[test]
fn malformed_yaml_is_an_error() {
    assert!(decode_frontmatter("title: [unclosed").is_err());
}

#[test]
fn non_mapping_block_is_an_error() {
    assert!(decode_frontmatter("just a scalar").is_err());
}

#[test]
fn non_scalar_title_is_an_error() {
    assert!(decode_frontmatter("title:\n  - a\n  - b").is_err());
}
