use mdtypst::frontmatter::split_frontmatter;

#[test]
fn no_marker_is_all_body() {
    let (fm, body) = split_frontmatter("# Just a document\n\nText.\n");
    assert_eq!(fm, "");
    assert_eq!(body, "# Just a document\n\nText.\n");
}

#[test]
fn empty_input_is_empty_body() {
    let (fm, body) = split_frontmatter("");
    assert_eq!(fm, "");
    assert_eq!(body, "");
}

#[test]
fn marker_not_on_first_line_is_all_body() {
    let (fm, body) = split_frontmatter("\n---\ntitle: X\n---\nbody");
    assert_eq!(fm, "");
    assert_eq!(body, "\n---\ntitle: X\n---\nbody");
}

#[test]
fn dashes_without_line_ending_are_all_body() {
    let (fm, body) = split_frontmatter("---");
    assert_eq!(fm, "");
    assert_eq!(body, "---");
}

#[test]
fn basic_split() {
    let (fm, body) = split_frontmatter("---\ntitle: X\n---\nbody");
    assert_eq!(fm, "title: X");
    assert_eq!(body, "body");
}

#[test]
fn crlf_opening_marker() {
    let (fm, body) = split_frontmatter("---\r\ntitle: X\n---\nbody");
    assert_eq!(fm, "title: X");
    assert_eq!(body, "body");
}

#[test]
fn crlf_throughout() {
    let (fm, body) = split_frontmatter("---\r\ntitle: X\r\n---\r\nbody");
    assert_eq!(fm, "title: X\r");
    assert_eq!(body, "body");
}

#[test]
fn unclosed_marker_keeps_whole_input() {
    let (fm, body) = split_frontmatter("---\ntitle: X\nbody without closer");
    assert_eq!(fm, "");
    assert_eq!(body, "---\ntitle: X\nbody without closer");
}

#[test]
fn closer_at_end_gives_empty_body() {
    let (fm, body) = split_frontmatter("---\ntitle: X\n---");
    assert_eq!(fm, "title: X");
    assert_eq!(body, "");
}

#[test]
fn closer_without_following_newline() {
    let (fm, body) = split_frontmatter("---\na: b\n---xyz");
    assert_eq!(fm, "a: b");
    assert_eq!(body, "xyz");
}

#[test]
fn empty_frontmatter_block() {
    let (fm, body) = split_frontmatter("---\n\n---\nbody");
    assert_eq!(fm, "");
    assert_eq!(body, "body");
}

#[test]
fn multibyte_text_survives() {
    let (fm, body) = split_frontmatter("---\ntitre: ét\u{e9}\n---\n中文正文");
    assert_eq!(fm, "titre: ét\u{e9}");
    assert_eq!(body, "中文正文");
}
