use mdtypst::meta::Frontmatter;
use mdtypst::page::write_page_setup;

fn setup_text() -> String {
    let mut s = String::new();
    s.push_str("#set page(paper: \"a4\")\n");
    s.push_str("#set text(font: \"SimSun\", size: 12pt, lang: \"zh\")\n");
    s.push_str("#set par(leading: 1.5em, first-line-indent: 2em)\n");
    s.push_str("\n");
    s
}

#[test]
fn empty_title_emits_setup_only() {
    let mut out = String::new();
    write_page_setup(&mut out, &Frontmatter { title: String::new() });
    assert_eq!(out, setup_text());
}

#[test]
fn title_block_follows_setup_in_order() {
    let mut out = String::new();
    write_page_setup(&mut out, &Frontmatter { title: String::from("T") });
    let expected = setup_text()
        + "#let title = \"T\"\n\n#align(center, text(size: 22pt, weight: \"bold\")[T])\n#v(1em)\n\n";
    assert_eq!(out, expected);
}

#[test]
fn emitter_appends_after_existing_output() {
    let mut out = String::from("before\n");
    write_page_setup(&mut out, &Frontmatter { title: String::new() });
    assert_eq!(out, String::from("before\n") + &setup_text());
}

#[test]
fn quote_in_title_passes_through_unescaped() {
    let mut out = String::new();
    write_page_setup(&mut out, &Frontmatter { title: String::from("a\"b") });
    let expected = setup_text()
        + "#let title = \"a\"b\"\n\n#align(center, text(size: 22pt, weight: \"bold\")[a\"b])\n#v(1em)\n\n";
    assert_eq!(out, expected);
}
