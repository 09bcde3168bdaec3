//! The fixed Typst page setup and the optional title block.

use vstd::prelude::*;
use vstd::string::*;
use crate::meta::Frontmatter;

verus! {

/// The three fixed setup directives — page size, text style, paragraph
/// style — and the blank line that follows them.
pub open spec fn setup_directives() -> Seq<char> {
    "#set page(paper: \"a4\")\n"@ + "#set text(font: \"SimSun\", size: 12pt, lang: \"zh\")\n"@
        + "#set par(leading: 1.5em, first-line-indent: 2em)\n"@ + "\n"@
}

/// The title block: a binding of the title, a blank line, a centered bold
/// heading of it, and vertical space.  The title passes through verbatim,
/// with no escaping of quote characters.
pub open spec fn title_block(title: Seq<char>) -> Seq<char> {
    "#let title = \""@ + title + "\"\n\n#align(center, text(size: 22pt, weight: \"bold\")["@
        + title + "])\n#v(1em)\n\n"@
}

/// The whole page-setup output for a document with the given title: the
/// fixed directives always, then the title block for a non-empty title.
pub open spec fn page_setup_markup(title: Seq<char>) -> Seq<char> {
    if title.len() == 0 {
        setup_directives()
    } else {
        setup_directives() + title_block(title)
    }
}

/// Appends the Typst page setup, and the title block when the metadata
/// holds a non-empty title, to the sink.
pub fn write_page_setup(out: &mut String, meta: &Frontmatter)
    ensures
        final(out)@ == old(out)@ + page_setup_markup(meta.title@),
{
    out.append("#set page(paper: \"a4\")\n");
    out.append("#set text(font: \"SimSun\", size: 12pt, lang: \"zh\")\n");
    out.append("#set par(leading: 1.5em, first-line-indent: 2em)\n");
    out.append("\n");

    if !meta.title.as_str().is_empty() {
        out.append("#let title = \"");
        out.append(meta.title.as_str());
        out.append("\"\n\n#align(center, text(size: 22pt, weight: \"bold\")[");
        out.append(meta.title.as_str());
        out.append("])\n#v(1em)\n\n");
    }
    proof {
        assert(out@ =~= old(out)@ + page_setup_markup(meta.title@));
    }
}

} // verus!
