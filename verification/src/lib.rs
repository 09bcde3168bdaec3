//! Conversion of Markdown documents with optional YAML frontmatter into
//! Typst source.
//!
//! The library is organised after the pipeline it implements: the
//! [`frontmatter`] module splits a raw document into its metadata block
//! and its body, the [`meta`] module decodes the metadata block into a
//! [`meta::Frontmatter`] record, the [`page`] module emits the fixed Typst
//! page setup together with the optional title block, and the
//! [`transcode`] module maps Markdown structural events to Typst markup.
//! Parsing the Markdown body itself is left to an external parser; this
//! crate consumes the resulting event stream.

use vstd::prelude::*;

pub mod frontmatter;
pub mod meta;
pub mod page;
pub mod transcode;

verus! {

use crate::frontmatter::{split_frontmatter, split_spec};
use crate::meta::{decode_frontmatter, front_title};
use crate::page::{page_setup_markup, write_page_setup};

/// Splits `input`, decodes its frontmatter, and appends the page setup to
/// the sink; returns the Markdown body, ready for the external parser.
/// When the frontmatter does not decode, its error is returned and
/// nothing is written.
pub fn render_front<'a>(out: &mut String, input: &'a str) -> (r: Result<&'a str, String>)
    ensures
        match r {
            Ok(body) => {
                &&& body@ == split_spec(input@).1
                &&& front_title(split_spec(input@).0) matches Some(title)
                    && final(out)@ == old(out)@ + page_setup_markup(title)
            },
            Err(_) => {
                &&& front_title(split_spec(input@).0) is None
                &&& final(out)@ == old(out)@
            },
        },
{
    let (fm, body) = split_frontmatter(input);
    match decode_frontmatter(fm) {
        Ok(m) => {
            write_page_setup(out, &m);
            Ok(body)
        }
        Err(e) => Err(e),
    }
}

} // verus!
