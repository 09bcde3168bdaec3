//! Decoding the frontmatter block into a metadata record.
//!
//! The block is a YAML mapping.  One key, `title`, is recognised; every
//! other key is ignored.  A scalar title is taken as its text, whatever
//! its YAML type.  An empty block yields the default metadata without
//! consulting the YAML decoder at all, while a non-empty block that is
//! not well-formed YAML is an error — the caller surfaces it rather than
//! falling back to defaults.

use vstd::prelude::*;
use vstd::string::*;

verus! {

/// The decoded document metadata.
#[derive(Debug)]
pub struct Frontmatter {
    pub title: String,
}

impl Default for Frontmatter {
    /// The default metadata: an empty title.
    fn default() -> (r: Self)
        ensures
            r.title@ == Seq::<char>::empty(),
    {
        Frontmatter { title: String::new() }
    }
}

/// The outcome of reading the scalar entry at `key` of the YAML mapping
/// written in `doc`: `None` when `doc` is not a well-formed YAML mapping
/// or the entry at `key` is not a scalar; `Some(None)` when the key is
/// absent; otherwise the entry's text — a string's characters, a number
/// or boolean written out, an empty value as the empty text.
pub uninterp spec fn yaml_str_field(doc: Seq<char>, key: Seq<char>) -> Option<Option<Seq<char>>>;

/// Relies on serde_yaml::from_str, serde_yaml::Mapping::get and
/// serde_yaml::from_value: parsing a YAML mapping and reading one entry
/// of it depends on the two texts alone.  A scalar entry is taken as its
/// text, as YAML string deserialization takes it; the error text is
/// serde_yaml's own and is left unspecified.
#[verifier::external_body]
fn yaml_str_field_exec(doc: &str, key: &str) -> (r: Result<Option<String>, String>)
    ensures
        match r {
            Ok(Some(t)) => yaml_str_field(doc@, key@) == Some(Some(t@)),
            Ok(None) => yaml_str_field(doc@, key@) == Some(None::<Seq<char>>),
            Err(_) => yaml_str_field(doc@, key@) is None,
        },
{
    match serde_yaml::from_str::<serde_yaml::Mapping>(doc) {
        Err(e) => Err(e.to_string()),
        Ok(mapping) => match mapping.get(key) {
            None => Ok(None),
            Some(serde_yaml::Value::String(s)) => Ok(Some(s.clone())),
            Some(serde_yaml::Value::Number(n)) => Ok(Some(n.to_string())),
            Some(serde_yaml::Value::Bool(b)) => Ok(Some(b.to_string())),
            Some(serde_yaml::Value::Null) => Ok(Some(String::new())),
            Some(v) => match serde_yaml::from_value::<String>(v.clone()) {
                Ok(t) => Ok(Some(t)),
                Err(e) => Err(e.to_string()),
            },
        },
    }
}

/// The title decoded from a frontmatter block: the empty title for an
/// empty block, and otherwise the `title` entry of the YAML mapping, when
/// the block decodes at all; an absent title falls back to the empty one.
pub open spec fn front_title(fm: Seq<char>) -> Option<Seq<char>> {
    if fm.len() == 0 {
        Some(Seq::<char>::empty())
    } else {
        match yaml_str_field(fm, "title"@) {
            Some(Some(t)) => Some(t),
            Some(None) => Some(Seq::<char>::empty()),
            None => None,
        }
    }
}

/// Decodes a frontmatter block into document metadata.
///
/// Empty frontmatter yields the default metadata.  Non-empty frontmatter
/// must be a YAML mapping; its `title` entry, if present, must be a
/// scalar and is taken as its text, while a missing `title` falls back
/// to the empty one.  Anything else is an error, carried as the
/// decoder's message.
pub fn decode_frontmatter(fm: &str) -> (r: Result<Frontmatter, String>)
    ensures
        match r {
            Ok(meta) => front_title(fm@) == Some(meta.title@),
            Err(_) => front_title(fm@) is None,
        },
{
    if fm.is_empty() {
        Ok(Frontmatter::default())
    } else {
        match yaml_str_field_exec(fm, "title") {
            Ok(Some(title)) => Ok(Frontmatter { title }),
            Ok(None) => Ok(Frontmatter::default()),
            Err(e) => Err(e),
        }
    }
}

} // verus!
