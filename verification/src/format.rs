//! The supported encodings and the format resolver.
//!
//! A format is selected either by an explicit tag (`"json"`, `"yaml"`,
//! `"toml"`) or, for the input side, by the sentinel tag `"auto"` together
//! with a filename whose extension names the encoding.

use vstd::prelude::*;
use vstd::string::StrSliceExecFns;
use vstd::string::StringExecFns;

verus! {

/// One of the three supported textual encodings.
#[derive(Clone, Copy, PartialEq, Eq, Structural, Debug)]
pub enum Format {
    Toml,
    Yaml,
    Json,
}

impl Format {
    /// The canonical lower-case tag of this format.
    pub open spec fn tag(self) -> Seq<char> {
        match self {
            Format::Toml => "toml"@,
            Format::Yaml => "yaml"@,
            Format::Json => "json"@,
        }
    }

    /// Renders the canonical tag of this format.
    pub fn to_string(&self) -> (r: String)
        ensures
            r@ == self.tag(),
    {
        match self {
            Format::Toml => String::from_str("toml"),
            Format::Yaml => String::from_str("yaml"),
            Format::Json => String::from_str("json"),
        }
    }
}

/// Why a conversion could not be carried out.
#[derive(Debug)]
pub enum ConvertError {
    /// A format tag outside the supported set; carries the offending tag.
    UnsupportedFormat(String),
    /// The input format was left to auto-detection, but no filename
    /// extension was available to detect it from.
    FormatRequired,
    /// The input text is not a well-formed document of the declared format.
    ParseError { format: Format, message: String },
    /// The parsed document cannot be represented in the target format.
    SerializeError { format: Format, message: String },
}

/// `suffix` stands at the end of `s`.
pub open spec fn suffix_of(s: Seq<char>, suffix: Seq<char>) -> bool {
    suffix.len() <= s.len() && s.subrange(s.len() - suffix.len(), s.len() as int) == suffix
}

/// Character-for-character string equality.
pub fn str_eq(a: &str, b: &str) -> (r: bool)
    ensures
        r == (a@ == b@),
{
    let alen = a.unicode_len();
    let blen = b.unicode_len();
    if alen != blen {
        return false;
    }
    let mut i: usize = 0;
    while i < alen
        invariant
            a@.len() == alen,
            b@.len() == alen,
            i <= alen,
            forall|j: int| 0 <= j < i ==> a@[j] == b@[j],
        decreases alen - i,
    {
        if a.get_char(i) != b.get_char(i) {
            return false;
        }
        i = i + 1;
    }
    proof {
        assert(a@ =~= b@);
    }
    true
}

/// Whether `suffix` stands at the end of `s`, compared character by
/// character.
pub fn has_suffix(s: &str, suffix: &str) -> (r: bool)
    ensures
        r == suffix_of(s@, suffix@),
{
    let slen = s.unicode_len();
    let xlen = suffix.unicode_len();
    if xlen > slen {
        return false;
    }
    let off = slen - xlen;
    let mut i: usize = 0;
    while i < xlen
        invariant
            s@.len() == slen,
            suffix@.len() == xlen,
            xlen <= slen,
            off == slen - xlen,
            i <= xlen,
            forall|j: int| 0 <= j < i ==> s@[off + j] == suffix@[j],
        decreases xlen - i,
    {
        if s.get_char(off + i) != suffix.get_char(i) {
            proof {
                assert(s@.subrange(s@.len() - suffix@.len(), s@.len() as int)[i as int]
                    == s@[off + i]);
            }
            return false;
        }
        i = i + 1;
    }
    proof {
        assert(s@.subrange(s@.len() - suffix@.len(), s@.len() as int) =~= suffix@);
    }
    true
}

/// The format a filename's extension names, if any. The match is a
/// case-sensitive suffix comparison.
pub open spec fn sniff(name: Seq<char>) -> Option<Format> {
    if suffix_of(name, ".yaml"@) || suffix_of(name, ".yml"@) {
        Some(Format::Yaml)
    } else if suffix_of(name, ".toml"@) {
        Some(Format::Toml)
    } else if suffix_of(name, ".json"@) {
        Some(Format::Json)
    } else {
        None
    }
}

/// The view of an optional filename.
pub open spec fn name_view(filename: Option<&str>) -> Option<Seq<char>> {
    match filename {
        Some(n) => Some(n@),
        None => None,
    }
}

/// The tags accepted on the input side.
pub open spec fn is_source_tag(tag: Seq<char>) -> bool {
    tag == "auto"@ || tag == "json"@ || tag == "yaml"@ || tag == "toml"@
}

/// The format a source tag resolves to: an explicit tag names its format,
/// and `"auto"` defers to the filename's extension. `None` stands for a
/// failed resolution.
pub open spec fn source_format(tag: Seq<char>, filename: Option<Seq<char>>) -> Option<Format> {
    if tag == "json"@ {
        Some(Format::Json)
    } else if tag == "yaml"@ {
        Some(Format::Yaml)
    } else if tag == "toml"@ {
        Some(Format::Toml)
    } else if tag == "auto"@ {
        match filename {
            Some(n) => sniff(n),
            None => None,
        }
    } else {
        None
    }
}

/// The format a target tag resolves to. Auto-detection applies only to the
/// input side, so `"auto"` is not a target tag.
pub open spec fn target_format(tag: Seq<char>) -> Option<Format> {
    if tag == "json"@ {
        Some(Format::Json)
    } else if tag == "yaml"@ {
        Some(Format::Yaml)
    } else if tag == "toml"@ {
        Some(Format::Toml)
    } else {
        None
    }
}

/// Resolves the input-side format from its tag and, under `"auto"`, the
/// filename. A tag outside the accepted set is `UnsupportedFormat`; an
/// `"auto"` request that no filename extension can settle is
/// `FormatRequired`.
pub fn resolve_source(tag: &str, filename: Option<&str>) -> (r: Result<Format, ConvertError>)
    ensures
        source_format(tag@, name_view(filename)) matches Some(f)
            ==> r == Ok::<Format, ConvertError>(f),
        is_source_tag(tag@) && source_format(tag@, name_view(filename)) is None
            ==> r == Err::<Format, ConvertError>(ConvertError::FormatRequired),
        !is_source_tag(tag@)
            ==> (r matches Err(ConvertError::UnsupportedFormat(t)) && t@ == tag@),
{
    if str_eq(tag, "json") {
        Ok(Format::Json)
    } else if str_eq(tag, "yaml") {
        Ok(Format::Yaml)
    } else if str_eq(tag, "toml") {
        Ok(Format::Toml)
    } else if str_eq(tag, "auto") {
        match filename {
            Some(name) => {
                if has_suffix(name, ".yaml") || has_suffix(name, ".yml") {
                    Ok(Format::Yaml)
                } else if has_suffix(name, ".toml") {
                    Ok(Format::Toml)
                } else if has_suffix(name, ".json") {
                    Ok(Format::Json)
                } else {
                    Err(ConvertError::FormatRequired)
                }
            },
            None => Err(ConvertError::FormatRequired),
        }
    } else {
        Err(ConvertError::UnsupportedFormat(tag.to_owned()))
    }
}

/// Resolves the output-side format from its tag. Any tag outside the three
/// format names, `"auto"` included, is `UnsupportedFormat`.
pub fn resolve_target(tag: &str) -> (r: Result<Format, ConvertError>)
    ensures
        target_format(tag@) matches Some(f) ==> r == Ok::<Format, ConvertError>(f),
        target_format(tag@) is None
            ==> (r matches Err(ConvertError::UnsupportedFormat(t)) && t@ == tag@),
{
    if str_eq(tag, "json") {
        Ok(Format::Json)
    } else if str_eq(tag, "yaml") {
        Ok(Format::Yaml)
    } else if str_eq(tag, "toml") {
        Ok(Format::Toml)
    } else {
        Err(ConvertError::UnsupportedFormat(tag.to_owned()))
    }
}

} // verus!
