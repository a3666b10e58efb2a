use vstd::prelude::*;

verus! {

/// The syntax family of a configuration file, derived from its extension.
#[derive(Clone, Copy, Debug, PartialEq, Eq, Structural)]
pub enum FormatTag {
    Toml,
    Json,
    Yaml,
    Xml,
    Unknown,
}

/// ASCII lower-casing of one character; other characters are kept.
pub open spec fn ascii_lower(c: char) -> char {
    if 'A' <= c && c <= 'Z' {
        ((c as u32) + 32) as char
    } else {
        c
    }
}

/// ASCII lower-casing of a whole string.
pub open spec fn lower_seq(s: Seq<char>) -> Seq<char> {
    s.map_values(|c: char| ascii_lower(c))
}

/// Whether a lower-case extension is one of the supported ones: "toml",
/// "json", "yaml", "yml" or "xml".
pub open spec fn is_supported_word(e: Seq<char>) -> bool {
    e == seq!['t', 'o', 'm', 'l'] || e == seq!['j', 's', 'o', 'n'] || e == seq!['y', 'a', 'm', 'l']
        || e == seq!['y', 'm', 'l'] || e == seq!['x', 'm', 'l']
}

/// The format named by an extension that is already lower case.
pub open spec fn tag_of_lower(e: Seq<char>) -> FormatTag {
    if e == seq!['t', 'o', 'm', 'l'] {
        FormatTag::Toml
    } else if e == seq!['j', 's', 'o', 'n'] {
        FormatTag::Json
    } else if e == seq!['y', 'a', 'm', 'l'] || e == seq!['y', 'm', 'l'] {
        FormatTag::Yaml
    } else if e == seq!['x', 'm', 'l'] {
        FormatTag::Xml
    } else {
        FormatTag::Unknown
    }
}

/// The format named by an extension, if any, regardless of ASCII case.
pub open spec fn tag_of_extension(ext: Option<Seq<char>>) -> FormatTag {
    match ext {
        Some(e) => tag_of_lower(lower_seq(e)),
        None => FormatTag::Unknown,
    }
}

/// Lower-cases one ASCII letter and keeps every other character.
fn lower_char(c: char) -> (r: char)
    ensures
        r == ascii_lower(c),
{
    if 'A' <= c && c <= 'Z' {
        ((c as u8) + 32) as char
    } else {
        c
    }
}

/// Whether `s`, lower-cased, is exactly `w`.
fn lower_equals(s: &str, w: &str) -> (r: bool)
    ensures
        r == (lower_seq(s@) == w@),
{
    let n = s.unicode_len();
    if n != w.unicode_len() {
        assert(lower_seq(s@).len() != w@.len());
        return false;
    }
    let mut i: usize = 0;
    while i < n
        invariant
            n == s@.len(),
            n == w@.len(),
            i <= n,
            forall|j: int| 0 <= j < i ==> ascii_lower(#[trigger] s@[j]) == w@[j],
        decreases n - i,
    {
        if lower_char(s.get_char(i)) != w.get_char(i) {
            assert(lower_seq(s@)[i as int] != w@[i as int]);
            return false;
        }
        i += 1;
    }
    assert(lower_seq(s@) =~= w@);
    true
}

/// The characters of an extension that may be absent.
pub open spec fn opt_view(ext: Option<&str>) -> Option<Seq<char>> {
    match ext {
        Some(e) => Some(e@),
        None => None,
    }
}

/// Classifies an extension (without its dot), ignoring ASCII case.
pub fn classify_extension(ext: Option<&str>) -> (r: FormatTag)
    ensures
        r == tag_of_extension(opt_view(ext)),
{
    proof {
        reveal_strlit("toml");
        reveal_strlit("json");
        reveal_strlit("yaml");
        reveal_strlit("yml");
        reveal_strlit("xml");
        assert("toml"@ =~= seq!['t', 'o', 'm', 'l']);
        assert("json"@ =~= seq!['j', 's', 'o', 'n']);
        assert("yaml"@ =~= seq!['y', 'a', 'm', 'l']);
        assert("yml"@ =~= seq!['y', 'm', 'l']);
        assert("xml"@ =~= seq!['x', 'm', 'l']);
    }
    match ext {
        None => FormatTag::Unknown,
        Some(e) => {
            if lower_equals(e, "toml") {
                FormatTag::Toml
            } else if lower_equals(e, "json") {
                FormatTag::Json
            } else if lower_equals(e, "yaml") || lower_equals(e, "yml") {
                FormatTag::Yaml
            } else if lower_equals(e, "xml") {
                FormatTag::Xml
            } else {
                FormatTag::Unknown
            }
        },
    }
}

/// The extension of a path as `std::path::Path::extension` finds it.
pub uninterp spec fn extension_of(path: Seq<char>) -> Option<Seq<char>>;

/// The format that a path names by its extension.
pub open spec fn tag_of_path(path: Seq<char>) -> FormatTag {
    tag_of_extension(extension_of(path))
}

/// Relies on `std::path::Path::extension`: the part of the file name after
/// its last '.', absent where the file name has no '.' other than a leading
/// one. A path without any '.' therefore has no extension.
#[verifier::external_body]
fn path_extension(path: &str) -> (r: Option<String>)
    ensures
        match r {
            Some(e) => extension_of(path@) == Some(e@),
            None => extension_of(path@) is None,
        },
        !path@.contains('.') ==> r is None,
{
    std::path::Path::new(path).extension().and_then(|e| e.to_str()).map(|e| e.to_string())
}

/// Classifies a path by the extension of its final component, ignoring
/// ASCII case.
pub fn classify_path(path: &str) -> (r: FormatTag)
    ensures
        r == tag_of_path(path@),
        !path@.contains('.') ==> r == FormatTag::Unknown,
{
    match path_extension(path) {
        Some(e) => classify_extension(Some(e.as_str())),
        None => classify_extension(None),
    }
}

} // verus!
