//! Documents, file types, and the name predicates that file discovery
//! decides with. Reading files and walking directories live outside the
//! library and hand plain strings in.

use crate::chars::{contains_chars, contains_sub, extend_vec, match_at, str_to_chars};
use vstd::prelude::*;
use vstd::string::{StrSliceExecFns, StringExecFns};

verus! {

/// A document: its name, its contents once loaded, and its file type.
#[derive(Debug)]
pub struct CorgDoc<'a> {
    pub file_name: &'a str,
    pub file_contents: Option<String>,
    pub file_type: CorgFileType,
}

impl<'a> CorgDoc<'a> {
    /// Builds a Markdown document record over contents already read from
    /// disk; `None` stands for a file that could not be opened.
    pub fn new(file_name: &'a str, file_contents: Option<String>) -> (r: CorgDoc<'a>)
        ensures
            r.file_name@ == file_name@,
            r.file_contents == file_contents,
            r.file_type is Markdown,
    {
        CorgDoc { file_name, file_contents, file_type: CorgFileType::Markdown }
    }
}

/// Whether `name` starts with a dot: the hidden-file test that directory
/// walking filters with.
pub fn is_hidden_name(name: &str) -> (r: bool)
    ensures
        r == (name@.len() > 0 && name@[0] == '.'),
{
    let nc = str_to_chars(name);
    if nc.len() == 0 {
        false
    } else {
        nc[0] == '.'
    }
}

/// Whether `s` ends with `suffix`.
pub open spec fn ends_with(s: Seq<char>, suffix: Seq<char>) -> bool {
    suffix.len() <= s.len() && s.subrange(s.len() - suffix.len(), s.len() as int) == suffix
}

/// The kind of file the system works with.
#[derive(Debug, Clone, Copy, PartialEq, Eq)]
pub enum CorgFileType {
    Markdown,
    ShellScript,
}

/// The file extension of a file type.
pub open spec fn spec_extension(t: CorgFileType) -> Seq<char> {
    match t {
        CorgFileType::Markdown => "md"@,
        CorgFileType::ShellScript => "sh"@,
    }
}

impl CorgFileType {
    /// The file extension for this type.
    pub fn to_string(&self) -> (r: String)
        ensures
            r@ == spec_extension(*self),
    {
        match self {
            Self::Markdown => String::from_str("md"),
            Self::ShellScript => String::from_str("sh"),
        }
    }

    /// Whether a file name ends with this type's extension: the test made on
    /// each directory entry's name.
    pub fn is_file_type_name(&self, name: &str) -> (r: bool)
        ensures
            r == ends_with(name@, spec_extension(*self)),
    {
        let nc = str_to_chars(name);
        let ext = self.to_string();
        let ec = str_to_chars(ext.as_str());
        if nc.len() < ec.len() {
            false
        } else {
            match_at(&nc, &ec, nc.len() - ec.len())
        }
    }

    /// Whether a directory entry's name contains `file_name` with this
    /// type's extension appended, dot-separated: the match that file
    /// discovery stops at.
    pub fn is_matching_file_name(&self, name: &str, file_name: &str) -> (r: bool)
        ensures
            r == contains_sub(name@, file_name@ + "."@ + spec_extension(*self)),
    {
        let mut pat = str_to_chars(file_name);
        let dot = str_to_chars(".");
        extend_vec(&mut pat, &dot);
        let ext = self.to_string();
        let ec = str_to_chars(ext.as_str());
        extend_vec(&mut pat, &ec);
        let nc = str_to_chars(name);
        proof {
            reveal_strlit(".");
            assert(pat@ =~= file_name@ + "."@ + spec_extension(*self));
        }
        contains_chars(&nc, &pat)
    }
}

/// Whether `name` contains `pattern` as a substring: the test document
/// discovery stops at when matching loose names.
pub fn file_name_contains(name: &str, pattern: &str) -> (r: bool)
    ensures
        r == contains_sub(name@, pattern@),
{
    let nc = str_to_chars(name);
    let pc = str_to_chars(pattern);
    if pc.len() == 0 {
        proof {
            assert(name@.subrange(0, 0 + pattern@.len() as int) =~= pattern@);
            assert(contains_sub(name@, pattern@));
        }
        true
    } else {
        contains_chars(&nc, &pc)
    }
}

/// The output path for a converted document: the script directory, the
/// document's stem, and the shell-script extension.
pub fn script_output_path(file_stem: &str) -> (r: String)
    ensures
        r@ == "scripts/"@ + file_stem@ + ".sh"@,
{
    let mut out = String::from_str("scripts/");
    out.append(file_stem);
    out.append(".sh");
    proof {
        assert(out@ =~= "scripts/"@ + file_stem@ + ".sh"@);
    }
    out
}

/// A script execution request; spawning the process lives outside the
/// library.
#[derive(Debug)]
pub struct CorgRunner {
    pub host: String,
    pub script: String,
    pub result: String,
}

} // verus!
