//! The kind of file a document was loaded from, told by its extension.

use crate::strings::{optional_view, str_eq};
use vstd::prelude::*;

verus! {

#[derive(Debug, Clone, Copy, PartialEq, Eq)]
pub enum FileType {
    Unknown,
    Text,
    Binary,
    C,
    Rust,
}

impl FileType {
    /// The label shown for this file type.
    pub open spec fn label(self) -> Seq<char> {
        match self {
            FileType::Unknown => "unknown"@,
            FileType::Text => "text"@,
            FileType::Binary => "binary"@,
            FileType::C => "C file"@,
            FileType::Rust => "Rust file"@,
        }
    }

    /// The label shown for this file type.
    pub fn as_str(&self) -> (s: &'static str)
        ensures
            s@ == self.label(),
    {
        match self {
            FileType::Unknown => "unknown",
            FileType::Text => "text",
            FileType::Binary => "binary",
            FileType::C => "C file",
            FileType::Rust => "Rust file",
        }
    }
}

/// The file type that an extension stands for: `rs` is Rust, `c` and `h` are
/// C, any other extension is text, and no extension is unknown.
pub open spec fn file_type_of_extension(ext: Option<Seq<char>>) -> FileType {
    match ext {
        None => FileType::Unknown,
        Some(e) => if e == "rs"@ {
            FileType::Rust
        } else if e == "c"@ || e == "h"@ {
            FileType::C
        } else {
            FileType::Text
        },
    }
}

/// `file_type_of_extension`, computed.
pub fn file_type_from_extension(ext: Option<&str>) -> (ft: FileType)
    ensures
        ft == file_type_of_extension(optional_view(ext)),
{
    match ext {
        None => FileType::Unknown,
        Some(e) => {
            if str_eq(e, "rs") {
                FileType::Rust
            } else if str_eq(e, "c") || str_eq(e, "h") {
                FileType::C
            } else {
                FileType::Text
            }
        },
    }
}

/// `name` is a file name and nothing else, made of the stem `stem`, a dot
/// and the extension `e`: it names no directory and no drive (it holds no
/// slash, no backslash and no colon), the stem is not empty, the extension
/// holds no dot, and the whole is not `..`.
pub open spec fn simple_name(name: Seq<char>, stem: Seq<char>, e: Seq<char>) -> bool {
    &&& name == stem + seq!['.'] + e
    &&& stem.len() > 0
    &&& !e.contains('.')
    &&& !name.contains('/')
    &&& !name.contains('\\')
    &&& !name.contains(':')
    &&& name != seq!['.', '.']
}

/// `ext` is the extension of `name` wherever `name` is a simple name.
pub open spec fn finds_simple_extension(name: Seq<char>, ext: Option<Seq<char>>) -> bool {
    forall|stem: Seq<char>, e: Seq<char>| #[trigger] simple_name(name, stem, e) ==> ext == Some(e)
}

/// `ft` is the file type of `name`'s extension wherever `name` is a simple
/// name.
pub open spec fn types_simple_names(name: Seq<char>, ft: FileType) -> bool {
    forall|stem: Seq<char>, e: Seq<char>| #[trigger]
        simple_name(name, stem, e) ==> ft == file_type_of_extension(Some(e))
}

/// The characters of a string that may be there or not.
pub open spec fn found_view(ext: Option<String>) -> Option<Seq<char>> {
    match ext {
        Some(e) => Some(e@),
        None => None,
    }
}

/// `std::path::Path::extension` of `name` taken as a path: the part of the
/// file name after its last dot; none where there is no file name, where the
/// file name holds no dot, and where its only dot is its first character.
///
/// Where the file name starts within a path depends on the platform. What is
/// claimed holds on each: the extension holds no dot; a name without a dot
/// has none; and a name that is a file name and nothing else (`simple_name`)
/// has the part after its last dot.
#[verifier::external_body]
fn path_extension(name: &str) -> (ext: Option<String>)
    ensures
        ext matches Some(e) ==> !e@.contains('.'),
        !name@.contains('.') ==> ext is None,
        finds_simple_extension(name@, found_view(ext)),
{
    match std::path::Path::new(name).extension() {
        Some(e) => match e.to_str() {
            Some(s) => Some(s.to_string()),
            None => None,
        },
        None => None,
    }
}

/// The file type of a file called `name`: `file_type_of_extension` of the
/// extension that the platform's path rules find in `name`.
///
/// A name without a dot is of unknown type. A simple name, such as
/// `main.rs`, has the type of the part after its last dot. Of a name that
/// holds directories or a drive only this much is said: its type is that of
/// some extension.
pub fn file_type_from_filename(name: &str) -> (ft: FileType)
    ensures
        exists|ext: Option<Seq<char>>| ft == file_type_of_extension(ext),
        ft != FileType::Binary,
        !name@.contains('.') ==> ft == FileType::Unknown,
        types_simple_names(name@, ft),
{
    let found = path_extension(name);
    match found {
        Some(e) => {
            let ft = file_type_from_extension(Some(e.as_str()));
            assert(ft == file_type_of_extension(Some(e@)));
            ft
        },
        None => {
            let ft = file_type_from_extension(None);
            assert(ft == file_type_of_extension(None));
            ft
        },
    }
}

} // verus!
