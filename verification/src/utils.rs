//! Names and paths: the canonical root files, path joining, and the rules
//! for module names.

use crate::errors::{Error, Result};
use vstd::prelude::*;
use crate::text::lemma_bytes_of_concat;
use vstd::string::{StrSliceExecFns, StringExecFns, StringSliceAdditionalSpecFns};
use vstd::utf8::{encode_utf8, is_ascii_chars_encode_utf8};

verus! {

/// `src/main.rs`
pub const MAIN_RS: &'static str = "src/main.rs";

/// `src/lib.rs`
pub const LIB_RS: &'static str = "src/lib.rs";

/// `mod.rs`
pub const MOD_RS: &'static str = "mod.rs";

/// Which of the two canonical root files a package has.
#[derive(Debug, Clone, Copy, PartialEq, Eq, Structural)]
pub enum RootFileKind {
    /// The package is a library, rooted at `src/lib.rs`.
    Library,
    /// The package is a binary, rooted at `src/main.rs`.
    Binary,
}

impl RootFileKind {
    /// The path of the root file, relative to the package.
    pub open spec fn spec_file_name(self) -> Seq<char> {
        match self {
            RootFileKind::Library => LIB_RS@,
            RootFileKind::Binary => MAIN_RS@,
        }
    }

    /// The path of the root file, relative to the package.
    pub fn file_name(self) -> (name: &'static str)
        ensures
            name@ == self.spec_file_name(),
    {
        match self {
            RootFileKind::Library => LIB_RS,
            RootFileKind::Binary => MAIN_RS,
        }
    }
}

/// Decides the kind of a package from which of the two root files exist.
/// A package with both, or with neither, is refused.
pub fn locate_root_file(has_lib: bool, has_main: bool) -> (r: Result<RootFileKind>)
    ensures
        has_lib && !has_main ==> r == Ok::<RootFileKind, Error>(RootFileKind::Library),
        has_main && !has_lib ==> r == Ok::<RootFileKind, Error>(RootFileKind::Binary),
        has_lib == has_main ==> r == Err::<RootFileKind, Error>(Error::AmbiguousRootFile),
{
    if has_lib == has_main {
        Err(Error::AmbiguousRootFile)
    } else if has_lib {
        Ok(RootFileKind::Library)
    } else {
        Ok(RootFileKind::Binary)
    }
}

/// Get the root file (`lib.rs` or `main.rs` depending on binary/library
/// crate type), given which of the two exist.
pub fn get_root_file_name(has_lib: bool, has_main: bool) -> (r: Result<&'static str>)
    ensures
        has_lib && !has_main ==> (r matches Ok(name) && name@ == LIB_RS@),
        has_main && !has_lib ==> (r matches Ok(name) && name@ == MAIN_RS@),
        has_lib == has_main ==> r == Err::<&'static str, Error>(Error::AmbiguousRootFile),
{
    match locate_root_file(has_lib, has_main) {
        Ok(kind) => Ok(kind.file_name()),
        Err(e) => Err(e),
    }
}

/// `path` extended by the component `ext`: an absolute `ext` replaces
/// `path`; otherwise the two are joined, by a `/` unless `path` is empty or
/// already ends in one.
pub open spec fn joined(path: Seq<char>, ext: Seq<char>) -> Seq<char> {
    if ext.len() > 0 && ext[0] == '/' {
        ext
    } else if path.len() == 0 || path.last() == '/' {
        path + ext
    } else {
        path + seq!['/'] + ext
    }
}

/// Nothing is put before a path that is joined to the empty path.
pub proof fn lemma_joined_to_empty(ext: Seq<char>)
    ensures
        joined(Seq::empty(), ext) == ext,
{
}

/// Add suffix `ext` to the path.
pub fn suffix(path: &str, ext: &str) -> (r: String)
    ensures
        r@ == joined(path@, ext@),
{
    let path_len = path.unicode_len();
    let ext_len = ext.unicode_len();
    if ext_len > 0 && ext.get_char(0) == '/' {
        String::from_str(ext)
    } else if path_len == 0 || path.get_char(path_len - 1) == '/' {
        String::from_str(path).concat(ext)
    } else {
        proof {
            reveal_strlit("/");
        }
        String::from_str(path).concat("/").concat(ext)
    }
}

/// Add `mod.rs` to the provided path.
pub fn add_mod_rs(path: &str) -> (r: String)
    ensures
        r@ == joined(path@, MOD_RS@),
{
    suffix(path, MOD_RS)
}

/// An ASCII letter.
pub open spec fn is_letter(b: u8) -> bool {
    ('A' as u8 <= b && b <= 'Z' as u8) || ('a' as u8 <= b && b <= 'z' as u8)
}

/// An ASCII digit.
pub open spec fn is_digit(b: u8) -> bool {
    '0' as u8 <= b && b <= '9' as u8
}

/// A byte that may occur in a module name: an ASCII letter, an ASCII digit
/// or an underscore.
pub open spec fn is_name_byte(b: u8) -> bool {
    is_letter(b) || is_digit(b) || b == '_' as u8
}

/// The rules for a module name: it is not empty; it starts with a letter,
/// or with an underscore that something follows; and it consists of
/// letters, digits and underscores only.
pub open spec fn valid_module_name(name: Seq<u8>) -> bool {
    &&& name.len() > 0
    &&& (is_letter(name[0]) || (name[0] == '_' as u8 && name.len() > 1))
    &&& forall|i: int| 0 <= i < name.len() ==> is_name_byte(#[trigger] name[i])
}

/// No name is valid that is empty, starts with a digit, holds a byte other
/// than a letter, a digit or an underscore, or is a lone underscore.
pub proof fn lemma_rejected_names(name: Seq<u8>)
    requires
        name.len() == 0 || is_digit(name[0]) || name == seq!['_' as u8] || exists|i: int|
            0 <= i < name.len() && !is_name_byte(#[trigger] name[i]),
    ensures
        !valid_module_name(name),
{
}

/// Every name is valid that is a letter followed by any number of letters,
/// digits and underscores, or an underscore followed by at least one.
pub proof fn lemma_accepted_names(name: Seq<u8>)
    requires
        name.len() > 0,
        is_letter(name[0]) || (name[0] == '_' as u8 && name.len() >= 2),
        forall|i: int| 1 <= i < name.len() ==> is_name_byte(#[trigger] name[i]),
    ensures
        valid_module_name(name),
{
}

/// A name that is valid does not end in a path separator, so that joining
/// to a path that ends in the name puts a separator in.
pub proof fn lemma_name_ends_in_no_slash(name: Seq<char>)
    requires
        valid_module_name(encode_utf8(name)),
    ensures
        name.len() > 0,
        name.last() != '/',
{
    if name.len() > 0 && name.last() == '/' {
        let slash = seq![name.last()];
        assert(name =~= name.drop_last() + slash);
        lemma_bytes_of_concat(name.drop_last(), slash);
        is_ascii_chars_encode_utf8(slash);
        let bytes = encode_utf8(name);
        assert(!is_name_byte(bytes[bytes.len() - 1]));
    }
}

/// Tells whether `b` may occur in a module name.
fn name_byte(b: u8) -> (r: bool)
    ensures
        r == is_name_byte(b),
{
    letter(b) || (b >= '0' as u8 && b <= '9' as u8) || b == '_' as u8
}

/// Tells whether `b` is an ASCII letter.
fn letter(b: u8) -> (r: bool)
    ensures
        r == is_letter(b),
{
    (b >= 'A' as u8 && b <= 'Z' as u8) || (b >= 'a' as u8 && b <= 'z' as u8)
}

/// Validate a module name. Rules:
/// - Can only start with alphabetic chars
/// - Can start with `_` only if the module name is longer than one byte
/// - Must be completely ASCII: letters, digits and `_`
/// - Cannot be empty
pub fn validate_module_name(name: &str) -> (r: Result<()>)
    ensures
        valid_module_name(name.spec_bytes()) ==> r is Ok,
        !valid_module_name(name.spec_bytes()) ==> r == Err::<(), Error>(Error::BadModuleName),
{
    let bytes = name.as_bytes();
    if bytes.len() == 0 {
        return Err(Error::BadModuleName);
    }
    let first = bytes[0];
    if !(letter(first) || (first == '_' as u8 && bytes.len() != 1)) {
        return Err(Error::BadModuleName);
    }
    let mut i: usize = 0;
    while i < bytes.len()
        invariant
            bytes@ == name.spec_bytes(),
            i <= bytes.len(),
            forall|k: int| 0 <= k < i ==> is_name_byte(#[trigger] bytes@[k]),
        decreases bytes.len() - i,
    {
        if !name_byte(bytes[i]) {
            return Err(Error::BadModuleName);
        }
        i += 1;
    }
    Ok(())
}

} // verus!
