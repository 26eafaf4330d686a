//! Module paths: segments separated by `::`, each of which is to be a
//! module name.

use crate::text::{
    bytes_of, find, lemma_boundary_after_ascii, lemma_first_occurrence_unique, split,
};
use crate::utils::{valid_module_name, validate_module_name};
use vstd::prelude::*;
use vstd::string::StringSliceAdditionalSpecFns;
use vstd::utf8::encode_utf8_valid_utf8;

verus! {

/// The separator of the segments of a module path.
pub open spec fn path_separator() -> Seq<u8> {
    "::".spec_bytes()
}

/// The segments of a module path.
pub open spec fn segments_of(path: Seq<u8>) -> Seq<Seq<u8>> {
    split(path, path_separator())
}

/// The separator is two colons.
proof fn lemma_path_separator()
    ensures
        path_separator() == seq![':' as u8, ':' as u8],
{
    reveal_strlit("::");
    vstd::string::is_ascii_spec_bytes("::");
}

/// Splits a module path into its segments.
pub fn split_module_path<'a>(path: &'a str) -> (parts: Vec<&'a str>)
    ensures
        bytes_of(parts@) == segments_of(path.spec_bytes()),
{
    let sep = "::".as_bytes();
    let mut parts: Vec<&'a str> = Vec::new();
    let mut rest: &'a str = path;
    loop
        invariant
            sep@ == path_separator(),
            segments_of(path.spec_bytes()) == bytes_of(parts@) + segments_of(rest.spec_bytes()),
        decreases rest.spec_bytes().len(),
    {
        let ghost before = rest.spec_bytes();
        match find(rest.as_bytes(), sep) {
            None => {
                parts.push(rest);
                return parts;
            },
            Some(at) => {
                proof {
                    lemma_path_separator();
                    lemma_first_occurrence_unique(before, sep@, at as int);
                    encode_utf8_valid_utf8(rest@);
                    lemma_boundary_after_ascii(before, at as int);
                }
                let (head, tail) = rest.split_at(at);
                proof {
                    encode_utf8_valid_utf8(tail@);
                    lemma_boundary_after_ascii(tail.spec_bytes(), 1);
                }
                let (_, tail) = tail.split_at(2);
                parts.push(head);
                rest = tail;
                proof {
                    assert(rest.spec_bytes() =~= before.subrange(
                        at + 2,
                        before.len() as int,
                    ));
                }
            },
        }
    }
}

/// Every segment is an acceptable module name.
pub open spec fn all_names(segments: Seq<Seq<u8>>) -> bool {
    forall|i: int| 0 <= i < segments.len() ==> valid_module_name(#[trigger] segments[i])
}

/// Some segment is empty.
pub open spec fn has_empty(segments: Seq<Seq<u8>>) -> bool {
    exists|i: int| 0 <= i < segments.len() && (#[trigger] segments[i]).len() == 0
}

/// A module name is never empty: where every segment is a name, none is
/// empty.
pub proof fn lemma_names_are_not_empty(segments: Seq<Seq<u8>>)
    requires
        all_names(segments),
    ensures
        !has_empty(segments),
{
}

/// Tells whether every segment is an acceptable module name.
pub fn check_names(path_segments: &[&str]) -> (valid: bool)
    ensures
        valid == all_names(bytes_of(path_segments@)),
{
    let mut i: usize = 0;
    while i < path_segments.len()
        invariant
            i <= path_segments.len(),
            forall|k: int|
                0 <= k < i ==> valid_module_name(#[trigger] bytes_of(path_segments@)[k]),
        decreases path_segments.len() - i,
    {
        assert(bytes_of(path_segments@)[i as int] == path_segments[i as int].spec_bytes());
        if validate_module_name(path_segments[i]).is_err() {
            return false;
        }
        i += 1;
    }
    true
}

/// Tells whether some segment is empty.
pub fn any_empty(path_segments: &[&str]) -> (found: bool)
    ensures
        found == has_empty(bytes_of(path_segments@)),
{
    let mut i: usize = 0;
    while i < path_segments.len()
        invariant
            i <= path_segments.len(),
            forall|k: int| 0 <= k < i ==> (#[trigger] bytes_of(path_segments@)[k]).len() != 0,
        decreases path_segments.len() - i,
    {
        assert(bytes_of(path_segments@)[i as int] == path_segments[i as int].spec_bytes());
        if path_segments[i].as_bytes().len() == 0 {
            return true;
        }
        i += 1;
    }
    false
}

} // verus!
