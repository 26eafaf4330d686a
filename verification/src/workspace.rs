//! Creating a module in a member of a workspace. The first segment of the
//! path names the member, the rest the module in it.

use crate::errors::{Error, Result, Unsupported};
use crate::module::{create_module, ModuleOptions, ModulePlan};
use crate::path::{all_names, any_empty, has_empty, segments_of, split_module_path};
use crate::package::root_file_of;
use crate::text::{bytes_of, str_eq};
use crate::utils::get_root_file_name;
use vstd::prelude::*;
use vstd::slice::slice_subrange;
use vstd::string::{StringExecFns, StringSliceAdditionalSpecFns};
use vstd::utf8::{decode_utf8, encode_utf8, encode_utf8_decode_utf8};

verus! {

/// `name` is one of the members of the workspace.
pub open spec fn is_member(members: Seq<String>, name: Seq<u8>) -> bool {
    exists|i: int| 0 <= i < members.len() && encode_utf8(#[trigger] members[i]@) == name
}

/// Why the path names no module of a member of the workspace, if it does
/// not.
pub open spec fn target_refusal(path: Seq<u8>, members: Seq<String>) -> Option<Error> {
    let segments = segments_of(path);
    if has_empty(segments) {
        Some(Error::EmptyPath)
    } else if segments.len() < 2 {
        Some(Error::UnsupportedPath(Unsupported::MissingMember))
    } else if !is_member(members, segments[0]) {
        Some(Error::UnsupportedPath(Unsupported::UnknownMember))
    } else {
        None
    }
}

/// Why the module at `path` cannot be created in the workspace, if it
/// cannot. The checks come in this order: the target, the root file of the
/// member, the module names, the number of segments.
pub open spec fn workspace_refusal(
    path: Seq<u8>,
    members: Seq<String>,
    has_lib: bool,
    has_main: bool,
) -> Option<Error> {
    let segments = segments_of(path);
    if target_refusal(path, members) is Some {
        target_refusal(path, members)
    } else if has_lib == has_main {
        Some(Error::AmbiguousRootFile)
    } else if !all_names(segments.skip(1)) {
        Some(Error::BadModuleName)
    } else if segments.len() != 2 {
        Some(Error::UnsupportedPath(Unsupported::NestedModule))
    } else {
        None
    }
}

/// The text of the segment `i` of a module path.
pub open spec fn segment_text(path: Seq<u8>, i: int) -> Seq<char> {
    decode_utf8(segments_of(path)[i])
}

/// Tells whether `name` is one of `members`.
fn member_listed(members: &[String], name: &str) -> (found: bool)
    ensures
        found == is_member(members@, name.spec_bytes()),
{
    let mut i: usize = 0;
    while i < members.len()
        invariant
            i <= members.len(),
            forall|k: int| 0 <= k < i ==> encode_utf8(#[trigger] members[k]@) != name.spec_bytes(),
        decreases members.len() - i,
    {
        if str_eq(members[i].as_str(), name) {
            return true;
        }
        i += 1;
    }
    false
}

/// Splits the path and checks that it names a module of a member.
fn workspace_target<'a>(path: &'a str, members: &[String]) -> (r: Result<Vec<&'a str>>)
    ensures
        match target_refusal(path.spec_bytes(), members@) {
            Some(e) => r == Err::<Vec<&'a str>, Error>(e),
            None => r matches Ok(parts) && bytes_of(parts@) == segments_of(path.spec_bytes()),
        },
{
    let path_segments = split_module_path(path);
    if any_empty(path_segments.as_slice()) {
        return Err(Error::EmptyPath);
    }
    if path_segments.len() < 2 {
        return Err(Error::UnsupportedPath(Unsupported::MissingMember));
    }
    if !member_listed(members, path_segments[0]) {
        return Err(Error::UnsupportedPath(Unsupported::UnknownMember));
    }
    Ok(path_segments)
}

/// The member of the workspace that the path points into: its first
/// segment, which must be listed among `members`.
pub fn workspace_member(path: &str, members: &[String]) -> (r: Result<String>)
    ensures
        match target_refusal(path.spec_bytes(), members@) {
            Some(e) => r == Err::<String, Error>(e),
            None => r matches Ok(member) && member@ == segment_text(path.spec_bytes(), 0),
        },
{
    match workspace_target(path, members) {
        Ok(parts) => {
            proof {
                encode_utf8_decode_utf8(parts[0]@);
            }
            Ok(String::from_str(parts[0]))
        },
        Err(e) => Err(e),
    }
}

/// Plans the module at `path` in the workspace with the given members,
/// given which of the two root files the member named by the path has.
/// Every path of the plan starts with the member's directory.
pub fn create_module_in_workspace(
    path: &str,
    options: ModuleOptions,
    members: &[String],
    has_lib: bool,
    has_main: bool,
) -> (r: Result<ModulePlan>)
    ensures
        match workspace_refusal(path.spec_bytes(), members@, has_lib, has_main) {
            Some(e) => r == Err::<ModulePlan, Error>(e),
            None => r matches Ok(plan) && plan.is_plan_for(
                segment_text(path.spec_bytes(), 0),
                root_file_of(has_lib),
                segment_text(path.spec_bytes(), 1),
                options,
            ),
        },
{
    let path_segments = match workspace_target(path, members) {
        Ok(parts) => parts,
        Err(e) => {
            return Err(e);
        },
    };
    let target_member = path_segments[0];
    let root_file_name = match get_root_file_name(has_lib, has_main) {
        Ok(name) => name,
        Err(e) => {
            return Err(e);
        },
    };
    let inner = slice_subrange(path_segments.as_slice(), 1, path_segments.len());
    proof {
        assert(bytes_of(inner@) =~= segments_of(path.spec_bytes()).skip(1));
        encode_utf8_decode_utf8(path_segments[0]@);
        encode_utf8_decode_utf8(path_segments[1]@);
    }
    create_module(target_member, root_file_name, inner, options)
}

} // verus!
