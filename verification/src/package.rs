//! Creating a module in a package that stands on its own.

use crate::errors::{Error, Result, Unsupported};
use crate::module::{create_module, ModuleOptions, ModulePlan};
use crate::path::{
    all_names, any_empty, has_empty, path_separator, segments_of, split_module_path,
};
use crate::text::{bytes_of, lemma_same_bytes_same_chars, lemma_split_single};
use crate::utils::{get_root_file_name, LIB_RS, MAIN_RS};
use vstd::prelude::*;
use vstd::string::StringSliceAdditionalSpecFns;

verus! {

/// The root file of a package that has exactly one of the two.
pub open spec fn root_file_of(has_lib: bool) -> Seq<char> {
    if has_lib {
        LIB_RS@
    } else {
        MAIN_RS@
    }
}

/// Why the module at `path` cannot be created in a package whose root files
/// are as told, if it cannot. The checks come in this order: an empty
/// segment, the root file, the module names, the number of segments.
pub open spec fn package_refusal(path: Seq<u8>, has_lib: bool, has_main: bool) -> Option<Error> {
    let segments = segments_of(path);
    if has_empty(segments) {
        Some(Error::EmptyPath)
    } else if has_lib == has_main {
        Some(Error::AmbiguousRootFile)
    } else if !all_names(segments) {
        Some(Error::BadModuleName)
    } else if segments.len() != 1 {
        Some(Error::UnsupportedPath(Unsupported::NestedModule))
    } else {
        None
    }
}

/// Plans the module at `path` in the package of the current directory,
/// given which of its two root files exist.
pub fn create_module_in_package(
    path: &str,
    options: ModuleOptions,
    has_lib: bool,
    has_main: bool,
) -> (r: Result<ModulePlan>)
    ensures
        match package_refusal(path.spec_bytes(), has_lib, has_main) {
            Some(e) => r == Err::<ModulePlan, Error>(e),
            None => r matches Ok(plan) && plan.is_plan_for(
                Seq::empty(),
                root_file_of(has_lib),
                path@,
                options,
            ),
        },
{
    // find module directory and file paths
    let path_segments = split_module_path(path);
    if any_empty(path_segments.as_slice()) {
        // this will handle special cases like: "", "::", "::a", "a::"
        return Err(Error::EmptyPath);
    }
    let root_file_name = match get_root_file_name(has_lib, has_main) {
        Ok(name) => name,
        Err(e) => {
            return Err(e);
        },
    };
    proof {
        lemma_split_single(path.spec_bytes(), path_separator());
        if path_segments.len() == 1 {
            assert(bytes_of(path_segments@)[0] == path_segments[0].spec_bytes());
            lemma_same_bytes_same_chars(path_segments[0]@, path@);
        }
        reveal_strlit("");
    }
    create_module("", root_file_name, path_segments.as_slice(), options)
}

} // verus!
