//! Creating a module: its options, the declaration patched into the root
//! file, and the plan of file-system entries to create.

use crate::errors::{Error, Result, Unsupported};
use crate::patch::{compute_patch, declaration_line, module_declaration, patched};
use crate::path::{all_names, check_names};
use crate::text::{bytes_of, listed};
use crate::utils::{
    add_mod_rs, joined, lemma_name_ends_in_no_slash, suffix, valid_module_name, MOD_RS,
};
use vstd::prelude::*;
use vstd::string::{StringExecFns, StringSliceAdditionalSpecFns};
use vstd::utf8::encode_utf8;

verus! {

/// The configuration to use while creating a module
#[derive(Debug, Clone, Copy, PartialEq, Eq, Structural)]
pub struct ModuleOptions {
    /// show the help menu
    pub is_help: bool,
    /// module should be public
    pub is_public: bool,
    /// module entry (`mod <module>`) should be appended at license header end
    pub from_comment_header_bottom: bool,
    /// module should be create as `<module>.rs` instead of `<module>/mod.rs`
    pub no_mod_folder: bool,
}

impl Default for ModuleOptions {
    fn default() -> (options: ModuleOptions)
        ensures
            !options.is_help,
            !options.is_public,
            !options.from_comment_header_bottom,
            !options.no_mod_folder,
    {
        ModuleOptions {
            is_help: false,
            is_public: false,
            from_comment_header_bottom: false,
            no_mod_folder: false,
        }
    }
}

/// The flag tokens that are recognized, long and short forms alike.
pub open spec fn known_flags() -> Seq<Seq<u8>> {
    seq![
        "public".spec_bytes(),
        "P".spec_bytes(),
        "help".spec_bytes(),
        "cskip".spec_bytes(),
        "C".spec_bytes(),
        "fskip".spec_bytes(),
        "F".spec_bytes(),
    ]
}

/// Every one of `flags` is a recognized token.
pub open spec fn all_known(flags: Seq<Seq<u8>>) -> bool {
    forall|i: int| 0 <= i < flags.len() ==> known_flags().contains(#[trigger] flags[i])
}

/// There are more distinct tokens among `flags` than there are recognized
/// ones. Tokens are counted once, however often they occur.
pub open spec fn too_many(flags: Seq<Seq<u8>>) -> bool {
    flags.to_set().len() > ModuleOptions::FLAG_COUNT
}

/// What a set of flag tokens asks for. Only which tokens occur counts, not
/// how often or in which order.
pub open spec fn options_of(flags: Seq<Seq<u8>>) -> ModuleOptions {
    ModuleOptions {
        is_help: flags.contains("help".spec_bytes()),
        is_public: flags.contains("public".spec_bytes()) || flags.contains("P".spec_bytes()),
        from_comment_header_bottom: flags.contains("cskip".spec_bytes()) || flags.contains(
            "C".spec_bytes(),
        ),
        no_mod_folder: flags.contains("fskip".spec_bytes()) || flags.contains("F".spec_bytes()),
    }
}

/// More distinct tokens than there are recognized ones cannot all be
/// recognized: a list that is refused for its count holds an unknown flag.
pub proof fn lemma_too_many_flags(flags: Seq<Seq<u8>>)
    requires
        too_many(flags),
    ensures
        !all_known(flags),
{
    if all_known(flags) {
        let given = flags.to_set();
        let known = known_flags().to_set();
        assert(given.subset_of(known)) by {
            assert forall|token: Seq<u8>| given.contains(token) implies known.contains(token) by {
                let i = choose|i: int| 0 <= i < flags.len() && flags[i] == token;
                assert(known_flags().contains(flags[i]));
            }
        }
        known_flags().lemma_cardinality_of_set();
        vstd::seq_lib::seq_to_set_is_finite(known_flags());
        vstd::set_lib::lemma_len_subset(given, known);
    }
}

/// Counts the distinct tokens among `flags`.
pub fn count_distinct(flags: &[&str]) -> (count: usize)
    ensures
        count == bytes_of(flags@).to_set().len(),
{
    let ghost all = bytes_of(flags@);
    let mut distinct: Vec<&str> = Vec::new();
    let mut i: usize = 0;
    while i < flags.len()
        invariant
            i <= flags.len(),
            all == bytes_of(flags@),
            distinct.len() <= i,
            bytes_of(distinct@).no_duplicates(),
            bytes_of(distinct@).to_set() == all.take(i as int).to_set(),
        decreases flags.len() - i,
    {
        let ghost found = bytes_of(distinct@);
        proof {
            assert(all.take(i + 1) =~= all.take(i as int).push(all[i as int]));
            all.take(i as int).lemma_push_to_set_commute(all[i as int]);
        }
        if !listed(distinct.as_slice(), flags[i]) {
            distinct.push(flags[i]);
            proof {
                assert(bytes_of(distinct@) =~= found.push(all[i as int]));
                found.lemma_push_to_set_commute(all[i as int]);
            }
        } else {
            assert(found.to_set().insert(all[i as int]) =~= found.to_set());
        }
        i += 1;
    }
    proof {
        assert(all.take(i as int) =~= all);
        bytes_of(distinct@).unique_seq_to_set();
    }
    distinct.len()
}

impl ModuleOptions {
    /// The flag count (inclusive of short and long)
    pub const FLAG_COUNT: usize = 7;

    /// Check the options from the given flag tokens: the fields are set to
    /// what the tokens ask for, whatever else is among them, and more
    /// distinct tokens than `FLAG_COUNT` are an error.
    pub fn process_options(&mut self, flags: &[&str]) -> (r: Result<()>)
        ensures
            *final(self) == options_of(bytes_of(flags@)),
            !too_many(bytes_of(flags@)) ==> r is Ok,
            too_many(bytes_of(flags@)) ==> (r matches Err(Error::Other(text)) && text@
                == "Unknown flags"@),
            flags.len() <= Self::FLAG_COUNT ==> r is Ok,
    {
        proof {
            bytes_of(flags@).lemma_cardinality_of_set();
        }
        self.is_public = listed(flags, "public") || listed(flags, "P");
        self.is_help = listed(flags, "help");
        self.from_comment_header_bottom = listed(flags, "cskip") || listed(flags, "C");
        self.no_mod_folder = listed(flags, "fskip") || listed(flags, "F");
        if count_distinct(flags) > Self::FLAG_COUNT {
            return Err(Error::Other(String::from_str("Unknown flags")));
        }
        Ok(())
    }
}

/// What creating a module comes to: the entries to create, in this order,
/// and the root file to patch afterwards. Every path is relative to the
/// directory the package directory was given against.
#[derive(Debug)]
pub struct ModulePlan {
    /// The directory to create for the module, unless it is a single file.
    pub directory: Option<String>,
    /// The file of the module, to be created empty.
    pub file: String,
    /// The root file that receives the declaration.
    pub root_file: String,
    /// The name of the module.
    pub module: String,
    /// The options the module is created with.
    pub options: ModuleOptions,
}

/// The directory that holds the modules of a package, relative to it.
pub open spec fn source_root() -> Seq<char> {
    "src/"@
}

impl ModulePlan {
    /// The plan is the one for the module `name` of the package in
    /// `project_dir` whose root file is `root_file_path`: a file
    /// `src/<name>.rs` where no directory is wanted, else a directory
    /// `src/<name>` with a `mod.rs` in it.
    pub open spec fn is_plan_for(
        &self,
        project_dir: Seq<char>,
        root_file_path: Seq<char>,
        name: Seq<char>,
        options: ModuleOptions,
    ) -> bool {
        &&& self.module@ == name
        &&& self.options == options
        &&& self.root_file@ == joined(project_dir, root_file_path)
        &&& if options.no_mod_folder {
            &&& self.directory is None
            &&& self.file@ == joined(project_dir, source_root() + name + ".rs"@)
        } else {
            &&& self.directory matches Some(directory)
            &&& directory@ == joined(project_dir, source_root() + name)
            &&& self.file@ == joined(directory@, MOD_RS@)
        }
    }
}

/// Where the module gets a directory, that is `src/<name>` in the package,
/// and its file is the `mod.rs` right in it. With no package directory
/// given, the directory is `src/<name>` as it stands.
pub proof fn lemma_module_file_in_directory(project_dir: Seq<char>, name: Seq<char>)
    requires
        valid_module_name(encode_utf8(name)),
    ensures
        ({
            let directory = joined(project_dir, source_root() + name);
            &&& joined(directory, MOD_RS@) == directory + "/mod.rs"@
            &&& project_dir.len() == 0 ==> directory == "src/"@ + name
        }),
{
    lemma_name_ends_in_no_slash(name);
    reveal_strlit("src/");
    reveal_strlit("mod.rs");
    reveal_strlit("/mod.rs");
}

/// Create the module using the provided `root_file_path`, path segments and
/// the module options, for the package in `project_dir` (empty for the
/// current directory). Nothing is touched: the result is the plan of what
/// to create. Every segment is validated first; then a path of more or
/// fewer than one segment is refused.
pub fn create_module(
    project_dir: &str,
    root_file_path: &str,
    path_segments: &[&str],
    options: ModuleOptions,
) -> (r: Result<ModulePlan>)
    ensures
        !all_names(bytes_of(path_segments@)) ==> r == Err::<ModulePlan, Error>(
            Error::BadModuleName,
        ),
        all_names(bytes_of(path_segments@)) && path_segments.len() != 1 ==> r == Err::<
            ModulePlan,
            Error,
        >(Error::UnsupportedPath(Unsupported::NestedModule)),
        all_names(bytes_of(path_segments@)) && path_segments.len() == 1 ==> (r matches Ok(plan)
            && plan.is_plan_for(project_dir@, root_file_path@, path_segments[0]@, options)),
{
    if !check_names(path_segments) {
        return Err(Error::BadModuleName);
    }
    if path_segments.len() != 1 {
        return Err(Error::UnsupportedPath(Unsupported::NestedModule));
    }
    let name = path_segments[0];
    let root_file = suffix(project_dir, root_file_path);
    let inner = String::from_str("src/").concat(name);
    if options.no_mod_folder {
        // just create <module>.rs
        let file = suffix(project_dir, inner.concat(".rs").as_str());
        Ok(ModulePlan { directory: None, file, root_file, module: String::from_str(name), options })
    } else {
        // the module directory (src/<mod>/) and the module file in it
        let directory = suffix(project_dir, inner.as_str());
        let file = add_mod_rs(directory.as_str());
        Ok(
            ModulePlan {
                directory: Some(directory),
                file,
                root_file,
                module: String::from_str(name),
                options,
            },
        )
    }
}

/// The text that `patch_file` adds to its sink for the module `name`, or
/// `None` where the header of `contents` never closes.
pub open spec fn patch_of(name: Seq<char>, contents: Seq<u8>, options: ModuleOptions) -> Option<
    Seq<u8>,
> {
    patched(
        contents,
        encode_utf8(declaration_line(name, options.is_public)),
        options.from_comment_header_bottom,
    )
}

/// Patch the file with the updated data: the contents of the root file with
/// the declaration of `final_module_name` inserted are appended to `file`.
/// Where the patch fails, `file` is left as it was.
pub fn patch_file(
    final_module_name: &str,
    contents: &str,
    options: ModuleOptions,
    file: &mut Vec<u8>,
) -> (r: Result<()>)
    ensures
        match patch_of(final_module_name@, contents.spec_bytes(), options) {
            Some(text) => r is Ok && final(file)@ == old(file)@ + text,
            None => r == Err::<(), Error>(Error::MalformedHeader) && final(file)@ == old(file)@,
        },
{
    let mod_decl = module_declaration(final_module_name, options.is_public);
    match compute_patch(contents, mod_decl.as_str(), options.from_comment_header_bottom) {
        Ok(mut text) => {
            file.append(&mut text);
            Ok(())
        },
        Err(e) => Err(e),
    }
}

} // verus!
