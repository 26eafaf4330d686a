use dab::errors::{Error, Unsupported};
use dab::module::{create_module, patch_file, ModuleOptions};
use dab::path::{any_empty, check_names, split_module_path};
use dab::package::create_module_in_package;
use dab::workspace::{create_module_in_workspace, workspace_member};

fn members(list: &[&str]) -> Vec<String> {
    list.iter().map(|s| s.to_string()).collect()
}

#[test]
fn module_path_is_split_at_double_colons() {
    assert_eq!(split_module_path("widgets"), vec!["widgets"]);
    assert_eq!(split_module_path("a::b"), vec!["a", "b"]);
    assert_eq!(split_module_path("a::b::c"), vec!["a", "b", "c"]);
    assert_eq!(split_module_path(""), vec![""]);
    assert_eq!(split_module_path("::"), vec!["", ""]);
    assert_eq!(split_module_path("::a"), vec!["", "a"]);
    assert_eq!(split_module_path("a::"), vec!["a", ""]);
    assert_eq!(split_module_path("a:::b"), vec!["a", ":b"]);
    assert_eq!(split_module_path("a::::b"), vec!["a", "", "b"]);
    assert_eq!(split_module_path("a:b"), vec!["a:b"]);
    assert_eq!(split_module_path("é::ü"), vec!["é", "ü"]);
}

#[test]
fn empty_segments_are_found() {
    assert!(any_empty(&[""]));
    assert!(any_empty(&["a", ""]));
    assert!(!any_empty(&["a", "b"]));
    assert!(!any_empty(&[]));
}

#[test]
fn names_of_all_segments_are_checked() {
    assert!(check_names(&["a", "b_1", "_c"]));
    assert!(check_names(&[]));
    assert!(!check_names(&["a", "1b"]));
    assert!(!check_names(&["", "a"]));
}

#[test]
fn module_with_directory_is_planned() {
    let plan = create_module("", "src/main.rs", &["widgets"], ModuleOptions::default()).unwrap();
    assert_eq!(plan.directory.as_deref(), Some("src/widgets"));
    assert_eq!(plan.file, "src/widgets/mod.rs");
    assert_eq!(plan.root_file, "src/main.rs");
    assert_eq!(plan.module, "widgets");
    assert_eq!(plan.options, ModuleOptions::default());
}

#[test]
fn module_without_directory_is_planned() {
    let mut options = ModuleOptions::default();
    options.no_mod_folder = true;
    let plan = create_module("", "src/lib.rs", &["widgets"], options).unwrap();
    assert_eq!(plan.directory, None);
    assert_eq!(plan.file, "src/widgets.rs");
    assert_eq!(plan.root_file, "src/lib.rs");
    assert_eq!(plan.options, options);
}

#[test]
fn plan_is_prefixed_with_the_package_directory() {
    let plan = create_module("core", "src/lib.rs", &["io"], ModuleOptions::default()).unwrap();
    assert_eq!(plan.directory.as_deref(), Some("core/src/io"));
    assert_eq!(plan.file, "core/src/io/mod.rs");
    assert_eq!(plan.root_file, "core/src/lib.rs");
    let plan = create_module("crates/core/", "src/lib.rs", &["io"], ModuleOptions::default()).unwrap();
    assert_eq!(plan.file, "crates/core/src/io/mod.rs");
}

#[test]
fn segments_are_validated_before_they_are_counted() {
    let options = ModuleOptions::default();
    assert!(matches!(create_module("", "src/lib.rs", &["a", "1b"], options), Err(Error::BadModuleName)));
    assert!(matches!(create_module("", "src/lib.rs", &["_"], options), Err(Error::BadModuleName)));
    assert!(matches!(create_module("", "src/lib.rs", &[""], options), Err(Error::BadModuleName)));
    assert!(matches!(
        create_module("", "src/lib.rs", &["a", "b"], options),
        Err(Error::UnsupportedPath(Unsupported::NestedModule))
    ));
    assert!(matches!(
        create_module("", "src/lib.rs", &[], options),
        Err(Error::UnsupportedPath(Unsupported::NestedModule))
    ));
}

#[test]
fn package_module_is_planned_and_declared_first() {
    let plan = create_module_in_package("widgets", ModuleOptions::default(), false, true).unwrap();
    assert_eq!(plan.directory.as_deref(), Some("src/widgets"));
    assert_eq!(plan.file, "src/widgets/mod.rs");
    assert_eq!(plan.root_file, "src/main.rs");
    let mut patched = Vec::new();
    patch_file(&plan.module, "fn main() {}\n", plan.options, &mut patched).unwrap();
    assert_eq!(patched, b"mod widgets;\nfn main() {}\n");
}

#[test]
fn public_package_module_is_declared_public() {
    let mut options = ModuleOptions::default();
    options.is_public = true;
    let plan = create_module_in_package("widgets", options, true, false).unwrap();
    assert_eq!(plan.root_file, "src/lib.rs");
    let mut patched = Vec::new();
    patch_file(&plan.module, "fn f() {}\n", plan.options, &mut patched).unwrap();
    assert_eq!(patched, b"pub mod widgets;\nfn f() {}\n");
}

#[test]
fn nested_module_in_package_is_not_supported_yet() {
    let r = create_module_in_package("a::b", ModuleOptions::default(), false, true);
    assert!(matches!(r, Err(Error::UnsupportedPath(Unsupported::NestedModule))));
}

#[test]
fn package_checks_come_in_order() {
    let options = ModuleOptions::default();
    for path in ["", "::", "::a", "a::", "a::::b"] {
        assert!(matches!(create_module_in_package(path, options, true, true), Err(Error::EmptyPath)), "{:?}", path);
    }
    assert!(matches!(create_module_in_package("1a::b", options, true, true), Err(Error::AmbiguousRootFile)));
    assert!(matches!(create_module_in_package("a", options, false, false), Err(Error::AmbiguousRootFile)));
    assert!(matches!(create_module_in_package("1a::b", options, true, false), Err(Error::BadModuleName)));
    assert!(matches!(create_module_in_package("a:b", options, true, false), Err(Error::BadModuleName)));
}

#[test]
fn workspace_module_is_planned_in_its_member() {
    let list = members(&["core", "cli"]);
    assert_eq!(workspace_member("cli::args", &list).unwrap(), "cli");
    let plan = create_module_in_workspace("cli::args", ModuleOptions::default(), &list, false, true).unwrap();
    assert_eq!(plan.directory.as_deref(), Some("cli/src/args"));
    assert_eq!(plan.file, "cli/src/args/mod.rs");
    assert_eq!(plan.root_file, "cli/src/main.rs");
    assert_eq!(plan.module, "args");
}

#[test]
fn workspace_member_may_be_a_path() {
    let list = members(&["crates/core"]);
    let mut options = ModuleOptions::default();
    options.no_mod_folder = true;
    let plan = create_module_in_workspace("crates/core::io", options, &list, true, false).unwrap();
    assert_eq!(plan.directory, None);
    assert_eq!(plan.file, "crates/core/src/io.rs");
    assert_eq!(plan.root_file, "crates/core/src/lib.rs");
}

#[test]
fn workspace_path_must_name_a_member_and_a_module() {
    let list = members(&["core", "cli"]);
    let options = ModuleOptions::default();
    assert!(matches!(
        create_module_in_workspace("core", options, &list, true, false),
        Err(Error::UnsupportedPath(Unsupported::MissingMember))
    ));
    assert!(matches!(workspace_member("core", &list), Err(Error::UnsupportedPath(Unsupported::MissingMember))));
    assert!(matches!(
        create_module_in_workspace("gui::window", options, &list, true, false),
        Err(Error::UnsupportedPath(Unsupported::UnknownMember))
    ));
    assert!(matches!(workspace_member("gui::window", &list), Err(Error::UnsupportedPath(Unsupported::UnknownMember))));
    assert!(matches!(workspace_member("a::b", &[]), Err(Error::UnsupportedPath(Unsupported::UnknownMember))));
    assert!(matches!(create_module_in_workspace("core::", options, &list, true, false), Err(Error::EmptyPath)));
    assert!(matches!(workspace_member("::io", &list), Err(Error::EmptyPath)));
}

#[test]
fn workspace_checks_come_in_order() {
    let list = members(&["core"]);
    let options = ModuleOptions::default();
    assert!(matches!(
        create_module_in_workspace("gui::1a", options, &list, true, true),
        Err(Error::UnsupportedPath(Unsupported::UnknownMember))
    ));
    assert!(matches!(create_module_in_workspace("core::1a", options, &list, true, true), Err(Error::AmbiguousRootFile)));
    assert!(matches!(create_module_in_workspace("core::1a::b", options, &list, true, false), Err(Error::BadModuleName)));
    assert!(matches!(
        create_module_in_workspace("core::a::b", options, &list, true, false),
        Err(Error::UnsupportedPath(Unsupported::NestedModule))
    ));
}
