use dab::creation::{CreationProgress, EntryStep, ModuleCreation};
use dab::errors::Error;
use dab::module::{create_module, ModuleOptions};
use dab::transaction::Transform;

fn plan(no_mod_folder: bool, is_public: bool) -> dab::module::ModulePlan {
    let mut options = ModuleOptions::default();
    options.no_mod_folder = no_mod_folder;
    options.is_public = is_public;
    create_module("", "src/main.rs", &["widgets"], options).unwrap()
}

#[test]
fn directory_comes_first_then_the_file_then_the_patch() {
    let (creation, step) = ModuleCreation::begin(plan(false, true));
    match step {
        EntryStep::CreateDir { path } => assert_eq!(path, "src/widgets"),
        other => panic!("{:?}", other),
    }
    let creation = match creation.advance(Ok(())) {
        CreationProgress::Next(creation, EntryStep::CreateFile { path }) => {
            assert_eq!(path, "src/widgets/mod.rs");
            creation
        },
        other => panic!("{:?}", other),
    };
    match creation.advance(Ok(())) {
        CreationProgress::Patch { root_file, transform: Transform::InsertDeclaration { module, options } } => {
            assert_eq!(root_file, "src/main.rs");
            assert_eq!(module, "widgets");
            assert!(options.is_public && !options.no_mod_folder);
        },
        other => panic!("{:?}", other),
    }
}

#[test]
fn module_without_directory_begins_with_its_file() {
    let (creation, step) = ModuleCreation::begin(plan(true, false));
    match step {
        EntryStep::CreateFile { path } => assert_eq!(path, "src/widgets.rs"),
        other => panic!("{:?}", other),
    }
    match creation.advance(Ok(())) {
        CreationProgress::Patch { root_file, transform } => {
            assert_eq!(root_file, "src/main.rs");
            assert_eq!(transform.produce("fn main() {}\n").unwrap(), b"mod widgets;\nfn main() {}\n");
        },
        other => panic!("{:?}", other),
    }
}

#[test]
fn existing_directory_ends_the_creation_at_once() {
    let (creation, _) = ModuleCreation::begin(plan(false, false));
    let exists = std::io::Error::new(std::io::ErrorKind::AlreadyExists, "file exists");
    match creation.advance(Err(exists)) {
        CreationProgress::Failed(Error::IoError(e)) => assert_eq!(e.kind(), std::io::ErrorKind::AlreadyExists),
        other => panic!("{:?}", other),
    }
}

#[test]
fn file_that_cannot_be_created_ends_the_creation_without_a_patch() {
    let (creation, _) = ModuleCreation::begin(plan(false, false));
    let creation = match creation.advance(Ok(())) {
        CreationProgress::Next(creation, _) => creation,
        other => panic!("{:?}", other),
    };
    let denied = std::io::Error::new(std::io::ErrorKind::PermissionDenied, "denied");
    match creation.advance(Err(denied)) {
        CreationProgress::Failed(e) => assert_eq!(e.message(), "I/O error: denied"),
        other => panic!("{:?}", other),
    }
    let (creation, _) = ModuleCreation::begin(plan(true, false));
    let denied = std::io::Error::new(std::io::ErrorKind::PermissionDenied, "denied");
    assert!(matches!(creation.advance(Err(denied)), CreationProgress::Failed(Error::IoError(_))));
}
