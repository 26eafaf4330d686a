use dab::errors::Error;
use dab::module::ModuleOptions;
use dab::transaction::{temp_path, OnFailure, PatchTransaction, Progress, Step, Transform};

fn insert(module: &str, below_header: bool) -> Transform {
    let mut options = ModuleOptions::default();
    options.from_comment_header_bottom = below_header;
    Transform::InsertDeclaration { module: module.to_string(), options }
}

fn started(path: &str, contents: String, transform: Transform, on_failure: OnFailure) -> (PatchTransaction, Step) {
    next(PatchTransaction::begin(path, Ok(contents), transform, on_failure))
}

fn next(progress: Progress) -> (PatchTransaction, Step) {
    match progress {
        Progress::Next(transaction, step) => (transaction, step),
        Progress::Finished(result) => panic!("{:?}", result),
    }
}

#[test]
fn temporary_path_is_the_original_with_a_marker() {
    assert_eq!(temp_path("src/main.rs"), "src/main.rs_");
    assert_eq!(temp_path(""), "_");
}

#[test]
fn transform_inserts_the_declaration() {
    assert_eq!(insert("z", false).produce("mod x;\n").unwrap(), b"mod z;\nmod x;\n");
    assert_eq!(insert("z", true).produce("/* c */\nmod x;\n").unwrap(), b"/* c */\nmod z;\n\nmod x;\n");
    assert!(matches!(insert("z", true).produce("/* c"), Err(Error::MalformedHeader)));
}

#[test]
fn steps_follow_each_other_and_the_rename_is_last() {
    let (transaction, step) = started("src/main.rs", "fn main() {}\n".to_string(), insert("z", false), OnFailure::KeepTemporary);
    match step {
        Step::CreateNew { path } => assert_eq!(path, "src/main.rs_"),
        other => panic!("{:?}", other),
    }
    let (transaction, step) = next(transaction.advance(Ok(())));
    match step {
        Step::Write { path, bytes } => {
            assert_eq!(path, "src/main.rs_");
            assert_eq!(bytes, b"mod z;\nfn main() {}\n");
        },
        other => panic!("{:?}", other),
    }
    let (transaction, step) = next(transaction.advance(Ok(())));
    match step {
        Step::Sync { path } => assert_eq!(path, "src/main.rs_"),
        other => panic!("{:?}", other),
    }
    let (transaction, step) = next(transaction.advance(Ok(())));
    match step {
        Step::Rename { from, to } => {
            assert_eq!(from, "src/main.rs_");
            assert_eq!(to, "src/main.rs");
        },
        other => panic!("{:?}", other),
    }
    assert!(matches!(transaction.advance(Ok(())), Progress::Finished(Ok(()))));
}

#[test]
fn stale_temporary_file_ends_the_transaction_at_once() {
    let (transaction, _) = started("src/lib.rs", String::new(), insert("z", false), OnFailure::KeepTemporary);
    let exists = std::io::Error::new(std::io::ErrorKind::AlreadyExists, "file exists");
    match transaction.advance(Err(exists)) {
        Progress::Finished(Err(Error::IoError(e))) => assert_eq!(e.kind(), std::io::ErrorKind::AlreadyExists),
        other => panic!("{:?}", other),
    }
}

#[test]
fn failing_transform_ends_the_transaction_before_any_write() {
    let (transaction, _) = started("src/lib.rs", "/* open".to_string(), insert("z", true), OnFailure::KeepTemporary);
    assert!(matches!(transaction.advance(Ok(())), Progress::Finished(Err(Error::MalformedHeader))));
}

#[test]
fn failing_step_ends_the_transaction_with_its_error() {
    // the write fails
    let (transaction, _) = started("a.rs", String::new(), insert("z", false), OnFailure::KeepTemporary);
    let (transaction, _) = next(transaction.advance(Ok(())));
    let full = std::io::Error::new(std::io::ErrorKind::Other, "disk full");
    match transaction.advance(Err(full)) {
        Progress::Finished(Err(e)) => assert_eq!(e.message(), "I/O error: disk full"),
        other => panic!("{:?}", other),
    }
    // the sync fails
    let (transaction, _) = started("a.rs", String::new(), insert("z", false), OnFailure::KeepTemporary);
    let (transaction, _) = next(transaction.advance(Ok(())));
    let (transaction, _) = next(transaction.advance(Ok(())));
    let failed = std::io::Error::new(std::io::ErrorKind::Other, "sync");
    assert!(matches!(transaction.advance(Err(failed)), Progress::Finished(Err(Error::IoError(_)))));
    // the rename fails
    let (transaction, _) = started("a.rs", String::new(), insert("z", false), OnFailure::KeepTemporary);
    let (transaction, _) = next(transaction.advance(Ok(())));
    let (transaction, _) = next(transaction.advance(Ok(())));
    let (transaction, _) = next(transaction.advance(Ok(())));
    let failed = std::io::Error::new(std::io::ErrorKind::PermissionDenied, "rename");
    assert!(matches!(transaction.advance(Err(failed)), Progress::Finished(Err(Error::IoError(_)))));
}

#[test]
fn temporary_file_is_removed_on_failure_where_asked_for() {
    // the transform fails
    let (transaction, _) =
        started("a.rs", "/* open".to_string(), insert("z", true), OnFailure::RemoveTemporary);
    let (transaction, step) = next(transaction.advance(Ok(())));
    match step {
        Step::Remove { path } => assert_eq!(path, "a.rs_"),
        other => panic!("{:?}", other),
    }
    assert!(matches!(transaction.advance(Ok(())), Progress::Finished(Err(Error::MalformedHeader))));
    // the write fails, and then the removal too: the first error is reported
    let (transaction, _) =
        started("a.rs", String::new(), insert("z", false), OnFailure::RemoveTemporary);
    let (transaction, _) = next(transaction.advance(Ok(())));
    let full = std::io::Error::new(std::io::ErrorKind::Other, "disk full");
    let (transaction, step) = next(transaction.advance(Err(full)));
    assert!(matches!(step, Step::Remove { .. }));
    let denied = std::io::Error::new(std::io::ErrorKind::PermissionDenied, "denied");
    match transaction.advance(Err(denied)) {
        Progress::Finished(Err(e)) => assert_eq!(e.message(), "I/O error: disk full"),
        other => panic!("{:?}", other),
    }
}

#[test]
fn temporary_file_of_another_run_is_never_removed() {
    let (transaction, _) =
        started("a.rs", String::new(), insert("z", false), OnFailure::RemoveTemporary);
    let exists = std::io::Error::new(std::io::ErrorKind::AlreadyExists, "file exists");
    assert!(matches!(transaction.advance(Err(exists)), Progress::Finished(Err(Error::IoError(_)))));
}

#[test]
fn failed_read_ends_the_transaction_before_any_step() {
    let missing = std::io::Error::new(std::io::ErrorKind::NotFound, "no such file");
    match PatchTransaction::begin("src/lib.rs", Err(missing), insert("z", false), OnFailure::RemoveTemporary) {
        Progress::Finished(Err(Error::IoError(e))) => assert_eq!(e.kind(), std::io::ErrorKind::NotFound),
        other => panic!("{:?}", other),
    }
    let invalid = std::io::Error::new(std::io::ErrorKind::InvalidData, "stream did not contain valid UTF-8");
    match PatchTransaction::begin("src/lib.rs", Err(invalid), insert("z", false), OnFailure::KeepTemporary) {
        Progress::Finished(Err(e)) => assert_eq!(e.message(), "I/O error: stream did not contain valid UTF-8"),
        other => panic!("{:?}", other),
    }
}
