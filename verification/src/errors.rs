//! The error type shared by every operation of the library.

use cargo_toml::Error as ManifestError;
use vstd::prelude::*;
use vstd::std_specs::convert::FromSpecImpl;
use vstd::string::{to_string_from_display_ensures, StringExecFns};

verus! {

/// The error type of the manifest parser, `cargo_toml::Error`. Values of it
/// are carried through unopened.
#[verifier::external_type_specification]
#[verifier::external_body]
pub struct ExManifestError(ManifestError);

/// The error type of file operations, `std::io::Error`. Values of it are
/// carried through unopened.
#[verifier::external_type_specification]
#[verifier::external_body]
pub struct ExIoError(std::io::Error);

pub type Result<T> = std::result::Result<T, Error>;

/// Why a well-formed module path cannot be served.
#[derive(Debug, Clone, Copy, PartialEq, Eq, Structural)]
pub enum Unsupported {
    /// The path names a module below another module.
    NestedModule,
    /// The first segment names no member of the workspace.
    UnknownMember,
    /// The path names no module below a member of the workspace.
    MissingMember,
}

/// Everything that can go wrong while creating a module.
#[derive(Debug)]
pub enum Error {
    /// A segment of the module path is empty.
    EmptyPath,
    /// A segment of the module path is not an acceptable module name.
    BadModuleName,
    /// The package has both a library root and a binary root, or neither.
    AmbiguousRootFile,
    /// The root file opens with a block comment that never closes.
    MalformedHeader,
    /// The module path is well formed but asks for something not offered.
    UnsupportedPath(Unsupported),
    /// The file system refused an operation.
    IoError(std::io::Error),
    /// The manifest could not be parsed.
    CargoTomlError(ManifestError),
    /// A malformed command line or manifest, described by the message.
    Other(String),
}

impl Error {
    /// The fixed part of the message: all of it, except for the variants
    /// that wrap a foreign error, where the foreign description follows.
    pub open spec fn message_head(&self) -> Seq<char> {
        match self {
            Error::EmptyPath => "one or more modules have empty names"@,
            Error::BadModuleName => "bad module name"@,
            Error::AmbiguousRootFile =>
                "Current package must contain exactly one of `lib.rs` and `main.rs`. Unable to determine package type"@,
            Error::MalformedHeader => "Your source file possibly has a syntax error"@,
            Error::UnsupportedPath(Unsupported::NestedModule) =>
                "modules other than the root aren't supported yet. this will be implemented in a future version"@,
            Error::UnsupportedPath(Unsupported::UnknownMember) =>
                "package not present in workspace `Cargo.toml`. consider adding it there"@,
            Error::UnsupportedPath(Unsupported::MissingMember) => "Bad module path"@,
            Error::IoError(_) => "I/O error: "@,
            Error::CargoTomlError(_) => "failed to read `Cargo.toml`: "@,
            Error::Other(text) => text@,
        }
    }

    /// `text` is the message of the error: the fixed part, followed, for
    /// the variants that wrap a foreign error, by what `to_string` gives
    /// for that error.
    pub open spec fn is_message(&self, text: Seq<char>) -> bool {
        match self {
            Error::IoError(e) => exists|detail: String|
                #[trigger] to_string_from_display_ensures::<std::io::Error>(e, detail) && text
                    == self.message_head() + detail@,
            Error::CargoTomlError(e) => exists|detail: String|
                #[trigger] to_string_from_display_ensures::<ManifestError>(e, detail) && text
                    == self.message_head() + detail@,
            _ => text == self.message_head(),
        }
    }

    /// The message shown to the user.
    pub fn message(&self) -> (text: String)
        ensures
            self.is_message(text@),
    {
        match self {
            Error::EmptyPath => String::from_str("one or more modules have empty names"),
            Error::BadModuleName => String::from_str("bad module name"),
            Error::AmbiguousRootFile => String::from_str(
                "Current package must contain exactly one of `lib.rs` and `main.rs`. Unable to determine package type",
            ),
            Error::MalformedHeader => String::from_str(
                "Your source file possibly has a syntax error",
            ),
            Error::UnsupportedPath(Unsupported::NestedModule) => String::from_str(
                "modules other than the root aren't supported yet. this will be implemented in a future version",
            ),
            Error::UnsupportedPath(Unsupported::UnknownMember) => String::from_str(
                "package not present in workspace `Cargo.toml`. consider adding it there",
            ),
            Error::UnsupportedPath(Unsupported::MissingMember) => String::from_str(
                "Bad module path",
            ),
            Error::IoError(e) => String::from_str("I/O error: ").concat(e.to_string().as_str()),
            Error::CargoTomlError(e) => String::from_str("failed to read `Cargo.toml`: ").concat(
                e.to_string().as_str(),
            ),
            Error::Other(text) => text.clone(),
        }
    }
}

impl From<ManifestError> for Error {
    fn from(e: ManifestError) -> (r: Error) {
        Error::CargoTomlError(e)
    }
}

impl FromSpecImpl<ManifestError> for Error {
    open spec fn obeys_from_spec() -> bool {
        true
    }

    open spec fn from_spec(e: ManifestError) -> Error {
        Error::CargoTomlError(e)
    }
}

impl From<std::io::Error> for Error {
    fn from(e: std::io::Error) -> (r: Error) {
        Error::IoError(e)
    }
}

impl FromSpecImpl<std::io::Error> for Error {
    open spec fn obeys_from_spec() -> bool {
        true
    }

    open spec fn from_spec(e: std::io::Error) -> Error {
        Error::IoError(e)
    }
}

} // verus!
