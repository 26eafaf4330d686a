//! What kind of project a manifest declares: a package, or a workspace
//! with its members. The manifest is parsed by the `cargo_toml` crate.

use crate::errors::{Error, Result};
use cargo_toml::Error as ManifestError;
use vstd::prelude::*;
use vstd::string::StringExecFns;

verus! {

/// What the library reads off a parsed manifest.
#[derive(Debug)]
pub struct ManifestShape {
    /// The manifest has a `[package]` table.
    pub has_package: bool,
    /// The members of the `[workspace]` table, if the manifest has one.
    pub workspace_members: Option<Vec<String>>,
}

impl DeepView for ManifestShape {
    type V = (bool, Option<Seq<Seq<char>>>);

    open spec fn deep_view(&self) -> Self::V {
        (
            self.has_package,
            match self.workspace_members {
                Some(members) => Some(members.deep_view()),
                None => None,
            },
        )
    }
}

/// The kind of project that a manifest declares.
#[derive(Debug)]
pub enum ProjectKind {
    /// A package: modules are created in the current directory.
    Package,
    /// A workspace with these members: modules are created in one of them.
    Workspace(Vec<String>),
}

/// What `cargo_toml::Manifest::from_str` makes of the text of a manifest:
/// `None` where it reports an error, else whether it found a `[package]`
/// table, and the `members` of the `[workspace]` table if it found one.
pub uninterp spec fn parsed_manifest(text: Seq<char>) -> Option<(bool, Option<Seq<Seq<char>>>)>;

/// Parses the text of a manifest with `cargo_toml::Manifest::from_str`,
/// which reads nothing but its argument, and keeps of the result whether
/// the `package` field is set and the `members` of the `workspace` field.
/// The contract only gives that outcome its name, `parsed_manifest`.
#[verifier::external_body]
fn parse_manifest(text: &str) -> (r: std::result::Result<ManifestShape, ManifestError>)
    ensures
        match r {
            Ok(shape) => parsed_manifest(text@) == Some(shape.deep_view()),
            Err(_) => parsed_manifest(text@) is None,
        },
{
    match cargo_toml::Manifest::from_str(text) {
        Ok(manifest) => Ok(
            ManifestShape {
                has_package: manifest.package.is_some(),
                workspace_members: manifest.workspace.map(|workspace| workspace.members),
            },
        ),
        Err(e) => Err(e),
    }
}

/// The message for a manifest that declares nothing to work on.
pub open spec fn nothing_declared() -> Seq<char> {
    "`Cargo.toml` declares neither a package nor a workspace"@
}

/// Decides the kind of project from a parsed manifest, or from the error
/// of the parser. A package comes first: a manifest with both tables is a
/// package. One with neither is refused.
pub fn classify_manifest(parsed: std::result::Result<ManifestShape, ManifestError>) -> (r: Result<
    ProjectKind,
>)
    ensures
        match parsed {
            Ok(shape) => if shape.has_package {
                r == Ok::<ProjectKind, Error>(ProjectKind::Package)
            } else {
                match shape.workspace_members {
                    Some(members) => r == Ok::<ProjectKind, Error>(
                        ProjectKind::Workspace(members),
                    ),
                    None => r matches Err(Error::Other(text)) && text@ == nothing_declared(),
                }
            },
            Err(e) => r == Err::<ProjectKind, Error>(Error::CargoTomlError(e)),
        },
{
    match parsed {
        Ok(shape) => {
            if shape.has_package {
                Ok(ProjectKind::Package)
            } else {
                match shape.workspace_members {
                    Some(members) => Ok(ProjectKind::Workspace(members)),
                    None => Err(
                        Error::Other(
                            String::from_str(
                                "`Cargo.toml` declares neither a package nor a workspace",
                            ),
                        ),
                    ),
                }
            }
        },
        Err(e) => Err(Error::CargoTomlError(e)),
    }
}

/// Decides the kind of project from the text of its manifest.
pub fn detect_project(manifest: &str) -> (r: Result<ProjectKind>)
    ensures
        match parsed_manifest(manifest@) {
            None => r matches Err(Error::CargoTomlError(_)),
            Some((true, _)) => r == Ok::<ProjectKind, Error>(ProjectKind::Package),
            Some((false, Some(members))) => r matches Ok(ProjectKind::Workspace(list))
                && list.deep_view() == members,
            Some((false, None)) => r matches Err(Error::Other(text)) && text@
                == nothing_declared(),
        },
{
    classify_manifest(parse_manifest(manifest))
}

} // verus!
