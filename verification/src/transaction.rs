//! Copy-on-write patching of one file, as a sequence of steps: the file is
//! read, the new content goes to a temporary file beside the original, is
//! forced to stable storage, and only then replaces the original by a
//! rename. The library decides the steps; the caller performs them and
//! reports how each one went.

use crate::errors::{Error, Result};
use crate::module::{patch_file, patch_of, ModuleOptions};
use vstd::prelude::*;
use vstd::string::{StringExecFns, StringSliceAdditionalSpecFns};
use vstd::utf8::encode_utf8;

verus! {

/// The marker that the path of the temporary file ends in.
pub open spec fn temp_marker() -> Seq<char> {
    "_"@
}

/// The path of the temporary file for the file at `original`.
pub fn temp_path(original: &str) -> (path: String)
    ensures
        path@ == original@ + temp_marker(),
{
    String::from_str(original).concat("_")
}

/// How the new content of a file is made from its old content.
#[derive(Debug)]
pub enum Transform {
    /// Insert the declaration of `module`, as `options` say.
    InsertDeclaration { module: String, options: ModuleOptions },
}

impl Transform {
    /// The new content for the old content `original`, or the error that
    /// the transform fails with.
    pub open spec fn produced(&self, original: Seq<u8>) -> std::result::Result<Seq<u8>, Error> {
        match self {
            Transform::InsertDeclaration { module, options } => match patch_of(
                module@,
                original,
                *options,
            ) {
                Some(text) => Ok(text),
                None => Err(Error::MalformedHeader),
            },
        }
    }

    /// Makes the new content from the old content `original`.
    pub fn produce(&self, original: &str) -> (r: Result<Vec<u8>>)
        ensures
            match self.produced(original.spec_bytes()) {
                Ok(text) => r matches Ok(bytes) && bytes@ == text,
                Err(e) => r == Err::<Vec<u8>, Error>(e),
            },
    {
        match self {
            Transform::InsertDeclaration { module, options } => {
                let mut bytes: Vec<u8> = Vec::new();
                match patch_file(module.as_str(), original, *options, &mut bytes) {
                    Ok(()) => Ok(bytes),
                    Err(e) => Err(e),
                }
            },
        }
    }
}

/// What becomes of the temporary file when a transaction fails after
/// having created it.
#[derive(Debug, Clone, Copy, PartialEq, Eq, Structural)]
pub enum OnFailure {
    /// The temporary file is left behind, for inspection.
    KeepTemporary,
    /// The temporary file is removed.
    RemoveTemporary,
}

/// The step of a transaction that is under way.
#[derive(Debug, Clone, Copy, PartialEq, Eq, Structural)]
pub enum Stage {
    /// The temporary file is being created.
    Creating,
    /// The new content is being written to the temporary file.
    Writing,
    /// The temporary file is being forced to stable storage.
    Syncing,
    /// The temporary file is being renamed over the original.
    Replacing,
    /// The transaction has failed and the temporary file is being removed.
    Removing,
}

/// What the caller is to do next.
#[derive(Debug)]
pub enum Step {
    /// Create the file at `path` for writing. It must not exist yet: a
    /// file that is already there is a failure.
    CreateNew { path: String },
    /// Write all of `bytes` to the file at `path`.
    Write { path: String, bytes: Vec<u8> },
    /// Force the content of the file at `path` to stable storage.
    Sync { path: String },
    /// Rename the file at `from` to `to`, replacing what is there.
    Rename { from: String, to: String },
    /// Remove the file at `path`.
    Remove { path: String },
}

impl Step {
    /// The path of the file that the step creates, changes or removes.
    pub open spec fn target(&self) -> Seq<char> {
        match self {
            Step::CreateNew { path } => path@,
            Step::Write { path, .. } => path@,
            Step::Sync { path } => path@,
            Step::Rename { to, .. } => to@,
            Step::Remove { path } => path@,
        }
    }
}

/// One copy-on-write patch of a file, once its content has been read.
#[derive(Debug)]
pub struct PatchTransaction {
    original: String,
    temporary: String,
    contents: String,
    transform: Transform,
    on_failure: OnFailure,
    stage: Stage,
    failure: Option<Error>,
}

/// Where a transaction stands after a step.
#[derive(Debug)]
pub enum Progress {
    /// The transaction goes on with this step.
    Next(PatchTransaction, Step),
    /// The transaction is over, with this result.
    Finished(Result<()>),
}

impl PatchTransaction {
    #[verifier::type_invariant]
    spec fn well_formed(&self) -> bool {
        &&& self.temporary@ == self.original@ + temp_marker()
        &&& self.stage == Stage::Removing <==> self.failure is Some
    }

    /// The path of the file under patch.
    pub closed spec fn original(&self) -> Seq<char> {
        self.original@
    }

    /// The path of the temporary file: that of the original and the
    /// marker.
    pub open spec fn temporary(&self) -> Seq<char> {
        self.original() + temp_marker()
    }

    /// The content that the file had when the transaction began.
    pub closed spec fn contents(&self) -> Seq<u8> {
        encode_utf8(self.contents@)
    }

    /// How the new content is made.
    pub closed spec fn transform(&self) -> Transform {
        self.transform
    }

    /// What becomes of the temporary file on failure.
    pub closed spec fn on_failure(&self) -> OnFailure {
        self.on_failure
    }

    /// The step that is under way.
    pub closed spec fn stage(&self) -> Stage {
        self.stage
    }

    /// The error that the transaction has failed with, while the temporary
    /// file is being removed.
    pub closed spec fn failure(&self) -> Option<Error> {
        self.failure
    }

    /// `self` is `before`, moved on to `stage`.
    pub open spec fn follows(&self, before: &PatchTransaction, stage: Stage) -> bool {
        &&& self.original() == before.original()
        &&& self.contents() == before.contents()
        &&& self.transform() == before.transform()
        &&& self.on_failure() == before.on_failure()
        &&& self.stage() == stage
        &&& stage != Stage::Removing ==> self.failure() is None
    }

    /// Begins the patch of the file at `original_path`, given what reading
    /// the whole of it came to. Where the read failed the transaction is
    /// over at once, with that error and with nothing touched. Else the
    /// first step is to create the temporary file.
    pub fn begin(
        original_path: &str,
        read: std::result::Result<String, std::io::Error>,
        transform: Transform,
        on_failure: OnFailure,
    ) -> (progress: Progress)
        ensures
            match read {
                Err(e) => progress == Progress::Finished(Err(Error::IoError(e))),
                Ok(contents) => progress matches Progress::Next(
                    transaction,
                    Step::CreateNew { path },
                ) && path@ == transaction.temporary() && transaction.original()
                    == original_path@ && transaction.contents() == encode_utf8(contents@)
                    && transaction.transform() == transform && transaction.on_failure()
                    == on_failure && transaction.stage() == Stage::Creating
                    && transaction.failure() is None,
            },
    {
        match read {
            Err(e) => Progress::Finished(Err(Error::IoError(e))),
            Ok(contents) => {
                let transaction = PatchTransaction {
                    original: String::from_str(original_path),
                    temporary: temp_path(original_path),
                    contents,
                    transform,
                    on_failure,
                    stage: Stage::Creating,
                    failure: None,
                };
                let path = transaction.temporary.clone();
                Progress::Next(transaction, Step::CreateNew { path })
            },
        }
    }

    /// `progress` is how the transaction ends on the error `e`. Where the
    /// temporary file was created and is to be removed, that comes first;
    /// else the transaction is over.
    pub open spec fn fails_with(&self, e: Error, created: bool, progress: Progress) -> bool {
        if created && self.on_failure() == OnFailure::RemoveTemporary {
            progress matches Progress::Next(next, Step::Remove { path }) && path@
                == self.temporary() && next.follows(self, Stage::Removing) && next.failure()
                == Some(e)
        } else {
            progress == Progress::Finished(Err(e))
        }
    }

    /// `progress` is where the transaction stands once the step under way
    /// has come to `outcome`. The steps follow each other: create, write,
    /// sync, rename. A step that fails ends the transaction with its
    /// error, and so does a transform that fails, once the temporary file
    /// is there. The removal of the temporary file, however it goes, is
    /// followed by the error that led to it.
    pub open spec fn advances_to(
        &self,
        outcome: std::result::Result<(), std::io::Error>,
        progress: Progress,
    ) -> bool {
        match (self.stage(), outcome) {
            (Stage::Removing, _) => self.failure() matches Some(e) && progress
                == Progress::Finished(Err(e)),
            (stage, Err(e)) => self.fails_with(
                Error::IoError(e),
                stage != Stage::Creating,
                progress,
            ),
            (Stage::Creating, Ok(())) => match self.transform().produced(self.contents()) {
                Ok(text) => progress matches Progress::Next(next, Step::Write { path, bytes })
                    && next.follows(self, Stage::Writing) && path@ == self.temporary() && bytes@
                    == text,
                Err(e) => self.fails_with(e, true, progress),
            },
            (Stage::Writing, Ok(())) => progress matches Progress::Next(next, Step::Sync { path })
                && next.follows(self, Stage::Syncing) && path@ == self.temporary(),
            (Stage::Syncing, Ok(())) => progress matches Progress::Next(
                next,
                Step::Rename { from, to },
            ) && next.follows(self, Stage::Replacing) && from@ == self.temporary() && to@
                == self.original(),
            (Stage::Replacing, Ok(())) => progress == Progress::Finished(Ok(())),
        }
    }

    /// Moves on to `stage`.
    fn moved_to(self, stage: Stage) -> (next: PatchTransaction)
        requires
            stage != Stage::Removing,
            self.stage() != Stage::Removing,
        ensures
            next.follows(&self, stage),
    {
        proof {
            use_type_invariant(&self);
        }
        PatchTransaction {
            original: self.original,
            temporary: self.temporary,
            contents: self.contents,
            transform: self.transform,
            on_failure: self.on_failure,
            stage,
            failure: None,
        }
    }

    /// Ends the transaction on the error `e`.
    fn fail(self, e: Error, created: bool) -> (progress: Progress)
        requires
            self.stage() != Stage::Removing,
        ensures
            self.fails_with(e, created, progress),
    {
        proof {
            use_type_invariant(&self);
        }
        match self.on_failure {
            OnFailure::RemoveTemporary if created => {
                let path = self.temporary.clone();
                let next = PatchTransaction {
                    original: self.original,
                    temporary: self.temporary,
                    contents: self.contents,
                    transform: self.transform,
                    on_failure: self.on_failure,
                    stage: Stage::Removing,
                    failure: Some(e),
                };
                Progress::Next(next, Step::Remove { path })
            },
            _ => Progress::Finished(Err(e)),
        }
    }

    /// Takes the outcome of the step under way and says what comes next.
    pub fn advance(self, outcome: std::result::Result<(), std::io::Error>) -> (progress: Progress)
        ensures
            self.advances_to(outcome, progress),
    {
        proof {
            use_type_invariant(&self);
        }
        match self.stage {
            Stage::Removing => Progress::Finished(Err(self.failure.unwrap())),
            Stage::Creating => match outcome {
                Err(e) => self.fail(Error::IoError(e), false),
                Ok(()) => match self.transform.produce(self.contents.as_str()) {
                    Ok(bytes) => {
                        let path = self.temporary.clone();
                        Progress::Next(self.moved_to(Stage::Writing), Step::Write { path, bytes })
                    },
                    Err(e) => self.fail(e, true),
                },
            },
            Stage::Writing => match outcome {
                Err(e) => self.fail(Error::IoError(e), true),
                Ok(()) => {
                    let path = self.temporary.clone();
                    Progress::Next(self.moved_to(Stage::Syncing), Step::Sync { path })
                },
            },
            Stage::Syncing => match outcome {
                Err(e) => self.fail(Error::IoError(e), true),
                Ok(()) => {
                    let from = self.temporary.clone();
                    let to = self.original.clone();
                    Progress::Next(self.moved_to(Stage::Replacing), Step::Rename { from, to })
                },
            },
            Stage::Replacing => match outcome {
                Err(e) => self.fail(Error::IoError(e), true),
                Ok(()) => Progress::Finished(Ok(())),
            },
        }
    }
}

/// The temporary file is never the original.
pub proof fn lemma_temporary_is_another_file(transaction: &PatchTransaction)
    ensures
        transaction.temporary() != transaction.original(),
{
    reveal_strlit("_");
}

/// The original is touched by one step only: the rename, which comes when
/// the sync has succeeded, and with it the create and the write before it.
pub proof fn lemma_original_touched_by_rename_only(
    transaction: &PatchTransaction,
    outcome: std::result::Result<(), std::io::Error>,
    progress: Progress,
)
    requires
        transaction.advances_to(outcome, progress),
        progress matches Progress::Next(_, step) && step.target() == transaction.original(),
    ensures
        outcome is Ok,
        transaction.stage() == Stage::Syncing,
        progress matches Progress::Next(_, step) && step is Rename,
{
    lemma_temporary_is_another_file(transaction);
}

/// Where a step fails, or the transform does, no step follows but the
/// removal of the temporary file, if that is asked for, and the transaction
/// ends with an error: the original stays as it was. A temporary file that
/// could not be created is never removed.
pub proof fn lemma_failure_ends_transaction(
    transaction: &PatchTransaction,
    outcome: std::result::Result<(), std::io::Error>,
    progress: Progress,
)
    requires
        transaction.advances_to(outcome, progress),
        outcome is Err || transaction.stage() == Stage::Removing || (transaction.stage()
            == Stage::Creating && transaction.transform().produced(transaction.contents())
            is Err),
    ensures
        match progress {
            Progress::Finished(result) => result is Err,
            Progress::Next(next, step) => next.stage() == Stage::Removing && next.failure()
                is Some && step is Remove && transaction.on_failure()
                == OnFailure::RemoveTemporary && !(transaction.stage() == Stage::Creating
                && outcome is Err),
        },
{
}

} // verus!
