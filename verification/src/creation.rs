//! Carrying out a plan, as a sequence of steps: the entries of the module
//! are created one after the other, and only when all of them are there is
//! the root file to be patched. The library decides the steps; the caller
//! performs them and reports how each one went.

use crate::errors::Error;
use crate::module::ModulePlan;
use crate::transaction::Transform;
use vstd::prelude::*;

verus! {

/// The entry that the caller is to create next.
#[derive(Debug)]
pub enum EntryStep {
    /// Create the directory at `path`. One that is already there is a
    /// failure.
    CreateDir { path: String },
    /// Create the file at `path`, empty.
    CreateFile { path: String },
}

/// The entry that is being created.
#[derive(Debug, Clone, Copy, PartialEq, Eq, Structural)]
pub enum CreationStage {
    /// The directory of the module.
    Directory,
    /// The file of the module.
    File,
}

/// The creation of the entries of one module.
#[derive(Debug)]
pub struct ModuleCreation {
    plan: ModulePlan,
    stage: CreationStage,
}

/// Where the creation stands after a step.
#[derive(Debug)]
pub enum CreationProgress {
    /// The creation goes on with this step.
    Next(ModuleCreation, EntryStep),
    /// Every entry is there: the file at `root_file` is to be patched by
    /// `transform`.
    Patch { root_file: String, transform: Transform },
    /// The creation is over, with this error. What was created stays.
    Failed(Error),
}

impl ModuleCreation {
    /// The plan that is carried out.
    pub closed spec fn plan(&self) -> ModulePlan {
        self.plan
    }

    /// The entry that is being created.
    pub closed spec fn stage(&self) -> CreationStage {
        self.stage
    }

    /// Begins to carry out `plan`. The first step is the directory of the
    /// module, where it gets one, else its file.
    pub fn begin(plan: ModulePlan) -> (r: (ModuleCreation, EntryStep))
        ensures
            r.0.plan() == plan,
            match plan.directory {
                Some(directory) => r.0.stage() == CreationStage::Directory && (
                r.1 matches EntryStep::CreateDir { path } && path@ == directory@),
                None => r.0.stage() == CreationStage::File && (
                r.1 matches EntryStep::CreateFile { path } && path@ == plan.file@),
            },
    {
        match &plan.directory {
            Some(directory) => {
                let path = directory.clone();
                (
                    ModuleCreation { plan, stage: CreationStage::Directory },
                    EntryStep::CreateDir { path },
                )
            },
            None => {
                let path = plan.file.clone();
                (ModuleCreation { plan, stage: CreationStage::File }, EntryStep::CreateFile { path })
            },
        }
    }

    /// `progress` is where the creation stands once the step under way has
    /// come to `outcome`. A step that fails ends the creation with its
    /// error: no entry is created after it and the root file is not
    /// patched. The file follows the directory, and the patch of the root
    /// file, by the declaration of the module, follows the file.
    pub open spec fn advances_to(
        &self,
        outcome: std::result::Result<(), std::io::Error>,
        progress: CreationProgress,
    ) -> bool {
        match (outcome, self.stage()) {
            (Err(e), _) => progress == CreationProgress::Failed(Error::IoError(e)),
            (Ok(()), CreationStage::Directory) => progress matches CreationProgress::Next(
                next,
                EntryStep::CreateFile { path },
            ) && next.plan() == self.plan() && next.stage() == CreationStage::File && path@
                == self.plan().file@,
            (Ok(()), CreationStage::File) => progress matches CreationProgress::Patch {
                root_file,
                transform: Transform::InsertDeclaration { module, options },
            } && root_file@ == self.plan().root_file@ && module@ == self.plan().module@
                && options == self.plan().options,
        }
    }

    /// Takes the outcome of the step under way and says what comes next.
    pub fn advance(self, outcome: std::result::Result<(), std::io::Error>) -> (progress:
        CreationProgress)
        ensures
            self.advances_to(outcome, progress),
    {
        match outcome {
            Err(e) => CreationProgress::Failed(Error::IoError(e)),
            Ok(()) => match self.stage {
                CreationStage::Directory => {
                    let path = self.plan.file.clone();
                    CreationProgress::Next(
                        ModuleCreation { plan: self.plan, stage: CreationStage::File },
                        EntryStep::CreateFile { path },
                    )
                },
                CreationStage::File => CreationProgress::Patch {
                    root_file: self.plan.root_file,
                    transform: Transform::InsertDeclaration {
                        module: self.plan.module,
                        options: self.plan.options,
                    },
                },
            },
        }
    }
}

/// The root file is patched only when every entry of the module has been
/// created: after the file, which follows the directory where there is one.
pub proof fn lemma_patch_follows_entries(
    creation: &ModuleCreation,
    outcome: std::result::Result<(), std::io::Error>,
    progress: CreationProgress,
)
    requires
        creation.advances_to(outcome, progress),
        progress is Patch,
    ensures
        outcome is Ok,
        creation.stage() == CreationStage::File,
{
}

/// Where an entry cannot be created, nothing follows: no further entry,
/// and no patch of the root file.
pub proof fn lemma_failed_entry_ends_creation(
    creation: &ModuleCreation,
    outcome: std::result::Result<(), std::io::Error>,
    progress: CreationProgress,
)
    requires
        creation.advances_to(outcome, progress),
        outcome is Err,
    ensures
        progress is Failed,
{
}

} // verus!
