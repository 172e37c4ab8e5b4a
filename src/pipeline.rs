//! One run as a state machine: every source is synchronized in order, the
//! freshness is folded as each one finishes, and the outputs are checked
//! before the composer is asked to rebuild.
//!
//! The caller performs each `Action` and reports what happened as an `Event`.
use vstd::prelude::*;
use crate::freshness::{rebuild_needed, should_rebuild};
use crate::source::{Config, SourceSpec, SyncError};
use crate::sync::{clone_outcome, clone_result, plan_sync, pull_outcome, pull_result, SyncOp};

verus! {

/// Where a run stands.
#[derive(Debug)]
pub enum Stage {
    /// Waiting to learn whether the current source has a working copy.
    Probing,
    /// Waiting for the clone of the current source.
    Cloning,
    /// Waiting for the fast-forward of the current source.
    Pulling,
    /// Every source is synchronized; waiting to learn which outputs exist.
    CheckingOutputs,
    /// Waiting for the composer.
    Composing,
    /// The run succeeded, with or without a rebuild.
    Done { rebuilt: bool },
    /// The run was aborted.
    Failed { error: SyncError },
}

/// What happened after an action was performed.
#[derive(Debug)]
pub enum Event {
    /// Whether a working copy exists at the probed path.
    Presence { exists: bool },
    /// A clone ended; `stderr` is its diagnostic output.
    CloneFinished { success: bool, stderr: String },
    /// A fast-forward update ended, with its captured output.
    PullFinished { success: bool, stdout: Vec<u8>, stderr: String },
    /// Which of the database and metadata files are present.
    Outputs { database: bool, metadata: bool },
    /// The composer ended.
    Composed { success: bool, detail: String },
    /// A filesystem check could not be made.
    IoFailed { detail: String },
}

/// What the caller must do next.
#[derive(Debug)]
pub enum Action {
    /// Report whether a working copy exists at `path`.
    Probe { path: String },
    /// Obtain a full copy of `url` into `path`.
    Clone { url: String, path: String },
    /// Fast-forward the working copy at `path`.
    Pull { path: String },
    /// Report which output files exist.
    CheckOutputs,
    /// Compose the working copies (see `Pipeline::composer_roots`).
    Compose,
    /// Nothing is left to do.
    Finished { rebuilt: bool },
    /// The run failed with `error`.
    Abort { error: SyncError },
}

/// The state of one run over a fixed list of sources.
#[derive(Debug)]
pub struct Pipeline {
    /// The base first, then each overlay in configured order.
    pub sources: Vec<SourceSpec>,
    /// The source being synchronized; the count of sources once all are done.
    pub index: usize,
    /// Some source synchronized so far changed.
    pub fresh: bool,
    pub stage: Stage,
}

impl Pipeline {
    pub open spec fn wf(&self) -> bool {
        &&& 1 <= self.sources@.len() <= usize::MAX
        &&& self.index <= self.sources@.len()
        &&& (self.stage is Probing || self.stage is Cloning || self.stage is Pulling) ==> self.index
            < self.sources@.len()
        &&& (self.stage is CheckingOutputs || self.stage is Composing || self.stage is Done)
            ==> self.index == self.sources@.len()
    }

    /// The state in which a run over `self.sources` begins.
    pub open spec fn is_start(&self) -> bool {
        &&& self.sources@.len() >= 1
        &&& self.index == 0
        &&& !self.fresh
        &&& self.stage is Probing
    }

    pub open spec fn is_finished_spec(&self) -> bool {
        self.stage is Done || self.stage is Failed
    }

    /// The source being synchronized.
    pub open spec fn current(&self) -> SourceSpec {
        self.sources@[self.index as int]
    }

    /// The current source is done and changed the freshness by `changed`.
    pub open spec fn advanced(&self, changed: bool) -> Pipeline {
        Pipeline {
            sources: self.sources,
            index: (self.index + 1) as usize,
            fresh: self.fresh || changed,
            stage: if self.index + 1 < self.sources@.len() {
                Stage::Probing
            } else {
                Stage::CheckingOutputs
            },
        }
    }

    /// The same state with another stage.
    pub open spec fn staged(&self, stage: Stage) -> Pipeline {
        Pipeline { sources: self.sources, index: self.index, fresh: self.fresh, stage }
    }

    /// The state that follows `e`; an event the stage does not wait for
    /// leaves the state as it is.
    pub open spec fn after(&self, e: Event) -> Pipeline {
        if self.is_finished_spec() {
            *self
        } else {
            match e {
                Event::IoFailed { detail } => self.staged(
                    Stage::Failed { error: SyncError::IOError { detail } },
                ),
                Event::Presence { exists } => if self.stage is Probing {
                    self.staged(if exists { Stage::Pulling } else { Stage::Cloning })
                } else {
                    *self
                },
                Event::CloneFinished { success, stderr } => if self.stage is Cloning {
                    match clone_result(self.current(), success, stderr) {
                        Ok(changed) => self.advanced(changed),
                        Err(error) => self.staged(Stage::Failed { error }),
                    }
                } else {
                    *self
                },
                Event::PullFinished { success, stdout, stderr } => if self.stage is Pulling {
                    match pull_result(self.current(), success, stdout@, stderr) {
                        Ok(changed) => self.advanced(changed),
                        Err(error) => self.staged(Stage::Failed { error }),
                    }
                } else {
                    *self
                },
                Event::Outputs { database, metadata } => if self.stage is CheckingOutputs {
                    if rebuild_needed(self.fresh, database, metadata) {
                        self.staged(Stage::Composing)
                    } else {
                        self.staged(Stage::Done { rebuilt: false })
                    }
                } else {
                    *self
                },
                Event::Composed { success, detail } => if self.stage is Composing {
                    if success {
                        self.staged(Stage::Done { rebuilt: true })
                    } else {
                        self.staged(Stage::Failed { error: SyncError::ComposerError { detail } })
                    }
                } else {
                    *self
                },
            }
        }
    }

    /// The action the current stage asks for.
    pub open spec fn action(&self) -> Action {
        match self.stage {
            Stage::Probing => Action::Probe { path: self.current().name },
            Stage::Cloning => Action::Clone { url: self.current().url, path: self.current().name },
            Stage::Pulling => Action::Pull { path: self.current().name },
            Stage::CheckingOutputs => Action::CheckOutputs,
            Stage::Composing => Action::Compose,
            Stage::Done { rebuilt } => Action::Finished { rebuilt },
            Stage::Failed { error } => Action::Abort { error },
        }
    }

    /// A run over the configured sources, base first, then each overlay.
    pub fn new(config: Config) -> (r: Pipeline)
        requires
            config.overlay@.len() < usize::MAX,
        ensures
            r.sources@ == config.sources(),
            r.is_start(),
            r.wf(),
    {
        let Config { base, overlay } = config;
        let mut overlay = overlay;
        let mut sources: Vec<SourceSpec> = Vec::new();
        sources.push(base);
        sources.append(&mut overlay);
        let _n: usize = sources.len();
        Pipeline { sources, index: 0, fresh: false, stage: Stage::Probing }
    }

    /// Whether the run has ended, successfully or not.
    pub fn is_finished(&self) -> (r: bool)
        ensures
            r == self.is_finished_spec(),
    {
        match self.stage {
            Stage::Done { .. } | Stage::Failed { .. } => true,
            _ => false,
        }
    }

    /// What the caller must do next.
    pub fn next_action(&self) -> (r: Action)
        requires
            self.wf(),
        ensures
            r == self.action(),
    {
        match &self.stage {
            Stage::Probing => Action::Probe { path: self.sources[self.index].name.clone() },
            Stage::Cloning => Action::Clone {
                url: self.sources[self.index].url.clone(),
                path: self.sources[self.index].name.clone(),
            },
            Stage::Pulling => Action::Pull { path: self.sources[self.index].name.clone() },
            Stage::CheckingOutputs => Action::CheckOutputs,
            Stage::Composing => Action::Compose,
            Stage::Done { rebuilt } => Action::Finished { rebuilt: *rebuilt },
            Stage::Failed { error } => Action::Abort { error: error.duplicate() },
        }
    }

    fn advance(&mut self, changed: bool)
        requires
            old(self).wf(),
            old(self).stage is Cloning || old(self).stage is Pulling,
        ensures
            *final(self) == old(self).advanced(changed),
    {
        let n: usize = self.sources.len();
        self.index = self.index + 1;
        self.fresh = self.fresh || changed;
        self.stage = if self.index < n {
            Stage::Probing
        } else {
            Stage::CheckingOutputs
        };
    }

    /// Takes in what happened after the last action.
    pub fn handle(&mut self, e: Event)
        requires
            old(self).wf(),
        ensures
            *final(self) == old(self).after(e),
            final(self).wf(),
    {
        if self.is_finished() {
            return;
        }
        match e {
            Event::IoFailed { detail } => {
                self.stage = Stage::Failed { error: SyncError::IOError { detail } };
            },
            Event::Presence { exists } => {
                if let Stage::Probing = self.stage {
                    self.stage = match plan_sync(exists) {
                        SyncOp::Pull => Stage::Pulling,
                        SyncOp::Clone => Stage::Cloning,
                    };
                }
            },
            Event::CloneFinished { success, stderr } => {
                if let Stage::Cloning = self.stage {
                    match clone_outcome(&self.sources[self.index], success, stderr) {
                        Ok(changed) => self.advance(changed),
                        Err(error) => {
                            self.stage = Stage::Failed { error };
                        },
                    }
                }
            },
            Event::PullFinished { success, stdout, stderr } => {
                if let Stage::Pulling = self.stage {
                    match pull_outcome(&self.sources[self.index], success, &stdout, stderr) {
                        Ok(changed) => self.advance(changed),
                        Err(error) => {
                            self.stage = Stage::Failed { error };
                        },
                    }
                }
            },
            Event::Outputs { database, metadata } => {
                if let Stage::CheckingOutputs = self.stage {
                    self.stage = if should_rebuild(self.fresh, database, metadata) {
                        Stage::Composing
                    } else {
                        Stage::Done { rebuilt: false }
                    };
                }
            },
            Event::Composed { success, detail } => {
                if let Stage::Composing = self.stage {
                    self.stage = if success {
                        Stage::Done { rebuilt: true }
                    } else {
                        Stage::Failed { error: SyncError::ComposerError { detail } }
                    };
                }
            },
        }
    }

    /// The local working copies handed to the composer: the base first, then
    /// each overlay in configured order.
    pub fn composer_roots(&self) -> (r: Vec<String>)
        ensures
            r@.len() == self.sources@.len(),
            forall|i: int| 0 <= i < r@.len() ==> r@[i] == self.sources@[i].name,
    {
        let mut r: Vec<String> = Vec::new();
        let mut i: usize = 0;
        while i < self.sources.len()
            invariant
                i <= self.sources@.len(),
                r@.len() == i,
                forall|j: int| 0 <= j < i ==> r@[j] == self.sources@[j].name,
            decreases self.sources@.len() - i,
        {
            r.push(self.sources[i].name.clone());
            i = i + 1;
        }
        r
    }
}

} // verus!
