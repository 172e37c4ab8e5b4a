//! Configured sources and the errors that abort a run.
use vstd::prelude::*;

verus! {

/// A remote repository and the name of its local working copy.
#[derive(Debug)]
pub struct SourceSpec {
    /// Local directory name, also the composer's identity for the source.
    pub name: String,
    /// Remote location the working copy is obtained from.
    pub url: String,
}

impl SourceSpec {
    pub fn new(name: String, url: String) -> (r: SourceSpec)
        ensures
            r.name == name,
            r.url == url,
    {
        SourceSpec { name, url }
    }

    /// An equal copy of this source.
    pub fn duplicate(&self) -> (r: SourceSpec)
        ensures
            r == *self,
    {
        SourceSpec { name: self.name.clone(), url: self.url.clone() }
    }
}

/// One base source and the overlays applied onto it, in order.
#[derive(Debug)]
pub struct Config {
    pub base: SourceSpec,
    pub overlay: Vec<SourceSpec>,
}

impl Config {
    /// Every source in synchronization order: the base, then each overlay.
    pub open spec fn sources(&self) -> Seq<SourceSpec> {
        seq![self.base].add(self.overlay@)
    }
}

/// What aborts a run.
#[derive(Debug)]
pub enum SyncError {
    /// Obtaining a fresh working copy failed.
    CloneFailed { source: SourceSpec, detail: String },
    /// Fast-forwarding an existing working copy failed.
    UpdateFailed { source: SourceSpec, detail: String },
    /// The configuration document is malformed or incomplete.
    ConfigError { detail: String },
    /// The composer could not produce the database.
    ComposerError { detail: String },
    /// A filesystem check failed.
    IOError { detail: String },
}

impl SyncError {
    /// An equal copy of this error.
    pub fn duplicate(&self) -> (r: SyncError)
        ensures
            r == *self,
    {
        match self {
            SyncError::CloneFailed { source, detail } => SyncError::CloneFailed {
                source: source.duplicate(),
                detail: detail.clone(),
            },
            SyncError::UpdateFailed { source, detail } => SyncError::UpdateFailed {
                source: source.duplicate(),
                detail: detail.clone(),
            },
            SyncError::ConfigError { detail } => SyncError::ConfigError { detail: detail.clone() },
            SyncError::ComposerError { detail } => SyncError::ComposerError {
                detail: detail.clone(),
            },
            SyncError::IOError { detail } => SyncError::IOError { detail: detail.clone() },
        }
    }
}

} // verus!
