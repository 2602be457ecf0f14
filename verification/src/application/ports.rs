//! What the services need from the outside world: a clock, git and an editor
//! launcher. Adapters implement these.
use vstd::prelude::*;

use crate::domain::shared::Timestamp;

verus! {

#[derive(Clone, Copy, Debug, PartialEq, Eq, Structural)]
pub enum CloneState {
    Missing,
    Ready,
    Dirty,
    Unknown,
}

#[derive(Clone, Debug, PartialEq, Eq)]
pub struct RepoStatus {
    pub branch: Option<String>,
    pub dirty: bool,
    pub ahead: usize,
    pub behind: usize,
    pub clone_state: CloneState,
}

pub trait EditorLauncher {
    fn open_dir(&self, path: &str, editor: &str) -> Result<(), EditorError>;
}

#[derive(Clone, Debug, PartialEq, Eq)]
pub struct GitError {
    pub detail: String,
}

impl GitError {
    /// The error's message, as `Display` writes it: its detail.
    pub fn to_string(&self) -> (r: String)
        ensures
            r@ == self.detail@,
    {
        self.detail.clone()
    }
}

#[derive(Clone, Debug, PartialEq, Eq)]
pub struct EditorError {
    pub detail: String,
}

impl EditorError {
    /// The error's message, as `Display` writes it: its detail.
    pub fn to_string(&self) -> (r: String)
        ensures
            r@ == self.detail@,
    {
        self.detail.clone()
    }
}

pub trait Clock {
    fn now(&self) -> Timestamp;
}

pub trait GitClient {
    fn clone_repo(&self, path: &str, url: &str) -> Result<(), GitError>;

    fn get_repo_status(&self, path: &str) -> Result<RepoStatus, GitError>;

    fn fetch_repo(&self, path: &str) -> Result<(), GitError>;

    fn pull_repo(&self, path: &str) -> Result<(), GitError>;
}

} // verus!
