//! Options for pulling a template or preset from a remote repository.
//!
//! Remote fetching is an external collaborator's concern; these options
//! carry what a pull run was asked to do.

use vstd::prelude::*;
use vstd::string::*;

verus! {

/// Options of a pull run.
#[derive(Debug, Clone)]
pub struct PullOptions {
    /// Name of the template or preset to pull.
    pub name: String,
    /// Repository URL; the main repository when absent.
    pub repo: Option<String>,
    /// Branch, tag or commit to pull.
    pub reference: Option<String>,
    /// Run a synchronization after pulling.
    pub sync: bool,
    /// Directory the run works against.
    pub cwd: String,
}

impl PullOptions {
    /// Options naming only the template, everything else at its default.
    pub fn new(name: String) -> (r: PullOptions)
        ensures
            r.name == name,
            r.repo is None,
            r.reference is None,
            r.sync == false,
            r.cwd@ == "."@,
    {
        PullOptions { name, repo: None, reference: None, sync: false, cwd: ".".to_owned() }
    }

    /// Set the repository URL.
    pub fn repo(self, repo: String) -> (r: PullOptions)
        ensures
            r == (PullOptions { repo: Some(repo), ..self }),
    {
        PullOptions { repo: Some(repo), ..self }
    }

    /// Set the reference to pull.
    pub fn reference(self, reference: String) -> (r: PullOptions)
        ensures
            r == (PullOptions { reference: Some(reference), ..self }),
    {
        PullOptions { reference: Some(reference), ..self }
    }

    /// Set whether to synchronize after pulling.
    pub fn sync(self, sync: bool) -> (r: PullOptions)
        ensures
            r == (PullOptions { sync, ..self }),
    {
        PullOptions { sync, ..self }
    }

    /// Set the working directory.
    pub fn cwd(self, cwd: String) -> (r: PullOptions)
        ensures
            r == (PullOptions { cwd, ..self }),
    {
        PullOptions { cwd, ..self }
    }
}

} // verus!
