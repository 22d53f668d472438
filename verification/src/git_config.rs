//! Where the remote repository is and where its local mirror lives.

use vstd::prelude::*;

verus! {

/// The connection parameters of one mirror. They are taken as given.
#[derive(Clone, Debug, PartialEq, Eq)]
pub struct GitConfig {
    /// The location of the remote repository.
    pub repository_url: String,
    /// The directory that holds the local mirror.
    pub repository_local_dir: String,
    /// The name under which the local mirror knows the remote.
    pub remote_name: String,
    /// The branch that is cloned and kept up to date.
    pub remote_branch: String,
}

/// The mathematical value of a configuration.
pub struct ConfigView {
    pub repository_url: Seq<char>,
    pub repository_local_dir: Seq<char>,
    pub remote_name: Seq<char>,
    pub remote_branch: Seq<char>,
}

impl View for GitConfig {
    type V = ConfigView;

    open spec fn view(&self) -> ConfigView {
        ConfigView {
            repository_url: self.repository_url@,
            repository_local_dir: self.repository_local_dir@,
            remote_name: self.remote_name@,
            remote_branch: self.remote_branch@,
        }
    }
}

} // verus!
