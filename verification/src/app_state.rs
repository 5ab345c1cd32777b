//! What the application knows when it starts.

use vstd::prelude::*;

verus! {

/// A repository that workflows are listed from.
#[derive(Clone, Debug)]
pub struct Repo {
    pub index: u32,
    pub org: String,
    pub name: String,
}

#[derive(Clone, Debug)]
pub struct AppState {
    pub count: u32,
    pub repos: Vec<Repo>,
}

impl AppState {
    /// The state of a fresh application: a count of six and the two
    /// repositories that are always listed.
    pub fn new() -> (state: AppState)
        ensures
            state.count == 6,
            state.repos@.len() == 2,
            state.repos@[0].index == 0,
            state.repos@[0].org@ == "axgonz"@,
            state.repos@[0].name@ == "azure-nextflow"@,
            state.repos@[1].index == 1,
            state.repos@[1].org@ == "axgonz"@,
            state.repos@[1].name@ == "azure-nextflow-cipa"@,
    {
        let mut repos: Vec<Repo> = Vec::new();
        repos.push(
            Repo {
                index: 0,
                org: String::from_str("axgonz"),
                name: String::from_str("azure-nextflow"),
            },
        );
        repos.push(
            Repo {
                index: 1,
                org: String::from_str("axgonz"),
                name: String::from_str("azure-nextflow-cipa"),
            },
        );
        AppState { count: 6, repos }
    }
}

impl Default for AppState {
    /// A state that counts nothing and lists nothing.
    fn default() -> (state: AppState)
        ensures
            state.count == 0,
            state.repos@.len() == 0,
    {
        AppState { count: 0, repos: Vec::new() }
    }
}

} // verus!
