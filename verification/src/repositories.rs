//! The repositories that the user has configured, and the workflows found
//! in them.

use crate::ids::remove_by_id;
use crate::ids::without;
use crate::ids::Identified;
use vstd::prelude::*;

verus! {

/// A project: one directory of pipelines in a repository.
#[derive(Debug, Clone)]
pub struct NextflowProject {
    pub org: String,
    pub repo: String,
    pub name: String,
    pub url: String,
    pub html_url: String,
}

impl NextflowProject {
    /// A copy of the project.
    pub fn duplicate(&self) -> (copy: NextflowProject)
        ensures
            copy == *self,
    {
        NextflowProject {
            org: self.org.clone(),
            repo: self.repo.clone(),
            name: self.name.clone(),
            url: self.url.clone(),
            html_url: self.html_url.clone(),
        }
    }
}

/// A pipeline file or a parameters file of a project.
#[derive(Debug, Clone)]
pub struct NextflowFile {
    pub name: String,
    pub url: String,
}

impl NextflowFile {
    /// A copy of the file.
    pub fn duplicate(&self) -> (copy: NextflowFile)
        ensures
            copy == *self,
    {
        NextflowFile { name: self.name.clone(), url: self.url.clone() }
    }
}

/// A workflow: a pipeline of a project with one of its parameters files.
#[derive(Debug, Clone)]
pub struct NextflowWorkflow {
    pub project: NextflowProject,
    pub pipeline: NextflowFile,
    pub parameters: NextflowFile,
}

/// A repository on GitHub.
#[derive(Debug, Clone)]
pub struct NextflowRepo {
    pub id: u128,
    pub org: String,
    pub name: String,
}

impl NextflowRepo {
    pub fn new(id: u128, org: String, name: String) -> (repo: NextflowRepo)
        ensures
            repo == (NextflowRepo { id, org, name }),
    {
        NextflowRepo { id, org, name }
    }
}

impl Identified for NextflowRepo {
    open spec fn spec_id(&self) -> u128 {
        self.id
    }

    fn id(&self) -> (id: u128) {
        self.id
    }
}

/// The list of repositories, in the order in which they were added.
#[derive(Debug, Clone)]
pub struct NextflowRepos {
    pub items: Vec<NextflowRepo>,
}

impl NextflowRepos {
    /// The list that was stored, or an empty one where nothing readable was
    /// stored.
    pub fn load(stored: Option<Vec<NextflowRepo>>) -> (list: NextflowRepos)
        ensures
            list.items@ == (match stored {
                Some(items) => items@,
                None => Seq::empty(),
            }),
    {
        match stored {
            Some(items) => NextflowRepos { items },
            None => NextflowRepos { items: Vec::new() },
        }
    }

    pub fn is_empty(&self) -> (empty: bool)
        ensures
            empty == (self.items@.len() == 0),
    {
        self.items.len() == 0
    }

    /// Appends `item`.
    pub fn add(&mut self, item: NextflowRepo)
        ensures
            final(self).items@ == old(self).items@.push(item),
    {
        self.items.push(item)
    }

    /// Takes out every repository with identifier `id`.
    pub fn remove(&mut self, id: u128)
        ensures
            final(self).items@ == without(old(self).items@, id),
    {
        remove_by_id(&mut self.items, id)
    }
}

} // verus!
