//! The dispatchers that the user has configured.

use crate::ids::is_random_uuid;
use crate::ids::new_id;
use crate::ids::remove_by_id;
use crate::ids::without;
use crate::ids::Identified;
use vstd::prelude::*;

verus! {

/// The address of the dispatcher that runs on the developer's machine.
pub const LOCAL_API_URL: &'static str = "http://localhost:7071";

/// The Nextflow configuration that a local dispatcher starts from.
pub const LOCAL_CONFIG_URL: &'static str =
    "https://raw.githubusercontent.com/axgonz/azure-nextflow/main/nextflow/pipelines/nextflow.config";

/// A dispatcher: where its API is and which configuration it runs with.
#[derive(Debug, Clone)]
pub struct NextflowDispatcher {
    pub id: u128,
    pub api_url: String,
    pub config_url: String,
}

impl NextflowDispatcher {
    pub fn new(id: u128, api_url: String, config_url: String) -> (dispatcher: NextflowDispatcher)
        ensures
            dispatcher == (NextflowDispatcher { id, api_url, config_url }),
    {
        NextflowDispatcher { id, api_url, config_url }
    }
}

impl Identified for NextflowDispatcher {
    open spec fn spec_id(&self) -> u128 {
        self.id
    }

    fn id(&self) -> (id: u128) {
        self.id
    }
}

/// The list of dispatchers, in the order in which they were added.
#[derive(Debug, Clone)]
pub struct NextflowDispatchers {
    pub items: Vec<NextflowDispatcher>,
}

impl NextflowDispatchers {
    /// The list that a fresh application starts with: the local dispatcher.
    pub fn new() -> (list: NextflowDispatchers)
        ensures
            list.is_local_only(),
    {
        NextflowDispatchers::mock_load()
    }

    /// The list that was stored, or an empty one where nothing readable was
    /// stored.
    pub fn load(stored: Option<Vec<NextflowDispatcher>>) -> (list: NextflowDispatchers)
        ensures
            list.items@ == (match stored {
                Some(items) => items@,
                None => Seq::empty(),
            }),
    {
        match stored {
            Some(items) => NextflowDispatchers { items },
            None => NextflowDispatchers { items: Vec::new() },
        }
    }

    /// Just the local dispatcher, under a random UUID as its identifier.
    pub open spec fn is_local_only(&self) -> bool {
        &&& self.items@.len() == 1
        &&& is_random_uuid(self.items@[0].id)
        &&& self.items@[0].api_url@ == LOCAL_API_URL@
        &&& self.items@[0].config_url@ == LOCAL_CONFIG_URL@
    }

    /// A list of just the local dispatcher.
    pub fn mock_load() -> (list: NextflowDispatchers)
        ensures
            list.is_local_only(),
    {
        let mut items: Vec<NextflowDispatcher> = Vec::new();
        items.push(
            NextflowDispatcher::new(
                new_id(),
                String::from_str(LOCAL_API_URL),
                String::from_str(LOCAL_CONFIG_URL),
            ),
        );
        NextflowDispatchers { items }
    }

    pub fn is_empty(&self) -> (empty: bool)
        ensures
            empty == (self.items@.len() == 0),
    {
        self.items.len() == 0
    }

    /// The API address of the first dispatcher; empty if there is none.
    pub fn api_url(&mut self) -> (url: String)
        ensures
            *final(self) == *old(self),
            old(self).items@.len() > 0 ==> url == old(self).items@[0].api_url,
            old(self).items@.len() == 0 ==> url@ == Seq::<char>::empty(),
    {
        if self.items.len() > 0 {
            self.items[0].api_url.clone()
        } else {
            String::new()
        }
    }

    /// The configuration address of the first dispatcher; empty if there is
    /// none.
    pub fn config_url(&mut self) -> (url: String)
        ensures
            *final(self) == *old(self),
            old(self).items@.len() > 0 ==> url == old(self).items@[0].config_url,
            old(self).items@.len() == 0 ==> url@ == Seq::<char>::empty(),
    {
        if self.items.len() > 0 {
            self.items[0].config_url.clone()
        } else {
            String::new()
        }
    }

    /// Appends `item`.
    pub fn add(&mut self, item: NextflowDispatcher)
        ensures
            final(self).items@ == old(self).items@.push(item),
    {
        self.items.push(item)
    }

    /// Takes out every dispatcher with identifier `id`.
    pub fn remove(&mut self, id: u128)
        ensures
            final(self).items@ == without(old(self).items@, id),
    {
        remove_by_id(&mut self.items, id)
    }
}

} // verus!
