//! The parameter overrides that the user adds to a dispatch.

use crate::ids::remove_by_id;
use crate::ids::without;
use crate::ids::Identified;
use crate::types::DispatchReqParam;
use vstd::prelude::*;

verus! {

/// One override, as the form holds it.
#[derive(Debug, Clone)]
pub struct DispatchParam {
    pub id: u128,
    pub name: String,
    pub value: String,
}

impl DispatchParam {
    pub fn new(id: u128, name: String, value: String) -> (param: DispatchParam)
        ensures
            param == (DispatchParam { id, name, value }),
    {
        DispatchParam { id, name, value }
    }

    /// The override as it goes into the request: its name and value.
    pub open spec fn spec_req_param(&self) -> DispatchReqParam {
        DispatchReqParam { name: self.name, value: self.value }
    }

    /// The override as it goes into the request.
    pub fn req_param(&self) -> (param: DispatchReqParam)
        ensures
            param == self.spec_req_param(),
    {
        DispatchReqParam { name: self.name.clone(), value: self.value.clone() }
    }
}

impl From<&DispatchParam> for DispatchReqParam {
    fn from(param: &DispatchParam) -> (req: DispatchReqParam) {
        param.req_param()
    }
}

impl vstd::std_specs::convert::FromSpecImpl<&DispatchParam> for DispatchReqParam {
    open spec fn obeys_from_spec() -> bool {
        true
    }

    open spec fn from_spec(param: &DispatchParam) -> DispatchReqParam {
        param.spec_req_param()
    }
}

impl Identified for DispatchParam {
    open spec fn spec_id(&self) -> u128 {
        self.id
    }

    fn id(&self) -> (id: u128) {
        self.id
    }
}

/// The overrides of one dispatch, in the order in which they were added.
#[derive(Debug, Clone)]
pub struct DispatchParams {
    pub items: Vec<DispatchParam>,
}

impl DispatchParams {
    pub fn new() -> (list: DispatchParams)
        ensures
            list.items@.len() == 0,
    {
        DispatchParams { items: Vec::new() }
    }

    pub fn is_empty(&self) -> (empty: bool)
        ensures
            empty == (self.items@.len() == 0),
    {
        self.items.len() == 0
    }

    /// Appends `item`.
    pub fn add(&mut self, item: DispatchParam)
        ensures
            final(self).items@ == old(self).items@.push(item),
    {
        self.items.push(item)
    }

    /// Takes out every override with identifier `id`.
    pub fn remove(&mut self, id: u128)
        ensures
            final(self).items@ == without(old(self).items@, id),
    {
        remove_by_id(&mut self.items, id)
    }

    /// The overrides as they go into the request, in their order.
    pub fn req_params(&self) -> (params: Vec<DispatchReqParam>)
        ensures
            params@ == Seq::new(self.items@.len(), |i: int| self.items@[i].spec_req_param()),
    {
        let mut params: Vec<DispatchReqParam> = Vec::new();
        let mut i: usize = 0;
        while i < self.items.len()
            invariant
                i <= self.items@.len(),
                params@ == Seq::new(i as nat, |k: int| self.items@[k].spec_req_param()),
            decreases self.items@.len() - i,
        {
            params.push(self.items[i].req_param());
            i += 1;
            assert(params@ =~= Seq::new(i as nat, |k: int| self.items@[k].spec_req_param()));
        }
        assert(params@ =~= Seq::new(self.items@.len(), |i: int| self.items@[i].spec_req_param()));
        params
    }
}

} // verus!
