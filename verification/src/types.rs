//! The values exchanged with the dispatcher's API and with GitHub's
//! contents API.

use crate::text::decimal;
use crate::text::decimal_text;
use crate::text::truth;
use crate::text::truth_text;
use vstd::prelude::*;

verus! {

/// The question put to the dispatcher's status API.
#[derive(Debug, Clone, Copy, PartialEq, Eq)]
pub struct StatusReq {
    pub summary: bool,
    pub message_count: u8,
    pub dequeue: bool,
}

impl StatusReq {
    /// The request as a JSON object, fields in the order of declaration.
    pub open spec fn spec_json(self) -> Seq<char> {
        "{\"summary\":"@ + truth(self.summary) + ",\"message_count\":"@ + decimal(
            self.message_count as nat,
        ) + ",\"dequeue\":"@ + truth(self.dequeue) + "}"@
    }

    /// The request as JSON text.
    pub fn to_json(&self) -> (json: String)
        ensures
            json@ == self.spec_json(),
    {
        let mut json = String::from_str("{\"summary\":");
        json.append(truth_text(self.summary));
        json.append(",\"message_count\":");
        let count: u16 = self.message_count as u16;
        json.append(decimal_text(count).as_str());
        json.append(",\"dequeue\":");
        json.append(truth_text(self.dequeue));
        json.append("}");
        json
    }
}

/// The workflow part of a message's metadata.
#[allow(non_snake_case)]
#[derive(Debug, Clone)]
pub struct Workflow {
    pub errorMessage: Option<String>,
}

/// The metadata of a message.
#[derive(Debug, Clone)]
pub struct Metadata {
    /// The parameters of the run, as JSON text.
    pub parameters: String,
    pub workflow: Workflow,
}

/// A message that the status API hands out.
#[allow(non_snake_case)]
#[derive(Debug, Clone)]
pub struct Message {
    pub event: String,
    pub runId: String,
    pub runName: String,
    pub utcTime: String,
    pub metadata: Metadata,
}

/// One parameter override of a dispatch.
#[derive(Debug, Clone, PartialEq)]
pub struct DispatchReqParam {
    pub name: String,
    pub value: String,
}

/// The request to dispatch a workflow.
#[derive(Debug, Clone, PartialEq)]
pub struct DispatchReq {
    pub config_uri: String,
    pub pipeline_uri: String,
    pub parameters_uri: String,
    pub parameters_json: Vec<DispatchReqParam>,
    pub auto_delete: bool,
}

/// The dispatcher's answer to a dispatch.
#[derive(Debug, Clone, PartialEq)]
pub struct DispatchRes {
    pub sub_id: String,
    pub rg_name: String,
    pub ci_name: String,
    pub ci_cmd: String,
    pub provisioning_state: String,
}

/// What an entry of GitHub's contents API is.
#[derive(Debug, Clone, Copy)]
pub enum GitHubFsType {
    Dir,
    File,
}

impl GitHubFsType {
    pub open spec fn spec_name(self) -> Seq<char> {
        match self {
            GitHubFsType::Dir => "dir"@,
            GitHubFsType::File => "file"@,
        }
    }

    /// The word by which the contents API names the type.
    pub fn name(&self) -> (name: &'static str)
        ensures
            name@ == self.spec_name(),
    {
        match self {
            GitHubFsType::Dir => "dir",
            GitHubFsType::File => "file",
        }
    }
}

/// A directory, as the contents API lists it.
#[derive(Debug, Clone)]
pub struct GitHubDir {
    /// The entry's `type`.
    pub kind: String,
    pub name: String,
    pub path: String,
    pub sha: String,
    pub size: i32,
    pub url: String,
    pub html_url: String,
    pub git_url: String,
    pub download_url: Option<String>,
}

/// A file, as the contents API lists it.
#[derive(Debug, Clone)]
pub struct GitHubFile {
    /// The entry's `type`.
    pub kind: String,
    pub name: String,
    pub path: String,
    pub sha: String,
    pub size: i32,
    pub url: String,
    pub html_url: String,
    pub git_url: String,
    pub download_url: String,
}

/// How a request that expects a JSON body of type `T` ended.
#[derive(Debug)]
pub enum Reply<T> {
    /// No response arrived.
    TransportError,
    /// A response with a status other than 200 arrived.
    Rejected(u16),
    /// A response with status 200 arrived, but its body was not the JSON
    /// expected.
    Unreadable,
    /// A response with status 200 and this body arrived.
    Body(T),
}

} // verus!
