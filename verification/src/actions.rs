//! What the user sets off at a dispatcher: the dispatch of a workflow and
//! the taking of messages off its queue.

use crate::loaders::error_status_of;
use crate::loaders::Loaders;
use crate::loaders::BAD_JSON;
use crate::loaders::ERROR;
use crate::loaders::FAILED_MESSAGE;
use crate::loaders::STATUS_PATH;
use crate::loaders::UNAUTHORIZED_MESSAGE;
use crate::loaders::UNREADABLE_MESSAGE;
use crate::text::decimal_text;
use crate::text::text;
use crate::text::truth;
use crate::text::truth_text;
use crate::types::DispatchRes;
use crate::types::Reply;
use crate::types::StatusReq;
use crate::web::header_texts;
use crate::web::request_headers;
use crate::web::HttpRequest;
use crate::web::Method;
use crate::web::WebHelpers;
use vstd::prelude::*;

verus! {

/// The path of the dispatch API below a dispatcher's address, up to the
/// value of its one parameter.
pub const DISPATCH_PATH: &'static str = "/api/nxfutil/dispatch?whatif=";

/// The outcome of a dispatch: the dispatcher's answer, or none with the key
/// and the explanation of the failure.
#[derive(Debug, Clone)]
pub struct DispatchWorkflowRes {
    pub result: Vec<DispatchRes>,
    pub error_status: Option<String>,
    pub error_message: Option<String>,
}

/// What the user is told when a dispatch fails: with status 401 to log in
/// again, otherwise to retry.
pub open spec fn dispatch_error_message<T>(reply: Reply<T>) -> Option<Seq<char>> {
    match reply {
        Reply::TransportError => Some(FAILED_MESSAGE@),
        Reply::Rejected(status) => Some(
            if status == 401 {
                UNAUTHORIZED_MESSAGE@
            } else {
                FAILED_MESSAGE@
            },
        ),
        Reply::Unreadable => Some(UNREADABLE_MESSAGE@),
        Reply::Body(_) => None,
    }
}

pub struct Actions {}

impl Actions {
    /// The request that dispatches a workflow at the dispatcher at
    /// `api_url`, or only asks what a dispatch would do if `what_if` says
    /// so. `json` is the dispatch request as JSON text.
    pub fn web_action_dispatch_workflow(
        api_url: String,
        what_if: bool,
        json: &String,
        access_token: Option<String>,
    ) -> (request: HttpRequest)
        ensures
            request.method == Method::Post,
            request.uri@ == api_url@ + DISPATCH_PATH@ + truth(what_if),
            request.body == Some(*json),
            header_texts(request.headers@) == request_headers(text(access_token), true),
    {
        let uri = api_url.concat(DISPATCH_PATH).concat(truth_text(what_if));
        WebHelpers::web_post(&uri, json, access_token)
    }

    /// What the answer to a dispatch amounts to.
    pub fn dispatch_result(reply: Reply<DispatchRes>) -> (res: DispatchWorkflowRes)
        ensures
            res.result@ == (match reply {
                Reply::Body(answer) => seq![answer],
                _ => Seq::empty(),
            }),
            text(res.error_status) == error_status_of(reply),
            text(res.error_message) == dispatch_error_message(reply),
    {
        match reply {
            Reply::Body(answer) => {
                let mut result: Vec<DispatchRes> = Vec::new();
                result.push(answer);
                DispatchWorkflowRes { result, error_status: None, error_message: None }
            },
            Reply::Unreadable => DispatchWorkflowRes {
                result: Vec::new(),
                error_status: Some(String::from_str(BAD_JSON)),
                error_message: Some(String::from_str(UNREADABLE_MESSAGE)),
            },
            Reply::Rejected(status) => {
                let message = if status == 401 {
                    UNAUTHORIZED_MESSAGE
                } else {
                    FAILED_MESSAGE
                };
                DispatchWorkflowRes {
                    result: Vec::new(),
                    error_status: Some(decimal_text(status)),
                    error_message: Some(String::from_str(message)),
                }
            },
            Reply::TransportError => DispatchWorkflowRes {
                result: Vec::new(),
                error_status: Some(String::from_str(ERROR)),
                error_message: Some(String::from_str(FAILED_MESSAGE)),
            },
        }
    }

    /// The question for up to `count` messages of the dispatcher at
    /// `api_url`, which are taken off the queue.
    pub fn web_action_dispatcher_messages_dequeue(
        api_url: String,
        count: u8,
        access_token: Option<String>,
    ) -> (request: HttpRequest)
        ensures
            request.method == Method::Post,
            request.uri@ == api_url@ + STATUS_PATH@,
            text(request.body) == Some(
                (StatusReq { summary: false, message_count: count, dequeue: true }).spec_json(),
            ),
            header_texts(request.headers@) == request_headers(text(access_token), true),
    {
        Loaders::web_load_queue_message(api_url, count, true, access_token)
    }
}

} // verus!
