//! What is asked of the dispatcher's status API and of GitHub's contents
//! API, and what is made of the answers.

use crate::dispatchers::NextflowDispatcher;
use crate::repositories::NextflowFile;
use crate::repositories::NextflowProject;
use crate::repositories::NextflowRepo;
use crate::repositories::NextflowWorkflow;
use crate::text::decimal;
use crate::text::decimal_text;
use crate::text::ends_with;
use crate::text::ends_with_text;
use crate::text::same_text;
use crate::text::text;
use crate::types::GitHubDir;
use crate::types::GitHubFile;
use crate::types::Message;
use crate::types::Reply;
use crate::types::StatusReq;
use crate::web::header_texts;
use crate::web::request_headers;
use crate::web::HttpRequest;
use crate::web::Method;
use crate::web::WebHelpers;
use vstd::prelude::*;

verus! {

/// The path of the status API below a dispatcher's address.
pub const STATUS_PATH: &'static str = "/api/nxfutil/status";

pub const GITHUB_REPOS: &'static str = "https://api.github.com/repos/";

/// Where a repository keeps its projects.
pub const PIPELINES_PATH: &'static str = "/contents/nextflow/pipelines";

pub const BAD_JSON: &'static str = "BAD_JSON";

pub const ERROR: &'static str = "ERROR";

pub const UNREADABLE_MESSAGE: &'static str = "Unable to parse server response to JSON.";

pub const UNAUTHORIZED_MESSAGE: &'static str = "Unauthorized. Try logging out and back in again.";

pub const FORBIDDEN_MESSAGE: &'static str =
    "Forbidden. If you have recently been granted access try logging out and back in again after a few minutes.";

pub const FAILED_MESSAGE: &'static str =
    "Request failed. Try sending the request again in a few seconds.";

pub const DIR: &'static str = "dir";

pub const FILE: &'static str = "file";

pub const PIPELINE_SUFFIX: &'static str = ".nf";

pub const PARAMETERS_SUFFIX: &'static str = ".json";

/// The messages of a dispatcher's queue, or why there are none.
#[derive(Debug, Clone)]
pub struct GetMessagesRes {
    pub result: Vec<Message>,
    pub error_status: Option<String>,
    pub error_message: Option<String>,
}

impl Default for GetMessagesRes {
    /// No messages and no error.
    fn default() -> (res: GetMessagesRes)
        ensures
            res.result@.len() == 0,
            res.error_status is None,
            res.error_message is None,
    {
        GetMessagesRes { result: Vec::new(), error_status: None, error_message: None }
    }
}

/// The key under which a failed request is reported: the status where one
/// arrived, and a word for the other failures.
pub open spec fn error_status_of<T>(reply: Reply<T>) -> Option<Seq<char>> {
    match reply {
        Reply::TransportError => Some(ERROR@),
        Reply::Rejected(status) => Some(decimal(status as nat)),
        Reply::Unreadable => Some(BAD_JSON@),
        Reply::Body(_) => None,
    }
}

/// What the user is told when the status API fails: with status 401 to log
/// in again, with 403 to wait for the granted access, otherwise to retry.
pub open spec fn status_error_message<T>(reply: Reply<T>) -> Option<Seq<char>> {
    match reply {
        Reply::TransportError => Some(FAILED_MESSAGE@),
        Reply::Rejected(status) => Some(
            if status == 401 {
                UNAUTHORIZED_MESSAGE@
            } else if status == 403 {
                FORBIDDEN_MESSAGE@
            } else {
                FAILED_MESSAGE@
            },
        ),
        Reply::Unreadable => Some(UNREADABLE_MESSAGE@),
        Reply::Body(_) => None,
    }
}

/// The project that a directory entry stands for; entries of another type
/// stand for none.
pub open spec fn project_of(org: String, repo: String) -> spec_fn(GitHubDir) -> Option<
    NextflowProject,
> {
    |dir: GitHubDir|
        if dir.kind@ == DIR@ {
            Some(
                NextflowProject {
                    org,
                    repo,
                    name: dir.name,
                    url: dir.url,
                    html_url: dir.html_url,
                },
            )
        } else {
            None
        }
}

/// The file that an entry stands for if it is a file whose download address
/// ends with `suffix`.
pub open spec fn file_with(suffix: Seq<char>) -> spec_fn(GitHubFile) -> Option<NextflowFile> {
    |file: GitHubFile|
        if file.kind@ == FILE@ && ends_with_text(file.download_url@, suffix) {
            Some(NextflowFile { name: file.name, url: file.download_url })
        } else {
            None
        }
}

/// One pipeline with each of the parameters files, in their order.
pub open spec fn row(
    project: NextflowProject,
    pipeline: NextflowFile,
    parameters: Seq<NextflowFile>,
) -> Seq<NextflowWorkflow> {
    Seq::new(
        parameters.len(),
        |j: int| NextflowWorkflow { project, pipeline, parameters: parameters[j] },
    )
}

/// Each pipeline with each parameters file: the rows of the pipelines, one
/// after the other.
pub open spec fn pairings(
    project: NextflowProject,
    pipelines: Seq<NextflowFile>,
    parameters: Seq<NextflowFile>,
) -> Seq<NextflowWorkflow>
    decreases pipelines.len(),
{
    if pipelines.len() == 0 {
        Seq::empty()
    } else {
        pairings(project, pipelines.drop_last(), parameters) + row(
            project,
            pipelines.last(),
            parameters,
        )
    }
}

/// The files among `files` that the contents API calls files and whose
/// download address ends with `suffix`.
fn files_with(files: &Vec<GitHubFile>, suffix: &str) -> (found: Vec<NextflowFile>)
    ensures
        found@ == files@.filter_map(file_with(suffix@)),
{
    let mut found: Vec<NextflowFile> = Vec::new();
    let mut i: usize = 0;
    assert(files@.take(0).filter_map(file_with(suffix@)) =~= Seq::empty());
    while i < files.len()
        invariant
            i <= files@.len(),
            found@ == files@.take(i as int).filter_map(file_with(suffix@)),
        decreases files@.len() - i,
    {
        proof {
            files@.lemma_filter_map_take_succ(file_with(suffix@), i as int);
        }
        let file = &files[i];
        if same_text(file.kind.as_str(), FILE) && ends_with(file.download_url.as_str(), suffix) {
            found.push(NextflowFile { name: file.name.clone(), url: file.download_url.clone() });
        }
        i += 1;
    }
    assert(files@.take(files@.len() as int) =~= files@);
    found
}

pub struct Loaders {}

impl Loaders {
    /// The question for up to `count` messages of the dispatcher at `url`,
    /// which are taken off the queue if `dequeue` says so.
    pub fn web_load_queue_message(
        url: String,
        count: u8,
        dequeue: bool,
        access_token: Option<String>,
    ) -> (request: HttpRequest)
        ensures
            request.method == Method::Post,
            request.uri@ == url@ + STATUS_PATH@,
            text(request.body) == Some(
                (StatusReq { summary: false, message_count: count, dequeue }).spec_json(),
            ),
            header_texts(request.headers@) == request_headers(text(access_token), true),
    {
        let uri = url.concat(STATUS_PATH);
        let req = StatusReq { summary: false, message_count: count, dequeue };
        WebHelpers::web_post(&uri, &req.to_json(), access_token)
    }

    /// The question for up to `count` messages of `dispatcher`, which stay
    /// on the queue.
    pub fn web_load_dispatcher_messages(
        dispatcher: NextflowDispatcher,
        count: u8,
        access_token: Option<String>,
    ) -> (request: HttpRequest)
        ensures
            request.method == Method::Post,
            request.uri@ == dispatcher.api_url@ + STATUS_PATH@,
            text(request.body) == Some(
                (StatusReq { summary: false, message_count: count, dequeue: false }).spec_json(),
            ),
            header_texts(request.headers@) == request_headers(text(access_token), true),
    {
        Loaders::web_load_queue_message(dispatcher.api_url, count, false, access_token)
    }

    /// What the answer of the status API amounts to: the messages, or no
    /// messages with the key and the explanation of the failure.
    pub fn queue_messages(reply: Reply<Vec<Message>>) -> (res: GetMessagesRes)
        ensures
            res.result@ == (match reply {
                Reply::Body(messages) => messages@,
                _ => Seq::empty(),
            }),
            text(res.error_status) == error_status_of(reply),
            text(res.error_message) == status_error_message(reply),
    {
        match reply {
            Reply::Body(messages) => GetMessagesRes {
                result: messages,
                error_status: None,
                error_message: None,
            },
            Reply::Unreadable => GetMessagesRes {
                result: Vec::new(),
                error_status: Some(String::from_str(BAD_JSON)),
                error_message: Some(String::from_str(UNREADABLE_MESSAGE)),
            },
            Reply::Rejected(status) => {
                let message = if status == 401 {
                    UNAUTHORIZED_MESSAGE
                } else if status == 403 {
                    FORBIDDEN_MESSAGE
                } else {
                    FAILED_MESSAGE
                };
                GetMessagesRes {
                    result: Vec::new(),
                    error_status: Some(decimal_text(status)),
                    error_message: Some(String::from_str(message)),
                }
            },
            Reply::TransportError => GetMessagesRes {
                result: Vec::new(),
                error_status: Some(String::from_str(ERROR)),
                error_message: Some(String::from_str(FAILED_MESSAGE)),
            },
        }
    }

    /// The question for the files of `project`.
    pub fn web_load_github_nextflow_workflow(
        project: &NextflowProject,
        access_token: Option<String>,
    ) -> (request: HttpRequest)
        ensures
            request.method == Method::Get,
            request.uri == project.url,
            request.body is None,
            header_texts(request.headers@) == request_headers(text(access_token), false),
    {
        WebHelpers::web_get(&project.url, access_token)
    }

    /// The workflows of `project`, given the answer to the question for its
    /// files: each pipeline file with each parameters file. An answer that
    /// is no list of files gives none.
    pub fn nextflow_workflows(project: NextflowProject, reply: Reply<Vec<GitHubFile>>) -> (workflows:
        Vec<NextflowWorkflow>)
        ensures
            workflows@ == (match reply {
                Reply::Body(files) => pairings(
                    project,
                    files@.filter_map(file_with(PIPELINE_SUFFIX@)),
                    files@.filter_map(file_with(PARAMETERS_SUFFIX@)),
                ),
                _ => Seq::empty(),
            }),
    {
        let files = match reply {
            Reply::Body(files) => files,
            _ => {
                return Vec::new();
            },
        };
        let pipelines = files_with(&files, PIPELINE_SUFFIX);
        let parameters = files_with(&files, PARAMETERS_SUFFIX);
        let mut workflows: Vec<NextflowWorkflow> = Vec::new();
        let mut i: usize = 0;
        assert(pipelines@.take(0) =~= Seq::empty());
        while i < pipelines.len()
            invariant
                i <= pipelines@.len(),
                workflows@ == pairings(project, pipelines@.take(i as int), parameters@),
            decreases pipelines@.len() - i,
        {
            let ghost done = workflows@;
            let mut j: usize = 0;
            while j < parameters.len()
                invariant
                    i < pipelines@.len(),
                    j <= parameters@.len(),
                    workflows@ == done + row(project, pipelines@[i as int], parameters@.take(j as int)),
                decreases parameters@.len() - j,
            {
                workflows.push(
                    NextflowWorkflow {
                        project: project.duplicate(),
                        pipeline: pipelines[i].duplicate(),
                        parameters: parameters[j].duplicate(),
                    },
                );
                j += 1;
                assert(workflows@ =~= done + row(
                    project,
                    pipelines@[i as int],
                    parameters@.take(j as int),
                ));
            }
            assert(parameters@.take(parameters@.len() as int) =~= parameters@);
            i += 1;
            assert(pipelines@.take(i as int).drop_last() =~= pipelines@.take(i - 1));
        }
        assert(pipelines@.take(pipelines@.len() as int) =~= pipelines@);
        workflows
    }

    /// The question for the projects of repository `repo` of `org`.
    pub fn web_load_github_nextflow_projects(
        org: &String,
        repo: &String,
        access_token: Option<String>,
    ) -> (request: HttpRequest)
        ensures
            request.method == Method::Get,
            request.uri@ == GITHUB_REPOS@ + org@ + "/"@ + repo@ + PIPELINES_PATH@,
            request.body is None,
            header_texts(request.headers@) == request_headers(text(access_token), false),
    {
        let mut uri = String::from_str(GITHUB_REPOS);
        uri.append(org.as_str());
        uri.append("/");
        uri.append(repo.as_str());
        uri.append(PIPELINES_PATH);
        WebHelpers::web_get(&uri, access_token)
    }

    /// The projects of a repository, given the answer to the question for
    /// them: one for each directory listed. An answer that is no list gives
    /// none.
    pub fn nextflow_projects(org: String, repo: String, reply: Reply<Vec<GitHubDir>>) -> (projects:
        Vec<NextflowProject>)
        ensures
            projects@ == (match reply {
                Reply::Body(dirs) => dirs@.filter_map(project_of(org, repo)),
                _ => Seq::empty(),
            }),
    {
        let dirs = match reply {
            Reply::Body(dirs) => dirs,
            _ => {
                return Vec::new();
            },
        };
        let mut projects: Vec<NextflowProject> = Vec::new();
        let mut i: usize = 0;
        assert(dirs@.take(0).filter_map(project_of(org, repo)) =~= Seq::empty());
        while i < dirs.len()
            invariant
                i <= dirs@.len(),
                projects@ == dirs@.take(i as int).filter_map(project_of(org, repo)),
            decreases dirs@.len() - i,
        {
            proof {
                dirs@.lemma_filter_map_take_succ(project_of(org, repo), i as int);
            }
            let dir = &dirs[i];
            if same_text(dir.kind.as_str(), DIR) {
                projects.push(
                    NextflowProject {
                        org: org.clone(),
                        repo: repo.clone(),
                        name: dir.name.clone(),
                        url: dir.url.clone(),
                        html_url: dir.html_url.clone(),
                    },
                );
            }
            i += 1;
        }
        assert(dirs@.take(dirs@.len() as int) =~= dirs@);
        projects
    }

    /// The first question on the way to the workflows of `repo`: the one for
    /// its projects. Each project is then asked for its files, and the
    /// workflows of all projects follow one another.
    pub fn web_load_github_nextflow_workflows(repo: &NextflowRepo, access_token: Option<String>) -> (request:
        HttpRequest)
        ensures
            request.method == Method::Get,
            request.uri@ == GITHUB_REPOS@ + repo.org@ + "/"@ + repo.name@ + PIPELINES_PATH@,
            request.body is None,
            header_texts(request.headers@) == request_headers(text(access_token), false),
    {
        Loaders::web_load_github_nextflow_projects(&repo.org, &repo.name, access_token)
    }
}

} // verus!
