use nxfutil::app_state::AppState;
use nxfutil::dispatchers::NextflowDispatcher;
use nxfutil::dispatchers::NextflowDispatchers;
use nxfutil::icons::ButtonKind;
use nxfutil::icons::IconColour;
use nxfutil::ids::new_id;
use nxfutil::ids::remove_by_id;
use nxfutil::loaders::Loaders;
use nxfutil::params::DispatchParam;
use nxfutil::params::DispatchParams;
use nxfutil::repositories::NextflowProject;
use nxfutil::repositories::NextflowRepo;
use nxfutil::repositories::NextflowRepos;
use nxfutil::text::decimal_text;
use nxfutil::text::ends_with;
use nxfutil::text::same_text;
use nxfutil::types::DispatchReqParam;
use nxfutil::types::GitHubDir;
use nxfutil::types::GitHubFile;
use nxfutil::types::GitHubFsType;
use nxfutil::types::Reply;
use nxfutil::web::Method;

fn dir(kind: &str, name: &str) -> GitHubDir {
    GitHubDir {
        kind: kind.to_string(),
        name: name.to_string(),
        path: format!("nextflow/pipelines/{}", name),
        sha: "0".to_string(),
        size: 0,
        url: format!("https://api.github.com/contents/{}", name),
        html_url: format!("https://github.com/tree/{}", name),
        git_url: "g".to_string(),
        download_url: None,
    }
}

fn file(kind: &str, name: &str) -> GitHubFile {
    GitHubFile {
        kind: kind.to_string(),
        name: name.to_string(),
        path: format!("nextflow/pipelines/p/{}", name),
        sha: "0".to_string(),
        size: 1,
        url: "u".to_string(),
        html_url: "h".to_string(),
        git_url: "g".to_string(),
        download_url: format!("https://raw.example/{}", name),
    }
}

fn project() -> NextflowProject {
    NextflowProject {
        org: "axgonz".to_string(),
        repo: "azure-nextflow".to_string(),
        name: "helloWorld".to_string(),
        url: "https://api.github.com/contents/helloWorld".to_string(),
        html_url: "https://github.com/tree/helloWorld".to_string(),
    }
}

#[test]
fn fresh_state_lists_two_repositories() {
    let state = AppState::new();
    assert_eq!(state.count, 6);
    assert_eq!(state.repos.len(), 2);
    assert_eq!(state.repos[0].index, 0);
    assert_eq!(state.repos[0].org, "axgonz");
    assert_eq!(state.repos[0].name, "azure-nextflow");
    assert_eq!(state.repos[1].index, 1);
    assert_eq!(state.repos[1].org, "axgonz");
    assert_eq!(state.repos[1].name, "azure-nextflow-cipa");
    let empty = AppState::default();
    assert_eq!(empty.count, 0);
    assert!(empty.repos.is_empty());
}

#[test]
fn dispatchers_start_with_the_local_one() {
    let mut list = NextflowDispatchers::new();
    assert!(!list.is_empty());
    assert_eq!(list.items.len(), 1);
    assert_eq!(list.api_url(), "http://localhost:7071");
    assert_eq!(
        list.config_url(),
        "https://raw.githubusercontent.com/axgonz/azure-nextflow/main/nextflow/pipelines/nextflow.config"
    );
    let other = NextflowDispatchers::mock_load();
    assert_ne!(list.items[0].id, other.items[0].id);
}

#[test]
fn first_dispatcher_gives_the_addresses() {
    let mut list = NextflowDispatchers::load(None);
    assert!(list.is_empty());
    assert_eq!(list.api_url(), "");
    assert_eq!(list.config_url(), "");
    list.add(NextflowDispatcher::new(1, "http://a".to_string(), "http://a/config".to_string()));
    list.add(NextflowDispatcher::new(2, "http://b".to_string(), "http://b/config".to_string()));
    assert_eq!(list.api_url(), "http://a");
    assert_eq!(list.config_url(), "http://a/config");
    list.remove(1);
    assert_eq!(list.api_url(), "http://b");
    assert_eq!(list.items.len(), 1);
    list.remove(2);
    assert!(list.is_empty());
    let stored = vec![NextflowDispatcher::new(7, "http://s".to_string(), "c".to_string())];
    let mut list = NextflowDispatchers::load(Some(stored));
    assert_eq!(list.api_url(), "http://s");
}

#[test]
fn remove_takes_out_all_of_an_identifier_and_keeps_the_order() {
    let mut list = NextflowRepos::load(None);
    for (id, name) in [(1u128, "a"), (2, "b"), (1, "c"), (3, "d"), (1, "e")] {
        list.add(NextflowRepo::new(id, "org".to_string(), name.to_string()));
    }
    list.remove(9);
    assert_eq!(list.items.len(), 5);
    list.remove(1);
    let names: Vec<&str> = list.items.iter().map(|r| r.name.as_str()).collect();
    assert_eq!(names, vec!["b", "d"]);
    list.remove(3);
    list.remove(2);
    assert!(list.is_empty());
    list.remove(2);
    assert!(list.is_empty());
    let mut items = vec![
        NextflowRepo::new(5, "o".to_string(), "x".to_string()),
        NextflowRepo::new(5, "o".to_string(), "y".to_string()),
    ];
    remove_by_id(&mut items, 5);
    assert!(items.is_empty());
}

#[test]
fn parameters_go_into_the_request_in_their_order() {
    let mut params = DispatchParams::new();
    assert!(params.is_empty());
    params.add(DispatchParam::new(1, "outdir".to_string(), "results".to_string()));
    params.add(DispatchParam::new(2, "cpus".to_string(), "4".to_string()));
    params.add(DispatchParam::new(3, "tmp".to_string(), "x".to_string()));
    params.remove(3);
    assert_eq!(
        params.req_params(),
        vec![
            DispatchReqParam { name: "outdir".to_string(), value: "results".to_string() },
            DispatchReqParam { name: "cpus".to_string(), value: "4".to_string() },
        ]
    );
    assert_eq!(
        DispatchReqParam::from(&params.items[1]),
        DispatchReqParam { name: "cpus".to_string(), value: "4".to_string() }
    );
    assert_eq!(params.items[0].req_param().name, "outdir");
    assert!(DispatchParams::new().req_params().is_empty());
}

#[test]
fn identifiers_are_fresh() {
    assert_ne!(new_id(), new_id());
}

#[test]
fn projects_are_the_directories() {
    let dirs = vec![dir("dir", "helloWorld"), dir("file", "README.md"), dir("dir", "rnaseq"), dir("Dir", "x")];
    let projects =
        Loaders::nextflow_projects("axgonz".to_string(), "azure-nextflow".to_string(), Reply::Body(dirs));
    assert_eq!(projects.len(), 2);
    assert_eq!(projects[0].org, "axgonz");
    assert_eq!(projects[0].repo, "azure-nextflow");
    assert_eq!(projects[0].name, "helloWorld");
    assert_eq!(projects[0].url, "https://api.github.com/contents/helloWorld");
    assert_eq!(projects[0].html_url, "https://github.com/tree/helloWorld");
    assert_eq!(projects[1].name, "rnaseq");
    for reply in [Reply::TransportError, Reply::Rejected(404), Reply::Unreadable, Reply::Body(vec![])] {
        assert!(Loaders::nextflow_projects("o".to_string(), "r".to_string(), reply).is_empty());
    }
}

#[test]
fn projects_are_asked_of_the_contents_api() {
    let request = Loaders::web_load_github_nextflow_projects(
        &"axgonz".to_string(),
        &"azure-nextflow".to_string(),
        None,
    );
    assert_eq!(request.method, Method::Get);
    assert_eq!(
        request.uri,
        "https://api.github.com/repos/axgonz/azure-nextflow/contents/nextflow/pipelines"
    );
    let repo = NextflowRepo::new(1, "axgonz".to_string(), "azure-nextflow-cipa".to_string());
    let request = Loaders::web_load_github_nextflow_workflows(&repo, Some("t".to_string()));
    assert_eq!(
        request.uri,
        "https://api.github.com/repos/axgonz/azure-nextflow-cipa/contents/nextflow/pipelines"
    );
    assert_eq!(request.headers.len(), 2);
    let request = Loaders::web_load_github_nextflow_workflow(&project(), None);
    assert_eq!(request.uri, "https://api.github.com/contents/helloWorld");
    assert_eq!(request.method, Method::Get);
}

#[test]
fn workflows_pair_each_pipeline_with_each_parameters_file() {
    let files = vec![
        file("file", "main.nf"),
        file("file", "small.json"),
        file("file", "README.md"),
        file("dir", "bin.nf"),
        file("file", "other.nf"),
        file("file", "large.json"),
        file("file", "nf"),
    ];
    let workflows = Loaders::nextflow_workflows(project(), Reply::Body(files));
    let pairs: Vec<(&str, &str)> =
        workflows.iter().map(|w| (w.pipeline.name.as_str(), w.parameters.name.as_str())).collect();
    assert_eq!(
        pairs,
        vec![
            ("main.nf", "small.json"),
            ("main.nf", "large.json"),
            ("other.nf", "small.json"),
            ("other.nf", "large.json"),
        ]
    );
    assert_eq!(workflows[0].pipeline.url, "https://raw.example/main.nf");
    assert_eq!(workflows[0].parameters.url, "https://raw.example/small.json");
    for w in &workflows {
        assert_eq!(w.project.name, "helloWorld");
        assert_eq!(w.project.org, "axgonz");
    }
}

#[test]
fn no_workflows_without_both_kinds_of_file() {
    let only_pipelines = vec![file("file", "main.nf"), file("file", "other.nf")];
    assert!(Loaders::nextflow_workflows(project(), Reply::Body(only_pipelines)).is_empty());
    let only_parameters = vec![file("file", "a.json")];
    assert!(Loaders::nextflow_workflows(project(), Reply::Body(only_parameters)).is_empty());
    for reply in [Reply::TransportError, Reply::Rejected(500), Reply::Unreadable, Reply::Body(vec![])] {
        assert!(Loaders::nextflow_workflows(project(), reply).is_empty());
    }
}

#[test]
fn suffixes_are_compared_by_bytes() {
    assert!(ends_with("main.nf", ".nf"));
    assert!(ends_with(".nf", ".nf"));
    assert!(ends_with("anything", ""));
    assert!(ends_with("", ""));
    assert!(!ends_with("nf", ".nf"));
    assert!(!ends_with("main.nf ", ".nf"));
    assert!(!ends_with("main.NF", ".nf"));
    assert!(!ends_with("", "x"));
    assert!(ends_with("straße", "ße"));
    assert!(same_text("a", "a"));
    assert!(!same_text("a", "A"));
}

#[test]
fn numbers_are_written_in_decimal() {
    for n in [0u16, 1, 9, 10, 11, 99, 100, 101, 200, 404, 999, 1000, 9999, 10000, 65535] {
        assert_eq!(decimal_text(n), n.to_string());
    }
}

#[test]
fn contents_types_have_their_words() {
    assert_eq!(GitHubFsType::Dir.name(), "dir");
    assert_eq!(GitHubFsType::File.name(), "file");
}

#[test]
fn button_kinds_have_their_names() {
    for kind in [ButtonKind::Button, ButtonKind::Reset, ButtonKind::Submit] {
        assert_eq!(ButtonKind::parse(kind.name()), Some(kind));
    }
    assert_eq!(ButtonKind::Button.name(), "Button");
    assert_eq!(ButtonKind::Reset.name(), "Reset");
    assert_eq!(ButtonKind::Submit.name(), "Submit");
    assert_eq!(ButtonKind::parse("button"), None);
    assert_eq!(ButtonKind::parse(""), None);
}

#[test]
fn colours_have_their_classes() {
    assert_eq!(
        IconColour::button_class(None),
        "flex text-white font-bold py-1 px-1 rounded bg-blue-500 hover:bg-blue-700"
    );
    assert_eq!(
        IconColour::button_class(Some(IconColour::Red)),
        "flex text-white font-bold py-1 px-1 rounded bg-red-500 hover:bg-red-700"
    );
    assert_eq!(
        IconColour::button_class(Some(IconColour::Green)),
        "flex text-white font-bold py-1 px-1 rounded bg-green-500 hover:bg-green-700"
    );
    assert_eq!(
        IconColour::button_class(Some(IconColour::Gray)),
        "flex text-white font-bold py-1 px-1 rounded bg-gray-500 hover:bg-gray-700"
    );
    assert_eq!(
        IconColour::button_class(Some(IconColour::Disabled)),
        "flex text-white font-bold py-1 px-1 rounded bg-gray-300 hover:bg-gray-500"
    );
    assert_eq!(
        IconColour::icon_class(None),
        "icon flex text-white font-bold py-1 px-1 rounded bg-blue-500"
    );
    assert_eq!(
        IconColour::icon_class(Some(IconColour::Disabled)),
        "icon flex text-white font-bold py-1 px-1 rounded bg-gray-300"
    );
    assert_eq!(
        IconColour::icon_class(Some(IconColour::Blue)),
        IconColour::icon_class(None)
    );
}

#[test]
fn identifiers_are_version_four_uuids() {
    for _ in 0..32 {
        let id = new_id();
        assert_eq!((id >> 76) & 0xf, 4);
        assert_eq!((id >> 62) & 0x3, 2);
        let uuid = uuid::Uuid::from_u128(id);
        assert_eq!(uuid.get_version_num(), 4);
        assert_eq!(uuid.as_u128(), id);
    }
    let list = NextflowDispatchers::mock_load();
    assert_eq!(uuid::Uuid::from_u128(list.items[0].id).get_version_num(), 4);
    assert_eq!((list.items[0].id >> 62) & 0x3, 2);
    let list = NextflowDispatchers::new();
    assert_eq!(uuid::Uuid::from_u128(list.items[0].id).get_version_num(), 4);
}
