use dev_cli::helper::BaseInfo;
use dev_cli::pod::{ContainerInfo, PodInfo};
use dev_cli::string_map::StringMap;
use dev_cli::workspace::{
    DevWorkspaceInfo, DevWorkspaceStatusInfo, StartAction, StartEvent, StartOutcome, StartStep,
    Workspace,
};

fn base(id: Option<&str>) -> BaseInfo {
    BaseInfo {
        namespace: Some("ns".to_string()),
        workspace_name: Some("ws".to_string()),
        workspace_id: id.map(|s| s.to_string()),
        podname: None,
        is_in_pod: false,
    }
}

fn pod(labels: Option<StringMap>) -> PodInfo {
    PodInfo {
        name: Some("ws-pod".to_string()),
        namespace: Some("ns".to_string()),
        labels,
        containers: Some(vec![
            ContainerInfo { name: "tools".to_string(), image: None },
            ContainerInfo { name: "che-gateway".to_string(), image: None },
        ]),
    }
}

#[test]
fn container_output_uses_the_known_id() {
    let out = Workspace::container_output(base(Some("id-1")), pod(None));
    assert_eq!(out.workspace_id, Some("id-1".to_string()));
    assert_eq!(out.namespace, Some("ns".to_string()));
    assert_eq!(out.workspace_name, Some("ws".to_string()));
    assert_eq!(out.podname, Some("ws-pod".to_string()));
    assert_eq!(out.container, vec!["tools".to_string(), "che-gateway".to_string()]);
}

#[test]
fn container_output_reads_the_id_label() {
    let mut labels = StringMap::new();
    labels.insert("controller.devfile.io/devworkspace_id".to_string(), "workspace42".to_string());
    let out = Workspace::container_output(base(None), pod(Some(labels)));
    assert_eq!(out.workspace_id, Some("workspace42".to_string()));
}

#[test]
fn container_output_without_id_label_reports_empty_id() {
    let mut labels = StringMap::new();
    labels.insert("app".to_string(), "x".to_string());
    let out = Workspace::container_output(base(None), pod(Some(labels)));
    assert_eq!(out.workspace_id, Some("".to_string()));
}

#[test]
fn list_output_has_one_line_per_workspace() {
    let list = vec![
        DevWorkspaceInfo {
            name: Some("a".to_string()),
            status: Some(DevWorkspaceStatusInfo { devworkspace_id: "id-a".to_string(), phase: Some("Running".to_string()) }),
        },
        DevWorkspaceInfo {
            name: None,
            status: Some(DevWorkspaceStatusInfo { devworkspace_id: "id-b".to_string(), phase: None }),
        },
    ];
    let out = Workspace::list_output(&base(None), list);
    assert_eq!(out.len(), 2);
    assert_eq!(out[0].namespace, Some("ns".to_string()));
    assert_eq!(out[0].workspace_name, Some("a".to_string()));
    assert_eq!(out[0].workspace_id, Some("id-a".to_string()));
    assert_eq!(out[0].status, Some("Running".to_string()));
    assert_eq!(out[1].workspace_name, None);
    assert_eq!(out[1].workspace_id, Some("id-b".to_string()));
    assert_eq!(out[1].status, None);
}

#[test]
fn workspace_status_sets_the_id() {
    let ws = DevWorkspaceInfo {
        name: Some("ws".to_string()),
        status: Some(DevWorkspaceStatusInfo { devworkspace_id: "id-9".to_string(), phase: None }),
    };
    let b = base(None).with_workspace_status(&ws);
    assert_eq!(b.workspace_id, Some("id-9".to_string()));
    assert_eq!(b.workspace_name, Some("ws".to_string()));
    assert_eq!(b.namespace, Some("ns".to_string()));
}

#[test]
fn start_with_wait_runs_to_started() {
    let (s, a) = Workspace::start(base(None), true);
    assert!(matches!(a, StartAction::CreateClient));
    let (s, a) = s.next(StartEvent::ClientCreated(true));
    match a {
        StartAction::StartWorkspace { workspace_name, namespace, running } => {
            assert_eq!(workspace_name, "ws");
            assert_eq!(namespace, Some("ns".to_string()));
            assert!(running);
        }
        _ => panic!("expected a start"),
    }
    let (s, a) = s.next(StartEvent::StartSent(true));
    match a {
        StartAction::WaitForStatus { status, interval_ms, attempts, .. } => {
            assert_eq!(status, "Running");
            assert_eq!(interval_ms * attempts, 300_000);
        }
        _ => panic!("expected a wait"),
    }
    let (s, a) = s.next(StartEvent::StatusWaited(true));
    assert!(matches!(a, StartAction::Finish(StartOutcome::Started)));
    assert!(s.step == StartStep::Done);
}

#[test]
fn start_without_wait_does_not_wait() {
    let (s, _) = Workspace::start(base(None), false);
    let (s, _) = s.next(StartEvent::ClientCreated(true));
    let (s, a) = s.next(StartEvent::StartSent(true));
    assert!(matches!(a, StartAction::Finish(StartOutcome::NotWaiting)));
    let (_, a) = s.next(StartEvent::StatusWaited(true));
    assert!(matches!(a, StartAction::Finish(StartOutcome::Interrupted)));
}

#[test]
fn start_failures_end_the_start() {
    let (s, _) = Workspace::start(base(None), true);
    let (_, a) = s.next(StartEvent::ClientCreated(false));
    assert!(matches!(a, StartAction::Finish(StartOutcome::NoClient)));

    let (s, _) = Workspace::start(base(None), true);
    let (s, _) = s.next(StartEvent::ClientCreated(true));
    let (_, a) = s.next(StartEvent::StartSent(false));
    assert!(matches!(a, StartAction::Finish(StartOutcome::NotStarted)));

    let (s, _) = Workspace::start(base(None), true);
    let (s, _) = s.next(StartEvent::ClientCreated(true));
    let (s, _) = s.next(StartEvent::StartSent(true));
    let (_, a) = s.next(StartEvent::StatusWaited(false));
    assert!(matches!(a, StartAction::Finish(StartOutcome::DidNotStart)));
}
