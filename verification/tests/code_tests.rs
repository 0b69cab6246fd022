use dev_cli::code::{Code, OpenAction, OpenEvent, OpenSession, OpenStep, START_POLL_ATTEMPTS, START_POLL_INTERVAL_MS};
use dev_cli::pod::{ContainerInfo, PodInfo};

fn pod() -> PodInfo {
    PodInfo {
        name: Some("ws-pod".to_string()),
        namespace: Some("user-ns".to_string()),
        labels: None,
        containers: Some(vec![
            ContainerInfo { name: "tools".to_string(), image: Some("quay.io/img:1".to_string()) },
            ContainerInfo { name: "gateway".to_string(), image: Some("gw".to_string()) },
        ]),
    }
}

fn session(name: Option<&str>) -> OpenSession {
    let (s, a) = Code::open(
        name.map(|n| n.to_string()),
        3333,
        "/projects/".to_string(),
        "my-ws".to_string(),
        Some("ns".to_string()),
        None,
    );
    assert!(matches!(a, OpenAction::CreateClient));
    assert!(s.step == OpenStep::AwaitingClient);
    s
}

#[test]
fn open_with_running_pod_launches_editor_then_healthcheck() {
    let s = session(Some("gateway"));
    let (s, a) = s.next(OpenEvent::ClientCreated(true));
    match a {
        OpenAction::FindPod { workspace_name, namespace } => {
            assert_eq!(workspace_name, "my-ws");
            assert_eq!(namespace, Some("ns".to_string()));
        }
        _ => panic!("expected a pod lookup"),
    }
    let (s, a) = s.next(OpenEvent::PodLookedUp(Some(pod())));
    match a {
        OpenAction::LaunchEditor(oc) => {
            assert_eq!(oc.pod_name, Some("ws-pod".to_string()));
            assert_eq!(oc.namespace, Some("user-ns".to_string()));
            assert_eq!(oc.container_name, Some("gateway".to_string()));
            // the image is the one of the first container
            assert_eq!(oc.container_image, Some("quay.io/img:1".to_string()));
            assert_eq!(oc.path, Some("/projects/".to_string()));
            assert_eq!(oc.context, None);
        }
        _ => panic!("expected the editor"),
    }
    let (s, a) = s.next(OpenEvent::EditorLaunched);
    match a {
        OpenAction::Healthcheck { pod_name, port, namespace } => {
            assert_eq!(pod_name, "ws-pod");
            assert_eq!(port, 3333);
            assert_eq!(namespace, Some("user-ns".to_string()));
        }
        _ => panic!("expected the healthcheck"),
    }
    let (s, a) = s.next(OpenEvent::HealthcheckEnded);
    assert!(matches!(a, OpenAction::Finish));
    assert!(s.step == OpenStep::Done);
}

#[test]
fn open_without_pod_starts_after_consent() {
    let s = session(None);
    let (s, _) = s.next(OpenEvent::ClientCreated(true));
    let (s, a) = s.next(OpenEvent::PodLookedUp(None));
    assert!(matches!(a, OpenAction::AskToStart));
    let (s, a) = s.next(OpenEvent::StartAnswered(true));
    match a {
        OpenAction::StartWorkspace { workspace_name, running, .. } => {
            assert_eq!(workspace_name, "my-ws");
            assert!(running);
        }
        _ => panic!("expected a start"),
    }
    let (s, a) = s.next(OpenEvent::StartRequested);
    match a {
        OpenAction::WaitForStatus { status, interval_ms, attempts, .. } => {
            assert_eq!(status, "Running");
            assert_eq!(interval_ms, 2000);
            assert_eq!(attempts, 150);
        }
        _ => panic!("expected a wait"),
    }
    let (s, a) = s.next(OpenEvent::StatusWaited(true));
    assert!(matches!(a, OpenAction::FindPod { .. }));
    let (_, a) = s.next(OpenEvent::PodLookedUp(Some(pod())));
    match a {
        OpenAction::LaunchEditor(oc) => assert_eq!(oc.container_name, Some("tools".to_string())),
        _ => panic!("expected the editor"),
    }
}

#[test]
fn open_stops_when_user_declines() {
    let s = session(None);
    let (s, _) = s.next(OpenEvent::ClientCreated(true));
    let (s, _) = s.next(OpenEvent::PodLookedUp(None));
    let (s, a) = s.next(OpenEvent::StartAnswered(false));
    assert!(matches!(a, OpenAction::Finish));
    let (_, a) = s.next(OpenEvent::StartAnswered(true));
    assert!(matches!(a, OpenAction::Finish));
}

#[test]
fn open_stops_on_missing_client_wait_timeout_or_second_miss() {
    let (_, a) = session(None).next(OpenEvent::ClientCreated(false));
    assert!(matches!(a, OpenAction::Finish));

    let (s, _) = session(None).next(OpenEvent::ClientCreated(true));
    let (s, _) = s.next(OpenEvent::PodLookedUp(None));
    let (s, _) = s.next(OpenEvent::StartAnswered(true));
    let (s, _) = s.next(OpenEvent::StartRequested);
    let (_, a) = s.next(OpenEvent::StatusWaited(false));
    assert!(matches!(a, OpenAction::Finish));

    let (s, _) = session(None).next(OpenEvent::ClientCreated(true));
    let (s, _) = s.next(OpenEvent::PodLookedUp(None));
    let (s, _) = s.next(OpenEvent::StartAnswered(true));
    let (s, _) = s.next(OpenEvent::StartRequested);
    let (s, _) = s.next(OpenEvent::StatusWaited(true));
    let (s, a) = s.next(OpenEvent::PodLookedUp(None));
    assert!(matches!(a, OpenAction::Finish));
    assert!(s.step == OpenStep::Done);
}

#[test]
fn open_stops_when_named_container_is_missing() {
    let (s, _) = session(Some("nope")).next(OpenEvent::ClientCreated(true));
    let (s, a) = s.next(OpenEvent::PodLookedUp(Some(pod())));
    assert!(matches!(a, OpenAction::Finish));
    assert!(s.step == OpenStep::Done);
}

#[test]
fn open_session_ends_within_eight_reports() {
    let events = vec![
        OpenEvent::ClientCreated(true),
        OpenEvent::PodLookedUp(None),
        OpenEvent::StartAnswered(true),
        OpenEvent::StartRequested,
        OpenEvent::StatusWaited(true),
        OpenEvent::PodLookedUp(Some(pod())),
        OpenEvent::EditorLaunched,
        OpenEvent::HealthcheckEnded,
    ];
    let mut s = session(None);
    let mut finished = false;
    for e in events {
        let (next, a) = s.next(e);
        s = next;
        finished = matches!(a, OpenAction::Finish);
    }
    assert!(finished);
    assert!(s.step == OpenStep::Done);
}

#[test]
fn start_wait_lasts_five_minutes() {
    assert_eq!(START_POLL_INTERVAL_MS * START_POLL_ATTEMPTS, 5 * 60 * 1000);
}
