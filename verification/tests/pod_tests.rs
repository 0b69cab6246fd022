use dev_cli::pod::{select_pod, ContainerInfo, PodInfo};

fn pod(names: &[&str]) -> PodInfo {
    PodInfo {
        name: Some("pod".to_string()),
        namespace: Some("ns".to_string()),
        labels: None,
        containers: Some(
            names
                .iter()
                .map(|n| ContainerInfo { name: n.to_string(), image: Some(format!("img-{}", n)) })
                .collect(),
        ),
    }
}

#[test]
fn select_pod_keeps_a_named_container_that_exists() {
    assert_eq!(select_pod(Some("b".to_string()), pod(&["a", "b"])), Some("b".to_string()));
}

#[test]
fn select_pod_refuses_a_missing_container() {
    assert_eq!(select_pod(Some("z".to_string()), pod(&["a", "b"])), None);
}

#[test]
fn select_pod_defaults_to_the_first_container() {
    assert_eq!(select_pod(None, pod(&["a", "b"])), Some("a".to_string()));
}

#[test]
fn select_pod_without_containers() {
    assert_eq!(select_pod(None, pod(&[])), None);
    assert_eq!(select_pod(Some("a".to_string()), pod(&[])), None);
}
