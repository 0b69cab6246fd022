use dev_cli::open_code::OpenCode;

fn s(v: &str) -> Option<String> {
    Some(v.to_string())
}

#[test]
fn generate_path_without_fields_is_the_authority() {
    let oc = OpenCode {
        context: None,
        pod_name: None,
        namespace: None,
        container_name: None,
        container_image: None,
        path: None,
    };
    assert_eq!(oc.generate_path(), "vscode-remote://k8s-container");
}

#[test]
fn generate_path_with_all_fields() {
    let oc = OpenCode {
        context: s("ctx"),
        pod_name: s("workspace-pod"),
        namespace: s("dev-ns"),
        container_name: s("tools"),
        container_image: s("quay.io/devfile/universal-developer-image:ubi8-latest"),
        path: s("/projects/"),
    };
    assert_eq!(
        oc.generate_path(),
        "vscode-remote://k8s-container+context=ctx+podname=workspace-pod+namespace=dev-ns+name=tools+image=quay.io%2Fdevfile%2Funiversal-developer-image%3Aubi8-latest/projects/"
    );
}

#[test]
fn generate_path_encodes_image_bytes() {
    let oc = OpenCode {
        context: None,
        pod_name: None,
        namespace: None,
        container_name: None,
        container_image: s("a b*-._~é"),
        path: None,
    };
    assert_eq!(
        oc.generate_path(),
        "vscode-remote://k8s-container+image=a+b*-._%7E%C3%A9"
    );
}

#[test]
fn generate_path_keeps_field_order_and_skips_missing() {
    let oc = OpenCode {
        context: None,
        pod_name: s("p"),
        namespace: None,
        container_name: s("c"),
        container_image: None,
        path: s("/x"),
    };
    assert_eq!(oc.generate_path(), "vscode-remote://k8s-container+podname=p+name=c/x");
}

#[test]
fn open_command_prefixes_the_uri() {
    let oc = OpenCode {
        context: None,
        pod_name: s("p"),
        namespace: s("n"),
        container_name: None,
        container_image: None,
        path: None,
    };
    assert_eq!(
        oc.open_command(),
        "code --folder-uri vscode-remote://k8s-container+podname=p+namespace=n"
    );
}

#[test]
fn encoded_image_holds_only_safe_characters() {
    let oc = OpenCode {
        context: None,
        pod_name: None,
        namespace: None,
        container_name: None,
        container_image: s("registry:5000/ns/img@sha256:abc=/+ \u{1F600}"),
        path: None,
    };
    let uri = oc.generate_path();
    let image = uri.strip_prefix("vscode-remote://k8s-container+image=").unwrap();
    assert!(image
        .chars()
        .all(|c| c.is_ascii_alphanumeric() || "*-._+%".contains(c)));
}
