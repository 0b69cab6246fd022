//! The `code` subcommand: opening a workspace in the editor. The steps that
//! talk to the cluster, the user and the editor are performed by the caller;
//! this module decides, from what each step reported, what to do next.

use vstd::prelude::*;
use crate::open_code::{OpenCode, OpenCodeView};
use crate::pod::{opt_view, select_container, selected_container, ContainerInfo, PodInfo, PodView};
use crate::text::clone_opt;

verus! {

/// The `code` subcommand and its arguments.
pub enum Code {
    /// Open the selected workspace in the editor.
    Open {
        /// The container to open the editor in; the first one when absent.
        name: Option<String>,
        /// The port of the activity endpoint in the pod.
        port: u16,
        /// The folder opened in the container.
        path: String,
        /// The workspace name.
        workspace_name: String,
        /// The namespace of the workspace.
        namespace: Option<String>,
        /// The Kubernetes context.
        context: Option<String>,
    },
    /// Check whether the required editor extensions are installed.
    Check {
        /// Install the missing extensions.
        install: bool,
    },
}

/// How long the session waits for a started workspace to run: the interval
/// between two looks at its status, in milliseconds.
pub const START_POLL_INTERVAL_MS: u64 = 2000;

/// How many times the session looks at the status of a started workspace.
pub const START_POLL_ATTEMPTS: u64 = 150;

/// Where an editor session stands.
#[derive(Clone, Copy, PartialEq, Eq, Structural, Debug)]
pub enum OpenStep {
    AwaitingClient,
    FindingPod,
    AskingToStart,
    StartingWorkspace,
    WaitingForRunning,
    FindingStartedPod,
    LaunchingEditor,
    CheckingHealth,
    Done,
}

/// The state of an editor session: the request and the step reached, with
/// the pod that the editor was opened on once it is known.
pub struct OpenSession {
    pub name: Option<String>,
    pub port: u16,
    pub path: String,
    pub workspace_name: String,
    pub namespace: Option<String>,
    pub context: Option<String>,
    pub step: OpenStep,
    pub pod_name: Option<String>,
    pub pod_namespace: Option<String>,
}

/// The abstract value of an [`OpenSession`].
pub struct OpenSessionView {
    pub name: Option<Seq<char>>,
    pub port: u16,
    pub path: Seq<char>,
    pub workspace_name: Seq<char>,
    pub namespace: Option<Seq<char>>,
    pub context: Option<Seq<char>>,
    pub step: OpenStep,
    pub pod_name: Option<Seq<char>>,
    pub pod_namespace: Option<Seq<char>>,
}

impl View for OpenSession {
    type V = OpenSessionView;

    open spec fn view(&self) -> OpenSessionView {
        OpenSessionView {
            name: opt_view(self.name),
            port: self.port,
            path: self.path@,
            workspace_name: self.workspace_name@,
            namespace: opt_view(self.namespace),
            context: opt_view(self.context),
            step: self.step,
            pod_name: opt_view(self.pod_name),
            pod_namespace: opt_view(self.pod_namespace),
        }
    }
}

/// What the last step of the session reported.
pub enum OpenEvent {
    /// Whether a cluster client could be created.
    ClientCreated(bool),
    /// The pod of the workspace, if one was found.
    PodLookedUp(Option<PodInfo>),
    /// Whether the user agreed to start the workspace.
    StartAnswered(bool),
    /// The start request was sent (its outcome is not looked at).
    StartRequested,
    /// Whether the workspace reached the awaited status in time.
    StatusWaited(bool),
    /// The editor was launched.
    EditorLaunched,
    /// The activity ticks stopped.
    HealthcheckEnded,
}

/// The abstract value of an [`OpenEvent`].
pub enum OpenEventView {
    ClientCreated(bool),
    PodLookedUp(Option<PodView>),
    StartAnswered(bool),
    StartRequested,
    StatusWaited(bool),
    EditorLaunched,
    HealthcheckEnded,
}

impl View for OpenEvent {
    type V = OpenEventView;

    open spec fn view(&self) -> OpenEventView {
        match self {
            OpenEvent::ClientCreated(b) => OpenEventView::ClientCreated(*b),
            OpenEvent::PodLookedUp(p) => OpenEventView::PodLookedUp(
                match p {
                    Some(pod) => Some(pod@),
                    None => None,
                },
            ),
            OpenEvent::StartAnswered(b) => OpenEventView::StartAnswered(*b),
            OpenEvent::StartRequested => OpenEventView::StartRequested,
            OpenEvent::StatusWaited(b) => OpenEventView::StatusWaited(*b),
            OpenEvent::EditorLaunched => OpenEventView::EditorLaunched,
            OpenEvent::HealthcheckEnded => OpenEventView::HealthcheckEnded,
        }
    }
}

/// The next step for the caller to perform.
pub enum OpenAction {
    /// Create a cluster client.
    CreateClient,
    /// Look for the pod of the workspace.
    FindPod { workspace_name: String, namespace: Option<String> },
    /// Ask the user whether the workspace should be started.
    AskToStart,
    /// Set the `started` flag of the workspace.
    StartWorkspace { workspace_name: String, namespace: Option<String>, running: bool },
    /// Wait until the workspace reports `status`, looking every `interval_ms`
    /// milliseconds at most `attempts` times.
    WaitForStatus {
        workspace_name: String,
        namespace: Option<String>,
        status: String,
        interval_ms: u64,
        attempts: u64,
    },
    /// Open the editor on this folder.
    LaunchEditor(OpenCode),
    /// Keep the workspace awake by ticking its activity endpoint.
    Healthcheck { pod_name: String, port: u16, namespace: Option<String> },
    /// Stop.
    Finish,
}

/// The abstract value of an [`OpenAction`].
pub enum OpenActionView {
    CreateClient,
    FindPod { workspace_name: Seq<char>, namespace: Option<Seq<char>> },
    AskToStart,
    StartWorkspace { workspace_name: Seq<char>, namespace: Option<Seq<char>>, running: bool },
    WaitForStatus {
        workspace_name: Seq<char>,
        namespace: Option<Seq<char>>,
        status: Seq<char>,
        interval_ms: u64,
        attempts: u64,
    },
    LaunchEditor(OpenCodeView),
    Healthcheck { pod_name: Seq<char>, port: u16, namespace: Option<Seq<char>> },
    Finish,
}

impl View for OpenAction {
    type V = OpenActionView;

    open spec fn view(&self) -> OpenActionView {
        match self {
            OpenAction::CreateClient => OpenActionView::CreateClient,
            OpenAction::FindPod { workspace_name, namespace } => OpenActionView::FindPod {
                workspace_name: workspace_name@,
                namespace: opt_view(*namespace),
            },
            OpenAction::AskToStart => OpenActionView::AskToStart,
            OpenAction::StartWorkspace { workspace_name, namespace, running } =>
                OpenActionView::StartWorkspace {
                workspace_name: workspace_name@,
                namespace: opt_view(*namespace),
                running: *running,
            },
            OpenAction::WaitForStatus { workspace_name, namespace, status, interval_ms, attempts } =>
                OpenActionView::WaitForStatus {
                workspace_name: workspace_name@,
                namespace: opt_view(*namespace),
                status: status@,
                interval_ms: *interval_ms,
                attempts: *attempts,
            },
            OpenAction::LaunchEditor(oc) => OpenActionView::LaunchEditor(oc@),
            OpenAction::Healthcheck { pod_name, port, namespace } => OpenActionView::Healthcheck {
                pod_name: pod_name@,
                port: *port,
                namespace: opt_view(*namespace),
            },
            OpenAction::Finish => OpenActionView::Finish,
        }
    }
}

/// `s` moved to `step`.
pub open spec fn at_step(s: OpenSessionView, step: OpenStep) -> OpenSessionView {
    OpenSessionView { step, ..s }
}

/// Stop the session.
pub open spec fn finish(s: OpenSessionView) -> (OpenSessionView, OpenActionView) {
    (at_step(s, OpenStep::Done), OpenActionView::Finish)
}

/// Look for the pod of the requested workspace.
pub open spec fn find_pod(s: OpenSessionView) -> OpenActionView {
    OpenActionView::FindPod { workspace_name: s.workspace_name, namespace: s.namespace }
}

/// The folder that the editor opens on container `container` of `pod`: the
/// image is the one of the pod's first container.
pub open spec fn editor_target(s: OpenSessionView, pod: PodView, container: Seq<char>) -> OpenCodeView {
    OpenCodeView {
        context: s.context,
        pod_name: pod.name,
        namespace: pod.namespace,
        container_name: Some(container),
        container_image: pod.containers->0[0].image,
        path: Some(s.path),
    }
}

/// What the session does with a pod that was found: open the editor on the
/// selected container, or stop when no container can be selected.
pub open spec fn on_pod(s: OpenSessionView, pod: PodView) -> (OpenSessionView, OpenActionView) {
    match selected_container(s.name, pod.containers->0) {
        Some(c) => (
            OpenSessionView {
                step: OpenStep::LaunchingEditor,
                pod_name: pod.name,
                pod_namespace: pod.namespace,
                ..s
            },
            OpenActionView::LaunchEditor(editor_target(s, pod, c)),
        ),
        None => finish(s),
    }
}

/// The decisions of an editor session: from the state and what the last step
/// reported, the next state and the next step. Any report that does not fit
/// the state stops the session.
pub open spec fn open_next(s: OpenSessionView, e: OpenEventView) -> (OpenSessionView, OpenActionView) {
    match s.step {
        OpenStep::AwaitingClient => match e {
            OpenEventView::ClientCreated(true) => (at_step(s, OpenStep::FindingPod), find_pod(s)),
            _ => finish(s),
        },
        OpenStep::FindingPod => match e {
            OpenEventView::PodLookedUp(Some(pod)) => on_pod(s, pod),
            OpenEventView::PodLookedUp(None) => (
                at_step(s, OpenStep::AskingToStart),
                OpenActionView::AskToStart,
            ),
            _ => finish(s),
        },
        OpenStep::AskingToStart => match e {
            OpenEventView::StartAnswered(true) => (
                at_step(s, OpenStep::StartingWorkspace),
                OpenActionView::StartWorkspace {
                    workspace_name: s.workspace_name,
                    namespace: s.namespace,
                    running: true,
                },
            ),
            _ => finish(s),
        },
        OpenStep::StartingWorkspace => match e {
            OpenEventView::StartRequested => (
                at_step(s, OpenStep::WaitingForRunning),
                OpenActionView::WaitForStatus {
                    workspace_name: s.workspace_name,
                    namespace: s.namespace,
                    status: "Running"@,
                    interval_ms: START_POLL_INTERVAL_MS,
                    attempts: START_POLL_ATTEMPTS,
                },
            ),
            _ => finish(s),
        },
        OpenStep::WaitingForRunning => match e {
            OpenEventView::StatusWaited(true) => (
                at_step(s, OpenStep::FindingStartedPod),
                find_pod(s),
            ),
            _ => finish(s),
        },
        OpenStep::FindingStartedPod => match e {
            OpenEventView::PodLookedUp(Some(pod)) => on_pod(s, pod),
            _ => finish(s),
        },
        OpenStep::LaunchingEditor => match e {
            OpenEventView::EditorLaunched => match s.pod_name {
                Some(pod_name) => (
                    at_step(s, OpenStep::CheckingHealth),
                    OpenActionView::Healthcheck {
                        pod_name,
                        port: s.port,
                        namespace: s.pod_namespace,
                    },
                ),
                None => finish(s),
            },
            _ => finish(s),
        },
        OpenStep::CheckingHealth => finish(s),
        OpenStep::Done => finish(s),
    }
}

/// A pod on which the editor can be opened without missing data: it has a
/// spec, and when a container is selected it has a name, a namespace and an
/// image on its first container.
pub open spec fn pod_can_open(target: Option<Seq<char>>, pod: PodView) -> bool {
    &&& pod.containers is Some
    &&& selected_container(target, pod.containers->0) is Some ==> {
        &&& pod.name is Some
        &&& pod.namespace is Some
        &&& pod.containers->0[0].image is Some
    }
}

/// The reports that the session can act on: a pod found while looking for one
/// must be complete enough to open the editor on.
pub open spec fn open_admissible(s: OpenSessionView, e: OpenEventView) -> bool {
    match e {
        OpenEventView::PodLookedUp(Some(pod)) => (s.step == OpenStep::FindingPod || s.step
            == OpenStep::FindingStartedPod) ==> pod_can_open(s.name, pod),
        _ => true,
    }
}

/// The position of a step in the order in which a session goes through them.
pub open spec fn step_rank(step: OpenStep) -> nat {
    match step {
        OpenStep::AwaitingClient => 0,
        OpenStep::FindingPod => 1,
        OpenStep::AskingToStart => 2,
        OpenStep::StartingWorkspace => 3,
        OpenStep::WaitingForRunning => 4,
        OpenStep::FindingStartedPod => 5,
        OpenStep::LaunchingEditor => 6,
        OpenStep::CheckingHealth => 7,
        OpenStep::Done => 8,
    }
}

/// Every report moves a session strictly forward through its steps, and a
/// finished session stays finished: a session ends after at most eight
/// reports, and in particular asks the user and starts the workspace at most
/// once.
pub proof fn lemma_open_session_progresses(s: OpenSessionView, e: OpenEventView)
    ensures
        s.step != OpenStep::Done ==> step_rank(open_next(s, e).0.step) > step_rank(s.step),
        s.step == OpenStep::Done ==> open_next(s, e) == finish(s),
{
}

/// The session stops exactly when it reaches its final step.
pub proof fn lemma_open_finishes_when_done(s: OpenSessionView, e: OpenEventView)
    ensures
        (open_next(s, e).1 is Finish) <==> open_next(s, e).0.step == OpenStep::Done,
{
}

/// The workspace is started only after no pod was found and the user agreed.
pub proof fn lemma_open_starts_only_with_consent(s: OpenSessionView, e: OpenEventView)
    ensures
        open_next(s, e).1 is StartWorkspace ==> s.step == OpenStep::AskingToStart && e
            == OpenEventView::StartAnswered(true),
        s.step == OpenStep::AskingToStart ==> open_next(s, e).0.step == OpenStep::AskingToStart
            || open_next(s, e).0.step == OpenStep::StartingWorkspace || open_next(s, e).0.step
            == OpenStep::Done,
{
}

/// The editor is opened only on a pod that was found, in the requested
/// container when one was named (and the pod has it), else in its first one.
pub proof fn lemma_open_editor_on_selected_container(s: OpenSessionView, e: OpenEventView)
    ensures
        open_next(s, e).1 matches OpenActionView::LaunchEditor(oc) ==> {
            &&& e matches OpenEventView::PodLookedUp(Some(pod))
            &&& oc.container_name == selected_container(s.name, pod.containers->0)
            &&& oc.pod_name == pod.name
            &&& oc.path == Some(s.path)
            &&& (s.name matches Some(n) ==> oc.container_name == Some(n)
                && crate::pod::has_container(pod.containers->0, n))
            &&& (s.name is None ==> oc.container_name == Some(pod.containers->0[0].name))
        },
{
}

/// Every step that a session hands over is about what was asked and what
/// was found: the pod lookups, the start and the wait name the requested
/// workspace and namespace; the editor opens in the requested Kubernetes
/// context, on the found pod's name and namespace, with the image of its
/// first container and the requested folder; the activity ticks go to the
/// requested port of the pod the editor was opened on.
pub proof fn lemma_open_actions_carry_request(s: OpenSessionView, e: OpenEventView)
    ensures
        open_next(s, e).1 matches OpenActionView::FindPod { workspace_name, namespace } ==> workspace_name
            == s.workspace_name && namespace == s.namespace,
        open_next(s, e).1 matches OpenActionView::StartWorkspace { workspace_name, namespace, running }
            ==> workspace_name == s.workspace_name && namespace == s.namespace && running,
        open_next(s, e).1 matches OpenActionView::WaitForStatus {
            workspace_name,
            namespace,
            status,
            interval_ms,
            attempts,
        } ==> workspace_name == s.workspace_name && namespace == s.namespace && status == "Running"@
            && interval_ms == 2000 && attempts == 150,
        open_next(s, e).1 matches OpenActionView::LaunchEditor(oc) ==> {
            &&& e matches OpenEventView::PodLookedUp(Some(pod))
            &&& oc.context == s.context
            &&& oc.pod_name == pod.name
            &&& oc.namespace == pod.namespace
            &&& oc.container_image == pod.containers->0[0].image
            &&& oc.path == Some(s.path)
            &&& open_next(s, e).0.pod_name == pod.name
            &&& open_next(s, e).0.pod_namespace == pod.namespace
        },
        open_next(s, e).1 matches OpenActionView::Healthcheck { pod_name, port, namespace } ==> s.pod_name
            == Some(pod_name) && port == s.port && namespace == s.pod_namespace,
        open_next(s, e).0.name == s.name && open_next(s, e).0.port == s.port && open_next(s, e).0.path
            == s.path && open_next(s, e).0.workspace_name == s.workspace_name && open_next(s, e).0.namespace
            == s.namespace && open_next(s, e).0.context == s.context,
{
}

/// A started workspace is awaited for five minutes: 150 looks, two seconds
/// apart.
pub proof fn lemma_start_wait_is_five_minutes()
    ensures
        START_POLL_INTERVAL_MS * START_POLL_ATTEMPTS == 5 * 60 * 1000,
{
}

/// Whether the editor can be opened on `pod` for the requested container
/// without missing data (see [`pod_can_open`]).
pub fn can_open_on(target: &Option<String>, pod: &PodInfo) -> (b: bool)
    ensures
        b == pod_can_open(opt_view(*target), pod@),
{
    match &pod.containers {
        Some(cs) => {
            let ghost cv = cs@.map_values(|c: ContainerInfo| c@);
            proof { crate::pod::lemma_selected_container_exists(opt_view(*target), cv); }
            match select_container(clone_opt(target), cs) {
                Some(_) => {
                    assert(cs.len() > 0);
                    pod.name.is_some() && pod.namespace.is_some() && cs[0].image.is_some()
                },
                None => true,
            }
        },
        None => false,
    }
}

impl Code {
    /// Begins an editor session for a workspace: the first step is to create
    /// a cluster client.
    pub fn open(
        name: Option<String>,
        port: u16,
        path: String,
        workspace_name: String,
        namespace: Option<String>,
        context: Option<String>,
    ) -> (r: (OpenSession, OpenAction))
        ensures
            r.0@ == (OpenSessionView {
                name: opt_view(name),
                port,
                path: path@,
                workspace_name: workspace_name@,
                namespace: opt_view(namespace),
                context: opt_view(context),
                step: OpenStep::AwaitingClient,
                pod_name: None,
                pod_namespace: None,
            }),
            r.1@ == OpenActionView::CreateClient,
    {
        (
            OpenSession {
                name,
                port,
                path,
                workspace_name,
                namespace,
                context,
                step: OpenStep::AwaitingClient,
                pod_name: None,
                pod_namespace: None,
            },
            OpenAction::CreateClient,
        )
    }
}

impl OpenSession {
    fn at(self, step: OpenStep) -> (r: OpenSession)
        ensures
            r@ == at_step(self@, step),
    {
        OpenSession { step, ..self }
    }

    fn finish(self) -> (r: (OpenSession, OpenAction))
        ensures
            (r.0@, r.1@) == finish(self@),
    {
        (self.at(OpenStep::Done), OpenAction::Finish)
    }

    fn find_pod(&self) -> (a: OpenAction)
        ensures
            a@ == find_pod(self@),
    {
        OpenAction::FindPod {
            workspace_name: self.workspace_name.clone(),
            namespace: clone_opt(&self.namespace),
        }
    }

    fn on_pod(self, pod: PodInfo) -> (r: (OpenSession, OpenAction))
        requires
            pod_can_open(self@.name, pod@),
        ensures
            (r.0@, r.1@) == on_pod(self@, pod@),
    {
        let PodInfo { name: pod_name, namespace: pod_namespace, labels: _, containers } = pod;
        let containers: Vec<ContainerInfo> = match containers {
            Some(cs) => cs,
            None => {
                return self.finish();
            },
        };
        let ghost cs = containers@.map_values(|c: ContainerInfo| c@);
        match select_container(clone_opt(&self.name), &containers) {
            Some(container_name) => {
                let image = clone_opt(&containers[0].image);
                assert(opt_view(image) == cs[0].image);
                let open_code = OpenCode {
                    context: clone_opt(&self.context),
                    pod_name: clone_opt(&pod_name),
                    namespace: clone_opt(&pod_namespace),
                    container_name: Some(container_name),
                    container_image: image,
                    path: Some(self.path.clone()),
                };
                (
                    OpenSession {
                        step: OpenStep::LaunchingEditor,
                        pod_name,
                        pod_namespace,
                        ..self
                    },
                    OpenAction::LaunchEditor(open_code),
                )
            },
            None => self.finish(),
        }
    }

    /// Advances the session with what the last step reported, and returns
    /// the new state with the next step to perform (see [`open_next`]).
    pub fn next(self, event: OpenEvent) -> (r: (OpenSession, OpenAction))
        requires
            open_admissible(self@, event@),
        ensures
            (r.0@, r.1@) == open_next(self@, event@),
    {
        match self.step {
            OpenStep::AwaitingClient => match event {
                OpenEvent::ClientCreated(true) => {
                    let a = self.find_pod();
                    (self.at(OpenStep::FindingPod), a)
                },
                _ => self.finish(),
            },
            OpenStep::FindingPod => match event {
                OpenEvent::PodLookedUp(Some(pod)) => self.on_pod(pod),
                OpenEvent::PodLookedUp(None) => (
                    self.at(OpenStep::AskingToStart),
                    OpenAction::AskToStart,
                ),
                _ => self.finish(),
            },
            OpenStep::AskingToStart => match event {
                OpenEvent::StartAnswered(true) => {
                    let a = OpenAction::StartWorkspace {
                        workspace_name: self.workspace_name.clone(),
                        namespace: clone_opt(&self.namespace),
                        running: true,
                    };
                    (self.at(OpenStep::StartingWorkspace), a)
                },
                _ => self.finish(),
            },
            OpenStep::StartingWorkspace => match event {
                OpenEvent::StartRequested => {
                    let a = OpenAction::WaitForStatus {
                        workspace_name: self.workspace_name.clone(),
                        namespace: clone_opt(&self.namespace),
                        status: String::from_str("Running"),
                        interval_ms: START_POLL_INTERVAL_MS,
                        attempts: START_POLL_ATTEMPTS,
                    };
                    (self.at(OpenStep::WaitingForRunning), a)
                },
                _ => self.finish(),
            },
            OpenStep::WaitingForRunning => match event {
                OpenEvent::StatusWaited(true) => {
                    let a = self.find_pod();
                    (self.at(OpenStep::FindingStartedPod), a)
                },
                _ => self.finish(),
            },
            OpenStep::FindingStartedPod => match event {
                OpenEvent::PodLookedUp(Some(pod)) => self.on_pod(pod),
                _ => self.finish(),
            },
            OpenStep::LaunchingEditor => match event {
                OpenEvent::EditorLaunched => match &self.pod_name {
                    Some(pod_name) => {
                        let a = OpenAction::Healthcheck {
                            pod_name: pod_name.clone(),
                            port: self.port,
                            namespace: clone_opt(&self.pod_namespace),
                        };
                        (self.at(OpenStep::CheckingHealth), a)
                    },
                    None => self.finish(),
                },
                _ => self.finish(),
            },
            OpenStep::CheckingHealth => self.finish(),
            OpenStep::Done => self.finish(),
        }
    }
}

} // verus!
