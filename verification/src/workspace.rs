//! The `workspaces` subcommand: what it reports of a workspace, its pod and
//! the workspaces of a namespace, and the decisions of starting a workspace.

use vstd::prelude::*;
use crate::code::{START_POLL_ATTEMPTS, START_POLL_INTERVAL_MS};
use crate::helper::{BaseInfo, BaseInfoView};
use crate::pod::{opt_view, ContainerInfo, ContainerView, PodInfo, PodView};
use crate::text::clone_opt;

verus! {

/// The output formats of the reports.
#[derive(Clone, Copy, PartialEq, Eq, Structural, Debug)]
pub enum Format {
    Json,
    Yaml,
}

/// The `workspaces` subcommand.
pub enum Workspace {
    /// The status of a workspace (the current one when run inside it).
    Get { format: Option<Format> },
    /// The containers of a workspace.
    GetContainer { format: Option<Format> },
    /// All workspaces.
    List { format: Option<Format> },
    /// Start a workspace by name.
    Start {},
    /// Stop a workspace by name.
    Stop {},
    /// Restart a workspace by name.
    Restart { wait: bool },
}

/// The report of `workspaces get`.
pub struct GetOutput {
    pub namespace: Option<String>,
    pub workspace_name: Option<String>,
    pub workspace_id: Option<String>,
    pub podname: Option<String>,
    pub is_in_pod: bool,
}

/// The report of `workspaces get-container`.
pub struct GetContainerOutput {
    pub namespace: Option<String>,
    pub workspace_name: Option<String>,
    pub workspace_id: Option<String>,
    pub podname: Option<String>,
    pub container: Vec<String>,
}

/// The abstract value of a [`GetContainerOutput`].
pub struct GetContainerOutputView {
    pub namespace: Option<Seq<char>>,
    pub workspace_name: Option<Seq<char>>,
    pub workspace_id: Option<Seq<char>>,
    pub podname: Option<Seq<char>>,
    pub container: Seq<Seq<char>>,
}

impl View for GetContainerOutput {
    type V = GetContainerOutputView;

    open spec fn view(&self) -> GetContainerOutputView {
        GetContainerOutputView {
            namespace: opt_view(self.namespace),
            workspace_name: opt_view(self.workspace_name),
            workspace_id: opt_view(self.workspace_id),
            podname: opt_view(self.podname),
            container: self.container@.map_values(|s: String| s@),
        }
    }
}

/// One line of the report of `workspaces list`.
pub struct ListOutput {
    pub namespace: Option<String>,
    pub workspace_name: Option<String>,
    pub workspace_id: Option<String>,
    pub status: Option<String>,
}

/// The abstract value of a [`ListOutput`].
pub struct ListOutputView {
    pub namespace: Option<Seq<char>>,
    pub workspace_name: Option<Seq<char>>,
    pub workspace_id: Option<Seq<char>>,
    pub status: Option<Seq<char>>,
}

impl View for ListOutput {
    type V = ListOutputView;

    open spec fn view(&self) -> ListOutputView {
        ListOutputView {
            namespace: opt_view(self.namespace),
            workspace_name: opt_view(self.workspace_name),
            workspace_id: opt_view(self.workspace_id),
            status: opt_view(self.status),
        }
    }
}

/// The status part of a DevWorkspace resource that the tool reads.
pub struct DevWorkspaceStatusInfo {
    pub devworkspace_id: String,
    pub phase: Option<String>,
}

/// A DevWorkspace resource as the tool sees it: its name and its status.
pub struct DevWorkspaceInfo {
    pub name: Option<String>,
    pub status: Option<DevWorkspaceStatusInfo>,
}

/// The abstract value of a DevWorkspace status.
pub struct DevWorkspaceStatusView {
    pub devworkspace_id: Seq<char>,
    pub phase: Option<Seq<char>>,
}

/// The abstract value of a [`DevWorkspaceInfo`].
pub struct DevWorkspaceView {
    pub name: Option<Seq<char>>,
    pub status: Option<DevWorkspaceStatusView>,
}

impl View for DevWorkspaceInfo {
    type V = DevWorkspaceView;

    open spec fn view(&self) -> DevWorkspaceView {
        DevWorkspaceView {
            name: opt_view(self.name),
            status: match self.status {
                Some(st) => Some(
                    DevWorkspaceStatusView {
                        devworkspace_id: st.devworkspace_id@,
                        phase: opt_view(st.phase),
                    },
                ),
                None => None,
            },
        }
    }
}

/// The label of a workspace pod that holds the workspace id.
pub open spec fn workspace_id_label() -> Seq<char> {
    "controller.devfile.io/devworkspace_id"@
}

/// The workspace id that `get-container` reports: the known one, else the
/// pod's id label, else the empty string.
pub open spec fn reported_workspace_id(b: BaseInfoView, pod: PodView) -> Seq<char> {
    match b.workspace_id {
        Some(id) => id,
        None => if pod.labels->0.contains_key(workspace_id_label()) {
            pod.labels->0[workspace_id_label()]
        } else {
            Seq::empty()
        },
    }
}

/// The report of `get-container`: the known namespace and workspace name,
/// the workspace id, the pod's name and the names of its containers in order.
pub open spec fn container_report(b: BaseInfoView, pod: PodView) -> GetContainerOutputView {
    GetContainerOutputView {
        namespace: b.namespace,
        workspace_name: b.workspace_name,
        workspace_id: Some(reported_workspace_id(b, pod)),
        podname: pod.name,
        container: pod.containers->0.map_values(|c: ContainerView| c.name),
    }
}

/// The pods that `get-container` can report on: they have a name and a
/// spec, and labels whenever the workspace id is not known already.
pub open spec fn container_report_possible(b: BaseInfoView, pod: PodView) -> bool {
    &&& pod.name is Some
    &&& pod.containers is Some
    &&& b.workspace_id is None ==> pod.labels is Some
}

/// The line that `list` reports for a workspace of the namespace `namespace`.
pub open spec fn list_entry(namespace: Option<Seq<char>>, ws: DevWorkspaceView) -> ListOutputView {
    ListOutputView {
        namespace,
        workspace_name: ws.name,
        workspace_id: Some(ws.status->0.devworkspace_id),
        status: ws.status->0.phase,
    }
}

/// The names of the containers, in order.
fn container_names(containers: &Vec<ContainerInfo>) -> (names: Vec<String>)
    ensures
        names@.map_values(|s: String| s@) == containers@.map_values(|c: ContainerInfo| c@).map_values(
            |c: ContainerView| c.name,
        ),
{
    let mut names: Vec<String> = Vec::new();
    let mut i: usize = 0;
    while i < containers.len()
        invariant
            i <= containers.len(),
            names.len() == i,
            forall|k: int| 0 <= k < i ==> (#[trigger] names@[k])@ == containers@[k].name@,
        decreases containers.len() - i,
    {
        names.push(containers[i].name.clone());
        i = i + 1;
    }
    assert(names@.map_values(|s: String| s@) =~= containers@.map_values(|c: ContainerInfo| c@).map_values(
        |c: ContainerView| c.name,
    ));
    names
}

/// Where the start of a workspace stands.
#[derive(Clone, Copy, PartialEq, Eq, Structural, Debug)]
pub enum StartStep {
    AwaitingClient,
    Starting,
    Waiting,
    Done,
}

/// How the start of a workspace ended.
#[derive(Clone, Copy, PartialEq, Eq, Structural, Debug)]
pub enum StartOutcome {
    /// No cluster client could be created.
    NoClient,
    /// The workspace could not be updated.
    NotStarted,
    /// The workspace was started; its status was not awaited.
    NotWaiting,
    /// The workspace was started and reached the running status.
    Started,
    /// The workspace was started but did not reach the running status in time.
    DidNotStart,
    /// A report came that did not fit the step.
    Interrupted,
}

/// The state of the start of a workspace.
pub struct StartSession {
    pub workspace_name: Option<String>,
    pub namespace: Option<String>,
    pub wait: bool,
    pub step: StartStep,
}

/// The abstract value of a [`StartSession`].
pub struct StartSessionView {
    pub workspace_name: Option<Seq<char>>,
    pub namespace: Option<Seq<char>>,
    pub wait: bool,
    pub step: StartStep,
}

impl View for StartSession {
    type V = StartSessionView;

    open spec fn view(&self) -> StartSessionView {
        StartSessionView {
            workspace_name: opt_view(self.workspace_name),
            namespace: opt_view(self.namespace),
            wait: self.wait,
            step: self.step,
        }
    }
}

/// What the last step of a start reported.
#[derive(Clone, Copy, PartialEq, Eq, Structural, Debug)]
pub enum StartEvent {
    /// Whether a cluster client could be created.
    ClientCreated(bool),
    /// Whether the workspace accepted the update of its `started` flag.
    StartSent(bool),
    /// Whether the workspace reached the awaited status in time.
    StatusWaited(bool),
}

/// The next step of a start for the caller to perform.
pub enum StartAction {
    /// Create a cluster client.
    CreateClient,
    /// Set the `started` flag of the workspace.
    StartWorkspace { workspace_name: String, namespace: Option<String>, running: bool },
    /// Wait until the workspace reports `status`, looking every `interval_ms`
    /// milliseconds at most `attempts` times.
    WaitForStatus {
        workspace_name: String,
        namespace: Option<String>,
        status: String,
        interval_ms: u64,
        attempts: u64,
    },
    /// Stop, reporting the outcome.
    Finish(StartOutcome),
}

/// The abstract value of a [`StartAction`].
pub enum StartActionView {
    CreateClient,
    StartWorkspace { workspace_name: Seq<char>, namespace: Option<Seq<char>>, running: bool },
    WaitForStatus {
        workspace_name: Seq<char>,
        namespace: Option<Seq<char>>,
        status: Seq<char>,
        interval_ms: u64,
        attempts: u64,
    },
    Finish(StartOutcome),
}

impl View for StartAction {
    type V = StartActionView;

    open spec fn view(&self) -> StartActionView {
        match self {
            StartAction::CreateClient => StartActionView::CreateClient,
            StartAction::StartWorkspace { workspace_name, namespace, running } =>
                StartActionView::StartWorkspace {
                workspace_name: workspace_name@,
                namespace: opt_view(*namespace),
                running: *running,
            },
            StartAction::WaitForStatus { workspace_name, namespace, status, interval_ms, attempts } =>
                StartActionView::WaitForStatus {
                workspace_name: workspace_name@,
                namespace: opt_view(*namespace),
                status: status@,
                interval_ms: *interval_ms,
                attempts: *attempts,
            },
            StartAction::Finish(o) => StartActionView::Finish(*o),
        }
    }
}

/// Stop the start with `outcome`.
pub open spec fn start_finish(s: StartSessionView, outcome: StartOutcome) -> (StartSessionView, StartActionView) {
    (StartSessionView { step: StartStep::Done, ..s }, StartActionView::Finish(outcome))
}

/// The decisions of starting a workspace: create a client, set the
/// workspace's `started` flag, then, only when asked to, wait up to five
/// minutes for it to run.
pub open spec fn start_next(s: StartSessionView, e: StartEvent) -> (StartSessionView, StartActionView) {
    match (s.step, e) {
        (StartStep::AwaitingClient, StartEvent::ClientCreated(true)) => (
            StartSessionView { step: StartStep::Starting, ..s },
            StartActionView::StartWorkspace {
                workspace_name: s.workspace_name->0,
                namespace: s.namespace,
                running: true,
            },
        ),
        (StartStep::AwaitingClient, StartEvent::ClientCreated(false)) => start_finish(
            s,
            StartOutcome::NoClient,
        ),
        (StartStep::Starting, StartEvent::StartSent(true)) => if s.wait {
            (
                StartSessionView { step: StartStep::Waiting, ..s },
                StartActionView::WaitForStatus {
                    workspace_name: s.workspace_name->0,
                    namespace: s.namespace,
                    status: "Running"@,
                    interval_ms: START_POLL_INTERVAL_MS,
                    attempts: START_POLL_ATTEMPTS,
                },
            )
        } else {
            start_finish(s, StartOutcome::NotWaiting)
        },
        (StartStep::Starting, StartEvent::StartSent(false)) => start_finish(
            s,
            StartOutcome::NotStarted,
        ),
        (StartStep::Waiting, StartEvent::StatusWaited(true)) => start_finish(s, StartOutcome::Started),
        (StartStep::Waiting, StartEvent::StatusWaited(false)) => start_finish(
            s,
            StartOutcome::DidNotStart,
        ),
        _ => start_finish(s, StartOutcome::Interrupted),
    }
}

/// The reports that a start can act on: once a client exists the workspace
/// must have a name.
pub open spec fn start_admissible(s: StartSessionView, e: StartEvent) -> bool {
    (s.step == StartStep::AwaitingClient && e == StartEvent::ClientCreated(true)) ==> s.workspace_name is Some
}

impl StartSession {
    /// Once the client exists and until the start ends, the workspace name
    /// is known.
    pub open spec fn wf(&self) -> bool {
        (self.step == StartStep::Starting || self.step == StartStep::Waiting) ==> self.workspace_name is Some
    }

    fn done(self, outcome: StartOutcome) -> (r: (StartSession, StartAction))
        ensures
            (r.0@, r.1@) == start_finish(self@, outcome),
    {
        (StartSession { step: StartStep::Done, ..self }, StartAction::Finish(outcome))
    }

    fn name(&self) -> (n: String)
        requires
            self.workspace_name is Some,
        ensures
            n@ == self@.workspace_name->0,
    {
        match &self.workspace_name {
            Some(n) => n.clone(),
            None => String::new(),
        }
    }

    /// Advances the start with what the last step reported (see
    /// [`start_next`]).
    pub fn next(self, event: StartEvent) -> (r: (StartSession, StartAction))
        requires
            self.wf(),
            start_admissible(self@, event),
        ensures
            r.0.wf(),
            (r.0@, r.1@) == start_next(self@, event),
    {
        match (self.step, event) {
            (StartStep::AwaitingClient, StartEvent::ClientCreated(true)) => {
                let a = StartAction::StartWorkspace {
                    workspace_name: self.name(),
                    namespace: clone_opt(&self.namespace),
                    running: true,
                };
                (StartSession { step: StartStep::Starting, ..self }, a)
            },
            (StartStep::AwaitingClient, StartEvent::ClientCreated(false)) => self.done(
                StartOutcome::NoClient,
            ),
            (StartStep::Starting, StartEvent::StartSent(true)) => {
                if self.wait {
                    let a = StartAction::WaitForStatus {
                        workspace_name: self.name(),
                        namespace: clone_opt(&self.namespace),
                        status: String::from_str("Running"),
                        interval_ms: START_POLL_INTERVAL_MS,
                        attempts: START_POLL_ATTEMPTS,
                    };
                    (StartSession { step: StartStep::Waiting, ..self }, a)
                } else {
                    self.done(StartOutcome::NotWaiting)
                }
            },
            (StartStep::Starting, StartEvent::StartSent(false)) => self.done(StartOutcome::NotStarted),
            (StartStep::Waiting, StartEvent::StatusWaited(true)) => self.done(StartOutcome::Started),
            (StartStep::Waiting, StartEvent::StatusWaited(false)) => self.done(
                StartOutcome::DidNotStart,
            ),
            _ => self.done(StartOutcome::Interrupted),
        }
    }
}

/// Each line of the `list` report describes its own workspace unchanged: the
/// given namespace, the workspace's name, its id and its phase.
pub proof fn lemma_list_entry_reports_workspace(namespace: Option<Seq<char>>, ws: DevWorkspaceView)
    requires
        ws.status is Some,
    ensures
        list_entry(namespace, ws).namespace == namespace,
        list_entry(namespace, ws).workspace_name == ws.name,
        list_entry(namespace, ws).workspace_id == Some(ws.status->0.devworkspace_id),
        list_entry(namespace, ws).status == ws.status->0.phase,
{
}

/// The start request and the wait of a start are about the workspace and
/// namespace it was asked for, and the wait is for the running status during
/// five minutes.
pub proof fn lemma_start_actions_target_workspace(s: StartSessionView, e: StartEvent)
    requires
        start_admissible(s, e),
        (s.step == StartStep::Starting || s.step == StartStep::Waiting) ==> s.workspace_name is Some,
    ensures
        start_next(s, e).1 matches StartActionView::StartWorkspace { workspace_name, namespace, running }
            ==> Some(workspace_name) == s.workspace_name && namespace == s.namespace && running,
        start_next(s, e).1 matches StartActionView::WaitForStatus {
            workspace_name,
            namespace,
            status,
            interval_ms,
            attempts,
        } ==> Some(workspace_name) == s.workspace_name && namespace == s.namespace && status
            == "Running"@ && interval_ms == 2000 && attempts == 150,
        start_next(s, e).0.workspace_name == s.workspace_name && start_next(s, e).0.namespace
            == s.namespace && start_next(s, e).0.wait == s.wait,
{
}

/// Waiting is asked for only when the start was asked to wait, and a start
/// that was not asked to wait ends as soon as the workspace accepted it.
pub proof fn lemma_start_waits_only_when_asked(s: StartSessionView, e: StartEvent)
    ensures
        start_next(s, e).1 is WaitForStatus ==> s.wait,
        !s.wait && s.step == StartStep::Starting && e == StartEvent::StartSent(true)
            ==> start_next(s, e).1 == StartActionView::Finish(StartOutcome::NotWaiting),
{
}

/// Every report moves a start forward, and a finished start stays finished.
pub proof fn lemma_start_progresses(s: StartSessionView, e: StartEvent)
    ensures
        s.step == StartStep::AwaitingClient ==> start_next(s, e).0.step != StartStep::AwaitingClient,
        s.step == StartStep::Starting ==> start_next(s, e).0.step == StartStep::Waiting
            || start_next(s, e).0.step == StartStep::Done,
        s.step == StartStep::Waiting || s.step == StartStep::Done ==> start_next(s, e).0.step
            == StartStep::Done,
        (start_next(s, e).1 is Finish) <==> start_next(s, e).0.step == StartStep::Done,
{
}

impl Workspace {
    /// The report of `get-container` for the workspace described by
    /// `base_info`, whose pod is `pod`.
    pub fn container_output(base_info: BaseInfo, pod: PodInfo) -> (out: GetContainerOutput)
        requires
            pod.wf(),
            container_report_possible(base_info@, pod@),
        ensures
            out@ == container_report(base_info@, pod@),
    {
        let ghost b = base_info@;
        let ghost p = pod@;
        let PodInfo { name, namespace: _, labels, containers } = pod;
        let id = match base_info.workspace_id {
            Some(id) => id,
            None => {
                let key = String::from_str("controller.devfile.io/devworkspace_id");
                let found = match &labels {
                    Some(l) => l.get(&key),
                    None => None,
                };
                match found {
                    Some(id) => id,
                    None => String::new(),
                }
            },
        };
        let container = match &containers {
            Some(cs) => container_names(cs),
            None => Vec::new(),
        };
        let out = GetContainerOutput {
            namespace: base_info.namespace,
            workspace_name: base_info.workspace_name,
            workspace_id: Some(id),
            podname: name,
            container,
        };
        assert(out@.container =~= container_report(b, p).container);
        out
    }

    /// The report of `list`: one line per workspace, in order, each with the
    /// namespace of `base_info`.
    pub fn list_output(base_info: &BaseInfo, workspaces: Vec<DevWorkspaceInfo>) -> (out: Vec<ListOutput>)
        requires
            forall|i: int| 0 <= i < workspaces.len() ==> (#[trigger] workspaces@[i]).status is Some,
        ensures
            out@.len() == workspaces@.len(),
            forall|i: int|
                0 <= i < out@.len() ==> (#[trigger] out@[i])@ == list_entry(
                    base_info@.namespace,
                    workspaces@[i]@,
                ),
    {
        let mut out: Vec<ListOutput> = Vec::new();
        let mut i: usize = 0;
        while i < workspaces.len()
            invariant
                i <= workspaces.len(),
                forall|k: int| 0 <= k < workspaces.len() ==> (#[trigger] workspaces@[k]).status is Some,
                out@.len() == i,
                forall|k: int|
                    0 <= k < i ==> (#[trigger] out@[k])@ == list_entry(
                        base_info@.namespace,
                        workspaces@[k]@,
                    ),
            decreases workspaces.len() - i,
        {
            let ws = &workspaces[i];
            let (id, phase) = match &ws.status {
                Some(st) => (st.devworkspace_id.clone(), clone_opt(&st.phase)),
                None => (String::new(), None),
            };
            out.push(
                ListOutput {
                    namespace: clone_opt(&base_info.namespace),
                    workspace_name: clone_opt(&ws.name),
                    workspace_id: Some(id),
                    status: phase,
                },
            );
            i = i + 1;
        }
        out
    }

    /// Begins starting the workspace of `base_info`, waiting for it to run
    /// when `wait` is set: the first step is to create a cluster client.
    pub fn start(base_info: BaseInfo, wait: bool) -> (r: (StartSession, StartAction))
        ensures
            r.0@ == (StartSessionView {
                workspace_name: base_info@.workspace_name,
                namespace: base_info@.namespace,
                wait,
                step: StartStep::AwaitingClient,
            }),
            r.1@ == StartActionView::CreateClient,
            r.0.wf(),
    {
        (
            StartSession {
                workspace_name: base_info.workspace_name,
                namespace: base_info.namespace,
                wait,
                step: StartStep::AwaitingClient,
            },
            StartAction::CreateClient,
        )
    }
}

impl BaseInfo {
    /// `self` with the workspace id taken from the status of the workspace
    /// resource.
    pub fn with_workspace_status(self, workspace: &DevWorkspaceInfo) -> (r: BaseInfo)
        requires
            workspace.status is Some,
        ensures
            r@ == (BaseInfoView {
                workspace_id: Some(workspace@.status->0.devworkspace_id),
                ..self@
            }),
    {
        let id = match &workspace.status {
            Some(st) => st.devworkspace_id.clone(),
            None => String::new(),
        };
        BaseInfo { workspace_id: Some(id), ..self }
    }
}

} // verus!
