//! The parts of a Kubernetes pod that the tool reads, and the choice of the
//! container to work in.

use vstd::prelude::*;
use crate::string_map::StringMap;

verus! {

/// A container of a pod: its name and, when set, its image.
pub struct ContainerInfo {
    pub name: String,
    pub image: Option<String>,
}

/// The abstract value of a container.
pub struct ContainerView {
    pub name: Seq<char>,
    pub image: Option<Seq<char>>,
}

/// The view of an optional string.
pub open spec fn opt_view(s: Option<String>) -> Option<Seq<char>> {
    match s {
        Some(v) => Some(v@),
        None => None,
    }
}

impl View for ContainerInfo {
    type V = ContainerView;

    open spec fn view(&self) -> ContainerView {
        ContainerView { name: self.name@, image: opt_view(self.image) }
    }
}

/// A pod as the tool sees it: its name, namespace and labels from the
/// metadata, and the containers of its spec (`None` when the pod has no spec).
pub struct PodInfo {
    pub name: Option<String>,
    pub namespace: Option<String>,
    pub labels: Option<StringMap>,
    pub containers: Option<Vec<ContainerInfo>>,
}

/// The abstract value of a pod.
pub struct PodView {
    pub name: Option<Seq<char>>,
    pub namespace: Option<Seq<char>>,
    pub labels: Option<Map<Seq<char>, Seq<char>>>,
    pub containers: Option<Seq<ContainerView>>,
}

impl View for PodInfo {
    type V = PodView;

    open spec fn view(&self) -> PodView {
        PodView {
            name: opt_view(self.name),
            namespace: opt_view(self.namespace),
            labels: match self.labels {
                Some(m) => Some(m@),
                None => None,
            },
            containers: match self.containers {
                Some(cs) => Some(cs@.map_values(|c: ContainerInfo| c@)),
                None => None,
            },
        }
    }
}

impl PodInfo {
    /// The label map, when present, satisfies its representation invariant.
    pub open spec fn wf(&self) -> bool {
        self.labels matches Some(m) ==> m.wf()
    }
}

/// Whether some container of `containers` is called `name`.
pub open spec fn has_container(containers: Seq<ContainerView>, name: Seq<char>) -> bool {
    exists|i: int| 0 <= i < containers.len() && #[trigger] containers[i].name == name
}

/// The container to work in: the requested one when the pod has it, the
/// first container when none is requested, and nothing otherwise.
pub open spec fn selected_container(
    target: Option<Seq<char>>,
    containers: Seq<ContainerView>,
) -> Option<Seq<char>> {
    match target {
        Some(name) => if has_container(containers, name) {
            Some(name)
        } else {
            None
        },
        None => if containers.len() > 0 {
            Some(containers[0].name)
        } else {
            None
        },
    }
}

/// A selected container is always one of the pod's containers, and the
/// requested one when a name was given.
pub proof fn lemma_selected_container_exists(target: Option<Seq<char>>, containers: Seq<ContainerView>)
    ensures
        selected_container(target, containers) matches Some(n) ==> has_container(containers, n),
        target is Some && selected_container(target, containers) is Some ==> selected_container(
            target,
            containers,
        ) == target,
        target is None ==> (selected_container(target, containers) is Some <==> containers.len() > 0),
{
    if target is None && containers.len() > 0 {
        assert(containers[0].name == containers[0].name);
    }
}

/// The container choice over all inputs: a named container that the pod has
/// (at any position) is chosen; a named container it lacks is refused;
/// without a name the first container is chosen, and nothing when there is
/// none.
pub proof fn lemma_select_container_law(target: Option<Seq<char>>, containers: Seq<ContainerView>)
    ensures
        target matches Some(n) && (exists|i: int| 0 <= i < containers.len() && containers[i].name == n)
            ==> selected_container(target, containers) == target,
        forall|n: Seq<char>, i: int|
            #![trigger containers[i], selected_container(Some(n), containers)]
            0 <= i < containers.len() && containers[i].name == n ==> selected_container(
                Some(n),
                containers,
            ) == Some(n),
        forall|n: Seq<char>|
            (forall|i: int| 0 <= i < containers.len() ==> containers[i].name != n)
                ==> #[trigger] selected_container(Some(n), containers) is None,
        target is None && containers.len() > 0 ==> selected_container(target, containers) == Some(
            containers[0].name,
        ),
        target is None && containers.len() == 0 ==> selected_container(target, containers) is None,
        selected_container(target, containers) matches Some(m) ==> exists|i: int|
            0 <= i < containers.len() && containers[i].name == m,
{
    if target is None && containers.len() > 0 {
        assert(containers[0].name == containers[0].name);
    }
}

/// Whether a container of `containers` has the name `name`.
fn contains_container(containers: &Vec<ContainerInfo>, name: &String) -> (b: bool)
    ensures
        b == has_container(containers@.map_values(|c: ContainerInfo| c@), name@),
{
    let ghost cs = containers@.map_values(|c: ContainerInfo| c@);
    let mut i: usize = 0;
    while i < containers.len()
        invariant
            i <= containers.len(),
            cs == containers@.map_values(|c: ContainerInfo| c@),
            forall|j: int| 0 <= j < i ==> cs[j].name != name@,
        decreases containers.len() - i,
    {
        if containers[i].name == *name {
            assert(cs[i as int].name == name@);
            return true;
        }
        i = i + 1;
    }
    false
}

/// The container to work in among `containers` (see [`selected_container`]).
pub fn select_container(target_name: Option<String>, containers: &Vec<ContainerInfo>) -> (r: Option<String>)
    ensures
        opt_view(r) == selected_container(
            opt_view(target_name),
            containers@.map_values(|c: ContainerInfo| c@),
        ),
{
    match target_name {
        Some(container_named) => {
            if !contains_container(containers, &container_named) {
                return None;
            }
            Some(container_named)
        },
        None => {
            if containers.len() > 0 {
                Some(containers[0].name.clone())
            } else {
                None
            }
        },
    }
}

/// Chooses the container of `pod` to work in: `target_name` when the pod has
/// a container of that name, else the first container when no name is given.
/// Returns `None` when the named container is missing or the pod has none.
pub fn select_pod(target_name: Option<String>, pod: PodInfo) -> (r: Option<String>)
    requires
        pod.containers is Some,
    ensures
        opt_view(r) == selected_container(opt_view(target_name), pod@.containers->0),
{
    match pod.containers {
        Some(containers) => select_container(target_name, &containers),
        None => None,
    }
}

} // verus!
