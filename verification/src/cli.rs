//! The commands, and the run of a command as a machine: each step takes what
//! the caller found out and says what to do next.

use vstd::prelude::*;
use vstd::string::*;
use crate::clock::{now, ClockReading, ClockReadingView};
use crate::requests::{
    get_pod_container_logs, log_requests, restart_deployment, restart_request, LogRequest,
    LogRequestView, PatchRequest, PatchRequestView,
};
use crate::resources::{
    all_created, copy_strings, creation_recorded, default_namespace, deployment_name_seq,
    deployment_names, deployment_rows, get_pod_containers, namespace_or_default, pod_name_seq,
    pod_names, resolve_namespace, table_rows, DeploymentInfo, DeploymentView, PodInfo, PodView,
};

verus! {

/// The commands of the client.
#[derive(Clone, Copy, Debug, PartialEq, Eq, Structural)]
pub enum SubCommands {
    /// Get a list of namespaces
    GetNamespaces,
    /// Get a list of pods
    GetPods,
    /// Get a list of deployments
    GetDeployments,
    /// Restart a deployment
    RestartDeployment,
    /// Logs for a pod container
    Logs,
    /// Delete a pod
    DeletePod,
    /// Delete a deployment
    DeleteDeployment,
}

/// One invocation of the client: the command that was asked for.
#[derive(Clone, Copy, Debug, PartialEq, Eq, Structural)]
pub struct Cli {
    pub subcmd: SubCommands,
}

/// What the caller is to do next.
#[derive(Clone, Debug, PartialEq, Eq)]
pub enum Action {
    /// List the namespaces of the cluster.
    ListNamespaces,
    /// List the pods of `namespace`.
    ListPods { namespace: String },
    /// List the deployments of `namespace`.
    ListDeployments { namespace: String },
    /// Offer `items` under `prompt`, with the item at `default` marked, and
    /// take one choice.
    Select { prompt: String, items: Vec<String>, default: usize },
    /// Show each of the logs asked for, one after the other, to its end.
    StreamLogs { requests: Vec<LogRequest> },
    /// Send the patch.
    Patch { request: PatchRequest },
    /// Print each of `lines` on a line of its own.
    Print { lines: Vec<String> },
    /// Nothing is left to do.
    Exit,
}

/// The mathematical content of an [`Action`].
pub enum ActionView {
    ListNamespaces,
    ListPods { namespace: Seq<char> },
    ListDeployments { namespace: Seq<char> },
    Select { prompt: Seq<char>, items: Seq<Seq<char>>, default: nat },
    StreamLogs { requests: Seq<LogRequestView> },
    Patch { request: PatchRequestView },
    Print { lines: Seq<Seq<char>> },
    Exit,
}

impl View for Action {
    type V = ActionView;

    open spec fn view(&self) -> ActionView {
        match self {
            Action::ListNamespaces => ActionView::ListNamespaces,
            Action::ListPods { namespace } => ActionView::ListPods { namespace: namespace@ },
            Action::ListDeployments { namespace } => ActionView::ListDeployments {
                namespace: namespace@,
            },
            Action::Select { prompt, items, default } => ActionView::Select {
                prompt: prompt@,
                items: items.deep_view(),
                default: *default as nat,
            },
            Action::StreamLogs { requests } => ActionView::StreamLogs {
                requests: requests.deep_view(),
            },
            Action::Patch { request } => ActionView::Patch { request: request@ },
            Action::Print { lines } => ActionView::Print { lines: lines.deep_view() },
            Action::Exit => ActionView::Exit,
        }
    }
}

/// What the caller found out by doing the last action.
#[derive(Clone, Debug, PartialEq, Eq)]
pub enum Event {
    /// The names of the namespaces that were listed.
    Namespaces { names: Vec<String> },
    /// The pods that were listed.
    Pods { pods: Vec<PodInfo> },
    /// The deployments that were listed.
    Deployments { deployments: Vec<DeploymentInfo> },
    /// The place, among the items offered, of the one that was chosen.
    Selected { index: usize },
    /// The action is done, and there is nothing to tell.
    Done,
}

/// The mathematical content of an [`Event`].
pub enum EventView {
    Namespaces { names: Seq<Seq<char>> },
    Pods { pods: Seq<PodView> },
    Deployments { deployments: Seq<DeploymentView> },
    Selected { index: nat },
    Done,
}

impl View for Event {
    type V = EventView;

    open spec fn view(&self) -> EventView {
        match self {
            Event::Namespaces { names } => EventView::Namespaces { names: names.deep_view() },
            Event::Pods { pods } => EventView::Pods { pods: pods.deep_view() },
            Event::Deployments { deployments } => EventView::Deployments {
                deployments: deployments.deep_view(),
            },
            Event::Selected { index } => EventView::Selected { index: *index as nat },
            Event::Done => EventView::Done,
        }
    }
}

/// Where the run of a command stands: what it waits for, and what it keeps
/// until then.
#[derive(Clone, Debug, PartialEq, Eq)]
pub enum RunState {
    /// `get-namespaces` waits for the namespaces.
    ListingNamespaces,
    /// `get-pods` waits for the pods.
    ListingPods,
    /// `get-deployments` waits for the deployments.
    ListingDeployments,
    /// `logs` waits for the pods to choose from.
    ListingPodsForLogs,
    /// `logs` waits for the choice of a pod among `pods`.
    ChoosingPod { pods: Vec<PodInfo> },
    /// `logs` waits for the choice of a container of `pod` among `containers`.
    ChoosingContainer { pod: PodInfo, containers: Vec<String> },
    /// `logs` waits for the pods that the namespace of `pod` holds at present.
    LocatingPod { pod: PodInfo, container: String },
    /// `restart-deployment` waits for the deployments to choose from.
    ListingDeploymentsForRestart,
    /// `restart-deployment` waits for the choice of one of `deployments`.
    ChoosingDeployment { deployments: Vec<DeploymentInfo> },
    /// The last action is under way.
    Finishing,
    /// The run is over.
    Finished,
}

/// The mathematical content of a [`RunState`].
pub enum RunStateView {
    ListingNamespaces,
    ListingPods,
    ListingDeployments,
    ListingPodsForLogs,
    ChoosingPod { pods: Seq<PodView> },
    ChoosingContainer { pod: PodView, containers: Seq<Seq<char>> },
    LocatingPod { pod: PodView, container: Seq<char> },
    ListingDeploymentsForRestart,
    ChoosingDeployment { deployments: Seq<DeploymentView> },
    Finishing,
    Finished,
}

impl View for RunState {
    type V = RunStateView;

    open spec fn view(&self) -> RunStateView {
        match self {
            RunState::ListingNamespaces => RunStateView::ListingNamespaces,
            RunState::ListingPods => RunStateView::ListingPods,
            RunState::ListingDeployments => RunStateView::ListingDeployments,
            RunState::ListingPodsForLogs => RunStateView::ListingPodsForLogs,
            RunState::ChoosingPod { pods } => RunStateView::ChoosingPod { pods: pods.deep_view() },
            RunState::ChoosingContainer { pod, containers } => RunStateView::ChoosingContainer {
                pod: pod@,
                containers: containers.deep_view(),
            },
            RunState::LocatingPod { pod, container } => RunStateView::LocatingPod {
                pod: pod@,
                container: container@,
            },
            RunState::ListingDeploymentsForRestart => RunStateView::ListingDeploymentsForRestart,
            RunState::ChoosingDeployment { deployments } => RunStateView::ChoosingDeployment {
                deployments: deployments.deep_view(),
            },
            RunState::Finishing => RunStateView::Finishing,
            RunState::Finished => RunStateView::Finished,
        }
    }
}

/// One step of a run: the state it leads to, and the action to take there.
#[derive(Clone, Debug, PartialEq, Eq)]
pub struct Step {
    pub state: RunState,
    pub action: Action,
}

/// The mathematical content of a [`Step`].
pub struct StepView {
    pub state: RunStateView,
    pub action: ActionView,
}

impl View for Step {
    type V = StepView;

    open spec fn view(&self) -> StepView {
        StepView { state: self.state@, action: self.action@ }
    }
}

/// The line that `delete-pod` prints.
pub open spec fn delete_pod_notice() -> Seq<char> {
    "Deleting a pod"@
}

/// The line that `delete-deployment` prints.
pub open spec fn delete_deployment_notice() -> Seq<char> {
    "Deleting a deployment"@
}

/// The prompt of the menu of pods.
pub open spec fn pod_prompt() -> Seq<char> {
    "Select a pod"@
}

/// The prompt of the menu of containers.
pub open spec fn container_prompt() -> Seq<char> {
    "Select a container"@
}

/// The prompt of the menu of deployments.
pub open spec fn deployment_prompt() -> Seq<char> {
    "Select a deployment to restart"@
}

/// The first step of each command. The three that list, and the two that
/// choose from a list, ask for the resources of the namespace `default`; the
/// two that delete print their notice and ask nothing of the cluster.
pub open spec fn first_step(subcmd: SubCommands) -> StepView {
    match subcmd {
        SubCommands::GetNamespaces => StepView {
            state: RunStateView::ListingNamespaces,
            action: ActionView::ListNamespaces,
        },
        SubCommands::GetPods => StepView {
            state: RunStateView::ListingPods,
            action: ActionView::ListPods { namespace: default_namespace() },
        },
        SubCommands::GetDeployments => StepView {
            state: RunStateView::ListingDeployments,
            action: ActionView::ListDeployments { namespace: default_namespace() },
        },
        SubCommands::RestartDeployment => StepView {
            state: RunStateView::ListingDeploymentsForRestart,
            action: ActionView::ListDeployments { namespace: default_namespace() },
        },
        SubCommands::Logs => StepView {
            state: RunStateView::ListingPodsForLogs,
            action: ActionView::ListPods { namespace: default_namespace() },
        },
        SubCommands::DeletePod => StepView {
            state: RunStateView::Finishing,
            action: ActionView::Print { lines: seq![delete_pod_notice()] },
        },
        SubCommands::DeleteDeployment => StepView {
            state: RunStateView::Finishing,
            action: ActionView::Print { lines: seq![delete_deployment_notice()] },
        },
    }
}

impl ActionView {
    /// Whether `event` is what can come of doing this action: the list that
    /// was asked for, a choice among the items that were offered, or the
    /// plain end of an action that finds nothing out.
    pub open spec fn answered_by(self, event: EventView) -> bool {
        match self {
            ActionView::ListNamespaces => event is Namespaces,
            ActionView::ListPods { namespace } => event is Pods,
            ActionView::ListDeployments { namespace } => event is Deployments,
            ActionView::Select { prompt, items, default } => {
                &&& event matches EventView::Selected { index }
                &&& index < items.len()
            },
            ActionView::StreamLogs { requests } => event is Done,
            ActionView::Patch { request } => event is Done,
            ActionView::Print { lines } => event is Done,
            ActionView::Exit => false,
        }
    }
}

impl RunStateView {
    /// The two answers on which a run breaks off: the choice of a pod that
    /// has no spec, whose containers cannot be offered, and a list of
    /// deployments of which one has no creation recorded, whose age cannot
    /// be shown.
    pub open spec fn breaks_off_on(self, event: EventView) -> bool {
        match (self, event) {
            (RunStateView::ChoosingPod { pods }, EventView::Selected { index }) => {
                index < pods.len() && pods[index as int].containers is None
            },
            (
                RunStateView::ListingDeploymentsForRestart,
                EventView::Deployments { deployments },
            ) => !all_created(deployments),
            _ => false,
        }
    }

    /// An upper bound on the steps that a run in this state has before it.
    pub open spec fn steps_left(self) -> nat {
        match self {
            RunStateView::ListingNamespaces => 2,
            RunStateView::ListingPods => 2,
            RunStateView::ListingDeployments => 2,
            RunStateView::ListingPodsForLogs => 5,
            RunStateView::ChoosingPod { pods } => 4,
            RunStateView::ChoosingContainer { pod, containers } => 3,
            RunStateView::LocatingPod { pod, container } => 2,
            RunStateView::ListingDeploymentsForRestart => 3,
            RunStateView::ChoosingDeployment { deployments } => 2,
            RunStateView::Finishing => 1,
            RunStateView::Finished => 0,
        }
    }

    /// Whether `event` is one that the run can go on from in this state: it
    /// answers the action that led here; a choice lies within the items that
    /// were offered; a pod that is chosen has a spec; and the deployments to
    /// choose from each have their creation recorded.
    pub open spec fn accepts(self, event: EventView) -> bool {
        match self {
            RunStateView::ListingNamespaces => event is Namespaces,
            RunStateView::ListingPods => event is Pods,
            RunStateView::ListingDeployments => event is Deployments,
            RunStateView::ListingPodsForLogs => event is Pods,
            RunStateView::ChoosingPod { pods } => {
                &&& event matches EventView::Selected { index }
                &&& index < pods.len()
                &&& pods[index as int].containers is Some
            },
            RunStateView::ChoosingContainer { pod, containers } => {
                &&& event matches EventView::Selected { index }
                &&& index < containers.len()
            },
            RunStateView::LocatingPod { pod, container } => event is Pods,
            RunStateView::ListingDeploymentsForRestart => {
                &&& event matches EventView::Deployments { deployments }
                &&& all_created(deployments)
            },
            RunStateView::ChoosingDeployment { deployments } => {
                &&& event matches EventView::Selected { index }
                &&& index < deployments.len()
            },
            RunStateView::Finishing => event is Done,
            RunStateView::Finished => false,
        }
    }

    /// Whether the step from this state depends on the time: the table of
    /// deployments shows ages, and the patch carries the time of the restart.
    pub open spec fn consults_clock(self) -> bool {
        self is ListingDeploymentsForRestart || self is ChoosingDeployment
    }

    /// The step that `event` leads to from this state, where the clock reads
    /// `now`.
    ///
    /// The lists are printed name by name. For `logs`, a pod is chosen by
    /// name, then one of the containers of its spec, then the pod is looked up
    /// again by name in its namespace and the container's log is shown. For
    /// `restart-deployment`, a deployment is chosen from the table of all, and
    /// is sent the restart patch.
    pub open spec fn advance(self, event: EventView, now: ClockReadingView) -> StepView
        recommends
            self.accepts(event),
    {
        match (self, event) {
            (RunStateView::ListingNamespaces, EventView::Namespaces { names }) => StepView {
                state: RunStateView::Finishing,
                action: ActionView::Print { lines: names },
            },
            (RunStateView::ListingPods, EventView::Pods { pods }) => StepView {
                state: RunStateView::Finishing,
                action: ActionView::Print { lines: pod_name_seq(pods) },
            },
            (RunStateView::ListingDeployments, EventView::Deployments { deployments }) => StepView {
                state: RunStateView::Finishing,
                action: ActionView::Print { lines: deployment_name_seq(deployments) },
            },
            (RunStateView::ListingPodsForLogs, EventView::Pods { pods }) => StepView {
                state: RunStateView::ChoosingPod { pods },
                action: ActionView::Select {
                    prompt: pod_prompt(),
                    items: pod_name_seq(pods),
                    default: 0,
                },
            },
            (RunStateView::ChoosingPod { pods }, EventView::Selected { index }) => StepView {
                state: RunStateView::ChoosingContainer {
                    pod: pods[index as int],
                    containers: pods[index as int].containers->0,
                },
                action: ActionView::Select {
                    prompt: container_prompt(),
                    items: pods[index as int].containers->0,
                    default: 0,
                },
            },
            (
                RunStateView::ChoosingContainer { pod, containers },
                EventView::Selected { index },
            ) => StepView {
                state: RunStateView::LocatingPod { pod, container: containers[index as int] },
                action: ActionView::ListPods { namespace: namespace_or_default(pod.namespace) },
            },
            (RunStateView::LocatingPod { pod, container }, EventView::Pods { pods }) => StepView {
                state: RunStateView::Finishing,
                action: ActionView::StreamLogs { requests: log_requests(pods, pod, container) },
            },
            (
                RunStateView::ListingDeploymentsForRestart,
                EventView::Deployments { deployments },
            ) => StepView {
                state: RunStateView::ChoosingDeployment { deployments },
                action: ActionView::Select {
                    prompt: deployment_prompt(),
                    items: table_rows(deployments, now.at),
                    default: 0,
                },
            },
            (RunStateView::ChoosingDeployment { deployments }, EventView::Selected { index }) => {
                StepView {
                    state: RunStateView::Finishing,
                    action: ActionView::Patch {
                        request: restart_request(deployments[index as int], now.rfc3339),
                    },
                }
            },
            (RunStateView::Finishing, EventView::Done) => StepView {
                state: RunStateView::Finished,
                action: ActionView::Exit,
            },
            _ => StepView { state: RunStateView::Finished, action: ActionView::Exit },
        }
    }
}

/// `delete-pod` and `delete-deployment` ask nothing of the cluster: the run
/// prints the command's notice, waits for nothing but the end of the
/// printing, and is over.
pub proof fn lemma_delete_commands_only_print(subcmd: SubCommands, now: ClockReadingView)
    requires
        subcmd == SubCommands::DeletePod || subcmd == SubCommands::DeleteDeployment,
    ensures
        first_step(subcmd).action == (ActionView::Print {
            lines: seq![
                if subcmd == SubCommands::DeletePod {
                    delete_pod_notice()
                } else {
                    delete_deployment_notice()
                },
            ],
        }),
        forall|event: EventView|
            first_step(subcmd).state.accepts(event) <==> event == EventView::Done,
        first_step(subcmd).state.advance(EventView::Done, now) == (StepView {
            state: RunStateView::Finished,
            action: ActionView::Exit,
        }),
        forall|event: EventView| !RunStateView::Finished.accepts(event),
{
}

impl StepView {
    /// Whether the state of the step waits for just what its action can
    /// bring: it accepts every answer to the action but the two on which a
    /// run breaks off, and nothing else; and the action is to exit exactly
    /// where the run is over.
    pub open spec fn coherent(self) -> bool {
        &&& forall|event: EventView|
            #![trigger self.state.accepts(event)]
            #![trigger self.action.answered_by(event)]
            self.state.accepts(event) <==> self.action.answered_by(event)
                && !self.state.breaks_off_on(event)
        &&& self.action is Exit <==> self.state is Finished
    }
}

/// The first step of every command is coherent, and no command has more
/// than five further steps before it.
pub proof fn lemma_first_step_coherent(subcmd: SubCommands)
    ensures
        first_step(subcmd).coherent(),
        first_step(subcmd).state.steps_left() <= 5,
{
}

/// Every step leads to a coherent step again, and brings the run nearer to
/// its end: a caller that does each action and hands back what came of it is
/// never turned away but where a run breaks off, and is told to exit in the
/// end.
pub proof fn lemma_advance_coherent(state: RunStateView, event: EventView, now: ClockReadingView)
    requires
        state.accepts(event),
    ensures
        state.advance(event, now).coherent(),
        state.advance(event, now).state.steps_left() < state.steps_left(),
{
}

/// Only `restart-deployment` changes anything in the cluster, and only by
/// the restart patch: no other step of any run sends a patch, and no step at
/// all deletes anything, for an action that would is not among the actions.
pub proof fn lemma_patch_only_on_restart(
    state: RunStateView,
    event: EventView,
    now: ClockReadingView,
)
    requires
        state.accepts(event),
    ensures
        state.advance(event, now).action is Patch <==> state is ChoosingDeployment,
        state.advance(event, now).action matches ActionView::Patch { request } ==> {
            &&& state matches RunStateView::ChoosingDeployment { deployments }
            &&& event matches EventView::Selected { index }
            &&& request == restart_request(deployments[index as int], now.rfc3339)
        },
{
}

impl Cli {
    /// Begins the run of the command: the state to start from, and the first
    /// action.
    pub fn run(&self) -> (step: Step)
        ensures
            step@ == first_step(self.subcmd),
    {
        match self.subcmd {
            SubCommands::GetNamespaces => Step {
                state: RunState::ListingNamespaces,
                action: Action::ListNamespaces,
            },
            SubCommands::GetPods => Step {
                state: RunState::ListingPods,
                action: Action::ListPods { namespace: String::from_str("default") },
            },
            SubCommands::GetDeployments => Step {
                state: RunState::ListingDeployments,
                action: Action::ListDeployments { namespace: String::from_str("default") },
            },
            SubCommands::RestartDeployment => Step {
                state: RunState::ListingDeploymentsForRestart,
                action: Action::ListDeployments { namespace: String::from_str("default") },
            },
            SubCommands::Logs => Step {
                state: RunState::ListingPodsForLogs,
                action: Action::ListPods { namespace: String::from_str("default") },
            },
            SubCommands::DeletePod => {
                let mut lines: Vec<String> = Vec::new();
                lines.push(String::from_str("Deleting a pod"));
                assert(lines.deep_view() =~= seq![delete_pod_notice()]);
                Step { state: RunState::Finishing, action: Action::Print { lines } }
            },
            SubCommands::DeleteDeployment => {
                let mut lines: Vec<String> = Vec::new();
                lines.push(String::from_str("Deleting a deployment"));
                assert(lines.deep_view() =~= seq![delete_deployment_notice()]);
                Step { state: RunState::Finishing, action: Action::Print { lines } }
            },
        }
    }
}

impl RunState {
    /// Whether `event` is one that the run can go on from in this state.
    pub fn accepts(&self, event: &Event) -> (accepted: bool)
        ensures
            accepted == self@.accepts(event@),
    {
        match (self, event) {
            (RunState::ListingNamespaces, Event::Namespaces { .. }) => true,
            (RunState::ListingPods, Event::Pods { .. }) => true,
            (RunState::ListingDeployments, Event::Deployments { .. }) => true,
            (RunState::ListingPodsForLogs, Event::Pods { .. }) => true,
            (RunState::ChoosingPod { pods }, Event::Selected { index }) => {
                *index < pods.len() && pods[*index].containers.is_some()
            },
            (RunState::ChoosingContainer { pod: _, containers }, Event::Selected { index }) => {
                *index < containers.len()
            },
            (RunState::LocatingPod { .. }, Event::Pods { .. }) => true,
            (RunState::ListingDeploymentsForRestart, Event::Deployments { deployments }) => {
                creation_recorded(deployments)
            },
            (RunState::ChoosingDeployment { deployments }, Event::Selected { index }) => {
                *index < deployments.len()
            },
            (RunState::Finishing, Event::Done) => true,
            _ => false,
        }
    }

    /// Whether the step from this state depends on the time.
    pub fn consults_clock(&self) -> (consults: bool)
        ensures
            consults == self@.consults_clock(),
    {
        match self {
            RunState::ListingDeploymentsForRestart => true,
            RunState::ChoosingDeployment { .. } => true,
            _ => false,
        }
    }

    /// The step that `event` leads to from a state that does not depend on
    /// the time.
    fn advance_untimed(self, event: Event) -> (step: Step)
        requires
            self@.accepts(event@),
            !self@.consults_clock(),
        ensures
            forall|now: ClockReadingView| step@ == self@.advance(event@, now),
    {
        match (self, event) {
            (RunState::ListingNamespaces, Event::Namespaces { names }) => Step {
                state: RunState::Finishing,
                action: Action::Print { lines: names },
            },
            (RunState::ListingPods, Event::Pods { pods }) => Step {
                state: RunState::Finishing,
                action: Action::Print { lines: pod_names(&pods) },
            },
            (RunState::ListingDeployments, Event::Deployments { deployments }) => Step {
                state: RunState::Finishing,
                action: Action::Print { lines: deployment_names(&deployments) },
            },
            (RunState::ListingPodsForLogs, Event::Pods { pods }) => {
                let items = pod_names(&pods);
                Step {
                    state: RunState::ChoosingPod { pods },
                    action: Action::Select {
                        prompt: String::from_str("Select a pod"),
                        items,
                        default: 0,
                    },
                }
            },
            (RunState::ChoosingPod { pods }, Event::Selected { index }) => {
                let mut pods = pods;
                let pod = pods.remove(index);
                let containers = get_pod_containers(&pod);
                let items = copy_strings(&containers);
                Step {
                    state: RunState::ChoosingContainer { pod, containers },
                    action: Action::Select {
                        prompt: String::from_str("Select a container"),
                        items,
                        default: 0,
                    },
                }
            },
            (RunState::ChoosingContainer { pod, containers }, Event::Selected { index }) => {
                let mut containers = containers;
                let container = containers.remove(index);
                let namespace = resolve_namespace(&pod.namespace);
                Step {
                    state: RunState::LocatingPod { pod, container },
                    action: Action::ListPods { namespace },
                }
            },
            (RunState::LocatingPod { pod, container }, Event::Pods { pods }) => Step {
                state: RunState::Finishing,
                action: Action::StreamLogs {
                    requests: get_pod_container_logs(&pods, &pod, container.as_str()),
                },
            },
            (RunState::Finishing, Event::Done) => Step {
                state: RunState::Finished,
                action: Action::Exit,
            },
            _ => Step { state: RunState::Finished, action: Action::Exit },
        }
    }

    /// The step that `event` leads to from a state that depends on the time,
    /// where the clock reads `now`.
    fn advance_timed(self, event: Event, now: &ClockReading) -> (step: Step)
        requires
            self@.accepts(event@),
            self@.consults_clock(),
        ensures
            step@ == self@.advance(event@, now@),
    {
        match (self, event) {
            (RunState::ListingDeploymentsForRestart, Event::Deployments { deployments }) => {
                let items = deployment_rows(&deployments, &now.at);
                Step {
                    state: RunState::ChoosingDeployment { deployments },
                    action: Action::Select {
                        prompt: String::from_str("Select a deployment to restart"),
                        items,
                        default: 0,
                    },
                }
            },
            (RunState::ChoosingDeployment { deployments }, Event::Selected { index }) => Step {
                state: RunState::Finishing,
                action: Action::Patch { request: restart_deployment(&deployments[index], now) },
            },
            _ => Step { state: RunState::Finished, action: Action::Exit },
        }
    }

    /// The step that `event` leads to from this state, where the clock reads
    /// `now`.
    pub fn advance_at(self, event: Event, now: &ClockReading) -> (step: Step)
        requires
            self@.accepts(event@),
        ensures
            step@ == self@.advance(event@, now@),
    {
        if self.consults_clock() {
            self.advance_timed(event, now)
        } else {
            self.advance_untimed(event)
        }
    }

    /// The step that `event` leads to from this state. Where the step depends
    /// on the time, the system clock is read, once, and the step is the one
    /// that [`RunState::advance_at`] takes for a well-formed reading, whose
    /// text is an RFC 3339 date and time in UTC; a clock that stands before
    /// 1970 cannot be read. Elsewhere the clock is left alone, and the step is the same
    /// whatever it reads.
    pub fn advance(self, event: Event) -> (step: Step)
        requires
            self@.accepts(event@),
        ensures
            self@.consults_clock() ==> exists|reading: ClockReadingView|
                reading.well_formed() && step@ == self@.advance(event@, reading),
            !self@.consults_clock() ==> forall|reading: ClockReadingView|
                step@ == self@.advance(event@, reading),
    {
        if self.consults_clock() {
            let reading = now();
            let step = self.advance_timed(event, &reading);
            assert(reading@.well_formed() && step@ == self@.advance(event@, reading@));
            step
        } else {
            self.advance_untimed(event)
        }
    }
}

} // verus!
