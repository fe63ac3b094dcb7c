//! The requests that the commands send to the cluster.

use vstd::prelude::*;
use vstd::string::*;
use crate::clock::{
    is_rfc3339_utc, is_timestamp_char, is_timestamp_text, lemma_readings_a_second_apart_differ,
    lemma_rfc3339_utc_is_timestamp_text, now, ClockReading, ClockReadingView,
};
use crate::resources::{
    namespace_or_default, resolve_namespace, DeploymentInfo, DeploymentView, PodInfo, PodView,
};

verus! {

/// The merge patch that restarts a deployment: it sets the annotation
/// `kubectl.kubernetes.io/restartedAt` of the pod template to `timestamp`,
/// and nothing else.
pub open spec fn restart_patch_text(timestamp: Seq<char>) -> Seq<char> {
    "{\"spec\":{\"template\":{\"metadata\":{\"annotations\":{\"kubectl.kubernetes.io/restartedAt\":\""@
        + timestamp + "\"}}}}}"@
}

/// Whether `text` can stand between quotes in a JSON document as it is:
/// it holds no quote, no backslash and no control character.
pub open spec fn is_json_plain(text: Seq<char>) -> bool {
    forall|i: int|
        0 <= i < text.len() ==> {
            &&& #[trigger] text[i] != '"'
            &&& text[i] != '\\'
            &&& text[i] >= ' '
        }
}

/// An RFC 3339 date and time in UTC can stand in a JSON document as it is,
/// so the restart patch that carries one is a JSON document.
pub proof fn lemma_rfc3339_utc_is_json_plain(text: Seq<char>)
    requires
        is_rfc3339_utc(text),
    ensures
        is_json_plain(text),
{
    lemma_rfc3339_utc_is_timestamp_text(text);
    lemma_timestamp_text_is_json_plain(text);
}

/// A text of timestamp characters can stand in a JSON document as it is.
pub proof fn lemma_timestamp_text_is_json_plain(text: Seq<char>)
    requires
        is_timestamp_text(text),
    ensures
        is_json_plain(text),
{
    assert forall|i: int| 0 <= i < text.len() implies {
        &&& #[trigger] text[i] != '"'
        &&& text[i] != '\\'
        &&& text[i] >= ' '
    } by {
        assert(is_timestamp_char(text[i]));
    }
}

/// The merge patch that restarts a deployment, with `timestamp` as the time
/// of the restart. The patch is a JSON document as long as `timestamp` can
/// stand in one as it is, which a date and time of the clock can.
pub fn restart_patch(timestamp: &str) -> (body: String)
    ensures
        body@ == restart_patch_text(timestamp@),
{
    let mut body = String::from_str(
        "{\"spec\":{\"template\":{\"metadata\":{\"annotations\":{\"kubectl.kubernetes.io/restartedAt\":\"",
    );
    body.append(timestamp);
    body.append("\"}}}}}");
    body
}

/// The merge patch that restarts a deployment now: the time of the restart
/// is the system clock's, read at this call, as an RFC 3339 date and time in
/// UTC. A clock that stands before 1970 cannot be read.
pub fn get_patch_spec() -> (body: String)
    ensures
        exists|reading: ClockReadingView|
            reading.well_formed() && body@ == restart_patch_text(reading.rfc3339),
        exists|timestamp: Seq<char>|
            is_rfc3339_utc(timestamp) && body@ == restart_patch_text(timestamp),
{
    let reading = now();
    let body = restart_patch(reading.rfc3339.as_str());
    assert(reading@.well_formed() && body@ == restart_patch_text(reading@.rfc3339));
    assert(is_rfc3339_utc(reading.rfc3339@) && body@ == restart_patch_text(reading.rfc3339@));
    body
}

/// Restart patches made a second apart differ: each carries the time of its
/// own reading of the clock, and all the rest of the document is the same.
pub proof fn lemma_restart_patches_a_second_apart_differ(
    one: ClockReadingView,
    other: ClockReadingView,
)
    requires
        one.well_formed(),
        other.well_formed(),
        other.at.secs == one.at.secs + 1,
    ensures
        one.rfc3339 != other.rfc3339,
        restart_patch_text(one.rfc3339) != restart_patch_text(other.rfc3339),
{
    lemma_readings_a_second_apart_differ(one, other);
    if restart_patch_text(one.rfc3339) == restart_patch_text(other.rfc3339) {
        lemma_restart_patch_tells_times_apart(one.rfc3339, other.rfc3339);
    }
}

/// A merge patch for one deployment: where it goes, in whose name, and what
/// it says.
#[derive(Clone, Debug, PartialEq, Eq)]
pub struct PatchRequest {
    pub namespace: String,
    pub name: String,
    pub field_manager: String,
    pub body: String,
}

/// The mathematical content of a [`PatchRequest`].
pub struct PatchRequestView {
    pub namespace: Seq<char>,
    pub name: Seq<char>,
    pub field_manager: Seq<char>,
    pub body: Seq<char>,
}

impl View for PatchRequest {
    type V = PatchRequestView;

    open spec fn view(&self) -> PatchRequestView {
        PatchRequestView {
            namespace: self.namespace@,
            name: self.name@,
            field_manager: self.field_manager@,
            body: self.body@,
        }
    }
}

/// The request that restarts `deployment` at the time `timestamp`: a patch
/// for the deployment in its namespace, `default` where it names none, sent
/// under that namespace's name as field manager.
pub open spec fn restart_request(
    deployment: DeploymentView,
    timestamp: Seq<char>,
) -> PatchRequestView {
    PatchRequestView {
        namespace: namespace_or_default(deployment.namespace),
        name: deployment.name,
        field_manager: namespace_or_default(deployment.namespace),
        body: restart_patch_text(timestamp),
    }
}

/// Whatever the deployment, the patch that restarts it is the same document:
/// it depends on the time of the restart and on nothing else.
pub proof fn lemma_restart_patch_is_fixed(
    one: DeploymentView,
    other: DeploymentView,
    timestamp: Seq<char>,
)
    ensures
        restart_request(one, timestamp).body == restart_patch_text(timestamp),
        restart_request(one, timestamp).body == restart_request(other, timestamp).body,
{
}

/// Two restart patches are the same document only where they carry the same
/// time: a restart at another time is another patch.
pub proof fn lemma_restart_patch_tells_times_apart(one: Seq<char>, other: Seq<char>)
    requires
        restart_patch_text(one) == restart_patch_text(other),
    ensures
        one == other,
{
    let head =
        "{\"spec\":{\"template\":{\"metadata\":{\"annotations\":{\"kubectl.kubernetes.io/restartedAt\":\""@;
    let tail = "\"}}}}}"@;
    let n = head.len() as int;
    assert(restart_patch_text(one).len() == n + one.len() + tail.len());
    assert(restart_patch_text(other).len() == n + other.len() + tail.len());
    assert(restart_patch_text(one).subrange(n, n + one.len()) =~= one);
    assert(restart_patch_text(other).subrange(n, n + other.len()) =~= other);
}

/// The request that restarts `deployment`, with the clock's reading `now` as
/// the time of the restart.
pub fn restart_deployment(deployment: &DeploymentInfo, now: &ClockReading) -> (request:
    PatchRequest)
    ensures
        request@ == restart_request(deployment@, now.rfc3339@),
{
    PatchRequest {
        namespace: resolve_namespace(&deployment.namespace),
        name: deployment.name.clone(),
        field_manager: resolve_namespace(&deployment.namespace),
        body: restart_patch(now.rfc3339.as_str()),
    }
}

/// The kinds of resource that a request can delete.
#[derive(Clone, Copy, Debug, PartialEq, Eq, Structural)]
pub enum ResourceKind {
    Pod,
    Deployment,
}

/// The deletion of one resource, addressed by kind, namespace and name.
#[derive(Clone, Debug, PartialEq, Eq)]
pub struct DeleteRequest {
    pub kind: ResourceKind,
    pub namespace: String,
    pub name: String,
}

/// The mathematical content of a [`DeleteRequest`].
pub struct DeleteRequestView {
    pub kind: ResourceKind,
    pub namespace: Seq<char>,
    pub name: Seq<char>,
}

impl View for DeleteRequest {
    type V = DeleteRequestView;

    open spec fn view(&self) -> DeleteRequestView {
        DeleteRequestView { kind: self.kind, namespace: self.namespace@, name: self.name@ }
    }
}

/// The request that deletes `deployment`, in its namespace, `default` where
/// it names none.
pub fn delete_deployment(deployment: &DeploymentInfo) -> (request: DeleteRequest)
    ensures
        request@ == (DeleteRequestView {
            kind: ResourceKind::Deployment,
            namespace: namespace_or_default(deployment@.namespace),
            name: deployment@.name,
        }),
{
    DeleteRequest {
        kind: ResourceKind::Deployment,
        namespace: resolve_namespace(&deployment.namespace),
        name: deployment.name.clone(),
    }
}

/// The request that deletes `pod`, in the pod's own namespace, `default`
/// where it names none: never across namespaces.
pub fn delete_pod(pod: &PodInfo) -> (request: DeleteRequest)
    ensures
        request@ == (DeleteRequestView {
            kind: ResourceKind::Pod,
            namespace: namespace_or_default(pod@.namespace),
            name: pod@.name,
        }),
{
    DeleteRequest {
        kind: ResourceKind::Pod,
        namespace: resolve_namespace(&pod.namespace),
        name: pod.name.clone(),
    }
}

/// A request for the log of one container of one pod.
#[derive(Clone, Debug, PartialEq, Eq)]
pub struct LogRequest {
    pub namespace: String,
    pub pod: String,
    pub container: String,
}

/// The mathematical content of a [`LogRequest`].
pub struct LogRequestView {
    pub namespace: Seq<char>,
    pub pod: Seq<char>,
    pub container: Seq<char>,
}

impl View for LogRequest {
    type V = LogRequestView;

    open spec fn view(&self) -> LogRequestView {
        LogRequestView { namespace: self.namespace@, pod: self.pod@, container: self.container@ }
    }
}

impl DeepView for LogRequest {
    type V = LogRequestView;

    open spec fn deep_view(&self) -> LogRequestView {
        self@
    }
}

/// The test that a pod has the name `name`.
pub open spec fn has_name(name: Seq<char>) -> spec_fn(PodView) -> bool {
    |p: PodView| p.name == name
}

/// The request for the log of `container` that goes to a pod found in
/// `namespace`.
pub open spec fn log_request_in(namespace: Seq<char>, container: Seq<char>) -> spec_fn(
    PodView,
) -> LogRequestView {
    |p: PodView| LogRequestView { namespace, pod: p.name, container }
}

/// The log requests for `pod` against the pods that its namespace holds at
/// present: one for each pod of `current` that has the name of `pod`, in the
/// order of `current`, each for `container` in the namespace of `pod`,
/// `default` where it names none.
pub open spec fn log_requests(
    current: Seq<PodView>,
    pod: PodView,
    container: Seq<char>,
) -> Seq<LogRequestView> {
    current.filter(has_name(pod.name)).map_values(
        log_request_in(namespace_or_default(pod.namespace), container),
    )
}

/// The log requests that show `container` of `pod`: the pod is looked up by
/// name among `current`, the pods that its namespace holds at present, and
/// each pod of that name is asked for the container's log.
pub fn get_pod_container_logs(current: &Vec<PodInfo>, pod: &PodInfo, container: &str) -> (requests:
    Vec<LogRequest>)
    ensures
        requests.deep_view() == log_requests(current.deep_view(), pod@, container@),
{
    let mut requests: Vec<LogRequest> = Vec::new();
    let ghost named = has_name(pod@.name);
    let ghost asking = log_request_in(namespace_or_default(pod@.namespace), container@);
    let mut i: usize = 0;
    proof {
        reveal_with_fuel(Seq::filter, 1);
    }
    while i < current.len()
        invariant
            i <= current.len(),
            named == has_name(pod@.name),
            asking == log_request_in(namespace_or_default(pod@.namespace), container@),
            requests.deep_view() == current.deep_view().take(i as int).filter(named).map_values(
                asking,
            ),
        decreases current.len() - i,
    {
        let ghost before = current.deep_view().take(i as int);
        proof {
            assert(current.deep_view().take(i + 1) =~= before.push(current[i as int]@));
            before.lemma_filter_push(current[i as int]@, named);
        }
        if current[i].name == pod.name {
            requests.push(
                LogRequest {
                    namespace: resolve_namespace(&pod.namespace),
                    pod: current[i].name.clone(),
                    container: String::from_str(container),
                },
            );
            assert(before.filter(named).push(current[i as int]@).map_values(asking)
                =~= before.filter(named).map_values(asking).push(asking(current[i as int]@)));
        }
        i = i + 1;
    }
    assert(current.deep_view().take(current.len() as int) =~= current.deep_view());
    requests
}

} // verus!
