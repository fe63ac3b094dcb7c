//! The cluster's resources, as far as the commands read them.

use vstd::prelude::*;
use vstd::string::*;
use crate::age::{age_text, format_age};
use crate::clock::Timestamp;
use crate::text::{
    append_in_column, append_left_aligned, decimal, decimal_string, in_column, left_aligned,
    lemma_in_column_shape, lemma_left_aligned_shape,
};

verus! {

/// The namespace that stands in where a resource names none.
pub open spec fn default_namespace() -> Seq<char> {
    "default"@
}

/// A pod: its name, its namespace if it has one, and the names of the
/// containers of its spec, `None` where the pod has no spec.
#[derive(Clone, Debug, PartialEq, Eq)]
pub struct PodInfo {
    pub name: String,
    pub namespace: Option<String>,
    pub containers: Option<Vec<String>>,
}

/// The mathematical content of a [`PodInfo`].
pub struct PodView {
    pub name: Seq<char>,
    pub namespace: Option<Seq<char>>,
    pub containers: Option<Seq<Seq<char>>>,
}

impl View for PodInfo {
    type V = PodView;

    open spec fn view(&self) -> PodView {
        PodView {
            name: self.name@,
            namespace: self.namespace.deep_view(),
            containers: self.containers.deep_view(),
        }
    }
}

impl DeepView for PodInfo {
    type V = PodView;

    open spec fn deep_view(&self) -> PodView {
        self@
    }
}

/// The replica counts of a deployment's status, each absent or present.
#[derive(Clone, Copy, Debug, PartialEq, Eq, Structural)]
pub struct ReplicaStatus {
    pub ready: Option<i32>,
    pub updated: Option<i32>,
    pub available: Option<i32>,
}

/// The replica counts that a deployment reports.
#[derive(Clone, Copy, Debug, PartialEq, Eq, Structural)]
pub struct ReplicaCounts {
    pub ready: i32,
    pub updated: i32,
    pub available: i32,
}

/// A count that is absent reads as zero.
pub open spec fn count_or_zero(count: Option<i32>) -> i32 {
    match count {
        Some(n) => n,
        None => 0,
    }
}

/// The counts that a status reports, a status that is absent included: what is
/// missing reads as zero.
pub open spec fn reported_counts(status: Option<ReplicaStatus>) -> ReplicaCounts {
    match status {
        Some(s) => ReplicaCounts {
            ready: count_or_zero(s.ready),
            updated: count_or_zero(s.updated),
            available: count_or_zero(s.available),
        },
        None => ReplicaCounts { ready: 0, updated: 0, available: 0 },
    }
}

/// A deployment: its name, its namespace if it has one, its status if it has
/// one, and the instant of its creation if that is recorded.
#[derive(Clone, Debug, PartialEq, Eq)]
pub struct DeploymentInfo {
    pub name: String,
    pub namespace: Option<String>,
    pub status: Option<ReplicaStatus>,
    pub created: Option<Timestamp>,
}

/// The mathematical content of a [`DeploymentInfo`].
pub struct DeploymentView {
    pub name: Seq<char>,
    pub namespace: Option<Seq<char>>,
    pub status: Option<ReplicaStatus>,
    pub created: Option<Timestamp>,
}

impl View for DeploymentInfo {
    type V = DeploymentView;

    open spec fn view(&self) -> DeploymentView {
        DeploymentView {
            name: self.name@,
            namespace: self.namespace.deep_view(),
            status: self.status,
            created: self.created,
        }
    }
}

impl DeepView for DeploymentInfo {
    type V = DeploymentView;

    open spec fn deep_view(&self) -> DeploymentView {
        self@
    }
}

/// One row of the deployment table. The name stands in a column of exactly
/// 30 characters, then the ready, updated and available counts in columns of
/// exactly 10 each: what is narrower is filled up with spaces, what is wider
/// is cut. One space stands between two columns, so the counts begin at
/// columns 31, 42 and 53 and the age at column 64, whatever the name. The age
/// comes last and stays whole: it is filled up to 10 characters and never cut.
pub open spec fn row_text(
    name: Seq<char>,
    ready: int,
    updated: int,
    available: int,
    age: Seq<char>,
) -> Seq<char> {
    in_column(name, 30) + seq![' '] + in_column(decimal(ready), 10) + seq![' '] + in_column(
        decimal(updated),
        10,
    ) + seq![' '] + in_column(decimal(available), 10) + seq![' '] + left_aligned(age, 10)
}

/// Every row has its fields in the same columns, whatever they hold: the
/// name in columns 0 to 29, the ready, updated and available counts from
/// columns 31, 42 and 53, ten characters each, a space between each two, and
/// the age as the rest of the row from column 64.
pub proof fn lemma_row_has_fixed_columns(
    name: Seq<char>,
    ready: int,
    updated: int,
    available: int,
    age: Seq<char>,
)
    ensures
        row_text(name, ready, updated, available, age).len() == 64 + left_aligned(age, 10).len(),
        row_text(name, ready, updated, available, age).len() >= 74,
        row_text(name, ready, updated, available, age).subrange(0, 30) == in_column(name, 30),
        row_text(name, ready, updated, available, age).subrange(31, 41) == in_column(
            decimal(ready),
            10,
        ),
        row_text(name, ready, updated, available, age).subrange(42, 52) == in_column(
            decimal(updated),
            10,
        ),
        row_text(name, ready, updated, available, age).subrange(53, 63) == in_column(
            decimal(available),
            10,
        ),
        row_text(name, ready, updated, available, age).subrange(
            64,
            row_text(name, ready, updated, available, age).len() as int,
        ) == left_aligned(age, 10),
        row_text(name, ready, updated, available, age)[30] == ' ',
        row_text(name, ready, updated, available, age)[41] == ' ',
        row_text(name, ready, updated, available, age)[52] == ' ',
        row_text(name, ready, updated, available, age)[63] == ' ',
{
    let row = row_text(name, ready, updated, available, age);
    lemma_in_column_shape(name, 30);
    lemma_in_column_shape(decimal(ready), 10);
    lemma_in_column_shape(decimal(updated), 10);
    lemma_in_column_shape(decimal(available), 10);
    lemma_left_aligned_shape(age, 10);
    assert(row.subrange(0, 30) =~= in_column(name, 30));
    assert(row.subrange(31, 41) =~= in_column(decimal(ready), 10));
    assert(row.subrange(42, 52) =~= in_column(decimal(updated), 10));
    assert(row.subrange(53, 63) =~= in_column(decimal(available), 10));
    assert(row.subrange(64, row.len() as int) =~= left_aligned(age, 10));
}

/// A name that is wider than its column is cut to the column: the row shows
/// its first 30 characters and no more.
pub proof fn lemma_row_cuts_a_wide_name(
    name: Seq<char>,
    ready: int,
    updated: int,
    available: int,
    age: Seq<char>,
)
    requires
        name.len() > 30,
    ensures
        row_text(name, ready, updated, available, age).subrange(0, 30) == name.subrange(0, 30),
        row_text(name, ready, updated, available, age) == row_text(
            name.subrange(0, 30),
            ready,
            updated,
            available,
            age,
        ),
{
    lemma_row_has_fixed_columns(name, ready, updated, available, age);
    assert(in_column(name.subrange(0, 30), 30) =~= in_column(name, 30));
}

impl DeploymentView {
    /// The counts that the deployment reports.
    pub open spec fn counts(self) -> ReplicaCounts {
        reported_counts(self.status)
    }

    /// The deployment's age at `now`, in whole seconds.
    pub open spec fn age_seconds(self, now: Timestamp) -> int
        recommends
            self.created is Some,
    {
        now.spec_seconds_since(self.created->0)
    }

    /// The deployment's row of the table at `now`.
    pub open spec fn row(self, now: Timestamp) -> Seq<char>
        recommends
            self.created is Some,
    {
        row_text(
            self.name,
            self.counts().ready as int,
            self.counts().updated as int,
            self.counts().available as int,
            age_text(self.age_seconds(now)),
        )
    }
}

/// A deployment without a status reports no replicas of any kind, and its
/// row shows three zeros.
pub proof fn lemma_missing_status_reads_zero(deployment: DeploymentView, now: Timestamp)
    requires
        deployment.status is None,
    ensures
        deployment.counts() == (ReplicaCounts { ready: 0, updated: 0, available: 0 }),
        deployment.row(now) == row_text(
            deployment.name,
            0,
            0,
            0,
            age_text(deployment.age_seconds(now)),
        ),
{
}

/// The table of `deployments` at `now`, one row for each, in their order.
pub open spec fn table_rows(deployments: Seq<DeploymentView>, now: Timestamp) -> Seq<Seq<char>> {
    Seq::new(deployments.len(), |i: int| deployments[i].row(now))
}

/// Whether the creation of every one of `deployments` is recorded.
pub open spec fn all_created(deployments: Seq<DeploymentView>) -> bool {
    forall|i: int| 0 <= i < deployments.len() ==> (#[trigger] deployments[i]).created is Some
}

/// The names of `pods`, in their order.
pub open spec fn pod_name_seq(pods: Seq<PodView>) -> Seq<Seq<char>> {
    Seq::new(pods.len(), |i: int| pods[i].name)
}

/// The names of `deployments`, in their order.
pub open spec fn deployment_name_seq(deployments: Seq<DeploymentView>) -> Seq<Seq<char>> {
    Seq::new(deployments.len(), |i: int| deployments[i].name)
}

/// Writes one row of the deployment table: the name and the counts each in
/// its column, cut where they are wider, and the age whole.
pub fn format_deployment_row(
    name: &str,
    ready: i32,
    updated: i32,
    available: i32,
    age: &str,
) -> (row: String)
    ensures
        row@ == row_text(name@, ready as int, updated as int, available as int, age@),
{
    proof {
        reveal_strlit(" ");
    }
    let ready_text = decimal_string(ready as i128);
    let updated_text = decimal_string(updated as i128);
    let available_text = decimal_string(available as i128);
    let mut row = String::new();
    append_in_column(&mut row, name, 30);
    row.append(" ");
    append_in_column(&mut row, ready_text.as_str(), 10);
    row.append(" ");
    append_in_column(&mut row, updated_text.as_str(), 10);
    row.append(" ");
    append_in_column(&mut row, available_text.as_str(), 10);
    row.append(" ");
    append_left_aligned(&mut row, age, 10);
    row
}

impl DeploymentInfo {
    /// The counts that the deployment reports: a count that is absent, or a
    /// status that is absent altogether, reads as zero.
    pub fn replica_counts(&self) -> (counts: ReplicaCounts)
        ensures
            counts == self@.counts(),
            self.status is None ==> counts == (ReplicaCounts {
                ready: 0,
                updated: 0,
                available: 0,
            }),
    {
        match self.status {
            Some(status) => ReplicaCounts {
                ready: match status.ready {
                    Some(n) => n,
                    None => 0,
                },
                updated: match status.updated {
                    Some(n) => n,
                    None => 0,
                },
                available: match status.available {
                    Some(n) => n,
                    None => 0,
                },
            },
            None => ReplicaCounts { ready: 0, updated: 0, available: 0 },
        }
    }

    /// The deployment's row of the table at `now`.
    pub fn table_row(&self, now: &Timestamp) -> (row: String)
        requires
            self.created is Some,
        ensures
            row@ == self@.row(*now),
    {
        let counts = self.replica_counts();
        let created = self.created.unwrap();
        let age = format_age(now.seconds_since(&created));
        format_deployment_row(
            self.name.as_str(),
            counts.ready,
            counts.updated,
            counts.available,
            age.as_str(),
        )
    }
}

/// The table of `deployments` at `now`: the rows that a menu of deployments
/// offers.
pub fn deployment_rows(deployments: &Vec<DeploymentInfo>, now: &Timestamp) -> (rows: Vec<String>)
    requires
        all_created(deployments.deep_view()),
    ensures
        rows.deep_view() == table_rows(deployments.deep_view(), *now),
{
    let mut rows: Vec<String> = Vec::new();
    let mut i: usize = 0;
    while i < deployments.len()
        invariant
            i <= deployments.len(),
            all_created(deployments.deep_view()),
            rows.len() == i,
            forall|k: int| 0 <= k < i ==> (#[trigger] rows[k])@ == deployments[k]@.row(*now),
        decreases deployments.len() - i,
    {
        assert(deployments.deep_view()[i as int].created is Some);
        rows.push(deployments[i].table_row(now));
        i = i + 1;
    }
    rows
}

/// Whether the creation of every one of `deployments` is recorded.
pub fn creation_recorded(deployments: &Vec<DeploymentInfo>) -> (recorded: bool)
    ensures
        recorded == all_created(deployments.deep_view()),
{
    let mut i: usize = 0;
    while i < deployments.len()
        invariant
            i <= deployments.len(),
            forall|k: int| 0 <= k < i ==> (#[trigger] deployments.deep_view()[k]).created is Some,
        decreases deployments.len() - i,
    {
        if deployments[i].created.is_none() {
            assert(deployments.deep_view()[i as int].created is None);
            return false;
        }
        i = i + 1;
    }
    true
}

/// The names of `pods`, in their order.
pub fn pod_names(pods: &Vec<PodInfo>) -> (names: Vec<String>)
    ensures
        names.deep_view() == pod_name_seq(pods.deep_view()),
{
    let mut names: Vec<String> = Vec::new();
    let mut i: usize = 0;
    while i < pods.len()
        invariant
            i <= pods.len(),
            names.len() == i,
            forall|k: int| 0 <= k < i ==> (#[trigger] names[k])@ == pods[k].name@,
        decreases pods.len() - i,
    {
        names.push(pods[i].name.clone());
        i = i + 1;
    }
    names
}

/// The names of `deployments`, in their order.
pub fn deployment_names(deployments: &Vec<DeploymentInfo>) -> (names: Vec<String>)
    ensures
        names.deep_view() == deployment_name_seq(deployments.deep_view()),
{
    let mut names: Vec<String> = Vec::new();
    let mut i: usize = 0;
    while i < deployments.len()
        invariant
            i <= deployments.len(),
            names.len() == i,
            forall|k: int| 0 <= k < i ==> (#[trigger] names[k])@ == deployments[k].name@,
        decreases deployments.len() - i,
    {
        names.push(deployments[i].name.clone());
        i = i + 1;
    }
    names
}

/// A copy of `texts`.
pub fn copy_strings(texts: &Vec<String>) -> (copy: Vec<String>)
    ensures
        copy.deep_view() == texts.deep_view(),
{
    let mut copy: Vec<String> = Vec::new();
    let mut i: usize = 0;
    while i < texts.len()
        invariant
            i <= texts.len(),
            copy.len() == i,
            forall|k: int| 0 <= k < i ==> (#[trigger] copy[k])@ == texts[k]@,
        decreases texts.len() - i,
    {
        copy.push(texts[i].clone());
        i = i + 1;
    }
    copy
}

/// The names of the containers of `pod`'s spec, in their order.
pub fn get_pod_containers(pod: &PodInfo) -> (names: Vec<String>)
    requires
        pod.containers is Some,
    ensures
        Some(names.deep_view()) == pod@.containers,
{
    copy_strings(pod.containers.as_ref().unwrap())
}

/// The namespace of a resource: its own, or `default` where it names none.
pub open spec fn namespace_or_default(namespace: Option<Seq<char>>) -> Seq<char> {
    match namespace {
        Some(own) => own,
        None => default_namespace(),
    }
}

/// The namespace in which a resource is addressed: its own, or `default`
/// where it names none.
pub fn resolve_namespace(namespace: &Option<String>) -> (resolved: String)
    ensures
        resolved@ == namespace_or_default(namespace.deep_view()),
{
    match namespace {
        Some(own) => own.clone(),
        None => String::from_str("default"),
    }
}

} // verus!
