//! Detached builds: the job that carries a build on its own, and waiting for it.

use vstd::prelude::*;
use vstd::slice::slice_to_vec;

use crate::backend;
use crate::backend::{debug_text, Backend, CacheVolume, DigestError, Resources};
use crate::build;
use crate::build::pinned_ref;
use crate::builder;
use crate::json;
use crate::manifest::{Metadata, MetadataView, VolumeSourceView};
use crate::pod;
use crate::pod::{Listed, ListedView};
use crate::text;
use crate::text::{lookup, same_text, trimmed_end};

verus! {

broadcast use vstd::string::group_string_axioms;

/// What a detached build is made with.
pub struct DetachArgs<'a> {
    pub image: &'a str,
    pub dockerfile: &'a str,
    pub build_args: &'a [String],
    /// The reference under which the registry holds the build context.
    pub ctx_ref: &'a str,
    /// The credentials for the registry, as the builder reads them.
    pub authfile: &'a [u8],
    pub idle_nodes: &'a [String],
    pub resources: &'a Resources,
    pub labels: &'a [(String, String)],
    pub cache: Option<CacheVolume<'a>>,
    pub node: Option<&'a str>,
}

/// Why a job was not made, or cannot be waited for.
#[derive(Debug)]
pub enum JobError {
    /// The cluster gave the job no uid, so that nothing can be owned by it.
    NoUid,
    /// The job does not say which builder it runs.
    NoBackend,
    /// The job says that it runs a builder that is not known.
    UnknownBackend(String),
    /// The job does not say which image it builds.
    NoImage(String),
    /// The job failed.
    Failed { job: String, reason: String },
}

/// What a `JobError` says.
pub enum JobFault {
    NoUid,
    NoBackend,
    UnknownBackend(Seq<char>),
    NoImage(Seq<char>),
    Failed { job: Seq<char>, reason: Seq<char> },
}

impl View for JobError {
    type V = JobFault;

    open spec fn view(&self) -> JobFault {
        match self {
            JobError::NoUid => JobFault::NoUid,
            JobError::NoBackend => JobFault::NoBackend,
            JobError::UnknownBackend(label) => JobFault::UnknownBackend(label@),
            JobError::NoImage(job) => JobFault::NoImage(job@),
            JobError::Failed { job, reason } => JobFault::Failed { job: job@, reason: reason@ },
        }
    }
}

impl JobError {
    /// What went wrong, in words.
    pub fn message(&self) -> (m: String)
        ensures
            m@ == match self@ {
                JobFault::NoUid => "created job has no uid"@,
                JobFault::NoBackend => "job has no buildit/backend label"@,
                JobFault::UnknownBackend(label) => "unknown backend label "@ + backend::debug_form(
                    label,
                ),
                JobFault::NoImage(job) => "job "@ + job + " has no buildit/image annotation"@,
                JobFault::Failed { job, reason } => "job "@ + job + " failed: "@ + reason,
            },
    {
        match self {
            JobError::NoUid => "created job has no uid".to_owned(),
            JobError::NoBackend => "job has no buildit/backend label".to_owned(),
            JobError::UnknownBackend(label) => "unknown backend label ".to_owned().concat(
                debug_text(label.as_str()).as_str(),
            ),
            JobError::NoImage(job) => "job ".to_owned().concat(job.as_str()).concat(
                " has no buildit/image annotation",
            ),
            JobError::Failed { job, reason } => "job ".to_owned().concat(job.as_str()).concat(
                " failed: ",
            ).concat(reason.as_str()),
        }
    }
}

/// The secret with which a job reaches the registry. It is owned by the job, and goes when the
/// job goes.
pub struct SecretManifest {
    pub metadata: Metadata,
    pub owner_api_version: String,
    pub owner_kind: String,
    pub owner_name: String,
    pub owner_uid: String,
    pub kind: String,
    pub key: String,
    pub data: Vec<u8>,
}

/// What a `SecretManifest` holds.
pub struct SecretManifestView {
    pub metadata: MetadataView,
    pub owner_api_version: Seq<char>,
    pub owner_kind: Seq<char>,
    pub owner_name: Seq<char>,
    pub owner_uid: Seq<char>,
    pub kind: Seq<char>,
    pub key: Seq<char>,
    pub data: Seq<u8>,
}

impl View for SecretManifest {
    type V = SecretManifestView;

    open spec fn view(&self) -> SecretManifestView {
        SecretManifestView {
            metadata: self.metadata@,
            owner_api_version: self.owner_api_version@,
            owner_kind: self.owner_kind@,
            owner_name: self.owner_name@,
            owner_uid: self.owner_uid@,
            kind: self.kind@,
            key: self.key@,
            data: self.data@,
        }
    }
}

/// The secret for a job: it has the name of the job.
pub open spec fn secret_of(
    name: Seq<char>,
    namespace: Seq<char>,
    uid: Seq<char>,
    authfile: Seq<u8>,
) -> SecretManifestView {
    SecretManifestView {
        metadata: MetadataView {
            name: Some(name),
            namespace: Some(namespace),
            labels: seq![("app"@, "buildit"@)],
            annotations: Seq::empty(),
        },
        owner_api_version: "batch/v1"@,
        owner_kind: "Job"@,
        owner_name: name,
        owner_uid: uid,
        kind: "kubernetes.io/dockerconfigjson"@,
        key: ".dockerconfigjson"@,
        data: authfile,
    }
}

/// The secret for a job: it has the name of the job.
fn auth_secret(name: &str, namespace: &str, uid: String, authfile: &[u8]) -> (secret:
    SecretManifest)
    ensures
        secret@ == secret_of(name@, namespace@, uid@, authfile@),
{
    let labels: Vec<(String, String)> = vec![("app".to_owned(), "buildit".to_owned())];
    let annotations: Vec<(String, String)> = Vec::new();
    assert(text::pairs(labels@) =~= seq![("app"@, "buildit"@)]);
    assert(text::pairs(annotations@) =~= Seq::empty());
    SecretManifest {
        metadata: Metadata {
            name: Some(name.to_owned()),
            namespace: Some(namespace.to_owned()),
            labels,
            annotations,
        },
        owner_api_version: "batch/v1".to_owned(),
        owner_kind: "Job".to_owned(),
        owner_name: name.to_owned(),
        owner_uid: uid,
        kind: "kubernetes.io/dockerconfigjson".to_owned(),
        key: ".dockerconfigjson".to_owned(),
        data: slice_to_vec(authfile),
    }
}

/// What is next in making a job.
pub enum CreateStep {
    /// Make the secret.
    Secret(SecretManifest),
    /// Delete the job again: it could never start.
    DeleteJob(String),
    /// The job of this name is made.
    Made(String),
}

/// What is next once the cluster has the job: the secret, which can only be owned by a job that
/// is there.
pub fn after_job(name: &str, namespace: &str, uid: Option<String>, authfile: &[u8]) -> (r: Result<
    CreateStep,
    JobError,
>)
    ensures
        match uid {
            Some(u) => {
                &&& r is Ok
                &&& r->Ok_0 is Secret
                &&& r->Ok_0->Secret_0@ == secret_of(name@, namespace@, u@, authfile@)
            },
            None => r is Err && r->Err_0@ == JobFault::NoUid,
        },
{
    match uid {
        Some(u) => Ok(CreateStep::Secret(auth_secret(name, namespace, u, authfile))),
        None => Err(JobError::NoUid),
    }
}

/// What is next once the secret was made or refused.
pub fn after_secret(name: String, made: bool) -> (step: CreateStep)
    ensures
        made ==> step == CreateStep::Made(name),
        !made ==> step == CreateStep::DeleteJob(name),
{
    if made {
        CreateStep::Made(name)
    } else {
        CreateStep::DeleteJob(name)
    }
}

/// The secret of a job is the one that its pods mount, under the key that they look for.
pub proof fn secret_serves_job(
    b: Backend,
    name: Seq<char>,
    namespace: Seq<char>,
    uid: Seq<char>,
    args: DetachArgs,
)
    ensures
        ({
            let secret = secret_of(name, namespace, uid, args.authfile@);
            let job = builder::job_of(b, name, namespace, args);
            &&& secret.metadata.name == job.metadata.name
            &&& secret.metadata.namespace == job.metadata.namespace
            &&& secret.owner_name == name
            &&& secret.owner_uid == uid
            &&& secret.data == args.authfile@
            &&& job.template.plan.volumes[1].source == VolumeSourceView::Secret(
                secret.metadata.name->0,
                seq![(secret.key, "config.json"@)],
            )
        }),
{
}

/// A condition of a job.
pub struct Condition {
    pub kind: String,
    pub status: String,
    pub message: Option<String>,
    pub reason: Option<String>,
}

/// What a `Condition` holds.
pub struct ConditionView {
    pub kind: Seq<char>,
    pub status: Seq<char>,
    pub message: Option<Seq<char>>,
    pub reason: Option<Seq<char>>,
}

impl View for Condition {
    type V = ConditionView;

    open spec fn view(&self) -> ConditionView {
        ConditionView {
            kind: self.kind@,
            status: self.status@,
            message: text::opt_text(self.message),
            reason: text::opt_text(self.reason),
        }
    }
}

pub open spec fn conditions_of(conditions: Seq<Condition>) -> Seq<ConditionView> {
    conditions.map_values(|c: Condition| c@)
}

/// A job that the cluster shows.
pub struct JobReport {
    pub labels: Vec<(String, String)>,
    pub annotations: Vec<(String, String)>,
    pub conditions: Vec<Condition>,
}

/// What a `JobReport` holds.
pub struct JobReportView {
    pub labels: Seq<(Seq<char>, Seq<char>)>,
    pub annotations: Seq<(Seq<char>, Seq<char>)>,
    pub conditions: Seq<ConditionView>,
}

impl View for JobReport {
    type V = JobReportView;

    open spec fn view(&self) -> JobReportView {
        JobReportView {
            labels: text::pairs(self.labels@),
            annotations: text::pairs(self.annotations@),
            conditions: conditions_of(self.conditions@),
        }
    }
}

/// How far a job is.
pub enum JobState {
    Running,
    Complete,
    /// It failed, for the reason given.
    Failed(String),
}

/// What a `JobState` says.
pub enum JobStateView {
    Running,
    Complete,
    Failed(Seq<char>),
}

impl View for JobState {
    type V = JobStateView;

    open spec fn view(&self) -> JobStateView {
        match self {
            JobState::Running => JobStateView::Running,
            JobState::Complete => JobStateView::Complete,
            JobState::Failed(reason) => JobStateView::Failed(reason@),
        }
    }
}

/// What one condition says of a job; `Running` where it says nothing of its end.
pub open spec fn condition_says(c: ConditionView) -> JobStateView {
    if c.status != "True"@ {
        JobStateView::Running
    } else if c.kind == "Complete"@ {
        JobStateView::Complete
    } else if c.kind == "Failed"@ {
        JobStateView::Failed(
            match c.message {
                Some(m) => m,
                None => match c.reason {
                    Some(r) => r,
                    None => Seq::empty(),
                },
            },
        )
    } else {
        JobStateView::Running
    }
}

/// How far a job is: the first condition that says it ended counts.
pub open spec fn state_of(conditions: Seq<ConditionView>) -> JobStateView
    decreases conditions.len(),
{
    if conditions.len() == 0 {
        JobStateView::Running
    } else if condition_says(conditions[0]) is Running {
        state_of(conditions.drop_first())
    } else {
        condition_says(conditions[0])
    }
}

/// What one condition says of a job.
fn condition_state(c: &Condition) -> (s: JobState)
    ensures
        s@ == condition_says(c@),
{
    proof {
        reveal_strlit("Complete");
        reveal_strlit("Failed");
        assert("Complete"@.len() != "Failed"@.len());
    }
    if !same_text(c.status.as_str(), "True") {
        return JobState::Running;
    }
    if same_text(c.kind.as_str(), "Complete") {
        return JobState::Complete;
    }
    if same_text(c.kind.as_str(), "Failed") {
        let reason = match &c.message {
            Some(m) => m.clone(),
            None => match &c.reason {
                Some(r) => r.clone(),
                None => String::new(),
            },
        };
        return JobState::Failed(reason);
    }
    JobState::Running
}

/// How far a job is.
pub fn job_state(job: &JobReport) -> (s: JobState)
    ensures
        s@ == state_of(job@.conditions),
{
    let ghost all = job@.conditions;
    assert(all.skip(0) =~= all);
    for i in 0..job.conditions.len()
        invariant
            all == job@.conditions,
            state_of(all.skip(i as int)) == state_of(all),
    {
        let s = condition_state(&job.conditions[i]);
        assert(all.skip(i as int)[0] == job.conditions@[i as int]@);
        assert(all.skip(i as int).drop_first() =~= all.skip(i + 1));
        match s {
            JobState::Running => {},
            _ => return s,
        }
    }
    assert(all.skip(all.len() as int) =~= Seq::empty());
    JobState::Running
}

/// The builder that a label names.
pub open spec fn backend_named(label: Option<Seq<char>>) -> Result<Backend, JobFault> {
    match label {
        Some(l) => if l == "buildkit"@ {
            Ok(Backend::Buildkit)
        } else if l == "kaniko"@ {
            Ok(Backend::Kaniko)
        } else if l == "buildah"@ {
            Ok(Backend::Buildah)
        } else {
            Err(JobFault::UnknownBackend(l))
        },
        None => Err(JobFault::NoBackend),
    }
}

/// The image that an annotation names.
pub open spec fn image_named(annotation: Option<Seq<char>>, job: Seq<char>) -> Result<
    Seq<char>,
    JobFault,
> {
    match annotation {
        Some(image) => Ok(image),
        None => Err(JobFault::NoImage(job)),
    }
}

/// What a result with a builder says.
pub open spec fn backend_result(r: Result<Backend, JobError>) -> Result<Backend, JobFault> {
    match r {
        Ok(b) => Ok(b),
        Err(e) => Err(e@),
    }
}

/// What a result with a string says.
pub open spec fn text_result(r: Result<String, JobError>) -> Result<Seq<char>, JobFault> {
    match r {
        Ok(s) => Ok(s@),
        Err(e) => Err(e@),
    }
}

/// The builder that a job runs.
pub fn backend_of(job: &JobReport) -> (r: Result<Backend, JobError>)
    ensures
        backend_result(r) == backend_named(text::value_at(job@.labels, "buildit/backend"@)),
{
    match lookup(job.labels.as_slice(), "buildit/backend") {
        Some(label) => {
            if same_text(label, "buildkit") {
                Ok(Backend::Buildkit)
            } else if same_text(label, "kaniko") {
                Ok(Backend::Kaniko)
            } else if same_text(label, "buildah") {
                Ok(Backend::Buildah)
            } else {
                Err(JobError::UnknownBackend(label.to_owned()))
            }
        },
        None => Err(JobError::NoBackend),
    }
}

/// The image that a job builds.
pub fn image_of(job: &JobReport, name: &str) -> (r: Result<String, JobError>)
    ensures
        text_result(r) == image_named(text::value_at(job@.annotations, "buildit/image"@), name@),
{
    match lookup(job.annotations.as_slice(), "buildit/image") {
        Some(image) => Ok(image.to_owned()),
        None => Err(JobError::NoImage(name.to_owned())),
    }
}

/// A job says of itself which builder it runs and which image it builds: whoever waits for it
/// reads back what it was made with.
pub proof fn job_is_read_back(b: Backend, name: Seq<char>, namespace: Seq<char>, args: DetachArgs)
    ensures
        ({
            let marks = builder::job_of(b, name, namespace, args).metadata;
            &&& backend_named(text::value_at(marks.labels, "buildit/backend"@)) == Ok::<
                Backend,
                JobFault,
            >(b)
            &&& image_named(text::value_at(marks.annotations, "buildit/image"@), name) == Ok::<
                Seq<char>,
                JobFault,
            >(args.image@)
        }),
{
    reveal_with_fuel(text::value_at, 3);
    reveal_strlit("app");
    reveal_strlit("buildit/backend");
    reveal_strlit("buildkit");
    reveal_strlit("kaniko");
    reveal_strlit("buildah");
    assert("app"@.len() == 3);
    assert("buildit/backend"@.len() == 15);
    assert("buildkit"@.len() == 8);
    assert("kaniko"@.len() == 6);
    assert("buildah"@.len() == 7);
    let labels = builder::job_of(b, name, namespace, args).metadata.labels;
    assert(labels[0].0 == "app"@);
    assert(labels.drop_first()[0] == ("buildit/backend"@, backend::label_of(b)));
}

/// What the cluster says of a container.
pub enum ContainerState {
    /// Nothing yet.
    Unknown,
    /// It has not ended.
    Alive,
    /// It ended, and may have left a message.
    Ended { exit_code: i32, message: Option<String> },
}

/// What a `ContainerState` says.
pub enum ContainerStateView {
    Unknown,
    Alive,
    Ended { exit_code: i32, message: Option<Seq<char>> },
}

impl View for ContainerState {
    type V = ContainerStateView;

    open spec fn view(&self) -> ContainerStateView {
        match self {
            ContainerState::Unknown => ContainerStateView::Unknown,
            ContainerState::Alive => ContainerStateView::Alive,
            ContainerState::Ended { exit_code, message } => ContainerStateView::Ended {
                exit_code: *exit_code,
                message: text::opt_text(*message),
            },
        }
    }
}

/// A container that the cluster shows.
pub struct ContainerReport {
    pub name: String,
    pub state: ContainerState,
}

/// A pod of a job that the cluster shows: when it was made, in nanoseconds, and its containers,
/// where it says anything of them.
pub struct PodReport {
    pub name: Option<String>,
    pub created: Option<i128>,
    pub containers: Option<Vec<ContainerReport>>,
}

/// What a `PodReport` holds.
pub struct PodReportView {
    pub name: Option<Seq<char>>,
    pub created: Option<i128>,
    pub containers: Option<Seq<(Seq<char>, ContainerStateView)>>,
}

pub open spec fn container_reports(containers: Seq<ContainerReport>) -> Seq<
    (Seq<char>, ContainerStateView),
> {
    containers.map_values(|c: ContainerReport| (c.name@, c.state@))
}

impl View for PodReport {
    type V = PodReportView;

    open spec fn view(&self) -> PodReportView {
        PodReportView {
            name: text::opt_text(self.name),
            created: self.created,
            containers: match self.containers {
                Some(c) => Some(container_reports(c@)),
                None => None,
            },
        }
    }
}

pub open spec fn pod_reports(pods: Seq<PodReport>) -> Seq<PodReportView> {
    pods.map_values(|p: PodReport| p@)
}

/// What is said of the first container with the name.
pub open spec fn state_named(
    containers: Seq<(Seq<char>, ContainerStateView)>,
    name: Seq<char>,
) -> ContainerStateView
    decreases containers.len(),
{
    if containers.len() == 0 {
        ContainerStateView::Unknown
    } else if containers[0].0 == name {
        containers[0].1
    } else {
        state_named(containers.drop_first(), name)
    }
}

/// What is said of the builder of a pod.
pub open spec fn builder_state(p: PodReportView) -> ContainerStateView {
    match p.containers {
        Some(containers) => state_named(containers, "builder"@),
        None => ContainerStateView::Unknown,
    }
}

/// What is said of the builder of a pod, where anything is.
fn builder_report(p: &PodReport) -> (state: Option<&ContainerState>)
    ensures
        match state {
            Some(s) => s@ == builder_state(p@),
            None => builder_state(p@) == ContainerStateView::Unknown,
        },
{
    match &p.containers {
        Some(containers) => {
            let ghost all = container_reports(containers@);
            assert(all.skip(0) =~= all);
            for i in 0..containers.len()
                invariant
                    all == container_reports(containers@),
                    state_named(all.skip(i as int), "builder"@) == state_named(all, "builder"@),
                    p@.containers == Some(all),
            {
                let c = &containers[i];
                assert(all.skip(i as int)[0] == (c.name@, c.state@));
                if same_text(c.name.as_str(), "builder") {
                    return Some(&c.state);
                }
                assert(all.skip(i as int).drop_first() =~= all.skip(i + 1));
            }
            assert(all.skip(all.len() as int) =~= Seq::empty());
            None
        },
        None => None,
    }
}

/// Whether the pod settles the question which message counts: its builder left one and
/// succeeded, or nothing is known of it. One that runs, failed or left nothing leaves the
/// question to the pods before it.
pub open spec fn decisive(p: PodReportView) -> bool {
    match builder_state(p) {
        ContainerStateView::Unknown => true,
        ContainerStateView::Alive => false,
        ContainerStateView::Ended { exit_code, message } => exit_code == 0 && message is Some,
    }
}

/// The message of a builder that succeeded.
pub open spec fn success_message(p: PodReportView) -> Option<Seq<char>> {
    match builder_state(p) {
        ContainerStateView::Ended { exit_code, message } if exit_code == 0 => message,
        _ => None,
    }
}

/// Whether the first time is no later than the second. No time at all is before every other.
pub open spec fn no_later(a: Option<i128>, b: Option<i128>) -> bool {
    match a {
        Some(x) => match b {
            Some(y) => x <= y,
            None => false,
        },
        None => true,
    }
}

/// The place of the newest pod that settles the question; of two made at one time the one
/// listed later is the newer.
pub open spec fn newest_decisive(pods: Seq<PodReportView>) -> Option<int>
    decreases pods.len(),
{
    if pods.len() == 0 {
        None
    } else {
        let n = pods.len() - 1;
        match newest_decisive(pods.drop_last()) {
            Some(k) => if decisive(pods[n]) && no_later(pods[k].created, pods[n].created) {
                Some(n)
            } else {
                Some(k)
            },
            None => if decisive(pods[n]) {
                Some(n)
            } else {
                None
            },
        }
    }
}

/// The message that the newest pod to settle the question left.
pub open spec fn message_in(pods: Seq<PodReportView>) -> Option<Seq<char>> {
    match newest_decisive(pods) {
        Some(i) => success_message(pods[i]),
        None => None,
    }
}

/// Whether the first time is no later than the second.
fn is_no_later(a: Option<i128>, b: Option<i128>) -> (yes: bool)
    ensures
        yes == no_later(a, b),
{
    match a {
        Some(x) => match b {
            Some(y) => x <= y,
            None => false,
        },
        None => true,
    }
}

/// Whether the pod settles the question which message counts.
fn is_decisive(p: &PodReport) -> (yes: bool)
    ensures
        yes == decisive(p@),
{
    match builder_report(p) {
        Some(state) => match state {
            ContainerState::Unknown => true,
            ContainerState::Alive => false,
            ContainerState::Ended { exit_code, message } => *exit_code == 0 && message.is_some(),
        },
        None => true,
    }
}

/// The message of a builder that succeeded.
fn message_of(p: &PodReport) -> (message: Option<String>)
    ensures
        text::opt_text(message) == success_message(p@),
{
    match builder_report(p) {
        Some(state) => match state {
            ContainerState::Ended { exit_code, message } => {
                if *exit_code == 0 {
                    match message {
                        Some(m) => Some(m.clone()),
                        None => None,
                    }
                } else {
                    None
                }
            },
            _ => None,
        },
        None => None,
    }
}

/// The message in which the builder of a job left the digest: the newest one that it left, of
/// all times the job was tried. Where nothing is known of a pod newer than that, there is none.
pub fn termination_message(pods: &[PodReport]) -> (message: Option<String>)
    ensures
        text::opt_text(message) == message_in(pod_reports(pods@)),
{
    let ghost all = pod_reports(pods@);
    let mut best: Option<usize> = None;
    assert(all.take(0) =~= Seq::empty());
    for i in 0..pods.len()
        invariant
            all == pod_reports(pods@),
            match best {
                Some(k) => k < i && newest_decisive(all.take(i as int)) == Some(k as int),
                None => newest_decisive(all.take(i as int)) is None,
            },
    {
        let ghost more = all.take(i + 1);
        assert(more.drop_last() =~= all.take(i as int));
        assert(more[i as int] == pods@[i as int]@);
        if is_decisive(&pods[i]) {
            match best {
                Some(k) => {
                    assert(more[k as int] == pods@[k as int]@);
                    if is_no_later(pods[k].created, pods[i].created) {
                        best = Some(i);
                    }
                },
                None => {
                    best = Some(i);
                },
            }
        }
    }
    assert(all.take(all.len() as int) =~= all);
    match best {
        Some(k) => {
            assert(all[k as int] == pods@[k as int]@);
            message_of(&pods[k])
        },
        None => None,
    }
}

/// Whether pod `i` is newer than pod `j`: made later, or made at the same time and listed later.
pub open spec fn newer(pods: Seq<PodReportView>, i: int, j: int) -> bool {
    !no_later(pods[i].created, pods[j].created) || (no_later(pods[j].created, pods[i].created) && j
        < i)
}

/// The pod whose message counts settles the question, and is newer than every other that does.
pub proof fn newest_decisive_is_newest(pods: Seq<PodReportView>)
    ensures
        match newest_decisive(pods) {
            Some(i) => {
                &&& 0 <= i < pods.len()
                &&& decisive(pods[i])
                &&& forall|j: int|
                    0 <= j < pods.len() && j != i && decisive(#[trigger] pods[j]) ==> newer(
                        pods,
                        i,
                        j,
                    )
            },
            None => forall|j: int| 0 <= j < pods.len() ==> !decisive(#[trigger] pods[j]),
        },
    decreases pods.len(),
{
    if pods.len() > 0 {
        let fewer = pods.drop_last();
        newest_decisive_is_newest(fewer);
        assert forall|j: int| 0 <= j < fewer.len() implies fewer[j] == pods[j] by {}
        if let Some(i) = newest_decisive(pods) {
            assert forall|j: int|
                0 <= j < pods.len() && j != i && decisive(#[trigger] pods[j]) implies newer(
                pods,
                i,
                j,
            ) by {
                if j < fewer.len() {
                    assert(decisive(fewer[j]));
                    if let Some(k) = newest_decisive(fewer) {
                        if k != j {
                            assert(newer(fewer, k, j));
                        }
                    }
                }
            }
        } else {
            assert forall|j: int| 0 <= j < pods.len() implies !decisive(#[trigger] pods[j]) by {
                if j < fewer.len() {
                    assert(!decisive(fewer[j]));
                }
            }
        }
    }
}

/// What a pod that failed has to say: the tail of its log, which the cluster puts in place of a
/// message.
pub open spec fn failure_line(p: PodReportView) -> Option<Seq<char>> {
    match builder_state(p) {
        ContainerStateView::Ended { exit_code, message: Some(m) } => Some(
            "pod "@ + match p.name {
                Some(name) => name,
                None => "?"@,
            } + ": "@ + text::trim_end(m),
        ),
        _ => None,
    }
}

/// What the pods of a job that failed have to say, in the order in which they are listed.
pub open spec fn failure_lines_of(pods: Seq<PodReportView>) -> Seq<Seq<char>>
    decreases pods.len(),
{
    if pods.len() == 0 {
        Seq::empty()
    } else {
        match failure_line(pods.last()) {
            Some(line) => failure_lines_of(pods.drop_last()).push(line),
            None => failure_lines_of(pods.drop_last()),
        }
    }
}

/// What a pod that failed has to say.
fn failure_of(p: &PodReport) -> (line: Option<String>)
    ensures
        text::opt_text(line) == failure_line(p@),
{
    match builder_report(p) {
        Some(state) => match state {
            ContainerState::Ended { exit_code: _, message } => match message {
                Some(m) => {
                    let name = match &p.name {
                        Some(n) => n.as_str(),
                        None => "?",
                    };
                    Some("pod ".to_owned().concat(name).concat(": ").concat(trimmed_end(m.as_str())))
                },
                None => None,
            },
            _ => None,
        },
        None => None,
    }
}

/// What the pods of a job that failed have to say, in the order in which they are listed.
pub fn failure_lines(pods: &[PodReport]) -> (lines: Vec<String>)
    ensures
        text::texts(lines@) == failure_lines_of(pod_reports(pods@)),
{
    let ghost all = pod_reports(pods@);
    let mut lines: Vec<String> = Vec::new();
    assert(all.take(0) =~= Seq::empty());
    assert(text::texts(lines@) =~= Seq::empty());
    for i in 0..pods.len()
        invariant
            all == pod_reports(pods@),
            text::texts(lines@) == failure_lines_of(all.take(i as int)),
    {
        assert(all.take(i + 1).drop_last() =~= all.take(i as int));
        assert(all.take(i + 1).last() == pods@[i as int]@);
        if let Some(line) = failure_of(&pods[i]) {
            let ghost before = lines@;
            lines.push(line);
            assert(text::texts(lines@) =~= text::texts(before).push(line@));
        }
    }
    assert(all.take(all.len() as int) =~= all);
    lines
}

/// The pods whose logs are followed, or were.
pub struct Followed {
    names: Vec<String>,
}

impl View for Followed {
    type V = Set<Seq<char>>;

    closed spec fn view(&self) -> Set<Seq<char>> {
        text::texts(self.names@).to_set()
    }
}

impl Followed {
    /// No pod yet.
    pub fn new() -> (f: Followed)
        ensures
            f@ == Set::<Seq<char>>::empty(),
    {
        let f = Followed { names: Vec::new() };
        assert(f@ =~= Set::<Seq<char>>::empty());
        f
    }

    /// Whether to follow the logs of a pod: it has a name, and was not followed before.
    pub fn wants(&self, name: &Option<String>) -> (yes: bool)
        ensures
            yes == match name {
                Some(n) => !self@.contains(n@),
                None => false,
            },
    {
        match name {
            Some(n) => {
                for i in 0..self.names.len()
                    invariant
                        *name == Some(*n),
                        forall|j: int| 0 <= j < i ==> (#[trigger] self.names@[j])@ != n@,
                {
                    if same_text(self.names[i].as_str(), n.as_str()) {
                        assert(text::texts(self.names@)[i as int] == n@);
                        assert(text::texts(self.names@).contains(n@));
                        return false;
                    }
                }
                proof {
                    if self@.contains(n@) {
                        let at = text::texts(self.names@).index_of(n@);
                        assert(text::texts(self.names@).contains(n@));
                        assert(self.names@[at]@ == n@);
                    }
                }
                true
            },
            None => false,
        }
    }

    /// Takes down that the logs of a pod are followed.
    pub fn mark(&mut self, name: String)
        ensures
            final(self)@ == old(self)@.insert(name@),
    {
        let ghost before = text::texts(self.names@);
        self.names.push(name);
        let ghost after = text::texts(self.names@);
        assert(after =~= before.push(name@));
        assert(after.to_set() =~= before.to_set().insert(name@)) by {
            assert forall|s: Seq<char>| after.contains(s) == (before.contains(s) || s == name@) by {
                if before.contains(s) {
                    let i = before.index_of(s);
                    assert(after[i] == s);
                }
                if s == name@ {
                    assert(after[before.len() as int] == s);
                }
                if after.contains(s) {
                    let i = after.index_of(s);
                    if i < before.len() {
                        assert(before[i] == s);
                    }
                }
            }
        }
    }
}

/// A pod that the cluster lists: its name, and whether its logs could be opened if they were
/// asked for.
pub struct Listing {
    pub name: Option<Seq<char>>,
    pub opens: bool,
}

/// Whether the logs of a pod are asked for: it has a name, and was not followed before.
pub open spec fn is_wanted(followed: Set<Seq<char>>, name: Option<Seq<char>>) -> bool {
    match name {
        Some(n) => !followed.contains(n),
        None => false,
    }
}

/// The pods that are followed once a pod was dealt with.
pub open spec fn after_pod(followed: Set<Seq<char>>, pod: Listing) -> Set<Seq<char>> {
    if is_wanted(followed, pod.name) && pod.opens {
        followed.insert(pod.name->0)
    } else {
        followed
    }
}

/// The pods that are followed once all pods of a list were dealt with, in order.
pub open spec fn after_list(followed: Set<Seq<char>>, pods: Seq<Listing>) -> Set<Seq<char>>
    decreases pods.len(),
{
    if pods.len() == 0 {
        followed
    } else {
        after_pod(after_list(followed, pods.drop_last()), pods.last())
    }
}

/// The pods of a list whose logs are asked for, in order.
pub open spec fn asked_of(followed: Set<Seq<char>>, pods: Seq<Listing>) -> Seq<Seq<char>>
    decreases pods.len(),
{
    if pods.len() == 0 {
        Seq::empty()
    } else {
        let before = asked_of(followed, pods.drop_last());
        if is_wanted(after_list(followed, pods.drop_last()), pods.last().name) {
            before.push(pods.last().name->0)
        } else {
            before
        }
    }
}

/// The pods of a list whose logs are asked for and opened, in order.
pub open spec fn opened_of(followed: Set<Seq<char>>, pods: Seq<Listing>) -> Seq<Seq<char>>
    decreases pods.len(),
{
    if pods.len() == 0 {
        Seq::empty()
    } else {
        let before = opened_of(followed, pods.drop_last());
        if is_wanted(after_list(followed, pods.drop_last()), pods.last().name)
            && pods.last().opens {
            before.push(pods.last().name->0)
        } else {
            before
        }
    }
}

/// The next place at which a pod is wanted, or the end of the list.
pub open spec fn next_wanted(
    followed: Set<Seq<char>>,
    names: Seq<Option<Seq<char>>>,
    at: int,
) -> int
    decreases names.len() - at,
{
    if at >= names.len() || is_wanted(followed, names[at]) {
        at
    } else {
        next_wanted(followed, names, at + 1)
    }
}

/// One pass over the pods of a job: the pods that the cluster listed, and how far it is.
pub struct Pass {
    names: Vec<Option<String>>,
    at: usize,
    followed: Followed,
}

/// What a `Pass` holds.
pub struct PassView {
    pub names: Seq<Option<Seq<char>>>,
    pub at: int,
    pub followed: Set<Seq<char>>,
}

pub open spec fn pod_names(names: Seq<Option<String>>) -> Seq<Option<Seq<char>>> {
    names.map_values(|n: Option<String>| text::opt_text(n))
}

impl View for Pass {
    type V = PassView;

    closed spec fn view(&self) -> PassView {
        PassView {
            names: pod_names(self.names@),
            at: self.at as int,
            followed: self.followed@,
        }
    }
}

impl Pass {
    /// A pass over the pods, of which some are followed already.
    pub fn over(followed: Followed, names: Vec<Option<String>>) -> (pass: Pass)
        ensures
            pass@ == (PassView {
                names: pod_names(names@),
                at: 0,
                followed: followed@,
            }),
    {
        Pass { names, at: 0, followed }
    }

    /// The next pod whose logs to ask for.
    pub fn ask(&mut self) -> (name: Option<String>)
        ensures
            final(self)@ == (PassView {
                at: next_wanted(old(self)@.followed, old(self)@.names, old(self)@.at),
                ..old(self)@
            }),
            text::opt_text(name) == (if final(self)@.at < final(self)@.names.len() {
                final(self)@.names[final(self)@.at]
            } else {
                None
            }),
    {
        let ghost before = self@;
        while self.at < self.names.len()
            invariant
                before == old(self)@,
                self@.names == before.names,
                self@.followed == before.followed,
                next_wanted(before.followed, before.names, self@.at) == next_wanted(
                    before.followed,
                    before.names,
                    before.at,
                ),
            decreases self.names@.len() - self.at,
        {
            let ghost now = self.at as int;
            assert(self@.names[now] == text::opt_text(self.names@[now]));
            if self.followed.wants(&self.names[self.at]) {
                return match &self.names[self.at] {
                    Some(n) => Some(n.clone()),
                    None => None,
                };
            }
            self.at = self.at + 1;
        }
        None
    }

    /// Takes down whether the logs that were asked for could be opened.
    pub fn answer(&mut self, opened: bool)
        ensures
            final(self)@ == (if old(self)@.at < old(self)@.names.len() {
                PassView {
                    at: old(self)@.at + 1,
                    followed: after_pod(
                        old(self)@.followed,
                        Listing { name: old(self)@.names[old(self)@.at], opens: opened },
                    ),
                    ..old(self)@
                }
            } else {
                old(self)@
            }),
    {
        if self.at < self.names.len() {
            let ghost now = self.at as int;
            assert(self@.names[now] == text::opt_text(self.names@[now]));
            if opened && self.followed.wants(&self.names[self.at]) {
                if let Some(n) = &self.names[self.at] {
                    let name = n.clone();
                    self.followed.mark(name);
                }
            }
            self.at = self.at + 1;
        }
    }

    /// The pods that are followed now.
    pub fn done(self) -> (followed: Followed)
        ensures
            followed@ == self@.followed,
    {
        self.followed
    }
}

/// The pods that are followed when a pass comes to its end, where `opens` says of each pod
/// whether its logs can be opened.
pub open spec fn pass_end(pass: PassView, opens: Seq<bool>) -> Set<Seq<char>>
    decreases pass.names.len() - pass.at,
    when 0 <= pass.at
    via pass_moves_on
{
    let at = next_wanted(pass.followed, pass.names, pass.at);
    if at >= pass.names.len() {
        pass.followed
    } else {
        pass_end(
            PassView {
                at: at + 1,
                followed: after_pod(
                    pass.followed,
                    Listing { name: pass.names[at], opens: opens[at] },
                ),
                ..pass
            },
            opens,
        )
    }
}

#[via_fn]
proof fn pass_moves_on(pass: PassView, opens: Seq<bool>) {
    next_wanted_is_next(pass.followed, pass.names, pass.at);
}

/// The pods whose logs a pass asks for from here on.
pub open spec fn pass_asks(pass: PassView, opens: Seq<bool>) -> Seq<Seq<char>>
    decreases pass.names.len() - pass.at,
    when 0 <= pass.at
    via pass_asks_moves_on
{
    let at = next_wanted(pass.followed, pass.names, pass.at);
    if at >= pass.names.len() {
        Seq::empty()
    } else {
        seq![pass.names[at]->0] + pass_asks(
            PassView {
                at: at + 1,
                followed: after_pod(
                    pass.followed,
                    Listing { name: pass.names[at], opens: opens[at] },
                ),
                ..pass
            },
            opens,
        )
    }
}

#[via_fn]
proof fn pass_asks_moves_on(pass: PassView, opens: Seq<bool>) {
    next_wanted_is_next(pass.followed, pass.names, pass.at);
}

proof fn next_wanted_is_next(
    followed: Set<Seq<char>>,
    names: Seq<Option<Seq<char>>>,
    at: int,
)
    ensures
        next_wanted(followed, names, at) >= at,
        at <= names.len() ==> next_wanted(followed, names, at) <= names.len(),
        forall|j: int|
            at <= j < next_wanted(followed, names, at) ==> !is_wanted(followed, #[trigger] names[j]),
        next_wanted(followed, names, at) < names.len() ==> is_wanted(
            followed,
            names[next_wanted(followed, names, at)],
        ),
    decreases names.len() - at,
{
    if at < names.len() && !is_wanted(followed, names[at]) {
        next_wanted_is_next(followed, names, at + 1);
    }
}

/// The pods of a pass, each with whether its logs can be opened.
pub open spec fn listing_of(names: Seq<Option<Seq<char>>>, opens: Seq<bool>) -> Seq<Listing> {
    Seq::new(names.len(), |i: int| Listing { name: names[i], opens: opens[i] })
}

/// Pods that are not wanted change nothing, and are not asked.
proof fn unwanted_pods_change_nothing(
    followed: Set<Seq<char>>,
    pods: Seq<Listing>,
    from: int,
    to: int,
)
    requires
        0 <= from <= to <= pods.len(),
        forall|j: int|
            from <= j < to ==> !is_wanted(
                after_list(followed, pods.take(from)),
                (#[trigger] pods[j]).name,
            ),
    ensures
        after_list(followed, pods.take(to)) == after_list(followed, pods.take(from)),
        asked_of(followed, pods.take(to)) == asked_of(followed, pods.take(from)),
    decreases to - from,
{
    if from < to {
        unwanted_pods_change_nothing(followed, pods, from, to - 1);
        assert(pods.take(to).drop_last() =~= pods.take(to - 1));
        assert(pods.take(to).last() == pods[to - 1]);
    }
}

proof fn pass_goes_on(
    followed: Set<Seq<char>>,
    names: Seq<Option<Seq<char>>>,
    opens: Seq<bool>,
    at: int,
)
    requires
        0 <= at <= names.len(),
    ensures
        ({
            let pods = listing_of(names, opens);
            let pass = PassView { names, at, followed: after_list(followed, pods.take(at)) };
            &&& pass_end(pass, opens) == after_list(followed, pods)
            &&& asked_of(followed, pods.take(at)) + pass_asks(pass, opens) == asked_of(
                followed,
                pods,
            )
        }),
    decreases names.len() - at,
{
    let pods = listing_of(names, opens);
    let now = after_list(followed, pods.take(at));
    let pass = PassView { names, at, followed: now };
    let i = next_wanted(now, names, at);
    next_wanted_is_next(now, names, at);
    unwanted_pods_change_nothing(followed, pods, at, i);
    if i < names.len() {
        assert(pods.take(i + 1).drop_last() =~= pods.take(i));
        assert(pods.take(i + 1).last() == pods[i]);
        pass_goes_on(followed, names, opens, i + 1);
        let rest = PassView { names, at: i + 1, followed: after_list(followed, pods.take(i + 1)) };
        assert(asked_of(followed, pods.take(i + 1)) =~= asked_of(followed, pods.take(at)).push(
            names[i]->0,
        ));
        assert(asked_of(followed, pods.take(at)) + (seq![names[i]->0] + pass_asks(rest, opens))
            =~= asked_of(followed, pods.take(i + 1)) + pass_asks(rest, opens));
    } else {
        assert(pods.take(names.len() as int) =~= pods);
        assert(asked_of(followed, pods) + Seq::<Seq<char>>::empty() =~= asked_of(followed, pods));
    }
}

/// A pass deals with the pods of a list in order: it asks for the logs of those that are wanted
/// when their turn comes, and follows those whose logs open.
pub proof fn pass_deals_with_list(
    followed: Set<Seq<char>>,
    names: Seq<Option<Seq<char>>>,
    opens: Seq<bool>,
)
    ensures
        pass_end(PassView { names, at: 0, followed }, opens) == after_list(
            followed,
            listing_of(names, opens),
        ),
        pass_asks(PassView { names, at: 0, followed }, opens) == asked_of(
            followed,
            listing_of(names, opens),
        ),
{
    let pods = listing_of(names, opens);
    pass_goes_on(followed, names, opens, 0);
    assert(pods.take(0) =~= Seq::empty());
    assert(asked_of(followed, pods.take(0)) + pass_asks(
        PassView { names, at: 0, followed },
        opens,
    ) =~= pass_asks(PassView { names, at: 0, followed }, opens));
}

/// After a list, the pods that are followed are those from before, and exactly those listed
/// whose logs could be opened.
pub proof fn list_adds_what_opens(followed: Set<Seq<char>>, pods: Seq<Listing>, name: Seq<char>)
    ensures
        after_list(followed, pods).contains(name) <==> followed.contains(name) || pods.contains(
            Listing { name: Some(name), opens: true },
        ),
    decreases pods.len(),
{
    if pods.len() > 0 {
        let it = Listing { name: Some(name), opens: true };
        let fewer = pods.drop_last();
        list_adds_what_opens(followed, fewer, name);
        if fewer.contains(it) {
            let i = fewer.index_of(it);
            assert(pods[i] == it);
        }
        if pods.contains(it) {
            let i = pods.index_of(it);
            if i < fewer.len() {
                assert(fewer[i] == it);
            }
        }
        if pods.last() == it {
            assert(pods[pods.len() - 1] == it);
        }
    }
}

/// The logs of a pod that is followed already are never asked for again.
pub proof fn followed_pods_are_not_asked(
    followed: Set<Seq<char>>,
    pods: Seq<Listing>,
    name: Seq<char>,
)
    requires
        followed.contains(name),
    ensures
        !asked_of(followed, pods).contains(name),
    decreases pods.len(),
{
    if pods.len() > 0 {
        let fewer = pods.drop_last();
        followed_pods_are_not_asked(followed, fewer, name);
        list_adds_what_opens(followed, fewer, name);
        let before = asked_of(followed, fewer);
        if asked_of(followed, pods).contains(name) {
            let i = asked_of(followed, pods).index_of(name);
            if i < before.len() {
                assert(before[i] == name);
            }
        }
    }
}

/// The logs of every listed pod that is not followed yet are asked for, those that could not be
/// opened before among them.
pub proof fn others_are_asked(followed: Set<Seq<char>>, pods: Seq<Listing>, i: int)
    requires
        0 <= i < pods.len(),
        pods[i].name is Some,
        !followed.contains(pods[i].name->0),
    ensures
        asked_of(followed, pods).contains(pods[i].name->0),
    decreases pods.len(),
{
    let name = pods[i].name->0;
    let fewer = pods.drop_last();
    let before = asked_of(followed, fewer);
    if i < fewer.len() {
        others_are_asked(followed, fewer, i);
        let k = before.index_of(name);
        assert(asked_of(followed, pods)[k] == name);
    } else if is_wanted(after_list(followed, fewer), Some(name)) {
        assert(asked_of(followed, pods).last() == name);
    } else {
        list_adds_what_opens(followed, fewer, name);
        let j = fewer.index_of(Listing { name: Some(name), opens: true });
        assert(fewer[j].name == Some(name));
        others_are_asked(followed, fewer, j);
        let k = before.index_of(name);
        assert(asked_of(followed, pods)[k] == name);
    }
}

/// The pods that are followed after several lists, one after the other.
pub open spec fn after_lists(followed: Set<Seq<char>>, lists: Seq<Seq<Listing>>) -> Set<Seq<char>>
    decreases lists.len(),
{
    if lists.len() == 0 {
        followed
    } else {
        after_list(after_lists(followed, lists.drop_last()), lists.last())
    }
}

/// The pods whose logs are opened over several lists, in order.
pub open spec fn opened_over(followed: Set<Seq<char>>, lists: Seq<Seq<Listing>>) -> Seq<Seq<char>>
    decreases lists.len(),
{
    if lists.len() == 0 {
        Seq::empty()
    } else {
        opened_over(followed, lists.drop_last()) + opened_of(
            after_lists(followed, lists.drop_last()),
            lists.last(),
        )
    }
}

proof fn opened_in_list(followed: Set<Seq<char>>, pods: Seq<Listing>)
    ensures
        opened_of(followed, pods).no_duplicates(),
        forall|n: Seq<char>| #[trigger]
            after_list(followed, pods).contains(n) <==> followed.contains(n) || opened_of(
                followed,
                pods,
            ).contains(n),
        forall|n: Seq<char>| #[trigger] opened_of(followed, pods).contains(n) ==> !followed.contains(
            n,
        ),
    decreases pods.len(),
{
    if pods.len() > 0 {
        let fewer = pods.drop_last();
        opened_in_list(followed, fewer);
        let before = opened_of(followed, fewer);
        let after = opened_of(followed, pods);
        if is_wanted(after_list(followed, fewer), pods.last().name) && pods.last().opens {
            let name = pods.last().name->0;
            assert(after == before.push(name));
            assert(!before.contains(name));
            assert forall|n: Seq<char>| #[trigger] after.contains(n) <==> before.contains(n) || n
                == name by {
                if before.contains(n) {
                    let i = before.index_of(n);
                    assert(after[i] == n);
                }
                if n == name {
                    assert(after[before.len() as int] == n);
                }
                if after.contains(n) {
                    let i = after.index_of(n);
                    if i < before.len() {
                        assert(before[i] == n);
                    }
                }
            }
        }
    }
}

proof fn opened_over_lists(followed: Set<Seq<char>>, lists: Seq<Seq<Listing>>)
    ensures
        opened_over(followed, lists).no_duplicates(),
        forall|n: Seq<char>| #[trigger]
            after_lists(followed, lists).contains(n) <==> followed.contains(n) || opened_over(
                followed,
                lists,
            ).contains(n),
    decreases lists.len(),
{
    if lists.len() > 0 {
        let fewer = lists.drop_last();
        let now = after_lists(followed, fewer);
        opened_over_lists(followed, fewer);
        opened_in_list(now, lists.last());
        let a = opened_over(followed, fewer);
        let b = opened_of(now, lists.last());
        let all = a + b;
        assert forall|n: Seq<char>| #[trigger] all.contains(n) <==> a.contains(n) || b.contains(
            n,
        ) by {
            if a.contains(n) {
                let i = a.index_of(n);
                assert(all[i] == n);
            }
            if b.contains(n) {
                let i = b.index_of(n);
                assert(all[a.len() + i] == n);
            }
            if all.contains(n) {
                let i = all.index_of(n);
                if i < a.len() {
                    assert(a[i] == n);
                } else {
                    assert(b[i - a.len()] == n);
                }
            }
        }
        assert forall|i: int, j: int|
            0 <= i < all.len() && 0 <= j < all.len() && i != j implies all[i] != all[j] by {
            if i < a.len() && j >= a.len() {
                assert(a.contains(a[i]));
                assert(b.contains(b[j - a.len()]));
                assert(now.contains(a[i]));
            }
            if j < a.len() && i >= a.len() {
                assert(a.contains(a[j]));
                assert(b.contains(b[i - a.len()]));
                assert(now.contains(a[j]));
            }
        }
    }
}

/// Over any number of lists the logs of each pod are followed at most once.
pub proof fn followed_once(followed: Set<Seq<char>>, lists: Seq<Seq<Listing>>)
    ensures
        opened_over(followed, lists).no_duplicates(),
{
    opened_over_lists(followed, lists);
}

/// What a job that is waited for is about.
pub struct Waiting {
    pub backend: Backend,
    pub image: String,
}

/// What is next in waiting for a job.
pub enum WaitStep {
    /// It runs: follow the logs of its new pods, and look again after so many seconds.
    Again { seconds: u64 },
    /// It is complete: read the message that its builder left.
    Finish,
    /// It failed: show what its pods have to say, and give up.
    Fail(JobError),
}

/// What waiting for a job is about, out of what the job says of itself.
pub fn open_wait(job: &JobReport, name: &str) -> (r: Result<Waiting, JobError>)
    ensures
        ({
            let backend = backend_named(text::value_at(job@.labels, "buildit/backend"@));
            let image = image_named(text::value_at(job@.annotations, "buildit/image"@), name@);
            match backend {
                Ok(b) => match image {
                    Ok(i) => r is Ok && r->Ok_0.backend == b && r->Ok_0.image@ == i,
                    Err(e) => r is Err && r->Err_0@ == e,
                },
                Err(e) => r is Err && r->Err_0@ == e,
            }
        }),
{
    let backend = match backend_of(job) {
        Ok(b) => b,
        Err(e) => return Err(e),
    };
    let image = match image_of(job, name) {
        Ok(i) => i,
        Err(e) => return Err(e),
    };
    Ok(Waiting { backend, image })
}

/// What is next once a job was looked at.
pub fn after_poll(job: &JobReport, name: &str) -> (step: WaitStep)
    ensures
        match state_of(job@.conditions) {
            JobStateView::Running => step == (WaitStep::Again { seconds: 2 }),
            JobStateView::Complete => step is Finish,
            JobStateView::Failed(reason) => step is Fail && step->Fail_0@ == (JobFault::Failed {
                job: name@,
                reason,
            }),
        },
{
    match job_state(job) {
        JobState::Running => WaitStep::Again { seconds: 2 },
        JobState::Complete => WaitStep::Finish,
        JobState::Failed(reason) => WaitStep::Fail(
            JobError::Failed { job: name.to_owned(), reason },
        ),
    }
}

/// The pinned reference of what a job pushed, out of the message that its builder left; nothing
/// where there is no message, and the registry has to be asked.
pub fn reported_ref(waiting: &Waiting, message: Option<&str>) -> (r: Result<
    Option<String>,
    DigestError,
>)
    ensures
        match message {
            Some(m) => match backend::reported_digest(
                waiting.backend,
                m@,
                json::parsed_json(m@),
            ) {
                Ok(digest) => r is Ok && text::opt_text(r->Ok_0) == Some(
                    build::pinned(waiting.image@, digest),
                ),
                Err(e) => r is Err && r->Err_0@ == e,
            },
            None => r is Ok && r->Ok_0 is None,
        },
{
    match message {
        Some(m) => match waiting.backend.digest_from(m) {
            Ok(digest) => Ok(Some(pinned_ref(waiting.image.as_str(), digest.as_str()))),
            Err(e) => Err(e),
        },
        None => Ok(None),
    }
}

/// The mark by which the pods of a job are found.
pub fn pod_selector(job: &str) -> (s: String)
    ensures
        s@ == "job-name="@ + job@,
{
    "job-name=".to_owned().concat(job)
}

/// The container whose logs are followed, and whose message counts.
pub fn builder_name() -> (s: String)
    ensures
        s@ == "builder"@,
{
    "builder".to_owned()
}

/// The container whose logs are followed is the one that builds, in every job.
pub proof fn builder_is_followed(b: Backend, name: Seq<char>, namespace: Seq<char>, args: DetachArgs)
    ensures
        ({
            let containers = builder::job_of(b, name, namespace, args).template.plan.containers;
            containers.len() == 1 && containers[0].name == "builder"@
        }),
{
}

/// The names that the objects have, as far as they have one, in the order in which they are
/// listed.
pub open spec fn names_in(objects: Seq<ListedView>) -> Seq<Seq<char>>
    decreases objects.len(),
{
    if objects.len() == 0 {
        Seq::empty()
    } else {
        match objects.last().name {
            Some(name) => names_in(objects.drop_last()).push(name),
            None => names_in(objects.drop_last()),
        }
    }
}

/// The jobs to delete: all of them. Their pods and secrets go with them.
pub fn clean(jobs: &[Listed]) -> (names: Vec<String>)
    ensures
        text::texts(names@) == names_in(pod::listed_of(jobs@)),
{
    let mut names: Vec<String> = Vec::new();
    let ghost all = pod::listed_of(jobs@);
    assert(all.take(0) =~= Seq::empty());
    assert(text::texts(names@) =~= Seq::empty());
    for i in 0..jobs.len()
        invariant
            all == pod::listed_of(jobs@),
            text::texts(names@) == names_in(all.take(i as int)),
    {
        assert(all.take(i + 1).drop_last() =~= all.take(i as int));
        assert(all.take(i + 1).last() == jobs@[i as int]@);
        if let Some(name) = &jobs[i].name {
            let ghost before = names@;
            names.push(name.clone());
            assert(text::texts(names@) =~= text::texts(before).push(name@));
        }
    }
    assert(all.take(all.len() as int) =~= all);
    names
}

/// The secrets to delete: those that no job owns any more.
pub fn clean_secrets(secrets: &[Listed]) -> (names: Vec<String>)
    ensures
        text::texts(names@) == pod::orphans(pod::listed_of(secrets@)),
{
    pod::clean(secrets)
}

}
