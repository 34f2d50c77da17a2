//! What a job says of itself and its pods say of the build, read off what the cluster shows.

use vstd::prelude::*;

use crate::backend::Backend;
use crate::job;
use crate::job::{
    Condition, ContainerState, JobError, JobFault, JobReport, JobStateView, PodReport, PodReportView,
};
use crate::pod::ListedView;
use crate::text;

verus! {

/// The secret of a job has the name of the job, which owns it, and holds the credentials as
/// they are, of the kind and under the key by which the cluster knows them.
pub proof fn secret_says(
    name: Seq<char>,
    namespace: Seq<char>,
    uid: Seq<char>,
    authfile: Seq<u8>,
)
    ensures
        ({
            let secret = job::secret_of(name, namespace, uid, authfile);
            &&& secret.metadata.name == Some(name)
            &&& secret.metadata.namespace == Some(namespace)
            &&& secret.metadata.labels.len() == 1
            &&& secret.metadata.labels[0] == ("app"@, "buildit"@)
            &&& secret.metadata.annotations.len() == 0
            &&& secret.owner_api_version == "batch/v1"@
            &&& secret.owner_kind == "Job"@
            &&& secret.owner_name == name
            &&& secret.owner_uid == uid
            &&& secret.kind == "kubernetes.io/dockerconfigjson"@
            &&& secret.key == ".dockerconfigjson"@
            &&& secret.data == authfile
        }),
{
}

/// Whether the condition says that the job came to an end.
pub open spec fn ends_job(c: Condition) -> bool {
    c.status@ == "True"@ && (c.kind@ == "Complete"@ || c.kind@ == "Failed"@)
}

/// The reason that a condition gives: its message, else its reason, else nothing.
pub open spec fn reason_given(c: Condition) -> Seq<char> {
    if c.message is Some {
        c.message->0@
    } else if c.reason is Some {
        c.reason->0@
    } else {
        Seq::empty()
    }
}

proof fn state_at(conditions: Seq<Condition>, at: int)
    requires
        0 <= at < conditions.len(),
        ends_job(conditions[at]),
        forall|i: int| 0 <= i < at ==> !ends_job(#[trigger] conditions[i]),
    ensures
        job::state_of(job::conditions_of(conditions)) == job::condition_says(conditions[at]@),
    decreases conditions.len(),
{
    let all = job::conditions_of(conditions);
    assert(all[0] == conditions[0]@);
    reveal_strlit("Complete");
    reveal_strlit("Failed");
    assert("Complete"@.len() != "Failed"@.len());
    if at > 0 {
        let rest = conditions.drop_first();
        assert(!ends_job(conditions[0]));
        assert forall|i: int| 0 <= i < at - 1 implies !ends_job(#[trigger] rest[i]) by {
            assert(!ends_job(conditions[i + 1]));
        }
        state_at(rest, at - 1);
        assert(all.drop_first() =~= job::conditions_of(rest));
    }
}

/// The first condition that says the job came to an end counts: the job is complete where that
/// condition says so, and has failed, for the reason given there, where it says that.
pub proof fn first_end_counts(report: JobReport, at: int)
    requires
        0 <= at < report.conditions@.len(),
        ends_job(report.conditions@[at]),
        forall|i: int| 0 <= i < at ==> !ends_job(#[trigger] report.conditions@[i]),
    ensures
        report.conditions@[at].kind@ == "Complete"@ ==> job::state_of(report@.conditions)
            == JobStateView::Complete,
        report.conditions@[at].kind@ == "Failed"@ ==> job::state_of(report@.conditions)
            == JobStateView::Failed(reason_given(report.conditions@[at])),
{
    reveal_strlit("Complete");
    reveal_strlit("Failed");
    assert("Complete"@.len() != "Failed"@.len());
    state_at(report.conditions@, at);
}

proof fn state_running(conditions: Seq<Condition>)
    requires
        forall|i: int| 0 <= i < conditions.len() ==> !ends_job(#[trigger] conditions[i]),
    ensures
        job::state_of(job::conditions_of(conditions)) == JobStateView::Running,
    decreases conditions.len(),
{
    let all = job::conditions_of(conditions);
    if conditions.len() > 0 {
        let rest = conditions.drop_first();
        assert(all[0] == conditions[0]@);
        assert(!ends_job(conditions[0]));
        assert forall|i: int| 0 <= i < rest.len() implies !ends_job(#[trigger] rest[i]) by {
            assert(!ends_job(conditions[i + 1]));
        }
        state_running(rest);
        assert(all.drop_first() =~= job::conditions_of(rest));
    }
}

/// A job of which no condition says that it came to an end is running.
pub proof fn without_end_it_runs(report: JobReport)
    requires
        forall|i: int| 0 <= i < report.conditions@.len() ==> !ends_job(
            #[trigger] report.conditions@[i],
        ),
    ensures
        job::state_of(report@.conditions) == JobStateView::Running,
{
    state_running(report.conditions@);
}

/// A job runs the builder that its label names, wherever the label stands, and none where the
/// name is another.
pub proof fn label_names_builder(report: JobReport, at: int)
    requires
        text::distinct_keys(text::pairs(report.labels@)),
        0 <= at < report.labels@.len(),
        report.labels@[at].0@ == "buildit/backend"@,
    ensures
        ({
            let word = report.labels@[at].1@;
            let named = job::backend_named(text::value_at(report@.labels, "buildit/backend"@));
            &&& word == "buildkit"@ ==> named == Ok::<Backend, JobFault>(Backend::Buildkit)
            &&& word == "kaniko"@ ==> named == Ok::<Backend, JobFault>(Backend::Kaniko)
            &&& word == "buildah"@ ==> named == Ok::<Backend, JobFault>(Backend::Buildah)
            &&& word != "buildkit"@ && word != "kaniko"@ && word != "buildah"@ ==> named == Err::<
                Backend,
                JobFault,
            >(JobFault::UnknownBackend(word))
        }),
{
    reveal_strlit("buildkit");
    reveal_strlit("kaniko");
    reveal_strlit("buildah");
    assert("buildkit"@.len() == 8 && "kaniko"@.len() == 6 && "buildah"@.len() == 7);
    let kvs = text::pairs(report.labels@);
    assert(kvs[at] == (report.labels@[at].0@, report.labels@[at].1@));
    assert forall|i: int| 0 <= i < at implies (#[trigger] kvs[i]).0 != kvs[at].0 by {}
    text::value_is_found(kvs, at);
}

/// A job builds the image that its annotation names, wherever the annotation stands.
pub proof fn annotation_names_image(report: JobReport, at: int, name: Seq<char>)
    requires
        text::distinct_keys(text::pairs(report.annotations@)),
        0 <= at < report.annotations@.len(),
        report.annotations@[at].0@ == "buildit/image"@,
    ensures
        job::image_named(text::value_at(report@.annotations, "buildit/image"@), name) == Ok::<
            Seq<char>,
            JobFault,
        >(report.annotations@[at].1@),
{
    let kvs = text::pairs(report.annotations@);
    assert(kvs[at] == (report.annotations@[at].0@, report.annotations@[at].1@));
    assert forall|i: int| 0 <= i < at implies (#[trigger] kvs[i]).0 != kvs[at].0 by {}
    text::value_is_found(kvs, at);
}

/// A job without the label names no builder, and one without the annotation no image.
pub proof fn unmarked_job_names_nothing(report: JobReport, name: Seq<char>)
    ensures
        (forall|i: int|
            0 <= i < report.labels@.len() ==> (#[trigger] report.labels@[i]).0@
                != "buildit/backend"@) ==> job::backend_named(
            text::value_at(report@.labels, "buildit/backend"@),
        ) == Err::<Backend, JobFault>(JobFault::NoBackend),
        (forall|i: int|
            0 <= i < report.annotations@.len() ==> (#[trigger] report.annotations@[i]).0@
                != "buildit/image"@) ==> job::image_named(
            text::value_at(report@.annotations, "buildit/image"@),
            name,
        ) == Err::<Seq<char>, JobFault>(JobFault::NoImage(name)),
{
    let labels = text::pairs(report.labels@);
    let annotations = text::pairs(report.annotations@);
    if forall|i: int|
        0 <= i < report.labels@.len() ==> (#[trigger] report.labels@[i]).0@
            != "buildit/backend"@ {
        assert forall|i: int| 0 <= i < labels.len() implies (#[trigger] labels[i]).0
            != "buildit/backend"@ by {
            assert(labels[i].0 == report.labels@[i].0@);
        }
        text::value_is_missing(labels, "buildit/backend"@);
    }
    if forall|i: int|
        0 <= i < report.annotations@.len() ==> (#[trigger] report.annotations@[i]).0@
            != "buildit/image"@ {
        assert forall|i: int| 0 <= i < annotations.len() implies (#[trigger] annotations[i]).0
            != "buildit/image"@ by {
            assert(annotations[i].0 == report.annotations@[i].0@);
        }
        text::value_is_missing(annotations, "buildit/image"@);
    }
}

/// Whether the first container of the pod that is called `builder` stands at the place.
pub open spec fn builder_at(p: PodReport, k: int) -> bool {
    &&& p.containers is Some
    &&& 0 <= k < p.containers->0@.len()
    &&& p.containers->0@[k].name@ == "builder"@
    &&& forall|j: int| 0 <= j < k ==> (#[trigger] p.containers->0@[j]).name@ != "builder"@
}

/// Whether the pod shows no container that is called `builder`.
pub open spec fn no_builder(p: PodReport) -> bool {
    p.containers is None || forall|j: int|
        0 <= j < p.containers->0@.len() ==> (#[trigger] p.containers->0@[j]).name@ != "builder"@
}

proof fn named_state(containers: Seq<job::ContainerReport>, k: int)
    requires
        0 <= k < containers.len(),
        containers[k].name@ == "builder"@,
        forall|j: int| 0 <= j < k ==> (#[trigger] containers[j]).name@ != "builder"@,
    ensures
        job::state_named(job::container_reports(containers), "builder"@) == containers[k].state@,
    decreases containers.len(),
{
    let all = job::container_reports(containers);
    assert(all[0] == (containers[0].name@, containers[0].state@));
    if k > 0 {
        let rest = containers.drop_first();
        assert(containers[0].name@ != "builder"@);
        assert forall|j: int| 0 <= j < k - 1 implies (#[trigger] rest[j]).name@ != "builder"@ by {
            assert(containers[j + 1].name@ != "builder"@);
        }
        named_state(rest, k - 1);
        assert(all.drop_first() =~= job::container_reports(rest));
    }
}

proof fn unnamed_state(containers: Seq<job::ContainerReport>)
    requires
        forall|j: int| 0 <= j < containers.len() ==> (#[trigger] containers[j]).name@
            != "builder"@,
    ensures
        job::state_named(job::container_reports(containers), "builder"@) is Unknown,
    decreases containers.len(),
{
    let all = job::container_reports(containers);
    if containers.len() > 0 {
        let rest = containers.drop_first();
        assert(all[0] == (containers[0].name@, containers[0].state@));
        assert(containers[0].name@ != "builder"@);
        assert forall|j: int| 0 <= j < rest.len() implies (#[trigger] rest[j]).name@
            != "builder"@ by {
            assert(containers[j + 1].name@ != "builder"@);
        }
        unnamed_state(rest);
        assert(all.drop_first() =~= job::container_reports(rest));
    }
}

/// What is said of the container called `builder` is what is said of the builder, whatever other
/// containers the pod has; without one nothing is.
pub proof fn builder_is_found(p: PodReport, k: int)
    ensures
        builder_at(p, k) ==> job::builder_state(p@) == p.containers->0@[k].state@,
        no_builder(p) ==> job::builder_state(p@) is Unknown,
{
    if builder_at(p, k) {
        named_state(p.containers->0@, k);
    }
    if no_builder(p) && p.containers is Some {
        unnamed_state(p.containers->0@);
    }
}

/// Whether the container ended well and left the message.
pub open spec fn left_message(s: ContainerState, m: Seq<char>) -> bool {
    s matches ContainerState::Ended { exit_code, message } && exit_code == 0 && message is Some
        && message->0@ == m
}

/// Whether the container has yet to end, ended badly, or left nothing.
pub open spec fn left_nothing(s: ContainerState) -> bool {
    ||| s is Alive
    ||| s matches ContainerState::Ended { exit_code, message } && (exit_code != 0 || message
        is None)
}

/// Whether the pod at place `j` was made before the one at place `i`: earlier, or at the same
/// time and listed before it. No time at all is before every other.
pub open spec fn made_before(pods: Seq<PodReport>, j: int, i: int) -> bool {
    match pods[j].created {
        Some(a) => match pods[i].created {
            Some(b) => a < b || (a == b && j < i),
            None => false,
        },
        None => pods[i].created is Some || j < i,
    }
}

/// Whether the pod at place `j` has no say against the one at place `i`: it was made before it,
/// or its builder left nothing.
pub open spec fn passed_over(pods: Seq<PodReport>, j: int, i: int) -> bool {
    ||| made_before(pods, j, i)
    ||| exists|k: int| #[trigger]
        builder_at(pods[j], k) && left_nothing(pods[j].containers->0@[k].state)
}

proof fn newest_is_at(pods: Seq<PodReport>, i: int)
    requires
        0 <= i < pods.len(),
        job::decisive(pods[i]@),
        forall|j: int| 0 <= j < pods.len() && j != i ==> #[trigger] passed_over(pods, j, i),
    ensures
        job::newest_decisive(job::pod_reports(pods)) == Some(i),
{
    let all = job::pod_reports(pods);
    job::newest_decisive_is_newest(all);
    assert(all[i] == pods[i]@);
    assert(job::decisive(all[i]));
    let x = job::newest_decisive(all)->0;
    if x != i {
        assert(all[x] == pods[x]@);
        assert(job::newer(all, x, i));
        assert(passed_over(pods, x, i));
        if !made_before(pods, x, i) {
            let k = choose|k: int| #[trigger]
                builder_at(pods[x], k) && left_nothing(pods[x].containers->0@[k].state);
            builder_is_found(pods[x], k);
            assert(false);
        }
    }
}

/// The message that counts is that of the newest pod whose builder ended well and left one:
/// pods made before it, and pods whose builder runs, failed or left nothing, are passed over.
pub proof fn newest_message_counts(pods: Seq<PodReport>, i: int, k: int, m: Seq<char>)
    requires
        0 <= i < pods.len(),
        builder_at(pods[i], k),
        left_message(pods[i].containers->0@[k].state, m),
        forall|j: int| 0 <= j < pods.len() && j != i ==> #[trigger] passed_over(pods, j, i),
    ensures
        job::message_in(job::pod_reports(pods)) == Some(m),
{
    builder_is_found(pods[i], k);
    newest_is_at(pods, i);
    assert(job::pod_reports(pods)[i] == pods[i]@);
}

/// Where nothing is known of the builder of a pod, and no newer one left a message, there is
/// none.
pub proof fn unknown_pod_hides_messages(pods: Seq<PodReport>, i: int)
    requires
        0 <= i < pods.len(),
        no_builder(pods[i]),
        forall|j: int| 0 <= j < pods.len() && j != i ==> #[trigger] passed_over(pods, j, i),
    ensures
        job::message_in(job::pod_reports(pods)) is None,
{
    builder_is_found(pods[i], 0);
    newest_is_at(pods, i);
    assert(job::pod_reports(pods)[i] == pods[i]@);
}

/// Whether the builder of the pod left nothing.
pub open spec fn says_nothing(p: PodReport) -> bool {
    exists|k: int| #[trigger] builder_at(p, k) && left_nothing(p.containers->0@[k].state)
}

/// Where no builder left a message there is none.
pub proof fn no_message_without_success(pods: Seq<PodReport>)
    requires
        forall|j: int| 0 <= j < pods.len() ==> says_nothing(#[trigger] pods[j]),
    ensures
        job::message_in(job::pod_reports(pods)) is None,
{
    let all = job::pod_reports(pods);
    job::newest_decisive_is_newest(all);
    if job::newest_decisive(all) is Some {
        let x = job::newest_decisive(all)->0;
        assert(all[x] == pods[x]@);
        assert(says_nothing(pods[x]));
        let k = choose|k: int| #[trigger]
            builder_at(pods[x], k) && left_nothing(pods[x].containers->0@[k].state);
        builder_is_found(pods[x], k);
        assert(false);
    }
}

/// A pod whose builder ended and left a message is named with it, without the white space at
/// its end, however it ended.
pub proof fn failure_is_told(p: PodReport, k: int, m: Seq<char>, blanks: Seq<char>)
    requires
        builder_at(p, k),
        p.containers->0@[k].state is Ended,
        p.containers->0@[k].state->Ended_message is Some,
        p.containers->0@[k].state->Ended_message->0@ == m + blanks,
        m.len() == 0 || !text::white_space(m.last()),
        forall|i: int| 0 <= i < blanks.len() ==> text::white_space(#[trigger] blanks[i]),
    ensures
        p.name matches Some(name) ==> job::failure_line(p@) == Some(
            "pod "@ + name@ + ": "@ + m,
        ),
        p.name is None ==> job::failure_line(p@) == Some("pod "@ + "?"@ + ": "@ + m),
{
    builder_is_found(p, k);
    text::end_is_trimmed(m, blanks);
}

/// A pod whose builder has yet to end, left no message or is not there has nothing to say.
pub proof fn no_failure_is_told(p: PodReport, k: int)
    requires
        no_builder(p) || (builder_at(p, k) && (p.containers->0@[k].state is Unknown
            || p.containers->0@[k].state is Alive || (p.containers->0@[k].state is Ended
            && p.containers->0@[k].state->Ended_message is None))),
    ensures
        job::failure_line(p@) is None,
{
    builder_is_found(p, k);
}

/// What pods have to say comes in the order in which they are listed, and each says its own.
pub proof fn failures_keep_order(pods: Seq<PodReportView>, more: Seq<PodReportView>)
    ensures
        job::failure_lines_of(pods + more) == job::failure_lines_of(pods) + job::failure_lines_of(
            more,
        ),
        more.len() == 1 && job::failure_line(more[0]) is Some ==> job::failure_lines_of(more)
            == seq![job::failure_line(more[0])->0],
        more.len() == 1 && job::failure_line(more[0]) is None ==> job::failure_lines_of(more).len()
            == 0,
    decreases more.len(),
{
    let all = pods + more;
    if more.len() == 0 {
        assert(all =~= pods);
        assert(job::failure_lines_of(pods) + Seq::<Seq<char>>::empty() =~= job::failure_lines_of(
            pods,
        ));
    } else {
        let fewer = more.drop_last();
        failures_keep_order(pods, fewer);
        assert(all.drop_last() =~= pods + fewer);
        assert(all.last() == more.last());
        let a = job::failure_lines_of(pods);
        let b = job::failure_lines_of(fewer);
        if job::failure_line(more.last()) is Some {
            let line = job::failure_line(more.last())->0;
            assert((a + b).push(line) =~= a + b.push(line));
        }
        if more.len() == 1 {
            assert(fewer =~= Seq::empty());
            assert(more.last() == more[0]);
        }
    }
}

/// Every job that has a name is deleted, owned or not, in the order in which it is listed.
pub proof fn every_name_is_listed(objects: Seq<ListedView>, more: Seq<ListedView>)
    ensures
        job::names_in(objects + more) == job::names_in(objects) + job::names_in(more),
        more.len() == 1 && more[0].name is Some ==> job::names_in(more) == seq![more[0].name->0],
        more.len() == 1 && more[0].name is None ==> job::names_in(more).len() == 0,
    decreases more.len(),
{
    let all = objects + more;
    if more.len() == 0 {
        assert(all =~= objects);
        assert(job::names_in(objects) + Seq::<Seq<char>>::empty() =~= job::names_in(objects));
    } else {
        let fewer = more.drop_last();
        every_name_is_listed(objects, fewer);
        assert(all.drop_last() =~= objects + fewer);
        assert(all.last() == more.last());
        let a = job::names_in(objects);
        let b = job::names_in(fewer);
        if more.last().name is Some {
            let n = more.last().name->0;
            assert((a + b).push(n) =~= a + b.push(n));
        }
        if more.len() == 1 {
            assert(fewer =~= Seq::empty());
            assert(more.last() == more[0]);
        }
    }
}

/// The logs of a pod are wanted where it has a name that is not followed.
pub proof fn unfollowed_names_are_wanted(followed: Set<Seq<char>>, name: Seq<char>)
    ensures
        job::is_wanted(followed, Some(name)) <==> !followed.contains(name),
        !job::is_wanted(followed, None),
{
}

/// The names that a pass goes over are those that it is given, one for one.
pub proof fn pass_names_one_for_one(names: Seq<Option<String>>, i: int)
    requires
        0 <= i < names.len(),
    ensures
        job::pod_names(names).len() == names.len(),
        names[i] is None ==> job::pod_names(names)[i] is None,
        names[i] matches Some(name) ==> job::pod_names(names)[i] == Some(name@),
{
}

/// A result says what it holds, and a fault what it names.
pub proof fn job_results_say(s: String, b: Backend, e: JobError)
    ensures
        job::backend_result(Ok(b)) == Ok::<Backend, JobFault>(b),
        job::backend_result(Err(e)) == Err::<Backend, JobFault>(e@),
        job::text_result(Ok(s)) == Ok::<Seq<char>, JobFault>(s@),
        job::text_result(Err(e)) == Err::<Seq<char>, JobFault>(e@),
        e is NoUid ==> e@ is NoUid,
        e is NoBackend ==> e@ is NoBackend,
        e matches JobError::UnknownBackend(label) ==> e@ == JobFault::UnknownBackend(label@),
        e matches JobError::NoImage(name) ==> e@ == JobFault::NoImage(name@),
        e matches JobError::Failed { job, reason } ==> e@ == (JobFault::Failed {
            job: job@,
            reason: reason@,
        }),
{
}

/// A pass goes on to the first pod that has a name which is not followed, and to the end where
/// there is none.
pub proof fn pass_goes_to_first_unfollowed(
    followed: Set<Seq<char>>,
    names: Seq<Option<Seq<char>>>,
    at: int,
    j: int,
)
    requires
        0 <= at <= names.len(),
    ensures
        ({
            let next = job::next_wanted(followed, names, at);
            &&& at <= next <= names.len()
            &&& at <= j < next ==> (names[j] is None || followed.contains(names[j]->0))
            &&& next < names.len() ==> names[next] is Some && !followed.contains(names[next]->0)
        }),
    decreases names.len() - at,
{
    if at < names.len() && !job::is_wanted(followed, names[at]) {
        pass_goes_to_first_unfollowed(followed, names, at + 1, j);
    }
}

/// A builder that has yet to end, ended badly or left nothing has no message that counts; one that
/// ended well has the one that it left.
pub proof fn only_success_leaves_a_message(p: PodReport, k: int, m: Seq<char>)
    requires
        builder_at(p, k),
    ensures
        left_nothing(p.containers->0@[k].state) ==> job::success_message(p@) is None,
        left_message(p.containers->0@[k].state, m) ==> job::success_message(p@) == Some(m),
{
    builder_is_found(p, k);
}

}
