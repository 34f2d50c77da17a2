//! A build from end to end: what is done in which order, and what is reported.

use vstd::prelude::*;

use crate::auth;
use crate::backend;
use crate::backend::{Backend, CacheVolume, DigestError, DigestFault};
use crate::builder;
use crate::json;
use crate::manifest::ResourcesView;
use crate::oci;
use crate::oci::repo_of;
use crate::text;

verus! {

broadcast use vstd::string::group_string_axioms;

/// An image by its digest: quay.io/foo@sha256:... of quay.io/foo:tag.
pub open spec fn pinned(image: Seq<char>, digest: Seq<char>) -> Seq<char> {
    oci::repo_in(image) + "@"@ + digest
}

/// An image by its digest: quay.io/foo@sha256:... of quay.io/foo:tag.
pub fn pinned_ref(image: &str, digest: &str) -> (r: String)
    ensures
        r@ == pinned(image@, digest@),
{
    repo_of(image).to_owned().concat("@").concat(digest)
}

/// A pinned image is in the registry that the image was pushed to.
pub proof fn pinned_is_in_registry(image: Seq<char>, digest: Seq<char>)
    requires
        auth::registry_in(image) is Ok,
    ensures
        auth::registry_in(pinned(image, digest)) == auth::registry_in(image),
{
    let tail = "@"@ + digest;
    oci::first_part_is_of_repo(image, tail);
    assert(pinned(image, digest) =~= oci::repo_in(image) + tail);
}

/// What is pinned rests on the repository and the digest, and not on the tag.
pub proof fn pinned_forgets_tag(image: Seq<char>, other: Seq<char>, digest: Seq<char>)
    requires
        oci::repo_in(image) == oci::repo_in(other),
    ensures
        pinned(image, digest) == pinned(other, digest),
{
}

/// What a command in the builder is fed.
#[derive(Clone, Copy, PartialEq, Eq, Debug, Structural)]
pub enum Input {
    Nothing,
    /// The build context, packed.
    Context,
    /// The credentials for the registry.
    Authfile,
}

/// A command to run in the builder.
pub struct Step {
    pub argv: Vec<String>,
    pub input: Input,
}

/// What a `Step` holds.
pub struct StepView {
    pub argv: Seq<Seq<char>>,
    pub input: Input,
}

impl View for Step {
    type V = StepView;

    open spec fn view(&self) -> StepView {
        StepView { argv: text::texts(self.argv@), input: self.input }
    }
}

pub open spec fn step_views(steps: Seq<Step>) -> Seq<StepView> {
    steps.map_values(|s: Step| s@)
}

/// The commands that stage a build: make room, unpack the context, store the credentials.
pub open spec fn staging_steps(b: Backend) -> Seq<StepView> {
    seq![
        StepView {
            argv: backend::scripted(b, backend::setup_script(b)),
            input: Input::Nothing,
        },
        StepView { argv: backend::scripted(b, "tar xzf - -C "@ + backend::workspace_of(b)), input: Input::Context },
        StepView { argv: backend::scripted(b, "cat > "@ + backend::auth_path_of(b)), input: Input::Authfile },
    ]
}

/// All the commands of a build, in order: staging, then building and pushing, with the cache
/// where there is one.
pub open spec fn drive_steps(
    b: Backend,
    image: Seq<char>,
    dockerfile: Seq<char>,
    build_args: Seq<Seq<char>>,
    labels: Seq<(Seq<char>, Seq<char>)>,
    cache: Option<CacheVolume>,
) -> Seq<StepView> {
    staging_steps(b) + backend::steps_of(b, image, dockerfile, build_args, labels).map_values(
        |argv: Seq<Seq<char>>|
            StepView { argv: argv + builder::cache_flags_of(b, cache), input: Input::Nothing },
    )
}

/// All the commands of a build, in order.
pub fn drive(
    backend: Backend,
    image: &str,
    dockerfile: &str,
    build_args: &[String],
    labels: &[(String, String)],
    cache: Option<CacheVolume<'_>>,
) -> (steps: Vec<Step>)
    ensures
        step_views(steps@) == drive_steps(
            backend,
            image@,
            dockerfile@,
            text::texts(build_args@),
            text::pairs(labels@),
            cache,
        ),
{
    let mut steps: Vec<Step> = Vec::new();
    steps.push(Step { argv: backend.setup_command(), input: Input::Nothing });
    steps.push(Step { argv: backend.untar_command(), input: Input::Context });
    steps.push(Step { argv: backend.auth_upload_command(), input: Input::Authfile });
    let ghost staged = steps@;
    assert(step_views(staged) =~= staging_steps(backend));
    let builds = backend.build_steps(image, dockerfile, build_args, labels);
    let ghost all = builds@;
    let ghost argvs = backend::steps_of(
        backend,
        image@,
        dockerfile@,
        text::texts(build_args@),
        text::pairs(labels@),
    );
    let ghost added = builder::cache_flags_of(backend, cache);
    for words in it: builds
        invariant
            it.seq() == all,
            added == builder::cache_flags_of(backend, cache),
            steps@.len() == staged.len() + it.index(),
            forall|j: int| 0 <= j < staged.len() ==> (#[trigger] steps@[j]) == staged[j],
            forall|j: int|
                0 <= j < it.index() ==> text::texts((#[trigger] steps@[staged.len() + j]).argv@)
                    == text::texts(all[j]@) + added && steps@[staged.len() + j].input
                    == Input::Nothing,
    {
        let ghost i = it.index() as int;
        let mut argv = words;
        let mut flags = backend.cache_flags(cache);
        let ghost tail = flags@;
        argv.append(&mut flags);
        assert(text::texts(argv@) =~= text::texts(all[i]@) + text::texts(tail));
        steps.push(Step { argv, input: Input::Nothing });
    }
    assert(step_views(steps@) =~= step_views(staged) + argvs.map_values(
        |argv: Seq<Seq<char>>| StepView { argv: argv + added, input: Input::Nothing },
    )) by {
        assert forall|j: int| 0 <= j < argvs.len() implies step_views(steps@)[staged.len() + j]
            == (StepView { argv: argvs[j] + added, input: Input::Nothing }) by {
            assert(steps@[staged.len() + j].input == Input::Nothing);
            assert(argvs[j] == text::texts(all[j]@));
        }
    }
    steps
}

/// A cache is used in a pod as it is in a job: kaniko is given the flags that name it, and no
/// other builder needs any.
pub proof fn cache_is_used(
    b: Backend,
    image: Seq<char>,
    dockerfile: Seq<char>,
    build_args: Seq<Seq<char>>,
    labels: Seq<(Seq<char>, Seq<char>)>,
    resources: ResourcesView,
    cache: CacheVolume,
)
    ensures
        ({
            let steps = drive_steps(b, image, dockerfile, build_args, labels, Some(cache));
            let job = builder::cached_container(
                b,
                builder::job_container_of(b, image, dockerfile, build_args, labels, resources),
                Some(cache),
            );
            if b == Backend::Kaniko {
                &&& steps.last().argv.contains("--cache=true"@)
                &&& steps.last().argv.contains("--cache-dir="@ + backend::cache_mount_path_of(b))
                &&& job.command.contains("--cache=true"@)
                &&& job.command.contains("--cache-dir="@ + backend::cache_mount_path_of(b))
            } else {
                &&& steps == drive_steps(b, image, dockerfile, build_args, labels, None)
                &&& job.command == builder::job_command_of(
                    b,
                    image,
                    dockerfile,
                    build_args,
                    labels,
                )
            }
        }),
{
    let steps = drive_steps(b, image, dockerfile, build_args, labels, Some(cache));
    let flags = builder::cache_flags_of(b, Some(cache));
    if b == Backend::Kaniko {
        let argv = backend::steps_of(b, image, dockerfile, build_args, labels)[0];
        assert(steps.last().argv == argv + flags);
        assert((argv + flags)[argv.len() as int] == flags[0]);
        assert((argv + flags)[argv.len() as int + 1] == flags[1]);
        let command = builder::job_command_of(b, image, dockerfile, build_args, labels);
        assert((command + flags)[command.len() as int] == flags[0]);
        assert((command + flags)[command.len() as int + 1] == flags[1]);
    }
}

/// What came of driving a build.
pub enum Outcome {
    /// The image was pushed, and this is its digest.
    Digest(String),
    /// The image was pushed, but what the builder reports is no digest.
    BadDigest(DigestError),
    /// The pod did not start, or a command failed.
    Failed,
    /// The build was interrupted.
    Interrupted,
}

/// What an `Outcome` says.
pub enum OutcomeView {
    Digest(Seq<char>),
    BadDigest(DigestFault),
    Failed,
    Interrupted,
}

impl View for Outcome {
    type V = OutcomeView;

    open spec fn view(&self) -> OutcomeView {
        match self {
            Outcome::Digest(d) => OutcomeView::Digest(d@),
            Outcome::BadDigest(e) => OutcomeView::BadDigest(e@),
            Outcome::Failed => OutcomeView::Failed,
            Outcome::Interrupted => OutcomeView::Interrupted,
        }
    }
}

/// How far a build in a pod is, from the moment that the pod is created.
pub enum Phase {
    /// The pod is to be running.
    Starting,
    /// The command at this place is to be run.
    Stepping(usize),
    /// The digest is to be read.
    Reading,
    /// The pod is to be deleted.
    Deleting(Outcome),
    /// It is over.
    Over(Outcome),
}

/// What a `Phase` says.
pub enum PhaseView {
    Starting,
    Stepping(int),
    Reading,
    Deleting(OutcomeView),
    Over(OutcomeView),
}

impl View for Phase {
    type V = PhaseView;

    open spec fn view(&self) -> PhaseView {
        match self {
            Phase::Starting => PhaseView::Starting,
            Phase::Stepping(k) => PhaseView::Stepping(*k as int),
            Phase::Reading => PhaseView::Reading,
            Phase::Deleting(o) => PhaseView::Deleting(o@),
            Phase::Over(o) => PhaseView::Over(o@),
        }
    }
}

/// What happened to what was to be done.
pub enum Event {
    /// It was done, and this was printed.
    Done(String),
    /// It failed.
    Failed,
    /// The build was interrupted meanwhile.
    Interrupted,
}

/// What an `Event` says.
pub enum EventView {
    Done(Seq<char>),
    Failed,
    Interrupted,
}

impl View for Event {
    type V = EventView;

    open spec fn view(&self) -> EventView {
        match self {
            Event::Done(printed) => EventView::Done(printed@),
            Event::Failed => EventView::Failed,
            Event::Interrupted => EventView::Interrupted,
        }
    }
}

/// What is to be done.
pub enum Action {
    /// Wait so many seconds at most for the pod to run.
    AwaitReady { seconds: u64 },
    /// Run the command at this place.
    Run(usize),
    /// Run the command that prints the digest.
    ReadDigest,
    /// Delete the pod.
    DeletePod,
    /// Report what came of it.
    Report,
}

/// The phase with the command at place `k`, where there are so many, else with the digest.
pub open spec fn phase_at(k: int, steps: int) -> PhaseView {
    if k < steps {
        PhaseView::Stepping(k)
    } else {
        PhaseView::Reading
    }
}

/// The outcome that a report of a digest gives.
pub open spec fn outcome_in(digest: Result<Seq<char>, DigestFault>) -> OutcomeView {
    match digest {
        Ok(d) => OutcomeView::Digest(d),
        Err(e) => OutcomeView::BadDigest(e),
    }
}

/// The phase that follows. What goes wrong while the build is driven has the pod deleted; once
/// it is, or could not be, it is over.
pub open spec fn next_phase(phase: PhaseView, event: EventView, steps: int, b: Backend) -> PhaseView {
    match phase {
        PhaseView::Deleting(o) => PhaseView::Over(o),
        PhaseView::Over(o) => PhaseView::Over(o),
        _ => match event {
            EventView::Failed => PhaseView::Deleting(OutcomeView::Failed),
            EventView::Interrupted => PhaseView::Deleting(OutcomeView::Interrupted),
            EventView::Done(printed) => match phase {
                PhaseView::Starting => phase_at(0, steps),
                PhaseView::Stepping(k) => phase_at(k + 1, steps),
                _ => PhaseView::Deleting(
                    outcome_in(
                        backend::reported_digest(b, printed, json::parsed_json(printed)),
                    ),
                ),
            },
        },
    }
}

/// The phase with the command at place `k`, where there are so many, else with the digest.
fn stepping(k: usize, steps: usize) -> (phase: Phase)
    ensures
        phase@ == phase_at(k as int, steps as int),
{
    if k < steps {
        Phase::Stepping(k)
    } else {
        Phase::Reading
    }
}

/// The outcome that a report of a digest gives.
pub fn outcome_from(digest: Result<String, DigestError>) -> (o: Outcome)
    ensures
        o@ == outcome_in(backend::digest_result(digest)),
{
    match digest {
        Ok(d) => Outcome::Digest(d),
        Err(e) => Outcome::BadDigest(e),
    }
}

impl Phase {
    /// What is to be done in a phase.
    pub fn action(&self) -> (action: Action)
        ensures
            match self {
                Phase::Starting => action == (Action::AwaitReady { seconds: 180 }),
                Phase::Stepping(k) => action == Action::Run(*k),
                Phase::Reading => action is ReadDigest,
                Phase::Deleting(_) => action is DeletePod,
                Phase::Over(_) => action is Report,
            },
    {
        match self {
            Phase::Starting => Action::AwaitReady { seconds: 180 },
            Phase::Stepping(k) => Action::Run(*k),
            Phase::Reading => Action::ReadDigest,
            Phase::Deleting(_) => Action::DeletePod,
            Phase::Over(_) => Action::Report,
        }
    }

    /// The phase that follows.
    pub fn advance(self, event: Event, steps: usize, backend: Backend) -> (next: Phase)
        ensures
            next@ == next_phase(self@, event@, steps as int, backend),
            next matches Phase::Stepping(k) ==> k < steps,
    {
        match self {
            Phase::Deleting(o) => Phase::Over(o),
            Phase::Over(o) => Phase::Over(o),
            Phase::Starting => match event {
                Event::Done(_) => stepping(0, steps),
                Event::Failed => Phase::Deleting(Outcome::Failed),
                Event::Interrupted => Phase::Deleting(Outcome::Interrupted),
            },
            Phase::Stepping(k) => match event {
                Event::Done(_) => if k < steps {
                    stepping(k + 1, steps)
                } else {
                    Phase::Reading
                },
                Event::Failed => Phase::Deleting(Outcome::Failed),
                Event::Interrupted => Phase::Deleting(Outcome::Interrupted),
            },
            Phase::Reading => match event {
                Event::Done(printed) => Phase::Deleting(
                    outcome_from(backend.digest_from(printed.as_str())),
                ),
                Event::Failed => Phase::Deleting(Outcome::Failed),
                Event::Interrupted => Phase::Deleting(Outcome::Interrupted),
            },
        }
    }
}

/// What is printed when it is over: the image by its digest, where it was pushed.
pub fn report(image: &str, outcome: &Outcome) -> (line: Option<String>)
    ensures
        text::opt_text(line) == match outcome@ {
            OutcomeView::Digest(digest) => Some(pinned(image@, digest)),
            _ => None,
        },
{
    match outcome {
        Outcome::Digest(digest) => Some(pinned_ref(image, digest.as_str())),
        _ => None,
    }
}

/// The phase after the given events, from the moment that the pod is created.
pub open spec fn phase_after(events: Seq<EventView>, steps: int, b: Backend) -> PhaseView
    decreases events.len(),
{
    if events.len() == 0 {
        PhaseView::Starting
    } else {
        next_phase(phase_after(events.drop_last(), steps, b), events.last(), steps, b)
    }
}

/// How many events a phase is from the end, at most.
pub open spec fn distance(phase: PhaseView, steps: int) -> int {
    match phase {
        PhaseView::Starting => steps + 3,
        PhaseView::Stepping(k) => steps - k + 2,
        PhaseView::Reading => 2,
        PhaseView::Deleting(_) => 1,
        PhaseView::Over(_) => 0,
    }
}

/// Whether the phase is one of a build with so many commands.
pub open spec fn phase_fits(phase: PhaseView, steps: int) -> bool {
    phase matches PhaseView::Stepping(k) ==> 0 <= k < steps
}

/// Whatever happens, a build is never over before its pod was to be deleted: the phase before
/// the end is that of deleting, with the outcome that is reported.
pub proof fn pod_is_deleted_first(events: Seq<EventView>, steps: int, b: Backend)
    requires
        steps >= 0,
        phase_after(events, steps, b) is Over,
    ensures
        exists|n: int|
            0 <= n < events.len() && phase_after(#[trigger] events.take(n), steps, b)
                == PhaseView::Deleting(phase_after(events, steps, b)->Over_0),
    decreases events.len(),
{
    if events.len() > 0 {
        let fewer = events.drop_last();
        assert(fewer =~= events.take(events.len() - 1));
        if phase_after(fewer, steps, b) is Over {
            pod_is_deleted_first(fewer, steps, b);
            let n = choose|n: int|
                0 <= n < fewer.len() && phase_after(#[trigger] fewer.take(n), steps, b)
                    == PhaseView::Deleting(phase_after(fewer, steps, b)->Over_0);
            assert(fewer.take(n) =~= events.take(n));
        } else {
            assert(phase_after(events.take(events.len() - 1), steps, b) is Deleting);
        }
    }
}

/// Every event brings a build closer to its end, until it is over.
pub proof fn every_event_counts(phase: PhaseView, event: EventView, steps: int, b: Backend)
    requires
        steps >= 0,
        phase_fits(phase, steps),
    ensures
        phase_fits(next_phase(phase, event, steps, b), steps),
        phase is Over || distance(next_phase(phase, event, steps, b), steps) < distance(
            phase,
            steps,
        ),
        phase is Over ==> next_phase(phase, event, steps, b) == phase,
{
}

proof fn distance_after(events: Seq<EventView>, steps: int, b: Backend)
    requires
        steps >= 0,
    ensures
        phase_fits(phase_after(events, steps, b), steps),
        phase_after(events, steps, b) is Over || distance(phase_after(events, steps, b), steps)
            <= steps + 3 - events.len(),
    decreases events.len(),
{
    if events.len() > 0 {
        distance_after(events.drop_last(), steps, b);
        every_event_counts(phase_after(events.drop_last(), steps, b), events.last(), steps, b);
    }
}

/// Every build comes to its end: after three more events than there are commands it is over.
pub proof fn every_build_ends(events: Seq<EventView>, steps: int, b: Backend)
    requires
        steps >= 0,
        events.len() >= steps + 3,
    ensures
        phase_after(events, steps, b) is Over,
{
    distance_after(events, steps, b);
}

/// The commands are run in order, each once the ones before it were done.
pub proof fn commands_run_in_order(events: Seq<EventView>, steps: int, b: Backend)
    requires
        steps >= 0,
        forall|i: int| 0 <= i < events.len() ==> (#[trigger] events[i]) is Done,
        events.len() <= steps + 1,
    ensures
        phase_after(events, steps, b) == (if events.len() == 0 {
            PhaseView::Starting
        } else {
            phase_at(events.len() - 1, steps)
        }),
    decreases events.len(),
{
    if events.len() > 0 {
        let fewer = events.drop_last();
        assert forall|i: int| 0 <= i < fewer.len() implies (#[trigger] fewer[i]) is Done by {
            assert(events[i] is Done);
        }
        commands_run_in_order(fewer, steps, b);
        assert(events[events.len() - 1] is Done);
    }
}

/// Where the pod started and every command was done, the outcome is what the builder reports.
pub proof fn success_reports_digest(
    events: Seq<EventView>,
    printed: Seq<char>,
    steps: int,
    b: Backend,
)
    requires
        steps >= 0,
        events.len() == steps + 1,
        forall|i: int| 0 <= i < events.len() ==> (#[trigger] events[i]) is Done,
    ensures
        phase_after(events.push(EventView::Done(printed)), steps, b) == PhaseView::Deleting(
            outcome_in(backend::reported_digest(b, printed, json::parsed_json(printed))),
        ),
{
    commands_run_in_order(events, steps, b);
    let all = events.push(EventView::Done(printed));
    assert(all.drop_last() =~= events);
}

/// What fails or is interrupted while a build is driven ends it: nothing more is run, and the
/// pod is deleted next.
pub proof fn trouble_ends_build(events: Seq<EventView>, trouble: EventView, steps: int, b: Backend)
    requires
        steps >= 0,
        trouble !is Done,
        !(phase_after(events, steps, b) is Deleting),
        !(phase_after(events, steps, b) is Over),
    ensures
        phase_after(events.push(trouble), steps, b) == PhaseView::Deleting(
            if trouble is Failed {
                OutcomeView::Failed
            } else {
                OutcomeView::Interrupted
            },
        ),
{
    assert(events.push(trouble).drop_last() =~= events);
}

/// A digest takes the place of the tag, behind an at sign; a colon before a slash is that of a
/// port, and stays.
pub proof fn digest_takes_place_of_tag(
    repo: Seq<char>,
    tag: Seq<char>,
    before: Seq<char>,
    digest: Seq<char>,
)
    requires
        !tag.contains(':'),
        !tag.contains('/'),
    ensures
        pinned(repo + ":"@ + tag, digest) == repo + "@"@ + digest,
        pinned(before + "/"@ + tag, digest) == before + "/"@ + tag + "@"@ + digest,
        pinned(tag, digest) == tag + "@"@ + digest,
{
    oci::tag_is_no_part_of_repo(repo, tag);
    oci::untagged_is_its_own_repo(before, tag);
}

/// A build goes from one command to the next as each is done, from the last to reading the
/// digest, and from there to deleting the pod and to its end.
pub proof fn done_leads_on(
    k: int,
    printed: Seq<char>,
    steps: int,
    b: Backend,
    o: OutcomeView,
    e: EventView,
)
    ensures
        steps > 0 ==> next_phase(PhaseView::Starting, EventView::Done(printed), steps, b)
            == PhaseView::Stepping(0),
        steps <= 0 ==> next_phase(PhaseView::Starting, EventView::Done(printed), steps, b)
            == PhaseView::Reading,
        k + 1 < steps ==> next_phase(PhaseView::Stepping(k), EventView::Done(printed), steps, b)
            == PhaseView::Stepping(k + 1),
        k + 1 >= steps ==> next_phase(PhaseView::Stepping(k), EventView::Done(printed), steps, b)
            == PhaseView::Reading,
        next_phase(PhaseView::Deleting(o), e, steps, b) == PhaseView::Over(o),
        next_phase(PhaseView::Over(o), e, steps, b) == PhaseView::Over(o),
{
}

/// A failure has the pod deleted and is what is reported, and so is an interruption, whatever was
/// being done.
pub proof fn trouble_is_reported(phase: PhaseView, steps: int, b: Backend)
    requires
        phase is Starting || phase is Stepping || phase is Reading,
    ensures
        next_phase(phase, EventView::Failed, steps, b) == PhaseView::Deleting(OutcomeView::Failed),
        next_phase(phase, EventView::Interrupted, steps, b) == PhaseView::Deleting(
            OutcomeView::Interrupted,
        ),
{
}

/// A build in which everything was done comes out with the digest that its builder left: the
/// bare one of kaniko and buildah, with a line break behind it, or the one that the metadata of
/// buildkit name.
pub proof fn finished_build_has_digest(
    events: Seq<EventView>,
    printed: Seq<char>,
    digest: Seq<char>,
    last: EventView,
    steps: int,
    b: Backend,
)
    requires
        steps >= 0,
        events.len() == steps + 1,
        forall|i: int| 0 <= i < events.len() ==> (#[trigger] events[i]) is Done,
        "sha256:"@.is_prefix_of(digest),
        !text::white_space(digest.last()),
        b != Backend::Buildkit ==> printed == digest + seq!['\n'],
        b == Backend::Buildkit ==> (json::parsed_json(printed) matches Some(doc) && json::field(
            doc,
            "containerimage.digest"@,
        ) == Some(json::Json::Text(digest))),
    ensures
        phase_after(events.push(EventView::Done(printed)).push(last), steps, b)
            == PhaseView::Over(OutcomeView::Digest(digest)),
{
    success_reports_digest(events, printed, steps, b);
    let most = events.push(EventView::Done(printed));
    assert(most.push(last).drop_last() =~= most);
    if b == Backend::Buildkit {
        let fields = json::parsed_json(printed)->0->Object_0;
        backend::metadata_name_the_digest(fields, printed, digest);
    } else {
        reveal_strlit("sha256:");
        assert(digest[0] == "sha256:"@[0]);
        let none = Seq::<char>::empty();
        assert(none + digest + seq!['\n'] =~= printed);
        backend::bare_digest_is_checked(b, none, digest, seq!['\n'], json::parsed_json(printed));
    }
}

/// What is held by a build is what is said of it.
pub proof fn phases_say(s: Step, o: Outcome, p: Phase, e: Event, i: int)
    ensures
        s@.argv.len() == s.argv@.len(),
        0 <= i < s.argv@.len() ==> s@.argv[i] == s.argv@[i]@,
        s@.input == s.input,
        o matches Outcome::Digest(d) ==> o@ == OutcomeView::Digest(d@),
        o matches Outcome::BadDigest(fault) ==> o@ == OutcomeView::BadDigest(fault@),
        o is Failed ==> o@ is Failed,
        o is Interrupted ==> o@ is Interrupted,
        p is Starting ==> p@ is Starting,
        p matches Phase::Stepping(k) ==> p@ == PhaseView::Stepping(k as int),
        p is Reading ==> p@ is Reading,
        p matches Phase::Deleting(came) ==> p@ == PhaseView::Deleting(came@),
        p matches Phase::Over(came) ==> p@ == PhaseView::Over(came@),
        e matches Event::Done(printed) ==> e@ == EventView::Done(printed@),
        e is Failed ==> e@ is Failed,
        e is Interrupted ==> e@ is Interrupted,
{
}

}
