use buildit::backend::{Backend, DigestError, Resources};
use buildit::job::{
    after_job, after_poll, after_secret, backend_of, builder_name, clean, clean_secrets, failure_lines, image_of,
    job_state, open_wait, pod_selector, reported_ref, termination_message, Condition,
    ContainerReport, ContainerState, CreateStep, DetachArgs, Followed, JobReport, JobState, Pass,
    PodReport, WaitStep, Waiting,
};
use buildit::pod::Listed;

fn condition(kind: &str, status: &str, message: Option<&str>, reason: Option<&str>) -> Condition {
    Condition {
        kind: kind.to_string(),
        status: status.to_string(),
        message: message.map(str::to_string),
        reason: reason.map(str::to_string),
    }
}

fn report(label: Option<&str>, image: Option<&str>, conditions: Vec<Condition>) -> JobReport {
    let mut labels = vec![("app".to_string(), "buildit".to_string())];
    if let Some(l) = label {
        labels.push(("buildit/backend".to_string(), l.to_string()));
    }
    let mut annotations = Vec::new();
    if let Some(i) = image {
        annotations.push(("buildit/image".to_string(), i.to_string()));
    }
    JobReport {
        labels,
        annotations,
        conditions,
    }
}

#[test]
fn first_condition_that_holds_decides() {
    let state = |conditions| job_state(&report(None, None, conditions));
    assert!(matches!(state(vec![]), JobState::Running));
    assert!(matches!(
        state(vec![condition("Complete", "False", None, None)]),
        JobState::Running
    ));
    assert!(matches!(
        state(vec![
            condition("Suspended", "True", None, None),
            condition("Complete", "True", None, None),
            condition("Failed", "True", None, None),
        ]),
        JobState::Complete
    ));
    let failed = |message, reason| match state(vec![condition("Failed", "True", message, reason)]) {
        JobState::Failed(text) => text,
        _ => panic!("not failed"),
    };
    assert_eq!(failed(Some("too often"), Some("BackoffLimitExceeded")), "too often");
    assert_eq!(failed(None, Some("BackoffLimitExceeded")), "BackoffLimitExceeded");
    assert_eq!(failed(None, None), "");
}

#[test]
fn label_names_the_builder() {
    for backend in [Backend::Buildkit, Backend::Kaniko, Backend::Buildah] {
        let job = report(Some(backend.label()), None, vec![]);
        assert_eq!(backend_of(&job).unwrap(), backend);
    }
    let err = backend_of(&report(None, None, vec![])).unwrap_err();
    assert_eq!(err.message(), "job has no buildit/backend label");
    let err = backend_of(&report(Some("img\""), None, vec![])).unwrap_err();
    assert_eq!(err.message(), r#"unknown backend label "img\"""#);
}

#[test]
fn annotation_names_the_image() {
    let job = report(None, Some("r.io/x:1"), vec![]);
    assert_eq!(image_of(&job, "j").unwrap(), "r.io/x:1");
    let err = image_of(&report(None, None, vec![]), "j").unwrap_err();
    assert_eq!(err.message(), "job j has no buildit/image annotation");
}

#[test]
fn job_reads_back_what_it_was_made_with() {
    let empty = Resources::default();
    for backend in [Backend::Buildkit, Backend::Kaniko, Backend::Buildah] {
        let job = backend
            .job_spec(
                "buildit-1",
                "ns",
                &DetachArgs {
                    image: "r.io/x:1",
                    dockerfile: "Dockerfile",
                    build_args: &[],
                    ctx_ref: "r.io/x:buildit-ctx-0",
                    authfile: b"{}",
                    idle_nodes: &[],
                    resources: &empty,
                    labels: &[],
                    cache: None,
                    node: None,
                },
            )
            .unwrap();
        let shown = JobReport {
            labels: job.metadata.labels.unwrap().into_iter().collect(),
            annotations: job.metadata.annotations.unwrap().into_iter().collect(),
            conditions: vec![],
        };
        let waiting = open_wait(&shown, "buildit-1").unwrap();
        assert_eq!(waiting.backend, backend);
        assert_eq!(waiting.image, "r.io/x:1");
    }
}

#[test]
fn secret_is_owned_by_the_job() {
    let step = after_job("buildit-1", "ns", Some("uid-7".to_string()), b"{}").unwrap();
    let CreateStep::Secret(secret) = step else {
        panic!("no secret");
    };
    assert_eq!(secret.metadata.name.as_deref(), Some("buildit-1"));
    assert_eq!(secret.metadata.namespace.as_deref(), Some("ns"));
    assert_eq!(
        secret.metadata.labels,
        vec![("app".to_string(), "buildit".to_string())]
    );
    assert_eq!(secret.owner_api_version, "batch/v1");
    assert_eq!(secret.owner_kind, "Job");
    assert_eq!(secret.owner_name, "buildit-1");
    assert_eq!(secret.owner_uid, "uid-7");
    assert_eq!(secret.kind, "kubernetes.io/dockerconfigjson");
    assert_eq!(secret.key, ".dockerconfigjson");
    assert_eq!(secret.data, b"{}".to_vec());
    let err = after_job("buildit-1", "ns", None, b"{}").err().unwrap();
    assert_eq!(err.message(), "created job has no uid");
}

#[test]
fn job_without_secret_is_deleted() {
    let name = "buildit-1".to_string();
    assert!(matches!(after_secret(name.clone(), true), CreateStep::Made(n) if n == name));
    assert!(matches!(after_secret(name.clone(), false), CreateStep::DeleteJob(n) if n == name));
}

fn pod(name: Option<&str>, created: Option<i128>, state: Option<ContainerState>) -> PodReport {
    PodReport {
        name: name.map(str::to_string),
        created,
        containers: Some(vec![
            ContainerReport {
                name: "fetch-context".to_string(),
                state: ContainerState::Alive,
            },
            ContainerReport {
                name: if state.is_some() { "builder" } else { "other" }.to_string(),
                state: state.unwrap_or(ContainerState::Alive),
            },
        ]),
    }
}

fn ended(exit_code: i32, message: Option<&str>) -> Option<ContainerState> {
    Some(ContainerState::Ended {
        exit_code,
        message: message.map(str::to_string),
    })
}

#[test]
fn newest_success_leaves_the_message() {
    let pods = [
        pod(Some("a"), Some(30), ended(1, Some("boom"))),
        pod(Some("b"), Some(20), ended(0, Some("second"))),
        pod(Some("c"), Some(10), ended(0, Some("first"))),
        pod(Some("d"), None, ended(0, Some("undated"))),
        pod(Some("e"), Some(40), Some(ContainerState::Alive)),
        pod(Some("f"), Some(50), ended(0, None)),
    ];
    assert_eq!(termination_message(&pods).as_deref(), Some("second"));
    assert_eq!(termination_message(&pods[3..4]).as_deref(), Some("undated"));
    assert_eq!(termination_message(&pods[..1]), None);
    assert_eq!(termination_message(&[]), None);
}

#[test]
fn of_two_pods_of_one_time_the_later_counts() {
    let pods = [
        pod(Some("a"), Some(5), ended(0, Some("one"))),
        pod(Some("b"), Some(5), ended(0, Some("two"))),
    ];
    assert_eq!(termination_message(&pods).as_deref(), Some("two"));
}

#[test]
fn newest_pod_without_report_hides_the_others() {
    let silent = PodReport {
        name: Some("x".to_string()),
        created: Some(99),
        containers: None,
    };
    let done = || pod(Some("a"), Some(5), ended(0, Some("one")));
    assert_eq!(termination_message(&[done(), silent]), None);
    assert_eq!(termination_message(&[done(), pod(Some("b"), Some(9), None)]), None);
    let unknown = pod(Some("c"), Some(9), Some(ContainerState::Unknown));
    assert_eq!(termination_message(&[unknown, done()]), None);
    let older = pod(Some("d"), Some(1), Some(ContainerState::Unknown));
    assert_eq!(termination_message(&[older, done()]).as_deref(), Some("one"));
}

#[test]
fn failures_are_shown_with_their_pods() {
    let pods = [
        pod(Some("a"), None, ended(1, Some("boom \n\n"))),
        pod(None, None, ended(2, Some("bang"))),
        pod(Some("c"), None, ended(3, None)),
        pod(Some("d"), None, Some(ContainerState::Alive)),
        pod(Some("e"), None, None),
    ];
    assert_eq!(failure_lines(&pods), ["pod a: boom", "pod ?: bang"]);
}

#[test]
fn logs_are_followed_once() {
    let mut followed = Followed::new();
    let a = Some("a".to_string());
    let b = Some("b".to_string());
    assert!(followed.wants(&a));
    assert!(!followed.wants(&None));
    followed.mark("a".to_string());
    assert!(!followed.wants(&a));
    assert!(followed.wants(&b));
    followed.mark("b".to_string());
    assert!(!followed.wants(&a));
    assert!(!followed.wants(&b));
}

#[test]
fn pods_that_do_not_open_are_asked_again() {
    let names = |list: &[Option<&str>]| -> Vec<Option<String>> {
        list.iter().map(|n| n.map(str::to_string)).collect()
    };
    let mut pass = Pass::over(
        Followed::new(),
        names(&[None, Some("a"), Some("b"), Some("a")]),
    );
    assert_eq!(pass.ask().as_deref(), Some("a"));
    pass.answer(true);
    assert_eq!(pass.ask().as_deref(), Some("b"));
    pass.answer(false);
    assert_eq!(pass.ask(), None);
    pass.answer(true);
    let mut pass = Pass::over(pass.done(), names(&[Some("a"), Some("b"), Some("c")]));
    assert_eq!(pass.ask().as_deref(), Some("b"));
    pass.answer(true);
    assert_eq!(pass.ask().as_deref(), Some("c"));
    pass.answer(false);
    assert_eq!(pass.ask(), None);
    let followed = pass.done();
    assert!(!followed.wants(&Some("b".to_string())));
    assert!(followed.wants(&Some("c".to_string())));
}

#[test]
fn polling_goes_by_the_state() {
    assert!(matches!(
        after_poll(&report(None, None, vec![]), "j"),
        WaitStep::Again { seconds: 2 }
    ));
    let done = report(None, None, vec![condition("Complete", "True", None, None)]);
    assert!(matches!(after_poll(&done, "j"), WaitStep::Finish));
    let failed = report(None, None, vec![condition("Failed", "True", Some("why"), None)]);
    match after_poll(&failed, "j") {
        WaitStep::Fail(err) => assert_eq!(err.message(), "job j failed: why"),
        _ => panic!("not failed"),
    }
}

#[test]
fn message_gives_the_pinned_reference() {
    let waiting = Waiting {
        backend: Backend::Kaniko,
        image: "quay.io/acme/foo:tag".to_string(),
    };
    assert_eq!(
        reported_ref(&waiting, Some("sha256:abc\n")).unwrap().as_deref(),
        Some("quay.io/acme/foo@sha256:abc")
    );
    assert!(reported_ref(&waiting, None).unwrap().is_none());
    assert!(matches!(
        reported_ref(&waiting, Some("no digest")),
        Err(DigestError::Unexpected(_))
    ));
}

#[test]
fn waiting_needs_builder_and_image() {
    let err = open_wait(&report(None, None, vec![]), "j").err().unwrap();
    assert_eq!(err.message(), "job has no buildit/backend label");
    let err = open_wait(&report(Some("kaniko"), None, vec![]), "j").err().unwrap();
    assert_eq!(err.message(), "job j has no buildit/image annotation");
}

#[test]
fn jobs_and_orphaned_secrets_are_swept() {
    let listed = |name: Option<&str>, owned| Listed {
        name: name.map(str::to_string),
        owned,
    };
    let objects = [
        listed(Some("a"), true),
        listed(None, false),
        listed(Some("b"), false),
    ];
    assert_eq!(clean(&objects), ["a", "b"]);
    assert_eq!(clean_secrets(&objects), ["b"]);
    assert_eq!(pod_selector("j"), "job-name=j");
    assert_eq!(builder_name(), "builder");
}
