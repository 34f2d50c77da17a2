use std::io::Read;

use buildit::args::{key_value, BuildArgs, Mode, Output, Schedule};
use buildit::backend::{Backend, CacheVolume, DigestError, Resources};
use buildit::build::{drive, report, Action, Event, Input, Outcome, Phase};
use buildit::context::{archive_entry, check_context, keep_entry, tarball, EntryStep};
use buildit::schedule::{idle_nodes, try_idle_nodes, Cluster, ContainerUse, NodeState, PodUse};
use buildit::text::{split_once, trimmed, trimmed_end};

fn args() -> BuildArgs {
    BuildArgs {
        image: "quay.io/acme/foo:tag".to_string(),
        dockerfile: "Dockerfile".to_string(),
        context: ".".to_string(),
        namespace: "default".to_string(),
        backend: Backend::Buildkit,
        mode: Mode::Interactive,
        schedule: Schedule::Idle,
        output: Output::Push,
        build_args: vec!["A=1".to_string()],
        resources: Resources::default(),
        labels: vec![("team".to_string(), "infra".to_string())],
        context_labels: vec![],
        node: None,
        cache_pvc: None,
        cache_size: "50Gi".to_string(),
        cache_hostpath: None,
        kubecontext: None,
    }
}

fn pairs(kvs: &[(&str, &str)]) -> Vec<(String, String)> {
    kvs.iter()
        .map(|(k, v)| (k.to_string(), v.to_string()))
        .collect()
}

fn node(name: &str, ready: &str, unschedulable: Option<bool>) -> NodeState {
    NodeState {
        name: Some(name.to_string()),
        unschedulable,
        conditions: pairs(&[("MemoryPressure", "False"), ("Ready", ready)]),
    }
}

fn gpu_pod(node: &str, phase: &str, requests: &[(&str, &str)], limits: &[(&str, &str)]) -> PodUse {
    PodUse {
        node: Some(node.to_string()),
        phase: Some(phase.to_string()),
        init_containers: vec![],
        containers: vec![
            ContainerUse {
                requests: pairs(&[("cpu", "1")]),
                limits: vec![],
            },
            ContainerUse {
                requests: pairs(requests),
                limits: pairs(limits),
            },
        ],
    }
}

const GPU: &str = "nvidia.com/gpu";

#[test]
fn nodes_with_gpu_workloads_are_not_idle() {
    let cluster = Cluster {
        nodes: ["req", "lim", "done", "zero", "odd", "pend", "free"]
            .iter()
            .map(|n| node(n, "True", None))
            .collect(),
        pods: vec![
            gpu_pod("req", "Running", &[(GPU, "1")], &[]),
            gpu_pod("lim", "Running", &[], &[(GPU, "2")]),
            gpu_pod("done", "Succeeded", &[(GPU, "8")], &[]),
            gpu_pod("zero", "Running", &[(GPU, "0")], &[(GPU, "4")]),
            gpu_pod("odd", "Running", &[(GPU, "1k")], &[(GPU, "1")]),
            gpu_pod("pend", "Pending", &[(GPU, "1")], &[]),
        ],
    };
    assert_eq!(try_idle_nodes(&cluster), ["done", "zero", "odd", "free"]);
    assert_eq!(idle_nodes(Some(&cluster)).len(), 4);
    assert!(idle_nodes(None).is_empty());
}

#[test]
fn init_containers_count() {
    let mut pod = gpu_pod("a", "Pending", &[], &[]);
    pod.init_containers.push(ContainerUse {
        requests: pairs(&[(GPU, "1")]),
        limits: vec![],
    });
    let cluster = Cluster {
        nodes: vec![node("a", "True", None), node("b", "True", None)],
        pods: vec![pod],
    };
    assert_eq!(try_idle_nodes(&cluster), ["b"]);
}

#[test]
fn idle_nodes_are_ready_and_take_pods() {
    let mut nameless = node("x", "True", None);
    nameless.name = None;
    let cluster = Cluster {
        nodes: vec![
            node("a", "True", Some(true)),
            node("b", "Unknown", None),
            node("c", "True", Some(false)),
            nameless,
        ],
        pods: vec![],
    };
    assert_eq!(try_idle_nodes(&cluster), ["c"]);
}

#[test]
fn hints_are_at_most_fifty() {
    let cluster = Cluster {
        nodes: (0..60).map(|i| node(&format!("n{i}"), "True", None)).collect(),
        pods: vec![],
    };
    let names = try_idle_nodes(&cluster);
    assert_eq!(names.len(), 50);
    assert_eq!(names[0], "n0");
    assert_eq!(names[49], "n49");
}

#[test]
fn pinned_builders_skip_the_scout() {
    let cluster = Cluster {
        nodes: vec![node("a", "True", None)],
        pods: vec![],
    };
    let mut asked = args();
    assert!(asked.wants_scout());
    assert_eq!(asked.preferred_nodes(Some(&cluster)), ["a"]);
    asked.node = Some("gpu-node-7".to_string());
    assert!(!asked.wants_scout());
    assert!(asked.preferred_nodes(Some(&cluster)).is_empty());
    asked.node = None;
    asked.schedule = Schedule::Any;
    assert!(asked.preferred_nodes(Some(&cluster)).is_empty());
}

#[test]
fn caches_are_as_asked_for() {
    let mut asked = args();
    assert!(asked.cache().is_none());
    asked.cache_hostpath = Some("/mnt/nvme".to_string());
    assert!(matches!(asked.cache(), Some(CacheVolume::HostPath("/mnt/nvme"))));
    asked.cache_pvc = Some("claim".to_string());
    assert!(matches!(asked.cache(), Some(CacheVolume::Pvc("claim"))));
}

#[test]
fn options_are_handed_on() {
    let mut asked = args();
    asked.node = Some("n".to_string());
    asked.cache_pvc = Some("c".to_string());
    let idle = ["i".to_string()];
    let opts = asked.pod_opts(&idle);
    assert_eq!(opts.idle_nodes, &idle);
    assert_eq!(opts.node, Some("n"));
    assert!(matches!(opts.cache, Some(CacheVolume::Pvc("c"))));
    let detach = asked.detach_args("ref", b"auth", &idle);
    assert_eq!(detach.image, "quay.io/acme/foo:tag");
    assert_eq!(detach.dockerfile, "Dockerfile");
    assert_eq!(detach.build_args, ["A=1"]);
    assert_eq!(detach.ctx_ref, "ref");
    assert_eq!(detach.authfile, b"auth");
    assert_eq!(detach.labels, &pairs(&[("team", "infra")])[..]);
    assert_eq!(detach.node, Some("n"));
}

#[test]
fn pairs_are_cut_at_the_first_equals_sign() {
    assert_eq!(
        key_value("a=b=c").unwrap(),
        ("a".to_string(), "b=c".to_string())
    );
    assert_eq!(key_value("a=").unwrap(), ("a".to_string(), String::new()));
    assert_eq!(
        key_value("cpu").unwrap_err().message(),
        "expected KEY=VALUE, got cpu"
    );
    assert!(split_once("ab", ':').is_none());
}

#[test]
fn trimming_takes_all_white_space() {
    assert_eq!(trimmed(" \t\u{3000}a b\u{85}\n"), "a b");
    assert_eq!(trimmed_end(" a \r\n"), " a");
    assert_eq!(trimmed(" \n "), "");
}

#[test]
fn top_level_git_and_target_are_left_out() {
    assert!(keep_entry(0, Some("target")));
    assert!(!keep_entry(1, Some("target")));
    assert!(!keep_entry(1, Some(".git")));
    assert!(keep_entry(1, Some(".github")));
    assert!(keep_entry(1, None));
    assert!(keep_entry(2, Some("target")));
}

#[test]
fn entries_are_archived_as_what_they_are() {
    assert!(matches!(archive_entry(0, true), EntryStep::Skip));
    assert!(matches!(archive_entry(1, true), EntryStep::Directory));
    assert!(matches!(archive_entry(3, false), EntryStep::Item));
}

#[test]
fn context_must_be_a_directory() {
    assert!(check_context(true, "./svc").is_ok());
    assert_eq!(
        check_context(false, "./svc").unwrap_err().message(),
        "context ./svc is not a directory"
    );
}

#[test]
fn tarball_is_gzip_of_the_archive() {
    let data = b"an archive, an archive, an archive".to_vec();
    let packed = tarball(&data).unwrap();
    assert_eq!(packed[..2], [0x1f, 0x8b]);
    let mut back = Vec::new();
    flate2::read::GzDecoder::new(&packed[..])
        .read_to_end(&mut back)
        .unwrap();
    assert_eq!(back, data);
}

#[test]
fn commands_of_a_build_are_in_order() {
    let asked = args();
    let steps = drive(
        Backend::Buildah,
        &asked.image,
        &asked.dockerfile,
        &asked.build_args,
        &asked.labels,
        None,
    );
    assert_eq!(steps.len(), 5);
    assert_eq!(steps[0].argv, Backend::Buildah.setup_command());
    assert_eq!(steps[0].input, Input::Nothing);
    assert_eq!(steps[1].argv, Backend::Buildah.untar_command());
    assert_eq!(steps[1].input, Input::Context);
    assert_eq!(steps[2].argv, Backend::Buildah.auth_upload_command());
    assert_eq!(steps[2].input, Input::Authfile);
    assert_eq!(steps[3].argv[..2], ["buildah", "bud"]);
    assert_eq!(steps[4].argv[..2], ["buildah", "push"]);
    assert_eq!(steps[4].input, Input::Nothing);
}

#[test]
fn kaniko_is_told_of_its_cache() {
    let steps = |backend, cache| {
        drive(backend, "r.io/x:1", "Dockerfile", &[], &[], cache)
            .pop()
            .unwrap()
            .argv
    };
    let plain = steps(Backend::Kaniko, None);
    let cached = steps(Backend::Kaniko, Some(CacheVolume::Pvc("c")));
    assert_eq!(plain.len(), 5);
    assert_eq!(cached[..5], plain[..]);
    assert_eq!(cached[5..], ["--cache=true", "--cache-dir=/cache"]);
    assert_eq!(
        steps(Backend::Buildkit, Some(CacheVolume::HostPath("/c"))),
        steps(Backend::Buildkit, None)
    );
}

fn done(printed: &str) -> Event {
    Event::Done(printed.to_string())
}

#[test]
fn good_build_deletes_its_pod_then_reports() {
    let b = Backend::Kaniko;
    let phase = Phase::Starting;
    assert!(matches!(phase.action(), Action::AwaitReady { seconds: 180 }));
    let phase = phase.advance(done(""), 2, b);
    assert!(matches!(phase.action(), Action::Run(0)));
    let phase = phase.advance(done(""), 2, b);
    assert!(matches!(phase.action(), Action::Run(1)));
    let phase = phase.advance(done(""), 2, b);
    assert!(matches!(phase.action(), Action::ReadDigest));
    let phase = phase.advance(done("sha256:abc\n"), 2, b);
    assert!(matches!(phase.action(), Action::DeletePod));
    let phase = phase.advance(Event::Failed, 2, b);
    assert!(matches!(phase.action(), Action::Report));
    let Phase::Over(outcome) = phase else {
        panic!("not over");
    };
    assert_eq!(
        report("quay.io/acme/foo:tag", &outcome).as_deref(),
        Some("quay.io/acme/foo@sha256:abc")
    );
}

#[test]
fn trouble_deletes_the_pod_at_once() {
    let b = Backend::Kaniko;
    let phase = Phase::Stepping(1).advance(Event::Failed, 4, b);
    assert!(matches!(phase, Phase::Deleting(Outcome::Failed)));
    let phase = Phase::Starting.advance(Event::Interrupted, 4, b);
    assert!(matches!(phase, Phase::Deleting(Outcome::Interrupted)));
    let phase = phase.advance(done(""), 4, b);
    assert!(matches!(phase, Phase::Over(Outcome::Interrupted)));
    assert!(report("r.io/x", &Outcome::Interrupted).is_none());
    let phase = Phase::Reading.advance(done("nothing"), 4, b);
    assert!(matches!(
        phase,
        Phase::Deleting(Outcome::BadDigest(DigestError::Unexpected(_)))
    ));
}
