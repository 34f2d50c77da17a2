use buildit::backend::{Backend, CacheVolume, PodOpts, Resources};
use buildit::job::DetachArgs;
use buildit::shell::{join, shell_quote};

#[test]
fn buildkit_build_steps() {
    let steps = Backend::Buildkit.build_steps(
        "quay.io/acme/foo:tag",
        "Dockerfile.tap",
        &["FOO=bar".to_string()],
        &[("quay.expires-after".to_string(), "1d".to_string())],
    );
    assert_eq!(steps.len(), 1);
    let argv = &steps[0];
    assert_eq!(argv[0], "buildctl-daemonless.sh");
    assert!(argv.contains(&"filename=Dockerfile.tap".to_string()));
    assert!(argv.contains(&"type=image,name=quay.io/acme/foo:tag,push=true".to_string()));
    assert!(argv.contains(&"build-arg:FOO=bar".to_string()));
    assert!(argv.contains(&"label:quay.expires-after=1d".to_string()));
}

#[test]
fn kaniko_build_steps() {
    let steps = Backend::Kaniko.build_steps(
        "quay.io/acme/foo:tag",
        "Dockerfile.tap",
        &["FOO=bar".to_string()],
        &[("team".to_string(), "infra".to_string())],
    );
    assert_eq!(steps.len(), 1);
    let argv = &steps[0];
    assert_eq!(argv[0], "/kaniko/executor");
    assert!(argv.contains(&"--dockerfile=/workspace/Dockerfile.tap".to_string()));
    assert!(argv.contains(&"--destination=quay.io/acme/foo:tag".to_string()));
    assert!(argv.contains(&"--digest-file=/tmp/digest".to_string()));
    assert!(argv.contains(&"--build-arg=FOO=bar".to_string()));
    assert!(argv.contains(&"--label".to_string()) || argv.contains(&"team=infra".to_string()));
}

#[test]
fn buildah_build_steps() {
    let steps = Backend::Buildah.build_steps(
        "quay.io/acme/foo:tag",
        "Dockerfile",
        &[],
        &[("team".to_string(), "infra".to_string())],
    );
    assert_eq!(steps.len(), 2);
    assert_eq!(steps[0][..2], ["buildah".to_string(), "bud".to_string()]);
    assert_eq!(steps[1][..2], ["buildah".to_string(), "push".to_string()]);
    assert_eq!(
        steps[1].last().map(String::as_str),
        Some("docker://quay.io/acme/foo:tag")
    );
    assert!(steps[1].contains(&"--digestfile".to_string()));
    assert!(steps[0].contains(&"team=infra".to_string()));
}

#[test]
fn shell_quote_survives_hostile_input() {
    assert_eq!(shell_quote("plain"), "'plain'");
    assert_eq!(shell_quote("a'b; rm -rf /"), r#"'a'\''b; rm -rf /'"#);
}

#[test]
fn job_specs_deserialize() {
    let resources = Resources {
        requests: vec![("cpu".to_string(), "2".to_string())],
        limits: vec![("memory".to_string(), "8Gi".to_string())],
    };
    for backend in [Backend::Buildkit, Backend::Buildah, Backend::Kaniko] {
        let job = backend
            .job_spec(
                "buildit-abc123",
                "builds",
                &DetachArgs {
                    image: "quay.io/acme/foo:tag",
                    dockerfile: "Dockerfile",
                    build_args: &["FOO=bar".to_string()],
                    ctx_ref: "quay.io/acme/foo:buildit-ctx-deadbeef0123",
                    authfile: b"",
                    idle_nodes: &["node-a".to_string()],
                    resources: &resources,
                    labels: &[("team".to_string(), "infra".to_string())],
                    cache: Some(CacheVolume::HostPath("/mnt/nvme/c")),
                    node: Some("nvme-node-1"),
                },
            )
            .unwrap();
        let spec = job.spec.unwrap();
        assert_eq!(spec.backoff_limit, Some(2));
        assert_eq!(spec.ttl_seconds_after_finished, Some(3600));
        let pod_spec = spec.template.spec.unwrap();
        assert!(pod_spec.affinity.is_some());
        assert_eq!(
            pod_spec.security_context.unwrap().fs_group,
            Some(1000),
            "uid-1000 builders need the emptyDir group-writable"
        );
        let inits = pod_spec.init_containers.unwrap();
        assert!(inits.iter().any(|c| c.name == "fetch-context"));
        assert_eq!(
            inits.iter().any(|c| c.name == "fix-cache-perms"),
            backend != Backend::Kaniko,
            "{backend:?}"
        );
        assert_eq!(
            pod_spec.node_selector.as_ref().unwrap()["kubernetes.io/hostname"],
            "nvme-node-1"
        );
        let builder = &pod_spec.containers[0];
        assert_eq!(builder.name, "builder");
        assert_eq!(
            builder.termination_message_policy.as_deref(),
            Some("FallbackToLogsOnError")
        );
        let mounts: Vec<_> = builder
            .volume_mounts
            .as_deref()
            .unwrap_or_default()
            .iter()
            .map(|m| m.mount_path.as_str())
            .collect();
        assert!(mounts.contains(&"/workspace"), "{mounts:?}");
        assert!(mounts.contains(&"/auth"), "{mounts:?}");
        let cmd = builder.command.as_deref().unwrap_or_default().join(" ");
        assert!(cmd.contains("/dev/termination-log"), "{cmd}");
        let res = builder.resources.as_ref().unwrap();
        assert_eq!(res.requests.as_ref().unwrap()["cpu"].0, "2");
        assert_eq!(res.limits.as_ref().unwrap()["memory"].0, "8Gi");
        let annotations = job.metadata.annotations.unwrap();
        assert_eq!(
            annotations.get("buildit/image").map(String::as_str),
            Some("quay.io/acme/foo:tag")
        );
    }
}

#[test]
fn digest_parsing() {
    assert_eq!(
        Backend::Kaniko.digest_from("sha256:abc\n").unwrap(),
        "sha256:abc"
    );
    let meta = r#"{"containerimage.digest":"sha256:def","image.name":"x"}"#;
    assert_eq!(Backend::Buildkit.digest_from(meta).unwrap(), "sha256:def");
    assert!(Backend::Buildkit.digest_from("{}").is_err());
    assert!(Backend::Kaniko.digest_from("garbage").is_err());
}

fn opts<'a>(idle_nodes: &'a [String], resources: &'a Resources) -> PodOpts<'a> {
    PodOpts {
        idle_nodes,
        resources,
        cache: None,
        node: None,
    }
}

#[test]
fn pod_spec_cache_and_node_pinning() {
    let empty = Resources::default();
    for backend in [Backend::Buildkit, Backend::Buildah, Backend::Kaniko] {
        let pvc_opts = PodOpts {
            cache: Some(CacheVolume::Pvc("build-cache")),
            node: Some("nvme-node-1"),
            ..opts(&[], &empty)
        };
        let pod = backend
            .pod_spec("buildit-abc123", "builds", &pvc_opts)
            .unwrap();
        let spec = pod.spec.unwrap();
        assert_eq!(
            spec.node_selector.as_ref().unwrap()["kubernetes.io/hostname"],
            "nvme-node-1"
        );
        let vols = spec.volumes.unwrap();
        assert!(
            vols.iter().any(|v| v
                .persistent_volume_claim
                .as_ref()
                .is_some_and(|c| c.claim_name == "build-cache")),
            "{backend:?} missing pvc volume"
        );

        let hp_opts = PodOpts {
            cache: Some(CacheVolume::HostPath("/mnt/nvme/cache")),
            ..opts(&[], &empty)
        };
        let pod = backend
            .pod_spec("buildit-abc123", "builds", &hp_opts)
            .unwrap();
        let spec = pod.spec.unwrap();
        let vols = spec.volumes.unwrap();
        assert!(
            vols.iter().any(|v| v
                .host_path
                .as_ref()
                .is_some_and(|h| h.path == "/mnt/nvme/cache")),
            "{backend:?} missing hostPath volume"
        );
        // rootless backends need the chmod init; kaniko runs as root
        let has_fix = spec
            .init_containers
            .as_deref()
            .unwrap_or_default()
            .iter()
            .any(|c| c.name == "fix-cache-perms");
        assert_eq!(has_fix, backend != Backend::Kaniko, "{backend:?}");
        if backend == Backend::Kaniko {
            let cmd = spec.containers[0].command.as_deref().unwrap_or_default();
            assert!(cmd.iter().any(|a| a == "--cache=true"), "{cmd:?}");
        }
    }
}

#[test]
fn pod_specs_deserialize_with_and_without_affinity() {
    let cpu2 = Resources {
        requests: vec![("cpu".to_string(), "2".to_string())],
        limits: vec![],
    };
    for backend in [Backend::Buildkit, Backend::Buildah, Backend::Kaniko] {
        let pod = backend
            .pod_spec("buildit-abc123", "builds", &opts(&[], &cpu2))
            .unwrap();
        let res = pod.spec.as_ref().unwrap().containers[0]
            .resources
            .as_ref()
            .unwrap();
        assert_eq!(res.requests.as_ref().unwrap()["cpu"].0, "2");
        assert!(res.limits.is_none());
        let spec = pod.spec.unwrap();
        assert_eq!(spec.active_deadline_seconds, Some(7200));
        assert_eq!(spec.restart_policy.as_deref(), Some("Never"));
        assert!(spec.affinity.is_none());
        let labels = pod.metadata.labels.unwrap();
        assert_eq!(labels.get("app").map(String::as_str), Some("buildit"));

        let idle = vec!["node-a".to_string(), "node-b".to_string()];
        let none = Resources::default();
        let pod = backend
            .pod_spec("buildit-abc123", "builds", &opts(&idle, &none))
            .unwrap();
        let affinity = pod.spec.unwrap().affinity.unwrap();
        let prefs = affinity
            .node_affinity
            .unwrap()
            .preferred_during_scheduling_ignored_during_execution
            .unwrap();
        assert_eq!(prefs.len(), 1);
        let expr = &prefs[0].preference.match_expressions.as_ref().unwrap()[0];
        assert_eq!(expr.key, "kubernetes.io/hostname");
        assert_eq!(expr.values.as_ref().unwrap(), &idle);
    }
}

#[test]
fn fixed_places_of_the_builders() {
    assert_eq!(Backend::Buildkit.shell(), "/bin/sh");
    assert_eq!(Backend::Kaniko.shell(), "/busybox/sh");
    assert_eq!(Backend::Buildah.shell(), "/bin/sh");
    assert_eq!(Backend::Buildkit.workspace(), "/home/user/workspace");
    assert_eq!(Backend::Kaniko.workspace(), "/workspace");
    assert_eq!(Backend::Buildah.workspace(), "/home/build/workspace");
    assert_eq!(Backend::Buildkit.label(), "buildkit");
    assert_eq!(Backend::Kaniko.label(), "kaniko");
    assert_eq!(Backend::Buildah.label(), "buildah");
}

#[test]
fn staging_commands_are_exact() {
    assert_eq!(
        Backend::Kaniko.setup_command(),
        ["/busybox/sh", "-c", "mkdir -p /workspace /tmp /kaniko/.docker"]
    );
    assert_eq!(
        Backend::Buildah.setup_command()[2],
        "mkdir -p /home/build/workspace /tmp/containers-run && \
         printf '[storage]\\ndriver = \"vfs\"\\ngraphroot = \
         \"/home/build/.local/share/containers/storage\"\\nrunroot = \
         \"/tmp/containers-run\"\\n' > /tmp/storage.conf"
    );
    assert_eq!(
        Backend::Buildkit.untar_command(),
        ["/bin/sh", "-c", "tar xzf - -C /home/user/workspace"]
    );
    assert_eq!(
        Backend::Buildah.auth_upload_command(),
        ["/bin/sh", "-c", "cat > /tmp/auth.json"]
    );
    assert_eq!(
        Backend::Buildkit.digest_command(),
        ["/bin/sh", "-c", "cat /tmp/metadata.json"]
    );
}

#[test]
fn buildkit_command_line_is_exact() {
    let steps = Backend::Buildkit.build_steps(
        "quay.io/a/b:c",
        "Dockerfile",
        &["A=1".to_string()],
        &[("k".to_string(), "v".to_string())],
    );
    assert_eq!(
        steps[0],
        [
            "buildctl-daemonless.sh",
            "build",
            "--frontend",
            "dockerfile.v0",
            "--local",
            "context=/home/user/workspace",
            "--local",
            "dockerfile=/home/user/workspace",
            "--opt",
            "filename=Dockerfile",
            "--output",
            "type=image,name=quay.io/a/b:c,push=true",
            "--metadata-file",
            "/tmp/metadata.json",
            "--opt",
            "build-arg:A=1",
            "--opt",
            "label:k=v",
        ]
    );
}

#[test]
fn digest_errors_are_told_apart() {
    let message = |b: Backend, raw: &str| b.digest_from(raw).unwrap_err().message();
    assert_eq!(message(Backend::Buildkit, "nope"), "parsing buildkit metadata file");
    assert_eq!(
        message(Backend::Buildkit, "{}"),
        "no containerimage.digest in buildkit metadata"
    );
    assert_eq!(
        message(Backend::Buildkit, r#"{"containerimage.digest":7}"#),
        "no containerimage.digest in buildkit metadata"
    );
    assert_eq!(
        message(Backend::Buildkit, r#"{"containerimage.digest":"md5:x"}"#),
        r#"unexpected digest: "md5:x""#
    );
    assert_eq!(
        message(Backend::Buildah, " a\"b\n"),
        r#"unexpected digest: "a\"b""#
    );
}

#[test]
fn quoting_and_joining_by_hand() {
    assert_eq!(shell_quote(""), "''");
    assert_eq!(shell_quote("''"), r#"''\'''\'''"#);
    assert_eq!(join(&[], " "), "");
    assert_eq!(join(&["a".to_string()], " "), "a");
    assert_eq!(join(&["a".to_string(), "b c".to_string()], " "), "a b c");
}

fn job_script(backend: Backend, image: &str, build_args: &[String]) -> Vec<String> {
    let empty = Resources::default();
    let job = backend
        .job_spec(
            "buildit-1",
            "ns",
            &DetachArgs {
                image,
                dockerfile: "Dockerfile",
                build_args,
                ctx_ref: "r.io/x:buildit-ctx-0",
                authfile: b"{}",
                idle_nodes: &[],
                resources: &empty,
                labels: &[("team".to_string(), "in fra".to_string())],
                cache: None,
                node: None,
            },
        )
        .unwrap();
    let spec = job.spec.unwrap().template.spec.unwrap();
    spec.containers[0].command.clone().unwrap()
}

#[test]
fn job_scripts_quote_what_is_given() {
    let script = job_script(Backend::Buildkit, "r.io/x:$(id)", &["A=b c".to_string()]);
    assert_eq!(
        script,
        [
            "sh",
            "-c",
            "buildctl-daemonless.sh build --frontend dockerfile.v0 \
             --local context=/workspace --local dockerfile=/workspace \
             --opt filename='Dockerfile' --output type=image,name='r.io/x:$(id)',push=true \
             --metadata-file /tmp/metadata.json --opt build-arg:'A=b c' \
             --opt 'label:team=in fra' \
             && cat /tmp/metadata.json > /dev/termination-log",
        ]
    );
    let script = job_script(Backend::Buildah, "r.io/x:1", &["A=b".to_string()]);
    assert!(script[2].ends_with(
        "> /tmp/storage.conf && mkdir -p /tmp/containers-run && buildah bud \
         --authfile /auth/config.json --build-arg 'A=b' --label 'team=in fra' \
         -f '/workspace/Dockerfile' -t 'r.io/x:1' /workspace && buildah push \
         --authfile /auth/config.json --digestfile /dev/termination-log 'r.io/x:1' \
         docker://'r.io/x:1'"
    ));
    let script = job_script(Backend::Kaniko, "r.io/x:1", &[]);
    assert_eq!(
        script,
        [
            "/kaniko/executor",
            "--dockerfile=/workspace/Dockerfile",
            "--context=dir:///workspace",
            "--destination=r.io/x:1",
            "--digest-file=/dev/termination-log",
            "--label=team=in fra",
        ]
    );
}

#[test]
fn no_container_asks_for_privileges() {
    let empty = Resources::default();
    for backend in [Backend::Buildkit, Backend::Buildah, Backend::Kaniko] {
        let options = PodOpts {
            cache: Some(CacheVolume::HostPath("/c")),
            ..opts(&[], &empty)
        };
        let spec = backend.pod_spec("n", "ns", &options).unwrap().spec.unwrap();
        for c in spec.containers.iter().chain(spec.init_containers.iter().flatten()) {
            if let Some(security) = &c.security_context {
                assert!(security.privileged.is_none());
                assert!(c.name == "fix-cache-perms" || security.run_as_user == Some(1000));
            }
        }
    }
}

#[test]
fn every_mount_has_its_volume() {
    let empty = Resources::default();
    for backend in [Backend::Buildkit, Backend::Buildah, Backend::Kaniko] {
        for cache in [None, Some(CacheVolume::Pvc("p")), Some(CacheVolume::HostPath("/h"))] {
            let options = PodOpts {
                cache,
                ..opts(&[], &empty)
            };
            let spec = backend.pod_spec("n", "ns", &options).unwrap().spec.unwrap();
            let volumes = spec.volumes.clone().unwrap_or_default();
            for c in spec.containers.iter().chain(spec.init_containers.iter().flatten()) {
                for m in c.volume_mounts.iter().flatten() {
                    assert_eq!(volumes.iter().filter(|v| v.name == m.name).count(), 1);
                }
            }
        }
    }
}

#[test]
fn cache_claim_lets_the_group_write() {
    let empty = Resources::default();
    let options = PodOpts {
        cache: Some(CacheVolume::Pvc("p")),
        ..opts(&[], &empty)
    };
    let spec = Backend::Buildkit.pod_spec("n", "ns", &options).unwrap().spec.unwrap();
    assert_eq!(spec.security_context.unwrap().fs_group, Some(1000));
    let plain = Backend::Buildkit.pod_spec("n", "ns", &opts(&[], &empty)).unwrap();
    assert!(plain.spec.unwrap().security_context.is_none());
}

#[test]
fn job_pods_mount_the_credentials_read_only() {
    let empty = Resources::default();
    let job = Backend::Kaniko
        .job_spec(
            "buildit-1",
            "ns",
            &DetachArgs {
                image: "r.io/x:1",
                dockerfile: "Dockerfile",
                build_args: &[],
                ctx_ref: "r.io/x:buildit-ctx-0",
                authfile: b"{}",
                idle_nodes: &[],
                resources: &empty,
                labels: &[],
                cache: Some(CacheVolume::Pvc("p")),
                node: None,
            },
        )
        .unwrap();
    let spec = job.spec.unwrap().template.spec.unwrap();
    let mounts = spec.containers[0].volume_mounts.clone().unwrap();
    assert_eq!(mounts[0].name, "workspace");
    assert_eq!(mounts[0].read_only, None);
    assert_eq!(mounts[1].name, "auth");
    assert_eq!(mounts[1].read_only, Some(true));
    assert_eq!(mounts[2].mount_path, "/cache");
    let volumes = spec.volumes.unwrap();
    assert!(volumes[0].empty_dir.is_some());
    let secret = volumes[1].secret.clone().unwrap();
    assert_eq!(secret.secret_name.as_deref(), Some("buildit-1"));
    assert_eq!(secret.items.unwrap()[0].key, ".dockerconfigjson");
    let claim = volumes[2].persistent_volume_claim.clone().unwrap();
    assert_eq!(claim.claim_name, "p");
    let fetch = &spec.init_containers.unwrap()[0];
    let env = fetch.env.clone().unwrap();
    assert_eq!(env[1].name, "CTX_REF");
    assert_eq!(env[1].value.as_deref(), Some("r.io/x:buildit-ctx-0"));
    assert!(spec.node_selector.is_none());
    assert!(spec.affinity.is_none());
}

#[test]
fn workspace_is_on_a_directory_of_its_own() {
    let empty = Resources::default();
    for backend in [Backend::Buildkit, Backend::Buildah, Backend::Kaniko] {
        for cache in [None, Some(CacheVolume::Pvc("p")), Some(CacheVolume::HostPath("/h"))] {
            let options = PodOpts {
                cache,
                ..opts(&[], &empty)
            };
            let spec = backend.pod_spec("n", "ns", &options).unwrap().spec.unwrap();
            let mounts = spec.containers[0].volume_mounts.clone().unwrap();
            let mount = mounts
                .iter()
                .find(|m| m.mount_path == backend.workspace())
                .unwrap();
            let volumes = spec.volumes.unwrap();
            let volume = volumes.iter().find(|v| v.name == mount.name).unwrap();
            assert!(volume.empty_dir.is_some());
        }
    }
}
