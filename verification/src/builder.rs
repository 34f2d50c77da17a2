//! The pod and the job in which an image is built.

use vstd::prelude::*;

use crate::backend;
use crate::backend::{
    buildah_build_command, buildah_push_command, buildkit_command, kaniko_command, label_strings,
    prefix_all, storage_conf, Backend, CacheVolume, PodOpts,
};
use crate::job::DetachArgs;
use crate::manifest;
use crate::manifest::{
    Container, ContainerView, JobManifest, JobManifestView, ManifestError, Metadata, MetadataView, Mount,
    MountView, PodManifest, PodManifestView, PodPlan, PodPlanView, Resources, ResourcesView,
    SecurityContext, Volume, VolumeSource, VolumeSourceView, VolumeView,
};
use crate::shell;
use crate::shell::{join, shell_quote};
use crate::text;
use crate::text::{copied, copied_pairs, same_text};

verus! {

broadcast use vstd::string::group_string_axioms;

/// Resources that ask for nothing.
pub open spec fn no_resources() -> ResourcesView {
    ResourcesView { requests: Seq::empty(), limits: Seq::empty() }
}

/// Builders that are not root are user 1000.
pub open spec fn rootless(unconfined: bool) -> Option<SecurityContext> {
    Some(SecurityContext { run_as_user: 1000, run_as_group: 1000, unconfined })
}

/// The image of each builder.
pub open spec fn builder_image_of(b: Backend) -> Seq<char> {
    match b {
        Backend::Buildkit => "moby/buildkit:rootless"@,
        Backend::Kaniko => "gcr.io/kaniko-project/executor:debug"@,
        Backend::Buildah => "quay.io/buildah/stable:latest"@,
    }
}

/// The environment of each builder. A pod without privileges cannot unshare a process
/// namespace, so buildkit is told to do without.
pub open spec fn builder_env_of(b: Backend) -> Seq<(Seq<char>, Seq<char>)> {
    match b {
        Backend::Buildkit => seq![
            ("BUILDKITD_FLAGS"@, "--oci-worker-no-process-sandbox"@),
            ("HOME"@, "/home/user"@),
        ],
        Backend::Kaniko => Seq::empty(),
        Backend::Buildah => seq![
            ("BUILDAH_ISOLATION"@, "chroot"@),
            ("STORAGE_DRIVER"@, "vfs"@),
            ("CONTAINERS_STORAGE_CONF"@, "/tmp/storage.conf"@),
            ("HOME"@, "/home/build"@),
        ],
    }
}

/// Whom each builder runs as. Kaniko is root in its container; buildkit needs system calls
/// that the default filter masks.
pub open spec fn builder_security_of(b: Backend) -> Option<SecurityContext> {
    match b {
        Backend::Buildkit => rootless(true),
        Backend::Kaniko => None,
        Backend::Buildah => rootless(false),
    }
}

/// The mount of each builder's own storage, where it has one.
pub open spec fn storage_mounts_of(b: Backend) -> Seq<MountView> {
    match b {
        Backend::Kaniko => Seq::empty(),
        _ => seq![cache_mount_of(b)],
    }
}

/// The mount where a cache pays off.
pub open spec fn cache_mount_of(b: Backend) -> MountView {
    MountView {
        name: backend::cache_volume_name_of(b),
        mount_path: backend::cache_mount_path_of(b),
        read_only: false,
    }
}

/// The volume of each builder's own storage, where it has one.
pub open spec fn storage_volumes_of(b: Backend) -> Seq<VolumeView> {
    match b {
        Backend::Kaniko => Seq::empty(),
        _ => seq![
            VolumeView {
                name: backend::cache_volume_name_of(b),
                source: VolumeSourceView::EmptyDir,
            },
        ],
    }
}

/// What keeps the builder of a pod alive until the build is driven in it.
pub open spec fn idle_command_of(b: Backend) -> Seq<Seq<char>> {
    match b {
        Backend::Kaniko => seq!["/busybox/sh"@, "-c"@, "sleep 7200"@],
        _ => seq!["sleep"@, "7200"@],
    }
}

/// What a cache volume is made of.
pub open spec fn cache_source(cache: CacheVolume) -> VolumeSourceView {
    match cache {
        CacheVolume::Pvc(name) => VolumeSourceView::Claim(name@),
        CacheVolume::HostPath(path) => VolumeSourceView::HostPath(path@),
    }
}

/// The volumes with the cache in the place of whatever had its name.
pub open spec fn cached_volumes(
    b: Backend,
    volumes: Seq<VolumeView>,
    cache: Option<CacheVolume>,
) -> Seq<VolumeView> {
    match cache {
        Some(c) => volumes.filter(
            |v: VolumeView| v.name != backend::cache_volume_name_of(b),
        ).push(VolumeView { name: backend::cache_volume_name_of(b), source: cache_source(c) }),
        None => volumes,
    }
}

/// The flags that make a builder use its cache. The other builders find it in their storage.
pub open spec fn cache_flags_of(b: Backend, cache: Option<CacheVolume>) -> Seq<Seq<char>> {
    if cache is Some && b == Backend::Kaniko {
        seq!["--cache=true"@, "--cache-dir="@ + backend::cache_mount_path_of(b)]
    } else {
        Seq::empty()
    }
}

/// The container with the cache. Only kaniko needs a change: it has no storage of its own, so
/// it gets the mount, and the flags that make it use a cache.
pub open spec fn cached_container(
    b: Backend,
    container: ContainerView,
    cache: Option<CacheVolume>,
) -> ContainerView {
    if cache is Some && b == Backend::Kaniko {
        ContainerView {
            mounts: container.mounts.push(cache_mount_of(b)),
            command: container.command + cache_flags_of(b, cache),
            ..container
        }
    } else {
        container
    }
}

/// A directory of the node comes up owned by root, so a builder that is not root needs its
/// permissions opened once before it can write there.
pub open spec fn perm_fix_of(b: Backend, cache: Option<CacheVolume>) -> Seq<ContainerView> {
    match (cache, b) {
        (Some(CacheVolume::HostPath(_)), Backend::Buildkit | Backend::Buildah) => seq![
            ContainerView {
                name: "fix-cache-perms"@,
                image: "busybox:1.36"@,
                command: seq!["chmod"@, "1777"@, backend::cache_mount_path_of(b)],
                env: Seq::empty(),
                security: Some(
                    SecurityContext { run_as_user: 0, run_as_group: 0, unconfined: false },
                ),
                mounts: seq![cache_mount_of(b)],
                resources: no_resources(),
                termination_message_policy: None,
            },
        ],
        _ => Seq::empty(),
    }
}

/// The labels by which the objects of a build are found again.
pub open spec fn labels_of(b: Backend) -> Seq<(Seq<char>, Seq<char>)> {
    seq![("app"@, "buildit"@), ("buildit/backend"@, backend::label_of(b))]
}

/// The directory that the build context is unpacked in. It is one of the pod's own, whatever
/// the cache is.
pub open spec fn workspace_volume() -> VolumeView {
    VolumeView { name: "workspace"@, source: VolumeSourceView::EmptyDir }
}

/// The mount of the directory that the build context is unpacked in.
pub open spec fn workspace_mount_of(b: Backend) -> MountView {
    MountView { name: "workspace"@, mount_path: backend::workspace_of(b), read_only: false }
}

/// The builder of a pod, before any cache.
pub open spec fn pod_container_of(b: Backend, resources: ResourcesView) -> ContainerView {
    ContainerView {
        name: "builder"@,
        image: builder_image_of(b),
        command: idle_command_of(b),
        env: builder_env_of(b),
        security: builder_security_of(b),
        mounts: seq![workspace_mount_of(b)] + storage_mounts_of(b),
        resources,
        termination_message_policy: None,
    }
}

/// The pod in which a build is driven. The default profile of AppArmor denies the mounts that
/// rootless builders need, so it is lifted. A fresh claim belongs to root, and the group lets
/// the builder write to it.
pub open spec fn pod_of(
    b: Backend,
    name: Seq<char>,
    namespace: Seq<char>,
    idle_nodes: Seq<Seq<char>>,
    resources: ResourcesView,
    cache: Option<CacheVolume>,
    node: Option<Seq<char>>,
) -> PodManifestView {
    PodManifestView {
        metadata: MetadataView {
            name: Some(name),
            namespace: Some(namespace),
            labels: labels_of(b),
            annotations: seq![
                ("container.apparmor.security.beta.kubernetes.io/builder"@, "unconfined"@),
            ],
        },
        plan: PodPlanView {
            restart_policy: "Never"@,
            active_deadline_seconds: Some(7200i64),
            fs_group: match cache {
                Some(CacheVolume::Pvc(_)) => Some(1000i64),
                _ => None,
            },
            init_containers: perm_fix_of(b, cache),
            containers: seq![cached_container(b, pod_container_of(b, resources), cache)],
            volumes: seq![workspace_volume()] + cached_volumes(b, storage_volumes_of(b), cache),
            node,
            preferred_nodes: idle_nodes,
        },
    }
}

fn mount(name: &str, mount_path: &str, read_only: bool) -> (m: Mount)
    ensures
        m@ == (MountView { name: name@, mount_path: mount_path@, read_only }),
{
    Mount { name: name.to_owned(), mount_path: mount_path.to_owned(), read_only }
}

fn pair(k: &str, v: &str) -> (kv: (String, String))
    ensures
        kv.0@ == k@,
        kv.1@ == v@,
{
    (k.to_owned(), v.to_owned())
}

fn copied_resources(r: &Resources) -> (copy: Resources)
    ensures
        copy@ == r@,
{
    Resources {
        requests: copied_pairs(r.requests.as_slice()),
        limits: copied_pairs(r.limits.as_slice()),
    }
}

fn empty_resources() -> (r: Resources)
    ensures
        r@ == no_resources(),
{
    let r = Resources { requests: Vec::new(), limits: Vec::new() };
    assert(r@.requests =~= Seq::empty());
    assert(r@.limits =~= Seq::empty());
    r
}

impl Backend {
    fn builder_image(&self) -> (s: &'static str)
        ensures
            s@ == builder_image_of(*self),
    {
        match self {
            Backend::Buildkit => "moby/buildkit:rootless",
            Backend::Kaniko => "gcr.io/kaniko-project/executor:debug",
            Backend::Buildah => "quay.io/buildah/stable:latest",
        }
    }

    fn builder_env(&self) -> (env: Vec<(String, String)>)
        ensures
            text::pairs(env@) == builder_env_of(*self),
    {
        let env: Vec<(String, String)> = match self {
            Backend::Buildkit => vec![
                pair("BUILDKITD_FLAGS", "--oci-worker-no-process-sandbox"),
                pair("HOME", "/home/user"),
            ],
            Backend::Kaniko => Vec::new(),
            Backend::Buildah => vec![
                pair("BUILDAH_ISOLATION", "chroot"),
                pair("STORAGE_DRIVER", "vfs"),
                pair("CONTAINERS_STORAGE_CONF", "/tmp/storage.conf"),
                pair("HOME", "/home/build"),
            ],
        };
        assert(text::pairs(env@) =~= builder_env_of(*self));
        env
    }

    fn builder_security(&self) -> (s: Option<SecurityContext>)
        ensures
            s == builder_security_of(*self),
    {
        match self {
            Backend::Buildkit => Some(
                SecurityContext { run_as_user: 1000, run_as_group: 1000, unconfined: true },
            ),
            Backend::Kaniko => None,
            Backend::Buildah => Some(
                SecurityContext { run_as_user: 1000, run_as_group: 1000, unconfined: false },
            ),
        }
    }

    fn storage_mounts(&self) -> (mounts: Vec<Mount>)
        ensures
            manifest::mounts_of(mounts@) == storage_mounts_of(*self),
    {
        let mounts: Vec<Mount> = match self {
            Backend::Kaniko => Vec::new(),
            _ => vec![mount(self.cache_volume_name(), self.cache_mount_path(), false)],
        };
        assert(manifest::mounts_of(mounts@) =~= storage_mounts_of(*self));
        mounts
    }

    fn storage_volumes(&self) -> (volumes: Vec<Volume>)
        ensures
            manifest::volumes_of(volumes@) == storage_volumes_of(*self),
    {
        let volumes: Vec<Volume> = match self {
            Backend::Kaniko => Vec::new(),
            _ => vec![
                Volume {
                    name: self.cache_volume_name().to_owned(),
                    source: VolumeSource::EmptyDir,
                },
            ],
        };
        assert(manifest::volumes_of(volumes@) =~= storage_volumes_of(*self));
        volumes
    }

    fn idle_command(&self) -> (argv: Vec<String>)
        ensures
            text::texts(argv@) == idle_command_of(*self),
    {
        let argv: Vec<String> = match self {
            Backend::Kaniko => vec![
                "/busybox/sh".to_owned(),
                "-c".to_owned(),
                "sleep 7200".to_owned(),
            ],
            _ => vec!["sleep".to_owned(), "7200".to_owned()],
        };
        assert(text::texts(argv@) =~= idle_command_of(*self));
        argv
    }

    fn labels(&self) -> (labels: Vec<(String, String)>)
        ensures
            text::pairs(labels@) == labels_of(*self),
    {
        let labels: Vec<(String, String)> = vec![
            pair("app", "buildit"),
            pair("buildit/backend", self.label()),
        ];
        assert(text::pairs(labels@) =~= labels_of(*self));
        labels
    }

    /// The flags that make a builder use its cache.
    pub fn cache_flags(&self, cache: Option<CacheVolume<'_>>) -> (flags: Vec<String>)
        ensures
            text::texts(flags@) == cache_flags_of(*self, cache),
    {
        let mut flags: Vec<String> = Vec::new();
        if cache.is_some() && *self == Backend::Kaniko {
            flags.push("--cache=true".to_owned());
            flags.push("--cache-dir=".to_owned().concat(self.cache_mount_path()));
        }
        assert(text::texts(flags@) =~= cache_flags_of(*self, cache));
        flags
    }

    /// Points the builder's cache volume at the cache. Kaniko has no storage of its own, so it
    /// also gets the mount, and the flags that make it use a cache.
    pub fn apply_cache(
        &self,
        container: &mut Container,
        volumes: &mut Vec<Volume>,
        cache: CacheVolume<'_>,
    )
        ensures
            final(container)@ == cached_container(*self, old(container)@, Some(cache)),
            manifest::volumes_of(final(volumes)@) == cached_volumes(
                *self,
                manifest::volumes_of(old(volumes)@),
                Some(cache),
            ),
    {
        let vol_name = self.cache_volume_name();
        let ghost before = manifest::volumes_of(volumes@);
        let ghost other = |v: VolumeView| v.name != backend::cache_volume_name_of(*self);
        let mut taken: Vec<Volume> = Vec::new();
        std::mem::swap(&mut taken, volumes);
        assert(before.take(0).filter(other) =~= Seq::empty()) by {
            reveal(Seq::filter);
        }
        for v in it: taken
            invariant
                vol_name@ == backend::cache_volume_name_of(*self),
                other == (|v: VolumeView| v.name != backend::cache_volume_name_of(*self)),
                before == manifest::volumes_of(it.seq()),
                manifest::volumes_of(volumes@) == before.take(it.index() as int).filter(other),
        {
            let ghost i = it.index() as int;
            let ghost now = volumes@;
            assert(before.take(i + 1).drop_last() =~= before.take(i));
            assert(before.take(i + 1).last() == v@);
            if !same_text(v.name.as_str(), vol_name) {
                volumes.push(v);
                assert(manifest::volumes_of(volumes@) =~= manifest::volumes_of(now).push(v@));
            }
            assert(manifest::volumes_of(volumes@) == before.take(i + 1).filter(other)) by {
                reveal(Seq::filter);
            }
        }
        assert(before.take(before.len() as int) =~= before);
        let ghost kept = volumes@;
        let source = match cache {
            CacheVolume::Pvc(name) => VolumeSource::Claim(name.to_owned()),
            CacheVolume::HostPath(path) => VolumeSource::HostPath(path.to_owned()),
        };
        volumes.push(Volume { name: vol_name.to_owned(), source });
        assert(manifest::volumes_of(volumes@) =~= manifest::volumes_of(kept).push(
            VolumeView {
                name: backend::cache_volume_name_of(*self),
                source: cache_source(cache),
            },
        ));
        if *self == Backend::Kaniko {
            let ghost was = container@;
            container.mounts.push(mount(vol_name, self.cache_mount_path(), false));
            let mut flags = self.cache_flags(Some(cache));
            container.command.append(&mut flags);
            assert(container@.mounts =~= was.mounts.push(cache_mount_of(*self)));
            assert(container@.command =~= cached_container(*self, was, Some(cache)).command);
        }
    }

    /// The container that opens the permissions of a directory of the node, for builders that
    /// are not root.
    pub fn cache_perm_fix(&self, cache: Option<CacheVolume<'_>>) -> (fix: Option<Container>)
        ensures
            match fix {
                Some(c) => perm_fix_of(*self, cache) == seq![c@],
                None => perm_fix_of(*self, cache).len() == 0,
            },
    {
        match (cache, self) {
            (Some(CacheVolume::HostPath(_)), Backend::Buildkit | Backend::Buildah) => {
                let fix = Container {
                    name: "fix-cache-perms".to_owned(),
                    image: "busybox:1.36".to_owned(),
                    command: vec![
                        "chmod".to_owned(),
                        "1777".to_owned(),
                        self.cache_mount_path().to_owned(),
                    ],
                    env: Vec::new(),
                    security: Some(
                        SecurityContext { run_as_user: 0, run_as_group: 0, unconfined: false },
                    ),
                    mounts: vec![mount(self.cache_volume_name(), self.cache_mount_path(), false)],
                    resources: empty_resources(),
                    termination_message_policy: None,
                };
                assert(fix@.command =~= perm_fix_of(*self, cache)[0].command);
                assert(fix@.env =~= Seq::empty());
                assert(fix@.mounts =~= seq![cache_mount_of(*self)]);
                Some(fix)
            },
            _ => None,
        }
    }

    /// The pod in which a build is driven.
    pub fn pod_manifest(&self, name: &str, namespace: &str, opts: &PodOpts<'_>) -> (pod: PodManifest)
        ensures
            pod@ == pod_of(
                *self,
                name@,
                namespace@,
                text::texts(opts.idle_nodes@),
                opts.resources@,
                opts.cache,
                text::opt_str(opts.node),
            ),
    {
        let mut mounts: Vec<Mount> = vec![mount("workspace", self.workspace(), false)];
        let ghost own = mounts@;
        let mut storage_mounts = self.storage_mounts();
        let ghost rest = storage_mounts@;
        mounts.append(&mut storage_mounts);
        assert(manifest::mounts_of(own) =~= seq![workspace_mount_of(*self)]);
        assert(manifest::mounts_of(mounts@) =~= manifest::mounts_of(own) + manifest::mounts_of(
            rest,
        ));
        let mut container = Container {
            name: "builder".to_owned(),
            image: self.builder_image().to_owned(),
            command: self.idle_command(),
            env: self.builder_env(),
            security: self.builder_security(),
            mounts,
            resources: copied_resources(opts.resources),
            termination_message_policy: None,
        };
        let mut storage = self.storage_volumes();
        if let Some(cache) = opts.cache {
            self.apply_cache(&mut container, &mut storage, cache);
        }
        let ghost stored = storage@;
        let mut volumes: Vec<Volume> = vec![
            Volume { name: "workspace".to_owned(), source: VolumeSource::EmptyDir },
        ];
        let ghost scratch = volumes@;
        volumes.append(&mut storage);
        assert(manifest::volumes_of(scratch) =~= seq![workspace_volume()]);
        assert(manifest::volumes_of(volumes@) =~= manifest::volumes_of(scratch)
            + manifest::volumes_of(stored));
        let fs_group: Option<i64> = match opts.cache {
            Some(CacheVolume::Pvc(_)) => Some(1000),
            _ => None,
        };
        let init_containers: Vec<Container> = match self.cache_perm_fix(opts.cache) {
            Some(fix) => vec![fix],
            None => Vec::new(),
        };
        let annotations: Vec<(String, String)> = vec![
            pair("container.apparmor.security.beta.kubernetes.io/builder", "unconfined"),
        ];
        let node = match opts.node {
            Some(node) => Some(node.to_owned()),
            None => None,
        };
        let pod = PodManifest {
            metadata: Metadata {
                name: Some(name.to_owned()),
                namespace: Some(namespace.to_owned()),
                labels: self.labels(),
                annotations,
            },
            plan: PodPlan {
                restart_policy: "Never".to_owned(),
                active_deadline_seconds: Some(7200),
                fs_group,
                init_containers,
                containers: vec![container],
                volumes,
                node,
                preferred_nodes: copied(opts.idle_nodes),
            },
        };
        proof {
            let want = pod_of(
                *self,
                name@,
                namespace@,
                text::texts(opts.idle_nodes@),
                opts.resources@,
                opts.cache,
                text::opt_str(opts.node),
            );
            assert(pod@.metadata.annotations =~= want.metadata.annotations);
            assert(pod@.plan.init_containers =~= want.plan.init_containers);
            assert(pod@.plan.containers =~= want.plan.containers);
        }
        pod
    }
}

/// Each text as one word for the shell.
pub open spec fn quoted_all(items: Seq<Seq<char>>) -> Seq<Seq<char>> {
    items.map_values(|s: Seq<char>| shell::quoted(s))
}

fn quote_all(items: &[String]) -> (out: Vec<String>)
    ensures
        text::texts(out@) == quoted_all(text::texts(items@)),
{
    let mut out: Vec<String> = Vec::new();
    for i in 0..items.len()
        invariant
            out@.len() == i,
            forall|j: int| 0 <= j < i ==> (#[trigger] out@[j])@ == shell::quoted(items@[j]@),
    {
        out.push(shell_quote(items[i].as_str()));
    }
    assert(text::texts(out@) =~= quoted_all(text::texts(items@)));
    out
}

/// The words, as the script of a job spells them, with which buildkit builds.
pub open spec fn buildkit_spelling(
    image: Seq<char>,
    dockerfile: Seq<char>,
    build_args: Seq<Seq<char>>,
    labels: Seq<(Seq<char>, Seq<char>)>,
) -> Seq<Seq<char>> {
    backend::buildkit_argv(
        "/workspace"@,
        "/tmp/metadata.json"@,
        shell::quoted(image),
        shell::quoted(dockerfile),
        backend::prefixed("build-arg:"@, quoted_all(build_args)),
        quoted_all(backend::prefixed("label:"@, backend::label_texts(labels))),
    )
}

/// The words, as the script of a job spells them, with which buildah builds.
pub open spec fn buildah_build_spelling(
    image: Seq<char>,
    dockerfile: Seq<char>,
    build_args: Seq<Seq<char>>,
    labels: Seq<(Seq<char>, Seq<char>)>,
) -> Seq<Seq<char>> {
    backend::buildah_build_argv(
        "/workspace"@,
        "/auth/config.json"@,
        shell::quoted(image),
        shell::quoted("/workspace/"@ + dockerfile),
        quoted_all(build_args),
        quoted_all(backend::label_texts(labels)),
    )
}

/// The words, as the script of a job spells them, with which buildah pushes.
pub open spec fn buildah_push_spelling(image: Seq<char>) -> Seq<Seq<char>> {
    backend::buildah_push_argv(
        "/auth/config.json"@,
        "/dev/termination-log"@,
        shell::quoted(image),
    )
}

/// The command of a job's builder. It ends by leaving the digest where the cluster keeps it in
/// the status of the pod. Buildkit replaces its metadata file, which cannot be done to that
/// place, so it writes another one first.
pub open spec fn job_command_of(
    b: Backend,
    image: Seq<char>,
    dockerfile: Seq<char>,
    build_args: Seq<Seq<char>>,
    labels: Seq<(Seq<char>, Seq<char>)>,
) -> Seq<Seq<char>> {
    match b {
        Backend::Buildkit => seq![
            "sh"@,
            "-c"@,
            shell::joined(buildkit_spelling(image, dockerfile, build_args, labels), " "@)
                + " && cat /tmp/metadata.json > /dev/termination-log"@,
        ],
        Backend::Kaniko => backend::kaniko_argv(
            "/workspace"@,
            "/dev/termination-log"@,
            image,
            dockerfile,
            build_args,
        ) + backend::prefixed("--label="@, backend::label_texts(labels)),
        Backend::Buildah => seq![
            "sh"@,
            "-c"@,
            backend::storage_conf_script() + " && mkdir -p /tmp/containers-run && "@
                + shell::joined(
                buildah_build_spelling(image, dockerfile, build_args, labels),
                " "@,
            ) + " && "@ + shell::joined(buildah_push_spelling(image), " "@),
        ],
    }
}

/// The environment of a job's builder: buildkit and kaniko find the credentials by it.
pub open spec fn job_env_of(b: Backend) -> Seq<(Seq<char>, Seq<char>)> {
    match b {
        Backend::Buildah => builder_env_of(b),
        _ => builder_env_of(b).push(("DOCKER_CONFIG"@, "/auth"@)),
    }
}

/// The mounts of the staged context and of the credentials.
pub open spec fn staging_mounts() -> Seq<MountView> {
    seq![
        MountView { name: "workspace"@, mount_path: "/workspace"@, read_only: false },
        MountView { name: "auth"@, mount_path: "/auth"@, read_only: true },
    ]
}

/// The builder of a job, before any cache. Where there is no digest to report, the end of the
/// log is kept in its place.
pub open spec fn job_container_of(
    b: Backend,
    image: Seq<char>,
    dockerfile: Seq<char>,
    build_args: Seq<Seq<char>>,
    labels: Seq<(Seq<char>, Seq<char>)>,
    resources: ResourcesView,
) -> ContainerView {
    ContainerView {
        name: "builder"@,
        image: builder_image_of(b),
        command: job_command_of(b, image, dockerfile, build_args, labels),
        env: job_env_of(b),
        security: builder_security_of(b),
        mounts: staging_mounts() + storage_mounts_of(b),
        resources,
        termination_message_policy: Some("FallbackToLogsOnError"@),
    }
}

/// The container that stages the context before the builder of a job starts.
pub open spec fn fetch_context_of(ctx_ref: Seq<char>) -> ContainerView {
    ContainerView {
        name: "fetch-context"@,
        image: "gcr.io/go-containerregistry/crane:debug"@,
        command: seq![
            "sh"@,
            "-c"@,
            "crane export \"$CTX_REF\" - | tar -x -C /workspace"@,
        ],
        env: seq![("DOCKER_CONFIG"@, "/auth"@), ("CTX_REF"@, ctx_ref)],
        security: None,
        mounts: staging_mounts(),
        resources: no_resources(),
        termination_message_policy: None,
    }
}

/// The volumes of the staged context and of the credentials, which are in a secret with the
/// name of the job.
pub open spec fn staging_volumes(name: Seq<char>) -> Seq<VolumeView> {
    seq![
        VolumeView { name: "workspace"@, source: VolumeSourceView::EmptyDir },
        VolumeView {
            name: "auth"@,
            source: VolumeSourceView::Secret(name, seq![(".dockerconfigjson"@, "config.json"@)]),
        },
    ]
}

/// The job that carries a build on its own. Trying again is safe: the context is in the
/// registry under the digest of what it holds. The group lets the builder write to the
/// directory that the context is staged in.
pub open spec fn job_of(
    b: Backend,
    name: Seq<char>,
    namespace: Seq<char>,
    args: DetachArgs,
) -> JobManifestView {
    JobManifestView {
        metadata: MetadataView {
            name: Some(name),
            namespace: Some(namespace),
            labels: labels_of(b),
            annotations: seq![("buildit/image"@, args.image@)],
        },
        backoff_limit: 2,
        ttl_seconds_after_finished: 3600,
        active_deadline_seconds: 7200,
        template: PodManifestView {
            metadata: MetadataView {
                name: None,
                namespace: None,
                labels: labels_of(b),
                annotations: seq![
                    ("container.apparmor.security.beta.kubernetes.io/builder"@, "unconfined"@),
                    (
                        "container.apparmor.security.beta.kubernetes.io/fetch-context"@,
                        "unconfined"@,
                    ),
                ],
            },
            plan: PodPlanView {
                restart_policy: "Never"@,
                active_deadline_seconds: None,
                fs_group: Some(1000i64),
                init_containers: perm_fix_of(b, args.cache) + seq![fetch_context_of(args.ctx_ref@)],
                containers: seq![
                    cached_container(
                        b,
                        job_container_of(
                            b,
                            args.image@,
                            args.dockerfile@,
                            text::texts(args.build_args@),
                            text::pairs(args.labels@),
                            args.resources@,
                        ),
                        args.cache,
                    ),
                ],
                volumes: staging_volumes(name) + cached_volumes(
                    b,
                    storage_volumes_of(b),
                    args.cache,
                ),
                node: text::opt_str(args.node),
                preferred_nodes: text::texts(args.idle_nodes@),
            },
        },
    }
}

fn staging_mount_list() -> (mounts: Vec<Mount>)
    ensures
        manifest::mounts_of(mounts@) == staging_mounts(),
{
    let mounts: Vec<Mount> = vec![
        mount("workspace", "/workspace", false),
        mount("auth", "/auth", true),
    ];
    assert(manifest::mounts_of(mounts@) =~= staging_mounts());
    mounts
}

fn fetch_context(ctx_ref: &str) -> (c: Container)
    ensures
        c@ == fetch_context_of(ctx_ref@),
{
    let c = Container {
        name: "fetch-context".to_owned(),
        image: "gcr.io/go-containerregistry/crane:debug".to_owned(),
        command: vec![
            "sh".to_owned(),
            "-c".to_owned(),
            "crane export \"$CTX_REF\" - | tar -x -C /workspace".to_owned(),
        ],
        env: vec![pair("DOCKER_CONFIG", "/auth"), pair("CTX_REF", ctx_ref)],
        security: None,
        mounts: staging_mount_list(),
        resources: empty_resources(),
        termination_message_policy: None,
    };
    assert(c@.command =~= fetch_context_of(ctx_ref@).command);
    assert(c@.env =~= fetch_context_of(ctx_ref@).env);
    c
}

fn sh(script: String) -> (argv: Vec<String>)
    ensures
        text::texts(argv@) == seq!["sh"@, "-c"@, script@],
{
    let argv: Vec<String> = vec!["sh".to_owned(), "-c".to_owned(), script];
    assert(text::texts(argv@) =~= seq!["sh"@, "-c"@, script@]);
    argv
}

impl Backend {
    fn job_command(
        &self,
        image: &str,
        dockerfile: &str,
        build_args: &[String],
        labels: &[(String, String)],
    ) -> (argv: Vec<String>)
        ensures
            text::texts(argv@) == job_command_of(
                *self,
                image@,
                dockerfile@,
                text::texts(build_args@),
                text::pairs(labels@),
            ),
    {
        let label_words = label_strings(labels);
        match self {
            Backend::Buildkit => {
                let argv = buildkit_command(
                    "/workspace",
                    "/tmp/metadata.json",
                    shell_quote(image).as_str(),
                    shell_quote(dockerfile).as_str(),
                    prefix_all("build-arg:", quote_all(build_args).as_slice()).as_slice(),
                    quote_all(prefix_all("label:", label_words.as_slice()).as_slice()).as_slice(),
                );
                sh(
                    join(argv.as_slice(), " ").concat(
                        " && cat /tmp/metadata.json > /dev/termination-log",
                    ),
                )
            },
            Backend::Kaniko => {
                let mut argv = kaniko_command(
                    "/workspace",
                    "/dev/termination-log",
                    image,
                    dockerfile,
                    build_args,
                );
                let ghost so_far = argv@;
                let mut rest = prefix_all("--label=", label_words.as_slice());
                let ghost tail = rest@;
                argv.append(&mut rest);
                assert(text::texts(argv@) =~= text::texts(so_far) + text::texts(tail));
                argv
            },
            Backend::Buildah => {
                let file = "/workspace/".to_owned().concat(dockerfile);
                let build = buildah_build_command(
                    "/workspace",
                    "/auth/config.json",
                    shell_quote(image).as_str(),
                    shell_quote(file.as_str()).as_str(),
                    quote_all(build_args).as_slice(),
                    quote_all(label_words.as_slice()).as_slice(),
                );
                let push = buildah_push_command(
                    "/auth/config.json",
                    "/dev/termination-log",
                    shell_quote(image).as_str(),
                );
                sh(
                    storage_conf().concat(" && mkdir -p /tmp/containers-run && ").concat(
                        join(build.as_slice(), " ").as_str(),
                    ).concat(" && ").concat(join(push.as_slice(), " ").as_str()),
                )
            },
        }
    }

    /// The builder of a job, before any cache.
    pub fn job_builder_container(
        &self,
        image: &str,
        dockerfile: &str,
        build_args: &[String],
        labels: &[(String, String)],
        resources: &Resources,
    ) -> (c: Container)
        ensures
            c@ == job_container_of(
                *self,
                image@,
                dockerfile@,
                text::texts(build_args@),
                text::pairs(labels@),
                resources@,
            ),
    {
        let mut env = self.builder_env();
        let ghost was = env@;
        if *self != Backend::Buildah {
            env.push(pair("DOCKER_CONFIG", "/auth"));
            assert(text::pairs(env@) =~= text::pairs(was).push(("DOCKER_CONFIG"@, "/auth"@)));
        }
        let mut mounts = staging_mount_list();
        let ghost staging = mounts@;
        let mut storage = self.storage_mounts();
        let ghost tail = storage@;
        mounts.append(&mut storage);
        assert(manifest::mounts_of(mounts@) =~= manifest::mounts_of(staging)
            + manifest::mounts_of(tail));
        Container {
            name: "builder".to_owned(),
            image: self.builder_image().to_owned(),
            command: self.job_command(image, dockerfile, build_args, labels),
            env,
            security: self.builder_security(),
            mounts,
            resources: copied_resources(resources),
            termination_message_policy: Some("FallbackToLogsOnError".to_owned()),
        }
    }

    /// The job that carries a build on its own.
    pub fn job_manifest(&self, name: &str, namespace: &str, args: &DetachArgs<'_>) -> (job:
        JobManifest)
        ensures
            job@ == job_of(*self, name@, namespace@, *args),
    {
        let mut builder = self.job_builder_container(
            args.image,
            args.dockerfile,
            args.build_args,
            args.labels,
            args.resources,
        );
        let mut storage = self.storage_volumes();
        if let Some(cache) = args.cache {
            self.apply_cache(&mut builder, &mut storage, cache);
        }
        let items: Vec<(String, String)> = vec![pair(".dockerconfigjson", "config.json")];
        assert(text::pairs(items@) =~= seq![(".dockerconfigjson"@, "config.json"@)]);
        let mut volumes: Vec<Volume> = vec![
            Volume { name: "workspace".to_owned(), source: VolumeSource::EmptyDir },
            Volume {
                name: "auth".to_owned(),
                source: VolumeSource::Secret(name.to_owned(), items),
            },
        ];
        assert(manifest::volumes_of(volumes@) =~= staging_volumes(name@));
        let ghost staging = volumes@;
        let ghost tail = storage@;
        volumes.append(&mut storage);
        assert(manifest::volumes_of(volumes@) =~= manifest::volumes_of(staging)
            + manifest::volumes_of(tail));
        let mut init_containers: Vec<Container> = Vec::new();
        if let Some(fix) = self.cache_perm_fix(args.cache) {
            init_containers.push(fix);
        }
        init_containers.push(fetch_context(args.ctx_ref));
        let node = match args.node {
            Some(node) => Some(node.to_owned()),
            None => None,
        };
        let job = JobManifest {
            metadata: Metadata {
                name: Some(name.to_owned()),
                namespace: Some(namespace.to_owned()),
                labels: self.labels(),
                annotations: vec![pair("buildit/image", args.image)],
            },
            backoff_limit: 2,
            ttl_seconds_after_finished: 3600,
            active_deadline_seconds: 7200,
            template: PodManifest {
                metadata: Metadata {
                    name: None,
                    namespace: None,
                    labels: self.labels(),
                    annotations: vec![
                        pair(
                            "container.apparmor.security.beta.kubernetes.io/builder",
                            "unconfined",
                        ),
                        pair(
                            "container.apparmor.security.beta.kubernetes.io/fetch-context",
                            "unconfined",
                        ),
                    ],
                },
                plan: PodPlan {
                    restart_policy: "Never".to_owned(),
                    active_deadline_seconds: None,
                    fs_group: Some(1000),
                    init_containers,
                    containers: vec![builder],
                    volumes,
                    node,
                    preferred_nodes: copied(args.idle_nodes),
                },
            },
        };
        proof {
            let want = job_of(*self, name@, namespace@, *args);
            assert(job@.metadata.annotations =~= want.metadata.annotations);
            assert(job@.template.metadata.annotations =~= want.template.metadata.annotations);
            assert(job@.template.plan.init_containers =~= want.template.plan.init_containers);
            assert(job@.template.plan.containers =~= want.template.plan.containers);
        }
        job
    }

    /// The pod in which a build is driven, for the cluster.
    pub fn pod_spec(&self, name: &str, namespace: &str, opts: &PodOpts<'_>) -> (r: Result<
        k8s_openapi::api::core::v1::Pod,
        ManifestError,
    >)
        ensures
            ({
                let doc = manifest::pod_json(
                    pod_of(
                        *self,
                        name@,
                        namespace@,
                        text::texts(opts.idle_nodes@),
                        opts.resources@,
                        opts.cache,
                        text::opt_str(opts.node),
                    ),
                );
                r is Ok && manifest::typed_pod(doc) == Some(r->Ok_0)
            }),
    {
        self.pod_manifest(name, namespace, opts).typed()
    }

    /// The job that carries a build on its own, for the cluster.
    pub fn job_spec(&self, name: &str, namespace: &str, args: &DetachArgs<'_>) -> (r: Result<
        k8s_openapi::api::batch::v1::Job,
        ManifestError,
    >)
        ensures
            ({
                let doc = manifest::job_json(job_of(*self, name@, namespace@, *args));
                r is Ok && manifest::typed_job(doc) == Some(r->Ok_0)
            }),
    {
        self.job_manifest(name, namespace, args).typed()
    }
}

}
