//! What the pod and the job of a build consist of, for each builder.

use vstd::prelude::*;

use crate::backend;
use crate::backend::{Backend, CacheVolume};
use crate::builder;
use crate::job::DetachArgs;
use crate::manifest::{
    ContainerView, MountView, ResourcesView, SecurityContext, VolumeSourceView, VolumeView,
};
use crate::text;

verus! {

/// Whether the container is the builder of that make: its image, its user, what it asks for,
/// and the variables without which it does not build.
pub open spec fn is_builder(b: Backend, c: ContainerView, resources: ResourcesView) -> bool {
    &&& c.name == "builder"@
    &&& c.resources == resources
    &&& match b {
        Backend::Buildkit => {
            &&& c.image == "moby/buildkit:rootless"@
            &&& c.security == Some(
                SecurityContext { run_as_user: 1000, run_as_group: 1000, unconfined: true },
            )
            &&& c.env.len() >= 2
            &&& c.env[0] == ("BUILDKITD_FLAGS"@, "--oci-worker-no-process-sandbox"@)
            &&& c.env[1] == ("HOME"@, "/home/user"@)
        },
        Backend::Kaniko => {
            &&& c.image == "gcr.io/kaniko-project/executor:debug"@
            &&& c.security is None
        },
        Backend::Buildah => {
            &&& c.image == "quay.io/buildah/stable:latest"@
            &&& c.security == Some(
                SecurityContext { run_as_user: 1000, run_as_group: 1000, unconfined: false },
            )
            &&& c.env.len() == 4
            &&& c.env[0] == ("BUILDAH_ISOLATION"@, "chroot"@)
            &&& c.env[1] == ("STORAGE_DRIVER"@, "vfs"@)
            &&& c.env[2] == ("CONTAINERS_STORAGE_CONF"@, "/tmp/storage.conf"@)
            &&& c.env[3] == ("HOME"@, "/home/build"@)
        },
    }
}

/// Whether the mount has the name and the path, and can be written to.
pub open spec fn mounted(m: MountView, name: Seq<char>, path: Seq<char>) -> bool {
    m.name == name && m.mount_path == path && !m.read_only
}

/// Whether the container has so many mounts of its own, and behind them that of its storage: a
/// builder with a storage has it always, kaniko where there is a cache.
pub open spec fn storage_mounted(b: Backend, c: ContainerView, own: int, cached: bool) -> bool {
    match b {
        Backend::Buildkit => {
            &&& c.mounts.len() == own + 1
            &&& mounted(c.mounts[own], "buildkit-storage"@, "/home/user/.local/share/buildkit"@)
        },
        Backend::Kaniko => {
            &&& c.mounts.len() == own + if cached {
                1int
            } else {
                0
            }
            &&& cached ==> mounted(c.mounts[own], "kaniko-cache"@, "/cache"@)
        },
        Backend::Buildah => {
            &&& c.mounts.len() == own + 1
            &&& mounted(
                c.mounts[own],
                "containers-storage"@,
                "/home/build/.local/share/containers"@,
            )
        },
    }
}

/// Whether the volume is what the cache lives on: the claim or the directory that was named,
/// or without a cache a fresh directory.
pub open spec fn holds_cache(v: VolumeView, cache: Option<CacheVolume>) -> bool {
    match cache {
        Some(CacheVolume::Pvc(name)) => v.source == VolumeSourceView::Claim(name@),
        Some(CacheVolume::HostPath(path)) => v.source == VolumeSourceView::HostPath(path@),
        None => v.source is EmptyDir,
    }
}

/// Whether behind so many volumes there is that of the builder's storage, and no other.
pub open spec fn storage_held(
    b: Backend,
    volumes: Seq<VolumeView>,
    own: int,
    cache: Option<CacheVolume>,
) -> bool {
    match b {
        Backend::Buildkit => {
            &&& volumes.len() == own + 1
            &&& volumes[own].name == "buildkit-storage"@
            &&& holds_cache(volumes[own], cache)
        },
        Backend::Kaniko => {
            &&& volumes.len() == own + if cache is Some {
                1int
            } else {
                0
            }
            &&& cache is Some ==> volumes[own].name == "kaniko-cache"@ && holds_cache(
                volumes[own],
                cache,
            )
        },
        Backend::Buildah => {
            &&& volumes.len() == own + 1
            &&& volumes[own].name == "containers-storage"@
            &&& holds_cache(volumes[own], cache)
        },
    }
}

/// Whether the container opens the permissions of the directory, as root, and does nothing else.
pub open spec fn opens_permissions(c: ContainerView, name: Seq<char>, path: Seq<char>) -> bool {
    &&& c.name == "fix-cache-perms"@
    &&& c.image == "busybox:1.36"@
    &&& c.command.len() == 3
    &&& c.command[0] == "chmod"@
    &&& c.command[1] == "1777"@
    &&& c.command[2] == path
    &&& c.env.len() == 0
    &&& c.security == Some(SecurityContext { run_as_user: 0, run_as_group: 0, unconfined: false })
    &&& c.mounts.len() == 1
    &&& mounted(c.mounts[0], name, path)
    &&& c.resources.requests.len() == 0
    &&& c.resources.limits.len() == 0
    &&& c.termination_message_policy is None
}

/// Whether, of so many containers that run first, one opens the permissions of the cache: where
/// that is a directory of the node, and the builder is not root.
pub open spec fn permissions_opened(
    b: Backend,
    first: Seq<ContainerView>,
    others: int,
    cache: Option<CacheVolume>,
) -> bool {
    if cache is Some && cache->0 is HostPath && b != Backend::Kaniko {
        &&& first.len() == others + 1
        &&& b == Backend::Buildkit ==> opens_permissions(
            first[0],
            "buildkit-storage"@,
            "/home/user/.local/share/buildkit"@,
        )
        &&& b == Backend::Buildah ==> opens_permissions(
            first[0],
            "containers-storage"@,
            "/home/build/.local/share/containers"@,
        )
    } else {
        first.len() == others
    }
}

/// Whether the labels are the mark of a build and the name of its builder.
pub open spec fn marked(b: Backend, labels: Seq<(Seq<char>, Seq<char>)>) -> bool {
    &&& labels.len() == 2
    &&& labels[0] == ("app"@, "buildit"@)
    &&& labels[1].0 == "buildit/backend"@
    &&& b == Backend::Buildkit ==> labels[1].1 == "buildkit"@
    &&& b == Backend::Kaniko ==> labels[1].1 == "kaniko"@
    &&& b == Backend::Buildah ==> labels[1].1 == "buildah"@
}

/// The cache takes the place of the volume that has its name: the volumes of other names stay,
/// and behind them is the one that the cache lives on.
pub proof fn cache_takes_its_place(b: Backend, volumes: Seq<VolumeView>, cache: CacheVolume, i: int)
    ensures
        ({
            let after = builder::cached_volumes(b, volumes, Some(cache));
            &&& after.len() > 0
            &&& after.last().name == backend::cache_volume_name_of(b)
            &&& holds_cache(after.last(), Some(cache))
            &&& 0 <= i < volumes.len() && volumes[i].name != after.last().name ==> after.contains(
                volumes[i],
            )
            &&& 0 <= i < after.len() - 1 ==> after[i].name != after.last().name
            &&& after.len() <= volumes.len() + 1
        }),
        builder::cached_volumes(b, volumes, None) == volumes,
{
    let name = backend::cache_volume_name_of(b);
    let other = |v: VolumeView| v.name != name;
    let kept = volumes.filter(other);
    let after = builder::cached_volumes(b, volumes, Some(cache));
    assert(after =~= kept.push(after.last()));
    volumes.lemma_filter_len(other);
    if 0 <= i < volumes.len() && volumes[i].name != name {
        volumes.lemma_filter_contains(other, i);
        let k = kept.index_of(volumes[i]);
        assert(after[k] == volumes[i]);
    }
    if 0 <= i < kept.len() {
        volumes.lemma_filter_pred(other, i);
        assert(after[i] == kept[i]);
    }
}

proof fn storage_is_held(b: Backend, cache: Option<CacheVolume>)
    ensures
        storage_held(
            b,
            builder::cached_volumes(b, builder::storage_volumes_of(b), cache),
            0,
            cache,
        ),
{
    let volumes = builder::storage_volumes_of(b);
    if cache is Some {
        let name = backend::cache_volume_name_of(b);
        let other = |v: VolumeView| v.name != name;
        reveal_with_fuel(Seq::filter, 2);
        if b == Backend::Kaniko {
            assert(volumes.filter(other) =~= Seq::empty());
        } else {
            assert(volumes.drop_last() =~= Seq::empty());
            assert(volumes.last().name == name);
            assert(volumes.filter(other) =~= Seq::empty());
        }
    }
}

/// The pod of a build: one builder, which sleeps until it is driven, for two hours at most, with
/// a directory for the context and its storage; where it runs is what was asked for.
pub proof fn pod_consists_of(
    b: Backend,
    name: Seq<char>,
    namespace: Seq<char>,
    idle_nodes: Seq<Seq<char>>,
    resources: ResourcesView,
    cache: Option<CacheVolume>,
    node: Option<Seq<char>>,
)
    ensures
        ({
            let pod = builder::pod_of(b, name, namespace, idle_nodes, resources, cache, node);
            let plan = pod.plan;
            let c = plan.containers[0];
            &&& pod.metadata.name == Some(name)
            &&& pod.metadata.namespace == Some(namespace)
            &&& marked(b, pod.metadata.labels)
            &&& pod.metadata.annotations.len() == 1
            &&& pod.metadata.annotations[0] == (
                "container.apparmor.security.beta.kubernetes.io/builder"@,
                "unconfined"@,
            )
            &&& plan.restart_policy == "Never"@
            &&& plan.active_deadline_seconds == Some(7200i64)
            &&& plan.fs_group == (if cache is Some && cache->0 is Pvc {
                Some(1000i64)
            } else {
                None
            })
            &&& plan.node == node
            &&& plan.preferred_nodes == idle_nodes
            &&& permissions_opened(b, plan.init_containers, 0, cache)
            &&& plan.containers.len() == 1
            &&& is_builder(b, c, resources)
            &&& c.env.len() == match b {
                Backend::Buildkit => 2int,
                Backend::Kaniko => 0,
                Backend::Buildah => 4,
            }
            &&& c.termination_message_policy is None
            &&& mounted(
                c.mounts[0],
                "workspace"@,
                match b {
                    Backend::Buildkit => "/home/user/workspace"@,
                    Backend::Kaniko => "/workspace"@,
                    Backend::Buildah => "/home/build/workspace"@,
                },
            )
            &&& storage_mounted(b, c, 1, cache is Some)
            &&& plan.volumes.len() > 0
            &&& plan.volumes[0].name == "workspace"@
            &&& plan.volumes[0].source is EmptyDir
            &&& storage_held(b, plan.volumes, 1, cache)
        }),
{
    storage_is_held(b, cache);
}

/// What keeps the builder of a pod alive: two hours of sleep, by the shell where there is no
/// command for it.
pub proof fn pod_builder_sleeps(
    b: Backend,
    name: Seq<char>,
    namespace: Seq<char>,
    idle_nodes: Seq<Seq<char>>,
    resources: ResourcesView,
    cache: Option<CacheVolume>,
    node: Option<Seq<char>>,
)
    ensures
        ({
            let pod = builder::pod_of(b, name, namespace, idle_nodes, resources, cache, node);
            let words = pod.plan.containers[0].command;
            &&& b != Backend::Kaniko ==> {
                &&& words.len() == 2
                &&& words[0] == "sleep"@
                &&& words[1] == "7200"@
            }
            &&& b == Backend::Kaniko ==> {
                &&& words.len() == if cache is Some {
                    5int
                } else {
                    3
                }
                &&& words[0] == "/busybox/sh"@
                &&& words[1] == "-c"@
                &&& words[2] == "sleep 7200"@
            }
        }),
{
}

/// The job of a build: it is tried three times in all, for two hours at most, and is gone an
/// hour after it ended. It says which image it builds.
pub proof fn job_consists_of(b: Backend, name: Seq<char>, namespace: Seq<char>, args: DetachArgs)
    ensures
        ({
            let job = builder::job_of(b, name, namespace, args);
            let marks = job.template.metadata;
            &&& job.metadata.name == Some(name)
            &&& job.metadata.namespace == Some(namespace)
            &&& marked(b, job.metadata.labels)
            &&& job.metadata.annotations.len() == 1
            &&& job.metadata.annotations[0] == ("buildit/image"@, args.image@)
            &&& job.backoff_limit == 2
            &&& job.ttl_seconds_after_finished == 3600
            &&& job.active_deadline_seconds == 7200
            &&& marks.name is None
            &&& marks.namespace is None
            &&& marked(b, marks.labels)
            &&& marks.annotations.len() == 2
            &&& marks.annotations[0] == (
                "container.apparmor.security.beta.kubernetes.io/builder"@,
                "unconfined"@,
            )
            &&& marks.annotations[1] == (
                "container.apparmor.security.beta.kubernetes.io/fetch-context"@,
                "unconfined"@,
            )
        }),
{
}

/// Whether the container fetches the context from the registry, with the credentials, and
/// unpacks it where the builder looks for it.
pub open spec fn fetches(c: ContainerView, ctx_ref: Seq<char>) -> bool {
    &&& c.name == "fetch-context"@
    &&& c.image == "gcr.io/go-containerregistry/crane:debug"@
    &&& c.command.len() == 3
    &&& c.command[0] == "sh"@
    &&& c.command[1] == "-c"@
    &&& c.command[2] == "crane export \"$CTX_REF\" - | tar -x -C /workspace"@
    &&& c.env.len() == 2
    &&& c.env[0] == ("DOCKER_CONFIG"@, "/auth"@)
    &&& c.env[1] == ("CTX_REF"@, ctx_ref)
    &&& c.security is None
    &&& c.resources.requests.len() == 0
    &&& c.resources.limits.len() == 0
    &&& c.termination_message_policy is None
    &&& c.mounts.len() == 2
    &&& stages(c)
}

/// Whether the container has the context, which it can write to, and the credentials, which it
/// cannot.
pub open spec fn stages(c: ContainerView) -> bool {
    &&& c.mounts.len() >= 2
    &&& mounted(c.mounts[0], "workspace"@, "/workspace"@)
    &&& c.mounts[1].name == "auth"@
    &&& c.mounts[1].mount_path == "/auth"@
    &&& c.mounts[1].read_only
}

/// The pods of a job: the context is fetched before the one builder starts, whose message or
/// log is kept; the credentials are in the secret with the name of the job.
pub proof fn job_pods_consist_of(b: Backend, name: Seq<char>, namespace: Seq<char>, args: DetachArgs)
    ensures
        ({
            let plan = builder::job_of(b, name, namespace, args).template.plan;
            let c = plan.containers[0];
            &&& plan.restart_policy == "Never"@
            &&& plan.active_deadline_seconds is None
            &&& plan.fs_group == Some(1000i64)
            &&& plan.node == text::opt_str(args.node)
            &&& plan.preferred_nodes == text::texts(args.idle_nodes@)
            &&& permissions_opened(b, plan.init_containers, 1, args.cache)
            &&& plan.init_containers.len() > 0
            &&& fetches(plan.init_containers.last(), args.ctx_ref@)
            &&& plan.containers.len() == 1
            &&& is_builder(b, c, args.resources@)
            &&& b == Backend::Buildkit ==> c.env.len() == 3 && c.env[2] == (
                "DOCKER_CONFIG"@,
                "/auth"@,
            )
            &&& b == Backend::Kaniko ==> c.env.len() == 1 && c.env[0] == (
                "DOCKER_CONFIG"@,
                "/auth"@,
            )
            &&& c.termination_message_policy == Some("FallbackToLogsOnError"@)
            &&& stages(c)
            &&& storage_mounted(b, c, 2, args.cache is Some)
            &&& plan.volumes.len() >= 2
            &&& plan.volumes[0].name == "workspace"@
            &&& plan.volumes[0].source is EmptyDir
            &&& plan.volumes[1].name == "auth"@
            &&& plan.volumes[1].source == VolumeSourceView::Secret(
                name,
                seq![(".dockerconfigjson"@, "config.json"@)],
            )
            &&& storage_held(b, plan.volumes, 2, args.cache)
        }),
{
    storage_is_held(b, args.cache);
}

/// The builder of a job's pods is given the image, the file, the build arguments and the labels
/// that the job was asked for, and behind them, for kaniko, the flags of its cache.
pub proof fn job_pods_build_what_is_asked(
    b: Backend,
    name: Seq<char>,
    namespace: Seq<char>,
    args: DetachArgs,
)
    ensures
        ({
            let plan = builder::job_of(b, name, namespace, args).template.plan;
            let words = builder::job_command_of(
                b,
                args.image@,
                args.dockerfile@,
                text::texts(args.build_args@),
                text::pairs(args.labels@),
            );
            plan.containers[0].command == (if b == Backend::Kaniko && args.cache is Some {
                words + seq!["--cache=true"@, "--cache-dir=/cache"@]
            } else {
                words
            })
        }),
{
    reveal_strlit("--cache-dir=");
    reveal_strlit("/cache");
    reveal_strlit("--cache-dir=/cache");
    assert("--cache-dir="@ + "/cache"@ =~= "--cache-dir=/cache"@);
}

}
