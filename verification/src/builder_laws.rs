//! What holds of every pod and every job that a build is given.

use vstd::prelude::*;

use crate::backend;
use crate::backend::{Backend, CacheVolume};
use crate::builder;
use crate::job::DetachArgs;
use crate::json;
use crate::json::Json;
use crate::manifest;
use crate::manifest::{
    ContainerView, MountView, PodPlanView, ResourcesView, VolumeSourceView, VolumeView,
};
use crate::shell;

verus! {

/// Whether the shell reads each of the spellings as the word in the same place.
pub open spec fn spell_each(spellings: Seq<Seq<char>>, words: Seq<Seq<char>>) -> bool {
    &&& spellings.len() == words.len()
    &&& forall|i: int| 0 <= i < words.len() ==> shell::spells(#[trigger] spellings[i], words[i])
}

proof fn spell_both(s: Seq<Seq<char>>, w: Seq<Seq<char>>, t: Seq<Seq<char>>, x: Seq<Seq<char>>)
    requires
        spell_each(s, w),
        spell_each(t, x),
    ensures
        spell_each(s + t, w + x),
{
    assert forall|i: int| 0 <= i < (w + x).len() implies shell::spells(
        #[trigger] (s + t)[i],
        (w + x)[i],
    ) by {
        if i < w.len() {
            assert(shell::spells(s[i], w[i]));
        } else {
            assert(shell::spells(t[i - w.len()], x[i - w.len()]));
        }
    }
}

proof fn spell_flagged(flag: Seq<char>, s: Seq<Seq<char>>, w: Seq<Seq<char>>)
    requires
        flag.len() > 0,
        shell::all_plain(flag),
        spell_each(s, w),
    ensures
        spell_each(backend::flagged(flag, s), backend::flagged(flag, w)),
    decreases s.len(),
{
    if s.len() > 0 {
        assert forall|i: int| 0 <= i < w.drop_last().len() implies shell::spells(
            #[trigger] s.drop_last()[i],
            w.drop_last()[i],
        ) by {
            assert(shell::spells(s[i], w[i]));
        }
        spell_flagged(flag, s.drop_last(), w.drop_last());
        shell::plain_spells(flag);
        assert(shell::spells(s[s.len() - 1], w[w.len() - 1]));
        let t = seq![flag, s.last()];
        let x = seq![flag, w.last()];
        assert(spell_each(t, x));
        spell_both(
            backend::flagged(flag, s.drop_last()),
            backend::flagged(flag, w.drop_last()),
            t,
            x,
        );
    }
}

proof fn spell_quoted_all(items: Seq<Seq<char>>)
    ensures
        spell_each(builder::quoted_all(items), items),
{
    let q = builder::quoted_all(items);
    assert forall|i: int| 0 <= i < items.len() implies shell::spells(#[trigger] q[i], items[i]) by {
        quoted_spells(items[i]);
    }
}

proof fn quoted_spells(s: Seq<char>)
    ensures
        shell::spells(shell::quoted(s), s),
{
    shell::plain_then_quoted_spells(Seq::empty(), s);
    assert(Seq::<char>::empty() + shell::quoted(s) =~= shell::quoted(s));
    assert(Seq::<char>::empty() + s =~= s);
}

proof fn spell_prefixed(prefix: Seq<char>, items: Seq<Seq<char>>)
    requires
        shell::all_plain(prefix),
    ensures
        spell_each(
            backend::prefixed(prefix, builder::quoted_all(items)),
            backend::prefixed(prefix, items),
        ),
{
    let s = backend::prefixed(prefix, builder::quoted_all(items));
    let w = backend::prefixed(prefix, items);
    assert forall|i: int| 0 <= i < w.len() implies shell::spells(#[trigger] s[i], w[i]) by {
        shell::plain_then_quoted_spells(prefix, items[i]);
    }
}

proof fn plain_both(a: Seq<char>, b: Seq<char>)
    requires
        shell::all_plain(a),
        shell::all_plain(b),
    ensures
        shell::all_plain(a + b),
{
    assert forall|i: int| 0 <= i < (a + b).len() implies shell::is_plain(#[trigger] (a + b)[i]) by {
        if i < a.len() {
            assert(shell::is_plain(a[i]));
        } else {
            assert(shell::is_plain(b[i - a.len()]));
        }
    }
}

/// In a job, buildkit is given the words that it is given in a pod, each as it is, whatever
/// the image, the names of files, the build arguments and the labels hold.
pub proof fn buildkit_job_words(
    image: Seq<char>,
    dockerfile: Seq<char>,
    build_args: Seq<Seq<char>>,
    labels: Seq<(Seq<char>, Seq<char>)>,
)
    ensures
        shell::shell_words(
            shell::joined(
                builder::buildkit_spelling(image, dockerfile, build_args, labels),
                " "@,
            ),
        ) == Some(
            backend::buildkit_argv(
                "/workspace"@,
                "/tmp/metadata.json"@,
                image,
                dockerfile,
                backend::prefixed("build-arg:"@, build_args),
                backend::prefixed("label:"@, backend::label_texts(labels)),
            ),
        ),
        builder::job_command_of(Backend::Buildkit, image, dockerfile, build_args, labels)
            == seq![
            "sh"@,
            "-c"@,
            shell::joined(
                builder::buildkit_spelling(image, dockerfile, build_args, labels),
                " "@,
            ) + " && cat /tmp/metadata.json > /dev/termination-log"@,
        ],
{
    let s = seq![
        "buildctl-daemonless.sh"@,
        "build"@,
        "--frontend"@,
        "dockerfile.v0"@,
        "--local"@,
        "context="@ + "/workspace"@,
        "--local"@,
        "dockerfile="@ + "/workspace"@,
        "--opt"@,
        "filename="@ + shell::quoted(dockerfile),
        "--output"@,
        "type=image,name="@ + shell::quoted(image) + ",push=true"@,
        "--metadata-file"@,
        "/tmp/metadata.json"@,
    ];
    let w = seq![
        "buildctl-daemonless.sh"@,
        "build"@,
        "--frontend"@,
        "dockerfile.v0"@,
        "--local"@,
        "context="@ + "/workspace"@,
        "--local"@,
        "dockerfile="@ + "/workspace"@,
        "--opt"@,
        "filename="@ + dockerfile,
        "--output"@,
        "type=image,name="@ + image + ",push=true"@,
        "--metadata-file"@,
        "/tmp/metadata.json"@,
    ];
    assert(spell_each(s, w)) by {
        reveal_strlit("buildctl-daemonless.sh");
        shell::plain_spells("buildctl-daemonless.sh"@);
        reveal_strlit("build");
        shell::plain_spells("build"@);
        reveal_strlit("--frontend");
        shell::plain_spells("--frontend"@);
        reveal_strlit("dockerfile.v0");
        shell::plain_spells("dockerfile.v0"@);
        reveal_strlit("--local");
        shell::plain_spells("--local"@);
        reveal_strlit("/workspace");
        reveal_strlit("context=");
        plain_both("context="@, "/workspace"@);
        shell::plain_spells("context="@ + "/workspace"@);
        reveal_strlit("dockerfile=");
        plain_both("dockerfile="@, "/workspace"@);
        shell::plain_spells("dockerfile="@ + "/workspace"@);
        reveal_strlit("--opt");
        shell::plain_spells("--opt"@);
        reveal_strlit("filename=");
        shell::plain_then_quoted_spells("filename="@, dockerfile);
        reveal_strlit("--output");
        shell::plain_spells("--output"@);
        reveal_strlit("type=image,name=");
        reveal_strlit(",push=true");
        shell::plain_then_quoted_spells("type=image,name="@, image);
        shell::spells_then_plain(
            "type=image,name="@ + shell::quoted(image),
            "type=image,name="@ + image,
            ",push=true"@,
        );
        reveal_strlit("--metadata-file");
        shell::plain_spells("--metadata-file"@);
        reveal_strlit("/tmp/metadata.json");
        shell::plain_spells("/tmp/metadata.json"@);
    }
    let arg_s = backend::prefixed("build-arg:"@, builder::quoted_all(build_args));
    let arg_w = backend::prefixed("build-arg:"@, build_args);
    let label_w = backend::prefixed("label:"@, backend::label_texts(labels));
    let label_s = builder::quoted_all(label_w);
    reveal_strlit("build-arg:");
    reveal_strlit("--opt");
    spell_prefixed("build-arg:"@, build_args);
    spell_flagged("--opt"@, arg_s, arg_w);
    spell_quoted_all(label_w);
    spell_flagged("--opt"@, label_s, label_w);
    let opt = "--opt"@;
    spell_both(s, w, backend::flagged(opt, arg_s), backend::flagged(opt, arg_w));
    spell_both(
        s + backend::flagged(opt, arg_s),
        w + backend::flagged(opt, arg_w),
        backend::flagged(opt, label_s),
        backend::flagged(opt, label_w),
    );
    shell::spaced_words(
        s + backend::flagged(opt, arg_s) + backend::flagged(opt, label_s),
        w + backend::flagged(opt, arg_w) + backend::flagged(opt, label_w),
    );
}

/// In a job, buildah builds with the words that it builds with in a pod, each as it is,
/// whatever the image, the names of files, the build arguments and the labels hold.
pub proof fn buildah_job_build_words(
    image: Seq<char>,
    dockerfile: Seq<char>,
    build_args: Seq<Seq<char>>,
    labels: Seq<(Seq<char>, Seq<char>)>,
)
    ensures
        shell::shell_words(
            shell::joined(
                builder::buildah_build_spelling(image, dockerfile, build_args, labels),
                " "@,
            ),
        ) == Some(
            backend::buildah_build_argv(
                "/workspace"@,
                "/auth/config.json"@,
                image,
                "/workspace/"@ + dockerfile,
                build_args,
                backend::label_texts(labels),
            ),
        ),
{
    let file = "/workspace/"@ + dockerfile;
    let head = seq!["buildah"@, "bud"@, "--authfile"@, "/auth/config.json"@];
    let tail_s = seq!["-f"@, shell::quoted(file), "-t"@, shell::quoted(image), "/workspace"@];
    let tail_w = seq!["-f"@, file, "-t"@, image, "/workspace"@];
    assert(spell_each(head, head) && spell_each(tail_s, tail_w)) by {
        reveal_strlit("buildah");
        shell::plain_spells("buildah"@);
        reveal_strlit("bud");
        shell::plain_spells("bud"@);
        reveal_strlit("--authfile");
        shell::plain_spells("--authfile"@);
        reveal_strlit("/auth/config.json");
        shell::plain_spells("/auth/config.json"@);
        reveal_strlit("-f");
        shell::plain_spells("-f"@);
        reveal_strlit("-t");
        shell::plain_spells("-t"@);
        reveal_strlit("/workspace");
        shell::plain_spells("/workspace"@);
        quoted_spells(file);
        quoted_spells(image);
    }
    let label_w = backend::label_texts(labels);
    spell_quoted_all(build_args);
    spell_quoted_all(label_w);
    reveal_strlit("--build-arg");
    reveal_strlit("--label");
    spell_flagged("--build-arg"@, builder::quoted_all(build_args), build_args);
    spell_flagged("--label"@, builder::quoted_all(label_w), label_w);
    let args_s = backend::flagged("--build-arg"@, builder::quoted_all(build_args));
    let args_w = backend::flagged("--build-arg"@, build_args);
    let labels_s = backend::flagged("--label"@, builder::quoted_all(label_w));
    let labels_w = backend::flagged("--label"@, label_w);
    spell_both(head, head, args_s, args_w);
    spell_both(head + args_s, head + args_w, labels_s, labels_w);
    spell_both(head + args_s + labels_s, head + args_w + labels_w, tail_s, tail_w);
    shell::spaced_words(
        head + args_s + labels_s + tail_s,
        head + args_w + labels_w + tail_w,
    );
}

/// In a job, buildah pushes with the words that it pushes with in a pod, each as it is,
/// whatever the image holds.
pub proof fn buildah_job_push_words(image: Seq<char>)
    ensures
        shell::shell_words(shell::joined(builder::buildah_push_spelling(image), " "@)) == Some(
            backend::buildah_push_argv("/auth/config.json"@, "/dev/termination-log"@, image),
        ),
{
    let s = builder::buildah_push_spelling(image);
    let w = backend::buildah_push_argv("/auth/config.json"@, "/dev/termination-log"@, image);
    assert(spell_each(s, w)) by {
        reveal_strlit("buildah");
        shell::plain_spells("buildah"@);
        reveal_strlit("push");
        shell::plain_spells("push"@);
        reveal_strlit("--authfile");
        shell::plain_spells("--authfile"@);
        reveal_strlit("/auth/config.json");
        shell::plain_spells("/auth/config.json"@);
        reveal_strlit("--digestfile");
        shell::plain_spells("--digestfile"@);
        reveal_strlit("/dev/termination-log");
        shell::plain_spells("/dev/termination-log"@);
        quoted_spells(image);
        reveal_strlit("docker://");
        shell::plain_then_quoted_spells("docker://"@, image);
    }
    shell::spaced_words(s, w);
}

/// Whether a text holds another one.
pub open spec fn mentions(whole: Seq<char>, part: Seq<char>) -> bool {
    exists|i: int| 0 <= i <= whole.len() && part.is_prefix_of(#[trigger] whole.skip(i))
}

proof fn mentions_middle(a: Seq<char>, part: Seq<char>, b: Seq<char>)
    ensures
        mentions(a + part + b, part),
{
    let whole = a + part + b;
    assert(part =~= whole.skip(a.len() as int).subrange(0, part.len() as int));
    assert(part.is_prefix_of(whole.skip(a.len() as int)));
}

/// Whatever the builder, the command of a job leaves the digest in the termination log.
pub proof fn job_reports_to_termination_log(
    b: Backend,
    image: Seq<char>,
    dockerfile: Seq<char>,
    build_args: Seq<Seq<char>>,
    labels: Seq<(Seq<char>, Seq<char>)>,
)
    ensures
        exists|i: int|
            0 <= i < builder::job_command_of(b, image, dockerfile, build_args, labels).len()
                && mentions(
                #[trigger] builder::job_command_of(b, image, dockerfile, build_args, labels)[i],
                "/dev/termination-log"@,
            ),
{
    let log = "/dev/termination-log"@;
    let command = builder::job_command_of(b, image, dockerfile, build_args, labels);
    match b {
        Backend::Buildkit => {
            let head = shell::joined(
                builder::buildkit_spelling(image, dockerfile, build_args, labels),
                " "@,
            );
            let tail = " && cat /tmp/metadata.json > /dev/termination-log"@;
            reveal_strlit(" && cat /tmp/metadata.json > /dev/termination-log");
            reveal_strlit(" && cat /tmp/metadata.json > ");
            reveal_strlit("/dev/termination-log");
            let lead = " && cat /tmp/metadata.json > "@;
            assert(tail =~= lead + log);
            mentions_middle(head + lead, log, Seq::empty());
            assert(head + tail =~= head + lead + log + Seq::<char>::empty());
            assert(mentions(command[2], log));
        },
        Backend::Kaniko => {
            mentions_middle("--digest-file="@, log, Seq::empty());
            assert("--digest-file="@ + log + Seq::<char>::empty() =~= "--digest-file="@ + log);
            assert(command[4] == "--digest-file="@ + log);
        },
        Backend::Buildah => {
            let push = builder::buildah_push_spelling(image);
            let all = shell::joined(push, " "@);
            let six = push.take(6);
            let seven = push.take(7);
            assert(push.drop_last() =~= seven);
            assert(seven.drop_last() =~= six);
            assert(six.last() == log);
            let five = six.drop_last();
            let lead = backend::storage_conf_script() + " && mkdir -p /tmp/containers-run && "@
                + shell::joined(
                builder::buildah_build_spelling(image, dockerfile, build_args, labels),
                " "@,
            ) + " && "@;
            let before = lead + shell::joined(five, " "@) + " "@;
            let behind = " "@ + seven.last() + " "@ + push.last();
            assert(shell::joined(six, " "@) == shell::joined(five, " "@) + " "@ + log);
            assert(shell::joined(seven, " "@) == shell::joined(six, " "@) + " "@ + seven.last());
            assert(all == shell::joined(seven, " "@) + " "@ + push.last());
            mentions_middle(before, log, behind);
            assert(lead + all =~= before + log + behind);
            assert(mentions(command[2], log));
        },
    }
}

/// Whether one of the volumes has the name.
pub open spec fn has_volume(volumes: Seq<VolumeView>, name: Seq<char>) -> bool {
    exists|i: int| 0 <= i < volumes.len() && (#[trigger] volumes[i]).name == name
}

/// Whether no two volumes have one name.
pub open spec fn distinct_volumes(volumes: Seq<VolumeView>) -> bool {
    forall|i: int, j: int|
        0 <= i < j < volumes.len() ==> (#[trigger] volumes[i]).name != (#[trigger] volumes[j]).name
}

/// Whether each mount of the container is of one of the volumes.
pub open spec fn mounts_served(c: ContainerView, volumes: Seq<VolumeView>) -> bool {
    forall|i: int| 0 <= i < c.mounts.len() ==> has_volume(volumes, (#[trigger] c.mounts[i]).name)
}

/// Whether the plan is whole: a container runs, no two volumes have one name, and each mount
/// is of a volume of the plan.
pub open spec fn plan_is_whole(p: PodPlanView) -> bool {
    &&& p.containers.len() == 1
    &&& distinct_volumes(p.volumes)
    &&& forall|i: int|
        0 <= i < p.init_containers.len() ==> mounts_served(
            #[trigger] p.init_containers[i],
            p.volumes,
        )
    &&& forall|i: int|
        0 <= i < p.containers.len() ==> mounts_served(#[trigger] p.containers[i], p.volumes)
}

/// The volumes of a builder with its cache, written out.
proof fn cached_storage(b: Backend, cache: Option<CacheVolume>)
    ensures
        ({
            let volumes = builder::cached_volumes(b, builder::storage_volumes_of(b), cache);
            match cache {
                Some(c) => volumes == seq![
                    VolumeView {
                        name: backend::cache_volume_name_of(b),
                        source: builder::cache_source(c),
                    },
                ],
                None => volumes == builder::storage_volumes_of(b),
            }
        }),
{
    if cache is Some {
        let before = builder::storage_volumes_of(b);
        let other = |v: VolumeView| v.name != backend::cache_volume_name_of(b);
        assert(before.filter(other) =~= Seq::empty()) by {
            reveal_with_fuel(Seq::filter, 2);
            if before.len() == 1 {
                assert(before.drop_last() =~= Seq::empty());
                assert(!other(before.last()));
            }
        }
        assert(builder::cached_volumes(b, before, cache) =~= seq![
            VolumeView {
                name: backend::cache_volume_name_of(b),
                source: builder::cache_source(cache->0),
            },
        ]);
    }
}

/// No builder's cache volume has the name of the workspace or of the credentials.
proof fn volume_names_differ(b: Backend)
    ensures
        "workspace"@ != "auth"@,
        backend::cache_volume_name_of(b) != "workspace"@,
        backend::cache_volume_name_of(b) != "auth"@,
{
    reveal_strlit("workspace");
    assert("workspace"@.len() == 9);
    reveal_strlit("auth");
    assert("auth"@.len() == 4);
    reveal_strlit("buildkit-storage");
    assert("buildkit-storage"@.len() == 16);
    reveal_strlit("kaniko-cache");
    assert("kaniko-cache"@.len() == 12);
    reveal_strlit("containers-storage");
    assert("containers-storage"@.len() == 18);
}

/// The plan of every builder pod is whole.
pub proof fn pod_is_whole(
    b: Backend,
    name: Seq<char>,
    namespace: Seq<char>,
    idle_nodes: Seq<Seq<char>>,
    resources: ResourcesView,
    cache: Option<CacheVolume>,
    node: Option<Seq<char>>,
)
    ensures
        plan_is_whole(
            builder::pod_of(b, name, namespace, idle_nodes, resources, cache, node).plan,
        ),
{
    let p = builder::pod_of(b, name, namespace, idle_nodes, resources, cache, node).plan;
    cached_storage(b, cache);
    volume_names_differ(b);
    assert(p.volumes[0].name == "workspace"@);
    assert(p.volumes.len() > 1 ==> p.volumes[1].name == backend::cache_volume_name_of(b));
    let c = p.containers[0];
    assert(mounts_served(c, p.volumes)) by {
        assert(c.mounts[0].name == "workspace"@);
        assert(c.mounts.len() > 1 ==> c.mounts[1].name == backend::cache_volume_name_of(b)
            && p.volumes.len() > 1);
    }
    assert forall|i: int| 0 <= i < p.init_containers.len() implies mounts_served(
        #[trigger] p.init_containers[i],
        p.volumes,
    ) by {
        assert(p.volumes[1].name == backend::cache_volume_name_of(b));
    }
}

/// The plan of every job is whole.
pub proof fn job_is_whole(b: Backend, name: Seq<char>, namespace: Seq<char>, args: DetachArgs)
    ensures
        plan_is_whole(builder::job_of(b, name, namespace, args).template.plan),
{
    let p = builder::job_of(b, name, namespace, args).template.plan;
    cached_storage(b, args.cache);
    volume_names_differ(b);
    assert(p.volumes[0].name == "workspace"@);
    assert(p.volumes[1].name == "auth"@);
    let c = p.containers[0];
    assert(p.volumes.len() > 2 ==> p.volumes[2].name == backend::cache_volume_name_of(b));
    assert(mounts_served(c, p.volumes)) by {
        assert(c.mounts[0].name == "workspace"@);
        assert(c.mounts[1].name == "auth"@);
        assert(c.mounts.len() > 2 ==> c.mounts[2].name == backend::cache_volume_name_of(b)
            && p.volumes.len() > 2);
    }
    assert forall|i: int| 0 <= i < p.init_containers.len() implies mounts_served(
        #[trigger] p.init_containers[i],
        p.volumes,
    ) by {
        let fix = builder::perm_fix_of(b, args.cache);
        if i < fix.len() {
            assert(p.init_containers[i] == fix[i]);
        } else {
            assert(p.init_containers[i] == builder::fetch_context_of(args.ctx_ref@));
            assert(builder::staging_mounts()[0].name == "workspace"@);
            assert(builder::staging_mounts()[1].name == "auth"@);
        }
    }
}

/// A cache replaces the builder's own storage: it is the one volume with that name, and the
/// builder has it mounted where it pays off.
pub open spec fn cache_in_place(b: Backend, p: PodPlanView, cache: CacheVolume) -> bool {
    &&& p.volumes.contains(
        VolumeView { name: backend::cache_volume_name_of(b), source: builder::cache_source(cache) },
    )
    &&& p.containers[0].mounts.contains(builder::cache_mount_of(b))
    &&& forall|i: int|
        0 <= i < p.volumes.len() && (#[trigger] p.volumes[i]).name == backend::cache_volume_name_of(
            b,
        ) ==> p.volumes[i].source == builder::cache_source(cache)
}

/// Where a pod is given a cache, it is in place.
pub proof fn pod_cache_in_place(
    b: Backend,
    name: Seq<char>,
    namespace: Seq<char>,
    idle_nodes: Seq<Seq<char>>,
    resources: ResourcesView,
    cache: CacheVolume,
    node: Option<Seq<char>>,
)
    ensures
        cache_in_place(
            b,
            builder::pod_of(b, name, namespace, idle_nodes, resources, Some(cache), node).plan,
            cache,
        ),
{
    let p = builder::pod_of(b, name, namespace, idle_nodes, resources, Some(cache), node).plan;
    cached_storage(b, Some(cache));
    volume_names_differ(b);
    assert(p.volumes[0].name == "workspace"@);
    assert(p.volumes[1] == (VolumeView {
        name: backend::cache_volume_name_of(b),
        source: builder::cache_source(cache),
    }));
    assert(p.containers[0].mounts[1] == builder::cache_mount_of(b));
}

/// Where a job is given a cache, it is in place.
pub proof fn job_cache_in_place(b: Backend, name: Seq<char>, namespace: Seq<char>, args: DetachArgs)
    requires
        args.cache is Some,
    ensures
        cache_in_place(b, builder::job_of(b, name, namespace, args).template.plan, args.cache->0),
{
    let p = builder::job_of(b, name, namespace, args).template.plan;
    let cache = args.cache->0;
    cached_storage(b, args.cache);
    volume_names_differ(b);
    assert(p.volumes[0].name == "workspace"@);
    assert(p.volumes[2] == (VolumeView {
        name: backend::cache_volume_name_of(b),
        source: builder::cache_source(cache),
    }));
    assert(p.containers[0].mounts[2] == builder::cache_mount_of(b));
}

/// The workspace is a directory of the pod's own: the one volume of that name is empty when the
/// pod starts, and the builder has it mounted where the build context is.
pub open spec fn workspace_in_place(p: PodPlanView, path: Seq<char>) -> bool {
    &&& p.volumes.contains(builder::workspace_volume())
    &&& p.containers[0].mounts.contains(
        MountView { name: "workspace"@, mount_path: path, read_only: false },
    )
    &&& forall|i: int|
        0 <= i < p.volumes.len() && (#[trigger] p.volumes[i]).name == "workspace"@
            ==> p.volumes[i].source == VolumeSourceView::EmptyDir
}

/// The workspace of every builder pod is a directory of its own, whatever the cache.
pub proof fn pod_workspace_in_place(
    b: Backend,
    name: Seq<char>,
    namespace: Seq<char>,
    idle_nodes: Seq<Seq<char>>,
    resources: ResourcesView,
    cache: Option<CacheVolume>,
    node: Option<Seq<char>>,
)
    ensures
        workspace_in_place(
            builder::pod_of(b, name, namespace, idle_nodes, resources, cache, node).plan,
            backend::workspace_of(b),
        ),
{
    let p = builder::pod_of(b, name, namespace, idle_nodes, resources, cache, node).plan;
    cached_storage(b, cache);
    volume_names_differ(b);
    assert(p.volumes[0] == builder::workspace_volume());
    assert(p.volumes.len() > 1 ==> p.volumes[1].name == backend::cache_volume_name_of(b));
    assert(p.containers[0].mounts[0] == builder::workspace_mount_of(b));
}

/// The workspace of every job is a directory of its own, whatever the cache.
pub proof fn job_workspace_in_place(
    b: Backend,
    name: Seq<char>,
    namespace: Seq<char>,
    args: DetachArgs,
)
    ensures
        workspace_in_place(
            builder::job_of(b, name, namespace, args).template.plan,
            "/workspace"@,
        ),
{
    let p = builder::job_of(b, name, namespace, args).template.plan;
    cached_storage(b, args.cache);
    volume_names_differ(b);
    assert(p.volumes[0] == builder::workspace_volume());
    assert(p.volumes[1].name == "auth"@);
    assert(p.volumes.len() > 2 ==> p.volumes[2].name == backend::cache_volume_name_of(b));
    assert(p.containers[0].mounts[0] == builder::staging_mounts()[0]);
}

/// No container of the plan runs as root but the one that opens the permissions of a cache
/// directory, and those that leave the choice to their image.
pub open spec fn unprivileged(p: PodPlanView) -> bool {
    &&& forall|i: int|
        0 <= i < p.containers.len() ==> ((#[trigger] p.containers[i]).security matches Some(s)
            ==> s.run_as_user == 1000 && s.run_as_group == 1000)
    &&& forall|i: int|
        0 <= i < p.init_containers.len() ==> ((#[trigger] p.init_containers[i]).security matches Some(
            s,
        ) ==> p.init_containers[i].name == "fix-cache-perms"@ && !s.unconfined)
}

/// Every builder pod is without privileges.
pub proof fn pod_is_unprivileged(
    b: Backend,
    name: Seq<char>,
    namespace: Seq<char>,
    idle_nodes: Seq<Seq<char>>,
    resources: ResourcesView,
    cache: Option<CacheVolume>,
    node: Option<Seq<char>>,
)
    ensures
        unprivileged(builder::pod_of(b, name, namespace, idle_nodes, resources, cache, node).plan),
{
}

/// Every job is without privileges.
pub proof fn job_is_unprivileged(b: Backend, name: Seq<char>, namespace: Seq<char>, args: DetachArgs)
    ensures
        unprivileged(builder::job_of(b, name, namespace, args).template.plan),
{
}

/// The fields of an object.
pub open spec fn object_fields(doc: Json) -> Map<Seq<char>, Json> {
    match doc {
        Json::Object(fields) => fields,
        _ => json::blank(),
    }
}

/// No document of a container asks for privileges.
pub proof fn container_asks_no_privileges(c: ContainerView)
    ensures
        object_fields(manifest::container_json(c)).contains_key("securityContext"@)
            <==> c.security is Some,
        c.security is Some ==> !object_fields(
            object_fields(manifest::container_json(c))["securityContext"@],
        ).contains_key("privileged"@),
{
    reveal_strlit("name");
    assert("name"@.len() == 4);
    reveal_strlit("image");
    assert("image"@.len() == 5);
    reveal_strlit("command");
    assert("command"@.len() == 7);
    reveal_strlit("env");
    assert("env"@.len() == 3);
    reveal_strlit("securityContext");
    assert("securityContext"@.len() == 15);
    reveal_strlit("volumeMounts");
    assert("volumeMounts"@.len() == 12);
    reveal_strlit("resources");
    assert("resources"@.len() == 9);
    reveal_strlit("terminationMessagePolicy");
    assert("terminationMessagePolicy"@.len() == 24);
    reveal_strlit("privileged");
    assert("privileged"@.len() == 10);
    reveal_strlit("runAsUser");
    assert("runAsUser"@.len() == 9);
    reveal_strlit("runAsGroup");
    assert("runAsGroup"@.len() == 10);
    reveal_strlit("seccompProfile");
    assert("seccompProfile"@.len() == 14);
    assert("runAsGroup"@[0] == 'r');
    assert("privileged"@[0] == 'p');
}

/// The document of a plan says where the pod runs: it is pinned where there is a node to pin
/// it to, and it prefers nodes where there are some to prefer. It never requires any.
pub proof fn plan_says_where(p: PodPlanView)
    ensures
        ({
            let fields = object_fields(manifest::plan_json(p));
            &&& fields.contains_key("nodeSelector"@) <==> p.node is Some
            &&& p.node is Some ==> fields["nodeSelector"@] == Json::Object(
                json::blank().insert("kubernetes.io/hostname"@, Json::Text(p.node->0)),
            )
            &&& fields.contains_key("affinity"@) <==> p.preferred_nodes.len() > 0
            &&& p.preferred_nodes.len() > 0 ==> fields["affinity"@] == manifest::affinity_json(
                p.preferred_nodes,
            )
            &&& !object_fields(
                object_fields(manifest::affinity_json(p.preferred_nodes))["nodeAffinity"@],
            ).contains_key("requiredDuringSchedulingIgnoredDuringExecution"@)
        }),
{
    reveal_strlit("restartPolicy");
    assert("restartPolicy"@.len() == 13);
    reveal_strlit("activeDeadlineSeconds");
    assert("activeDeadlineSeconds"@.len() == 21);
    reveal_strlit("securityContext");
    assert("securityContext"@.len() == 15);
    reveal_strlit("initContainers");
    assert("initContainers"@.len() == 14);
    reveal_strlit("containers");
    assert("containers"@.len() == 10);
    reveal_strlit("volumes");
    assert("volumes"@.len() == 7);
    reveal_strlit("nodeSelector");
    assert("nodeSelector"@.len() == 12);
    reveal_strlit("affinity");
    assert("affinity"@.len() == 8);
    reveal_strlit("preferredDuringSchedulingIgnoredDuringExecution");
    assert("preferredDuringSchedulingIgnoredDuringExecution"@.len() == 47);
    reveal_strlit("requiredDuringSchedulingIgnoredDuringExecution");
    assert("requiredDuringSchedulingIgnoredDuringExecution"@.len() == 46);
}

/// Every builder pod can be found by its label, ends by itself after two hours, and is not
/// started again.
pub proof fn pod_is_marked(
    b: Backend,
    name: Seq<char>,
    namespace: Seq<char>,
    idle_nodes: Seq<Seq<char>>,
    resources: ResourcesView,
    cache: Option<CacheVolume>,
    node: Option<Seq<char>>,
)
    ensures
        ({
            let pod = builder::pod_of(b, name, namespace, idle_nodes, resources, cache, node);
            &&& pod.metadata.labels.contains(("app"@, "buildit"@))
            &&& pod.metadata.annotations.contains(
                ("container.apparmor.security.beta.kubernetes.io/builder"@, "unconfined"@),
            )
            &&& pod.plan.active_deadline_seconds == Some(7200i64)
            &&& pod.plan.restart_policy == "Never"@
        }),
{
    let pod = builder::pod_of(b, name, namespace, idle_nodes, resources, cache, node);
    assert(pod.metadata.labels[0] == ("app"@, "buildit"@));
    assert(pod.metadata.annotations[0] == (
        "container.apparmor.security.beta.kubernetes.io/builder"@,
        "unconfined"@,
    ));
}

/// Every job, and every pod that it makes, can be found by its label; the job says what it
/// builds and with which builder, tries twice again, ends after two hours, and is gone an hour
/// after it finished.
pub proof fn job_is_marked(b: Backend, name: Seq<char>, namespace: Seq<char>, args: DetachArgs)
    ensures
        ({
            let job = builder::job_of(b, name, namespace, args);
            &&& job.metadata.labels.contains(("app"@, "buildit"@))
            &&& job.metadata.labels.contains(("buildit/backend"@, backend::label_of(b)))
            &&& job.metadata.annotations.contains(("buildit/image"@, args.image@))
            &&& job.template.metadata.labels.contains(("app"@, "buildit"@))
            &&& job.backoff_limit == 2
            &&& job.active_deadline_seconds == 7200
            &&& job.ttl_seconds_after_finished == 3600
            &&& job.template.plan.restart_policy == "Never"@
        }),
{
    let job = builder::job_of(b, name, namespace, args);
    assert(job.metadata.labels[0] == ("app"@, "buildit"@));
    assert(job.metadata.labels[1] == ("buildit/backend"@, backend::label_of(b)));
    assert(job.metadata.annotations[0] == ("buildit/image"@, args.image@));
    assert(job.template.metadata.labels[0] == ("app"@, "buildit"@));
}

/// The permissions of a cache are opened before anything else runs, and only where the cache is
/// a directory of the node and the builder does not run as root.
pub proof fn perm_fix_comes_first(b: Backend, name: Seq<char>, namespace: Seq<char>, args: DetachArgs)
    ensures
        ({
            let p = builder::job_of(b, name, namespace, args).template.plan;
            let first = p.init_containers[0];
            &&& first.name == "fix-cache-perms"@ <==> b != Backend::Kaniko && args.cache is Some
                && args.cache->0 is HostPath
            &&& p.init_containers.last().name == "fetch-context"@
        }),
{
    reveal_strlit("fix-cache-perms");
    reveal_strlit("fetch-context");
    assert("fix-cache-perms"@.len() == 15);
    assert("fetch-context"@.len() == 13);
}

}
