//! What holds of the command lines that a builder is given, in a pod and in a job: which words
//! they are, and where in them stands what was asked for.

use vstd::prelude::*;

use crate::backend;
use crate::backend::{Backend, CacheVolume};
use crate::build;
use crate::build::Input;
use crate::builder;
use crate::builder_laws;
use crate::shell;

verus! {

/// Whether the two words stand at place `at`, one behind the other.
pub open spec fn stand_at(argv: Seq<Seq<char>>, at: int, first: Seq<char>, second: Seq<char>) -> bool {
    argv[at] == first && argv[at + 1] == second
}

/// Whether from place `at` on there is, for each item, the flag and the item behind a prefix,
/// in order.
pub open spec fn flags_from(
    argv: Seq<Seq<char>>,
    at: int,
    flag: Seq<char>,
    prefix: Seq<char>,
    items: Seq<Seq<char>>,
) -> bool {
    forall|i: int|
        0 <= i < items.len() ==> stand_at(argv, at + 2 * i, flag, prefix + #[trigger] items[i])
}

/// Whether from place `at` on there is, for each label, the flag, and behind a prefix the key,
/// an equals sign and the value, in order.
pub open spec fn labels_from(
    argv: Seq<Seq<char>>,
    at: int,
    flag: Seq<char>,
    prefix: Seq<char>,
    labels: Seq<(Seq<char>, Seq<char>)>,
) -> bool {
    forall|i: int|
        0 <= i < labels.len() ==> stand_at(
            argv,
            at + 2 * i,
            flag,
            prefix + (#[trigger] labels[i]).0 + "="@ + labels[i].1,
        )
}

/// The words with which buildkit builds the image: every build argument and every label is an
/// option, in the order given, and there is nothing else.
pub open spec fn buildkit_builds(
    argv: Seq<Seq<char>>,
    workspace: Seq<char>,
    metadata: Seq<char>,
    image: Seq<char>,
    dockerfile: Seq<char>,
    build_args: Seq<Seq<char>>,
    labels: Seq<(Seq<char>, Seq<char>)>,
) -> bool {
    &&& argv.len() == 14 + 2 * build_args.len() + 2 * labels.len()
    &&& argv[0] == "buildctl-daemonless.sh"@
    &&& argv[1] == "build"@
    &&& argv[2] == "--frontend"@
    &&& argv[3] == "dockerfile.v0"@
    &&& argv[4] == "--local"@
    &&& argv[5] == "context="@ + workspace
    &&& argv[6] == "--local"@
    &&& argv[7] == "dockerfile="@ + workspace
    &&& argv[8] == "--opt"@
    &&& argv[9] == "filename="@ + dockerfile
    &&& argv[10] == "--output"@
    &&& argv[11] == "type=image,name="@ + image + ",push=true"@
    &&& argv[12] == "--metadata-file"@
    &&& argv[13] == metadata
    &&& flags_from(argv, 14, "--opt"@, "build-arg:"@, build_args)
    &&& labels_from(argv, 14 + 2 * build_args.len() as int, "--opt"@, "label:"@, labels)
}

/// The words with which kaniko builds the image, up to the labels: the file, the context, the
/// image, the place for the digest, and every build argument, in the order given.
pub open spec fn kaniko_builds(
    argv: Seq<Seq<char>>,
    workspace: Seq<char>,
    digest: Seq<char>,
    image: Seq<char>,
    dockerfile: Seq<char>,
    build_args: Seq<Seq<char>>,
) -> bool {
    &&& argv.len() >= 5 + build_args.len()
    &&& argv[0] == "/kaniko/executor"@
    &&& argv[1] == "--dockerfile="@ + workspace + "/"@ + dockerfile
    &&& argv[2] == "--context=dir://"@ + workspace
    &&& argv[3] == "--destination="@ + image
    &&& argv[4] == "--digest-file="@ + digest
    &&& forall|i: int|
        0 <= i < build_args.len() ==> argv[5 + i] == "--build-arg="@ + #[trigger] build_args[i]
}

/// The words with which buildah builds the image.
pub open spec fn buildah_builds(
    argv: Seq<Seq<char>>,
    workspace: Seq<char>,
    authfile: Seq<char>,
    image: Seq<char>,
    dockerfile: Seq<char>,
    build_args: Seq<Seq<char>>,
    labels: Seq<(Seq<char>, Seq<char>)>,
) -> bool {
    let end = 4 + 2 * build_args.len() as int + 2 * labels.len() as int;
    &&& argv.len() == end + 5
    &&& argv[0] == "buildah"@
    &&& argv[1] == "bud"@
    &&& argv[2] == "--authfile"@
    &&& argv[3] == authfile
    &&& flags_from(argv, 4, "--build-arg"@, Seq::empty(), build_args)
    &&& labels_from(argv, 4 + 2 * build_args.len() as int, "--label"@, Seq::empty(), labels)
    &&& argv[end] == "-f"@
    &&& argv[end + 1] == workspace + "/"@ + dockerfile
    &&& argv[end + 2] == "-t"@
    &&& argv[end + 3] == image
    &&& argv[end + 4] == workspace
}

/// The words with which buildah pushes the image.
pub open spec fn buildah_pushes(
    argv: Seq<Seq<char>>,
    authfile: Seq<char>,
    digest: Seq<char>,
    image: Seq<char>,
) -> bool {
    &&& argv.len() == 8
    &&& argv[0] == "buildah"@
    &&& argv[1] == "push"@
    &&& argv[2] == "--authfile"@
    &&& argv[3] == authfile
    &&& argv[4] == "--digestfile"@
    &&& argv[5] == digest
    &&& argv[6] == image
    &&& argv[7] == "docker://"@ + image
}

/// A flag before each item takes two places for each.
proof fn flagged_places(flag: Seq<char>, items: Seq<Seq<char>>)
    ensures
        backend::flagged(flag, items).len() == 2 * items.len(),
        forall|i: int|
            0 <= i < items.len() ==> stand_at(
                backend::flagged(flag, items),
                2 * i,
                flag,
                #[trigger] items[i],
            ),
    decreases items.len(),
{
    if items.len() > 0 {
        let fewer = items.drop_last();
        flagged_places(flag, fewer);
        assert forall|i: int| 0 <= i < items.len() implies stand_at(
            backend::flagged(flag, items),
            2 * i,
            flag,
            #[trigger] items[i],
        ) by {
            if i < fewer.len() {
                assert(fewer[i] == items[i]);
            }
        }
    }
}

proof fn buildkit_words_stand(
    ws: Seq<char>,
    metadata: Seq<char>,
    image: Seq<char>,
    dockerfile: Seq<char>,
    build_args: Seq<Seq<char>>,
    labels: Seq<(Seq<char>, Seq<char>)>,
)
    ensures
        buildkit_builds(
            backend::buildkit_argv(
                ws,
                metadata,
                image,
                dockerfile,
                backend::prefixed("build-arg:"@, build_args),
                backend::prefixed("label:"@, backend::label_texts(labels)),
            ),
            ws,
            metadata,
            image,
            dockerfile,
            build_args,
            labels,
        ),
{
    let args = backend::prefixed("build-arg:"@, build_args);
    let marks = backend::prefixed("label:"@, backend::label_texts(labels));
    let argv = backend::buildkit_argv(ws, metadata, image, dockerfile, args, marks);
    flagged_places("--opt"@, args);
    flagged_places("--opt"@, marks);
    let a = backend::flagged("--opt"@, args);
    let l = backend::flagged("--opt"@, marks);
    assert forall|i: int| 0 <= i < build_args.len() implies stand_at(
        argv,
        14 + 2 * i,
        "--opt"@,
        "build-arg:"@ + #[trigger] build_args[i],
    ) by {
        assert(args[i] == "build-arg:"@ + build_args[i]);
        assert(argv[14 + 2 * i] == a[2 * i]);
        assert(argv[14 + 2 * i + 1] == a[2 * i + 1]);
    }
    let at = 14 + 2 * build_args.len() as int;
    assert forall|i: int| 0 <= i < labels.len() implies stand_at(
        argv,
        at + 2 * i,
        "--opt"@,
        "label:"@ + (#[trigger] labels[i]).0 + "="@ + labels[i].1,
    ) by {
        assert(marks[i] == "label:"@ + (labels[i].0 + "="@ + labels[i].1));
        assert(marks[i] =~= "label:"@ + labels[i].0 + "="@ + labels[i].1);
        assert(argv[at + 2 * i] == l[2 * i]);
        assert(argv[at + 2 * i + 1] == l[2 * i + 1]);
    }
}

proof fn buildah_words_stand(
    ws: Seq<char>,
    authfile: Seq<char>,
    image: Seq<char>,
    file: Seq<char>,
    dockerfile: Seq<char>,
    build_args: Seq<Seq<char>>,
    labels: Seq<(Seq<char>, Seq<char>)>,
)
    requires
        file == ws + "/"@ + dockerfile,
    ensures
        buildah_builds(
            backend::buildah_build_argv(
                ws,
                authfile,
                image,
                file,
                build_args,
                backend::label_texts(labels),
            ),
            ws,
            authfile,
            image,
            dockerfile,
            build_args,
            labels,
        ),
{
    let marks = backend::label_texts(labels);
    let argv = backend::buildah_build_argv(ws, authfile, image, file, build_args, marks);
    flagged_places("--build-arg"@, build_args);
    flagged_places("--label"@, marks);
    let a = backend::flagged("--build-arg"@, build_args);
    let l = backend::flagged("--label"@, marks);
    assert forall|i: int| 0 <= i < build_args.len() implies stand_at(
        argv,
        4 + 2 * i,
        "--build-arg"@,
        Seq::<char>::empty() + #[trigger] build_args[i],
    ) by {
        assert(Seq::<char>::empty() + build_args[i] =~= build_args[i]);
        assert(argv[4 + 2 * i] == a[2 * i]);
        assert(argv[4 + 2 * i + 1] == a[2 * i + 1]);
    }
    let at = 4 + 2 * build_args.len() as int;
    assert forall|i: int| 0 <= i < labels.len() implies stand_at(
        argv,
        at + 2 * i,
        "--label"@,
        Seq::<char>::empty() + (#[trigger] labels[i]).0 + "="@ + labels[i].1,
    ) by {
        assert(marks[i] == labels[i].0 + "="@ + labels[i].1);
        assert(Seq::<char>::empty() + labels[i].0 =~= labels[i].0);
        assert(argv[at + 2 * i] == l[2 * i]);
        assert(argv[at + 2 * i + 1] == l[2 * i + 1]);
    }
}

proof fn kaniko_words_stand(
    ws: Seq<char>,
    digest: Seq<char>,
    image: Seq<char>,
    dockerfile: Seq<char>,
    build_args: Seq<Seq<char>>,
    rest: Seq<Seq<char>>,
)
    ensures
        kaniko_builds(
            backend::kaniko_argv(ws, digest, image, dockerfile, build_args) + rest,
            ws,
            digest,
            image,
            dockerfile,
            build_args,
        ),
{
    let argv = backend::kaniko_argv(ws, digest, image, dockerfile, build_args) + rest;
    assert forall|i: int| 0 <= i < build_args.len() implies argv[5 + i] == "--build-arg="@
        + #[trigger] build_args[i] by {
        assert(backend::prefixed("--build-arg="@, build_args)[i] == "--build-arg="@
            + build_args[i]);
    }
}

/// In a pod, buildkit builds the file asked for out of the directory that the context is
/// unpacked in, with every build argument and every label, pushes it under the image's name,
/// and leaves the metadata where they are read.
pub proof fn buildkit_step_words(
    image: Seq<char>,
    dockerfile: Seq<char>,
    build_args: Seq<Seq<char>>,
    labels: Seq<(Seq<char>, Seq<char>)>,
)
    ensures
        ({
            let steps = backend::steps_of(
                Backend::Buildkit,
                image,
                dockerfile,
                build_args,
                labels,
            );
            &&& steps.len() == 1
            &&& buildkit_builds(
                steps[0],
                "/home/user/workspace"@,
                "/tmp/metadata.json"@,
                image,
                dockerfile,
                build_args,
                labels,
            )
        }),
{
    buildkit_words_stand(
        "/home/user/workspace"@,
        "/tmp/metadata.json"@,
        image,
        dockerfile,
        build_args,
        labels,
    );
}

/// In a pod, kaniko builds the file asked for out of the directory that the context is unpacked
/// in, with every build argument and every label, pushes it under the image's name, and leaves
/// the digest where it is read.
pub proof fn kaniko_step_words(
    image: Seq<char>,
    dockerfile: Seq<char>,
    build_args: Seq<Seq<char>>,
    labels: Seq<(Seq<char>, Seq<char>)>,
)
    ensures
        ({
            let steps = backend::steps_of(Backend::Kaniko, image, dockerfile, build_args, labels);
            &&& steps.len() == 1
            &&& steps[0].len() == 5 + build_args.len() + 2 * labels.len()
            &&& kaniko_builds(
                steps[0],
                "/workspace"@,
                "/tmp/digest"@,
                image,
                dockerfile,
                build_args,
            )
            &&& labels_from(
                steps[0],
                5 + build_args.len() as int,
                "--label"@,
                Seq::empty(),
                labels,
            )
        }),
{
    let marks = backend::label_texts(labels);
    let rest = backend::flagged("--label"@, marks);
    flagged_places("--label"@, marks);
    kaniko_words_stand("/workspace"@, "/tmp/digest"@, image, dockerfile, build_args, rest);
    let argv = backend::steps_of(Backend::Kaniko, image, dockerfile, build_args, labels)[0];
    let at = 5 + build_args.len() as int;
    assert forall|i: int| 0 <= i < labels.len() implies stand_at(
        argv,
        at + 2 * i,
        "--label"@,
        Seq::<char>::empty() + (#[trigger] labels[i]).0 + "="@ + labels[i].1,
    ) by {
        assert(marks[i] == labels[i].0 + "="@ + labels[i].1);
        assert(Seq::<char>::empty() + labels[i].0 =~= labels[i].0);
        assert(argv[at + 2 * i] == rest[2 * i]);
        assert(argv[at + 2 * i + 1] == rest[2 * i + 1]);
    }
}

/// In a pod, buildah builds the file asked for out of the directory that the context is unpacked
/// in, with every build argument and every label, then pushes the image with the credentials
/// that were stored, and leaves the digest where it is read.
pub proof fn buildah_step_words(
    image: Seq<char>,
    dockerfile: Seq<char>,
    build_args: Seq<Seq<char>>,
    labels: Seq<(Seq<char>, Seq<char>)>,
)
    ensures
        ({
            let steps = backend::steps_of(Backend::Buildah, image, dockerfile, build_args, labels);
            &&& steps.len() == 2
            &&& buildah_builds(
                steps[0],
                "/home/build/workspace"@,
                "/tmp/auth.json"@,
                image,
                dockerfile,
                build_args,
                labels,
            )
            &&& buildah_pushes(steps[1], "/tmp/auth.json"@, "/tmp/digest"@, image)
        }),
{
    buildah_words_stand(
        "/home/build/workspace"@,
        "/tmp/auth.json"@,
        image,
        "/home/build/workspace"@ + "/"@ + dockerfile,
        dockerfile,
        build_args,
        labels,
    );
}

/// Builds of different files are told to build different files.
pub proof fn steps_name_the_file(
    b: Backend,
    image: Seq<char>,
    dockerfile: Seq<char>,
    other: Seq<char>,
    build_args: Seq<Seq<char>>,
    labels: Seq<(Seq<char>, Seq<char>)>,
)
    requires
        backend::steps_of(b, image, dockerfile, build_args, labels) == backend::steps_of(
            b,
            image,
            other,
            build_args,
            labels,
        ),
    ensures
        dockerfile == other,
{
    buildkit_step_words(image, dockerfile, build_args, labels);
    buildkit_step_words(image, other, build_args, labels);
    kaniko_step_words(image, dockerfile, build_args, labels);
    kaniko_step_words(image, other, build_args, labels);
    buildah_step_words(image, dockerfile, build_args, labels);
    buildah_step_words(image, other, build_args, labels);
    match b {
        Backend::Buildkit => same_tail("filename="@, dockerfile, other),
        Backend::Kaniko => same_tail("--dockerfile="@ + "/workspace"@ + "/"@, dockerfile, other),
        Backend::Buildah => same_tail("/home/build/workspace"@ + "/"@, dockerfile, other),
    }
}

proof fn same_tail(head: Seq<char>, a: Seq<char>, b: Seq<char>)
    requires
        head + a == head + b,
    ensures
        a == b,
{
    assert((head + a).len() == head.len() + a.len());
    assert((head + b).len() == head.len() + b.len());
    assert forall|i: int| 0 <= i < a.len() implies a[i] == b[i] by {
        assert((head + a)[head.len() + i] == a[i]);
        assert((head + b)[head.len() + i] == b[i]);
    }
    assert(a =~= b);
}

/// In a job, buildkit is run by a shell with the words with which it would build in a pod, out
/// of the directory that the context is staged in. What it leaves is put in the termination
/// log.
pub proof fn buildkit_job_command(
    image: Seq<char>,
    dockerfile: Seq<char>,
    build_args: Seq<Seq<char>>,
    labels: Seq<(Seq<char>, Seq<char>)>,
)
    ensures
        ({
            let command = builder::job_command_of(
                Backend::Buildkit,
                image,
                dockerfile,
                build_args,
                labels,
            );
            exists|line: Seq<char>| #[trigger]
                shell::shell_words(line) is Some && command == seq![
                    "sh"@,
                    "-c"@,
                    line + " && cat /tmp/metadata.json > /dev/termination-log"@,
                ] && buildkit_builds(
                    shell::shell_words(line)->0,
                    "/workspace"@,
                    "/tmp/metadata.json"@,
                    image,
                    dockerfile,
                    build_args,
                    labels,
                )
        }),
{
    builder_laws::buildkit_job_words(image, dockerfile, build_args, labels);
    buildkit_words_stand(
        "/workspace"@,
        "/tmp/metadata.json"@,
        image,
        dockerfile,
        build_args,
        labels,
    );
    let line = shell::joined(
        builder::buildkit_spelling(image, dockerfile, build_args, labels),
        " "@,
    );
    assert(shell::shell_words(line) is Some);
}

/// In a job, kaniko is run with the words with which it would build in a pod, every build
/// argument and every label among them, in the order given. It leaves the digest in the
/// termination log.
pub proof fn kaniko_job_command(
    image: Seq<char>,
    dockerfile: Seq<char>,
    build_args: Seq<Seq<char>>,
    labels: Seq<(Seq<char>, Seq<char>)>,
)
    ensures
        ({
            let command = builder::job_command_of(
                Backend::Kaniko,
                image,
                dockerfile,
                build_args,
                labels,
            );
            &&& command.len() == 5 + build_args.len() + labels.len()
            &&& kaniko_builds(
                command,
                "/workspace"@,
                "/dev/termination-log"@,
                image,
                dockerfile,
                build_args,
            )
            &&& forall|i: int|
                0 <= i < labels.len() ==> command[5 + build_args.len() as int + i] == "--label="@ + (
                #[trigger] labels[i]).0 + "="@ + labels[i].1
        }),
{
    let marks = backend::label_texts(labels);
    let rest = backend::prefixed("--label="@, marks);
    kaniko_words_stand(
        "/workspace"@,
        "/dev/termination-log"@,
        image,
        dockerfile,
        build_args,
        rest,
    );
    let command = builder::job_command_of(Backend::Kaniko, image, dockerfile, build_args, labels);
    assert forall|i: int| 0 <= i < labels.len() implies command[5 + build_args.len() as int + i]
        == "--label="@ + (#[trigger] labels[i]).0 + "="@ + labels[i].1 by {
        assert(marks[i] == labels[i].0 + "="@ + labels[i].1);
        assert(rest[i] == "--label="@ + (labels[i].0 + "="@ + labels[i].1));
        assert(rest[i] =~= "--label="@ + labels[i].0 + "="@ + labels[i].1);
        assert(command[5 + build_args.len() as int + i] == rest[i]);
    }
}

/// In a job, buildah is run by a shell, once to build and once to push, with the words with
/// which it would in a pod. Before that it gets its storage; it leaves the digest in the
/// termination log.
pub proof fn buildah_job_command(
    image: Seq<char>,
    dockerfile: Seq<char>,
    build_args: Seq<Seq<char>>,
    labels: Seq<(Seq<char>, Seq<char>)>,
)
    ensures
        ({
            let command = builder::job_command_of(
                Backend::Buildah,
                image,
                dockerfile,
                build_args,
                labels,
            );
            exists|line: Seq<char>, push: Seq<char>| #[trigger]
                shell::shell_words(line) is Some && #[trigger] shell::shell_words(push) is Some
                    && command == seq![
                    "sh"@,
                    "-c"@,
                    "printf '[storage]\\ndriver = \"vfs\"\\ngraphroot = \"/home/build/.local/share/containers/storage\"\\nrunroot = \"/tmp/containers-run\"\\n' > /tmp/storage.conf"@
                        + " && mkdir -p /tmp/containers-run && "@ + line + " && "@ + push,
                ] && buildah_builds(
                    shell::shell_words(line)->0,
                    "/workspace"@,
                    "/auth/config.json"@,
                    image,
                    dockerfile,
                    build_args,
                    labels,
                ) && buildah_pushes(
                    shell::shell_words(push)->0,
                    "/auth/config.json"@,
                    "/dev/termination-log"@,
                    image,
                )
        }),
{
    builder_laws::buildah_job_build_words(image, dockerfile, build_args, labels);
    builder_laws::buildah_job_push_words(image);
    reveal_strlit("/workspace/");
    reveal_strlit("/workspace");
    reveal_strlit("/");
    assert("/workspace/"@ =~= "/workspace"@ + "/"@);
    buildah_words_stand(
        "/workspace"@,
        "/auth/config.json"@,
        image,
        "/workspace/"@ + dockerfile,
        dockerfile,
        build_args,
        labels,
    );
    let line = shell::joined(
        builder::buildah_build_spelling(image, dockerfile, build_args, labels),
        " "@,
    );
    let push = shell::joined(builder::buildah_push_spelling(image), " "@);
    assert(shell::shell_words(line) is Some && shell::shell_words(push) is Some);
}

/// The commands that stage a build: the workspace is made, the context is unpacked there, and
/// the credentials are stored where the builder looks for them.
pub proof fn staging_words(
    b: Backend,
    image: Seq<char>,
    dockerfile: Seq<char>,
    build_args: Seq<Seq<char>>,
    labels: Seq<(Seq<char>, Seq<char>)>,
    cache: Option<CacheVolume>,
)
    ensures
        ({
            let steps = build::drive_steps(b, image, dockerfile, build_args, labels, cache);
            &&& steps.len() >= 4
            &&& steps[0].input == Input::Nothing
            &&& steps[1].input == Input::Context
            &&& steps[2].input == Input::Authfile
            &&& forall|i: int|
                3 <= i < steps.len() ==> (#[trigger] steps[i]).input == Input::Nothing
            &&& match b {
                Backend::Buildkit => {
                    &&& steps[0].argv == seq![
                        "/bin/sh"@,
                        "-c"@,
                        "mkdir -p /home/user/workspace /home/user/.docker"@,
                    ]
                    &&& steps[1].argv == seq![
                        "/bin/sh"@,
                        "-c"@,
                        "tar xzf - -C /home/user/workspace"@,
                    ]
                    &&& steps[2].argv == seq![
                        "/bin/sh"@,
                        "-c"@,
                        "cat > /home/user/.docker/config.json"@,
                    ]
                },
                Backend::Kaniko => {
                    &&& steps[0].argv == seq![
                        "/busybox/sh"@,
                        "-c"@,
                        "mkdir -p /workspace /tmp /kaniko/.docker"@,
                    ]
                    &&& steps[1].argv == seq!["/busybox/sh"@, "-c"@, "tar xzf - -C /workspace"@]
                    &&& steps[2].argv == seq![
                        "/busybox/sh"@,
                        "-c"@,
                        "cat > /kaniko/.docker/config.json"@,
                    ]
                },
                Backend::Buildah => {
                    &&& steps[0].argv == seq![
                        "/bin/sh"@,
                        "-c"@,
                        "mkdir -p /home/build/workspace /tmp/containers-run && "@
                            + "printf '[storage]\\ndriver = \"vfs\"\\ngraphroot = \"/home/build/.local/share/containers/storage\"\\nrunroot = \"/tmp/containers-run\"\\n' > /tmp/storage.conf"@,
                    ]
                    &&& steps[1].argv == seq![
                        "/bin/sh"@,
                        "-c"@,
                        "tar xzf - -C /home/build/workspace"@,
                    ]
                    &&& steps[2].argv == seq!["/bin/sh"@, "-c"@, "cat > /tmp/auth.json"@]
                },
            }
        }),
{
    reveal_strlit("mkdir -p ");
    reveal_strlit("tar xzf - -C ");
    reveal_strlit("cat > ");
    let steps = build::drive_steps(b, image, dockerfile, build_args, labels, cache);
    assert(steps[0].argv == backend::scripted(b, backend::setup_script(b)));
    match b {
        Backend::Buildkit => {
            reveal_strlit("/home/user/workspace");
            reveal_strlit(" /home/user/.docker");
            reveal_strlit("/home/user/.docker/config.json");
            reveal_strlit("mkdir -p /home/user/workspace /home/user/.docker");
            reveal_strlit("tar xzf - -C /home/user/workspace");
            reveal_strlit("cat > /home/user/.docker/config.json");
            assert("mkdir -p "@ + "/home/user/workspace"@ + " /home/user/.docker"@
                =~= "mkdir -p /home/user/workspace /home/user/.docker"@);
            assert("tar xzf - -C "@ + "/home/user/workspace"@
                =~= "tar xzf - -C /home/user/workspace"@);
            assert("cat > "@ + "/home/user/.docker/config.json"@
                =~= "cat > /home/user/.docker/config.json"@);
        },
        Backend::Kaniko => {
            reveal_strlit("/workspace");
            reveal_strlit(" /tmp /kaniko/.docker");
            reveal_strlit("/kaniko/.docker/config.json");
            reveal_strlit("mkdir -p /workspace /tmp /kaniko/.docker");
            reveal_strlit("tar xzf - -C /workspace");
            reveal_strlit("cat > /kaniko/.docker/config.json");
            assert("mkdir -p "@ + "/workspace"@ + " /tmp /kaniko/.docker"@
                =~= "mkdir -p /workspace /tmp /kaniko/.docker"@);
            assert("tar xzf - -C "@ + "/workspace"@ =~= "tar xzf - -C /workspace"@);
            assert("cat > "@ + "/kaniko/.docker/config.json"@
                =~= "cat > /kaniko/.docker/config.json"@);
        },
        Backend::Buildah => {
            reveal_strlit("/home/build/workspace");
            reveal_strlit(" /tmp/containers-run && ");
            reveal_strlit("/tmp/auth.json");
            reveal_strlit("mkdir -p /home/build/workspace /tmp/containers-run && ");
            reveal_strlit("tar xzf - -C /home/build/workspace");
            reveal_strlit("cat > /tmp/auth.json");
            assert("mkdir -p "@ + "/home/build/workspace"@ + " /tmp/containers-run && "@
                =~= "mkdir -p /home/build/workspace /tmp/containers-run && "@);
            assert("tar xzf - -C "@ + "/home/build/workspace"@
                =~= "tar xzf - -C /home/build/workspace"@);
            assert("cat > "@ + "/tmp/auth.json"@ =~= "cat > /tmp/auth.json"@);
        },
    }
}

/// Behind the staging come the build's own commands, each as it is but for the flags of a cache
/// that kaniko is given.
pub proof fn build_words_follow(
    b: Backend,
    image: Seq<char>,
    dockerfile: Seq<char>,
    build_args: Seq<Seq<char>>,
    labels: Seq<(Seq<char>, Seq<char>)>,
    cache: Option<CacheVolume>,
)
    ensures
        ({
            let steps = build::drive_steps(b, image, dockerfile, build_args, labels, cache);
            let own = backend::steps_of(b, image, dockerfile, build_args, labels);
            &&& steps.len() == 3 + own.len()
            &&& forall|i: int|
                0 <= i < own.len() ==> steps[3 + i].argv == (if b == Backend::Kaniko
                    && cache is Some {
                    #[trigger] own[i] + seq!["--cache=true"@, "--cache-dir=/cache"@]
                } else {
                    own[i]
                })
        }),
{
    let steps = build::drive_steps(b, image, dockerfile, build_args, labels, cache);
    let own = backend::steps_of(b, image, dockerfile, build_args, labels);
    let flags = builder::cache_flags_of(b, cache);
    reveal_strlit("--cache-dir=");
    reveal_strlit("/cache");
    reveal_strlit("--cache-dir=/cache");
    assert("--cache-dir="@ + "/cache"@ =~= "--cache-dir=/cache"@);
    assert forall|i: int| 0 <= i < own.len() implies steps[3 + i].argv == (if b == Backend::Kaniko
        && cache is Some {
        #[trigger] own[i] + seq!["--cache=true"@, "--cache-dir=/cache"@]
    } else {
        own[i]
    }) by {
        assert(steps[3 + i].argv == own[i] + flags);
        assert(b != Backend::Kaniko || cache is None ==> own[i] + flags =~= own[i]);
    }
}

/// The digest is read from the file that the build's command leaves it in.
pub proof fn digest_is_read_where_it_is_left(b: Backend)
    ensures
        backend::scripted(b, "cat "@ + backend::digest_path_of(b)) == match b {
            Backend::Buildkit => seq!["/bin/sh"@, "-c"@, "cat /tmp/metadata.json"@],
            Backend::Kaniko => seq!["/busybox/sh"@, "-c"@, "cat /tmp/digest"@],
            Backend::Buildah => seq!["/bin/sh"@, "-c"@, "cat /tmp/digest"@],
        },
{
    reveal_strlit("cat ");
    reveal_strlit("/tmp/metadata.json");
    reveal_strlit("/tmp/digest");
    reveal_strlit("cat /tmp/metadata.json");
    reveal_strlit("cat /tmp/digest");
    assert("cat "@ + "/tmp/metadata.json"@ =~= "cat /tmp/metadata.json"@);
    assert("cat "@ + "/tmp/digest"@ =~= "cat /tmp/digest"@);
}

}
