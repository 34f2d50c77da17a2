//! What the calls of the library come to, said of what is handed in and what is handed back.

use vstd::prelude::*;

use crate::args::{key_value, BuildArgs, NotPair, Schedule};
use crate::auth;
use crate::auth::{
    basic_credentials_from, credentials_from, inline_auth, minimal_authfile_from, registry_of,
    AuthError, DockerConfig,
};
use crate::backend;
use crate::backend::{Backend, CacheVolume, DigestError, PodOpts};
use crate::build;
use crate::build::{drive, pinned_ref, report, Action, Event, Outcome, Phase, Step};
use crate::command_laws;
use crate::context::{archive_entry, check_context, keep_entry, ContextError, EntryStep};
use crate::job;
use crate::job::{
    after_job, after_poll, after_secret, open_wait, pod_selector, reported_ref, termination_message,
    CreateStep, DetachArgs, Followed, JobError, JobReport, Pass, PodReport, WaitStep, Waiting,
};
use crate::job_laws;
use crate::json;
use crate::json::Json;
use crate::manifest;
use crate::manifest::{
    ClaimManifest, Container, JobManifest, ManifestError, PodManifest, Resources, Volume,
};
use crate::manifest_laws;
use crate::numeral;
use crate::object_laws;
use crate::oci;
use crate::oci::{context_labels, context_reference, push_context, repo_of, OciError};
use crate::pod;
use crate::pod::{exec_capture, finish, unique_name, ExecError, ExecStatus, Listed, ListedView};
use crate::schedule;
use crate::schedule::{idle_nodes, Cluster, ContainerUse};
use crate::shell;
use crate::text;

verus! {

/// Whether the result is the text.
pub open spec fn gave<E>(r: Result<String, E>, s: Seq<char>) -> bool {
    r is Ok && r->Ok_0@ == s
}

/// Whether the result is the two texts.
pub open spec fn gave_pair<E>(r: Result<(String, String), E>, a: Seq<char>, b: Seq<char>) -> bool {
    r is Ok && r->Ok_0.0@ == a && r->Ok_0.1@ == b
}

/// An image goes to the registry before its first slash, where that holds a dot, holds a colon or
/// is the local host, and is refused where it does not.
pub proof fn registry_is_before_the_slash(
    image: &str,
    first: Seq<char>,
    rest: Seq<char>,
    r: Result<String, AuthError>,
)
    requires
        call_ensures(registry_of, (image,), r),
        image@ == first + "/"@ + rest,
        !first.contains('/'),
    ensures
        first.contains('.') || first.contains(':') || first == "localhost"@ ==> gave(r, first),
        !first.contains('.') && !first.contains(':') && first != "localhost"@ ==> r is Err
            && r->Err_0 is Unqualified && r->Err_0->Unqualified_0@ == image@,
{
    auth::registry_by_its_characters(first, rest);
    if first.contains('.') {
        let i = first.index_of('.');
        assert(first[i] == '.');
    }
    if first.contains(':') {
        let i = first.index_of(':');
        assert(first[i] == ':');
    }
    if !first.contains('.') && !first.contains(':') {
        assert forall|i: int| 0 <= i < first.len() implies #[trigger] first[i] != '.' && first[i]
            != ':' by {
            assert(first.contains(first[i]));
        }
    }
}

/// An image at a host and a port goes there, whatever the host is called.
pub proof fn host_and_port_are_accepted(
    image: &str,
    host: Seq<char>,
    port: Seq<char>,
    rest: Seq<char>,
    r: Result<String, AuthError>,
)
    requires
        call_ensures(registry_of, (image,), r),
        image@ == host + ":"@ + port + "/"@ + rest,
        !host.contains('/'),
        !port.contains('/'),
    ensures
        gave(r, host + ":"@ + port),
{
    auth::host_and_port_are_a_registry(host, port, rest);
}

/// An image without a slash is refused, tagged or not.
pub proof fn short_name_is_refused(image: &str, r: Result<String, AuthError>)
    requires
        call_ensures(registry_of, (image,), r),
        !image@.contains('/'),
    ensures
        r is Err && r->Err_0 is Unqualified && r->Err_0->Unqualified_0@ == image@,
{
}

/// A config gives back the token that was last put in for a registry, and leaves the tokens of
/// the others as they were.
pub proof fn token_is_given_back(
    config: DockerConfig,
    registry: String,
    token: Option<String>,
    more: DockerConfig,
    key: &str,
    before: Option<String>,
    after: Option<String>,
)
    requires
        call_ensures(DockerConfig::with_entry, (config, registry, token), more),
        call_ensures(DockerConfig::token, (&config, key), before),
        call_ensures(DockerConfig::token, (&more, key), after),
    ensures
        key@ == registry@ ==> (after is Some <==> token is Some),
        key@ == registry@ && token is Some ==> after->0@ == token->0@,
        key@ != registry@ ==> (after is Some <==> before is Some),
        key@ != registry@ && before is Some ==> after->0@ == before->0@,
{
    assert(text::opt_text(after) is Some <==> after is Some);
    assert(text::opt_text(before) is Some <==> before is Some);
    assert(text::opt_text(token) is Some <==> token is Some);
}

/// A config without an entry has no token.
pub proof fn fresh_config_has_no_token(config: DockerConfig, key: &str, token: Option<String>)
    requires
        call_ensures(DockerConfig::new, (), config),
        call_ensures(DockerConfig::token, (&config, key), token),
    ensures
        token is None,
{
    assert(text::opt_text(token) is None);
}

/// The token that is used is the registry's own; docker hub without one has that of the legacy
/// URL; and without either the registry is named in the refusal.
pub proof fn token_that_is_used(
    config: DockerConfig,
    registry: &str,
    legacy_url: &str,
    own: Option<String>,
    legacy: Option<String>,
    r: Result<String, AuthError>,
)
    requires
        legacy_url@ == "https://index.docker.io/v1/"@,
        call_ensures(DockerConfig::token, (&config, registry), own),
        call_ensures(DockerConfig::token, (&config, legacy_url), legacy),
        call_ensures(inline_auth, (&config, registry), r),
    ensures
        own is Some ==> gave(r, own->0@),
        own is None && legacy is Some && (registry@ == "docker.io"@ || registry@
            == "index.docker.io"@) ==> gave(r, legacy->0@),
        own is None && (legacy is None || (registry@ != "docker.io"@ && registry@
            != "index.docker.io"@)) ==> r is Err && r->Err_0 is NoInlineAuth
            && r->Err_0->NoInlineAuth_0@ == registry@,
{
    assert(text::opt_text(own) is Some <==> own is Some);
    assert(text::opt_text(legacy) is Some <==> legacy is Some);
}

/// The authfile for a registry is UTF-8, and read as a document it is the token in the entry of
/// that registry, and nothing else; without a token there is none.
pub proof fn authfile_that_is_shipped(
    config: DockerConfig,
    registry: &str,
    token: Result<String, AuthError>,
    r: Result<Vec<u8>, AuthError>,
)
    requires
        call_ensures(inline_auth, (&config, registry), token),
        call_ensures(minimal_authfile_from, (&config, registry), r),
    ensures
        r is Ok <==> token is Ok,
        token is Ok ==> json::parsed_json(vstd::utf8::decode_utf8(r->Ok_0@)) == Some(
            Json::Object(
                map![
                    "auths"@ => Json::Object(
                        map![registry@ => Json::Object(map!["auth"@ => Json::Text(token->Ok_0@)])],
                    ),
                ],
            ),
        ),
        token is Err ==> r->Err_0 is NoInlineAuth && r->Err_0->NoInlineAuth_0@ == registry@,
{
    if token is Ok {
        auth::authfile_says(registry@, token->Ok_0@);
    }
}

/// What was decoded is cut at its first colon, and refused without one, or where it is no text.
pub proof fn credentials_that_are_read(
    decoded: Vec<u8>,
    registry: &str,
    user: Seq<char>,
    password: Seq<char>,
    r: Result<(String, String), AuthError>,
)
    requires
        call_ensures(credentials_from, (decoded, registry), r),
    ensures
        !vstd::utf8::valid_utf8(decoded@) ==> r is Err && r->Err_0 is NotUtf8,
        vstd::utf8::valid_utf8(decoded@) && !vstd::utf8::decode_utf8(decoded@).contains(':') ==> r
            is Err && r->Err_0 is NotPair && r->Err_0->NotPair_0@ == registry@,
        vstd::utf8::valid_utf8(decoded@) && !user.contains(':') && vstd::utf8::decode_utf8(decoded@)
            == user + ":"@ + password ==> gave_pair(r, user, password),
{
    auth::credentials_need_a_colon(decoded@, registry@);
    reveal_strlit(":");
    if !user.contains(':') {
        assert(user + ":"@ + password =~= user + seq![':'] + password);
        text::text_is_cut(user, ':', password);
    }
}

/// The credentials for a registry are those in its token; what is no base64 is refused.
pub proof fn credentials_are_in_the_token(
    config: DockerConfig,
    registry: &str,
    token: Result<String, AuthError>,
    decoded: Vec<u8>,
    read: Result<(String, String), AuthError>,
    r: Result<(String, String), AuthError>,
)
    requires
        call_ensures(inline_auth, (&config, registry), token),
        call_ensures(credentials_from, (decoded, registry), read),
        call_ensures(basic_credentials_from, (&config, registry), r),
    ensures
        token is Err ==> r is Err && r->Err_0 is NoInlineAuth && r->Err_0->NoInlineAuth_0@
            == registry@,
        token is Ok && auth::base64_bytes(token->Ok_0@) is None ==> r is Err && r->Err_0 is Encoding,
        token is Ok && auth::base64_bytes(token->Ok_0@) == Some(decoded@) && read is Ok
            ==> gave_pair(r, read->Ok_0.0@, read->Ok_0.1@),
        token is Ok && auth::base64_bytes(token->Ok_0@) == Some(decoded@) && read is Err ==> r is Err
            && r->Err_0@ == read->Err_0@,
{
}

/// From the metadata of buildkit the digest of the image is read, whatever other fields they
/// have.
pub proof fn buildkit_digest_is_read(
    raw: &str,
    fields: Map<Seq<char>, Json>,
    digest: Seq<char>,
    r: Result<String, DigestError>,
)
    requires
        call_ensures(Backend::digest_from, (&Backend::Buildkit, raw), r),
        json::parsed_json(raw@) == Some(Json::Object(fields)),
        fields.contains_key("containerimage.digest"@),
        fields["containerimage.digest"@] == Json::Text(digest),
    ensures
        "sha256:"@.is_prefix_of(digest) ==> gave(r, digest),
        !"sha256:"@.is_prefix_of(digest) ==> r is Err && r->Err_0 is Unexpected
            && r->Err_0->Unexpected_0@ == digest,
{
    backend::metadata_name_the_digest(fields, raw@, digest);
}

/// What is no document is refused as such, and a document that does not name the digest for the
/// want of it.
pub proof fn buildkit_digest_is_missed(raw: &str, r: Result<String, DigestError>)
    requires
        call_ensures(Backend::digest_from, (&Backend::Buildkit, raw), r),
    ensures
        json::parsed_json(raw@) is None ==> r is Err && r->Err_0 is Metadata,
        (json::parsed_json(raw@) matches Some(doc) && !(json::field(
            doc,
            "containerimage.digest"@,
        ) matches Some(Json::Text(_)))) ==> r is Err && r->Err_0 is Missing,
{
}

/// From the other builders the bare digest is read, between the white space at its ends.
pub proof fn bare_digest_is_read(
    b: Backend,
    raw: &str,
    before: Seq<char>,
    digest: Seq<char>,
    behind: Seq<char>,
    r: Result<String, DigestError>,
)
    requires
        b != Backend::Buildkit,
        call_ensures(Backend::digest_from, (&b, raw), r),
        raw@ == before + digest + behind,
        digest.len() > 0,
        !text::white_space(digest[0]),
        !text::white_space(digest.last()),
        forall|i: int| 0 <= i < before.len() ==> text::white_space(#[trigger] before[i]),
        forall|i: int| 0 <= i < behind.len() ==> text::white_space(#[trigger] behind[i]),
    ensures
        "sha256:"@.is_prefix_of(digest) ==> gave(r, digest),
        !"sha256:"@.is_prefix_of(digest) ==> r is Err && r->Err_0 is Unexpected
            && r->Err_0->Unexpected_0@ == digest,
{
    backend::bare_digest_is_checked(b, before, digest, behind, json::parsed_json(raw@));
}

/// Whether the words are those given.
pub open spec fn words_are(argv: Vec<String>, words: Seq<Seq<char>>) -> bool {
    text::texts(argv@) == words
}

/// The commands that stage a build, and the one that prints its digest, word for word.
pub proof fn commands_of_each_builder(
    b: Backend,
    setup: Vec<String>,
    untar: Vec<String>,
    upload: Vec<String>,
    digest: Vec<String>,
)
    requires
        call_ensures(Backend::setup_command, (&b,), setup),
        call_ensures(Backend::untar_command, (&b,), untar),
        call_ensures(Backend::auth_upload_command, (&b,), upload),
        call_ensures(Backend::digest_command, (&b,), digest),
    ensures
        b == Backend::Buildkit ==> {
            &&& words_are(
                setup,
                seq!["/bin/sh"@, "-c"@, "mkdir -p /home/user/workspace /home/user/.docker"@],
            )
            &&& words_are(untar, seq!["/bin/sh"@, "-c"@, "tar xzf - -C /home/user/workspace"@])
            &&& words_are(upload, seq!["/bin/sh"@, "-c"@, "cat > /home/user/.docker/config.json"@])
            &&& words_are(digest, seq!["/bin/sh"@, "-c"@, "cat /tmp/metadata.json"@])
        },
        b == Backend::Kaniko ==> {
            &&& words_are(
                setup,
                seq!["/busybox/sh"@, "-c"@, "mkdir -p /workspace /tmp /kaniko/.docker"@],
            )
            &&& words_are(untar, seq!["/busybox/sh"@, "-c"@, "tar xzf - -C /workspace"@])
            &&& words_are(upload, seq!["/busybox/sh"@, "-c"@, "cat > /kaniko/.docker/config.json"@])
            &&& words_are(digest, seq!["/busybox/sh"@, "-c"@, "cat /tmp/digest"@])
        },
        b == Backend::Buildah ==> {
            &&& words_are(untar, seq!["/bin/sh"@, "-c"@, "tar xzf - -C /home/build/workspace"@])
            &&& words_are(upload, seq!["/bin/sh"@, "-c"@, "cat > /tmp/auth.json"@])
            &&& words_are(digest, seq!["/bin/sh"@, "-c"@, "cat /tmp/digest"@])
        },
{
    let none = Seq::<char>::empty();
    let steps = build::drive_steps(b, none, none, Seq::empty(), Seq::empty(), None);
    command_laws::staging_words(b, none, none, Seq::empty(), Seq::empty(), None);
    command_laws::digest_is_read_where_it_is_left(b);
    assert(steps[0].argv == text::texts(setup@));
    assert(steps[1].argv == text::texts(untar@));
    assert(steps[2].argv == text::texts(upload@));
}

/// In a pod, each builder is told to build the image asked for out of the file asked for, with
/// every build argument and every label.
pub proof fn pod_builds_what_is_asked(
    b: Backend,
    image: &str,
    dockerfile: &str,
    build_args: &[String],
    labels: &[(String, String)],
    steps: Vec<Vec<String>>,
)
    requires
        call_ensures(Backend::build_steps, (&b, image, dockerfile, build_args, labels), steps),
    ensures
        ({
            let words = text::texts(build_args@);
            let marks = text::pairs(labels@);
            let first = text::texts(steps@[0]@);
            match b {
                Backend::Buildkit => {
                    &&& steps@.len() == 1
                    &&& command_laws::buildkit_builds(
                        first,
                        "/home/user/workspace"@,
                        "/tmp/metadata.json"@,
                        image@,
                        dockerfile@,
                        words,
                        marks,
                    )
                },
                Backend::Kaniko => {
                    &&& steps@.len() == 1
                    &&& first.len() == 5 + words.len() + 2 * marks.len()
                    &&& command_laws::kaniko_builds(
                        first,
                        "/workspace"@,
                        "/tmp/digest"@,
                        image@,
                        dockerfile@,
                        words,
                    )
                    &&& command_laws::labels_from(
                        first,
                        5 + words.len() as int,
                        "--label"@,
                        Seq::empty(),
                        marks,
                    )
                },
                Backend::Buildah => {
                    &&& steps@.len() == 2
                    &&& command_laws::buildah_builds(
                        first,
                        "/home/build/workspace"@,
                        "/tmp/auth.json"@,
                        image@,
                        dockerfile@,
                        words,
                        marks,
                    )
                    &&& command_laws::buildah_pushes(
                        text::texts(steps@[1]@),
                        "/tmp/auth.json"@,
                        "/tmp/digest"@,
                        image@,
                    )
                },
            }
        }),
{
    let words = text::texts(build_args@);
    let marks = text::pairs(labels@);
    let all = backend::argvs(steps@);
    command_laws::buildkit_step_words(image@, dockerfile@, words, marks);
    command_laws::kaniko_step_words(image@, dockerfile@, words, marks);
    command_laws::buildah_step_words(image@, dockerfile@, words, marks);
    assert(all.len() == steps@.len());
    assert(all[0] == text::texts(steps@[0]@));
    if b == Backend::Buildah {
        assert(all[1] == text::texts(steps@[1]@));
    }
}

/// In a job, kaniko is given the same as in a pod: the image, the file, every build argument and
/// every label.
pub proof fn kaniko_job_builds_what_is_asked(
    image: &str,
    dockerfile: &str,
    build_args: &[String],
    labels: &[(String, String)],
    resources: Resources,
    c: Container,
)
    requires
        call_ensures(
            Backend::job_builder_container,
            (&Backend::Kaniko, image, dockerfile, build_args, labels, &resources),
            c,
        ),
    ensures
        ({
            let words = text::texts(c.command@);
            let count = build_args@.len() as int;
            &&& words.len() == 5 + count + labels@.len()
            &&& command_laws::kaniko_builds(
                words,
                "/workspace"@,
                "/dev/termination-log"@,
                image@,
                dockerfile@,
                text::texts(build_args@),
            )
            &&& forall|i: int|
                0 <= i < build_args@.len() ==> words[5 + i] == "--build-arg="@ + (
                #[trigger] build_args@[i])@
            &&& forall|i: int|
                0 <= i < labels@.len() ==> words[5 + count + i] == "--label="@ + (
                #[trigger] labels@[i]).0@ + "="@ + labels@[i].1@
        }),
{
    let args = text::texts(build_args@);
    let marks = text::pairs(labels@);
    command_laws::kaniko_job_command(image@, dockerfile@, args, marks);
    let words = text::texts(c.command@);
    assert(c@.command == words);
    let count = build_args@.len() as int;
    assert forall|i: int| 0 <= i < build_args@.len() implies words[5 + i] == "--build-arg="@ + (
    #[trigger] build_args@[i])@ by {
        assert(args[i] == build_args@[i]@);
    }
    assert forall|i: int| 0 <= i < labels@.len() implies words[5 + count + i] == "--label="@ + (
    #[trigger] labels@[i]).0@ + "="@ + labels@[i].1@ by {
        assert(marks[i] == (labels@[i].0@, labels@[i].1@));
    }
}

/// A container's GPUs are those of its request, wherever it stands.
pub proof fn gpus_are_counted(c: ContainerUse, at: int, n: nat, count: u64)
    requires
        call_ensures(ContainerUse::gpus, (&c,), count),
        text::distinct_keys(text::pairs(c.requests@)),
        0 <= at < c.requests@.len(),
        schedule::asks_gpus(c.requests@[at], n),
    ensures
        count == n,
{
    schedule::gpu_request_counts(c, at, n);
}

/// No node with an active pod that wants a GPU is handed out, and none where nothing was seen.
pub proof fn busy_nodes_are_not_handed_out(
    cluster: Cluster,
    name: Seq<char>,
    p: int,
    k: int,
    i: int,
    names: Vec<String>,
    none: Vec<String>,
)
    requires
        call_ensures(idle_nodes, (Some(&cluster),), names),
        call_ensures(idle_nodes, (None,), none),
        0 <= p < cluster.pods@.len(),
        schedule::occupies(cluster.pods@[p], name),
        (0 <= k < cluster.pods@[p].containers@.len() && schedule::wants_gpu(
            cluster.pods@[p].containers@[k],
        )) || (0 <= k < cluster.pods@[p].init_containers@.len() && schedule::wants_gpu(
            cluster.pods@[p].init_containers@[k],
        )),
        0 <= i < names@.len(),
    ensures
        names@[i]@ != name,
        none@.len() == 0,
{
    schedule::busy_nodes_are_not_preferred(cluster, name, p, k);
    assert(text::texts(names@)[i] == names@[i]@);
    if names@[i]@ == name {
        assert(text::texts(names@).contains(name));
    }
    assert(text::texts(none@).len() == none@.len());
}

/// A key and a value are cut at the first equals sign; without one the text is refused, and named
/// in the refusal.
pub proof fn key_and_value_are_cut(
    s: &str,
    key: Seq<char>,
    value: Seq<char>,
    r: Result<(String, String), NotPair>,
)
    requires
        call_ensures(key_value, (s,), r),
        !key.contains('='),
    ensures
        s@ == key + "="@ + value ==> gave_pair(r, key, value),
        !s@.contains('=') ==> r is Err && r->Err_0.given@ == s@,
{
    reveal_strlit("=");
    assert(key + "="@ + value =~= key + seq!['='] + value);
    text::text_is_cut(key, '=', value);
    if !s@.contains('=') {
        text::text_is_cut(s@, '=', value);
    }
}

/// Whether the cache is the claim that was asked for, or without one the directory of the node,
/// or without either none.
pub open spec fn cache_asked_for(args: BuildArgs, cache: Option<CacheVolume>) -> bool {
    &&& args.cache_pvc is Some ==> cache is Some && cache->0 is Pvc && cache->0->Pvc_0@
        == args.cache_pvc->0@
    &&& args.cache_pvc is None && args.cache_hostpath is Some ==> cache is Some && cache->0
        is HostPath && cache->0->HostPath_0@ == args.cache_hostpath->0@
    &&& args.cache_pvc is None && args.cache_hostpath is None ==> cache is None
}

/// Whether the node is the one that was asked for.
pub open spec fn node_asked_for(args: BuildArgs, node: Option<&str>) -> bool {
    &&& node is Some <==> args.node is Some
    &&& node is Some ==> node->0@ == args.node->0@
}

/// A pod is made with the cache, the node and the resources that were asked for, and with the
/// nodes that were found.
pub proof fn pod_is_made_as_asked<'a>(args: &'a BuildArgs, idle: &'a [String], opts: PodOpts<'a>)
    requires
        call_ensures(BuildArgs::pod_opts, (args, idle), opts),
    ensures
        cache_asked_for(*args, opts.cache),
        node_asked_for(*args, opts.node),
        opts.idle_nodes@ == idle@,
        *opts.resources == args.resources,
{
    assert(text::opt_str(opts.node) is Some <==> opts.node is Some);
    assert(text::opt_text(args.node) is Some <==> args.node is Some);
}

/// A job is made with the image, the file, the build arguments, the labels, the cache, the node
/// and the resources that were asked for, with the context that was pushed, and with the
/// credentials and the nodes that were found.
pub proof fn job_is_made_as_asked<'a>(
    args: &'a BuildArgs,
    ctx_ref: &'a str,
    authfile: &'a [u8],
    idle: &'a [String],
    made: DetachArgs<'a>,
)
    requires
        call_ensures(BuildArgs::detach_args, (args, ctx_ref, authfile, idle), made),
    ensures
        made.image@ == args.image@,
        made.dockerfile@ == args.dockerfile@,
        made.build_args@ == args.build_args@,
        made.labels@ == args.labels@,
        made.ctx_ref@ == ctx_ref@,
        made.authfile@ == authfile@,
        made.idle_nodes@ == idle@,
        *made.resources == args.resources,
        cache_asked_for(*args, made.cache),
        node_asked_for(*args, made.node),
{
    assert(text::opt_str(made.node) is Some <==> made.node is Some);
    assert(text::opt_text(args.node) is Some <==> args.node is Some);
}

/// The cluster is looked at for a builder that should run on an idle node and is not pinned, and
/// for no other; others prefer no node, whatever was seen.
pub proof fn scouting_is_for_idle_builders(
    args: BuildArgs,
    seen: Option<&Cluster>,
    yes: bool,
    names: Vec<String>,
)
    requires
        call_ensures(BuildArgs::wants_scout, (&args,), yes),
        call_ensures(BuildArgs::preferred_nodes, (&args, seen), names),
    ensures
        yes <==> args.schedule == Schedule::Idle && args.node is None,
        !yes || seen is None ==> names@.len() == 0,
        yes && seen is Some ==> text::texts(names@) == schedule::hinted(
            schedule::idle_names(seen->0@.nodes, seen->0@.pods),
        ),
{
    assert(text::texts(names@).len() == names@.len());
    assert(text::opt_text(args.node) is Some <==> args.node is Some);
}

/// A context has to be a directory. Of what is below it, `.git` and `target` at the top are left
/// out; the context itself is not archived, a directory is as one, and the rest as it is.
pub proof fn context_is_archived(
    is_dir: bool,
    path: &str,
    depth: usize,
    name: &str,
    checked: Result<(), ContextError>,
    kept: bool,
    unnamed: bool,
    step: EntryStep,
)
    requires
        call_ensures(check_context, (is_dir, path), checked),
        call_ensures(keep_entry, (depth, Some(name)), kept),
        call_ensures(keep_entry, (depth, None), unnamed),
        call_ensures(archive_entry, (depth, is_dir), step),
    ensures
        is_dir ==> checked is Ok,
        !is_dir ==> checked is Err && checked->Err_0 is NotDirectory
            && checked->Err_0->NotDirectory_0@ == path@,
        kept <==> !(depth == 1 && (name@ == ".git"@ || name@ == "target"@)),
        unnamed,
        step is Skip <==> depth == 0,
        step is Directory <==> depth > 0 && is_dir,
        step is Item <==> depth > 0 && !is_dir,
{
}

/// An exec has succeeded where the cluster says so; otherwise the command, as it was given, the
/// pod and the reason are named.
pub proof fn exec_ends(
    status: Option<ExecStatus>,
    argv: &[String],
    pod: &str,
    r: Result<(), ExecError>,
)
    requires
        call_ensures(finish, (status, argv, pod), r),
    ensures
        ({
            let command = shell::joined(text::texts(argv@), " "@);
            let well = status is Some && status->0.status is Some && status->0.status->0@
                == "Success"@;
            &&& r is Ok <==> well
            &&& status is None ==> r->Err_0 is NoStatus && r->Err_0->NoStatus_command@ == command
                && r->Err_0->NoStatus_pod@ == pod@
            &&& status is Some && !well ==> r->Err_0 is Failed && r->Err_0->Failed_command@
                == command && r->Err_0->Failed_pod@ == pod@ && r->Err_0->Failed_reason@ == (
            if status->0.message is Some {
                status->0.message->0@
            } else {
                "no error message"@
            })
        }),
{
}

/// What a command printed is kept where it ended well and is a text.
pub proof fn printed_text_is_kept(
    finished: Result<(), ExecError>,
    printed: Vec<u8>,
    r: Result<String, ExecError>,
)
    requires
        call_ensures(exec_capture, (finished, printed), r),
    ensures
        finished is Ok && vstd::utf8::valid_utf8(printed@) ==> gave(
            r,
            vstd::utf8::decode_utf8(printed@),
        ),
        finished is Ok && !vstd::utf8::valid_utf8(printed@) ==> r is Err && r->Err_0 is NotUtf8,
        finished is Err ==> r is Err && r->Err_0@ == finished->Err_0@,
{
}

/// At one time two processes give different names, all of one shape.
pub proof fn names_differ(nanos: u128, pid: u32, other: u32, a: String, b: String)
    requires
        call_ensures(unique_name, (nanos, pid), a),
        call_ensures(unique_name, (nanos, other), b),
        pid != other,
    ensures
        a@ != b@,
        "buildit-"@.is_prefix_of(a@),
        a@.len() == 16,
{
    pod::names_are_short(pod::mixed(nanos, pid));
    pod::words_tell_processes_and_times_apart(nanos, nanos, pid, other);
    if a@ == b@ {
        pod::names_tell_words_apart(
            pod::mixed(nanos, pid),
            pod::mixed(nanos, other),
        );
    }
}

/// The reference of a context is in the repository of the image, under the first six bytes of
/// the digest of what it holds.
pub proof fn context_is_named_by_digest(
    image: &str,
    tar: &[u8],
    repo: &str,
    i: int,
    r: String,
)
    requires
        call_ensures(context_reference, (image, tar), r),
        call_ensures(repo_of, (image,), repo),
        0 <= i < 6,
    ensures
        ({
            let head = repo@ + ":buildit-ctx-"@;
            &&& r@.len() == head.len() + 12
            &&& head.is_prefix_of(r@)
            &&& 16 * numeral::hex_value(r@[head.len() + 2 * i]) + numeral::hex_value(
                r@[head.len() + 2 * i + 1],
            ) == oci::sha256(tar@)[i]
        }),
{
    let digest = oci::sha256(tar@);
    let head = repo@ + ":buildit-ctx-"@;
    numeral::hex_is_read_back(digest, i);
    let hex = numeral::hex_of(digest);
    assert(r@.subrange(0, head.len() as int) =~= head);
    assert(r@[head.len() + 2 * i] == hex[2 * i]);
    assert(r@[head.len() + 2 * i + 1] == hex[2 * i + 1]);
}

/// The labels of a context image end in those asked for, in order; before them is the one by
/// which a quay registry prunes it, and nothing elsewhere.
pub proof fn context_labels_are(
    registry: &str,
    asked: &[(String, String)],
    i: int,
    labels: Vec<(String, String)>,
)
    requires
        call_ensures(context_labels, (registry, asked), labels),
    ensures
        ({
            let own = if "quay."@.is_prefix_of(registry@) {
                1int
            } else {
                0
            };
            &&& labels@.len() == own + asked@.len()
            &&& own == 1 ==> labels@[0].0@ == "quay.expires-after"@ && labels@[0].1@ == "2w"@
            &&& 0 <= i < asked@.len() ==> labels@[own + i].0@ == asked@[i].0@ && labels@[own
                + i].1@ == asked@[i].1@
        }),
{
    let given = text::pairs(labels@);
    let own = oci::default_labels_of(registry@);
    let more = text::pairs(asked@);
    if "quay."@.is_prefix_of(registry@) {
        let rest = registry@.skip("quay."@.len() as int);
        assert(registry@ =~= "quay."@ + rest);
        reveal_strlit("quay.");
        assert(!"quay."@.is_prefix_of(Seq::<char>::empty()));
        oci::quay_expires_contexts(rest, Seq::empty());
        assert(given[0] == own[0]);
    } else {
        oci::quay_expires_contexts(Seq::empty(), registry@);
    }
    assert(given.len() == labels@.len());
    if 0 <= i < asked@.len() {
        assert(given[own.len() + i] == more[i]);
        assert(more[i] == (asked@[i].0@, asked@[i].1@));
    }
}

/// A context that the registry has is not pushed again; one that it has not is, with the config
/// that names its digest and holds its labels.
pub proof fn context_is_pushed_once(
    in_registry: bool,
    tar: &[u8],
    labels: &[(String, String)],
    r: Result<Option<Vec<u8>>, OciError>,
)
    requires
        call_ensures(push_context, (in_registry, tar, labels), r),
    ensures
        r is Ok,
        in_registry ==> r->Ok_0 is None,
        !in_registry ==> r->Ok_0 is Some && r->Ok_0->0@ == json::json_bytes(
            oci::config_json(oci::sha256(tar@), text::pairs(labels@)),
        ),
{
}

/// Once a job is there its secret is made, owned by it; without a uid nothing can be owned by it.
/// Where the secret is refused the job is deleted again.
pub proof fn secret_follows_job(
    name: &str,
    namespace: &str,
    uid: String,
    authfile: &[u8],
    with_uid: Result<CreateStep, JobError>,
    without: Result<CreateStep, JobError>,
    job_name: String,
    made: CreateStep,
    refused: CreateStep,
)
    requires
        call_ensures(after_job, (name, namespace, Some(uid), authfile), with_uid),
        call_ensures(after_job, (name, namespace, None, authfile), without),
        call_ensures(after_secret, (job_name, true), made),
        call_ensures(after_secret, (job_name, false), refused),
    ensures
        with_uid is Ok && with_uid->Ok_0 is Secret && ({
            let secret = with_uid->Ok_0->Secret_0;
            &&& secret.owner_name@ == name@
            &&& secret.owner_uid@ == uid@
            &&& secret.owner_kind@ == "Job"@
            &&& secret.metadata@.name == Some(name@)
            &&& secret.metadata@.namespace == Some(namespace@)
            &&& secret.key@ == ".dockerconfigjson"@
            &&& secret.data@ == authfile@
        }),
        without is Err && without->Err_0 is NoUid,
        made == CreateStep::Made(job_name),
        refused == CreateStep::DeleteJob(job_name),
{
    let secret = with_uid->Ok_0->Secret_0;
    job_laws::secret_says(name@, namespace@, uid@, authfile@);
    assert(secret@.owner_name == secret.owner_name@);
}

/// A job is waited for under what it says of itself: the builder in its label, and the image in
/// its annotation.
pub proof fn wait_is_for_what_job_says(
    report: JobReport,
    name: &str,
    label: int,
    annotation: int,
    r: Result<Waiting, JobError>,
)
    requires
        call_ensures(open_wait, (&report, name), r),
        text::distinct_keys(text::pairs(report.labels@)),
        0 <= label < report.labels@.len(),
        report.labels@[label].0@ == "buildit/backend"@,
        text::distinct_keys(text::pairs(report.annotations@)),
        0 <= annotation < report.annotations@.len(),
        report.annotations@[annotation].0@ == "buildit/image"@,
    ensures
        ({
            let word = report.labels@[label].1@;
            &&& r is Ok <==> word == "buildkit"@ || word == "kaniko"@ || word == "buildah"@
            &&& r is Ok ==> r->Ok_0.image@ == report.annotations@[annotation].1@
            &&& word == "buildkit"@ ==> r->Ok_0.backend == Backend::Buildkit
            &&& word == "kaniko"@ ==> r->Ok_0.backend == Backend::Kaniko
            &&& word == "buildah"@ ==> r->Ok_0.backend == Backend::Buildah
            &&& r is Err ==> r->Err_0 is UnknownBackend && r->Err_0->UnknownBackend_0@ == word
        }),
{
    job_laws::label_names_builder(report, label);
    job_laws::annotation_names_image(report, annotation, name@);
}

/// A job that runs is looked at again after two seconds; one that is complete is finished; one
/// that failed is given up, for the reason that it gives.
pub proof fn job_is_looked_at(report: JobReport, name: &str, at: int, step: WaitStep)
    requires
        call_ensures(after_poll, (&report, name), step),
        0 <= at <= report.conditions@.len(),
        forall|i: int| 0 <= i < at ==> !job_laws::ends_job(#[trigger] report.conditions@[i]),
        at < report.conditions@.len() ==> job_laws::ends_job(report.conditions@[at]),
    ensures
        at == report.conditions@.len() ==> step == (WaitStep::Again { seconds: 2 }),
        at < report.conditions@.len() && report.conditions@[at].kind@ == "Complete"@ ==> step
            is Finish,
        at < report.conditions@.len() && report.conditions@[at].kind@ == "Failed"@ ==> step is Fail
            && step->Fail_0 is Failed && step->Fail_0->Failed_job@ == name@
            && step->Fail_0->Failed_reason@ == job_laws::reason_given(report.conditions@[at]),
{
    if at < report.conditions@.len() {
        job_laws::first_end_counts(report, at);
    } else {
        job_laws::without_end_it_runs(report);
    }
}

/// What a job pushed is named by its repository and the digest in the message; without a message
/// nothing is, and a message without a digest is refused.
pub proof fn pushed_image_is_pinned(
    waiting: Waiting,
    message: &str,
    digest: Result<String, DigestError>,
    repo: &str,
    r: Result<Option<String>, DigestError>,
    without: Result<Option<String>, DigestError>,
)
    requires
        call_ensures(Backend::digest_from, (&waiting.backend, message), digest),
        call_ensures(reported_ref, (&waiting, Some(message)), r),
        call_ensures(reported_ref, (&waiting, None), without),
        repo@ == oci::repo_in(waiting.image@),
    ensures
        digest is Ok ==> r is Ok && r->Ok_0 is Some && r->Ok_0->0@ == repo@ + "@"@
            + digest->Ok_0@,
        digest is Err ==> r is Err && r->Err_0@ == digest->Err_0@,
        without is Ok && without->Ok_0 is None,
{
    if digest is Ok {
        assert(text::opt_text(r->Ok_0) == Some(build::pinned(waiting.image@, digest->Ok_0@)));
    }
}

/// The message that counts is that of the newest pod whose builder ended well and left one.
pub proof fn newest_message_is_handed_back(
    pods: &[PodReport],
    i: int,
    k: int,
    m: Seq<char>,
    message: Option<String>,
)
    requires
        call_ensures(termination_message, (pods,), message),
        0 <= i < pods@.len(),
        job_laws::builder_at(pods@[i], k),
        job_laws::left_message(pods@[i].containers->0@[k].state, m),
        forall|j: int|
            0 <= j < pods@.len() && j != i ==> #[trigger] job_laws::passed_over(pods@, j, i),
    ensures
        message is Some && message->0@ == m,
{
    job_laws::newest_message_counts(pods@, i, k, m);
    assert(text::opt_text(message) == Some(m));
}

/// The pods of a job are found by its name, and of each the builder is looked at.
pub proof fn job_pods_are_found(name: &str, selector: String, builder: String, leftovers: String)
    requires
        call_ensures(pod_selector, (name,), selector),
        call_ensures(job::builder_name, (), builder),
        call_ensures(pod::clean_selector, (), leftovers),
    ensures
        selector@ == "job-name="@ + name@,
        builder@ == "builder"@,
        leftovers@ == "app=buildit"@,
{
}

/// What is done in each phase of a build: three minutes are waited for the pod, the command whose
/// turn it is is run, the digest is read, the pod is deleted, the outcome is reported.
pub proof fn phases_act(phase: Phase, action: Action)
    requires
        call_ensures(Phase::action, (&phase,), action),
    ensures
        phase is Starting ==> action == (Action::AwaitReady { seconds: 180 }),
        phase matches Phase::Stepping(k) ==> action == Action::Run(k),
        phase is Reading ==> action is ReadDigest,
        phase is Deleting ==> action is DeletePod,
        phase is Over ==> action is Report,
{
}

/// A build goes on to the next command as each is done, and to the deletion of its pod as soon as
/// anything goes wrong.
pub proof fn phases_advance(
    phase: Phase,
    event: Event,
    steps: usize,
    b: Backend,
    next: Phase,
)
    requires
        call_ensures(Phase::advance, (phase, event, steps, b), next),
        phase matches Phase::Stepping(k) ==> k < steps,
    ensures
        phase is Starting && event is Done && steps > 0 ==> next == Phase::Stepping(0),
        phase is Starting && event is Done && steps == 0 ==> next is Reading,
        phase matches Phase::Stepping(k) ==> (event is Done && k + 1 < steps ==> next is Stepping
            && next->Stepping_0 == k + 1),
        phase matches Phase::Stepping(k) ==> (event is Done && k + 1 == steps ==> next is Reading),
        phase is Reading && event is Done ==> next is Deleting,
        (phase is Starting || phase is Stepping || phase is Reading) && event is Failed ==> next
            is Deleting && next->Deleting_0 is Failed,
        (phase is Starting || phase is Stepping || phase is Reading) && event is Interrupted ==> next
            is Deleting && next->Deleting_0 is Interrupted,
        phase is Deleting ==> next is Over && next->Over_0@ == phase->Deleting_0@,
        phase is Over ==> next is Over && next->Over_0@ == phase->Over_0@,
{
}

/// What is reported of a build that pushed an image is the image by its digest; of another there
/// is nothing.
pub proof fn digest_is_reported(
    image: &str,
    outcome: Outcome,
    digest: &str,
    reference: String,
    line: Option<String>,
)
    requires
        call_ensures(report, (image, &outcome), line),
        call_ensures(pinned_ref, (image, digest), reference),
    ensures
        outcome matches Outcome::Digest(d) ==> (d@ == digest@ ==> line is Some && line->0@
            == reference@),
        !(outcome is Digest) ==> line is None,
        reference@ == oci::repo_in(image@) + "@"@ + digest@,
{
    assert(text::opt_text(line) is Some <==> line is Some);
}

/// A build in a pod has three commands of staging before its own: the first is fed nothing, the
/// second the context, the third the credentials.
pub proof fn staging_is_fed(
    b: Backend,
    image: &str,
    dockerfile: &str,
    build_args: &[String],
    labels: &[(String, String)],
    cache: Option<CacheVolume>,
    own: Vec<Vec<String>>,
    i: int,
    steps: Vec<Step>,
)
    requires
        call_ensures(drive, (b, image, dockerfile, build_args, labels, cache), steps),
        call_ensures(Backend::build_steps, (&b, image, dockerfile, build_args, labels), own),
    ensures
        steps@.len() == 3 + own@.len(),
        steps@[0].input == build::Input::Nothing,
        steps@[1].input == build::Input::Context,
        steps@[2].input == build::Input::Authfile,
        0 <= i < own@.len() ==> steps@[3 + i].input == build::Input::Nothing,
        0 <= i < own@.len() && (b != Backend::Kaniko || cache is None) ==> text::texts(
            steps@[3 + i].argv@,
        ) == text::texts(own@[i]@),
        0 <= i < own@.len() && b == Backend::Kaniko && cache is Some ==> text::texts(
            steps@[3 + i].argv@,
        ) == text::texts(own@[i]@) + seq!["--cache=true"@, "--cache-dir=/cache"@],
{
    let words = text::texts(build_args@);
    let marks = text::pairs(labels@);
    let all = build::step_views(steps@);
    let mine = backend::argvs(own@);
    command_laws::staging_words(b, image@, dockerfile@, words, marks, cache);
    command_laws::build_words_follow(b, image@, dockerfile@, words, marks, cache);
    assert(all.len() == steps@.len());
    assert(mine.len() == own@.len());
    assert(all[0] == steps@[0]@ && all[1] == steps@[1]@ && all[2] == steps@[2]@);
    if 0 <= i < own@.len() {
        assert(all[3 + i] == steps@[3 + i]@);
        assert(mine[i] == text::texts(own@[i]@));
    }
}

/// What is said of a registry that cannot be used.
pub proof fn auth_errors_read(e: AuthError, m: String)
    requires
        call_ensures(AuthError::message, (&e,), m),
    ensures
        e matches AuthError::Unqualified(image) ==> m@ == "image ref "@ + image@
            + " is not fully qualified; use e.g. quay.io/acme/foo:tag so buildit knows which registry credential to ship"@,
        e matches AuthError::NoInlineAuth(registry) ==> m@ == "no inline auth for "@ + registry@
            + " in ~/.docker/config.json (run `docker login "@ + registry@
            + "`; a macOS credsStore won't write an inline token)"@,
        e is Unwritable ==> m@ == "serializing authfile"@,
        e is Encoding ==> m@ == "decoding auth entry"@,
        e is NotUtf8 ==> m@ == "auth entry is not utf-8"@,
        e matches AuthError::NotPair(registry) ==> m@ == "auth entry for "@ + registry@
            + " is not user:pass shaped"@,
{
}

/// What is said of a digest that cannot be read.
pub proof fn digest_errors_read(e: DigestError, m: String)
    requires
        call_ensures(DigestError::message, (&e,), m),
    ensures
        e is Metadata ==> m@ == "parsing buildkit metadata file"@,
        e is Missing ==> m@ == "no containerimage.digest in buildkit metadata"@,
        e matches DigestError::Unexpected(d) ==> m@ == "unexpected digest: "@
            + backend::debug_form(d@),
{
}

/// What is said of a job that cannot be made or waited for, or that failed.
pub proof fn job_errors_read(e: JobError, m: String)
    requires
        call_ensures(JobError::message, (&e,), m),
    ensures
        e is NoUid ==> m@ == "created job has no uid"@,
        e is NoBackend ==> m@ == "job has no buildit/backend label"@,
        e matches JobError::UnknownBackend(label) ==> m@ == "unknown backend label "@
            + backend::debug_form(label@),
        e matches JobError::NoImage(name) ==> m@ == "job "@ + name@
            + " has no buildit/image annotation"@,
        e matches JobError::Failed { job: name, reason } ==> m@ == "job "@ + name@ + " failed: "@
            + reason@,
{
}

/// What is said of an exec that came to nothing.
pub proof fn exec_errors_read(e: ExecError, m: String)
    requires
        call_ensures(ExecError::message, (&e,), m),
    ensures
        e matches ExecError::Failed { command, pod, reason } ==> m@ == "`"@ + command@
            + "` failed in pod "@ + pod@ + ": "@ + reason@,
        e matches ExecError::NoStatus { command, pod } ==> m@ == "`"@ + command@ + "` in pod "@
            + pod@ + ": no exit status received"@,
        e is NotUtf8 ==> m@ == "exec output was not utf-8"@,
{
}

/// What is said of an argument, a context, a reference or a manifest that is refused.
pub proof fn other_errors_read(
    pair: NotPair,
    context: ContextError,
    reference: OciError,
    manifest: ManifestError,
    a: String,
    b: String,
    c: String,
    d: String,
)
    requires
        call_ensures(NotPair::message, (&pair,), a),
        call_ensures(ContextError::message, (&context,), b),
        call_ensures(OciError::message, (&reference,), c),
        call_ensures(ManifestError::message, (&manifest,), d),
    ensures
        a@ == "expected KEY=VALUE, got "@ + pair.given@,
        context matches ContextError::NotDirectory(path) ==> b@ == "context "@ + path@
            + " is not a directory"@,
        context is Gzip ==> b@ == "gzipping tar"@,
        context is Finish ==> b@ == "finalizing gzip"@,
        reference is ContextReference ==> c@ == "parsing context reference"@,
        reference is ImageReference ==> c@ == "parsing image reference"@,
        reference is Unwritable ==> c@ == "writing context config"@,
        manifest is Pod ==> d@ == "building pod spec"@,
        manifest is Job ==> d@ == "building job spec"@,
        manifest is Claim ==> d@ == "building PVC spec"@,
{
}

/// No pod is followed at first; one that was taken down is, and stays, and its logs are not
/// wanted again, while those of every other pod with a name are as they were.
pub proof fn pods_are_followed(
    fresh: Followed,
    followed: &mut Followed,
    name: String,
    other: Option<String>,
    yes: bool,
)
    requires
        call_ensures(Followed::new, (), fresh),
        call_ensures(Followed::mark, (followed, name), ()),
        call_ensures(Followed::wants, (&*final(followed), &other), yes),
    ensures
        forall|n: Seq<char>| !fresh@.contains(n),
        other is None ==> !yes,
        other is Some && other->0@ == name@ ==> !yes,
        other is Some && other->0@ != name@ ==> (yes <==> !old(followed)@.contains(other->0@)),
        forall|n: Seq<char>| #[trigger]
            final(followed)@.contains(n) <==> old(followed)@.contains(n) || n == name@,
{
}

/// A pass starts at the first pod, with what is followed already, and ends with what is followed
/// by then.
pub proof fn pass_starts_and_ends(
    followed: Followed,
    names: Vec<Option<String>>,
    pass: Pass,
    i: int,
    after: Followed,
)
    requires
        call_ensures(Pass::over, (followed, names), pass),
        call_ensures(Pass::done, (pass,), after),
    ensures
        pass@.at == 0,
        pass@.followed == followed@,
        pass@.names.len() == names@.len(),
        0 <= i < names@.len() && names@[i] is None ==> pass@.names[i] is None,
        0 <= i < names@.len() && names@[i] is Some ==> pass@.names[i] == Some(names@[i]->0@),
        after@ == followed@,
{
}

/// A pass asks for the first pod from here on that has a name which is not followed, passing over
/// the others, and for none where there is no such pod.
pub proof fn pass_asks_for_next(pass: &mut Pass, j: int, name: Option<String>)
    requires
        call_ensures(Pass::ask, (pass,), name),
        0 <= old(pass)@.at <= old(pass)@.names.len(),
    ensures
        final(pass)@.names == old(pass)@.names,
        final(pass)@.followed == old(pass)@.followed,
        old(pass)@.at <= final(pass)@.at <= old(pass)@.names.len(),
        old(pass)@.at <= j < final(pass)@.at ==> old(pass)@.names[j] is None
            || old(pass)@.followed.contains(old(pass)@.names[j]->0),
        name is Some <==> final(pass)@.at < old(pass)@.names.len(),
        name is Some ==> old(pass)@.names[final(pass)@.at] == Some(name->0@)
            && !old(pass)@.followed.contains(name->0@),
{
    job_laws::pass_goes_to_first_unfollowed(
        old(pass)@.followed,
        old(pass)@.names,
        old(pass)@.at,
        j,
    );
    assert(text::opt_text(name) is Some <==> name is Some);
}

/// Once a pod was asked for, a pass goes on behind it; the pod is followed where its logs could be
/// opened, and asked for again in a later pass where they could not.
pub proof fn pass_takes_answer(pass: &mut Pass, opened: bool)
    requires
        call_ensures(Pass::answer, (pass, opened), ()),
    ensures
        final(pass)@.names == old(pass)@.names,
        0 <= old(pass)@.at < old(pass)@.names.len() ==> final(pass)@.at == old(pass)@.at + 1,
        0 <= old(pass)@.at < old(pass)@.names.len() && opened && old(
            pass,
        )@.names[old(pass)@.at] is Some ==> final(pass)@.followed == old(pass)@.followed.insert(
            old(pass)@.names[old(pass)@.at]->0,
        ),
        !opened ==> final(pass)@.followed == old(pass)@.followed,
        old(pass)@.at >= old(pass)@.names.len() ==> final(pass)@ == old(pass)@,
{
    if 0 <= old(pass)@.at < old(pass)@.names.len() && opened && old(pass)@.names[old(pass)@.at]
        is Some {
        let n = old(pass)@.names[old(pass)@.at]->0;
        if old(pass)@.followed.contains(n) {
            assert(old(pass)@.followed.insert(n) =~= old(pass)@.followed);
        }
    }
}

/// A cache takes the place of the volume with its name, the other volumes stay, and kaniko's
/// container is given the mount of the cache and the flags that make it use it; the container of
/// another builder stays as it is.
pub proof fn cache_is_applied(
    b: Backend,
    container: &mut Container,
    volumes: &mut Vec<Volume>,
    cache: CacheVolume,
    i: int,
)
    requires
        call_ensures(Backend::apply_cache, (&b, container, volumes, cache), ()),
    ensures
        ({
            let before = manifest::volumes_of(old(volumes)@);
            let after = manifest::volumes_of(final(volumes)@);
            let name = match b {
                Backend::Buildkit => "buildkit-storage"@,
                Backend::Kaniko => "kaniko-cache"@,
                Backend::Buildah => "containers-storage"@,
            };
            &&& after.len() > 0
            &&& after.last().name == name
            &&& object_laws::holds_cache(after.last(), Some(cache))
            &&& 0 <= i < before.len() && before[i].name != name ==> after.contains(before[i])
            &&& 0 <= i < after.len() - 1 ==> after[i].name != name
        }),
        b != Backend::Kaniko ==> final(container)@ == old(container)@,
        b == Backend::Kaniko ==> {
            let before = old(container)@;
            let after = final(container)@;
            &&& after.command == before.command + seq!["--cache=true"@, "--cache-dir=/cache"@]
            &&& after.mounts.len() == before.mounts.len() + 1
            &&& object_laws::mounted(after.mounts.last(), "kaniko-cache"@, "/cache"@)
            &&& 0 <= i < before.mounts.len() ==> after.mounts[i] == before.mounts[i]
            &&& after.name == before.name
            &&& after.image == before.image
            &&& after.env == before.env
            &&& after.security == before.security
            &&& after.resources == before.resources
        },
{
    object_laws::cache_takes_its_place(b, manifest::volumes_of(old(volumes)@), cache, i);
    reveal_strlit("--cache-dir=");
    reveal_strlit("/cache");
    reveal_strlit("--cache-dir=/cache");
    assert("--cache-dir="@ + "/cache"@ =~= "--cache-dir=/cache"@);
}

/// The pod that is made is the one that was asked for: its name, where it is to run, what it asks
/// for, and the cache.
pub proof fn pod_manifest_is_as_asked(
    b: Backend,
    name: &str,
    namespace: &str,
    opts: PodOpts,
    pod: PodManifest,
)
    requires
        call_ensures(Backend::pod_manifest, (&b, name, namespace, &opts), pod),
    ensures
        pod@.metadata.name == Some(name@),
        pod@.metadata.namespace == Some(namespace@),
        object_laws::marked(b, pod@.metadata.labels),
        pod@.plan.restart_policy == "Never"@,
        pod@.plan.active_deadline_seconds == Some(7200i64),
        pod@.plan.node is Some <==> opts.node is Some,
        opts.node is Some ==> pod@.plan.node == Some(opts.node->0@),
        pod@.plan.preferred_nodes == text::texts(opts.idle_nodes@),
        pod@.plan.containers.len() == 1,
        object_laws::is_builder(b, pod@.plan.containers[0], opts.resources@),
        object_laws::storage_mounted(b, pod@.plan.containers[0], 1, opts.cache is Some),
        object_laws::storage_held(b, pod@.plan.volumes, 1, opts.cache),
        object_laws::permissions_opened(b, pod@.plan.init_containers, 0, opts.cache),
{
    object_laws::pod_consists_of(
        b,
        name@,
        namespace@,
        text::texts(opts.idle_nodes@),
        opts.resources@,
        opts.cache,
        text::opt_str(opts.node),
    );
}

/// The job that is made is the one that was asked for: its name, its image, its context, where it
/// is to run, what it asks for, and the cache.
pub proof fn job_manifest_is_as_asked(
    b: Backend,
    name: &str,
    namespace: &str,
    args: DetachArgs,
    made: JobManifest,
)
    requires
        call_ensures(Backend::job_manifest, (&b, name, namespace, &args), made),
    ensures
        made@.metadata.name == Some(name@),
        made@.metadata.namespace == Some(namespace@),
        object_laws::marked(b, made@.metadata.labels),
        made@.metadata.annotations == seq![("buildit/image"@, args.image@)],
        made@.backoff_limit == 2,
        made@.ttl_seconds_after_finished == 3600,
        made@.active_deadline_seconds == 7200,
        ({
            let plan = made@.template.plan;
            &&& args.node is Some ==> plan.node == Some(args.node->0@)
            &&& args.node is None ==> plan.node is None
            &&& plan.preferred_nodes == text::texts(args.idle_nodes@)
            &&& plan.containers.len() == 1
            &&& object_laws::is_builder(b, plan.containers[0], args.resources@)
            &&& object_laws::stages(plan.containers[0])
            &&& object_laws::storage_mounted(b, plan.containers[0], 2, args.cache is Some)
            &&& object_laws::storage_held(b, plan.volumes, 2, args.cache)
            &&& object_laws::permissions_opened(b, plan.init_containers, 1, args.cache)
            &&& object_laws::fetches(plan.init_containers.last(), args.ctx_ref@)
        }),
{
    object_laws::job_consists_of(b, name@, namespace@, args);
    object_laws::job_pods_consist_of(b, name@, namespace@, args);
}

/// Of what is listed, every job that has a name is deleted, and of the pods and the secrets those
/// that nothing owns.
pub proof fn leftovers_are_deleted(
    listed: &[Listed],
    jobs: Vec<String>,
    pods: Vec<String>,
    secrets: Vec<String>,
    i: int,
)
    requires
        call_ensures(job::clean, (listed,), jobs),
        call_ensures(pod::clean, (listed,), pods),
        call_ensures(job::clean_secrets, (listed,), secrets),
        0 <= i < listed@.len(),
        listed@[i].name is Some,
    ensures
        text::texts(jobs@).contains(listed@[i].name->0@),
        !listed@[i].owned ==> text::texts(pods@).contains(listed@[i].name->0@),
        !listed@[i].owned ==> text::texts(secrets@).contains(listed@[i].name->0@),
        (forall|j: int|
            0 <= j < listed@.len() && (#[trigger] listed@[j]).name is Some
                && listed@[j].name->0@ == listed@[i].name->0@ ==> listed@[j].owned)
            ==> !text::texts(pods@).contains(listed@[i].name->0@) && !text::texts(
            secrets@,
        ).contains(listed@[i].name->0@),
{
    let name = listed@[i].name->0@;
    let all = pod::listed_of(listed@);
    let unowned = ListedView { name: Some(name), owned: false };
    assert(all[i] == listed@[i]@);
    pod::orphans_are_unowned(all, name);
    if !listed@[i].owned {
        assert(all[i] == unowned);
        assert(all.contains(unowned));
    }
    if all.contains(unowned) {
        let j = all.index_of(unowned);
        assert(all[j] == listed@[j]@);
        assert(listed@[j].name is Some && listed@[j].name->0@ == name && !listed@[j].owned);
    }
    let before = all.take(i);
    let it = all.subrange(i, i + 1);
    let behind = all.skip(i + 1);
    assert(all =~= before + it + behind);
    job_laws::every_name_is_listed(before, it);
    job_laws::every_name_is_listed(before + it, behind);
    let at = job::names_in(before).len() as int;
    assert(job::names_in(all)[at] == name);
}

/// The permissions of a directory of the node are opened for a builder that is not root, and
/// nothing is done for another cache, or for kaniko.
pub proof fn permissions_are_opened(
    b: Backend,
    cache: Option<CacheVolume>,
    fix: Option<Container>,
)
    requires
        call_ensures(Backend::cache_perm_fix, (&b, cache), fix),
    ensures
        fix is Some <==> b != Backend::Kaniko && cache is Some && cache->0 is HostPath,
        fix is Some && b == Backend::Buildkit ==> object_laws::opens_permissions(
            fix->0@,
            "buildkit-storage"@,
            "/home/user/.local/share/buildkit"@,
        ),
        fix is Some && b == Backend::Buildah ==> object_laws::opens_permissions(
            fix->0@,
            "containers-storage"@,
            "/home/build/.local/share/containers"@,
        ),
{
    if fix is Some {
        assert(seq![fix->0@][0] == fix->0@);
    }
}

/// The documents of a pod, a job and a claim are of those kinds, and hold their marks and plans.
pub proof fn documents_are_of_their_kind(
    p: PodManifest,
    j: JobManifest,
    c: ClaimManifest,
    pod_doc: serde_json::Value,
    job_doc: serde_json::Value,
    claim_doc: serde_json::Value,
)
    requires
        call_ensures(PodManifest::json, (&p,), pod_doc),
        call_ensures(JobManifest::json, (&j,), job_doc),
        call_ensures(ClaimManifest::json, (&c,), claim_doc),
    ensures
        json::field(json::tree_of(pod_doc), "kind"@) == Some(Json::Text("Pod"@)),
        json::field(json::tree_of(pod_doc), "metadata"@) == Some(
            manifest::metadata_json(p.metadata@),
        ),
        json::field(json::tree_of(pod_doc), "spec"@) == Some(manifest::plan_json(p.plan@)),
        json::field(json::tree_of(job_doc), "kind"@) == Some(Json::Text("Job"@)),
        json::field(json::tree_of(job_doc), "metadata"@) == Some(
            manifest::metadata_json(j.metadata@),
        ),
        json::field(json::tree_of(claim_doc), "kind"@) == Some(
            Json::Text("PersistentVolumeClaim"@),
        ),
        json::field(json::tree_of(claim_doc), "metadata"@) == Some(
            manifest::metadata_json(c.metadata@),
        ),
{
    manifest_laws::pod_says(p@);
    manifest_laws::job_says(j@);
    manifest_laws::claim_says(c@, 0);
}

/// A claim that is there is used as it is; one that is not is made, of the size asked for.
pub proof fn claim_is_made_once(
    exists_already: bool,
    namespace: &str,
    name: &str,
    size: &str,
    claim: ClaimManifest,
    r: Result<Option<k8s_openapi::api::core::v1::PersistentVolumeClaim>, ManifestError>,
)
    requires
        call_ensures(pod::cache_claim, (namespace, name, size), claim),
        call_ensures(pod::ensure_pvc, (exists_already, namespace, name, size), r),
    ensures
        r is Ok,
        exists_already ==> r->Ok_0 is None,
        !exists_already ==> r->Ok_0 is Some && manifest::typed_claim(
            manifest::claim_json(claim@),
        ) == r->Ok_0,
        claim.metadata@.name == Some(name@),
        claim.metadata@.namespace == Some(namespace@),
        claim.storage@ == size@,
        text::texts(claim.access_modes@) == seq!["ReadWriteOnce"@],
{
    pod::claim_says(namespace@, name@, size@);
    assert(claim@.metadata == claim.metadata@);
}

/// Digits are read as the number that they spell, in 64 bits.
pub proof fn numbers_are_read(s: &str, more: &str, c: char, n: Option<u64>, m: Option<u64>)
    requires
        call_ensures(numeral::parse_unsigned, (s,), n),
        call_ensures(numeral::parse_unsigned, (more,), m),
        n is Some,
        '0' <= c <= '9',
        more@ == s@.push(c),
    ensures
        10 * n->0 + (c as int - '0' as int) <= u64::MAX ==> m is Some && m->0 == 10 * n->0 + (c as int
            - '0' as int),
        10 * n->0 + (c as int - '0' as int) > u64::MAX ==> m is None,
{
    numeral::digit_is_added(s@, n->0 as nat, c);
}

}
