//! The three image builders: where each keeps its things, what runs in its container, and how
//! it reports the digest of what it pushed.

use vstd::prelude::*;

use crate::json;
use crate::json::{read_json, value_field, value_text, Json};
use crate::text;
use crate::text::{starts_with, trimmed};

pub use crate::manifest::Resources;

verus! {

broadcast use vstd::string::group_string_axioms;

/// What a persistent cache lives on.
#[derive(Clone, Copy)]
pub enum CacheVolume<'a> {
    /// A persistent volume claim, by name.
    Pvc(&'a str),
    /// A directory of the node; it exists on that node alone, so pair it with a pinned node.
    HostPath(&'a str),
}

/// What a builder pod is made with.
pub struct PodOpts<'a> {
    pub idle_nodes: &'a [String],
    pub resources: &'a Resources,
    pub cache: Option<CacheVolume<'a>>,
    pub node: Option<&'a str>,
}

/// An image builder.
#[derive(Clone, Copy, PartialEq, Eq, Debug, Structural)]
pub enum Backend {
    /// Rootless buildkitd, driven one-shot via buildctl-daemonless.sh.
    Buildkit,
    /// The kaniko executor.
    Kaniko,
    /// Rootless buildah, with chroot isolation and vfs storage.
    Buildah,
}

/// Why no digest could be read from what a builder left behind.
#[derive(Debug)]
pub enum DigestError {
    /// The metadata file of buildkit is no JSON.
    Metadata(serde_json::Error),
    /// The metadata file of buildkit names no digest.
    Missing,
    /// This is no digest.
    Unexpected(String),
}

/// What a `DigestError` says.
pub enum DigestFault {
    Metadata,
    Missing,
    Unexpected(Seq<char>),
}

impl View for DigestError {
    type V = DigestFault;

    open spec fn view(&self) -> DigestFault {
        match self {
            DigestError::Metadata(_) => DigestFault::Metadata,
            DigestError::Missing => DigestFault::Missing,
            DigestError::Unexpected(d) => DigestFault::Unexpected(d@),
        }
    }
}

/// What the debug format of a string shows.
pub uninterp spec fn debug_form(s: Seq<char>) -> Seq<char>;

/// The debug format of `str`, by std's `format!`: it rests on the text alone.
#[verifier::external_body]
pub(crate) fn debug_text(s: &str) -> (shown: String)
    ensures
        shown@ == debug_form(s@),
{
    format!("{s:?}")
}

impl DigestError {
    /// What went wrong, in words.
    pub fn message(&self) -> (m: String)
        ensures
            m@ == match self@ {
                DigestFault::Metadata => "parsing buildkit metadata file"@,
                DigestFault::Missing => "no containerimage.digest in buildkit metadata"@,
                DigestFault::Unexpected(d) => "unexpected digest: "@ + debug_form(d),
            },
    {
        match self {
            DigestError::Metadata(_) => "parsing buildkit metadata file".to_owned(),
            DigestError::Missing => "no containerimage.digest in buildkit metadata".to_owned(),
            DigestError::Unexpected(d) => "unexpected digest: ".to_owned().concat(
                debug_text(d.as_str()).as_str(),
            ),
        }
    }
}

pub open spec fn shell_of(b: Backend) -> Seq<char> {
    match b {
        Backend::Buildkit => "/bin/sh"@,
        Backend::Kaniko => "/busybox/sh"@,
        Backend::Buildah => "/bin/sh"@,
    }
}

/// Rootless builders cannot make a directory at the root, so theirs is in their home.
pub open spec fn workspace_of(b: Backend) -> Seq<char> {
    match b {
        Backend::Buildkit => "/home/user/workspace"@,
        Backend::Kaniko => "/workspace"@,
        Backend::Buildah => "/home/build/workspace"@,
    }
}

pub open spec fn auth_path_of(b: Backend) -> Seq<char> {
    match b {
        Backend::Buildkit => "/home/user/.docker/config.json"@,
        Backend::Kaniko => "/kaniko/.docker/config.json"@,
        Backend::Buildah => "/tmp/auth.json"@,
    }
}

pub open spec fn digest_path_of(b: Backend) -> Seq<char> {
    match b {
        Backend::Buildkit => "/tmp/metadata.json"@,
        Backend::Kaniko => "/tmp/digest"@,
        Backend::Buildah => "/tmp/digest"@,
    }
}

pub open spec fn label_of(b: Backend) -> Seq<char> {
    match b {
        Backend::Buildkit => "buildkit"@,
        Backend::Kaniko => "kaniko"@,
        Backend::Buildah => "buildah"@,
    }
}

/// Where a persistent cache pays off.
pub open spec fn cache_mount_path_of(b: Backend) -> Seq<char> {
    match b {
        Backend::Buildkit => "/home/user/.local/share/buildkit"@,
        Backend::Kaniko => "/cache"@,
        Backend::Buildah => "/home/build/.local/share/containers"@,
    }
}

/// The volume is named for the mount it replaces; kaniko gets one of its own.
pub open spec fn cache_volume_name_of(b: Backend) -> Seq<char> {
    match b {
        Backend::Buildkit => "buildkit-storage"@,
        Backend::Kaniko => "kaniko-cache"@,
        Backend::Buildah => "containers-storage"@,
    }
}

/// The script that makes the directories a build needs. Buildah's own storage configuration
/// points at a store that a rootless vfs cannot lock, so it gets another one.
pub open spec fn setup_script(b: Backend) -> Seq<char> {
    match b {
        Backend::Buildkit => "mkdir -p "@ + workspace_of(b) + " /home/user/.docker"@,
        Backend::Kaniko => "mkdir -p "@ + workspace_of(b) + " /tmp /kaniko/.docker"@,
        Backend::Buildah => "mkdir -p "@ + workspace_of(b) + " /tmp/containers-run && "@
            + storage_conf_script(),
    }
}

/// The script that writes the storage configuration for buildah.
pub open spec fn storage_conf_script() -> Seq<char> {
    "printf '[storage]\\ndriver = \"vfs\"\\ngraphroot = \"/home/build/.local/share/containers/storage\"\\nrunroot = \"/tmp/containers-run\"\\n' > /tmp/storage.conf"@
}

/// A script for the shell of a builder.
pub open spec fn scripted(b: Backend, script: Seq<char>) -> Seq<Seq<char>> {
    seq![shell_of(b), "-c"@, script]
}

/// A label as the builders take it.
pub open spec fn label_text(kv: (Seq<char>, Seq<char>)) -> Seq<char> {
    kv.0 + "="@ + kv.1
}

pub open spec fn label_texts(labels: Seq<(Seq<char>, Seq<char>)>) -> Seq<Seq<char>> {
    labels.map_values(|kv: (Seq<char>, Seq<char>)| label_text(kv))
}

/// Each item with a prefix.
pub open spec fn prefixed(prefix: Seq<char>, items: Seq<Seq<char>>) -> Seq<Seq<char>> {
    items.map_values(|s: Seq<char>| prefix + s)
}

/// Each item with a flag before it.
pub open spec fn flagged(flag: Seq<char>, items: Seq<Seq<char>>) -> Seq<Seq<char>>
    decreases items.len(),
{
    if items.len() == 0 {
        Seq::empty()
    } else {
        flagged(flag, items.drop_last()) + seq![flag, items.last()]
    }
}

/// The command line of buildkit: sources and metadata file, then an option for each build
/// argument and for each label.
pub open spec fn buildkit_argv(
    ws: Seq<char>,
    metadata_file: Seq<char>,
    image: Seq<char>,
    dockerfile: Seq<char>,
    arg_opts: Seq<Seq<char>>,
    label_opts: Seq<Seq<char>>,
) -> Seq<Seq<char>> {
    seq![
        "buildctl-daemonless.sh"@,
        "build"@,
        "--frontend"@,
        "dockerfile.v0"@,
        "--local"@,
        "context="@ + ws,
        "--local"@,
        "dockerfile="@ + ws,
        "--opt"@,
        "filename="@ + dockerfile,
        "--output"@,
        "type=image,name="@ + image + ",push=true"@,
        "--metadata-file"@,
        metadata_file,
    ] + flagged("--opt"@, arg_opts) + flagged("--opt"@, label_opts)
}

/// The command line of kaniko, up to the labels.
pub open spec fn kaniko_argv(
    ws: Seq<char>,
    digest_file: Seq<char>,
    image: Seq<char>,
    dockerfile: Seq<char>,
    build_args: Seq<Seq<char>>,
) -> Seq<Seq<char>> {
    seq![
        "/kaniko/executor"@,
        "--dockerfile="@ + ws + "/"@ + dockerfile,
        "--context=dir://"@ + ws,
        "--destination="@ + image,
        "--digest-file="@ + digest_file,
    ] + prefixed("--build-arg="@, build_args)
}

/// The command line with which buildah builds.
pub open spec fn buildah_build_argv(
    ws: Seq<char>,
    authfile: Seq<char>,
    image: Seq<char>,
    file: Seq<char>,
    build_args: Seq<Seq<char>>,
    labels: Seq<Seq<char>>,
) -> Seq<Seq<char>> {
    seq!["buildah"@, "bud"@, "--authfile"@, authfile] + flagged("--build-arg"@, build_args)
        + flagged("--label"@, labels) + seq!["-f"@, file, "-t"@, image, ws]
}

/// The command line with which buildah pushes.
pub open spec fn buildah_push_argv(
    authfile: Seq<char>,
    digest_file: Seq<char>,
    image: Seq<char>,
) -> Seq<Seq<char>> {
    seq![
        "buildah"@,
        "push"@,
        "--authfile"@,
        authfile,
        "--digestfile"@,
        digest_file,
        image,
        "docker://"@ + image,
    ]
}

/// The command lines that build and push an image, one after the other.
pub open spec fn steps_of(
    b: Backend,
    image: Seq<char>,
    dockerfile: Seq<char>,
    build_args: Seq<Seq<char>>,
    labels: Seq<(Seq<char>, Seq<char>)>,
) -> Seq<Seq<Seq<char>>> {
    let ws = workspace_of(b);
    match b {
        Backend::Buildkit => seq![
            buildkit_argv(
                ws,
                digest_path_of(b),
                image,
                dockerfile,
                prefixed("build-arg:"@, build_args),
                prefixed("label:"@, label_texts(labels)),
            ),
        ],
        Backend::Kaniko => seq![
            kaniko_argv(ws, digest_path_of(b), image, dockerfile, build_args) + flagged(
                "--label"@,
                label_texts(labels),
            ),
        ],
        Backend::Buildah => seq![
            buildah_build_argv(
                ws,
                auth_path_of(b),
                image,
                ws + "/"@ + dockerfile,
                build_args,
                label_texts(labels),
            ),
            buildah_push_argv(auth_path_of(b), digest_path_of(b), image),
        ],
    }
}

/// The digest that the metadata of buildkit name.
pub open spec fn metadata_digest(meta: Json) -> Option<Seq<char>> {
    match meta {
        Json::Object(fields) if fields.contains_key("containerimage.digest"@) => {
            match fields["containerimage.digest"@] {
                Json::Text(digest) => Some(digest),
                _ => None,
            }
        },
        _ => None,
    }
}

/// A digest is accepted where it says that it is one of SHA-256.
pub open spec fn accepted_digest(digest: Seq<char>) -> Result<Seq<char>, DigestFault> {
    if "sha256:"@.is_prefix_of(digest) {
        Ok(digest)
    } else {
        Err(DigestFault::Unexpected(digest))
    }
}

/// The digest that metadata name, where they name one.
pub open spec fn named_digest(found: Option<Seq<char>>) -> Result<Seq<char>, DigestFault> {
    match found {
        Some(digest) => accepted_digest(digest),
        None => Err(DigestFault::Missing),
    }
}

/// The digest that a builder reports. Buildkit leaves a JSON file, `parsed` is what it says;
/// the other two leave the bare digest.
pub open spec fn reported_digest(b: Backend, raw: Seq<char>, parsed: Option<Json>) -> Result<
    Seq<char>,
    DigestFault,
> {
    match b {
        Backend::Buildkit => match parsed {
            Some(meta) => named_digest(metadata_digest(meta)),
            None => Err(DigestFault::Metadata),
        },
        _ => accepted_digest(text::trim(raw)),
    }
}

/// What a result with strings says.
pub open spec fn digest_result(r: Result<String, DigestError>) -> Result<Seq<char>, DigestFault> {
    match r {
        Ok(d) => Ok(d@),
        Err(e) => Err(e@),
    }
}

/// Accepts a digest that says it is one of SHA-256.
pub fn check_digest(digest: String) -> (r: Result<String, DigestError>)
    ensures
        digest_result(r) == accepted_digest(digest@),
{
    if starts_with(digest.as_str(), "sha256:") {
        Ok(digest)
    } else {
        Err(DigestError::Unexpected(digest))
    }
}

/// The digest that the metadata of buildkit name, given the text found in them.
pub fn digest_found(found: Option<&str>) -> (r: Result<String, DigestError>)
    ensures
        digest_result(r) == named_digest(text::opt_str(found)),
{
    match found {
        Some(digest) => check_digest(digest.to_owned()),
        None => Err(DigestError::Missing),
    }
}

impl Backend {
    /// The shell in the builder's image.
    pub fn shell(&self) -> (s: &'static str)
        ensures
            s@ == shell_of(*self),
    {
        match self {
            Backend::Buildkit => "/bin/sh",
            Backend::Kaniko => "/busybox/sh",
            Backend::Buildah => "/bin/sh",
        }
    }

    /// Where the build context is unpacked.
    pub fn workspace(&self) -> (s: &'static str)
        ensures
            s@ == workspace_of(*self),
    {
        match self {
            Backend::Buildkit => "/home/user/workspace",
            Backend::Kaniko => "/workspace",
            Backend::Buildah => "/home/build/workspace",
        }
    }

    /// Where the builder looks for registry credentials.
    pub fn auth_path(&self) -> (s: &'static str)
        ensures
            s@ == auth_path_of(*self),
    {
        match self {
            Backend::Buildkit => "/home/user/.docker/config.json",
            Backend::Kaniko => "/kaniko/.docker/config.json",
            Backend::Buildah => "/tmp/auth.json",
        }
    }

    /// Where the builder leaves the digest. Buildkit writes a JSON file there, not a bare digest.
    pub fn digest_path(&self) -> (s: &'static str)
        ensures
            s@ == digest_path_of(*self),
    {
        match self {
            Backend::Buildkit => "/tmp/metadata.json",
            Backend::Kaniko => "/tmp/digest",
            Backend::Buildah => "/tmp/digest",
        }
    }

    /// The name by which objects in the cluster remember their builder.
    pub fn label(&self) -> (s: &'static str)
        ensures
            s@ == label_of(*self),
    {
        match self {
            Backend::Buildkit => "buildkit",
            Backend::Kaniko => "kaniko",
            Backend::Buildah => "buildah",
        }
    }

    /// Where a persistent cache is mounted.
    pub fn cache_mount_path(&self) -> (s: &'static str)
        ensures
            s@ == cache_mount_path_of(*self),
    {
        match self {
            Backend::Buildkit => "/home/user/.local/share/buildkit",
            Backend::Kaniko => "/cache",
            Backend::Buildah => "/home/build/.local/share/containers",
        }
    }

    /// The name of the volume that holds a persistent cache.
    pub fn cache_volume_name(&self) -> (s: &'static str)
        ensures
            s@ == cache_volume_name_of(*self),
    {
        match self {
            Backend::Buildkit => "buildkit-storage",
            Backend::Kaniko => "kaniko-cache",
            Backend::Buildah => "containers-storage",
        }
    }

    fn script(&self, script: String) -> (argv: Vec<String>)
        ensures
            text::texts(argv@) == scripted(*self, script@),
    {
        let argv: Vec<String> = vec![self.shell().to_owned(), "-c".to_owned(), script];
        assert(text::texts(argv@) =~= scripted(*self, script@));
        argv
    }

    /// The command that prints what the builder reports.
    pub fn digest_command(&self) -> (argv: Vec<String>)
        ensures
            text::texts(argv@) == scripted(*self, "cat "@ + digest_path_of(*self)),
    {
        self.script("cat ".to_owned().concat(self.digest_path()))
    }

    /// The digest of the pushed image, from what the builder reports.
    pub fn digest_from(&self, raw: &str) -> (r: Result<String, DigestError>)
        ensures
            digest_result(r) == reported_digest(*self, raw@, json::parsed_json(raw@)),
    {
        match self {
            Backend::Buildkit => match read_json(raw) {
                Ok(meta) => {
                    let found = match value_field(&meta, "containerimage.digest") {
                        Some(digest) => value_text(digest),
                        None => None,
                    };
                    digest_found(found)
                },
                Err(err) => Err(DigestError::Metadata(err)),
            },
            _ => check_digest(trimmed(raw).to_owned()),
        }
    }

    /// The command that makes the directories a build needs.
    pub fn setup_command(&self) -> (argv: Vec<String>)
        ensures
            text::texts(argv@) == scripted(*self, setup_script(*self)),
    {
        let ws = "mkdir -p ".to_owned().concat(self.workspace());
        let script = match self {
            Backend::Buildkit => ws.concat(" /home/user/.docker"),
            Backend::Kaniko => ws.concat(" /tmp /kaniko/.docker"),
            Backend::Buildah => ws.concat(" /tmp/containers-run && ").concat(
                storage_conf().as_str(),
            ),
        };
        self.script(script)
    }

    /// The command that unpacks the context from its standard input.
    pub fn untar_command(&self) -> (argv: Vec<String>)
        ensures
            text::texts(argv@) == scripted(*self, "tar xzf - -C "@ + workspace_of(*self)),
    {
        self.script("tar xzf - -C ".to_owned().concat(self.workspace()))
    }

    /// The command that stores the credentials from its standard input.
    pub fn auth_upload_command(&self) -> (argv: Vec<String>)
        ensures
            text::texts(argv@) == scripted(*self, "cat > "@ + auth_path_of(*self)),
    {
        self.script("cat > ".to_owned().concat(self.auth_path()))
    }

    /// The command lines that build and push an image. Each is plain words, no shell reads it.
    pub fn build_steps(
        &self,
        image: &str,
        dockerfile: &str,
        build_args: &[String],
        labels: &[(String, String)],
    ) -> (steps: Vec<Vec<String>>)
        ensures
            argvs(steps@) == steps_of(
                *self,
                image@,
                dockerfile@,
                text::texts(build_args@),
                text::pairs(labels@),
            ),
    {
        let ws = self.workspace();
        let label_words = label_strings(labels);
        let steps: Vec<Vec<String>> = match self {
            Backend::Buildkit => vec![
                buildkit_command(
                    ws,
                    self.digest_path(),
                    image,
                    dockerfile,
                    prefix_all("build-arg:", build_args).as_slice(),
                    prefix_all("label:", label_words.as_slice()).as_slice(),
                ),
            ],
            Backend::Kaniko => {
                let mut argv = kaniko_command(ws, self.digest_path(), image, dockerfile, build_args);
                push_flagged(&mut argv, "--label", label_words.as_slice());
                vec![argv]
            },
            Backend::Buildah => vec![
                buildah_build_command(
                    ws,
                    self.auth_path(),
                    image,
                    ws.to_owned().concat("/").concat(dockerfile).as_str(),
                    build_args,
                    label_words.as_slice(),
                ),
                buildah_push_command(self.auth_path(), self.digest_path(), image),
            ],
        };
        assert(argvs(steps@) =~= steps_of(
            *self,
            image@,
            dockerfile@,
            text::texts(build_args@),
            text::pairs(labels@),
        ));
        steps
    }
}

/// What each of the command lines holds.
pub open spec fn argvs(steps: Seq<Vec<String>>) -> Seq<Seq<Seq<char>>> {
    steps.map_values(|argv: Vec<String>| text::texts(argv@))
}

/// The script that writes the storage configuration for buildah.
pub(crate) fn storage_conf() -> (s: String)
    ensures
        s@ == storage_conf_script(),
{
    "printf '[storage]\\ndriver = \"vfs\"\\ngraphroot = \"/home/build/.local/share/containers/storage\"\\nrunroot = \"/tmp/containers-run\"\\n' > /tmp/storage.conf".to_owned()
}

/// Each item with a prefix.
pub(crate) fn prefix_all(prefix: &str, items: &[String]) -> (out: Vec<String>)
    ensures
        text::texts(out@) == prefixed(prefix@, text::texts(items@)),
{
    let mut out: Vec<String> = Vec::new();
    for i in 0..items.len()
        invariant
            out@.len() == i,
            forall|j: int| 0 <= j < i ==> (#[trigger] out@[j])@ == prefix@ + items@[j]@,
    {
        out.push(prefix.to_owned().concat(items[i].as_str()));
    }
    assert(text::texts(out@) =~= prefixed(prefix@, text::texts(items@)));
    out
}

/// Each label as the builders take it.
pub(crate) fn label_strings(labels: &[(String, String)]) -> (out: Vec<String>)
    ensures
        text::texts(out@) == label_texts(text::pairs(labels@)),
{
    let mut out: Vec<String> = Vec::new();
    for i in 0..labels.len()
        invariant
            out@.len() == i,
            forall|j: int|
                0 <= j < i ==> (#[trigger] out@[j])@ == label_text((labels@[j].0@, labels@[j].1@)),
    {
        out.push(labels[i].0.clone().concat("=").concat(labels[i].1.as_str()));
    }
    assert(text::texts(out@) =~= label_texts(text::pairs(labels@)));
    out
}

/// Adds each item with a flag before it.
pub(crate) fn push_flagged(argv: &mut Vec<String>, flag: &str, items: &[String])
    ensures
        text::texts(final(argv)@) == text::texts(old(argv)@) + flagged(
            flag@,
            text::texts(items@),
        ),
{
    let ghost before = text::texts(argv@);
    let ghost all = text::texts(items@);
    assert(before =~= before + flagged(flag@, all.take(0)));
    for i in 0..items.len()
        invariant
            all == text::texts(items@),
            text::texts(argv@) == before + flagged(flag@, all.take(i as int)),
    {
        let ghost now = argv@;
        argv.push(flag.to_owned());
        argv.push(items[i].clone());
        assert(all.take(i + 1).drop_last() =~= all.take(i as int));
        assert(text::texts(argv@) =~= text::texts(now) + seq![flag@, all[i as int]]);
        assert(text::texts(argv@) =~= before + flagged(flag@, all.take(i + 1)));
    }
    assert(all.take(all.len() as int) =~= all);
}

/// The command line of buildkit.
pub(crate) fn buildkit_command(
    ws: &str,
    metadata_file: &str,
    image: &str,
    dockerfile: &str,
    arg_opts: &[String],
    label_opts: &[String],
) -> (argv: Vec<String>)
    ensures
        text::texts(argv@) == buildkit_argv(
            ws@,
            metadata_file@,
            image@,
            dockerfile@,
            text::texts(arg_opts@),
            text::texts(label_opts@),
        ),
{
    let mut argv: Vec<String> = vec![
        "buildctl-daemonless.sh".to_owned(),
        "build".to_owned(),
        "--frontend".to_owned(),
        "dockerfile.v0".to_owned(),
        "--local".to_owned(),
        "context=".to_owned().concat(ws),
        "--local".to_owned(),
        "dockerfile=".to_owned().concat(ws),
        "--opt".to_owned(),
        "filename=".to_owned().concat(dockerfile),
        "--output".to_owned(),
        "type=image,name=".to_owned().concat(image).concat(",push=true"),
        "--metadata-file".to_owned(),
        metadata_file.to_owned(),
    ];
    assert(text::texts(argv@) =~= seq![
        "buildctl-daemonless.sh"@,
        "build"@,
        "--frontend"@,
        "dockerfile.v0"@,
        "--local"@,
        "context="@ + ws@,
        "--local"@,
        "dockerfile="@ + ws@,
        "--opt"@,
        "filename="@ + dockerfile@,
        "--output"@,
        "type=image,name="@ + image@ + ",push=true"@,
        "--metadata-file"@,
        metadata_file@,
    ]);
    push_flagged(&mut argv, "--opt", arg_opts);
    push_flagged(&mut argv, "--opt", label_opts);
    argv
}

/// The command line of kaniko, up to the labels.
pub(crate) fn kaniko_command(
    ws: &str,
    digest_file: &str,
    image: &str,
    dockerfile: &str,
    build_args: &[String],
) -> (argv: Vec<String>)
    ensures
        text::texts(argv@) == kaniko_argv(
            ws@,
            digest_file@,
            image@,
            dockerfile@,
            text::texts(build_args@),
        ),
{
    let mut argv: Vec<String> = vec![
        "/kaniko/executor".to_owned(),
        "--dockerfile=".to_owned().concat(ws).concat("/").concat(dockerfile),
        "--context=dir://".to_owned().concat(ws),
        "--destination=".to_owned().concat(image),
        "--digest-file=".to_owned().concat(digest_file),
    ];
    let mut args = prefix_all("--build-arg=", build_args);
    argv.append(&mut args);
    assert(text::texts(argv@) =~= kaniko_argv(
        ws@,
        digest_file@,
        image@,
        dockerfile@,
        text::texts(build_args@),
    ));
    argv
}

/// The command line with which buildah builds.
pub(crate) fn buildah_build_command(
    ws: &str,
    authfile: &str,
    image: &str,
    file: &str,
    build_args: &[String],
    labels: &[String],
) -> (argv: Vec<String>)
    ensures
        text::texts(argv@) == buildah_build_argv(
            ws@,
            authfile@,
            image@,
            file@,
            text::texts(build_args@),
            text::texts(labels@),
        ),
{
    let mut argv: Vec<String> = vec![
        "buildah".to_owned(),
        "bud".to_owned(),
        "--authfile".to_owned(),
        authfile.to_owned(),
    ];
    assert(text::texts(argv@) =~= seq!["buildah"@, "bud"@, "--authfile"@, authfile@]);
    push_flagged(&mut argv, "--build-arg", build_args);
    push_flagged(&mut argv, "--label", labels);
    let ghost so_far = argv@;
    let mut rest: Vec<String> = vec![
        "-f".to_owned(),
        file.to_owned(),
        "-t".to_owned(),
        image.to_owned(),
        ws.to_owned(),
    ];
    let ghost tail = rest@;
    assert(text::texts(tail) =~= seq!["-f"@, file@, "-t"@, image@, ws@]);
    argv.append(&mut rest);
    assert(text::texts(argv@) =~= text::texts(so_far) + text::texts(tail));
    argv
}

/// The command line with which buildah pushes.
pub(crate) fn buildah_push_command(authfile: &str, digest_file: &str, image: &str) -> (argv: Vec<
    String,
>)
    ensures
        text::texts(argv@) == buildah_push_argv(authfile@, digest_file@, image@),
{
    let argv: Vec<String> = vec![
        "buildah".to_owned(),
        "push".to_owned(),
        "--authfile".to_owned(),
        authfile.to_owned(),
        "--digestfile".to_owned(),
        digest_file.to_owned(),
        image.to_owned(),
        "docker://".to_owned().concat(image),
    ];
    assert(text::texts(argv@) =~= buildah_push_argv(authfile@, digest_file@, image@));
    argv
}

/// Every digest that is reported says that it is one of SHA-256.
pub proof fn digests_are_sha256(b: Backend, raw: Seq<char>, parsed: Option<Json>)
    ensures
        reported_digest(b, raw, parsed) matches Ok(digest) ==> "sha256:"@.is_prefix_of(digest),
{
}

/// A bare digest is read back from a file that holds it and a line break.
pub proof fn bare_digest_is_read_back(b: Backend, digest: Seq<char>, parsed: Option<Json>)
    requires
        b != Backend::Buildkit,
        "sha256:"@.is_prefix_of(digest),
        !text::white_space(digest.last()),
    ensures
        reported_digest(b, digest, parsed) == Ok::<Seq<char>, DigestFault>(digest),
        reported_digest(b, digest + "\n"@, parsed) == Ok::<Seq<char>, DigestFault>(digest),
{
    reveal_strlit("sha256:");
    reveal_strlit("\n");
    assert(digest[0] == "sha256:"@[0]);
    let line = digest + "\n"@;
    assert(line.last() == '\n');
    assert(line.drop_last() =~= digest);
}

/// Of the metadata of buildkit, the field with the digest of the image counts, whatever other
/// fields there are.
pub proof fn metadata_name_the_digest(
    fields: Map<Seq<char>, Json>,
    raw: Seq<char>,
    digest: Seq<char>,
)
    requires
        fields.contains_key("containerimage.digest"@),
        fields["containerimage.digest"@] == Json::Text(digest),
    ensures
        "sha256:"@.is_prefix_of(digest) ==> reported_digest(
            Backend::Buildkit,
            raw,
            Some(Json::Object(fields)),
        ) == Ok::<Seq<char>, DigestFault>(digest),
        !"sha256:"@.is_prefix_of(digest) ==> reported_digest(
            Backend::Buildkit,
            raw,
            Some(Json::Object(fields)),
        ) == Err::<Seq<char>, DigestFault>(DigestFault::Unexpected(digest)),
{
}

/// Metadata without a text in that field name no digest, and what is no document has none.
pub proof fn metadata_name_no_digest(doc: Json, raw: Seq<char>)
    requires
        doc matches Json::Object(fields) ==> !fields.contains_key("containerimage.digest"@)
            || !(fields["containerimage.digest"@] is Text),
    ensures
        reported_digest(Backend::Buildkit, raw, Some(doc)) == Err::<Seq<char>, DigestFault>(
            DigestFault::Missing,
        ),
        reported_digest(Backend::Buildkit, raw, None) == Err::<Seq<char>, DigestFault>(
            DigestFault::Metadata,
        ),
{
}

/// The other builders leave the bare digest: what stands between the white space at the two
/// ends is accepted where it says that it is one of SHA-256, and named where it does not.
pub proof fn bare_digest_is_checked(
    b: Backend,
    before: Seq<char>,
    digest: Seq<char>,
    behind: Seq<char>,
    parsed: Option<Json>,
)
    requires
        b != Backend::Buildkit,
        digest.len() > 0,
        !text::white_space(digest[0]),
        !text::white_space(digest.last()),
        forall|i: int| 0 <= i < before.len() ==> text::white_space(#[trigger] before[i]),
        forall|i: int| 0 <= i < behind.len() ==> text::white_space(#[trigger] behind[i]),
    ensures
        reported_digest(b, before + digest + behind, parsed) == (if "sha256:"@.is_prefix_of(digest) {
            Ok::<Seq<char>, DigestFault>(digest)
        } else {
            Err(DigestFault::Unexpected(digest))
        }),
{
    text::ends_are_trimmed(before, digest, behind);
}

/// A result with a digest says the digest, one without it the fault.
pub proof fn digest_result_says(digest: String, fault: DigestError)
    ensures
        digest_result(Ok(digest)) == Ok::<Seq<char>, DigestFault>(digest@),
        digest_result(Err(fault)) == Err::<Seq<char>, DigestFault>(fault@),
        fault matches DigestError::Unexpected(d) ==> fault@ == DigestFault::Unexpected(d@),
        fault is Missing ==> fault@ is Missing,
        fault is Metadata ==> fault@ is Metadata,
{
}

/// The words of command lines are those of their strings, one for one.
pub proof fn argvs_are_one_for_one(steps: Seq<Vec<String>>)
    ensures
        argvs(steps).len() == steps.len(),
        forall|i: int, j: int|
            0 <= i < steps.len() && 0 <= j < steps[i]@.len() ==> argvs(steps)[i][j] == (
            #[trigger] steps[i]@[j])@,
        forall|i: int| 0 <= i < steps.len() ==> argvs(steps)[i].len() == (#[trigger] steps[i])@.len(),
{
}

}
