//! Image references, and the image in which the registry keeps a build context.

use vstd::prelude::*;

use oci_client::Reference;
use sha2::{Digest, Sha256};

use crate::auth;
use crate::json;
use crate::json::{
    list_value, no_fields, object_value, put, text_fields_value, text_value, write_json, Json,
};
use crate::numeral;
use crate::numeral::hex;
use crate::text;
use crate::text::{chars_of, copied_pairs, find_last, same_text, starts_with};

verus! {

broadcast use vstd::string::group_string_axioms;

/// Why a registry cannot be asked.
#[derive(Debug)]
pub enum OciError {
    /// The reference of the context is none.
    ContextReference(oci_client::ParseError),
    /// The reference of the image is none.
    ImageReference(oci_client::ParseError),
    /// The config of the context image could not be written.
    Unwritable(serde_json::Error),
}

/// What an `OciError` says.
pub enum OciFault {
    ContextReference,
    ImageReference,
    Unwritable,
}

impl View for OciError {
    type V = OciFault;

    open spec fn view(&self) -> OciFault {
        match self {
            OciError::ContextReference(_) => OciFault::ContextReference,
            OciError::ImageReference(_) => OciFault::ImageReference,
            OciError::Unwritable(_) => OciFault::Unwritable,
        }
    }
}

impl OciError {
    /// What went wrong, in words.
    pub fn message(&self) -> (m: String)
        ensures
            m@ == match self@ {
                OciFault::ContextReference => "parsing context reference"@,
                OciFault::ImageReference => "parsing image reference"@,
                OciFault::Unwritable => "writing context config"@,
            },
    {
        match self {
            OciError::ContextReference(_) => "parsing context reference".to_owned(),
            OciError::ImageReference(_) => "parsing image reference".to_owned(),
            OciError::Unwritable(_) => "writing context config".to_owned(),
        }
    }
}

/// The repository of an image reference: without the tag, which is behind a colon that no slash
/// follows. A colon before a slash is that of a port.
pub open spec fn repo_in(image: Seq<char>) -> Seq<char> {
    if text::last_at(image, ':') > text::last_at(image, '/') {
        image.take(text::last_at(image, ':'))
    } else {
        image
    }
}

/// The repository of an image reference: quay.io/foo of quay.io/foo:tag.
pub fn repo_of(image: &str) -> (repo: &str)
    ensures
        repo@ == repo_in(image@),
{
    let chars = chars_of(image);
    let slash = find_last(chars.as_slice(), '/');
    let end: usize = match find_last(chars.as_slice(), ':') {
        Some(colon) => match slash {
            Some(s) => if colon > s {
                colon
            } else {
                chars.len()
            },
            None => colon,
        },
        None => chars.len(),
    };
    let repo = image.substring_char(0, end);
    proof {
        text::last_at_finds(image@, ':');
        text::last_at_finds(image@, '/');
    }
    assert(repo@ =~= image@.take(end as int));
    assert(image@.take(image@.len() as int) =~= image@);
    repo
}

/// The SHA-256 digest of bytes.
pub uninterp spec fn sha256(data: Seq<u8>) -> Seq<u8>;

/// `sha2::Digest::digest` of `Sha256`: the 32 bytes of the digest, which rest on the data
/// alone.
#[verifier::external_body]
pub(crate) fn sha256_digest(data: &[u8]) -> (digest: Vec<u8>)
    ensures
        digest@ == sha256(data@),
        digest@.len() == 32,
{
    Sha256::digest(data).to_vec()
}

/// The reference of a context with the given digest, in the repository of the image.
pub open spec fn context_ref(image: Seq<char>, digest: Seq<u8>) -> Seq<char> {
    repo_in(image) + ":buildit-ctx-"@ + numeral::hex_of(digest).take(12)
}

/// The reference of a context with the given digest, in the repository of the image.
pub fn context_reference_for(image: &str, digest: &[u8]) -> (r: String)
    requires
        digest@.len() >= 6,
    ensures
        r@ == context_ref(image@, digest@),
{
    let hash = hex(digest);
    let short = hash.as_str().substring_char(0, 12);
    assert(short@ =~= numeral::hex_of(digest@).take(12));
    repo_of(image).to_owned().concat(":buildit-ctx-").concat(short)
}

/// The reference under which the registry keeps the context: the same tree gets the same tag,
/// so that pushing it again costs nothing.
pub fn context_reference(image: &str, tar: &[u8]) -> (r: String)
    ensures
        r@ == context_ref(image@, sha256(tar@)),
        sha256(tar@).len() == 32,
        repo_in(r@) == repo_in(image@),
        r@.len() == repo_in(image@).len() + ":buildit-ctx-"@.len() + 12,
{
    let digest = sha256_digest(tar);
    proof {
        context_is_in_repo(image@, digest@);
    }
    context_reference_for(image, digest.as_slice())
}

/// Whether the registry is one of quay, which prune images by a label.
pub open spec fn is_quay(registry: Seq<char>) -> bool {
    registry == "quay.io"@ || "quay."@.is_prefix_of(registry)
}

/// The labels that a context image gets by itself.
pub open spec fn default_labels_of(registry: Seq<char>) -> Seq<(Seq<char>, Seq<char>)> {
    if is_quay(registry) {
        seq![("quay.expires-after"@, "2w"@)]
    } else {
        Seq::empty()
    }
}

/// The labels that a context image gets by itself: on a quay registry one that has it pruned
/// after two weeks, elsewhere none.
pub fn default_context_labels(registry: &str) -> (labels: Vec<(String, String)>)
    ensures
        text::pairs(labels@) == default_labels_of(registry@),
{
    let mut labels: Vec<(String, String)> = Vec::new();
    if same_text(registry, "quay.io") || starts_with(registry, "quay.") {
        labels.push(("quay.expires-after".to_owned(), "2w".to_owned()));
    }
    assert(text::pairs(labels@) =~= default_labels_of(registry@));
    labels
}

/// The labels of a context image: those it gets by itself, then those asked for.
pub fn context_labels(registry: &str, asked: &[(String, String)]) -> (labels: Vec<
    (String, String),
>)
    ensures
        text::pairs(labels@) == default_labels_of(registry@) + text::pairs(asked@),
{
    let mut labels = default_context_labels(registry);
    let ghost own = labels@;
    let mut rest = copied_pairs(asked);
    labels.append(&mut rest);
    assert(text::pairs(labels@) =~= text::pairs(own) + text::pairs(asked@));
    labels
}

/// The name of a layer: its digest.
pub open spec fn layer_id(digest: Seq<u8>) -> Seq<char> {
    "sha256:"@ + numeral::hex_of(digest)
}

/// The config of an image with one layer.
pub open spec fn config_json(digest: Seq<u8>, labels: Seq<(Seq<char>, Seq<char>)>) -> Json {
    let config = json::blank().insert("Labels"@, Json::Object(json::text_fields(labels)));
    let rootfs = json::blank().insert("type"@, Json::Text("layers"@)).insert(
        "diff_ids"@,
        json::text_list(seq![layer_id(digest)]),
    );
    Json::Object(
        json::blank().insert("architecture"@, Json::Text("amd64"@)).insert(
            "os"@,
            Json::Text("linux"@),
        ).insert("config"@, Json::Object(config)).insert("rootfs"@, Json::Object(rootfs)),
    )
}

/// The config of an image whose one layer has the digest.
pub fn config_for(digest: &[u8], labels: &[(String, String)]) -> (r: Result<
    Vec<u8>,
    serde_json::Error,
>)
    ensures
        r is Ok,
        r->Ok_0@ == json::json_bytes(config_json(digest@, text::pairs(labels@))),
{
    let diff_id = "sha256:".to_owned().concat(hex(digest).as_str());
    let mut config = no_fields();
    put(&mut config, "Labels", text_fields_value(labels));
    let mut ids: Vec<serde_json::Value> = Vec::new();
    ids.push(text_value(diff_id.as_str()));
    assert(json::trees_of(ids@) =~= seq![layer_id(digest@)].map_values(
        |s: Seq<char>| Json::Text(s),
    ));
    let mut rootfs = no_fields();
    put(&mut rootfs, "type", text_value("layers"));
    put(&mut rootfs, "diff_ids", list_value(ids));
    let mut file = no_fields();
    put(&mut file, "architecture", text_value("amd64"));
    put(&mut file, "os", text_value("linux"));
    put(&mut file, "config", object_value(config));
    put(&mut file, "rootfs", object_value(rootfs));
    write_json(&object_value(file))
}

/// What is left to push of a context: nothing where the registry has the reference already,
/// else an image whose one layer is the archive as it is, so that one digest serves for both
/// the layer and its contents. A change of labels alone pushes nothing.
pub fn push_context(in_registry: bool, tar: &[u8], labels: &[(String, String)]) -> (r: Result<
    Option<Vec<u8>>,
    OciError,
>)
    ensures
        r is Ok,
        r->Ok_0 is None <==> in_registry,
        r->Ok_0 matches Some(config) ==> config@ == json::json_bytes(
            config_json(sha256(tar@), text::pairs(labels@)),
        ),
{
    if in_registry {
        return Ok(None);
    }
    let digest = sha256_digest(tar);
    match config_for(digest.as_slice(), labels) {
        Ok(config) => Ok(Some(config)),
        Err(e) => Err(OciError::Unwritable(e)),
    }
}

/// A reference as `oci_client` holds it.
#[verifier::external_type_specification]
#[verifier::external_body]
pub struct ExReference(oci_client::Reference);

/// Why `oci_client` takes a text for no reference.
#[verifier::external_type_specification]
#[verifier::external_body]
pub struct ExParseError(oci_client::ParseError);

/// The reference that a text spells, where `oci_client` takes it for one.
pub uninterp spec fn parsed_reference(s: Seq<char>) -> Option<oci_client::Reference>;

/// `str::parse` of `oci_client::Reference`: the reference that a text spells, or that it spells
/// none. It rests on the text alone.
#[verifier::external_body]
pub(crate) fn parse_reference(s: &str) -> (r: Result<oci_client::Reference, oci_client::ParseError>)
    ensures
        match r {
            Ok(reference) => parsed_reference(s@) == Some(reference),
            Err(_) => parsed_reference(s@) is None,
        },
{
    s.parse::<Reference>()
}

/// Where a context is pushed to.
pub fn context_target(ctx_ref: &str) -> (r: Result<oci_client::Reference, OciError>)
    ensures
        match parsed_reference(ctx_ref@) {
            Some(reference) => r == Ok::<oci_client::Reference, OciError>(reference),
            None => r is Err && r->Err_0@ == OciFault::ContextReference,
        },
{
    match parse_reference(ctx_ref) {
        Ok(reference) => Ok(reference),
        Err(e) => Err(OciError::ContextReference(e)),
    }
}

/// Where the digest of an image is asked for.
pub fn image_target(image: &str) -> (r: Result<oci_client::Reference, OciError>)
    ensures
        match parsed_reference(image@) {
            Some(reference) => r == Ok::<oci_client::Reference, OciError>(reference),
            None => r is Err && r->Err_0@ == OciFault::ImageReference,
        },
{
    match parse_reference(image) {
        Ok(reference) => Ok(reference),
        Err(e) => Err(OciError::ImageReference(e)),
    }
}

proof fn hex_has_no_mark(bytes: Seq<u8>, n: int, c: char)
    requires
        0 <= n <= 2 * bytes.len(),
        c == ':' || c == '/',
    ensures
        forall|i: int| 0 <= i < n ==> numeral::hex_of(bytes).take(n)[i] != c,
{
    reveal_strlit("0123456789abcdef");
    assert forall|i: int| 0 <= i < n implies numeral::hex_of(bytes).take(n)[i] != c by {
        let b = bytes[i / 2];
        let d = if i % 2 == 0 {
            b / 16
        } else {
            b % 16
        } as int;
        assert(numeral::hex_of(bytes)[i] == numeral::hex_digit(d));
        assert(0 <= d < 16);
    }
}

/// The repository of a text that is a repository, a colon and a tag.
proof fn repo_before_tag(repo: Seq<char>, tag: Seq<char>)
    requires
        forall|i: int| 0 <= i < tag.len() ==> tag[i] != ':' && tag[i] != '/',
    ensures
        repo_in(repo + seq![':'] + tag) == repo,
{
    let image = repo + seq![':'] + tag;
    assert(image[repo.len() as int] == ':');
    assert forall|j: int| repo.len() < j < image.len() implies image[j] != ':' && image[j] != '/' by {
        assert(image[j] == tag[j - repo.len() - 1]);
    }
    text::last_at_is(image, ':', repo.len() as int);
    text::last_at_finds(image, '/');
    assert(image.take(repo.len() as int) =~= repo);
}

/// A context goes to the repository of the image.
pub proof fn context_is_in_repo(image: Seq<char>, digest: Seq<u8>)
    requires
        digest.len() >= 6,
    ensures
        repo_in(context_ref(image, digest)) == repo_in(image),
{
    let short = numeral::hex_of(digest).take(12);
    let tag = "buildit-ctx-"@ + short;
    reveal_strlit("buildit-ctx-");
    reveal_strlit(":buildit-ctx-");
    hex_has_no_mark(digest, 12, ':');
    hex_has_no_mark(digest, 12, '/');
    assert forall|i: int| 0 <= i < tag.len() implies tag[i] != ':' && tag[i] != '/' by {
        if i >= 12 {
            assert(tag[i] == short[i - 12]);
        }
    }
    repo_before_tag(repo_in(image), tag);
    assert(context_ref(image, digest) =~= repo_in(image) + seq![':'] + tag);
}

/// The tag of a context ends in lower-case hexadecimal digits.
pub proof fn context_tag_is_hex(image: Seq<char>, digest: Seq<u8>, i: int)
    requires
        digest.len() >= 6,
        0 <= i < 12,
    ensures
        ({
            let r = context_ref(image, digest);
            let c = r[r.len() - 12 + i];
            '0' <= c <= '9' || 'a' <= c <= 'f'
        }),
{
    reveal_strlit("0123456789abcdef");
    let b = digest[i / 2];
    let d = if i % 2 == 0 {
        b / 16
    } else {
        b % 16
    } as int;
    assert(numeral::hex_of(digest)[i] == numeral::hex_digit(d));
    assert(0 <= d < 16);
}

/// One tree has one reference in one repository, whatever the tag of the image.
pub proof fn same_tree_same_reference(image: Seq<char>, other: Seq<char>, tar: Seq<u8>)
    requires
        repo_in(image) == repo_in(other),
    ensures
        context_ref(image, sha256(tar)) == context_ref(other, sha256(tar)),
{
}

/// Contexts whose digests differ in the first six bytes have different references.
pub proof fn references_tell_digests_apart(image: Seq<char>, a: Seq<u8>, b: Seq<u8>)
    requires
        a.len() >= 6,
        b.len() >= 6,
        context_ref(image, a) == context_ref(image, b),
    ensures
        a.take(6) == b.take(6),
{
    let head = repo_in(image) + ":buildit-ctx-"@;
    assert forall|i: int| 0 <= i < 12 implies numeral::hex_of(a).take(12)[i] == numeral::hex_of(
        b,
    ).take(12)[i] by {
        assert(context_ref(image, a)[head.len() + i] == numeral::hex_of(a).take(12)[i]);
        assert(context_ref(image, b)[head.len() + i] == numeral::hex_of(b).take(12)[i]);
    }
    assert(numeral::hex_of(a).take(12) =~= numeral::hex_of(b).take(12));
    numeral::hex_tells_bytes_apart(a, b, 6);
}

/// The first part of a reference is that of its repository, with whatever follows.
pub proof fn first_part_is_of_repo(image: Seq<char>, tail: Seq<char>)
    requires
        image.contains('/'),
    ensures
        auth::first_part(repo_in(image) + tail) == auth::first_part(image),
        (repo_in(image) + tail).contains('/'),
{
    let repo = repo_in(image);
    let at = text::first_at(image, '/');
    text::first_at_finds(image, '/');
    text::last_at_finds(image, '/');
    text::last_at_finds(image, ':');
    let k = image.index_of('/');
    assert(image[k] == '/');
    assert(at < repo.len());
    assert((repo + tail)[at] == '/');
    text::first_at_is(repo + tail, '/', at);
    assert((repo + tail).take(at) =~= image.take(at));
}

/// A context goes to the registry of the image, so that the credentials for the one serve for
/// the other.
pub proof fn context_is_in_registry(image: Seq<char>, digest: Seq<u8>)
    requires
        auth::registry_in(image) is Ok,
    ensures
        auth::registry_in(context_ref(image, digest)) == auth::registry_in(image),
{
    let tail = ":buildit-ctx-"@ + numeral::hex_of(digest).take(12);
    first_part_is_of_repo(image, tail);
    assert(context_ref(image, digest) =~= repo_in(image) + tail);
}

/// The value of the last pair with the key decides what a field says.
pub proof fn last_label_counts(
    labels: Seq<(Seq<char>, Seq<char>)>,
    key: Seq<char>,
    value: Seq<char>,
    later: Seq<(Seq<char>, Seq<char>)>,
)
    requires
        forall|i: int| 0 <= i < later.len() ==> (#[trigger] later[i]).0 != key,
    ensures
        json::text_fields(labels.push((key, value)) + later).contains_key(key),
        json::text_fields(labels.push((key, value)) + later)[key] == Json::Text(value),
    decreases later.len(),
{
    let all = labels.push((key, value)) + later;
    if later.len() == 0 {
        assert(all.drop_last() =~= labels);
        assert(all.last() == (key, value));
    } else {
        let fewer = later.drop_last();
        last_label_counts(labels, key, value, fewer);
        assert(all.drop_last() =~= labels.push((key, value)) + fewer);
        assert(all.last() == later.last());
        assert(later[later.len() - 1].0 != key);
    }
}

/// A label asked for takes the place of one that the context image gets by itself.
pub proof fn asked_label_overrides(
    registry: Seq<char>,
    before: Seq<(Seq<char>, Seq<char>)>,
    key: Seq<char>,
    value: Seq<char>,
    later: Seq<(Seq<char>, Seq<char>)>,
)
    requires
        forall|i: int| 0 <= i < later.len() ==> (#[trigger] later[i]).0 != key,
    ensures
        json::text_fields(default_labels_of(registry) + (before.push((key, value)) + later))[key]
            == Json::Text(value),
{
    let own = default_labels_of(registry);
    last_label_counts(own + before, key, value, later);
    assert(own + (before.push((key, value)) + later) =~= (own + before).push((key, value)) + later);
}

/// A tag, which holds neither a colon nor a slash, is no part of the repository.
pub proof fn tag_is_no_part_of_repo(repo: Seq<char>, tag: Seq<char>)
    requires
        !tag.contains(':'),
        !tag.contains('/'),
    ensures
        repo_in(repo + ":"@ + tag) == repo,
{
    reveal_strlit(":");
    assert forall|i: int| 0 <= i < tag.len() implies tag[i] != ':' && tag[i] != '/' by {
        assert(tag.contains(tag[i]));
    }
    assert(repo + ":"@ + tag =~= repo + seq![':'] + tag);
    repo_before_tag(repo, tag);
}

/// Without a colon behind the last slash a reference is its own repository: a colon before a
/// slash is that of a port.
pub proof fn untagged_is_its_own_repo(before: Seq<char>, name: Seq<char>)
    requires
        !name.contains(':'),
        !name.contains('/'),
    ensures
        repo_in(name) == name,
        repo_in(before + "/"@ + name) == before + "/"@ + name,
{
    reveal_strlit("/");
    let image = before + "/"@ + name;
    assert(image[before.len() as int] == '/');
    assert forall|j: int| before.len() < j < image.len() implies image[j] != ':' && image[j]
        != '/' by {
        assert(image[j] == name[j - before.len() - 1]);
        assert(name.contains(image[j]));
    }
    text::last_at_is(image, '/', before.len() as int);
    text::last_at_finds(image, ':');
    text::last_at_finds(name, ':');
    text::last_at_finds(name, '/');
    if text::last_at(name, ':') >= 0 {
        assert(name.contains(name[text::last_at(name, ':')]));
    }
}

/// The reference of a context is the repository, a mark, and the first six bytes of the digest
/// in two digits each, whatever tag the image has.
pub proof fn context_reference_spells_digest(
    repo: Seq<char>,
    tag: Seq<char>,
    digest: Seq<u8>,
    i: int,
)
    requires
        !tag.contains(':'),
        !tag.contains('/'),
        digest.len() >= 6,
        0 <= i < 6,
    ensures
        ({
            let r = context_ref(repo + ":"@ + tag, digest);
            let head = repo + ":buildit-ctx-"@;
            &&& r.len() == head.len() + 12
            &&& head.is_prefix_of(r)
            &&& 16 * numeral::hex_value(r[head.len() + 2 * i]) + numeral::hex_value(
                r[head.len() + 2 * i + 1],
            ) == digest[i]
        }),
{
    tag_is_no_part_of_repo(repo, tag);
    numeral::hex_is_read_back(digest, i);
    let r = context_ref(repo + ":"@ + tag, digest);
    let head = repo + ":buildit-ctx-"@;
    let hex = numeral::hex_of(digest);
    assert(r.subrange(0, head.len() as int) =~= head);
    assert(r[head.len() + 2 * i] == hex[2 * i]);
    assert(r[head.len() + 2 * i + 1] == hex[2 * i + 1]);
}

/// On a quay registry a context image expires after two weeks by itself; elsewhere it has no
/// label of its own.
pub proof fn quay_expires_contexts(rest: Seq<char>, other: Seq<char>)
    requires
        !"quay."@.is_prefix_of(other),
    ensures
        default_labels_of("quay."@ + rest).len() == 1,
        default_labels_of("quay."@ + rest)[0] == ("quay.expires-after"@, "2w"@),
        default_labels_of("quay.io"@) == default_labels_of("quay."@ + rest),
        default_labels_of(other).len() == 0,
{
    reveal_strlit("quay.");
    reveal_strlit("quay.io");
    assert(("quay."@ + rest).subrange(0, 5) =~= "quay."@);
    assert("quay.io"@.subrange(0, 5) =~= "quay."@);
}

/// The label by which quay expires a context stays, unless one of that name is asked for.
pub proof fn own_label_stays(rest: Seq<char>, asked: Seq<(Seq<char>, Seq<char>)>)
    requires
        forall|i: int| 0 <= i < asked.len() ==> (#[trigger] asked[i]).0 != "quay.expires-after"@,
    ensures
        json::text_fields(default_labels_of("quay."@ + rest) + asked).contains_key(
            "quay.expires-after"@,
        ),
        json::text_fields(default_labels_of("quay."@ + rest) + asked)["quay.expires-after"@]
            == Json::Text("2w"@),
{
    reveal_strlit("quay.");
    assert(("quay."@ + rest).subrange(0, 5) =~= "quay."@);
    let own = Seq::<(Seq<char>, Seq<char>)>::empty().push(("quay.expires-after"@, "2w"@));
    assert(default_labels_of("quay."@ + rest) =~= own);
    last_label_counts(Seq::empty(), "quay.expires-after"@, "2w"@, asked);
}

/// No field is there but those that a label names.
pub proof fn only_labels_are_fields(labels: Seq<(Seq<char>, Seq<char>)>, key: Seq<char>)
    requires
        forall|i: int| 0 <= i < labels.len() ==> (#[trigger] labels[i]).0 != key,
    ensures
        !json::text_fields(labels).contains_key(key),
    decreases labels.len(),
{
    if labels.len() > 0 {
        let fewer = labels.drop_last();
        assert forall|i: int| 0 <= i < fewer.len() implies (#[trigger] fewer[i]).0 != key by {
            assert(labels[i].0 != key);
        }
        only_labels_are_fields(fewer, key);
        assert(labels[labels.len() - 1].0 != key);
    }
}

/// The config of a context image says for which machine it is, names its one layer by the
/// digest, and holds each label under the value that it was last given.
pub proof fn config_says(
    digest: Seq<u8>,
    before: Seq<(Seq<char>, Seq<char>)>,
    key: Seq<char>,
    value: Seq<char>,
    later: Seq<(Seq<char>, Seq<char>)>,
)
    requires
        forall|i: int| 0 <= i < later.len() ==> (#[trigger] later[i]).0 != key,
    ensures
        ({
            let doc = config_json(digest, before.push((key, value)) + later);
            &&& json::field(doc, "architecture"@) == Some(Json::Text("amd64"@))
            &&& json::field(doc, "os"@) == Some(Json::Text("linux"@))
            &&& json::field(doc, "config"@) matches Some(config)
            &&& json::field(config, "Labels"@) matches Some(labels)
            &&& json::field(labels, key) == Some(Json::Text(value))
            &&& json::field(doc, "rootfs"@) matches Some(rootfs)
            &&& json::field(rootfs, "type"@) == Some(Json::Text("layers"@))
            &&& json::field(rootfs, "diff_ids"@) matches Some(Json::List(ids))
            &&& ids.len() == 1
            &&& ids[0] == Json::Text("sha256:"@ + numeral::hex_of(digest))
        }),
{
    reveal_strlit("architecture");
    reveal_strlit("os");
    reveal_strlit("config");
    reveal_strlit("rootfs");
    reveal_strlit("type");
    reveal_strlit("diff_ids");
    assert("architecture"@.len() == 12);
    assert("os"@.len() == 2);
    assert("config"@.len() == 6 && "config"@[0] == 'c');
    assert("rootfs"@.len() == 6 && "rootfs"@[0] == 'r');
    assert("type"@.len() == 4);
    assert("diff_ids"@.len() == 8);
    last_label_counts(before, key, value, later);
}

/// The config of a context image says nothing else.
pub proof fn config_says_nothing_else(
    digest: Seq<u8>,
    labels: Seq<(Seq<char>, Seq<char>)>,
    key: Seq<char>,
)
    ensures
        ({
            let doc = config_json(digest, labels);
            &&& json::field(doc, key) is Some ==> key == "architecture"@ || key == "os"@ || key
                == "config"@ || key == "rootfs"@
            &&& json::field(doc, "config"@) matches Some(config)
            &&& json::field(config, key) is Some ==> key == "Labels"@
            &&& json::field(doc, "rootfs"@) matches Some(rootfs)
            &&& json::field(rootfs, key) is Some ==> key == "type"@ || key == "diff_ids"@
        }),
{
    reveal_strlit("config");
    reveal_strlit("rootfs");
    assert("config"@[0] == 'c' && "rootfs"@[0] == 'r');
}

}
