//! Registry credentials: which registry an image goes to, and the one token that is shipped.

use vstd::prelude::*;

use base64::engine::general_purpose::STANDARD;
use base64::Engine;

use crate::json;
use crate::json::{no_fields, object_value, put, text_value, write_json, Json};
use crate::text;
use crate::text::{chars_of, find_first, same_text, split_once};

verus! {

broadcast use vstd::string::group_string_axioms;

/// Why there are no credentials.
#[derive(Debug)]
pub enum AuthError {
    /// The image does not say which registry it goes to.
    Unqualified(String),
    /// The docker config holds no token for the registry.
    NoInlineAuth(String),
    /// The authfile could not be written.
    Unwritable(serde_json::Error),
    /// The token is not base64.
    Encoding(base64::DecodeError),
    /// The token is base64 of something that is no text.
    NotUtf8(std::string::FromUtf8Error),
    /// The token for the registry is the base64 of a text without a colon.
    NotPair(String),
}

/// What an `AuthError` says.
pub enum AuthFault {
    Unqualified(Seq<char>),
    NoInlineAuth(Seq<char>),
    Unwritable,
    Encoding,
    NotUtf8,
    NotPair(Seq<char>),
}

impl View for AuthError {
    type V = AuthFault;

    open spec fn view(&self) -> AuthFault {
        match self {
            AuthError::Unqualified(image) => AuthFault::Unqualified(image@),
            AuthError::NoInlineAuth(registry) => AuthFault::NoInlineAuth(registry@),
            AuthError::Unwritable(_) => AuthFault::Unwritable,
            AuthError::Encoding(_) => AuthFault::Encoding,
            AuthError::NotUtf8(_) => AuthFault::NotUtf8,
            AuthError::NotPair(registry) => AuthFault::NotPair(registry@),
        }
    }
}

impl AuthError {
    /// What went wrong, in words.
    pub fn message(&self) -> (m: String)
        ensures
            m@ == match self@ {
                AuthFault::Unqualified(image) => "image ref "@ + image
                    + " is not fully qualified; use e.g. quay.io/acme/foo:tag so buildit knows which registry credential to ship"@,
                AuthFault::NoInlineAuth(registry) => "no inline auth for "@ + registry
                    + " in ~/.docker/config.json (run `docker login "@ + registry
                    + "`; a macOS credsStore won't write an inline token)"@,
                AuthFault::Unwritable => "serializing authfile"@,
                AuthFault::Encoding => "decoding auth entry"@,
                AuthFault::NotUtf8 => "auth entry is not utf-8"@,
                AuthFault::NotPair(registry) => "auth entry for "@ + registry
                    + " is not user:pass shaped"@,
            },
    {
        match self {
            AuthError::Unqualified(image) => "image ref ".to_owned().concat(image.as_str()).concat(
                " is not fully qualified; use e.g. quay.io/acme/foo:tag so buildit knows which registry credential to ship",
            ),
            AuthError::NoInlineAuth(registry) => "no inline auth for ".to_owned().concat(
                registry.as_str(),
            ).concat(" in ~/.docker/config.json (run `docker login ").concat(
                registry.as_str(),
            ).concat("`; a macOS credsStore won't write an inline token)"),
            AuthError::Unwritable(_) => "serializing authfile".to_owned(),
            AuthError::Encoding(_) => "decoding auth entry".to_owned(),
            AuthError::NotUtf8(_) => "auth entry is not utf-8".to_owned(),
            AuthError::NotPair(registry) => "auth entry for ".to_owned().concat(
                registry.as_str(),
            ).concat(" is not user:pass shaped"),
        }
    }
}

/// The part of an image reference before its first slash.
pub open spec fn first_part(image: Seq<char>) -> Seq<char> {
    image.take(text::first_at(image, '/'))
}

/// Whether the first part of a reference is a registry, and no user of a default one.
pub open spec fn names_registry(first: Seq<char>) -> bool {
    first.contains('.') || first.contains(':') || first == "localhost"@
}

/// The registry that an image goes to. A reference without a slash names none: a colon in it is
/// that of a tag.
pub open spec fn registry_in(image: Seq<char>) -> Result<Seq<char>, AuthFault> {
    if image.contains('/') && names_registry(first_part(image)) {
        Ok(first_part(image))
    } else {
        Err(AuthFault::Unqualified(image))
    }
}

/// What a result with a string says.
pub open spec fn text_result(r: Result<String, AuthError>) -> Result<Seq<char>, AuthFault> {
    match r {
        Ok(s) => Ok(s@),
        Err(e) => Err(e@),
    }
}

/// What a result with two strings says.
pub open spec fn pair_result(r: Result<(String, String), AuthError>) -> Result<
    (Seq<char>, Seq<char>),
    AuthFault,
> {
    match r {
        Ok(p) => Ok((p.0@, p.1@)),
        Err(e) => Err(e@),
    }
}

/// The registry that an image goes to. References must be fully qualified, so that it is clear
/// whose credentials to ship.
pub fn registry_of(image: &str) -> (r: Result<String, AuthError>)
    ensures
        text_result(r) == registry_in(image@),
{
    let chars = chars_of(image);
    let end: usize = match find_first(chars.as_slice(), '/') {
        Some(i) => i,
        None => return Err(AuthError::Unqualified(image.to_owned())),
    };
    let first = image.substring_char(0, end);
    assert(first@ =~= first_part(image@));
    let part = chars_of(first);
    if find_first(part.as_slice(), '.').is_some() || find_first(part.as_slice(), ':').is_some()
        || same_text(first, "localhost") {
        Ok(first.to_owned())
    } else {
        Err(AuthError::Unqualified(image.to_owned()))
    }
}

/// The part of a docker config that holds tokens: for each registry the inline token, where
/// there is one. What was put in later counts.
pub struct DockerConfig {
    auths: Vec<(String, Option<String>)>,
}

/// The tokens by registry.
pub open spec fn tokens_in(auths: Seq<(String, Option<String>)>) -> Map<
    Seq<char>,
    Option<Seq<char>>,
>
    decreases auths.len(),
{
    if auths.len() == 0 {
        Map::empty()
    } else {
        tokens_in(auths.drop_last()).insert(auths.last().0@, text::opt_text(auths.last().1))
    }
}

impl View for DockerConfig {
    type V = Map<Seq<char>, Option<Seq<char>>>;

    closed spec fn view(&self) -> Map<Seq<char>, Option<Seq<char>>> {
        tokens_in(self.auths@)
    }
}

/// The token in the entry of a registry, where it has an entry with one.
pub open spec fn token_at(
    config: Map<Seq<char>, Option<Seq<char>>>,
    key: Seq<char>,
) -> Option<Seq<char>> {
    if config.contains_key(key) {
        config[key]
    } else {
        None
    }
}

/// Whether the registry is docker hub, whose token hides under a legacy URL.
pub open spec fn is_docker_hub(registry: Seq<char>) -> bool {
    registry == "docker.io"@ || registry == "index.docker.io"@
}

/// The token for a registry.
pub open spec fn token_for(
    config: Map<Seq<char>, Option<Seq<char>>>,
    registry: Seq<char>,
) -> Option<Seq<char>> {
    if token_at(config, registry) is None && is_docker_hub(registry) {
        token_at(config, "https://index.docker.io/v1/"@)
    } else {
        token_at(config, registry)
    }
}

impl DockerConfig {
    /// The config without an entry.
    pub fn new() -> (config: DockerConfig)
        ensures
            config@ == Map::<Seq<char>, Option<Seq<char>>>::empty(),
    {
        DockerConfig { auths: Vec::new() }
    }

    /// The config with one more entry, in place of one for the same registry.
    pub fn with_entry(self, registry: String, auth: Option<String>) -> (config: DockerConfig)
        ensures
            config@ == self@.insert(registry@, text::opt_text(auth)),
    {
        let mut auths = self.auths;
        auths.push((registry, auth));
        assert(auths@.drop_last() =~= self.auths@);
        DockerConfig { auths }
    }

    /// The token in the entry of a registry.
    pub fn token(&self, key: &str) -> (token: Option<String>)
        ensures
            text::opt_text(token) == token_at(self@, key@),
    {
        let mut i: usize = self.auths.len();
        assert(self.auths@.take(i as int) =~= self.auths@);
        while i > 0
            invariant
                i <= self.auths@.len(),
                token_at(tokens_in(self.auths@.take(i as int)), key@) == token_at(self@, key@),
            decreases i,
        {
            i = i - 1;
            let ghost now = self.auths@.take(i + 1);
            assert(now.drop_last() =~= self.auths@.take(i as int));
            let entry = &self.auths[i];
            assert(now.last() == *entry);
            if same_text(entry.0.as_str(), key) {
                return match &entry.1 {
                    Some(t) => Some(t.clone()),
                    None => None,
                };
            }
        }
        None
    }
}

/// The token for the registry that the docker config holds inline.
pub fn inline_auth(config: &DockerConfig, registry: &str) -> (r: Result<String, AuthError>)
    ensures
        text_result(r) == match token_for(config@, registry@) {
            Some(token) => Ok(token),
            None => Err(AuthFault::NoInlineAuth(registry@)),
        },
{
    match config.token(registry) {
        Some(token) => Ok(token),
        None => {
            if same_text(registry, "docker.io") || same_text(registry, "index.docker.io") {
                if let Some(token) = config.token("https://index.docker.io/v1/") {
                    return Ok(token);
                }
            }
            Err(AuthError::NoInlineAuth(registry.to_owned()))
        },
    }
}

/// The entry of an authfile: a token.
pub open spec fn auth_entry_json(token: Seq<char>) -> Json {
    Json::Object(json::blank().insert("auth"@, Json::Text(token)))
}

/// An authfile with one token for one registry.
pub open spec fn authfile_json(registry: Seq<char>, token: Seq<char>) -> Json {
    Json::Object(
        json::blank().insert(
            "auths"@,
            Json::Object(json::blank().insert(registry, auth_entry_json(token))),
        ),
    )
}

proof fn authfile_is_shallow(registry: Seq<char>, token: Seq<char>)
    ensures
        json::nests_within(authfile_json(registry, token), 127),
{
    assert(json::nests_within(Json::Text(token), 124));
    let entry = json::blank().insert("auth"@, Json::Text(token));
    assert forall|k: Seq<char>| entry.contains_key(k) implies #[trigger] json::nests_within(
        entry[k],
        124,
    ) by {}
    assert(json::nests_within(auth_entry_json(token), 125));
    let auths = json::blank().insert(registry, auth_entry_json(token));
    assert forall|k: Seq<char>| auths.contains_key(k) implies #[trigger] json::nests_within(
        auths[k],
        125,
    ) by {}
    assert(json::nests_within(Json::Object(auths), 126));
}

/// The authfile for the builder: the token of the destination registry, and never the rest of
/// the docker config.
pub fn minimal_authfile_from(config: &DockerConfig, registry: &str) -> (r: Result<
    Vec<u8>,
    AuthError,
>)
    ensures
        match token_for(config@, registry@) {
            Some(token) => {
                &&& r is Ok
                &&& r->Ok_0@ == json::json_bytes(authfile_json(registry@, token))
                &&& vstd::utf8::valid_utf8(r->Ok_0@)
                &&& json::parsed_json(vstd::utf8::decode_utf8(r->Ok_0@)) == Some(
                    authfile_json(registry@, token),
                )
            },
            None => r is Err && r->Err_0@ == AuthFault::NoInlineAuth(registry@),
        },
{
    let token = match inline_auth(config, registry) {
        Ok(token) => token,
        Err(e) => return Err(e),
    };
    let mut entry = no_fields();
    put(&mut entry, "auth", text_value(token.as_str()));
    let mut auths = no_fields();
    put(&mut auths, registry, object_value(entry));
    let mut file = no_fields();
    put(&mut file, "auths", object_value(auths));
    proof {
        authfile_is_shallow(registry@, token@);
    }
    match write_json(&object_value(file)) {
        Ok(bytes) => Ok(bytes),
        Err(e) => Err(AuthError::Unwritable(e)),
    }
}

/// Why a text is not base64.
#[verifier::external_type_specification]
#[verifier::external_body]
pub struct ExDecodeError(base64::DecodeError);

/// The bytes that a text encodes in standard base64, where it is such a text.
pub uninterp spec fn base64_bytes(encoded: Seq<char>) -> Option<Seq<u8>>;

/// `base64::Engine::decode` of the standard engine: the bytes that a text encodes, or that it
/// is not base64. It rests on the text alone.
#[verifier::external_body]
pub(crate) fn decode_base64(encoded: &str) -> (r: Result<Vec<u8>, base64::DecodeError>)
    ensures
        match r {
            Ok(bytes) => base64_bytes(encoded@) == Some(bytes@),
            Err(_) => base64_bytes(encoded@) is None,
        },
{
    STANDARD.decode(encoded)
}

/// The user and the password in a token that was decoded. The password may hold colons.
pub open spec fn credentials_in(decoded: Seq<u8>, registry: Seq<char>) -> Result<
    (Seq<char>, Seq<char>),
    AuthFault,
> {
    if !vstd::utf8::valid_utf8(decoded) {
        Err(AuthFault::NotUtf8)
    } else {
        match text::cut_at(vstd::utf8::decode_utf8(decoded), ':') {
            Some(pair) => Ok(pair),
            None => Err(AuthFault::NotPair(registry)),
        }
    }
}

/// The user and the password in a token, given the bytes that it encodes.
pub open spec fn credentials_with(decoded: Option<Seq<u8>>, registry: Seq<char>) -> Result<
    (Seq<char>, Seq<char>),
    AuthFault,
> {
    match decoded {
        Some(bytes) => credentials_in(bytes, registry),
        None => Err(AuthFault::Encoding),
    }
}

/// The user and the password in a token that was decoded.
pub fn credentials_from(decoded: Vec<u8>, registry: &str) -> (r: Result<
    (String, String),
    AuthError,
>)
    ensures
        pair_result(r) == credentials_in(decoded@, registry@),
{
    match String::from_utf8(decoded) {
        Ok(both) => match split_once(both.as_str(), ':') {
            Some(pair) => Ok(pair),
            None => Err(AuthError::NotPair(registry.to_owned())),
        },
        Err(e) => Err(AuthError::NotUtf8(e)),
    }
}

/// The user and the password for the registry, out of the token in the docker config.
pub fn basic_credentials_from(config: &DockerConfig, registry: &str) -> (r: Result<
    (String, String),
    AuthError,
>)
    ensures
        pair_result(r) == match token_for(config@, registry@) {
            Some(token) => credentials_with(base64_bytes(token), registry@),
            None => Err(AuthFault::NoInlineAuth(registry@)),
        },
{
    let token = match inline_auth(config, registry) {
        Ok(token) => token,
        Err(e) => return Err(e),
    };
    match decode_base64(token.as_str()) {
        Ok(bytes) => credentials_from(bytes, registry),
        Err(e) => Err(AuthError::Encoding(e)),
    }
}

/// An authfile says nothing but the token, and names no registry but the one it is for.
pub proof fn authfile_names_one_registry(registry: Seq<char>, token: Seq<char>)
    ensures
        match authfile_json(registry, token) {
            Json::Object(file) => {
                &&& file.dom() =~= set!["auths"@]
                &&& match file["auths"@] {
                    Json::Object(auths) => {
                        &&& auths.dom() =~= set![registry]
                        &&& auths[registry] == auth_entry_json(token)
                    },
                    _ => false,
                }
            },
            _ => false,
        },
{
}

/// What is shipped rests on the entry of the destination registry alone, and on the legacy
/// entry for docker hub: whatever else the config holds, the token is the same.
pub proof fn other_entries_stay_home(
    config: Map<Seq<char>, Option<Seq<char>>>,
    other: Map<Seq<char>, Option<Seq<char>>>,
    registry: Seq<char>,
)
    requires
        token_at(config, registry) == token_at(other, registry),
        is_docker_hub(registry) ==> token_at(config, "https://index.docker.io/v1/"@) == token_at(
            other,
            "https://index.docker.io/v1/"@,
        ),
    ensures
        token_for(config, registry) == token_for(other, registry),
{
}

/// What follows the first slash of a reference has no bearing on the registry.
pub proof fn registry_is_first_part(first: Seq<char>, rest: Seq<char>)
    requires
        !first.contains('/'),
    ensures
        first_part(first + seq!['/'] + rest) == first,
        names_registry(first) ==> registry_in(first + seq!['/'] + rest) == Ok::<
            Seq<char>,
            AuthFault,
        >(first),
{
    let image = first + seq!['/'] + rest;
    assert(image[first.len() as int] == '/');
    text::first_at_is(image, '/', first.len() as int);
    assert(image.take(first.len() as int) =~= first);
}

/// A name without a slash says nothing of a registry, tagged or not.
pub proof fn short_names_are_unqualified(image: Seq<char>)
    requires
        !image.contains('/'),
    ensures
        registry_in(image) == Err::<Seq<char>, AuthFault>(AuthFault::Unqualified(image)),
{
}

/// User and password come back out of a token, whatever colons the password holds, where the
/// user holds none.
pub proof fn credentials_are_read_back(user: Seq<char>, password: Seq<char>, registry: Seq<char>)
    requires
        !user.contains(':'),
    ensures
        credentials_in(vstd::utf8::encode_utf8(user + seq![':'] + password), registry) == Ok::<
            (Seq<char>, Seq<char>),
            AuthFault,
        >((user, password)),
{
    let both = user + seq![':'] + password;
    vstd::utf8::encode_utf8_valid_utf8(both);
    vstd::utf8::encode_utf8_decode_utf8(both);
    text::first_at_is(both, ':', user.len() as int);
    assert(both[user.len() as int] == ':');
    assert(both.take(user.len() as int) =~= user);
    assert(both.skip(user.len() as int + 1) =~= password);
}

/// A first part names a registry where it holds a dot, holds a colon, or is the local host; no
/// other does, and what follows the slash has no bearing on it.
pub proof fn registry_by_its_characters(first: Seq<char>, rest: Seq<char>)
    requires
        !first.contains('/'),
    ensures
        registry_in(first + "/"@ + rest) == (if (exists|i: int|
            0 <= i < first.len() && (#[trigger] first[i] == '.' || first[i] == ':')) || first
            == "localhost"@ {
            Ok::<Seq<char>, AuthFault>(first)
        } else {
            Err(AuthFault::Unqualified(first + "/"@ + rest))
        }),
{
    reveal_strlit("/");
    let image = first + "/"@ + rest;
    assert(image =~= first + seq!['/'] + rest);
    assert(image[first.len() as int] == '/');
    registry_is_first_part(first, rest);
    if exists|i: int| 0 <= i < first.len() && (#[trigger] first[i] == '.' || first[i] == ':') {
        let i = choose|i: int|
            0 <= i < first.len() && (#[trigger] first[i] == '.' || first[i] == ':');
        assert(first.contains(first[i]));
    }
    if first.contains('.') {
        let i = first.index_of('.');
        assert(first[i] == '.');
    }
    if first.contains(':') {
        let i = first.index_of(':');
        assert(first[i] == ':');
    }
}

/// A host and a port are a registry, whatever the host is called.
pub proof fn host_and_port_are_a_registry(host: Seq<char>, port: Seq<char>, rest: Seq<char>)
    requires
        !host.contains('/'),
        !port.contains('/'),
    ensures
        registry_in(host + ":"@ + port + "/"@ + rest) == Ok::<Seq<char>, AuthFault>(
            host + ":"@ + port,
        ),
{
    reveal_strlit(":");
    let first = host + ":"@ + port;
    assert(first[host.len() as int] == ':');
    if first.contains('/') {
        let i = first.index_of('/');
        assert(first[i] == '/');
        if i < host.len() {
            assert(host[i] == '/');
        } else if i > host.len() {
            assert(port[i - host.len() - 1] == '/');
        }
    }
    registry_by_its_characters(first, rest);
}

/// The token of an entry with the registry's own name is the one that is used.
pub proof fn own_entry_serves(
    config: Map<Seq<char>, Option<Seq<char>>>,
    registry: Seq<char>,
    token: Seq<char>,
)
    requires
        config.contains_key(registry),
        config[registry] == Some(token),
    ensures
        token_for(config, registry) == Some(token),
{
}

/// Without a token in an entry of its own, a registry has none; but docker hub, by either of its
/// names, has the one in the entry with the legacy URL.
pub proof fn legacy_entry_serves_docker_hub(
    config: Map<Seq<char>, Option<Seq<char>>>,
    registry: Seq<char>,
)
    requires
        !config.contains_key(registry) || config[registry] is None,
    ensures
        registry != "docker.io"@ && registry != "index.docker.io"@ ==> token_for(config, registry)
            is None,
        registry == "docker.io"@ || registry == "index.docker.io"@ ==> token_for(config, registry)
            == (if config.contains_key("https://index.docker.io/v1/"@) {
            config["https://index.docker.io/v1/"@]
        } else {
            None
        }),
{
}

/// An authfile is the registry, and behind it the token, under the names that builders know.
pub proof fn authfile_says(registry: Seq<char>, token: Seq<char>)
    ensures
        authfile_json(registry, token) == Json::Object(
            map![
                "auths"@ => Json::Object(
                    map![registry => Json::Object(map!["auth"@ => Json::Text(token)])],
                ),
            ],
        ),
{
}

/// What was decoded from a token is a user and a password with a colon between them, and
/// nothing else is.
pub proof fn credentials_need_a_colon(decoded: Seq<u8>, registry: Seq<char>)
    ensures
        !vstd::utf8::valid_utf8(decoded) ==> credentials_in(decoded, registry) == Err::<
            (Seq<char>, Seq<char>),
            AuthFault,
        >(AuthFault::NotUtf8),
        vstd::utf8::valid_utf8(decoded) && !vstd::utf8::decode_utf8(decoded).contains(':')
            ==> credentials_in(decoded, registry) == Err::<(Seq<char>, Seq<char>), AuthFault>(
            AuthFault::NotPair(registry),
        ),
        credentials_with(None, registry) == Err::<(Seq<char>, Seq<char>), AuthFault>(
            AuthFault::Encoding,
        ),
        credentials_with(Some(decoded), registry) == credentials_in(decoded, registry),
{
}

/// A result with texts says the texts, one without them the fault.
pub proof fn results_say(text: String, pair: (String, String), fault: AuthError)
    ensures
        text_result(Ok(text)) == Ok::<Seq<char>, AuthFault>(text@),
        text_result(Err(fault)) == Err::<Seq<char>, AuthFault>(fault@),
        pair_result(Ok(pair)) == Ok::<(Seq<char>, Seq<char>), AuthFault>((pair.0@, pair.1@)),
        pair_result(Err(fault)) == Err::<(Seq<char>, Seq<char>), AuthFault>(fault@),
        fault matches AuthError::Unqualified(image) ==> fault@ == AuthFault::Unqualified(image@),
        fault matches AuthError::NoInlineAuth(r) ==> fault@ == AuthFault::NoInlineAuth(r@),
        fault matches AuthError::NotPair(r) ==> fault@ == AuthFault::NotPair(r@),
        fault is Encoding ==> fault@ is Encoding,
        fault is NotUtf8 ==> fault@ is NotUtf8,
        fault is Unwritable ==> fault@ is Unwritable,
{
}

}
