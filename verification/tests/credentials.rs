use buildit::auth::{
    basic_credentials_from, credentials_from, inline_auth, minimal_authfile_from, registry_of,
    AuthError, DockerConfig,
};

/// The tokens of a docker config, out of its text.
fn config(raw: &[u8]) -> DockerConfig {
    let doc: serde_json::Value = serde_json::from_slice(raw).unwrap();
    let mut config = DockerConfig::new();
    if let Some(auths) = doc["auths"].as_object() {
        for (registry, entry) in auths {
            let token = entry["auth"].as_str().map(str::to_string);
            config = config.with_entry(registry.clone(), token);
        }
    }
    config
}

#[test]
fn registry_extraction() {
    assert_eq!(registry_of("quay.io/acme/foo:tag").unwrap(), "quay.io");
    assert_eq!(registry_of("localhost:5000/foo").unwrap(), "localhost:5000");
    assert_eq!(registry_of("localhost/foo").unwrap(), "localhost");
    assert!(registry_of("acme/foo:tag").is_err());
    assert!(registry_of("ubuntu").is_err());
}

#[test]
fn authfile_contains_only_target_registry() {
    let cfg = br#"{"auths":{
            "quay.io":{"auth":"cXVheXNlY3JldA=="},
            "ghcr.io":{"auth":"Z2hzZWNyZXQ="}
        }}"#;
    let out = minimal_authfile_from(&config(cfg), "quay.io").unwrap();
    let v: serde_json::Value = serde_json::from_slice(&out).unwrap();
    assert_eq!(v["auths"]["quay.io"]["auth"], "cXVheXNlY3JldA==");
    assert!(v["auths"].get("ghcr.io").is_none());
}

#[test]
fn dockerhub_legacy_key_fallback() {
    let cfg = br#"{"auths":{"https://index.docker.io/v1/":{"auth":"aHVi"}}}"#;
    let out = minimal_authfile_from(&config(cfg), "docker.io").unwrap();
    let v: serde_json::Value = serde_json::from_slice(&out).unwrap();
    assert_eq!(v["auths"]["docker.io"]["auth"], "aHVi");
}

#[test]
fn basic_credentials_decode() {
    // dXNlcjpwYTpzcw== = "user:pa:ss" (password may contain colons)
    let cfg = br#"{"auths":{"quay.io":{"auth":"dXNlcjpwYTpzcw=="}}}"#;
    let (user, pass) = basic_credentials_from(&config(cfg), "quay.io").unwrap();
    assert_eq!(user, "user");
    assert_eq!(pass, "pa:ss");
}

#[test]
fn missing_inline_auth_is_a_clear_error() {
    let cfg = br#"{"auths":{"quay.io":{}},"credsStore":"osxkeychain"}"#;
    let err = minimal_authfile_from(&config(cfg), "quay.io")
        .unwrap_err()
        .message();
    assert!(err.contains("docker login quay.io"), "got: {err}");
}

#[test]
fn unqualified_image_is_named_in_the_error() {
    let err = registry_of("acme/foo:tag").unwrap_err();
    assert_eq!(
        err.message(),
        "image ref acme/foo:tag is not fully qualified; use e.g. quay.io/acme/foo:tag \
         so buildit knows which registry credential to ship"
    );
    assert!(registry_of("").is_err());
    assert!(registry_of("ubuntu:22.04").is_err());
    assert!(registry_of("ubuntu:latest").is_err());
    assert!(registry_of("localhost").is_err());
    assert!(registry_of("quay.io").is_err());
}

#[test]
fn missing_auth_message_is_whole() {
    let err = inline_auth(&DockerConfig::new(), "ghcr.io").unwrap_err();
    assert_eq!(
        err.message(),
        "no inline auth for ghcr.io in ~/.docker/config.json (run `docker login ghcr.io`; \
         a macOS credsStore won't write an inline token)"
    );
}

#[test]
fn authfile_bytes_are_exact() {
    let cfg = config(br#"{"auths":{"quay.io":{"auth":"aHVi"},"ghcr.io":{"auth":"eA=="}}}"#);
    let out = minimal_authfile_from(&cfg, "quay.io").unwrap();
    assert_eq!(out, br#"{"auths":{"quay.io":{"auth":"aHVi"}}}"#.to_vec());
}

#[test]
fn legacy_key_serves_docker_hub_alone() {
    let cfg = config(br#"{"auths":{"https://index.docker.io/v1/":{"auth":"aHVi"}}}"#);
    assert_eq!(inline_auth(&cfg, "index.docker.io").unwrap(), "aHVi");
    assert!(inline_auth(&cfg, "quay.io").is_err());
}

#[test]
fn own_key_goes_before_the_legacy_one() {
    let cfg = config(
        br#"{"auths":{"docker.io":{"auth":"b3du"},"https://index.docker.io/v1/":{"auth":"aHVi"}}}"#,
    );
    assert_eq!(inline_auth(&cfg, "docker.io").unwrap(), "b3du");
    let cfg = config(
        br#"{"auths":{"docker.io":{},"https://index.docker.io/v1/":{"auth":"aHVi"}}}"#,
    );
    assert_eq!(inline_auth(&cfg, "docker.io").unwrap(), "aHVi");
}

#[test]
fn later_entry_takes_the_place_of_an_earlier_one() {
    let cfg = DockerConfig::new()
        .with_entry("quay.io".to_string(), Some("old".to_string()))
        .with_entry("quay.io".to_string(), Some("new".to_string()));
    assert_eq!(cfg.token("quay.io").as_deref(), Some("new"));
    assert_eq!(cfg.token("ghcr.io"), None);
}

#[test]
fn other_entries_do_not_change_the_authfile() {
    let small = config(br#"{"auths":{"quay.io":{"auth":"aHVi"}}}"#);
    let large = config(
        br#"{"auths":{"quay.io":{"auth":"aHVi"},"ghcr.io":{"auth":"eA=="},"docker.io":{}}}"#,
    );
    assert_eq!(
        minimal_authfile_from(&small, "quay.io").unwrap(),
        minimal_authfile_from(&large, "quay.io").unwrap()
    );
}

#[test]
fn broken_tokens_are_told_apart() {
    let token = |t: &str| DockerConfig::new().with_entry("r.io".to_string(), Some(t.to_string()));
    let err = basic_credentials_from(&token("***"), "r.io").unwrap_err();
    assert!(matches!(err, AuthError::Encoding(_)));
    assert_eq!(err.message(), "decoding auth entry");
    // /w== is the byte ff
    let err = basic_credentials_from(&token("/w=="), "r.io").unwrap_err();
    assert!(matches!(err, AuthError::NotUtf8(_)));
    assert_eq!(err.message(), "auth entry is not utf-8");
    // dXNlcg== is "user"
    let err = basic_credentials_from(&token("dXNlcg=="), "r.io").unwrap_err();
    assert!(matches!(err, AuthError::NotPair(_)));
    assert_eq!(err.message(), "auth entry for r.io is not user:pass shaped");
    let err = basic_credentials_from(&DockerConfig::new(), "r.io").unwrap_err();
    assert!(matches!(err, AuthError::NoInlineAuth(_)));
}

#[test]
fn credentials_are_cut_at_the_first_colon() {
    let (user, pass) = credentials_from(b"me::x:".to_vec(), "r.io").unwrap();
    assert_eq!(user, "me");
    assert_eq!(pass, ":x:");
    let (user, pass) = credentials_from(b":".to_vec(), "r.io").unwrap();
    assert_eq!((user.as_str(), pass.as_str()), ("", ""));
}
