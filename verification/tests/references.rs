use buildit::auth::registry_of;
use buildit::build::pinned_ref;
use buildit::numeral::{hex, parse_unsigned};
use buildit::oci::{
    config_for, context_labels, context_reference, context_reference_for, context_target,
    default_context_labels, image_target, push_context, repo_of,
};

#[test]
fn repo_strips_tag_not_port() {
    assert_eq!(repo_of("quay.io/acme/foo:tag"), "quay.io/acme/foo");
    assert_eq!(repo_of("localhost:5000/foo"), "localhost:5000/foo");
    assert_eq!(repo_of("quay.io/acme/foo"), "quay.io/acme/foo");
}

#[test]
fn quay_gets_expiry_default() {
    assert_eq!(
        default_context_labels("quay.io"),
        vec![("quay.expires-after".to_string(), "2w".to_string())]
    );
    assert_eq!(default_context_labels("quay.corp.example.com").len(), 1);
    assert!(default_context_labels("ghcr.io").is_empty());
    assert!(default_context_labels("notquay.io").is_empty());
}

#[test]
fn context_ref_is_content_addressed() {
    let a = context_reference("quay.io/acme/foo:v1", b"tree");
    let b = context_reference("quay.io/acme/foo:v2", b"tree");
    let c = context_reference("quay.io/acme/foo:v1", b"other");
    assert_eq!(a, b, "same content, same ctx tag regardless of target tag");
    assert_ne!(a, c);
    assert!(a.starts_with("quay.io/acme/foo:buildit-ctx-"));
    let tag = a.rsplit(':').next().unwrap();
    assert_eq!(tag.len(), "buildit-ctx-".len() + 12);
}

#[test]
fn pin_swaps_tag_for_digest() {
    assert_eq!(
        pinned_ref("quay.io/acme/foo:tag", "sha256:abc"),
        "quay.io/acme/foo@sha256:abc"
    );
    assert_eq!(
        pinned_ref("localhost:5000/foo", "sha256:abc"),
        "localhost:5000/foo@sha256:abc"
    );
    assert_eq!(
        pinned_ref("quay.io/acme/foo", "sha256:abc"),
        "quay.io/acme/foo@sha256:abc"
    );
}

#[test]
fn repo_of_odd_references() {
    assert_eq!(repo_of("foo:tag"), "foo");
    assert_eq!(repo_of("foo"), "foo");
    assert_eq!(repo_of(""), "");
    assert_eq!(repo_of("a:1/b:2/c:3"), "a:1/b:2/c");
}

#[test]
fn context_tag_is_the_digest_of_the_tree() {
    // sha256 of nothing begins with e3b0c44298fc
    assert_eq!(
        context_reference("quay.io/acme/foo:v1", b""),
        "quay.io/acme/foo:buildit-ctx-e3b0c44298fc"
    );
    assert_eq!(
        context_reference_for("r.io/x", &[0xde, 0xad, 0xbe, 0xef, 0x01, 0x23, 0x99]),
        "r.io/x:buildit-ctx-deadbeef0123"
    );
}

#[test]
fn context_and_pinned_image_stay_in_place() {
    for image in ["quay.io/acme/foo:v1", "localhost:5000/foo", "a.b/c:d"] {
        let ctx = context_reference(image, b"tree");
        assert_eq!(repo_of(&ctx), repo_of(image));
        assert_eq!(registry_of(&ctx).unwrap(), registry_of(image).unwrap());
        let pinned = pinned_ref(image, "sha256:abc");
        assert_eq!(registry_of(&pinned).unwrap(), registry_of(image).unwrap());
    }
}

#[test]
fn hex_is_two_digits_a_byte() {
    assert_eq!(hex(&[]), "");
    assert_eq!(hex(&[0, 1, 0x0f, 0x10, 0xab, 0xff]), "00010f10abff");
}

#[test]
fn unsigned_numbers() {
    assert_eq!(parse_unsigned("0"), Some(0));
    assert_eq!(parse_unsigned("+8"), Some(8));
    assert_eq!(parse_unsigned("018"), Some(18));
    assert_eq!(parse_unsigned("18446744073709551615"), Some(u64::MAX));
    assert_eq!(parse_unsigned("18446744073709551616"), None);
    for bad in ["", "+", "-1", "1.5", "2k", " 1"] {
        assert_eq!(parse_unsigned(bad), None, "{bad}");
    }
}

#[test]
fn asked_labels_come_last() {
    let asked = [("quay.expires-after".to_string(), "1d".to_string())];
    let labels = context_labels("quay.io", &asked);
    assert_eq!(labels.len(), 2);
    let config = config_for(&[0xab], &labels).unwrap();
    let doc: serde_json::Value = serde_json::from_slice(&config).unwrap();
    assert_eq!(doc["config"]["Labels"]["quay.expires-after"], "1d");
    assert!(context_labels("ghcr.io", &[]).is_empty());
}

#[test]
fn config_names_its_layer() {
    let config = push_context(false, b"", &[("a".to_string(), "b".to_string())])
        .unwrap()
        .unwrap();
    let doc: serde_json::Value = serde_json::from_slice(&config).unwrap();
    assert_eq!(doc["architecture"], "amd64");
    assert_eq!(doc["os"], "linux");
    assert_eq!(doc["config"]["Labels"]["a"], "b");
    assert_eq!(doc["rootfs"]["type"], "layers");
    assert_eq!(
        doc["rootfs"]["diff_ids"][0],
        "sha256:e3b0c44298fc1c149afbf4c8996fb92427ae41e4649b934ca495991b7852b855"
    );
    assert_eq!(doc["rootfs"]["diff_ids"].as_array().unwrap().len(), 1);
}

#[test]
fn known_context_is_not_pushed() {
    assert!(push_context(true, b"tree", &[]).unwrap().is_none());
    assert!(push_context(false, b"tree", &[]).unwrap().is_some());
}

#[test]
fn references_are_read() {
    let r = context_target("quay.io/acme/foo:buildit-ctx-0").unwrap();
    assert_eq!(r.registry(), "quay.io");
    assert_eq!(r.repository(), "acme/foo");
    assert_eq!(r.tag(), Some("buildit-ctx-0"));
    let r = image_target("quay.io/acme/foo").unwrap();
    assert_eq!(r.tag(), Some("latest"));
    assert_eq!(
        context_target("").unwrap_err().message(),
        "parsing context reference"
    );
    assert_eq!(
        image_target("r.io/UPPER:y").unwrap_err().message(),
        "parsing image reference"
    );
}
