use buildit::pod::{
    cache_claim, clean, clean_selector, ensure_pvc, exec_capture, finish, unique_name, ExecError,
    ExecStatus, Listed,
};

fn argv() -> Vec<String> {
    vec!["tar".to_string(), "xzf".to_string(), "-".to_string()]
}

fn status(word: Option<&str>, message: Option<&str>) -> Option<ExecStatus> {
    Some(ExecStatus {
        status: word.map(str::to_string),
        message: message.map(str::to_string),
    })
}

#[test]
fn names_are_eight_digits() {
    assert_eq!(unique_name(0, 0), "buildit-00000000");
    assert_eq!(unique_name(0x1_dead_beef, 0), "buildit-deadbeef");
    assert_eq!(unique_name(0xff00, 0x00ff), "buildit-0000ffff");
    assert_eq!(unique_name(7, 7), "buildit-00000000");
    assert_ne!(unique_name(1, 2), unique_name(2, 2));
}

#[test]
fn only_success_is_success() {
    assert!(finish(status(Some("Success"), Some("x")), &argv(), "p").is_ok());
    let err = finish(status(Some("Failure"), Some("exit 1")), &argv(), "p").unwrap_err();
    assert_eq!(err.message(), "`tar xzf -` failed in pod p: exit 1");
    let err = finish(status(None, None), &argv(), "p").unwrap_err();
    assert_eq!(err.message(), "`tar xzf -` failed in pod p: no error message");
    let err = finish(None, &argv(), "p").unwrap_err();
    assert_eq!(err.message(), "`tar xzf -` in pod p: no exit status received");
}

#[test]
fn output_is_text_of_a_command_that_succeeded() {
    assert_eq!(exec_capture(Ok(()), b"sha256:x\n".to_vec()).unwrap(), "sha256:x\n");
    let err = exec_capture(Ok(()), vec![0xff]).unwrap_err();
    assert!(matches!(err, ExecError::NotUtf8(_)));
    assert_eq!(err.message(), "exec output was not utf-8");
    let failed = finish(None, &argv(), "p");
    let err = exec_capture(failed, b"fine".to_vec()).unwrap_err();
    assert!(matches!(err, ExecError::NoStatus { .. }));
}

#[test]
fn claim_is_made_only_where_there_is_none() {
    assert!(ensure_pvc(true, "ns", "c", "50Gi").unwrap().is_none());
    let claim = ensure_pvc(false, "ns", "c", "50Gi").unwrap().unwrap();
    assert_eq!(claim.metadata.name.as_deref(), Some("c"));
    assert_eq!(claim.metadata.namespace.as_deref(), Some("ns"));
    let labels = claim.metadata.labels.unwrap();
    assert_eq!(labels["app"], "buildit");
    assert_eq!(labels["buildit/cache"], "true");
    let spec = claim.spec.unwrap();
    assert_eq!(spec.access_modes.unwrap(), ["ReadWriteOnce"]);
    assert_eq!(spec.resources.unwrap().requests.unwrap()["storage"].0, "50Gi");
    assert_eq!(cache_claim("ns", "c", "1Gi").storage, "1Gi");
}

#[test]
fn pods_of_a_job_are_left_to_it() {
    let listed = |name: Option<&str>, owned| Listed {
        name: name.map(str::to_string),
        owned,
    };
    let objects = [
        listed(Some("a"), false),
        listed(Some("b"), true),
        listed(None, false),
        listed(Some("c"), false),
    ];
    assert_eq!(clean(&objects), ["a", "c"]);
    assert!(clean(&[]).is_empty());
    assert_eq!(clean_selector(), "app=buildit");
}
