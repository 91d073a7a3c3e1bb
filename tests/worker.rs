use policy_server::acquire::PolicyDescriptor;
use policy_server::lease::{
    lease_name, lease_ready, may_work, policy_server_deployment_name, LeaseApply,
    LEASE_DURATION_SECS, RENEW_GRACE_PERIOD_SECS,
};
use policy_server::worker::{
    accept_verdict, boot_outcome, SettingsReport, Worker, WorkerAction, WorkerError,
};

fn descriptor(id: &str, url: &str) -> PolicyDescriptor {
    PolicyDescriptor { id: id.to_string(), url: url.to_string(), local_path: None }
}

fn valid() -> SettingsReport {
    SettingsReport { valid: true, message: None }
}

#[test]
fn worker_table_dispatch() {
    let ps = vec![descriptor("a", "u-a"), descriptor("b", "u-b")];
    let w = Worker::new(&ps, &vec![valid(), valid()], None).ok().expect("built");
    let ns = Some("default".to_string());
    assert_eq!(w.dispatch("a", &ns), WorkerAction::Evaluate(0));
    assert_eq!(w.dispatch("b", &None), WorkerAction::Evaluate(1));
    assert_eq!(w.dispatch("c", &ns), WorkerAction::ReplyUnknown);
    assert_eq!(w.lookup("b"), Some(1));
    assert_eq!(w.lookup(""), None);
}

#[test]
fn worker_invalid_settings_named_by_url() {
    let ps = vec![descriptor("a", "u-a"), descriptor("b", "registry://b:v1")];
    let reports = vec![
        valid(),
        SettingsReport { valid: false, message: Some("missing field".to_string()) },
    ];
    match Worker::new(&ps, &reports, None) {
        Err(e) => {
            assert!(matches!(e, WorkerError::InvalidSettings { .. }));
            assert_eq!(
                e.message(),
                "The settings of policy registry://b:v1 are invalid: missing field"
            );
        }
        Ok(_) => panic!("an error was expected"),
    }
    let reports = vec![SettingsReport { valid: false, message: None }, valid()];
    match Worker::new(&ps, &reports, None) {
        Err(e) => assert_eq!(e.message(), "The settings of policy u-a are invalid: no reason given"),
        Ok(_) => panic!("an error was expected"),
    }
}

#[test]
fn worker_duplicate_id_rejected() {
    let ps = vec![descriptor("a", "u1"), descriptor("a", "u2")];
    match Worker::new(&ps, &vec![valid(), valid()], None) {
        Err(e) => {
            assert!(matches!(e, WorkerError::DuplicatePolicy(_)));
            assert_eq!(e.message(), "policy a is defined more than once");
        }
        Ok(_) => panic!("an error was expected"),
    }
}

#[test]
fn empty_worker_knows_nothing() {
    let w = Worker::new(&vec![], &vec![], None).ok().expect("built");
    assert_eq!(w.dispatch("x", &None), WorkerAction::ReplyUnknown);
}

#[test]
fn pool_boot_first_failure() {
    assert_eq!(boot_outcome(&vec![Ok(()), Ok(())]), Ok(()));
    assert_eq!(boot_outcome(&vec![]), Ok(()));
    assert_eq!(
        boot_outcome(&vec![Ok(()), Err("w1".to_string()), Err("w2".to_string())]),
        Err("w1".to_string())
    );
}

#[test]
fn lease_naming_and_timing() {
    let d = policy_server_deployment_name("default");
    assert_eq!(d, "policy-server-default");
    assert_eq!(lease_name(&d), "policy-optimizer-policy-server-default");
    assert_eq!(LEASE_DURATION_SECS, 30);
    assert_eq!(RENEW_GRACE_PERIOD_SECS, 1);
}

#[test]
fn lease_outcomes_and_leadership() {
    assert!(lease_ready(LeaseApply::Created));
    assert!(lease_ready(LeaseApply::Refused));
    assert!(!lease_ready(LeaseApply::Failed));
    assert!(may_work(&Some("pod-1".to_string()), "pod-1"));
    assert!(!may_work(&Some("pod-2".to_string()), "pod-1"));
    assert!(!may_work(&None, "pod-1"));
}

#[test]
fn always_accepted_namespace_bypasses_evaluation() {
    let ps = vec![descriptor("a", "u-a")];
    let w = Worker::new(&ps, &vec![valid()], Some("kube-system".to_string()))
        .ok()
        .expect("built");
    assert_eq!(w.dispatch("a", &Some("kube-system".to_string())), WorkerAction::Accept);
    assert_eq!(w.dispatch("a", &Some("default".to_string())), WorkerAction::Evaluate(0));
    assert_eq!(w.dispatch("a", &None), WorkerAction::Evaluate(0));
    assert_eq!(w.dispatch("b", &Some("kube-system".to_string())), WorkerAction::ReplyUnknown);
    let v = accept_verdict();
    assert!(v.allowed);
    assert!(v.patch.is_none() && v.status.is_none() && v.warnings.is_none());
}
