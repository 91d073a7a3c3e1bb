use policy_server::acquire::{
    AcquireAction, AcquireError, Acquirer, FailureReason, FetchedModule, PolicyDescriptor,
};

fn descriptor(id: &str, url: &str) -> PolicyDescriptor {
    PolicyDescriptor { id: id.to_string(), url: url.to_string(), local_path: None }
}

fn module(path: &str, digest: &str) -> FetchedModule {
    FetchedModule { local_path: path.to_string(), digest: digest.to_string() }
}

const POD_PRIVILEGED: &str = "registry://ghcr.io/kubewarden/tests/pod-privileged:v0.1.9";

#[test]
fn download_and_verify_success() {
    let policies = vec![descriptor("pod-privileged", POD_PRIVILEGED)];
    for p in policies.iter() {
        assert!(p.local_path.is_none());
    }
    let mut acq = Acquirer::new(policies, true);
    assert_eq!(acq.next_action(), AcquireAction::Verify(0));
    acq.on_verified(Ok("sha256:1a2b".to_string()));
    assert_eq!(acq.next_action(), AcquireAction::Fetch(0));
    acq.on_fetched(Ok(module("/tmp/dl/pod-privileged.wasm", "sha256:1a2b")));
    assert_eq!(acq.next_action(), AcquireAction::Finished);
    let policies = match acq.finish() {
        Ok(p) => p,
        Err(e) => panic!("Cannot download policy: {}", e.message()),
    };
    for p in policies.iter() {
        assert!(p.local_path.is_some());
        assert_eq!(p.local_path.clone().unwrap(), "/tmp/dl/pod-privileged.wasm");
    }
}

#[test]
fn download_and_verify_error() {
    let policies = vec![descriptor("pod-privileged", POD_PRIVILEGED)];
    let mut acq = Acquirer::new(policies, true);
    assert_eq!(acq.next_action(), AcquireAction::Verify(0));
    acq.on_verified(Err("Image verification failed: missing signatures".to_string()));
    assert_eq!(acq.next_action(), AcquireAction::Finished);
    let err = match acq.finish() {
        Ok(_) => panic!("an error was expected"),
        Err(e) => e,
    };
    let text = err.message();
    assert!(text.contains("Image verification failed: missing signatures"));
    assert!(text.contains("pod-privileged"));
}

#[test]
fn verification_failure_names_policy() {
    let mut acq = Acquirer::new(vec![descriptor("pod-privileged", POD_PRIVILEGED)], true);
    acq.on_verified(Err("Image verification failed: missing signatures".to_string()));
    match acq.finish() {
        Err(e) => assert_eq!(
            e.message(),
            "Failed to verify the following policies: Policy 'pod-privileged' cannot be verified: Image verification failed: missing signatures"
        ),
        Ok(_) => panic!("an error was expected"),
    }
}

#[test]
fn without_verification_only_fetches() {
    let mut acq = Acquirer::new(vec![descriptor("a", "u-a"), descriptor("b", "u-b")], false);
    assert_eq!(acq.next_action(), AcquireAction::Fetch(0));
    acq.on_fetched(Ok(module("/m/a", "d1")));
    assert_eq!(acq.next_action(), AcquireAction::Fetch(1));
    acq.on_fetched(Ok(module("/m/b", "other")));
    assert_eq!(acq.next_action(), AcquireAction::Finished);
    let ps = acq.finish().ok().expect("success");
    assert_eq!(ps[0].local_path.as_deref(), Some("/m/a"));
    assert_eq!(ps[1].local_path.as_deref(), Some("/m/b"));
}

#[test]
fn empty_policy_set_succeeds() {
    let acq = Acquirer::new(vec![], true);
    assert_eq!(acq.next_action(), AcquireAction::Finished);
    assert!(acq.finish().ok().expect("success").is_empty());
}

#[test]
fn digest_mismatch_fails_with_policy_name() {
    let mut acq = Acquirer::new(vec![descriptor("psp-capabilities", "u")], true);
    acq.on_verified(Ok("sha256:aaaa".to_string()));
    acq.on_fetched(Ok(module("/m/psp", "sha256:bbbb")));
    assert_eq!(acq.next_action(), AcquireAction::Finished);
    assert!(acq.policies[0].local_path.is_none());
    match acq.finish() {
        Err(AcquireError::Verification(fs)) => {
            assert_eq!(fs.len(), 1);
            assert_eq!(fs[0].policy, "psp-capabilities");
            match &fs[0].reason {
                FailureReason::DigestMismatch { expected, actual } => {
                    assert_eq!(expected, "sha256:aaaa");
                    assert_eq!(actual, "sha256:bbbb");
                }
                _ => panic!("digest mismatch expected"),
            }
            let text = AcquireError::Verification(fs).message();
            assert_eq!(
                text,
                "Failed to verify the following policies: verification of policy psp-capabilities failed: module digest sha256:bbbb differs from verified manifest digest sha256:aaaa"
            );
        }
        _ => panic!("verification error expected"),
    }
}

#[test]
fn every_failing_policy_is_listed() {
    let mut acq = Acquirer::new(
        vec![descriptor("one", "u1"), descriptor("two", "u2"), descriptor("three", "u3")],
        true,
    );
    acq.on_verified(Err("missing signatures".to_string()));
    assert_eq!(acq.next_action(), AcquireAction::Verify(1));
    acq.on_verified(Ok("d2".to_string()));
    acq.on_fetched(Ok(module("/m/two", "d2")));
    acq.on_verified(Ok("d3".to_string()));
    acq.on_fetched(Ok(module("/m/three", "x3")));
    assert_eq!(acq.next_action(), AcquireAction::Finished);
    let err = match acq.finish() {
        Err(e) => e,
        Ok(_) => panic!("an error was expected"),
    };
    match &err {
        AcquireError::Verification(fs) => {
            let names: Vec<&str> = fs.iter().map(|f| f.policy.as_str()).collect();
            assert_eq!(names, vec!["one", "three"]);
        }
        _ => panic!("verification error expected"),
    }
    let text = err.message();
    assert!(text.contains("Policy 'one' cannot be verified: missing signatures, verification of policy three failed"));
}

#[test]
fn fetch_failure_stops_at_once() {
    let mut acq = Acquirer::new(vec![descriptor("a", "reg://a"), descriptor("b", "reg://b")], true);
    acq.on_verified(Err("bad".to_string()));
    acq.on_verified(Ok("d".to_string()));
    acq.on_fetched(Err("connection refused".to_string()));
    assert_eq!(acq.next_action(), AcquireAction::Finished);
    match acq.finish() {
        Err(e) => {
            assert!(matches!(e, AcquireError::Fetch(_)));
            assert_eq!(
                e.message(),
                "error while downloading policy b from reg://b: connection refused"
            );
        }
        Ok(_) => panic!("an error was expected"),
    }
}

#[test]
fn verified_digest_matches_local_digest() {
    let mut acq = Acquirer::new(vec![descriptor("pod-privileged", POD_PRIVILEGED)], true);
    acq.on_verified(Ok("sha256:5f3c".to_string()));
    assert_eq!(acq.manifest_digest.as_deref(), Some("sha256:5f3c"));
    acq.on_fetched(Ok(module("/m/pp.wasm", "sha256:5f3c")));
    assert!(acq.failures.is_empty());
    assert!(acq.finish().is_ok());
}
