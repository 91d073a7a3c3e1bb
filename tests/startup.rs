use policy_server::startup::{Phase, Startup, StartupAction, StartupEvent, StartupFailure};

#[test]
fn startup_happy_order() {
    let (mut s, first) = Startup::new(true, false);
    assert_eq!(first, StartupAction::FetchTrustMaterial);
    assert_eq!(
        s.on_event(StartupEvent::TrustMaterialFetched(true)),
        StartupAction::ConnectCluster { with_trust_material: true }
    );
    assert_eq!(s.on_event(StartupEvent::ClusterConnected(true)), StartupAction::AcquireModules);
    assert_eq!(s.on_event(StartupEvent::ModulesAcquired(true)), StartupAction::BootPool);
    assert_eq!(s.phase, Phase::PoolBoot);
    assert_eq!(s.on_event(StartupEvent::PoolBooted(true)), StartupAction::Listen);
    assert_eq!(s.on_event(StartupEvent::ServerStopped), StartupAction::Shutdown);
    assert_eq!(s.phase, Phase::Stopped);
}

#[test]
fn no_listen_before_boot() {
    let (mut s, _) = Startup::new(false, true);
    s.on_event(StartupEvent::TrustMaterialFetched(true));
    s.on_event(StartupEvent::ClusterConnected(true));
    assert_eq!(
        s.on_event(StartupEvent::PoolBooted(true)),
        StartupAction::Exit(StartupFailure::UnexpectedEvent)
    );
    let (mut s, _) = Startup::new(false, true);
    s.on_event(StartupEvent::TrustMaterialFetched(true));
    s.on_event(StartupEvent::ClusterConnected(true));
    s.on_event(StartupEvent::ModulesAcquired(true));
    assert_eq!(
        s.on_event(StartupEvent::PoolBooted(false)),
        StartupAction::Exit(StartupFailure::BootFailed)
    );
    assert_eq!(s.phase, Phase::Failed);
}

#[test]
fn trust_material_failure_degrades_or_fails() {
    let (mut s, _) = Startup::new(false, false);
    assert_eq!(
        s.on_event(StartupEvent::TrustMaterialFetched(false)),
        StartupAction::ConnectCluster { with_trust_material: false }
    );
    let (mut s, _) = Startup::new(true, false);
    assert_eq!(
        s.on_event(StartupEvent::TrustMaterialFetched(false)),
        StartupAction::Exit(StartupFailure::TrustMaterialUnavailable)
    );
}

#[test]
fn cluster_failure_fatal_unless_ignored() {
    let (mut s, _) = Startup::new(false, false);
    s.on_event(StartupEvent::TrustMaterialFetched(true));
    assert_eq!(
        s.on_event(StartupEvent::ClusterConnected(false)),
        StartupAction::Exit(StartupFailure::ClusterUnavailable)
    );
    let (mut s, _) = Startup::new(false, true);
    s.on_event(StartupEvent::TrustMaterialFetched(true));
    assert_eq!(s.on_event(StartupEvent::ClusterConnected(false)), StartupAction::AcquireModules);
}

#[test]
fn acquisition_failure_is_fatal() {
    let (mut s, _) = Startup::new(true, false);
    s.on_event(StartupEvent::TrustMaterialFetched(true));
    s.on_event(StartupEvent::ClusterConnected(true));
    assert_eq!(
        s.on_event(StartupEvent::ModulesAcquired(false)),
        StartupAction::Exit(StartupFailure::AcquisitionFailed)
    );
}
