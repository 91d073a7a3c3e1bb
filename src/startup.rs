//! The order of the server's startup. Each phase is outside work whose outcome
//! comes back as an event; the server binds its listener only after the worker
//! pool has booted, so a connection to it means that evaluators exist.
use vstd::prelude::*;

verus! {

/// The phase the startup is in: the outside work it waits for.
#[derive(PartialEq, Eq, Structural, Clone, Copy, Debug)]
pub enum Phase {
    TrustMaterial,
    ClusterClient,
    Acquisition,
    PoolBoot,
    Serving,
    Stopped,
    Failed,
}

/// The outcome of a phase's work.
#[derive(PartialEq, Eq, Structural, Clone, Copy, Debug)]
pub enum StartupEvent {
    /// The sigstore trust material was fetched, or not.
    TrustMaterialFetched(bool),
    /// A cluster client was built, or not.
    ClusterConnected(bool),
    /// Module acquisition succeeded, or not.
    ModulesAcquired(bool),
    /// The worker pool booted, or not.
    PoolBooted(bool),
    /// The HTTP server returned.
    ServerStopped,
}

/// Why the server stops at startup.
#[derive(PartialEq, Eq, Structural, Clone, Copy, Debug)]
pub enum StartupFailure {
    TrustMaterialUnavailable,
    ClusterUnavailable,
    AcquisitionFailed,
    BootFailed,
    /// An event that the current phase does not wait for.
    UnexpectedEvent,
}

/// The work to do next.
#[derive(PartialEq, Eq, Structural, Clone, Copy, Debug)]
pub enum StartupAction {
    FetchTrustMaterial,
    /// Build the cluster client and the callback broker; the broker verifies
    /// keyless signatures only with trust material.
    ConnectCluster { with_trust_material: bool },
    AcquireModules,
    /// Start the callback broker task and send the boot request to the pool.
    BootPool,
    /// Bind the listener and serve.
    Listen,
    /// Stop the callback broker, wait for it and for the pool thread, exit 0.
    Shutdown,
    /// Report the failure and exit non-zero.
    Exit(StartupFailure),
}

/// The state of startup and the options that decide it.
#[derive(PartialEq, Eq, Structural, Clone, Copy, Debug)]
pub struct Startup {
    pub phase: Phase,
    pub verification_required: bool,
    pub ignore_cluster_failure: bool,
}

/// The phase after `s` takes `e`, and the work that follows.
pub open spec fn transition(s: Startup, e: StartupEvent) -> (Phase, StartupAction) {
    match (s.phase, e) {
        (Phase::TrustMaterial, StartupEvent::TrustMaterialFetched(ok)) => if !ok
            && s.verification_required {
            (Phase::Failed, StartupAction::Exit(StartupFailure::TrustMaterialUnavailable))
        } else {
            (Phase::ClusterClient, StartupAction::ConnectCluster { with_trust_material: ok })
        },
        (Phase::ClusterClient, StartupEvent::ClusterConnected(ok)) => if ok
            || s.ignore_cluster_failure {
            (Phase::Acquisition, StartupAction::AcquireModules)
        } else {
            (Phase::Failed, StartupAction::Exit(StartupFailure::ClusterUnavailable))
        },
        (Phase::Acquisition, StartupEvent::ModulesAcquired(ok)) => if ok {
            (Phase::PoolBoot, StartupAction::BootPool)
        } else {
            (Phase::Failed, StartupAction::Exit(StartupFailure::AcquisitionFailed))
        },
        (Phase::PoolBoot, StartupEvent::PoolBooted(ok)) => if ok {
            (Phase::Serving, StartupAction::Listen)
        } else {
            (Phase::Failed, StartupAction::Exit(StartupFailure::BootFailed))
        },
        (Phase::Serving, StartupEvent::ServerStopped) => (Phase::Stopped, StartupAction::Shutdown),
        _ => (Phase::Failed, StartupAction::Exit(StartupFailure::UnexpectedEvent)),
    }
}

impl Startup {
    /// A startup that has not begun, and its first piece of work.
    pub fn new(verification_required: bool, ignore_cluster_failure: bool) -> (r: (
        Startup,
        StartupAction,
    ))
        ensures
            r.0 == (Startup {
                phase: Phase::TrustMaterial,
                verification_required,
                ignore_cluster_failure,
            }),
            r.1 == StartupAction::FetchTrustMaterial,
    {
        (
            Startup { phase: Phase::TrustMaterial, verification_required, ignore_cluster_failure },
            StartupAction::FetchTrustMaterial,
        )
    }

    /// Takes the outcome of the current phase and says what to do next.
    pub fn on_event(&mut self, e: StartupEvent) -> (r: StartupAction)
        ensures
            (final(self).phase, r) == transition(*old(self), e),
            final(self).verification_required == old(self).verification_required,
            final(self).ignore_cluster_failure == old(self).ignore_cluster_failure,
    {
        let (phase, action) = match (self.phase, e) {
            (Phase::TrustMaterial, StartupEvent::TrustMaterialFetched(ok)) => {
                if !ok && self.verification_required {
                    (Phase::Failed, StartupAction::Exit(StartupFailure::TrustMaterialUnavailable))
                } else {
                    (Phase::ClusterClient, StartupAction::ConnectCluster { with_trust_material: ok })
                }
            },
            (Phase::ClusterClient, StartupEvent::ClusterConnected(ok)) => {
                if ok || self.ignore_cluster_failure {
                    (Phase::Acquisition, StartupAction::AcquireModules)
                } else {
                    (Phase::Failed, StartupAction::Exit(StartupFailure::ClusterUnavailable))
                }
            },
            (Phase::Acquisition, StartupEvent::ModulesAcquired(ok)) => {
                if ok {
                    (Phase::PoolBoot, StartupAction::BootPool)
                } else {
                    (Phase::Failed, StartupAction::Exit(StartupFailure::AcquisitionFailed))
                }
            },
            (Phase::PoolBoot, StartupEvent::PoolBooted(ok)) => {
                if ok {
                    (Phase::Serving, StartupAction::Listen)
                } else {
                    (Phase::Failed, StartupAction::Exit(StartupFailure::BootFailed))
                }
            },
            (Phase::Serving, StartupEvent::ServerStopped) => (
                Phase::Stopped,
                StartupAction::Shutdown,
            ),
            _ => (Phase::Failed, StartupAction::Exit(StartupFailure::UnexpectedEvent)),
        };
        self.phase = phase;
        action
    }
}

/// The server starts listening only as the step that takes a successful pool
/// boot, and no other step enters the serving phase.
pub proof fn lemma_listen_only_after_boot(s: Startup, e: StartupEvent)
    ensures
        transition(s, e).1 == StartupAction::Listen ==> s.phase == Phase::PoolBoot && e
            == StartupEvent::PoolBooted(true),
        transition(s, e).0 == Phase::Serving ==> s.phase == Phase::PoolBoot && e
            == StartupEvent::PoolBooted(true),
{
}

/// `run` is a sequence of startup states, each one step after the one before,
/// under the events `events`.
pub open spec fn startup_run(run: Seq<Startup>, events: Seq<StartupEvent>) -> bool {
    &&& run.len() == events.len() + 1
    &&& forall|i: int|
        0 <= i < events.len() ==> (#[trigger] run[i + 1]).phase == transition(run[i], events[i]).0
            && run[i + 1].verification_required == run[i].verification_required
            && run[i + 1].ignore_cluster_failure == run[i].ignore_cluster_failure
}

/// In every run from the start, a state that serves comes after an event that
/// reported a successful pool boot.
pub proof fn lemma_serving_follows_boot(run: Seq<Startup>, events: Seq<StartupEvent>, k: int)
    requires
        startup_run(run, events),
        run[0].phase == Phase::TrustMaterial,
        0 <= k < run.len(),
        run[k].phase == Phase::Serving,
    ensures
        exists|j: int| 0 <= j < k && #[trigger] events[j] == StartupEvent::PoolBooted(true),
    decreases k,
{
    let j = k - 1;
    assert(run[j + 1].phase == transition(run[j], events[j]).0);
    lemma_listen_only_after_boot(run[j], events[j]);
    if run[j].phase == Phase::Serving {
        lemma_serving_follows_boot(run, events, j);
    }
}

} // verus!
