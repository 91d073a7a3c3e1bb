//! Naming and timing of the lease through which the maintainer process claims
//! leadership before it works on a policy server's policies.
use vstd::prelude::*;
use vstd::string::*;
use crate::text::str_eq;

verus! {

/// How long a claim on the lease lasts, in seconds.
pub const LEASE_DURATION_SECS: u64 = 30;

/// How long before expiry a leader renews its claim, in seconds.
pub const RENEW_GRACE_PERIOD_SECS: u64 = 1;

/// The name of the deployment of the policy server called `name`.
pub fn policy_server_deployment_name(name: &str) -> (r: String)
    ensures
        r@ == "policy-server-"@ + name@,
{
    let mut r = String::from_str("policy-server-");
    r.append(name);
    r
}

/// The name of the lease that guards work on `deployment_name`.
pub fn lease_name(deployment_name: &str) -> (r: String)
    ensures
        r@ == "policy-optimizer-"@ + deployment_name@,
{
    let mut r = String::from_str("policy-optimizer-");
    r.append(deployment_name);
    r
}

/// How the request that creates the lease ended.
#[derive(PartialEq, Eq, Structural, Clone, Copy, Debug)]
pub enum LeaseApply {
    Created,
    /// The API server refused it: the lease exists already.
    Refused,
    /// The request failed on the way.
    Failed,
}

/// Whether the maintainer goes on to claim the lease: it does when the lease
/// was created or existed already.
pub fn lease_ready(outcome: LeaseApply) -> (r: bool)
    ensures
        r == (outcome != LeaseApply::Failed),
{
    match outcome {
        LeaseApply::Created => true,
        LeaseApply::Refused => true,
        LeaseApply::Failed => false,
    }
}

/// Whether `claimant` may work: only while it holds the lease.
pub fn may_work(holder: &Option<String>, claimant: &str) -> (r: bool)
    ensures
        r == (holder is Some && holder->Some_0@ == claimant@),
{
    match holder {
        Some(h) => str_eq(h.as_str(), claimant),
        None => false,
    }
}

} // verus!
