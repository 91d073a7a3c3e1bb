//! A worker's table of policies, and the decisions a worker and the worker
//! pool take around the sandbox instances they own.
//!
//! Sandbox instances cannot move between threads, so each worker holds its
//! own instance of every policy. The table maps each policy id to the index of
//! its instance in the worker's own list of instances.
use vstd::prelude::*;
use vstd::string::*;
use crate::acquire::PolicyDescriptor;
use crate::admission::Verdict;
use crate::api::{EvalReply, ValidateOutcome, outcome_status};
use crate::text::str_eq;

verus! {

/// The policy table of one worker: instance `i` evaluates `policy_ids[i]`.
pub struct Worker {
    pub policy_ids: Vec<String>,
    /// Requests on objects of this namespace are accepted without evaluation.
    pub always_accept_namespace: Option<String>,
}

/// What a worker does with an evaluation request.
#[derive(PartialEq, Eq, Structural, Clone, Copy, Debug)]
pub enum WorkerAction {
    /// Run the instance at this index.
    Evaluate(usize),
    /// Accept without evaluation: the object lies in the namespace that is
    /// always accepted.
    Accept,
    /// Reply that the policy is unknown.
    ReplyUnknown,
}

/// What a sandbox instance said of its policy's settings.
pub struct SettingsReport {
    pub valid: bool,
    pub message: Option<String>,
}

/// Why a worker could not be built.
pub enum WorkerError {
    /// Two policies share this id.
    DuplicatePolicy(String),
    /// The settings of the policy with this url are invalid.
    InvalidSettings { url: String, message: Option<String> },
}

/// The character views of `ids`.
pub open spec fn id_views(ids: Seq<String>) -> Seq<Seq<char>> {
    ids.map_values(|s: String| s@)
}

/// No two entries of `ids` are equal.
pub open spec fn all_distinct(ids: Seq<Seq<char>>) -> bool {
    forall|i: int, j: int| 0 <= i < ids.len() && 0 <= j < ids.len() && i != j ==> ids[i] != ids[j]
}

/// The policy ids of `ps`.
pub open spec fn descriptor_ids(ps: Seq<PolicyDescriptor>) -> Seq<Seq<char>> {
    ps.map_values(|p: PolicyDescriptor| p.id@)
}

impl Worker {
    pub open spec fn ids(&self) -> Seq<Seq<char>> {
        id_views(self.policy_ids@)
    }

    pub open spec fn wf(&self) -> bool {
        all_distinct(self.ids())
    }

    /// Whether a request on an object of `namespace` bypasses evaluation.
    pub open spec fn bypassed(&self, namespace: Option<String>) -> bool {
        self.always_accept_namespace is Some && namespace is Some
            && self.always_accept_namespace->Some_0@ == namespace->Some_0@
    }

    /// The action for a request to `policy_id` on an object of `namespace`.
    pub open spec fn action_for(&self, policy_id: Seq<char>, namespace: Option<String>) -> WorkerAction {
        if !self.ids().contains(policy_id) {
            WorkerAction::ReplyUnknown
        } else if self.bypassed(namespace) {
            WorkerAction::Accept
        } else {
            WorkerAction::Evaluate(self.ids().index_of(policy_id) as usize)
        }
    }

    /// The index of `policy_id` in the table.
    pub fn lookup(&self, policy_id: &str) -> (r: Option<usize>)
        ensures
            match r {
                Some(i) => i < self.ids().len() && self.ids()[i as int] == policy_id@,
                None => !self.ids().contains(policy_id@),
            },
    {
        let mut i: usize = 0;
        while i < self.policy_ids.len()
            invariant
                i <= self.policy_ids@.len(),
                forall|j: int| 0 <= j < i ==> self.ids()[j] != policy_id@,
            decreases self.policy_ids@.len() - i,
        {
            if str_eq(self.policy_ids[i].as_str(), policy_id) {
                return Some(i);
            }
            i = i + 1;
        }
        None
    }

    /// Where a request for `policy_id` on an object of `namespace` goes: an
    /// "unknown policy" reply when no such policy is loaded, an acceptance
    /// when the namespace is the one always accepted, and otherwise the
    /// instance of that policy.
    pub fn dispatch(&self, policy_id: &str, namespace: &Option<String>) -> (r: WorkerAction)
        requires
            self.wf(),
        ensures
            r == self.action_for(policy_id@, *namespace),
            match r {
                WorkerAction::Evaluate(i) => i < self.ids().len() && self.ids()[i as int]
                    == policy_id@,
                WorkerAction::Accept => self.ids().contains(policy_id@),
                WorkerAction::ReplyUnknown => !self.ids().contains(policy_id@),
            },
    {
        match self.lookup(policy_id) {
            Some(i) => {
                proof {
                    assert(self.ids().contains(policy_id@));
                    self.ids().index_of_first_ensures(policy_id@);
                    assert(self.ids().index_of(policy_id@) == i);
                }
                let bypass = match (&self.always_accept_namespace, namespace) {
                    (Some(a), Some(n)) => str_eq(a.as_str(), n.as_str()),
                    _ => false,
                };
                if bypass {
                    WorkerAction::Accept
                } else {
                    WorkerAction::Evaluate(i)
                }
            },
            None => WorkerAction::ReplyUnknown,
        }
    }

    /// Builds the table of a worker from the policies and what each policy's
    /// instance said of its settings (`reports[i]` is about `policies[i]`). It
    /// fails when two policies share an id or when settings are invalid.
    pub fn new(
        policies: &Vec<PolicyDescriptor>,
        reports: &Vec<SettingsReport>,
        always_accept_namespace: Option<String>,
    ) -> (r: Result<
        Worker,
        WorkerError,
    >)
        requires
            reports@.len() == policies@.len(),
        ensures
            r is Ok <==> (all_distinct(descriptor_ids(policies@)) && forall|i: int|
                0 <= i < reports@.len() ==> #[trigger] reports@[i].valid),
            r is Ok ==> r->Ok_0.wf() && r->Ok_0.ids() == descriptor_ids(policies@)
                && r->Ok_0.always_accept_namespace == always_accept_namespace,
            match r {
                Err(WorkerError::InvalidSettings { url, message }) => exists|i: int|
                    0 <= i < policies@.len() && !(#[trigger] reports@[i]).valid && url
                        == policies@[i].url && message == reports@[i].message,
                Err(WorkerError::DuplicatePolicy(id)) => exists|i: int, j: int|
                    0 <= i < j < policies@.len() && #[trigger] policies@[i].id@ == id@
                        && #[trigger] policies@[j].id@ == id@,
                Ok(_) => true,
            },
    {
        let mut w = Worker { policy_ids: Vec::new(), always_accept_namespace };
        let ghost pids = descriptor_ids(policies@);
        let mut i: usize = 0;
        while i < policies.len()
            invariant
                i <= policies@.len(),
                reports@.len() == policies@.len(),
                pids == descriptor_ids(policies@),
                w.wf(),
                w.ids() == pids.take(i as int),
                w.always_accept_namespace == always_accept_namespace,
                forall|j: int| 0 <= j < i ==> #[trigger] reports@[j].valid,
            decreases policies@.len() - i,
        {
            let p = &policies[i];
            if !reports[i].valid {
                return Err(
                    WorkerError::InvalidSettings {
                        url: p.url.clone(),
                        message: reports[i].message.clone(),
                    },
                );
            }
            match w.lookup(p.id.as_str()) {
                Some(k) => {
                    proof {
                        assert(pids[k as int] == policies@[k as int].id@);
                        assert(pids[i as int] == p.id@);
                        assert(pids[k as int] == pids[i as int]);
                        assert(!all_distinct(pids));
                    }
                    return Err(WorkerError::DuplicatePolicy(p.id.clone()));
                },
                None => {},
            }
            let id = p.id.clone();
            w.policy_ids.push(id);
            proof {
                assert(w.ids() =~= pids.take(i + 1));
            }
            i = i + 1;
        }
        proof {
            assert(pids.take(policies@.len() as int) =~= pids);
        }
        Ok(w)
    }
}

/// The verdict given to a request that bypasses evaluation.
pub open spec fn acceptance() -> Verdict {
    Verdict {
        allowed: true,
        patch: None,
        patch_type: None,
        status: None,
        audit_annotations: None,
        warnings: None,
    }
}

/// The verdict that accepts a request without evaluation.
pub fn accept_verdict() -> (r: Verdict)
    ensures
        r == acceptance(),
{
    Verdict {
        allowed: true,
        patch: None,
        patch_type: None,
        status: None,
        audit_annotations: None,
        warnings: None,
    }
}

/// The reply that a worker's table leads to for a request to `policy_id` on
/// an object of `namespace`, given the verdict its instance would return.
pub open spec fn reply_for(
    w: Worker,
    policy_id: Seq<char>,
    namespace: Option<String>,
    verdict: Verdict,
) -> EvalReply {
    match w.action_for(policy_id, namespace) {
        WorkerAction::Evaluate(_) => EvalReply::Evaluated(verdict),
        WorkerAction::Accept => EvalReply::Evaluated(acceptance()),
        WorkerAction::ReplyUnknown => EvalReply::UnknownPolicy,
    }
}

/// A request for a policy that no worker holds is answered with `404`; a
/// request for a loaded policy with a well-formed body, with `200` and a
/// verdict.
pub proof fn lemma_status_by_policy(
    w: Worker,
    policy_id: Seq<char>,
    namespace: Option<String>,
    request_uid: String,
    verdict: Verdict,
)
    requires
        w.wf(),
    ensures
        outcome_status(
            ValidateOutcome::Replied {
                request_uid,
                reply: reply_for(w, policy_id, namespace, verdict),
            },
        ) == if w.ids().contains(policy_id) {
            200u16
        } else {
            404u16
        },
{
}

/// How the pool's boot ends: the first worker that failed to build, or
/// success once all `results` (one per worker) are in.
pub fn boot_outcome(results: &Vec<Result<(), String>>) -> (r: Result<(), String>)
    ensures
        r is Ok <==> forall|i: int| 0 <= i < results@.len() ==> (#[trigger] results@[i]) is Ok,
        r is Err ==> exists|i: int|
            0 <= i < results@.len() && (forall|j: int| 0 <= j < i ==> (#[trigger] results@[j]) is Ok)
                && #[trigger] results@[i] == r,
{
    let mut i: usize = 0;
    while i < results.len()
        invariant
            i <= results@.len(),
            forall|j: int| 0 <= j < i ==> (#[trigger] results@[j]) is Ok,
        decreases results@.len() - i,
    {
        match &results[i] {
            Ok(()) => {},
            Err(e) => {
                let r: Result<(), String> = Err(e.clone());
                assert(results@[i as int] == r);
                return r;
            },
        }
        i = i + 1;
    }
    Ok(())
}

impl WorkerError {
    /// The message that reports this error.
    pub fn message(&self) -> (r: String)
        ensures
            r@ == match *self {
                WorkerError::DuplicatePolicy(id) => "policy "@ + id@ + " is defined more than once"@,
                WorkerError::InvalidSettings { url, message } => "The settings of policy "@ + url@
                    + " are invalid: "@ + match message {
                    Some(m) => m@,
                    None => "no reason given"@,
                },
            },
    {
        let mut out = String::new();
        match self {
            WorkerError::DuplicatePolicy(id) => {
                out.append("policy ");
                out.append(id.as_str());
                out.append(" is defined more than once");
            },
            WorkerError::InvalidSettings { url, message } => {
                out.append("The settings of policy ");
                out.append(url.as_str());
                out.append(" are invalid: ");
                match message {
                    Some(m) => out.append(m.as_str()),
                    None => out.append("no reason given"),
                }
            },
        }
        out
    }
}

} // verus!
