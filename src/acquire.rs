//! Module acquisition at startup. For each policy, in declaration order: check
//! its signatures (when verification is on), fetch its module, check that the
//! fetched module's digest is the verified manifest digest, and record where
//! the module lies. A failed check is collected and the policy skipped; a
//! failed fetch ends acquisition at once.
//!
//! The checks and the fetch are outside work: `Acquirer` says which one to do
//! next and takes its outcome.
use vstd::prelude::*;
use vstd::string::*;
use crate::text::str_eq;

verus! {

/// A configured policy: its id, the reference its module is fetched from, and,
/// once fetched, the module's local path.
pub struct PolicyDescriptor {
    pub id: String,
    pub url: String,
    pub local_path: Option<String>,
}

/// A fetched module: where it lies and the digest of its contents.
pub struct FetchedModule {
    pub local_path: String,
    pub digest: String,
}

/// Why a policy failed verification.
pub enum FailureReason {
    /// The signature check rejected the policy, for this reason.
    NotVerified(String),
    /// The fetched module's digest differs from the verified manifest digest.
    DigestMismatch { expected: String, actual: String },
}

/// A policy that failed verification.
pub struct VerificationFailure {
    pub policy: String,
    pub reason: FailureReason,
}

/// A module that could not be fetched.
pub struct FetchFailure {
    pub policy: String,
    pub url: String,
    pub message: String,
}

/// Why acquisition failed.
pub enum AcquireError {
    Fetch(FetchFailure),
    /// Every policy that failed verification, in declaration order.
    Verification(Vec<VerificationFailure>),
}

/// What the current policy waits for.
#[derive(PartialEq, Eq, Structural, Clone, Copy, Debug)]
pub enum Stage {
    AwaitVerify,
    AwaitFetch,
}

/// The next piece of outside work.
#[derive(PartialEq, Eq, Structural, Clone, Copy, Debug)]
pub enum AcquireAction {
    /// Check the signatures of the policy at this index.
    Verify(usize),
    /// Fetch the module of the policy at this index.
    Fetch(usize),
    /// Nothing is left: call `finish`.
    Finished,
}

/// The state of an acquisition run.
pub struct Acquirer {
    pub policies: Vec<PolicyDescriptor>,
    pub verification_enabled: bool,
    /// Index of the policy being acquired.
    pub current: usize,
    pub stage: Stage,
    /// The manifest digest that the signature check returned for the current
    /// policy.
    pub manifest_digest: Option<String>,
    pub failures: Vec<VerificationFailure>,
    pub fetch_failure: Option<FetchFailure>,
}

/// The stage at which each policy starts.
pub open spec fn first_stage(verification_enabled: bool) -> Stage {
    if verification_enabled {
        Stage::AwaitVerify
    } else {
        Stage::AwaitFetch
    }
}

/// The ids of `ps`.
pub open spec fn ids_of(ps: Seq<PolicyDescriptor>) -> Seq<String> {
    ps.map_values(|p: PolicyDescriptor| p.id)
}

impl Acquirer {
    pub open spec fn wf(&self) -> bool {
        &&& self.current <= self.policies@.len()
        &&& !self.verification_enabled ==> self.stage == Stage::AwaitFetch
        &&& self.stage == Stage::AwaitVerify ==> self.manifest_digest is None
        &&& (self.stage == Stage::AwaitFetch && self.verification_enabled)
            ==> self.manifest_digest is Some
        &&& !self.verification_enabled ==> self.manifest_digest is None
    }

    /// Nothing is left to do: a fetch failed, or every policy has been handled.
    pub open spec fn finished(&self) -> bool {
        self.fetch_failure is Some || self.current == self.policies@.len()
    }

    /// The id of the policy being acquired.
    pub open spec fn current_id(&self) -> String {
        self.policies@[self.current as int].id
    }

    /// What `b` is after `a` took the outcome `outcome` of a signature check.
    pub open spec fn after_verify(a: Acquirer, b: Acquirer, outcome: Result<String, String>) -> bool {
        &&& b.policies == a.policies
        &&& b.verification_enabled == a.verification_enabled
        &&& b.fetch_failure == a.fetch_failure
        &&& match outcome {
            Ok(d) => {
                &&& b.current == a.current
                &&& b.stage == Stage::AwaitFetch
                &&& b.manifest_digest == Some(d)
                &&& b.failures == a.failures
            },
            Err(e) => {
                &&& b.current == a.current + 1
                &&& b.stage == Stage::AwaitVerify
                &&& b.manifest_digest is None
                &&& b.failures@ == a.failures@.push(
                    VerificationFailure { policy: a.current_id(), reason: FailureReason::NotVerified(e) },
                )
            },
        }
    }

    /// What `b` is after `a` took the outcome `outcome` of a fetch.
    pub open spec fn after_fetch(a: Acquirer, b: Acquirer, outcome: Result<FetchedModule, String>) -> bool {
        &&& b.verification_enabled == a.verification_enabled
        &&& match outcome {
            Err(e) => {
                &&& b.policies == a.policies
                &&& b.current == a.current
                &&& b.stage == a.stage
                &&& b.manifest_digest == a.manifest_digest
                &&& b.failures == a.failures
                &&& b.fetch_failure == Some(
                    FetchFailure {
                        policy: a.current_id(),
                        url: a.policies@[a.current as int].url,
                        message: e,
                    },
                )
            },
            Ok(m) => {
                &&& b.current == a.current + 1
                &&& b.stage == first_stage(a.verification_enabled)
                &&& b.manifest_digest is None
                &&& b.fetch_failure == a.fetch_failure
                &&& if a.verification_enabled && a.manifest_digest->Some_0@ != m.digest@ {
                    &&& b.policies == a.policies
                    &&& b.failures@ == a.failures@.push(
                        VerificationFailure {
                            policy: a.current_id(),
                            reason: FailureReason::DigestMismatch {
                                expected: a.manifest_digest->Some_0,
                                actual: m.digest,
                            },
                        },
                    )
                } else {
                    &&& b.failures == a.failures
                    &&& b.policies@ == a.policies@.update(
                        a.current as int,
                        PolicyDescriptor {
                            id: a.current_id(),
                            url: a.policies@[a.current as int].url,
                            local_path: Some(m.local_path),
                        },
                    )
                }
            },
        }
    }

    /// Starts acquiring `policies`, checking signatures and digests when
    /// `verification_enabled`.
    pub fn new(policies: Vec<PolicyDescriptor>, verification_enabled: bool) -> (r: Acquirer)
        ensures
            r.wf(),
            r.policies == policies,
            r.verification_enabled == verification_enabled,
            r.current == 0,
            r.stage == first_stage(verification_enabled),
            r.failures@.len() == 0,
            r.fetch_failure is None,
    {
        Acquirer {
            policies,
            verification_enabled,
            current: 0,
            stage: if verification_enabled {
                Stage::AwaitVerify
            } else {
                Stage::AwaitFetch
            },
            manifest_digest: None,
            failures: Vec::new(),
            fetch_failure: None,
        }
    }

    /// The outside work to do next.
    pub fn next_action(&self) -> (r: AcquireAction)
        requires
            self.wf(),
        ensures
            self.finished() ==> r == AcquireAction::Finished,
            !self.finished() && self.stage == Stage::AwaitVerify ==> r == AcquireAction::Verify(
                self.current,
            ),
            !self.finished() && self.stage == Stage::AwaitFetch ==> r == AcquireAction::Fetch(
                self.current,
            ),
    {
        if self.fetch_failure.is_some() || self.current == self.policies.len() {
            AcquireAction::Finished
        } else {
            match self.stage {
                Stage::AwaitVerify => AcquireAction::Verify(self.current),
                Stage::AwaitFetch => AcquireAction::Fetch(self.current),
            }
        }
    }

    /// Takes the outcome of the current policy's signature check: its manifest
    /// digest, or why it failed. A failure is collected and the policy skipped.
    pub fn on_verified(&mut self, outcome: Result<String, String>)
        requires
            old(self).wf(),
            !old(self).finished(),
            old(self).stage == Stage::AwaitVerify,
        ensures
            final(self).wf(),
            Self::after_verify(*old(self), *final(self), outcome),
    {
        match outcome {
            Ok(d) => {
                self.manifest_digest = Some(d);
                self.stage = Stage::AwaitFetch;
            },
            Err(e) => {
                let id = self.policies[self.current].id.clone();
                self.failures.push(
                    VerificationFailure { policy: id, reason: FailureReason::NotVerified(e) },
                );
                let n = self.policies.len();
                assert(self.current < n);
                self.current = self.current + 1;
            },
        }
    }

    /// Takes the outcome of the current policy's fetch. A failed fetch ends
    /// acquisition. With verification on, a module whose digest differs from
    /// the verified manifest digest is collected as a failure; otherwise its
    /// local path is recorded.
    pub fn on_fetched(&mut self, outcome: Result<FetchedModule, String>)
        requires
            old(self).wf(),
            !old(self).finished(),
            old(self).stage == Stage::AwaitFetch,
        ensures
            final(self).wf(),
            Self::after_fetch(*old(self), *final(self), outcome),
    {
        let i = self.current;
        let n = self.policies.len();
        assert(i < n);
        match outcome {
            Err(e) => {
                let id = self.policies[i].id.clone();
                let url = self.policies[i].url.clone();
                self.fetch_failure = Some(FetchFailure { policy: id, url, message: e });
            },
            Ok(m) => {
                let mismatch = match &self.manifest_digest {
                    Some(d) => self.verification_enabled && !str_eq(d.as_str(), m.digest.as_str()),
                    None => false,
                };
                if mismatch {
                    let expected = match self.manifest_digest.take() {
                        Some(d) => d,
                        None => String::new(),
                    };
                    let id = self.policies[i].id.clone();
                    self.failures.push(
                        VerificationFailure {
                            policy: id,
                            reason: FailureReason::DigestMismatch { expected, actual: m.digest },
                        },
                    );
                } else {
                    self.policies[i].local_path = Some(m.local_path);
                    self.manifest_digest = None;
                }
                self.current = i + 1;
                self.stage = if self.verification_enabled {
                    Stage::AwaitVerify
                } else {
                    Stage::AwaitFetch
                };
            },
        }
    }

    /// The result of a finished run: the policies with their local paths, or
    /// the fetch failure, or every verification failure.
    pub fn finish(self) -> (r: Result<Vec<PolicyDescriptor>, AcquireError>)
        requires
            self.wf(),
            self.finished(),
        ensures
            match self.fetch_failure {
                Some(f) => r == Err::<Vec<PolicyDescriptor>, AcquireError>(AcquireError::Fetch(f)),
                None => if self.failures@.len() == 0 {
                    r == Ok::<Vec<PolicyDescriptor>, AcquireError>(self.policies)
                } else {
                    r == Err::<Vec<PolicyDescriptor>, AcquireError>(
                        AcquireError::Verification(self.failures),
                    )
                },
            },
    {
        match self.fetch_failure {
            Some(f) => Err(AcquireError::Fetch(f)),
            None => if self.failures.len() == 0 {
                Ok(self.policies)
            } else {
                Err(AcquireError::Verification(self.failures))
            },
        }
    }
}

/// `t` occurs in `s`.
pub open spec fn contains_text(s: Seq<char>, t: Seq<char>) -> bool {
    exists|i: int|
        0 <= i && i + t.len() <= s.len() && #[trigger] s.subrange(i, i + t.len()) == t
}

/// `items` separated by `", "`.
pub open spec fn listed(items: Seq<Seq<char>>) -> Seq<char>
    decreases items.len(),
{
    if items.len() == 0 {
        Seq::empty()
    } else if items.len() == 1 {
        items[0]
    } else {
        listed(items.drop_last()) + ", "@ + items.last()
    }
}

/// The sentence that reports one verification failure.
pub open spec fn failure_text(f: VerificationFailure) -> Seq<char> {
    match f.reason {
        FailureReason::NotVerified(r) => "Policy '"@ + f.policy@ + "' cannot be verified: "@ + r@,
        FailureReason::DigestMismatch { expected, actual } => "verification of policy "@
            + f.policy@ + " failed: module digest "@ + actual@
            + " differs from verified manifest digest "@ + expected@,
    }
}

pub open spec fn failures_text(fs: Seq<VerificationFailure>) -> Seq<char> {
    listed(fs.map_values(|f: VerificationFailure| failure_text(f)))
}

/// The message that reports an acquisition error.
pub open spec fn error_text(e: AcquireError) -> Seq<char> {
    match e {
        AcquireError::Fetch(f) => "error while downloading policy "@ + f.policy@ + " from "@
            + f.url@ + ": "@ + f.message@,
        AcquireError::Verification(fs) => "Failed to verify the following policies: "@
            + failures_text(fs@),
    }
}

fn failure_message(f: &VerificationFailure) -> (r: String)
    ensures
        r@ == failure_text(*f),
{
    let mut out = String::new();
    match &f.reason {
        FailureReason::NotVerified(reason) => {
            out.append("Policy '");
            out.append(f.policy.as_str());
            out.append("' cannot be verified: ");
            out.append(reason.as_str());
        },
        FailureReason::DigestMismatch { expected, actual } => {
            out.append("verification of policy ");
            out.append(f.policy.as_str());
            out.append(" failed: module digest ");
            out.append(actual.as_str());
            out.append(" differs from verified manifest digest ");
            out.append(expected.as_str());
        },
    }
    assert(out@ =~= failure_text(*f));
    out
}

impl AcquireError {
    /// The message that reports this error.
    pub fn message(&self) -> (r: String)
        ensures
            r@ == error_text(*self),
    {
        let mut out = String::new();
        match self {
            AcquireError::Fetch(f) => {
                out.append("error while downloading policy ");
                out.append(f.policy.as_str());
                out.append(" from ");
                out.append(f.url.as_str());
                out.append(": ");
                out.append(f.message.as_str());
            },
            AcquireError::Verification(fs) => {
                out.append("Failed to verify the following policies: ");
                let ghost base = out@;
                let ghost items = fs@.map_values(|f: VerificationFailure| failure_text(f));
                let mut i: usize = 0;
                while i < fs.len()
                    invariant
                        i <= fs@.len(),
                        items == fs@.map_values(|f: VerificationFailure| failure_text(f)),
                        out@ == base + listed(items.take(i as int)),
                    decreases fs@.len() - i,
                {
                    let ghost before = out@;
                    if i > 0 {
                        out.append(", ");
                    }
                    let t = failure_message(&fs[i]);
                    out.append(t.as_str());
                    proof {
                        assert(items.take(i + 1).drop_last() =~= items.take(i as int));
                        assert(items.take(i + 1).last() == items[i as int]);
                        if i == 0 {
                            assert(listed(items.take(0)) =~= Seq::empty());
                            assert(out@ =~= base + items[0]);
                        } else {
                            assert(out@ =~= before + ", "@ + items[i as int]);
                        }
                    }
                    i = i + 1;
                }
                assert(items.take(fs@.len() as int) =~= items);
            },
        }
        assert(out@ =~= error_text(*self));
        out
    }
}

/// `b` follows `a` by taking the outcome of the outside work that `a` asked for.
pub open spec fn acquisition_step(a: Acquirer, b: Acquirer) -> bool {
    &&& a.wf()
    &&& !a.finished()
    &&& {
        ||| a.stage == Stage::AwaitVerify && exists|o: Result<String, String>|
            #[trigger] Acquirer::after_verify(a, b, o)
        ||| a.stage == Stage::AwaitFetch && exists|o: Result<FetchedModule, String>|
            #[trigger] Acquirer::after_fetch(a, b, o)
    }
}

/// `run` is a sequence of states, each one step after the one before.
pub open spec fn acquisition_run(run: Seq<Acquirer>) -> bool {
    &&& run.len() > 0
    &&& forall|i: int| 0 <= i < run.len() - 1 ==> acquisition_step(#[trigger] run[i], run[i + 1])
}

/// One step keeps the failures collected so far and the policy ids; a step
/// that adds a failure adds one, naming the policy it handled.
pub proof fn lemma_step_keeps_failures(a: Acquirer, b: Acquirer)
    requires
        acquisition_step(a, b),
    ensures
        a.failures@.is_prefix_of(b.failures@),
        ids_of(b.policies@) == ids_of(a.policies@),
        b.failures@.len() > a.failures@.len() ==> {
            &&& b.failures@.len() == a.failures@.len() + 1
            &&& b.failures@[a.failures@.len() as int].policy == a.current_id()
        },
{
    if a.stage == Stage::AwaitVerify {
        let o = choose|o: Result<String, String>| #[trigger] Acquirer::after_verify(a, b, o);
        assert(a.failures@ =~= b.failures@.subrange(0, a.failures@.len() as int));
    } else {
        let o = choose|o: Result<FetchedModule, String>| #[trigger] Acquirer::after_fetch(a, b, o);
        assert(a.failures@ =~= b.failures@.subrange(0, a.failures@.len() as int));
        assert(ids_of(b.policies@) =~= ids_of(a.policies@));
    }
}

/// Across a run, no collected verification failure is lost and the policy ids
/// stay as they were.
pub proof fn lemma_failures_persist(run: Seq<Acquirer>)
    requires
        acquisition_run(run),
    ensures
        forall|i: int|
            0 <= i < run.len() ==> (#[trigger] run[i]).failures@.is_prefix_of(run.last().failures@),
        forall|i: int| 0 <= i < run.len() ==> ids_of((#[trigger] run[i]).policies@) == ids_of(run[0].policies@),
    decreases run.len(),
{
    if run.len() > 1 {
        let init = run.drop_last();
        assert forall|i: int| 0 <= i < init.len() - 1 implies acquisition_step(#[trigger] init[i], init[i + 1]) by {
            assert(init[i] == run[i] && init[i + 1] == run[i + 1]);
            assert(acquisition_step(run[i], run[i + 1]));
        }
        lemma_failures_persist(init);
        let k = run.len() - 2;
        assert(acquisition_step(run[k], run[k + 1]));
        lemma_step_keeps_failures(run[k], run[k + 1]);
        assert forall|i: int| 0 <= i < run.len() implies (#[trigger] run[i]).failures@.is_prefix_of(
            run.last().failures@,
        ) by {
            if i < run.len() - 1 {
                assert(init[i] == run[i]);
                assert(init.last() == run[k]);
                let fi = run[i].failures@;
                let fk = run[k].failures@;
                let fl = run.last().failures@;
                assert(fi =~= fl.subrange(0, fi.len() as int)) by {
                    assert(fi =~= fk.subrange(0, fi.len() as int));
                    assert(fk =~= fl.subrange(0, fk.len() as int));
                }
            } else {
                assert(run[i].failures@ =~= run.last().failures@.subrange(0, run[i].failures@.len() as int));
            }
        }
        assert forall|i: int| 0 <= i < run.len() implies ids_of((#[trigger] run[i]).policies@) == ids_of(
            run[0].policies@,
        ) by {
            if i < run.len() - 1 {
                assert(init[i] == run[i]);
            }
            assert(init[0] == run[0]);
            assert(init.last() == run[k]);
        }
    } else {
        assert(run[0] == run.last());
        assert(run[0].failures@ =~= run.last().failures@.subrange(0, run[0].failures@.len() as int));
    }
}

/// Every policy whose verification failed during a run is named, at the place
/// where its failure was collected, in the failures that the run ends with, and
/// thus in the error that `finish` returns.
pub proof fn lemma_every_failure_reported(run: Seq<Acquirer>)
    requires
        acquisition_run(run),
    ensures
        forall|i: int|
            0 <= i < run.len() - 1 && (#[trigger] run[i + 1]).failures@.len() > run[i].failures@.len()
                ==> {
                &&& run[i].failures@.len() < run.last().failures@.len()
                &&& run.last().failures@[run[i].failures@.len() as int].policy == run[i].current_id()
            },
{
    lemma_failures_persist(run);
    assert forall|i: int|
        0 <= i < run.len() - 1 && (#[trigger] run[i + 1]).failures@.len() > run[i].failures@.len()
            implies {
            &&& run[i].failures@.len() < run.last().failures@.len()
            &&& run.last().failures@[run[i].failures@.len() as int].policy == run[i].current_id()
        } by {
        assert(acquisition_step(run[i], run[i + 1]));
        lemma_step_keeps_failures(run[i], run[i + 1]);
        let n = run[i].failures@.len() as int;
        assert(run[i + 1].failures@.is_prefix_of(run.last().failures@));
        assert(run.last().failures@.subrange(0, run[i + 1].failures@.len() as int)[n]
            == run.last().failures@[n]);
    }
}

/// With verification on, a fetched module whose digest differs from the
/// verified manifest digest is collected as a failure that names its policy,
/// and the policy gets no local path.
pub proof fn lemma_digest_mismatch_names_policy(a: Acquirer, b: Acquirer, m: FetchedModule)
    requires
        a.wf(),
        !a.finished(),
        a.stage == Stage::AwaitFetch,
        a.verification_enabled,
        a.manifest_digest->Some_0@ != m.digest@,
        Acquirer::after_fetch(a, b, Ok(m)),
    ensures
        b.failures@.len() == a.failures@.len() + 1,
        b.failures@.last().policy == a.current_id(),
        b.failures@.last().reason == (FailureReason::DigestMismatch {
            expected: a.manifest_digest->Some_0,
            actual: m.digest,
        }),
        b.policies == a.policies,
        contains_text(failure_text(b.failures@.last()), a.current_id()@),
{
    let f = b.failures@.last();
    let pre = "verification of policy "@;
    let t = failure_text(f);
    assert(t.subrange(pre.len() as int, (pre.len() + f.policy@.len()) as int) =~= f.policy@);
}

/// The error message of a verification error holds the sentence of each of its
/// failures, and each sentence holds the failing policy's id.
pub proof fn lemma_error_text_lists_failure(fs: Seq<VerificationFailure>, k: int)
    requires
        0 <= k < fs.len(),
    ensures
        contains_text(failures_text(fs), failure_text(fs[k])),
        contains_text(failure_text(fs[k]), fs[k].policy@),
{
    let items = fs.map_values(|f: VerificationFailure| failure_text(f));
    lemma_listed_contains(items, k);
    let f = fs[k];
    let t = failure_text(f);
    let pre = match f.reason {
        FailureReason::NotVerified(_) => "Policy '"@,
        FailureReason::DigestMismatch { .. } => "verification of policy "@,
    };
    assert(t.subrange(pre.len() as int, (pre.len() + f.policy@.len()) as int) =~= f.policy@);
}

proof fn lemma_listed_contains(items: Seq<Seq<char>>, k: int)
    requires
        0 <= k < items.len(),
    ensures
        contains_text(listed(items), items[k]),
    decreases items.len(),
{
    let l = listed(items);
    let t = items[k];
    if items.len() == 1 {
        let at: int = 0;
        assert(l.subrange(at, at + t.len()) =~= t);
    } else {
        let init = items.drop_last();
        let front = listed(init);
        assert(l == front + ", "@ + items.last());
        if k == items.len() - 1 {
            reveal_strlit(", ");
            let at: int = front.len() + 2int;
            assert(l.subrange(at, at + t.len()) =~= t);
        } else {
            lemma_listed_contains(init, k);
            assert(init[k] == t);
            let at = choose|i: int|
                0 <= i && i + t.len() <= front.len() && #[trigger] front.subrange(i, i + t.len()) == t;
            assert(l.subrange(at, at + t.len()) =~= front.subrange(at, at + t.len()));
        }
    }
}

} // verus!
