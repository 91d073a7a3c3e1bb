//! The parts of a Kubernetes admission exchange that the server reads or
//! writes: the incoming request's identity and the policy's verdict.
use vstd::prelude::*;

verus! {

/// Group, version and kind of the object under review.
pub struct GroupVersionKind {
    pub group: String,
    pub version: String,
    pub kind: String,
}

/// Group, version and resource name of the object under review.
pub struct GroupVersionResource {
    pub group: String,
    pub version: String,
    pub resource: String,
}

/// The identity fields of an `AdmissionRequest`.
pub struct AdmissionRequest {
    pub uid: String,
    pub kind: GroupVersionKind,
    pub resource: GroupVersionResource,
    pub sub_resource: Option<String>,
    pub name: Option<String>,
    pub namespace: Option<String>,
    pub operation: String,
}

/// Status attached to a verdict.
pub struct VerdictStatus {
    pub code: Option<u16>,
    pub message: Option<String>,
}

/// The decision that a policy returned for one request.
pub struct Verdict {
    pub allowed: bool,
    /// A base64-encoded JSON patch, present when the policy mutates.
    pub patch: Option<String>,
    pub patch_type: Option<String>,
    pub status: Option<VerdictStatus>,
    /// Annotations for the audit log, as key and value, in key order.
    pub audit_annotations: Option<Vec<(String, String)>>,
    pub warnings: Option<Vec<String>>,
}

} // verus!
