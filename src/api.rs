//! The evaluation front-end's decisions: which handler a request reaches,
//! which fields a trace span records, and the HTTP reply for each outcome of
//! an evaluation.
use vstd::prelude::*;
use vstd::string::*;
use crate::admission::{AdmissionRequest, Verdict, VerdictStatus};
use crate::text::{has_prefix, strip_all, decimal, json_string_of, json_quote, str_eq,
    starts_with, strip_prefix_repeatedly, decimal_string};

verus! {

/// The HTTP methods that the router tells apart.
#[derive(PartialEq, Eq, Structural, Clone, Copy, Debug)]
pub enum Method {
    Get,
    Post,
    Other,
}

/// The handler that a request reaches.
pub enum Route {
    /// `POST /validate/{policy_id}`, with the policy id.
    Validate(String),
    /// `GET /readiness`.
    Readiness,
    NotFound,
}

/// `r` is the route of a request with `method` and `path`.
pub open spec fn routes_to(method: Method, path: Seq<char>, r: Route) -> bool {
    let validate = method == Method::Post && has_prefix(path, "/validate/"@);
    let ready = method == Method::Get && path == "/readiness"@;
    match r {
        Route::Validate(id) => validate && id@ == strip_all(path, "/validate/"@),
        Route::Readiness => ready,
        Route::NotFound => !validate && !ready,
    }
}

/// Picks the handler for a request.
pub fn route(method: Method, path: &str) -> (r: Route)
    ensures
        routes_to(method, path@, r),
{
    match method {
        Method::Post => {
            if starts_with(path, "/validate/") {
                Route::Validate(strip_prefix_repeatedly(path, "/validate/"))
            } else {
                Route::NotFound
            }
        },
        Method::Get => {
            if str_eq(path, "/readiness") {
                Route::Readiness
            } else {
                Route::NotFound
            }
        },
        Method::Other => Route::NotFound,
    }
}

/// An optional string, or the empty string.
pub open spec fn or_empty(o: Option<String>) -> Seq<char> {
    match o {
        Some(s) => s@,
        None => Seq::empty(),
    }
}

fn string_or_empty(o: &Option<String>) -> (r: String)
    ensures
        r@ == or_empty(*o),
{
    match o {
        Some(s) => s.clone(),
        None => String::new(),
    }
}

/// What the validation span records of the admission request.
pub struct RequestSpanFields {
    pub kind: String,
    pub kind_group: String,
    pub kind_version: String,
    pub name: String,
    pub namespace: String,
    pub operation: String,
    pub request_uid: String,
    pub resource: String,
    pub resource_group: String,
    pub resource_version: String,
    pub subresource: String,
}

/// The span fields that identify an admission request; an absent name,
/// namespace or subresource is recorded as the empty string.
pub fn populate_span_with_admission_request_data(adm_req: &AdmissionRequest) -> (r:
    RequestSpanFields)
    ensures
        r.kind@ == adm_req.kind.kind@,
        r.kind_group@ == adm_req.kind.group@,
        r.kind_version@ == adm_req.kind.version@,
        r.name@ == or_empty(adm_req.name),
        r.namespace@ == or_empty(adm_req.namespace),
        r.operation@ == adm_req.operation@,
        r.request_uid@ == adm_req.uid@,
        r.resource@ == adm_req.resource.resource@,
        r.resource_group@ == adm_req.resource.group@,
        r.resource_version@ == adm_req.resource.version@,
        r.subresource@ == or_empty(adm_req.sub_resource),
{
    RequestSpanFields {
        kind: adm_req.kind.kind.clone(),
        kind_group: adm_req.kind.group.clone(),
        kind_version: adm_req.kind.version.clone(),
        name: string_or_empty(&adm_req.name),
        namespace: string_or_empty(&adm_req.namespace),
        operation: adm_req.operation.clone(),
        request_uid: adm_req.uid.clone(),
        resource: adm_req.resource.resource.clone(),
        resource_group: adm_req.resource.group.clone(),
        resource_version: adm_req.resource.version.clone(),
        subresource: string_or_empty(&adm_req.sub_resource),
    }
}

/// What the validation span records of a verdict.
pub struct VerdictSpanFields {
    pub allowed: bool,
    pub mutated: bool,
    pub response_code: Option<u16>,
    pub response_message: Option<String>,
}

/// The span fields of a verdict.
pub fn populate_span_with_policy_evaluation_results(validation: &Verdict) -> (r:
    VerdictSpanFields)
    ensures
        r.allowed == validation.allowed,
        r.mutated == validation.patch.is_some(),
        r.response_code == (match validation.status {
            Some(st) => st.code,
            None => None,
        }),
        r.response_message == (match validation.status {
            Some(st) => st.message,
            None => None,
        }),
{
    let (code, message) = match &validation.status {
        Some(st) => (st.code, st.message.clone()),
        None => (None, None),
    };
    VerdictSpanFields {
        allowed: validation.allowed,
        mutated: validation.patch.is_some(),
        response_code: code,
        response_message: message,
    }
}

/// `items` joined by commas.
pub open spec fn comma_joined(items: Seq<Seq<char>>) -> Seq<char>
    decreases items.len(),
{
    if items.len() == 0 {
        Seq::empty()
    } else if items.len() == 1 {
        items[0]
    } else {
        comma_joined(items.drop_last()) + ","@ + items.last()
    }
}

/// One `"key":"value"` member of the annotations object.
pub open spec fn annotation_json(p: (String, String)) -> Seq<char> {
    json_string_of(p.0@) + ":"@ + json_string_of(p.1@)
}

pub open spec fn annotations_body(ps: Seq<(String, String)>) -> Seq<char> {
    comma_joined(ps.map_values(|p: (String, String)| annotation_json(p)))
}

pub open spec fn warnings_body(ws: Seq<String>) -> Seq<char> {
    comma_joined(ws.map_values(|w: String| json_string_of(w@)))
}

pub open spec fn bool_json(b: bool) -> Seq<char> {
    if b {
        "true"@
    } else {
        "false"@
    }
}

pub open spec fn status_body(st: VerdictStatus) -> Seq<char> {
    match (st.code, st.message) {
        (Some(c), Some(m)) => "\"code\":"@ + decimal(c as nat) + ",\"message\":"@ + json_string_of(
            m@,
        ),
        (Some(c), None) => "\"code\":"@ + decimal(c as nat),
        (None, Some(m)) => "\"message\":"@ + json_string_of(m@),
        (None, None) => Seq::empty(),
    }
}

/// The optional members of a verdict, each with its leading comma.
pub open spec fn annotations_part(a: Option<Vec<(String, String)>>) -> Seq<char> {
    match a {
        Some(ps) => ",\"auditAnnotations\":{"@ + annotations_body(ps@) + "}"@,
        None => Seq::empty(),
    }
}

/// A string member with its key text, or nothing when the value is absent.
pub open spec fn opt_member(key: Seq<char>, o: Option<String>) -> Seq<char> {
    match o {
        Some(s) => key + json_string_of(s@),
        None => Seq::empty(),
    }
}

pub open spec fn patch_part(p: Option<String>) -> Seq<char> {
    opt_member(",\"patch\":"@, p)
}

pub open spec fn patch_type_part(p: Option<String>) -> Seq<char> {
    opt_member(",\"patchType\":"@, p)
}

pub open spec fn status_part(s: Option<VerdictStatus>) -> Seq<char> {
    match s {
        Some(st) => ",\"status\":{"@ + status_body(st) + "}"@,
        None => Seq::empty(),
    }
}

pub open spec fn warnings_part(w: Option<Vec<String>>) -> Seq<char> {
    match w {
        Some(ws) => ",\"warnings\":["@ + warnings_body(ws@) + "]"@,
        None => Seq::empty(),
    }
}

/// Everything of the response object before its `uid` member.
pub open spec fn verdict_head(v: Verdict) -> Seq<char> {
    "{\"allowed\":"@ + bool_json(v.allowed) + annotations_part(v.audit_annotations) + patch_part(
        v.patch,
    ) + patch_type_part(v.patch_type) + status_part(v.status)
}

/// The `uid` member of the response object.
pub open spec fn uid_member(uid: Seq<char>) -> Seq<char> {
    ",\"uid\":"@ + json_string_of(uid)
}

/// The response object: the verdict's members and the request's `uid`, keys in
/// alphabetical order, absent members left out.
pub open spec fn verdict_json(uid: Seq<char>, v: Verdict) -> Seq<char> {
    verdict_head(v) + uid_member(uid) + warnings_part(v.warnings) + "}"@
}

pub open spec fn review_prefix() -> Seq<char> {
    "{\"apiVersion\":\"admission.k8s.io/v1\",\"kind\":\"AdmissionReview\",\"response\":"@
}

/// The `AdmissionReview` document that answers a request with `uid`.
pub open spec fn review_json(uid: Seq<char>, v: Verdict) -> Seq<char> {
    review_prefix() + verdict_json(uid, v) + "}"@
}

fn append_annotations(out: &mut String, ps: &Vec<(String, String)>)
    ensures
        final(out)@ == old(out)@ + annotations_body(ps@),
{
    let ghost base = out@;
    let ghost items = ps@.map_values(|p: (String, String)| annotation_json(p));
    let mut i: usize = 0;
    while i < ps.len()
        invariant
            i <= ps@.len(),
            items == ps@.map_values(|p: (String, String)| annotation_json(p)),
            out@ == base + comma_joined(items.take(i as int)),
        decreases ps@.len() - i,
    {
        let ghost before = out@;
        if i > 0 {
            out.append(",");
        }
        let k = json_quote(ps[i].0.as_str());
        out.append(k.as_str());
        out.append(":");
        let v = json_quote(ps[i].1.as_str());
        out.append(v.as_str());
        proof {
            assert(items.take(i + 1).drop_last() =~= items.take(i as int));
            assert(items.take(i + 1).last() == items[i as int]);
            if i == 0 {
                assert(comma_joined(items.take(0)) =~= Seq::empty());
                assert(out@ =~= base + items[0]);
            } else {
                assert(out@ =~= before + ","@ + items[i as int]);
            }
        }
        i = i + 1;
    }
    assert(items.take(ps@.len() as int) =~= items);
}

fn append_warnings(out: &mut String, ws: &Vec<String>)
    ensures
        final(out)@ == old(out)@ + warnings_body(ws@),
{
    let ghost base = out@;
    let ghost items = ws@.map_values(|w: String| json_string_of(w@));
    let mut i: usize = 0;
    while i < ws.len()
        invariant
            i <= ws@.len(),
            items == ws@.map_values(|w: String| json_string_of(w@)),
            out@ == base + comma_joined(items.take(i as int)),
        decreases ws@.len() - i,
    {
        let ghost before = out@;
        if i > 0 {
            out.append(",");
        }
        let w = json_quote(ws[i].as_str());
        out.append(w.as_str());
        proof {
            assert(items.take(i + 1).drop_last() =~= items.take(i as int));
            assert(items.take(i + 1).last() == items[i as int]);
            if i == 0 {
                assert(comma_joined(items.take(0)) =~= Seq::empty());
                assert(out@ =~= base + items[0]);
            } else {
                assert(out@ =~= before + ","@ + items[i as int]);
            }
        }
        i = i + 1;
    }
    assert(items.take(ws@.len() as int) =~= items);
}

fn append_status(out: &mut String, st: &VerdictStatus)
    ensures
        final(out)@ == old(out)@ + status_body(*st),
{
    match (&st.code, &st.message) {
        (Some(c), Some(m)) => {
            out.append("\"code\":");
            let d = decimal_string(*c);
            out.append(d.as_str());
            out.append(",\"message\":");
            let q = json_quote(m.as_str());
            out.append(q.as_str());
        },
        (Some(c), None) => {
            out.append("\"code\":");
            let d = decimal_string(*c);
            out.append(d.as_str());
        },
        (None, Some(m)) => {
            out.append("\"message\":");
            let q = json_quote(m.as_str());
            out.append(q.as_str());
        },
        (None, None) => {},
    }
    assert(final(out)@ =~= old(out)@ + status_body(*st));
}

fn append_opt_member(out: &mut String, key: &str, o: &Option<String>)
    ensures
        final(out)@ == old(out)@ + opt_member(key@, *o),
{
    match o {
        Some(s) => {
            out.append(key);
            let q = json_quote(s.as_str());
            out.append(q.as_str());
        },
        None => {},
    }
    assert(final(out)@ =~= old(out)@ + opt_member(key@, *o));
}

fn append_verdict_head(out: &mut String, v: &Verdict)
    ensures
        final(out)@ == old(out)@ + verdict_head(*v),
{
    let ghost s0 = out@;
    out.append("{\"allowed\":");
    if v.allowed {
        out.append("true");
    } else {
        out.append("false");
    }
    let ghost s1 = out@;
    match &v.audit_annotations {
        Some(ps) => {
            out.append(",\"auditAnnotations\":{");
            append_annotations(out, ps);
            out.append("}");
        },
        None => {},
    }
    assert(out@ =~= s1 + annotations_part(v.audit_annotations));
    let ghost s2 = out@;
    append_opt_member(out, ",\"patch\":", &v.patch);
    append_opt_member(out, ",\"patchType\":", &v.patch_type);
    let ghost s4 = out@;
    match &v.status {
        Some(st) => {
            out.append(",\"status\":{");
            append_status(out, st);
            out.append("}");
        },
        None => {},
    }
    assert(out@ =~= s4 + status_part(v.status));
    assert(out@ =~= s0 + verdict_head(*v));
}

fn append_warnings_part(out: &mut String, w: &Option<Vec<String>>)
    ensures
        final(out)@ == old(out)@ + warnings_part(*w),
{
    match w {
        Some(ws) => {
            out.append(",\"warnings\":[");
            append_warnings(out, ws);
            out.append("]");
        },
        None => {},
    }
    assert(final(out)@ =~= old(out)@ + warnings_part(*w));
}

/// Writes the `AdmissionReview` that answers the request with `uid` with the
/// verdict `validation_response`.
pub fn build_ar_response(uid: &str, validation_response: &Verdict) -> (r: String)
    ensures
        r@ == review_json(uid@, *validation_response),
{
    let v = validation_response;
    let mut out = String::new();
    out.append("{\"apiVersion\":\"admission.k8s.io/v1\",\"kind\":\"AdmissionReview\",\"response\":");
    let ghost s0 = out@;
    append_verdict_head(&mut out, v);
    out.append(",\"uid\":");
    let q = json_quote(uid);
    out.append(q.as_str());
    append_warnings_part(&mut out, &v.warnings);
    out.append("}");
    assert(out@ =~= s0 + verdict_json(uid@, *v));
    out.append("}");
    assert(out@ =~= review_json(uid@, *v));
    out
}

/// What a worker answers for one evaluation request.
pub enum EvalReply {
    /// No policy with the requested id is loaded.
    UnknownPolicy,
    Evaluated(Verdict),
}

/// How the handling of `POST /validate/{policy_id}` ended.
pub enum ValidateOutcome {
    /// The body is not an `AdmissionReview`.
    MalformedBody,
    /// The evaluation request could not be handed to the worker pool.
    PoolUnavailable,
    /// The reply slot closed without a value.
    ReplyDropped,
    /// A worker answered the request with this `uid`.
    Replied { request_uid: String, reply: EvalReply },
}

/// An HTTP status and, for a verdict, the JSON body.
pub struct HttpReply {
    pub status: u16,
    pub body: Option<String>,
}

/// The status that answers each outcome.
pub open spec fn outcome_status(o: ValidateOutcome) -> u16 {
    match o {
        ValidateOutcome::MalformedBody => 400,
        ValidateOutcome::PoolUnavailable => 500,
        ValidateOutcome::ReplyDropped => 500,
        ValidateOutcome::Replied { reply: EvalReply::UnknownPolicy, .. } => 404,
        ValidateOutcome::Replied { reply: EvalReply::Evaluated(_), .. } => 200,
    }
}

/// The reply to `POST /validate/{policy_id}`: `200` with the `AdmissionReview`
/// for a verdict, `404` for an unknown policy, `400` for a malformed body and
/// `500` when the pool cannot be reached or drops the reply.
pub fn handle_post_validate(outcome: &ValidateOutcome) -> (r: HttpReply)
    ensures
        r.status == outcome_status(*outcome),
        match *outcome {
            ValidateOutcome::Replied { request_uid, reply: EvalReply::Evaluated(v) } => r.body
                is Some && r.body->Some_0@ == review_json(request_uid@, v),
            _ => r.body is None,
        },
{
    match outcome {
        ValidateOutcome::MalformedBody => HttpReply { status: 400, body: None },
        ValidateOutcome::PoolUnavailable => HttpReply { status: 500, body: None },
        ValidateOutcome::ReplyDropped => HttpReply { status: 500, body: None },
        ValidateOutcome::Replied { request_uid, reply } => match reply {
            EvalReply::UnknownPolicy => HttpReply { status: 404, body: None },
            EvalReply::Evaluated(v) => {
                let json = build_ar_response(request_uid.as_str(), v);
                HttpReply { status: 200, body: Some(json) }
            },
        },
    }
}

/// The reply to a request that reaches no handler.
pub fn handle_not_found() -> (r: HttpReply)
    ensures
        r.status == 404,
        r.body is None,
{
    HttpReply { status: 404, body: None }
}

/// The reply to `GET /readiness`. The listener is bound only once the worker
/// pool has booted, so reaching this handler already means ready.
pub fn handle_ready() -> (r: HttpReply)
    ensures
        r.status == 200,
        r.body is None,
{
    HttpReply { status: 200, body: None }
}

/// The `uid` of the response in an `AdmissionReview` is the `uid` of the request
/// it answers: the document is the verdict's own members around exactly one
/// `uid` member, written from the request's `uid`.
pub proof fn lemma_response_uid_is_request_uid(request: AdmissionRequest, verdict: Verdict)
    ensures
        review_json(request.uid@, verdict) == review_prefix() + verdict_head(verdict) + uid_member(
            request.uid@,
        ) + warnings_part(verdict.warnings) + "}"@ + "}"@,
        ({
            let doc = review_json(request.uid@, verdict);
            let at = review_prefix().len() + verdict_head(verdict).len();
            let m = uid_member(request.uid@);
            &&& at + m.len() <= doc.len()
            &&& doc.subrange(at as int, (at + m.len()) as int) == m
        }),
{
    let doc = review_json(request.uid@, verdict);
    let head = review_prefix() + verdict_head(verdict);
    let m = uid_member(request.uid@);
    let tail = warnings_part(verdict.warnings) + "}"@ + "}"@;
    assert(doc =~= head + m + tail);
    assert(doc.subrange(head.len() as int, (head.len() + m.len()) as int) =~= m);
}

} // verus!
