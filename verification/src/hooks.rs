//! The lifecycle hook dispatcher.
//!
//! One entry point per stage. Each decodes the input document, performs
//! the stage's action, and produces exactly one response envelope plus
//! the trace records owed to the host: an info record when the stage is
//! called, one when the request parses, and an error record mirroring
//! every failure envelope. The per-stage table of success payloads,
//! error codes and failure status codes is pinned by
//! [`spec_success_kind`], [`spec_error_code`] and [`spec_failure_status`].
//!
//! `ReadBegin` reuses `CreateBegin`'s error code, and the reconciling
//! create-begin stage reports action failures under the code
//! "Failed to create storage account" while its decode failures use the
//! table's "Resource Creation Error"; both are inherited from the
//! protocol this speaks and kept for compatibility with its existing
//! callers.

use vstd::prelude::*;

use crate::codec::{
    decode_request, exit_error, exit_success_no_payload, exit_success_with_resource,
    exit_success_with_resource_and_headers, exit_success_with_status, request_of,
    resource_matches, DecodeError, Request, RequestShape, ResponseEnvelope, ResponsePayload,
};
use crate::identifier::{get_resource_details_from_resource_id, split_slashes, trimmed};
use crate::reconcile::{
    create_failed_message, get_failed_message, lemma_poll_run_skip, location_not_set_message,
    poll_run, polls_suffice, resolve_location, succeeded_state, timeout_message,
    CreateCallResult, PollCallResult, PollSummary, ATTEMPT_LIMIT,
};
use crate::trace::TraceRecord;

verus! {

/// The fixed hook points of a managed-resource operation.
pub enum Stage {
    CreateValidate,
    CreateBegin,
    CreateCompleted,
    ReadValidate,
    ReadBegin,
    PatchValidate,
    PatchBegin,
    PatchCompleted,
    PostAction,
    DeleteValidate,
    DeleteBegin,
    DeleteCompleted,
}

/// What a stage answers with on success.
pub enum SuccessKind {
    /// A succeeded status object.
    StatusOnly,
    /// The request's resource, echoed back.
    ResourceEcho,
    /// No payload at all.
    NoPayload,
}

/// The name under which the host calls the stage.
pub open spec fn spec_stage_name(stage: Stage) -> Seq<char> {
    match stage {
        Stage::CreateValidate => "ResourceCreationValidate"@,
        Stage::CreateBegin => "ResourceCreationBegin"@,
        Stage::CreateCompleted => "ResourceCreationCompleted"@,
        Stage::ReadValidate => "ResourceReadValidate"@,
        Stage::ReadBegin => "ResourceReadBegin"@,
        Stage::PatchValidate => "ResourcePatchValidate"@,
        Stage::PatchBegin => "ResourcePatchBegin"@,
        Stage::PatchCompleted => "ResourcePatchCompleted"@,
        Stage::PostAction => "ResourcePostAction"@,
        Stage::DeleteValidate => "ResourceDeletionValidate"@,
        Stage::DeleteBegin => "ResourceDeletionBegin"@,
        Stage::DeleteCompleted => "ResourceDeletionCompleted"@,
    }
}

/// The error code a stage reports when decode or its action fails.
pub open spec fn spec_error_code(stage: Stage) -> Seq<char> {
    match stage {
        Stage::CreateValidate => "Resource Create Validation Error"@,
        Stage::CreateBegin => "Resource Creation Error"@,
        Stage::CreateCompleted => "Resource Creation Complete Error"@,
        Stage::ReadValidate => "Resource Read Validate Error"@,
        Stage::ReadBegin => "Resource Creation Error"@,
        Stage::PatchValidate => "Resource Patch Validate Error"@,
        Stage::PatchBegin => "Resource Patch Begin Error"@,
        Stage::PatchCompleted => "Resource Patch Complete Error"@,
        Stage::PostAction => "Resource Action Error"@,
        Stage::DeleteValidate => "Resource Delete Validation Error"@,
        Stage::DeleteBegin => "Resource Deletion Error"@,
        Stage::DeleteCompleted => "Resource Delete Complete Error"@,
    }
}

/// The status code of a stage's failure envelope: 200 for the validate
/// family, 500 for everything else.
pub open spec fn spec_failure_status(stage: Stage) -> i32 {
    match stage {
        Stage::CreateValidate => 200,
        Stage::ReadValidate => 200,
        Stage::PatchValidate => 200,
        Stage::DeleteValidate => 200,
        _ => 500,
    }
}

/// The success payload of each stage.
pub open spec fn spec_success_kind(stage: Stage) -> SuccessKind {
    match stage {
        Stage::CreateValidate => SuccessKind::StatusOnly,
        Stage::CreateBegin => SuccessKind::ResourceEcho,
        Stage::CreateCompleted => SuccessKind::NoPayload,
        Stage::ReadValidate => SuccessKind::StatusOnly,
        Stage::ReadBegin => SuccessKind::ResourceEcho,
        Stage::PatchValidate => SuccessKind::ResourceEcho,
        Stage::PatchBegin => SuccessKind::ResourceEcho,
        Stage::PatchCompleted => SuccessKind::NoPayload,
        Stage::PostAction => SuccessKind::NoPayload,
        Stage::DeleteValidate => SuccessKind::StatusOnly,
        Stage::DeleteBegin => SuccessKind::ResourceEcho,
        Stage::DeleteCompleted => SuccessKind::NoPayload,
    }
}

/// The host-facing name, as a value.
pub fn stage_name(stage: &Stage) -> (r: String)
    ensures
        r@ == spec_stage_name(*stage),
{
    match stage {
        Stage::CreateValidate => String::from_str("ResourceCreationValidate"),
        Stage::CreateBegin => String::from_str("ResourceCreationBegin"),
        Stage::CreateCompleted => String::from_str("ResourceCreationCompleted"),
        Stage::ReadValidate => String::from_str("ResourceReadValidate"),
        Stage::ReadBegin => String::from_str("ResourceReadBegin"),
        Stage::PatchValidate => String::from_str("ResourcePatchValidate"),
        Stage::PatchBegin => String::from_str("ResourcePatchBegin"),
        Stage::PatchCompleted => String::from_str("ResourcePatchCompleted"),
        Stage::PostAction => String::from_str("ResourcePostAction"),
        Stage::DeleteValidate => String::from_str("ResourceDeletionValidate"),
        Stage::DeleteBegin => String::from_str("ResourceDeletionBegin"),
        Stage::DeleteCompleted => String::from_str("ResourceDeletionCompleted"),
    }
}

/// The stage's error code, as a value.
pub fn error_code(stage: &Stage) -> (r: String)
    ensures
        r@ == spec_error_code(*stage),
{
    match stage {
        Stage::CreateValidate => String::from_str("Resource Create Validation Error"),
        Stage::CreateBegin => String::from_str("Resource Creation Error"),
        Stage::CreateCompleted => String::from_str("Resource Creation Complete Error"),
        Stage::ReadValidate => String::from_str("Resource Read Validate Error"),
        Stage::ReadBegin => String::from_str("Resource Creation Error"),
        Stage::PatchValidate => String::from_str("Resource Patch Validate Error"),
        Stage::PatchBegin => String::from_str("Resource Patch Begin Error"),
        Stage::PatchCompleted => String::from_str("Resource Patch Complete Error"),
        Stage::PostAction => String::from_str("Resource Action Error"),
        Stage::DeleteValidate => String::from_str("Resource Delete Validation Error"),
        Stage::DeleteBegin => String::from_str("Resource Deletion Error"),
        Stage::DeleteCompleted => String::from_str("Resource Delete Complete Error"),
    }
}

/// The stage's failure status code, as a value.
pub fn failure_status(stage: &Stage) -> (r: i32)
    ensures
        r == spec_failure_status(*stage),
{
    match stage {
        Stage::CreateValidate => 200,
        Stage::ReadValidate => 200,
        Stage::PatchValidate => 200,
        Stage::DeleteValidate => 200,
        _ => 500,
    }
}

/// One activation's outcome: the response envelope and the trace
/// records owed to the host, in order.
pub struct HookResult {
    pub response: ResponseEnvelope,
    pub traces: Vec<TraceRecord>,
}

/// Exactly the one `Content-Type: application/merge-patch+json` header.
pub open spec fn merge_patch_headers(h: Seq<(String, Vec<String>)>) -> bool {
    &&& h.len() == 1
    &&& h[0].0@ == "Content-Type"@
    &&& h[0].1@.len() == 1
    &&& h[0].1@[0]@ == "application/merge-patch+json"@
}

/// The two info records of a stage whose request decoded to the
/// resource identifier `rid`.
pub open spec fn parsed_traces(stage: Stage, rid: Seq<char>, traces: Seq<TraceRecord>) -> bool {
    &&& traces.len() >= 2
    &&& traces[0] matches TraceRecord::Info { message } && message@ == spec_stage_name(stage)
        + " Called"@
    &&& traces[1] matches TraceRecord::Info { message } && message@ == spec_stage_name(stage)
        + " Request Parsed for "@ + rid
}

/// A stage's success answer: status 200, the payload of the stage's
/// kind, the merge-patch content type on the patch begin stage and no
/// headers elsewhere, and the two info traces.
pub open spec fn stage_success(stage: Stage, env: Request, r: HookResult) -> bool {
    &&& r.response.http_status_code == 200
    &&& match spec_success_kind(stage) {
        SuccessKind::StatusOnly => r.response.payload == Some(
            ResponsePayload::Status { succeeded: true, error: None },
        ),
        SuccessKind::NoPayload => r.response.payload is None,
        SuccessKind::ResourceEcho => r.response.payload == Some(
            ResponsePayload::Resource(env.request),
        ),
    }
    &&& if stage is PatchBegin {
        merge_patch_headers(r.response.headers@)
    } else {
        r.response.headers@.len() == 0
    }
    &&& r.traces@.len() == 2
    &&& parsed_traces(stage, env.resource_id@, r.traces@)
}

/// A stage's failure answer for a cause described by `msg`: the stage's
/// failure status and error code, a failed status payload carrying the
/// description, no headers, and the called trace followed by the error
/// record mirroring the failure.
pub open spec fn stage_failure(stage: Stage, msg: Seq<char>, r: HookResult) -> bool {
    &&& r.response.http_status_code == spec_failure_status(stage)
    &&& r.response.payload matches Some(ResponsePayload::Status { succeeded, error }) && !succeeded
        && (error matches Some(d) && d.code@ == spec_error_code(stage) && d.message@ == msg)
    &&& r.response.headers@.len() == 0
    &&& r.traces@.len() == 2
    &&& r.traces@[0] matches TraceRecord::Info { message } && message@ == spec_stage_name(stage)
        + " Called"@
    &&& r.traces@[1] matches TraceRecord::Error { code, message, status_code } && code@
        == spec_error_code(stage) && message@ == msg && status_code == spec_failure_status(stage)
}

/// What a baseline stage answers on each decode outcome.
pub open spec fn hook_post(stage: Stage, decoded: Result<Request, DecodeError>, r: HookResult) -> bool {
    match decoded {
        Ok(env) => stage_success(stage, env, r),
        Err(e) => stage_failure(stage, e.spec_message(), r),
    }
}

/// [`stage_success`], stated over the decoded shape instead of the
/// envelope value: the echoed resource matches the shape field for
/// field.
pub open spec fn stage_success_shape(stage: Stage, sh: RequestShape, r: HookResult) -> bool {
    &&& r.response.http_status_code == 200
    &&& match spec_success_kind(stage) {
        SuccessKind::StatusOnly => r.response.payload == Some(
            ResponsePayload::Status { succeeded: true, error: None },
        ),
        SuccessKind::NoPayload => r.response.payload is None,
        SuccessKind::ResourceEcho => r.response.payload matches Some(
            ResponsePayload::Resource(res),
        ) && resource_matches(res, sh.request),
    }
    &&& if stage is PatchBegin {
        merge_patch_headers(r.response.headers@)
    } else {
        r.response.headers@.len() == 0
    }
    &&& r.traces@.len() == 2
    &&& parsed_traces(stage, sh.resource_id, r.traces@)
}

/// What a baseline stage answers on each input text, over the named
/// parse result: the stage's failure envelope for malformed text or an
/// alien shape, and the stage's success answer for a document with the
/// envelope shape.
pub open spec fn run_hook_post(stage: Stage, s: Seq<char>, r: HookResult) -> bool {
    match crate::wire::doc_of(s) {
        None => stage_failure(stage, DecodeError::Malformed.spec_message(), r),
        Some(j) => match request_of(j) {
            None => stage_failure(stage, DecodeError::Incompatible.spec_message(), r),
            Some(sh) => stage_success_shape(stage, sh, r),
        },
    }
}

/// Runs one baseline stage on an already-decoded request.
pub fn run_stage(stage: &Stage, decoded: Result<Request, DecodeError>) -> (r: HookResult)
    ensures
        hook_post(*stage, decoded, r),
{
    let mut traces: Vec<TraceRecord> = Vec::new();
    let mut called = stage_name(stage);
    called.append(" Called");
    traces.push(TraceRecord::Info { message: called });
    match decoded {
        Ok(env) => {
            let ghost env0 = env;
            let Request { resource_id, request, headers: _request_headers } = env;
            let mut parsed = stage_name(stage);
            parsed.append(" Request Parsed for ");
            parsed.append(resource_id.as_str());
            traces.push(TraceRecord::Info { message: parsed });
            let response = match stage {
                Stage::CreateValidate | Stage::ReadValidate | Stage::DeleteValidate => {
                    exit_success_with_status()
                },
                Stage::CreateCompleted | Stage::PatchCompleted | Stage::PostAction
                    | Stage::DeleteCompleted => exit_success_no_payload(),
                Stage::PatchBegin => {
                    let mut headers: Vec<(String, Vec<String>)> = Vec::new();
                    let mut values: Vec<String> = Vec::new();
                    values.push(String::from_str("application/merge-patch+json"));
                    headers.push((String::from_str("Content-Type"), values));
                    exit_success_with_resource_and_headers(request, headers)
                },
                Stage::CreateBegin | Stage::ReadBegin | Stage::PatchValidate
                    | Stage::DeleteBegin => exit_success_with_resource(request),
            };
            HookResult { response, traces }
        },
        Err(e) => {
            let msg = e.message();
            let code = error_code(stage);
            let status = failure_status(stage);
            let (response, record) = exit_error(msg, code.as_str(), status);
            traces.push(record);
            HookResult { response, traces }
        },
    }
}

/// Runs one baseline stage on the input text: decode, act, answer,
/// per [`run_hook_post`].
pub fn run_hook(stage: &Stage, input: &str) -> (r: HookResult)
    ensures
        run_hook_post(*stage, input@, r),
        r.response.http_status_code == 200 || r.response.http_status_code == spec_failure_status(
            *stage,
        ),
{
    let decoded = decode_request(input);
    let ghost d = decoded;
    let r = run_stage(stage, decoded);
    proof {
        assert(hook_post(*stage, d, r));
        assert(crate::codec::decode_request_post(input@, d));
    }
    r
}

/// The create-validate hook.
pub fn create_validate(input: &str) -> (r: HookResult)
    ensures
        run_hook_post(Stage::CreateValidate, input@, r),
        r.response.http_status_code == 200 || r.response.http_status_code == spec_failure_status(
            Stage::CreateValidate,
        ),
{
    run_hook(&Stage::CreateValidate, input)
}

/// The create-begin hook in its baseline form: the resource is echoed
/// without a remote create. [`create_begin_reconciled`] is the form
/// that drives one.
pub fn create_begin(input: &str) -> (r: HookResult)
    ensures
        run_hook_post(Stage::CreateBegin, input@, r),
        r.response.http_status_code == 200 || r.response.http_status_code == spec_failure_status(
            Stage::CreateBegin,
        ),
{
    run_hook(&Stage::CreateBegin, input)
}

/// The create-completed hook.
pub fn create_complete(input: &str) -> (r: HookResult)
    ensures
        run_hook_post(Stage::CreateCompleted, input@, r),
        r.response.http_status_code == 200 || r.response.http_status_code == spec_failure_status(
            Stage::CreateCompleted,
        ),
{
    run_hook(&Stage::CreateCompleted, input)
}

/// The read-validate hook.
pub fn read_validate(input: &str) -> (r: HookResult)
    ensures
        run_hook_post(Stage::ReadValidate, input@, r),
        r.response.http_status_code == 200 || r.response.http_status_code == spec_failure_status(
            Stage::ReadValidate,
        ),
{
    run_hook(&Stage::ReadValidate, input)
}

/// The read-begin hook.
pub fn read_begin(input: &str) -> (r: HookResult)
    ensures
        run_hook_post(Stage::ReadBegin, input@, r),
        r.response.http_status_code == 200 || r.response.http_status_code == spec_failure_status(
            Stage::ReadBegin,
        ),
{
    run_hook(&Stage::ReadBegin, input)
}

/// The patch-validate hook.
pub fn patch_validate(input: &str) -> (r: HookResult)
    ensures
        run_hook_post(Stage::PatchValidate, input@, r),
        r.response.http_status_code == 200 || r.response.http_status_code == spec_failure_status(
            Stage::PatchValidate,
        ),
{
    run_hook(&Stage::PatchValidate, input)
}

/// The patch-begin hook. On every answer to a decoded request the
/// headers carry `Content-Type: application/merge-patch+json`.
pub fn patch_begin(input: &str) -> (r: HookResult)
    ensures
        run_hook_post(Stage::PatchBegin, input@, r),
        r.response.http_status_code == 200 || r.response.http_status_code == spec_failure_status(
            Stage::PatchBegin,
        ),
{
    run_hook(&Stage::PatchBegin, input)
}

/// The patch-completed hook.
pub fn patch_complete(input: &str) -> (r: HookResult)
    ensures
        run_hook_post(Stage::PatchCompleted, input@, r),
        r.response.http_status_code == 200 || r.response.http_status_code == spec_failure_status(
            Stage::PatchCompleted,
        ),
{
    run_hook(&Stage::PatchCompleted, input)
}

/// The post-action hook.
pub fn action(input: &str) -> (r: HookResult)
    ensures
        run_hook_post(Stage::PostAction, input@, r),
        r.response.http_status_code == 200 || r.response.http_status_code == spec_failure_status(
            Stage::PostAction,
        ),
{
    run_hook(&Stage::PostAction, input)
}

/// The delete-validate hook.
pub fn delete_validate(input: &str) -> (r: HookResult)
    ensures
        run_hook_post(Stage::DeleteValidate, input@, r),
        r.response.http_status_code == 200 || r.response.http_status_code == spec_failure_status(
            Stage::DeleteValidate,
        ),
{
    run_hook(&Stage::DeleteValidate, input)
}

/// The delete-begin hook.
pub fn delete_begin(input: &str) -> (r: HookResult)
    ensures
        run_hook_post(Stage::DeleteBegin, input@, r),
        r.response.http_status_code == 200 || r.response.http_status_code == spec_failure_status(
            Stage::DeleteBegin,
        ),
{
    run_hook(&Stage::DeleteBegin, input)
}

/// The delete-completed hook.
pub fn delete_complete(input: &str) -> (r: HookResult)
    ensures
        run_hook_post(Stage::DeleteCompleted, input@, r),
        r.response.http_status_code == 200 || r.response.http_status_code == spec_failure_status(
            Stage::DeleteCompleted,
        ),
{
    run_hook(&Stage::DeleteCompleted, input)
}

/// The create-begin success answer: a resource matching the decoded
/// shape echoed with no extra headers, after the two info traces.
pub open spec fn begin_success(sh: RequestShape, r: HookResult) -> bool {
    &&& r.response.http_status_code == 200
    &&& r.response.payload matches Some(ResponsePayload::Resource(res)) && resource_matches(
        res,
        sh.request,
    )
    &&& r.response.headers@.len() == 0
    &&& r.traces@.len() == 2
    &&& parsed_traces(Stage::CreateBegin, sh.resource_id, r.traces@)
}

/// The create-begin failure answer after a decoded request: status 500
/// under the create-action error code, the cause described by `msg`,
/// and the error record after the two info traces.
pub open spec fn begin_action_failure(sh: RequestShape, msg: Seq<char>, r: HookResult) -> bool {
    &&& r.response.http_status_code == 500
    &&& r.response.payload matches Some(ResponsePayload::Status { succeeded, error }) && !succeeded
        && (error matches Some(d) && d.code@ == "Failed to create storage account"@ && d.message@
        == msg)
    &&& r.response.headers@.len() == 0
    &&& r.traces@.len() == 3
    &&& parsed_traces(Stage::CreateBegin, sh.resource_id, r.traces@)
    &&& r.traces@[2] matches TraceRecord::Error { code, message, status_code } && code@
        == "Failed to create storage account"@ && message@ == msg && status_code == 500
}

/// What the reconciling create-begin stage answers on each input text,
/// over the named parse result: for every decode outcome, every
/// identifier shape, every location configuration and every sequence of
/// remote observations.
pub open spec fn create_begin_reconciled_post(
    s: Seq<char>,
    default_location: Option<&str>,
    create: CreateCallResult,
    polls: Seq<PollCallResult>,
    r: HookResult,
) -> bool {
    match crate::wire::doc_of(s) {
        None => stage_failure(Stage::CreateBegin, DecodeError::Malformed.spec_message(), r),
        Some(j) => match request_of(j) {
            None => stage_failure(
                Stage::CreateBegin,
                DecodeError::Incompatible.spec_message(),
                r,
            ),
            Some(sh) => {
                let parts = split_slashes(trimmed(sh.resource_id));
                if parts.len() < 8 {
                    begin_action_failure(
                        sh,
                        "malformed resource identifier: "@ + sh.resource_id,
                        r,
                    )
                } else if sh.request.location.len() == 0 && default_location is None {
                    begin_action_failure(sh, location_not_set_message(), r)
                } else {
                    let sub = parts[1];
                    let rg = parts[3];
                    let nm = parts[7];
                    match create {
                        CreateCallResult::Completed => begin_success(sh, r),
                        CreateCallResult::Failed(m) => begin_action_failure(
                            sh,
                            create_failed_message(sub, rg, nm, m@),
                            r,
                        ),
                        CreateCallResult::Accepted => match poll_run(
                            polls,
                            ATTEMPT_LIMIT as nat,
                        ).0 {
                            PollSummary::Reached => begin_success(sh, r),
                            PollSummary::TransportFailed(m) => begin_action_failure(
                                sh,
                                get_failed_message(sub, rg, nm, m@),
                                r,
                            ),
                            PollSummary::TimedOut => begin_action_failure(
                                sh,
                                timeout_message(sub, rg, nm),
                                r,
                            ),
                        },
                    }
                }
            },
        },
    }
}

/// The create-begin hook that drives a remote create to a terminal
/// state. The remote calls happen outside: this consumes their observed
/// outcomes — the create result and one status read per attempt made,
/// where the reads may stop at the first terminal observation — and
/// answers the envelope the activation owes the host.
pub fn create_begin_reconciled(
    input: &str,
    default_location: Option<&str>,
    create: &CreateCallResult,
    polls: &Vec<PollCallResult>,
) -> (r: HookResult)
    requires
        create is Accepted ==> polls_suffice(polls@),
    ensures
        create_begin_reconciled_post(input@, default_location, *create, polls@, r),
        r.response.http_status_code == 200 || r.response.http_status_code == 500,
{
    let decoded = decode_request(input);
    let ghost d = decoded;
    let stage = Stage::CreateBegin;
    let mut traces: Vec<TraceRecord> = Vec::new();
    let mut called = stage_name(&stage);
    called.append(" Called");
    traces.push(TraceRecord::Info { message: called });
    match decoded {
        Err(e) => {
            let msg = e.message();
            let code = error_code(&stage);
            let (response, record) = exit_error(msg, code.as_str(), 500);
            traces.push(record);
            let r = HookResult { response, traces };
            proof {
                assert(create_begin_reconciled_post(input@, default_location, *create, polls@, r));
            }
            r
        },
        Ok(env) => {
            let ghost env0 = env;
            let Request { resource_id, request, headers: _request_headers } = env;
            let mut parsed = stage_name(&stage);
            parsed.append(" Request Parsed for ");
            parsed.append(resource_id.as_str());
            traces.push(TraceRecord::Info { message: parsed });
            match get_resource_details_from_resource_id(resource_id.as_str()) {
                Err(pe) => {
                    let msg = pe.message();
                    let (response, record) = exit_error(
                        msg,
                        "Failed to create storage account",
                        500,
                    );
                    traces.push(record);
                    let r = HookResult { response, traces };
                    proof {
                        assert(create_begin_reconciled_post(
                            input@,
                            default_location,
                            *create,
                            polls@,
                            r,
                        ));
                    }
                    r
                },
                Ok(details) => {
                    match resolve_location(request.location.as_str(), default_location) {
                        Err(le) => {
                            let msg = le.message();
                            let (response, record) = exit_error(
                                msg,
                                "Failed to create storage account",
                                500,
                            );
                            traces.push(record);
                            let r = HookResult { response, traces };
                            proof {
                                assert(create_begin_reconciled_post(
                                    input@,
                                    default_location,
                                    *create,
                                    polls@,
                                    r,
                                ));
                            }
                            r
                        },
                        Ok(_location) => {
                            let run = crate::reconcile::reconcile_create(
                                details.subscription_id.as_str(),
                                details.resource_group_name.as_str(),
                                details.name.as_str(),
                                create,
                                polls,
                            );
                            match run.result {
                                Ok(_) => {
                                    let response = exit_success_with_resource(request);
                                    let r = HookResult { response, traces };
                                    proof {
                                        assert(create_begin_reconciled_post(
                                            input@,
                                            default_location,
                                            *create,
                                            polls@,
                                            r,
                                        ));
                                    }
                                    r
                                },
                                Err(re) => {
                                    let msg = re.message();
                                    let (response, record) = exit_error(
                                        msg,
                                        "Failed to create storage account",
                                        500,
                                    );
                                    traces.push(record);
                                    let r = HookResult { response, traces };
                                    proof {
                                        assert(create_begin_reconciled_post(
                                            input@,
                                            default_location,
                                            *create,
                                            polls@,
                                            r,
                                        ));
                                    }
                                    r
                                },
                            }
                        },
                    }
                },
            }
        },
    }
}

/// On every patch-begin answer to an input whose document parses and
/// has the envelope shape, the headers are exactly
/// `Content-Type: application/merge-patch+json`. After a successful
/// decode the baseline stage has no failing path, so this covers every
/// path reached after decode succeeds.
pub proof fn lemma_patch_begin_merge_patch_header(s: Seq<char>, r: HookResult)
    requires
        crate::wire::doc_of(s) matches Some(j) && request_of(j) is Some,
        run_hook_post(Stage::PatchBegin, s, r),
    ensures
        merge_patch_headers(r.response.headers@),
{
}

/// An input that is malformed, or whose document lacks the envelope
/// shape, always yields the failure envelope of the invoked stage's
/// table entry: status 200 on the validate family and 500 elsewhere,
/// with a failed status payload carrying an error detail.
pub proof fn lemma_failure_follows_stage_table(stage: Stage, s: Seq<char>, r: HookResult)
    requires
        crate::wire::doc_of(s) is None || (crate::wire::doc_of(s) matches Some(j) && request_of(j)
            is None),
        run_hook_post(stage, s, r),
    ensures
        r.response.http_status_code == spec_failure_status(stage),
        (stage is CreateValidate || stage is ReadValidate || stage is PatchValidate || stage
            is DeleteValidate) ==> r.response.http_status_code == 200,
        !(stage is CreateValidate || stage is ReadValidate || stage is PatchValidate || stage
            is DeleteValidate) ==> r.response.http_status_code == 500,
        r.response.payload matches Some(ResponsePayload::Status { succeeded, error }) && !succeeded
            && error is Some,
{
}

/// The reconciling create-begin stage is a function of its inputs: two
/// runs on one input text, configuration and sequence of remote
/// observations agree on the status code, and when both echo a final
/// resource representation the two agree field for field, properties
/// payload included. In particular, invoking the stage twice for one
/// resource against a collaborator that answers by name the same way
/// both times yields the same final resource.
pub proof fn lemma_create_begin_deterministic(
    s: Seq<char>,
    default_location: Option<&str>,
    create: CreateCallResult,
    polls: Seq<PollCallResult>,
    r1: HookResult,
    r2: HookResult,
)
    requires
        create_begin_reconciled_post(s, default_location, create, polls, r1),
        create_begin_reconciled_post(s, default_location, create, polls, r2),
    ensures
        r1.response.http_status_code == r2.response.http_status_code,
        match (r1.response.payload, r2.response.payload) {
            (Some(ResponsePayload::Resource(a)), Some(ResponsePayload::Resource(b))) => {
                &&& a.id@ == b.id@
                &&& a.name@ == b.name@
                &&& a.location@ == b.location@
                &&& a.resource_type@ == b.resource_type@
                &&& a.properties == b.properties
            },
            _ => true,
        },
{
}

/// A well-formed create-begin request whose Accepted create reaches
/// terminal success on the very first status read answers 200 with the
/// resource echo — no timeout is involved.
pub proof fn lemma_create_begin_immediate_success(
    s: Seq<char>,
    default_location: Option<&str>,
    polls: Seq<PollCallResult>,
    r: HookResult,
)
    requires
        crate::wire::doc_of(s) matches Some(j) && request_of(j) matches Some(sh)
            && split_slashes(trimmed(sh.resource_id)).len() >= 8 && !(sh.request.location.len()
            == 0 && default_location is None),
        polls.len() >= 1,
        polls[0] matches PollCallResult::State(st) && st@ == succeeded_state(),
        create_begin_reconciled_post(s, default_location, CreateCallResult::Accepted, polls, r),
    ensures
        r.response.http_status_code == 200,
        begin_success(request_of(crate::wire::doc_of(s).unwrap()).unwrap(), r),
{
    assert(poll_run(polls, ATTEMPT_LIMIT as nat).0 is Reached);
}

/// A well-formed create-begin request whose provisioning state never
/// reaches terminal success answers the 500 failure envelope with the
/// timeout description; [`crate::reconcile::lemma_reconcile_timeout`]
/// accounts for the exact attempt count and the delays between them.
pub proof fn lemma_create_begin_timeout(
    s: Seq<char>,
    default_location: Option<&str>,
    polls: Seq<PollCallResult>,
    r: HookResult,
)
    requires
        crate::wire::doc_of(s) matches Some(j) && request_of(j) matches Some(sh)
            && split_slashes(trimmed(sh.resource_id)).len() >= 8 && !(sh.request.location.len()
            == 0 && default_location is None),
        polls.len() >= ATTEMPT_LIMIT,
        forall|j: int|
            0 <= j < polls.len() ==> ((#[trigger] polls[j]) matches PollCallResult::State(st)
                && st@ != succeeded_state()),
        create_begin_reconciled_post(s, default_location, CreateCallResult::Accepted, polls, r),
    ensures
        r.response.http_status_code == 500,
        ({
            let sh = request_of(crate::wire::doc_of(s).unwrap()).unwrap();
            let parts = split_slashes(trimmed(sh.resource_id));
            begin_action_failure(sh, timeout_message(parts[1], parts[3], parts[7]), r)
        }),
{
    lemma_poll_run_skip(polls, ATTEMPT_LIMIT as nat, ATTEMPT_LIMIT as nat);
    assert(poll_run(polls, ATTEMPT_LIMIT as nat).0 is TimedOut);
}

} // verus!
