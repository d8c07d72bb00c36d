use rpaas::codec::ResponsePayload;
use rpaas::hooks::{
    action, create_begin, create_begin_reconciled, create_complete, create_validate,
    delete_begin, delete_complete, delete_validate, patch_begin, patch_complete, patch_validate,
    read_begin, read_validate, HookResult,
};
use rpaas::json::Json;
use rpaas::reconcile::{CreateCallResult, PollCallResult, ATTEMPT_LIMIT};
use rpaas::trace::TraceRecord;

fn valid_input() -> String {
    r#"{
        "resourceId": "/subscriptions/S1/resourceGroups/RG1/providers/P.T/rt/n1",
        "request": {
            "id": "/subscriptions/S1/resourceGroups/RG1/providers/P.T/rt/n1",
            "name": "n1",
            "location": "westus",
            "type": "P.T/rt",
            "properties": {"propertyInt": 3}
        },
        "headers": {"Accept": ["application/json"]}
    }"#
    .to_string()
}

fn expect_status_only(r: &HookResult) {
    assert_eq!(r.response.http_status_code, 200);
    match &r.response.payload {
        Some(ResponsePayload::Status { succeeded, error }) => {
            assert!(*succeeded);
            assert!(error.is_none());
        }
        _ => panic!("expected a status payload"),
    }
    assert!(r.response.headers.is_empty());
}

fn expect_echo(r: &HookResult) {
    assert_eq!(r.response.http_status_code, 200);
    match &r.response.payload {
        Some(ResponsePayload::Resource(res)) => {
            assert_eq!(res.name, "n1");
            assert_eq!(res.location, "westus");
            assert_eq!(
                res.properties,
                Json::Obj(vec![("propertyInt".to_string(), Json::Int(3))])
            );
        }
        _ => panic!("expected a resource echo"),
    }
}

fn expect_no_payload(r: &HookResult) {
    assert_eq!(r.response.http_status_code, 200);
    assert!(r.response.payload.is_none());
    assert!(r.response.headers.is_empty());
}

fn expect_failure(r: &HookResult, code: &str, status: i32) {
    assert_eq!(r.response.http_status_code, status);
    match &r.response.payload {
        Some(ResponsePayload::Status { succeeded, error }) => {
            assert!(!*succeeded);
            let d = error.as_ref().unwrap();
            assert_eq!(d.code, code);
        }
        _ => panic!("expected a failed status payload"),
    }
    match r.traces.last().unwrap() {
        TraceRecord::Error {
            code: c,
            status_code,
            ..
        } => {
            assert_eq!(c, code);
            assert_eq!(*status_code, status);
        }
        _ => panic!("expected a mirrored error trace"),
    }
}

#[test]
fn validate_stages_answer_status_only() {
    expect_status_only(&create_validate(&valid_input()));
    expect_status_only(&read_validate(&valid_input()));
    expect_status_only(&delete_validate(&valid_input()));
}

#[test]
fn begin_stages_echo_the_resource() {
    expect_echo(&create_begin(&valid_input()));
    expect_echo(&read_begin(&valid_input()));
    expect_echo(&patch_validate(&valid_input()));
    expect_echo(&delete_begin(&valid_input()));
}

#[test]
fn completed_stages_answer_no_payload() {
    expect_no_payload(&create_complete(&valid_input()));
    expect_no_payload(&patch_complete(&valid_input()));
    expect_no_payload(&action(&valid_input()));
    expect_no_payload(&delete_complete(&valid_input()));
}

#[test]
fn patch_begin_carries_the_merge_patch_content_type() {
    let r = patch_begin(&valid_input());
    expect_echo(&r);
    assert_eq!(
        r.response.headers,
        vec![(
            "Content-Type".to_string(),
            vec!["application/merge-patch+json".to_string()]
        )]
    );
}

#[test]
fn malformed_input_follows_the_stage_table() {
    let bad = "{ nope";
    expect_failure(&create_validate(bad), "Resource Create Validation Error", 200);
    expect_failure(&read_validate(bad), "Resource Read Validate Error", 200);
    expect_failure(&patch_validate(bad), "Resource Patch Validate Error", 200);
    expect_failure(&delete_validate(bad), "Resource Delete Validation Error", 200);
    expect_failure(&create_begin(bad), "Resource Creation Error", 500);
    expect_failure(&read_begin(bad), "Resource Creation Error", 500);
    expect_failure(&patch_begin(bad), "Resource Patch Begin Error", 500);
    expect_failure(&create_complete(bad), "Resource Creation Complete Error", 500);
    expect_failure(&patch_complete(bad), "Resource Patch Complete Error", 500);
    expect_failure(&action(bad), "Resource Action Error", 500);
    expect_failure(&delete_begin(bad), "Resource Deletion Error", 500);
    expect_failure(&delete_complete(bad), "Resource Delete Complete Error", 500);
}

#[test]
fn traces_report_called_and_parsed() {
    let r = create_validate(&valid_input());
    assert_eq!(r.traces.len(), 2);
    match &r.traces[0] {
        TraceRecord::Info { message } => {
            assert_eq!(message, "ResourceCreationValidate Called")
        }
        _ => panic!("expected an info trace"),
    }
    match &r.traces[1] {
        TraceRecord::Info { message } => assert_eq!(
            message,
            "ResourceCreationValidate Request Parsed for /subscriptions/S1/resourceGroups/RG1/providers/P.T/rt/n1"
        ),
        _ => panic!("expected an info trace"),
    }
}

fn enough_polls(head: Vec<PollCallResult>) -> Vec<PollCallResult> {
    let mut polls = head;
    while polls.len() < ATTEMPT_LIMIT {
        polls.push(PollCallResult::State("Provisioning".to_string()));
    }
    polls
}

#[test]
fn reconciled_create_begin_echoes_after_first_poll_success() {
    let polls = enough_polls(vec![PollCallResult::State("Succeeded".to_string())]);
    let r = create_begin_reconciled(
        &valid_input(),
        None,
        &CreateCallResult::Accepted,
        &polls,
    );
    expect_echo(&r);
}

#[test]
fn reconciled_create_begin_times_out_with_500() {
    let polls = enough_polls(Vec::new());
    let r = create_begin_reconciled(
        &valid_input(),
        None,
        &CreateCallResult::Accepted,
        &polls,
    );
    expect_failure(&r, "Failed to create storage account", 500);
    match &r.response.payload {
        Some(ResponsePayload::Status { error, .. }) => {
            assert_eq!(
                error.as_ref().unwrap().message,
                "Failed to create storage account. Subscription S1 resource group RG1 name n1 Timed out waiting for async operation to complete"
            );
        }
        _ => panic!("expected a failed status payload"),
    }
}

#[test]
fn reconciled_create_begin_is_idempotent_on_equal_observations() {
    let polls = enough_polls(vec![PollCallResult::State("Succeeded".to_string())]);
    let r1 = create_begin_reconciled(
        &valid_input(),
        Some("westus"),
        &CreateCallResult::Accepted,
        &polls,
    );
    let r2 = create_begin_reconciled(
        &valid_input(),
        Some("westus"),
        &CreateCallResult::Accepted,
        &polls,
    );
    assert_eq!(r1.response.http_status_code, r2.response.http_status_code);
    match (&r1.response.payload, &r2.response.payload) {
        (
            Some(ResponsePayload::Resource(a)),
            Some(ResponsePayload::Resource(b)),
        ) => {
            assert_eq!(a.id, b.id);
            assert_eq!(a.name, b.name);
            assert_eq!(a.location, b.location);
            assert_eq!(a.resource_type, b.resource_type);
            assert_eq!(a.properties, b.properties);
        }
        _ => panic!("expected both runs to echo the resource"),
    }
}

#[test]
fn reconciled_create_begin_without_location_fails_with_configuration_error() {
    let input = r#"{
        "resourceId": "/subscriptions/S1/resourceGroups/RG1/providers/P.T/rt/n1",
        "request": {"id": "x", "name": "n1", "type": "P.T/rt", "properties": {}},
        "headers": {}
    }"#;
    let r = create_begin_reconciled(input, None, &CreateCallResult::Completed, &Vec::new());
    expect_failure(&r, "Failed to create storage account", 500);
    match &r.response.payload {
        Some(ResponsePayload::Status { error, .. }) => assert_eq!(
            error.as_ref().unwrap().message,
            "Resource Location is not set in payload or environment variable AZURE_LOCATION"
        ),
        _ => panic!("expected a failed status payload"),
    }
}

#[test]
fn reconciled_create_begin_rejects_short_identifier() {
    let input = r#"{
        "resourceId": "/too/short",
        "request": {"id": "x", "name": "n1", "location": "w", "type": "t", "properties": {}},
        "headers": {}
    }"#;
    let r = create_begin_reconciled(input, None, &CreateCallResult::Completed, &Vec::new());
    expect_failure(&r, "Failed to create storage account", 500);
    match &r.response.payload {
        Some(ResponsePayload::Status { error, .. }) => assert_eq!(
            error.as_ref().unwrap().message,
            "malformed resource identifier: /too/short"
        ),
        _ => panic!("expected a failed status payload"),
    }
}

#[test]
fn reconciled_create_begin_surfaces_create_failure() {
    let r = create_begin_reconciled(
        &valid_input(),
        None,
        &CreateCallResult::Failed("quota".to_string()),
        &Vec::new(),
    );
    expect_failure(&r, "Failed to create storage account", 500);
    match &r.response.payload {
        Some(ResponsePayload::Status { error, .. }) => assert_eq!(
            error.as_ref().unwrap().message,
            "Failed to create storage account. Subscription S1 resource group RG1 name n1 : quota"
        ),
        _ => panic!("expected a failed status payload"),
    }
}
