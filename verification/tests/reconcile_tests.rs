use rpaas::reconcile::{
    reconcile_create, resolve_location, CreateCallResult, PollCallResult, RPaaSError,
    ATTEMPT_LIMIT, POLL_DELAY_SECS,
};

fn pending() -> PollCallResult {
    PollCallResult::State("Provisioning".to_string())
}

fn succeeded() -> PollCallResult {
    PollCallResult::State("Succeeded".to_string())
}

#[test]
fn constants_match_the_documented_budget() {
    assert_eq!(ATTEMPT_LIMIT, 60);
    assert_eq!(POLL_DELAY_SECS, 2);
}

#[test]
fn completed_create_needs_no_polling() {
    let run = reconcile_create("s", "g", "n", &CreateCallResult::Completed, &Vec::new());
    assert!(run.result.is_ok());
    assert_eq!(run.polls_used, 0);
    assert_eq!(run.waits, 0);
}

#[test]
fn failed_create_is_surfaced_not_retried() {
    let run = reconcile_create(
        "s",
        "g",
        "n",
        &CreateCallResult::Failed("dns".to_string()),
        &Vec::new(),
    );
    match run.result {
        Err(RPaaSError::CreateFailed {
            subscription_id,
            resource_group_name,
            name,
            cause,
        }) => {
            assert_eq!(subscription_id, "s");
            assert_eq!(resource_group_name, "g");
            assert_eq!(name, "n");
            assert_eq!(cause, "dns");
        }
        _ => panic!("expected a create failure"),
    }
    assert_eq!(run.polls_used, 0);
}

#[test]
fn accepted_then_first_poll_success() {
    let mut polls = vec![succeeded()];
    polls.extend((1..ATTEMPT_LIMIT).map(|_| pending()));
    let run = reconcile_create("s", "g", "n", &CreateCallResult::Accepted, &polls);
    assert!(run.result.is_ok());
    assert_eq!(run.polls_used, 1);
    assert_eq!(run.waits, 0);
}

#[test]
fn observation_list_may_stop_at_the_first_terminal_read() {
    let polls = vec![pending(), pending(), succeeded()];
    let run = reconcile_create("s", "g", "n", &CreateCallResult::Accepted, &polls);
    assert!(run.result.is_ok());
    assert_eq!(run.polls_used, 3);
    assert_eq!(run.waits, 2);
    let polls = vec![PollCallResult::Failed("503".to_string())];
    let run = reconcile_create("s", "g", "n", &CreateCallResult::Accepted, &polls);
    match run.result {
        Err(RPaaSError::GetFailed { cause, .. }) => assert_eq!(cause, "503"),
        _ => panic!("expected a get failure"),
    }
    assert_eq!(run.polls_used, 1);
}

#[test]
fn accepted_then_success_midway() {
    let mut polls: Vec<PollCallResult> = (0..5).map(|_| pending()).collect();
    polls.push(succeeded());
    polls.extend((6..ATTEMPT_LIMIT).map(|_| pending()));
    let run = reconcile_create("s", "g", "n", &CreateCallResult::Accepted, &polls);
    assert!(run.result.is_ok());
    assert_eq!(run.polls_used, 6);
    assert_eq!(run.waits, 5);
}

#[test]
fn never_succeeding_status_times_out_after_sixty_attempts() {
    let polls: Vec<PollCallResult> = (0..ATTEMPT_LIMIT).map(|_| pending()).collect();
    let run = reconcile_create("s", "g", "n", &CreateCallResult::Accepted, &polls);
    match run.result {
        Err(RPaaSError::AsyncCheckTimedOut {
            subscription_id,
            resource_group_name,
            name,
        }) => {
            assert_eq!(subscription_id, "s");
            assert_eq!(resource_group_name, "g");
            assert_eq!(name, "n");
        }
        _ => panic!("expected the timeout"),
    }
    assert_eq!(run.polls_used, 60);
    assert_eq!(run.waits, 59);
}

#[test]
fn transport_failure_during_polling_is_surfaced_at_once() {
    let mut polls = vec![pending(), PollCallResult::Failed("503".to_string())];
    polls.extend((2..ATTEMPT_LIMIT).map(|_| pending()));
    let run = reconcile_create("s", "g", "n", &CreateCallResult::Accepted, &polls);
    match run.result {
        Err(RPaaSError::GetFailed { cause, .. }) => assert_eq!(cause, "503"),
        _ => panic!("expected a get failure"),
    }
    assert_eq!(run.polls_used, 2);
    assert_eq!(run.waits, 1);
}

#[test]
fn error_messages_carry_the_triple() {
    let e = RPaaSError::CreateFailed {
        subscription_id: "s".to_string(),
        resource_group_name: "g".to_string(),
        name: "n".to_string(),
        cause: "dns".to_string(),
    };
    assert_eq!(
        e.message(),
        "Failed to create storage account. Subscription s resource group g name n : dns"
    );
    let t = RPaaSError::AsyncCheckTimedOut {
        subscription_id: "s".to_string(),
        resource_group_name: "g".to_string(),
        name: "n".to_string(),
    };
    assert_eq!(
        t.message(),
        "Failed to create storage account. Subscription s resource group g name n Timed out waiting for async operation to complete"
    );
    let g = RPaaSError::GetFailed {
        subscription_id: "s".to_string(),
        resource_group_name: "g".to_string(),
        name: "n".to_string(),
        cause: "503".to_string(),
    };
    assert_eq!(
        g.message(),
        "Failed to get storage account for async create. Subscription s resource group g name n : 503"
    );
    assert_eq!(
        RPaaSError::ResourceLocationNotSet.message(),
        "Resource Location is not set in payload or environment variable AZURE_LOCATION"
    );
}

#[test]
fn location_resolution_prefers_the_request() {
    assert_eq!(resolve_location("eastus", Some("westus")).unwrap(), "eastus");
    assert_eq!(resolve_location("", Some("westus")).unwrap(), "westus");
    match resolve_location("", None) {
        Err(RPaaSError::ResourceLocationNotSet) => {}
        _ => panic!("expected the configuration error"),
    }
}
