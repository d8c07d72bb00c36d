//! The long-running-operation reconciler.
//!
//! A begin stage that triggers a remote create must drive it to a
//! terminal state: either the collaborator answers with a final resource
//! at once, or it answers Accepted and the resource's provisioning state
//! is polled, at most [`ATTEMPT_LIMIT`] times with a fixed
//! [`POLL_DELAY_SECS`]-second wait between attempts, no backoff and no
//! jitter. Only "still in progress" is ever retried: a transport failure
//! on the create call or on a status read is surfaced at once.
//!
//! The remote calls themselves are outside work that the host shim
//! performs; this module decides. [`reconcile_create`] consumes the
//! observed outcomes — one create outcome and the successive status
//! reads — and is verified for every possible sequence of them.

use vstd::prelude::*;

use crate::json::str_eq;

verus! {

/// The fixed number of status reads allowed after an Accepted create.
pub const ATTEMPT_LIMIT: usize = 60;

/// The fixed wait between two status reads, in seconds. The shim that
/// performs the outside calls blocks for this long between attempts.
pub const POLL_DELAY_SECS: u64 = 2;

/// What the collaborator's create operation came back with.
pub enum CreateCallResult {
    /// A final resource representation, synchronously: done at once.
    Completed,
    /// The operation was accepted and provisions in the background.
    Accepted,
    /// The transport or the API failed, with its description.
    Failed(String),
}

/// What one status read came back with.
pub enum PollCallResult {
    /// The reported provisioning state.
    State(String),
    /// The transport or the API failed, with its description.
    Failed(String),
}

/// The reconciler's error taxonomy.
#[derive(Debug)]
pub enum RPaaSError {
    /// The create call itself failed; never retried.
    CreateFailed {
        subscription_id: String,
        resource_group_name: String,
        name: String,
        cause: String,
    },
    /// A status read failed; never retried.
    GetFailed { subscription_id: String, resource_group_name: String, name: String, cause: String },
    /// The provisioning state never reached terminal success within the
    /// attempt budget.
    AsyncCheckTimedOut { subscription_id: String, resource_group_name: String, name: String },
    /// No location in the request and none configured.
    ResourceLocationNotSet,
}

/// The provisioning state that ends polling successfully.
pub open spec fn succeeded_state() -> Seq<char> {
    "Succeeded"@
}

/// The description of a failed create call.
pub open spec fn create_failed_message(
    sub: Seq<char>,
    rg: Seq<char>,
    nm: Seq<char>,
    cause: Seq<char>,
) -> Seq<char> {
    "Failed to create storage account. Subscription "@ + sub + " resource group "@ + rg
        + " name "@ + nm + " : "@ + cause
}

/// The description of a failed status read.
pub open spec fn get_failed_message(
    sub: Seq<char>,
    rg: Seq<char>,
    nm: Seq<char>,
    cause: Seq<char>,
) -> Seq<char> {
    "Failed to get storage account for async create. Subscription "@ + sub + " resource group "@
        + rg + " name "@ + nm + " : "@ + cause
}

/// The description of an exhausted attempt budget.
pub open spec fn timeout_message(sub: Seq<char>, rg: Seq<char>, nm: Seq<char>) -> Seq<char> {
    "Failed to create storage account. Subscription "@ + sub + " resource group "@ + rg
        + " name "@ + nm + " Timed out waiting for async operation to complete"@
}

/// The description of a missing location.
pub open spec fn location_not_set_message() -> Seq<char> {
    "Resource Location is not set in payload or environment variable AZURE_LOCATION"@
}

impl RPaaSError {
    pub open spec fn spec_message(self) -> Seq<char> {
        match self {
            RPaaSError::CreateFailed { subscription_id, resource_group_name, name, cause } => {
                create_failed_message(subscription_id@, resource_group_name@, name@, cause@)
            },
            RPaaSError::GetFailed { subscription_id, resource_group_name, name, cause } => {
                get_failed_message(subscription_id@, resource_group_name@, name@, cause@)
            },
            RPaaSError::AsyncCheckTimedOut { subscription_id, resource_group_name, name } => {
                timeout_message(subscription_id@, resource_group_name@, name@)
            },
            RPaaSError::ResourceLocationNotSet => location_not_set_message(),
        }
    }

    /// A human-readable description of the failure.
    pub fn message(&self) -> (r: String)
        ensures
            r@ == self.spec_message(),
    {
        match self {
            RPaaSError::CreateFailed { subscription_id, resource_group_name, name, cause } => {
                let mut s = String::from_str("Failed to create storage account. Subscription ");
                s.append(subscription_id.as_str());
                s.append(" resource group ");
                s.append(resource_group_name.as_str());
                s.append(" name ");
                s.append(name.as_str());
                s.append(" : ");
                s.append(cause.as_str());
                s
            },
            RPaaSError::GetFailed { subscription_id, resource_group_name, name, cause } => {
                let mut s = String::from_str(
                    "Failed to get storage account for async create. Subscription ",
                );
                s.append(subscription_id.as_str());
                s.append(" resource group ");
                s.append(resource_group_name.as_str());
                s.append(" name ");
                s.append(name.as_str());
                s.append(" : ");
                s.append(cause.as_str());
                s
            },
            RPaaSError::AsyncCheckTimedOut { subscription_id, resource_group_name, name } => {
                let mut s = String::from_str("Failed to create storage account. Subscription ");
                s.append(subscription_id.as_str());
                s.append(" resource group ");
                s.append(resource_group_name.as_str());
                s.append(" name ");
                s.append(name.as_str());
                s.append(" Timed out waiting for async operation to complete");
                s
            },
            RPaaSError::ResourceLocationNotSet => {
                String::from_str(
                    "Resource Location is not set in payload or environment variable AZURE_LOCATION",
                )
            },
        }
    }
}

/// The effective location: the requested one when present, else the
/// configured default, else a configuration error.
pub fn resolve_location(requested: &str, default_location: Option<&str>) -> (r: Result<
    String,
    RPaaSError,
>)
    ensures
        requested@.len() > 0 ==> (r matches Ok(s) && s@ == requested@),
        default_location matches Some(d) ==> requested@.len() == 0 ==> (r matches Ok(s) && s@
            == d@),
        requested@.len() == 0 && default_location is None ==> r matches Err(
            RPaaSError::ResourceLocationNotSet,
        ),
{
    if !requested.is_empty() {
        Ok(requested.to_owned())
    } else {
        match default_location {
            Some(d) => Ok(d.to_owned()),
            None => Err(RPaaSError::ResourceLocationNotSet),
        }
    }
}

/// How a run of status reads ends.
pub enum PollSummary {
    /// Terminal success was reported.
    Reached,
    /// A status read failed, with its description.
    TransportFailed(String),
    /// The attempt budget ran out first.
    TimedOut,
}

/// Whether one status read ends the run: terminal success or a
/// transport failure.
pub open spec fn poll_is_terminal(p: PollCallResult) -> bool {
    match p {
        PollCallResult::Failed(_) => true,
        PollCallResult::State(s) => s@ == succeeded_state(),
    }
}

/// Whether the observation list suffices for one reconciliation: it
/// reaches the attempt limit, or some read within the limit is
/// terminal. A shim may therefore stop reading at the first terminal
/// observation instead of padding the list to the limit.
pub open spec fn polls_suffice(polls: Seq<PollCallResult>) -> bool {
    polls.len() >= ATTEMPT_LIMIT || exists|i: int|
        0 <= i < polls.len() && i < ATTEMPT_LIMIT && #[trigger] poll_is_terminal(polls[i])
}

/// The outcome of consuming `polls` under a budget of `limit` reads:
/// how the run ends, and how many reads it consumes. Reads stop at the
/// first terminal success or transport failure.
pub open spec fn poll_run(polls: Seq<PollCallResult>, limit: nat) -> (PollSummary, nat)
    decreases limit,
{
    if limit == 0 || polls.len() == 0 {
        (PollSummary::TimedOut, 0)
    } else {
        match polls[0] {
            PollCallResult::Failed(m) => (PollSummary::TransportFailed(m), 1),
            PollCallResult::State(s) => if s@ == succeeded_state() {
                (PollSummary::Reached, 1)
            } else {
                let rest = poll_run(polls.drop_first(), (limit - 1) as nat);
                (rest.0, rest.1 + 1)
            },
        }
    }
}

/// A prefix of reads that are all non-terminal states only shifts the
/// run: the summary is unchanged and the prefix is counted.
pub proof fn lemma_poll_run_skip(polls: Seq<PollCallResult>, limit: nat, k: nat)
    requires
        k <= limit,
        k <= polls.len(),
        forall|j: int|
            0 <= j < k ==> ((#[trigger] polls[j]) matches PollCallResult::State(s) && s@
                != succeeded_state()),
    ensures
        poll_run(polls, limit).0 == poll_run(polls.skip(k as int), (limit - k) as nat).0,
        poll_run(polls, limit).1 == k + poll_run(polls.skip(k as int), (limit - k) as nat).1,
    decreases k,
{
    if k == 0 {
        assert(polls.skip(0) =~= polls);
    } else {
        assert(polls[0] matches PollCallResult::State(s) && s@ != succeeded_state());
        let d = polls.drop_first();
        assert forall|j: int|
            0 <= j < k - 1 implies (#[trigger] d[j]) matches PollCallResult::State(s) && s@
            != succeeded_state() by {
            assert(d[j] == polls[j + 1]);
        }
        lemma_poll_run_skip(d, (limit - 1) as nat, (k - 1) as nat);
        assert(d.skip(k as int - 1) =~= polls.skip(k as int));
    }
}

/// The result of one reconciliation: the outcome, the number of status
/// reads consumed, and the number of fixed delays slept between them.
pub struct ReconcileRun {
    pub result: Result<(), RPaaSError>,
    pub polls_used: usize,
    pub waits: usize,
}

/// What reconciliation must come to on given observations.
pub open spec fn reconcile_post(
    sub: Seq<char>,
    rg: Seq<char>,
    nm: Seq<char>,
    create: CreateCallResult,
    polls: Seq<PollCallResult>,
    r: ReconcileRun,
) -> bool {
    match create {
        CreateCallResult::Completed => {
            &&& r.result is Ok
            &&& r.polls_used == 0
            &&& r.waits == 0
        },
        CreateCallResult::Failed(m) => {
            &&& r.result matches Err(
                RPaaSError::CreateFailed {
                    subscription_id: s2,
                    resource_group_name: g2,
                    name: n2,
                    cause: c2,
                },
            ) && s2@ == sub && g2@ == rg && n2@ == nm && c2@ == m@
            &&& r.polls_used == 0
            &&& r.waits == 0
        },
        CreateCallResult::Accepted => {
            let (summary, used) = poll_run(polls, ATTEMPT_LIMIT as nat);
            &&& r.polls_used == used
            &&& r.polls_used > 0 ==> r.waits + 1 == r.polls_used
            &&& r.polls_used == 0 ==> r.waits == 0
            &&& match summary {
                PollSummary::Reached => r.result is Ok,
                PollSummary::TransportFailed(m) => r.result matches Err(
                    RPaaSError::GetFailed {
                        subscription_id: s2,
                        resource_group_name: g2,
                        name: n2,
                        cause: c2,
                    },
                ) && s2@ == sub && g2@ == rg && n2@ == nm && c2@ == m@,
                PollSummary::TimedOut => r.result matches Err(
                    RPaaSError::AsyncCheckTimedOut {
                        subscription_id: s2,
                        resource_group_name: g2,
                        name: n2,
                    },
                ) && s2@ == sub && g2@ == rg && n2@ == nm,
            }
        },
    }
}

/// Reconciles one remote create from its observed outcomes: the create
/// call's result and the successive status reads, one per attempt
/// actually made. The list may stop at the first terminal observation
/// or must reach the attempt limit; reads past the end of the run are
/// ignored.
#[verifier::loop_isolation(false)]
pub fn reconcile_create(
    subscription_id: &str,
    resource_group_name: &str,
    name: &str,
    create: &CreateCallResult,
    polls: &Vec<PollCallResult>,
) -> (r: ReconcileRun)
    requires
        create is Accepted ==> polls_suffice(polls@),
    ensures
        reconcile_post(subscription_id@, resource_group_name@, name@, *create, polls@, r),
{
    match create {
        CreateCallResult::Completed => ReconcileRun { result: Ok(()), polls_used: 0, waits: 0 },
        CreateCallResult::Failed(m) => ReconcileRun {
            result: Err(
                RPaaSError::CreateFailed {
                    subscription_id: subscription_id.to_owned(),
                    resource_group_name: resource_group_name.to_owned(),
                    name: name.to_owned(),
                    cause: m.clone(),
                },
            ),
            polls_used: 0,
            waits: 0,
        },
        CreateCallResult::Accepted => {
            let mut i: usize = 0;
            while i < ATTEMPT_LIMIT
                invariant
                    i <= ATTEMPT_LIMIT,
                    forall|j: int|
                        0 <= j < i ==> ((#[trigger] polls@[j]) matches PollCallResult::State(s)
                            && s@ != succeeded_state()),
                decreases ATTEMPT_LIMIT - i,
            {
                proof {
                    if polls@.len() < ATTEMPT_LIMIT {
                        let i0 = choose|i0: int|
                            0 <= i0 < polls@.len() && i0 < ATTEMPT_LIMIT && poll_is_terminal(
                                polls@[i0],
                            );
                        if i0 < i {
                            assert(!poll_is_terminal(polls@[i0]));
                        }
                    }
                    assert(i < polls@.len());
                    lemma_poll_run_skip(polls@, ATTEMPT_LIMIT as nat, i as nat);
                    assert(polls@.skip(i as int)[0] == polls@[i as int]);
                }
                match &polls[i] {
                    PollCallResult::Failed(m) => {
                        return ReconcileRun {
                            result: Err(
                                RPaaSError::GetFailed {
                                    subscription_id: subscription_id.to_owned(),
                                    resource_group_name: resource_group_name.to_owned(),
                                    name: name.to_owned(),
                                    cause: m.clone(),
                                },
                            ),
                            polls_used: i + 1,
                            waits: i,
                        };
                    },
                    PollCallResult::State(s) => {
                        if str_eq(s.as_str(), "Succeeded") {
                            return ReconcileRun { result: Ok(()), polls_used: i + 1, waits: i };
                        }
                    },
                }
                i = i + 1;
            }
            proof {
                if polls@.len() < ATTEMPT_LIMIT {
                    let i0 = choose|i0: int|
                        0 <= i0 < polls@.len() && i0 < ATTEMPT_LIMIT && poll_is_terminal(
                            polls@[i0],
                        );
                    assert(!poll_is_terminal(polls@[i0]));
                }
                lemma_poll_run_skip(polls@, ATTEMPT_LIMIT as nat, ATTEMPT_LIMIT as nat);
            }
            ReconcileRun {
                result: Err(
                    RPaaSError::AsyncCheckTimedOut {
                        subscription_id: subscription_id.to_owned(),
                        resource_group_name: resource_group_name.to_owned(),
                        name: name.to_owned(),
                    },
                ),
                polls_used: ATTEMPT_LIMIT,
                waits: ATTEMPT_LIMIT - 1,
            }
        },
    }
}

/// An Accepted create whose very first status read reports terminal
/// success reconciles successfully after exactly one read and no wait.
pub proof fn lemma_reconcile_immediate_success(
    sub: Seq<char>,
    rg: Seq<char>,
    nm: Seq<char>,
    polls: Seq<PollCallResult>,
    r: ReconcileRun,
)
    requires
        polls.len() >= 1,
        polls[0] matches PollCallResult::State(s) && s@ == succeeded_state(),
        reconcile_post(sub, rg, nm, CreateCallResult::Accepted, polls, r),
    ensures
        r.result is Ok,
        r.polls_used == 1,
        r.waits == 0,
{
    assert(poll_run(polls, ATTEMPT_LIMIT as nat) == (PollSummary::Reached, 1nat));
}

/// An Accepted create whose status never reaches terminal success fails
/// with the timeout error after exactly the full attempt budget, the
/// attempts separated by the fixed delay.
pub proof fn lemma_reconcile_timeout(
    sub: Seq<char>,
    rg: Seq<char>,
    nm: Seq<char>,
    polls: Seq<PollCallResult>,
    r: ReconcileRun,
)
    requires
        polls.len() >= ATTEMPT_LIMIT,
        forall|j: int|
            0 <= j < polls.len() ==> ((#[trigger] polls[j]) matches PollCallResult::State(s)
                && s@ != succeeded_state()),
        reconcile_post(sub, rg, nm, CreateCallResult::Accepted, polls, r),
    ensures
        r.result matches Err(
            RPaaSError::AsyncCheckTimedOut {
                subscription_id: s2,
                resource_group_name: g2,
                name: n2,
            },
        ) && s2@ == sub && g2@ == rg && n2@ == nm,
        r.polls_used == ATTEMPT_LIMIT,
        r.waits == ATTEMPT_LIMIT - 1,
{
    lemma_poll_run_skip(polls, ATTEMPT_LIMIT as nat, ATTEMPT_LIMIT as nat);
    assert(poll_run(polls, ATTEMPT_LIMIT as nat).0 is TimedOut);
    assert(poll_run(polls, ATTEMPT_LIMIT as nat).1 == ATTEMPT_LIMIT as nat);
}

} // verus!
