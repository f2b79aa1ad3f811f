//! The order of the command's calls and when it gives up.
//!
//! The command reads its credentials, creates the task, queries the open tasks
//! and prints their tally. The caller performs each `Action` that `step`
//! returns and reports what came of it as the next `Event`.

use vstd::prelude::*;

verus! {

/// How far a run has come.
#[derive(Clone, Copy, Debug, PartialEq, Eq, Structural)]
pub enum Phase {
    /// Waiting for the credentials file to be read.
    LoadingCredentials,
    /// The create call is out.
    Creating,
    /// The task exists; the query call is out.
    Querying,
    /// The tally is due; the run is over.
    Finished,
    /// The run has failed and is over.
    Failed,
}

/// What came of the last action.
#[derive(Clone, Copy, Debug, PartialEq, Eq, Structural)]
pub enum Event {
    /// The credentials file was read and parsed.
    CredentialsFound,
    /// The credentials file is missing or cannot be parsed.
    CredentialsMissing,
    /// The call that is out was answered with this HTTP status.
    Responded { status: u16 },
    /// The call that is out failed in transport, or its reply could not be read.
    TransportFailed,
}

/// Why a run failed.
#[derive(Clone, Copy, Debug, PartialEq, Eq, Structural)]
pub enum Failure {
    MissingCredentials,
    CreateRejected { status: u16 },
    QueryRejected { status: u16 },
    Transport,
}

/// What the caller is to do next.
#[derive(Clone, Copy, Debug, PartialEq, Eq, Structural)]
pub enum Action {
    /// Send the call that creates the task.
    SendCreate,
    /// Report the created task and send the query.
    SendQuery,
    /// Print the tally of the query's reply.
    PrintSummary,
    /// Report the failure and exit with an error.
    Fail { failure: Failure },
    /// Nothing: the run is over, or the event does not belong to this phase.
    Idle,
}

/// A 2xx status.
pub open spec fn success_status(status: u16) -> bool {
    200 <= status < 300
}

/// The phase and action that follow `event` in `phase`.
pub open spec fn next(phase: Phase, event: Event) -> (Phase, Action) {
    match (phase, event) {
        (Phase::LoadingCredentials, Event::CredentialsFound) => (Phase::Creating, Action::SendCreate),
        (Phase::LoadingCredentials, Event::CredentialsMissing) => (
            Phase::Failed,
            Action::Fail { failure: Failure::MissingCredentials },
        ),
        (Phase::Creating, Event::Responded { status }) => if success_status(status) {
            (Phase::Querying, Action::SendQuery)
        } else {
            (Phase::Failed, Action::Fail { failure: Failure::CreateRejected { status } })
        },
        (Phase::Querying, Event::Responded { status }) => if success_status(status) {
            (Phase::Finished, Action::PrintSummary)
        } else {
            (Phase::Failed, Action::Fail { failure: Failure::QueryRejected { status } })
        },
        (Phase::Creating, Event::TransportFailed) => (
            Phase::Failed,
            Action::Fail { failure: Failure::Transport },
        ),
        (Phase::Querying, Event::TransportFailed) => (
            Phase::Failed,
            Action::Fail { failure: Failure::Transport },
        ),
        _ => (phase, Action::Idle),
    }
}

/// The actions of a run that starts in `phase` and meets `events` in turn.
pub open spec fn run(phase: Phase, events: Seq<Event>) -> Seq<Action>
    decreases events.len(),
{
    if events.len() == 0 {
        Seq::empty()
    } else {
        let (after, action) = next(phase, events[0]);
        seq![action] + run(after, events.drop_first())
    }
}

/// An action that goes out to the network.
pub open spec fn is_network(a: Action) -> bool {
    a == Action::SendCreate || a == Action::SendQuery
}

/// Whether `actions` sends nothing to the network.
pub open spec fn sends_nothing(actions: Seq<Action>) -> bool {
    forall|i: int| 0 <= i < actions.len() ==> !is_network(#[trigger] actions[i])
}

/// Whether `actions` never sends the query.
pub open spec fn sends_no_query(actions: Seq<Action>) -> bool {
    forall|i: int| 0 <= i < actions.len() ==> #[trigger] actions[i] != Action::SendQuery
}

/// How many create calls `actions` sends.
pub open spec fn creates(actions: Seq<Action>) -> nat
    decreases actions.len(),
{
    if actions.len() == 0 {
        0
    } else {
        (if actions[0] == Action::SendCreate {
            1nat
        } else {
            0nat
        }) + creates(actions.drop_first())
    }
}

/// Whether `status` is a 2xx status.
pub fn is_success(status: u16) -> (r: bool)
    ensures
        r == success_status(status),
{
    200 <= status && status < 300
}

/// The phase and action that follow `event` in `phase`.
pub fn step(phase: Phase, event: Event) -> (r: (Phase, Action))
    ensures
        r == next(phase, event),
{
    match (phase, event) {
        (Phase::LoadingCredentials, Event::CredentialsFound) => (Phase::Creating, Action::SendCreate),
        (Phase::LoadingCredentials, Event::CredentialsMissing) => (
            Phase::Failed,
            Action::Fail { failure: Failure::MissingCredentials },
        ),
        (Phase::Creating, Event::Responded { status }) => if is_success(status) {
            (Phase::Querying, Action::SendQuery)
        } else {
            (Phase::Failed, Action::Fail { failure: Failure::CreateRejected { status } })
        },
        (Phase::Querying, Event::Responded { status }) => if is_success(status) {
            (Phase::Finished, Action::PrintSummary)
        } else {
            (Phase::Failed, Action::Fail { failure: Failure::QueryRejected { status } })
        },
        (Phase::Creating, Event::TransportFailed) => (
            Phase::Failed,
            Action::Fail { failure: Failure::Transport },
        ),
        (Phase::Querying, Event::TransportFailed) => (
            Phase::Failed,
            Action::Fail { failure: Failure::Transport },
        ),
        _ => (phase, Action::Idle),
    }
}

/// A run that is over stays over: it does nothing more, whatever it meets.
pub proof fn settled_run_is_idle(phase: Phase, events: Seq<Event>)
    requires
        phase == Phase::Finished || phase == Phase::Failed,
    ensures
        run(phase, events).len() == events.len(),
        forall|i: int| 0 <= i < events.len() ==> #[trigger] run(phase, events)[i] == Action::Idle,
    decreases events.len(),
{
    if events.len() > 0 {
        settled_run_is_idle(phase, events.drop_first());
    }
}

/// A run past the credentials never sends a second create call.
proof fn no_create_after_loading(phase: Phase, events: Seq<Event>)
    requires
        phase != Phase::LoadingCredentials,
    ensures
        creates(run(phase, events)) == 0,
    decreases events.len(),
{
    if events.len() > 0 {
        let (after, action) = next(phase, events[0]);
        no_create_after_loading(after, events.drop_first());
        let acts = run(phase, events);
        assert(acts.drop_first() =~= run(after, events.drop_first()));
    }
}

/// Without credentials a run fails at once and sends nothing to the network,
/// whatever follows.
pub proof fn missing_credentials_sends_nothing(events: Seq<Event>)
    ensures
        run(Phase::LoadingCredentials, seq![Event::CredentialsMissing] + events)[0] == (Action::Fail {
            failure: Failure::MissingCredentials,
        }),
        sends_nothing(run(Phase::LoadingCredentials, seq![Event::CredentialsMissing] + events)),
{
    let all = seq![Event::CredentialsMissing] + events;
    assert(all.drop_first() =~= events);
    settled_run_is_idle(Phase::Failed, events);
}

/// A create call answered with a status other than 2xx fails the run, and no
/// query is sent, whatever follows.
pub proof fn rejected_create_sends_no_query(status: u16, events: Seq<Event>)
    requires
        !success_status(status),
    ensures
        run(
            Phase::LoadingCredentials,
            seq![Event::CredentialsFound, Event::Responded { status }] + events,
        )[1] == (Action::Fail { failure: Failure::CreateRejected { status } }),
        sends_no_query(
            run(
                Phase::LoadingCredentials,
                seq![Event::CredentialsFound, Event::Responded { status }] + events,
            ),
        ),
{
    let all = seq![Event::CredentialsFound, Event::Responded { status }] + events;
    let rest = all.drop_first();
    assert(rest.drop_first() =~= events);
    assert(rest[0] == Event::Responded { status });
    settled_run_is_idle(Phase::Failed, events);
    assert(run(Phase::Creating, rest) =~= seq![Action::Fail { failure: Failure::CreateRejected { status } }] + run(Phase::Failed, events));
}

/// A run sends at most one create call, and one exactly where its credentials
/// were found first: each run files a task of its own, and nothing merges two
/// runs with the same inputs into one.
pub proof fn one_create_per_run(events: Seq<Event>)
    ensures
        creates(run(Phase::LoadingCredentials, events)) <= 1,
        events.len() > 0 && events[0] == Event::CredentialsFound ==> creates(
            run(Phase::LoadingCredentials, events),
        ) == 1,
    decreases events.len(),
{
    if events.len() > 0 {
        let (after, action) = next(Phase::LoadingCredentials, events[0]);
        let acts = run(Phase::LoadingCredentials, events);
        assert(acts.drop_first() =~= run(after, events.drop_first()));
        if after == Phase::LoadingCredentials {
            one_create_per_run(events.drop_first());
        } else {
            no_create_after_loading(after, events.drop_first());
        }
    }
}

} // verus!
