//! Bringing the store up at start: which target to use, how many connections
//! the pool may hold, and the order of the steps.
//!
//! The steps themselves (asking whether the database exists, creating it,
//! connecting, migrating) are the caller's to perform. After each one the
//! caller reports how it went and `setup_database` names the next step. The
//! service may serve only from `Ready`, which is reached only when the
//! migrations have run through.

use vstd::prelude::*;

verus! {

/// The most connections the pool may hold open at once.
pub const MAX_CONNECTIONS: u32 = 10;

/// The target that is used when none is configured: a local database file.
pub open spec fn default_database_url() -> Seq<char> {
    "sqlite:users.db"@
}

/// The connection target: the configured one as it is, or the default when
/// none is configured.
pub fn database_url(configured: Option<String>) -> (url: String)
    ensures
        url@ == match configured {
            Some(target) => target@,
            None => default_database_url(),
        },
{
    match configured {
        Some(target) => target,
        None => "sqlite:users.db".to_owned(),
    }
}

/// Where the start-up stands: the step to perform next, or how it ended.
#[derive(Debug, Clone, Copy, PartialEq, Eq)]
pub enum SetupStep {
    /// Ask the store whether the database exists.
    CheckExists,
    /// Create the database.
    CreateDatabase,
    /// Open the connection pool.
    Connect,
    /// Apply the migrations that have not been applied yet.
    Migrate,
    /// The store is up and fully migrated.
    Ready,
    /// A step failed; the process must not serve.
    Failed,
}

/// How the step that the caller performed went.
#[derive(Debug, Clone, Copy, PartialEq, Eq)]
pub enum SetupEvent {
    /// The database exists.
    Found,
    /// The database does not exist.
    Missing,
    /// The step succeeded.
    Done,
    /// The step failed.
    Failed,
}

/// The step that follows `step` once `event` is reported.
///
/// Only a definite `Found` spares the creation: a failed check counts as a
/// missing database. Every later step goes on only on `Done`, and fails
/// otherwise. `Ready` and `Failed` are final.
pub open spec fn next_step(step: SetupStep, event: SetupEvent) -> SetupStep {
    match step {
        SetupStep::CheckExists => if event == SetupEvent::Found {
            SetupStep::Connect
        } else {
            SetupStep::CreateDatabase
        },
        SetupStep::CreateDatabase => if event == SetupEvent::Done {
            SetupStep::Connect
        } else {
            SetupStep::Failed
        },
        SetupStep::Connect => if event == SetupEvent::Done {
            SetupStep::Migrate
        } else {
            SetupStep::Failed
        },
        SetupStep::Migrate => if event == SetupEvent::Done {
            SetupStep::Ready
        } else {
            SetupStep::Failed
        },
        SetupStep::Ready => SetupStep::Ready,
        SetupStep::Failed => SetupStep::Failed,
    }
}

/// Where the start-up stands after the reports `events`, in order, when it
/// began at `step`.
pub open spec fn run(step: SetupStep, events: Seq<SetupEvent>) -> SetupStep
    decreases events.len(),
{
    if events.len() == 0 {
        step
    } else {
        next_step(run(step, events.drop_last()), events.last())
    }
}

/// Whether, in a start-up that received `events`, the report at index `i`
/// was the success of `step`.
pub open spec fn completed(events: Seq<SetupEvent>, i: int, step: SetupStep) -> bool {
    &&& 0 <= i < events.len()
    &&& run(SetupStep::CheckExists, events.take(i)) == step
    &&& events[i] == SetupEvent::Done
}

/// Names the step that follows `step` once `event` is reported.
pub fn setup_database(step: SetupStep, event: SetupEvent) -> (next: SetupStep)
    ensures
        next == next_step(step, event),
{
    match step {
        SetupStep::CheckExists => match event {
            SetupEvent::Found => SetupStep::Connect,
            _ => SetupStep::CreateDatabase,
        },
        SetupStep::CreateDatabase => match event {
            SetupEvent::Done => SetupStep::Connect,
            _ => SetupStep::Failed,
        },
        SetupStep::Connect => match event {
            SetupEvent::Done => SetupStep::Migrate,
            _ => SetupStep::Failed,
        },
        SetupStep::Migrate => match event {
            SetupEvent::Done => SetupStep::Ready,
            _ => SetupStep::Failed,
        },
        SetupStep::Ready => SetupStep::Ready,
        SetupStep::Failed => SetupStep::Failed,
    }
}

/// `Ready` and `Failed` are final: whatever is reported afterwards, the
/// start-up stays where it ended.
pub proof fn lemma_ends_are_final(step: SetupStep, events: Seq<SetupEvent>)
    requires
        step == SetupStep::Ready || step == SetupStep::Failed,
    ensures
        run(step, events) == step,
    decreases events.len(),
{
    if events.len() > 0 {
        lemma_ends_are_final(step, events.drop_last());
    }
}

/// A prefix of a prefix: the first `i` reports of all but the last are the
/// first `i` reports of all.
proof fn lemma_take_of_drop_last(events: Seq<SetupEvent>, i: int)
    requires
        0 <= i < events.len(),
    ensures
        events.drop_last().take(i) == events.take(i),
        events.take(events.len() - 1) == events.drop_last(),
{
    assert(events.drop_last().take(i) =~= events.take(i));
    assert(events.take(events.len() - 1) =~= events.drop_last());
}

/// The database is created only as the second step, and only after a
/// check that did not find it.
pub proof fn lemma_create_only_when_not_found(events: Seq<SetupEvent>)
    requires
        run(SetupStep::CheckExists, events) == SetupStep::CreateDatabase,
    ensures
        events.len() == 1,
        events[0] != SetupEvent::Found,
{
    lemma_only_start_checks(events.drop_last());
}

/// Only a start-up that has received no report yet stands at the check.
pub proof fn lemma_only_start_checks(events: Seq<SetupEvent>)
    requires
        run(SetupStep::CheckExists, events) == SetupStep::CheckExists,
    ensures
        events.len() == 0,
{
}

/// A start-up that stands at `Migrate` has just opened the pool.
proof fn lemma_migrate_follows_connect(events: Seq<SetupEvent>)
    requires
        run(SetupStep::CheckExists, events) == SetupStep::Migrate,
    ensures
        completed(events, events.len() - 1, SetupStep::Connect),
{
    assert(events.len() > 0);
    lemma_take_of_drop_last(events, events.len() - 1);
}

/// The service never serves on a store that is not fully migrated: a
/// start-up that ends in `Ready` has opened the pool and then run the
/// migrations, each with success, in that order.
pub proof fn lemma_ready_means_migrated(events: Seq<SetupEvent>)
    requires
        run(SetupStep::CheckExists, events) == SetupStep::Ready,
    ensures
        exists|c: int, m: int|
            c < m && #[trigger] completed(events, c, SetupStep::Connect) && #[trigger] completed(
                events,
                m,
                SetupStep::Migrate,
            ),
    decreases events.len(),
{
    assert(events.len() > 0);
    let earlier = events.drop_last();
    let last = events.len() - 1;
    lemma_take_of_drop_last(events, last);
    if run(SetupStep::CheckExists, earlier) == SetupStep::Ready {
        lemma_ready_means_migrated(earlier);
        let (c, m) = choose|c: int, m: int|
            c < m && #[trigger] completed(earlier, c, SetupStep::Connect) && #[trigger] completed(
                earlier,
                m,
                SetupStep::Migrate,
            );
        lemma_take_of_drop_last(events, c);
        lemma_take_of_drop_last(events, m);
        assert(completed(events, c, SetupStep::Connect));
        assert(completed(events, m, SetupStep::Migrate));
    } else {
        assert(run(SetupStep::CheckExists, earlier) == SetupStep::Migrate);
        lemma_migrate_follows_connect(earlier);
        lemma_take_of_drop_last(events, last - 1);
        assert(completed(events, last - 1, SetupStep::Connect));
        assert(completed(events, last, SetupStep::Migrate));
    }
}

/// The start-up is over after four reports at most.
pub proof fn lemma_ends_within_four(events: Seq<SetupEvent>)
    requires
        events.len() >= 4,
    ensures
        run(SetupStep::CheckExists, events) == SetupStep::Ready || run(
            SetupStep::CheckExists,
            events,
        ) == SetupStep::Failed,
    decreases events.len(),
{
    if events.len() > 4 {
        lemma_ends_within_four(events.drop_last());
    } else {
        reveal_with_fuel(run, 5);
    }
}

} // verus!
