use vstd::prelude::*;

verus! {

/// Where the start-up of the application stands.
#[derive(PartialEq, Eq, Structural, Clone, Copy, Debug)]
pub enum StartupState {
    /// Nothing has been done yet.
    Initial,
    /// Waiting to learn whether the database file exists.
    AwaitingExistence,
    /// Waiting for the connection pool; `db_exists` is what the check found.
    AwaitingPool { db_exists: bool },
    /// Waiting for the migration of a new database to finish.
    AwaitingMigration,
    /// Commands are being served.
    Serving,
}

/// What the outside world reports to the start-up.
#[derive(PartialEq, Eq, Structural, Clone, Copy, Debug)]
pub enum StartupEvent {
    Begin,
    ExistenceChecked { exists: bool },
    PoolCreated,
    MigrationFinished,
}

/// What the start-up asks the outside world to do next.
#[derive(PartialEq, Eq, Structural, Clone, Copy, Debug)]
pub enum StartupAction {
    CheckDatabaseExists,
    CreatePool,
    MigrateDatabase,
    ServeCommands,
    /// Nothing: the event did not belong to the state.
    Wait,
}

/// The next state and action after `event` arrives in `state`.
pub open spec fn step_of(state: StartupState, event: StartupEvent) -> (StartupState, StartupAction) {
    match (state, event) {
        (StartupState::Initial, StartupEvent::Begin) => (
            StartupState::AwaitingExistence,
            StartupAction::CheckDatabaseExists,
        ),
        (StartupState::AwaitingExistence, StartupEvent::ExistenceChecked { exists }) => (
            StartupState::AwaitingPool { db_exists: exists },
            StartupAction::CreatePool,
        ),
        (StartupState::AwaitingPool { db_exists }, StartupEvent::PoolCreated) => if db_exists {
            (StartupState::Serving, StartupAction::ServeCommands)
        } else {
            (StartupState::AwaitingMigration, StartupAction::MigrateDatabase)
        },
        (StartupState::AwaitingMigration, StartupEvent::MigrationFinished) => (
            StartupState::Serving,
            StartupAction::ServeCommands,
        ),
        _ => (state, StartupAction::Wait),
    }
}

/// Advances the start-up: checks whether the database exists, opens the
/// pool, migrates a database that did not exist, then serves commands.
/// An event that does not belong to `state` leaves it unchanged and asks
/// for nothing.
pub fn step(state: StartupState, event: StartupEvent) -> (r: (StartupState, StartupAction))
    ensures
        r == step_of(state, event),
{
    match (state, event) {
        (StartupState::Initial, StartupEvent::Begin) => (
            StartupState::AwaitingExistence,
            StartupAction::CheckDatabaseExists,
        ),
        (StartupState::AwaitingExistence, StartupEvent::ExistenceChecked { exists }) => (
            StartupState::AwaitingPool { db_exists: exists },
            StartupAction::CreatePool,
        ),
        (StartupState::AwaitingPool { db_exists }, StartupEvent::PoolCreated) => if db_exists {
            (StartupState::Serving, StartupAction::ServeCommands)
        } else {
            (StartupState::AwaitingMigration, StartupAction::MigrateDatabase)
        },
        (StartupState::AwaitingMigration, StartupEvent::MigrationFinished) => (
            StartupState::Serving,
            StartupAction::ServeCommands,
        ),
        _ => (state, StartupAction::Wait),
    }
}

/// The event with which the outside world answers `action`, when the
/// database file exists exactly if `db_exists` and every step succeeds.
pub open spec fn answer(action: StartupAction, db_exists: bool) -> StartupEvent {
    match action {
        StartupAction::CheckDatabaseExists => StartupEvent::ExistenceChecked { exists: db_exists },
        StartupAction::CreatePool => StartupEvent::PoolCreated,
        StartupAction::MigrateDatabase => StartupEvent::MigrationFinished,
        _ => StartupEvent::Begin,
    }
}

/// The actions asked for from `state` on `event`, each answered as
/// `answer` says, until commands are served or nothing is asked, in at most
/// `fuel` steps.
pub open spec fn actions_from(
    state: StartupState,
    event: StartupEvent,
    db_exists: bool,
    fuel: nat,
) -> Seq<StartupAction>
    decreases fuel,
{
    if fuel == 0 {
        Seq::empty()
    } else {
        let (next, action) = step_of(state, event);
        if action == StartupAction::ServeCommands || action == StartupAction::Wait {
            seq![action]
        } else {
            seq![action] + actions_from(next, answer(action, db_exists), db_exists, (fuel - 1) as nat)
        }
    }
}

/// The actions of a whole start-up, from the initial state.
pub open spec fn startup_actions(db_exists: bool) -> Seq<StartupAction> {
    actions_from(StartupState::Initial, StartupEvent::Begin, db_exists, 8)
}

/// How many times `s` asks for a migration.
pub open spec fn migrations(s: Seq<StartupAction>) -> nat
    decreases s.len(),
{
    if s.len() == 0 {
        0
    } else {
        (if s[0] == StartupAction::MigrateDatabase { 1nat } else { 0nat }) + migrations(
            s.drop_first(),
        )
    }
}

/// A start-up on a database file that does not exist migrates it exactly
/// once, and one on a file that exists never does; in both, commands are
/// served last and only once, so the migration comes before any command.
pub proof fn lemma_migration_once_before_serving(db_exists: bool)
    ensures
        startup_actions(db_exists) == if db_exists {
            seq![
                StartupAction::CheckDatabaseExists,
                StartupAction::CreatePool,
                StartupAction::ServeCommands,
            ]
        } else {
            seq![
                StartupAction::CheckDatabaseExists,
                StartupAction::CreatePool,
                StartupAction::MigrateDatabase,
                StartupAction::ServeCommands,
            ]
        },
        migrations(startup_actions(db_exists)) == if db_exists { 0nat } else { 1nat },
        startup_actions(db_exists).last() == StartupAction::ServeCommands,
        forall|i: int|
            0 <= i < startup_actions(db_exists).len() - 1 ==> startup_actions(db_exists)[i]
                != StartupAction::ServeCommands,
{
    reveal_with_fuel(actions_from, 5);
    let s = startup_actions(db_exists);
    if db_exists {
        assert(s =~= seq![
            StartupAction::CheckDatabaseExists,
            StartupAction::CreatePool,
            StartupAction::ServeCommands,
        ]);
    } else {
        assert(s =~= seq![
            StartupAction::CheckDatabaseExists,
            StartupAction::CreatePool,
            StartupAction::MigrateDatabase,
            StartupAction::ServeCommands,
        ]);
    }
    reveal_with_fuel(migrations, 5);
}

} // verus!
