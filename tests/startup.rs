use doit::startup::{step, StartupAction, StartupEvent, StartupState};

fn run(db_exists: bool) -> Vec<StartupAction> {
    let mut actions = Vec::new();
    let mut state = StartupState::Initial;
    let mut event = StartupEvent::Begin;
    for _ in 0..8 {
        let (next, action) = step(state, event);
        actions.push(action);
        state = next;
        event = match action {
            StartupAction::CheckDatabaseExists => StartupEvent::ExistenceChecked { exists: db_exists },
            StartupAction::CreatePool => StartupEvent::PoolCreated,
            StartupAction::MigrateDatabase => StartupEvent::MigrationFinished,
            StartupAction::ServeCommands | StartupAction::Wait => break,
        };
    }
    actions
}

#[test]
fn new_database_is_migrated_once_before_serving() {
    let actions = run(false);
    assert_eq!(
        actions,
        vec![
            StartupAction::CheckDatabaseExists,
            StartupAction::CreatePool,
            StartupAction::MigrateDatabase,
            StartupAction::ServeCommands,
        ]
    );
    assert_eq!(actions.iter().filter(|a| **a == StartupAction::MigrateDatabase).count(), 1);
}

#[test]
fn existing_database_is_not_migrated() {
    let actions = run(true);
    assert_eq!(
        actions,
        vec![StartupAction::CheckDatabaseExists, StartupAction::CreatePool, StartupAction::ServeCommands]
    );
    assert_eq!(actions.iter().filter(|a| **a == StartupAction::MigrateDatabase).count(), 0);
}

#[test]
fn stray_event_changes_nothing() {
    assert_eq!(
        step(StartupState::Initial, StartupEvent::PoolCreated),
        (StartupState::Initial, StartupAction::Wait)
    );
    assert_eq!(
        step(StartupState::Serving, StartupEvent::MigrationFinished),
        (StartupState::Serving, StartupAction::Wait)
    );
    assert_eq!(
        step(StartupState::AwaitingPool { db_exists: false }, StartupEvent::Begin),
        (StartupState::AwaitingPool { db_exists: false }, StartupAction::Wait)
    );
}

#[test]
fn pool_creation_decides_on_migration() {
    assert_eq!(
        step(StartupState::AwaitingPool { db_exists: true }, StartupEvent::PoolCreated),
        (StartupState::Serving, StartupAction::ServeCommands)
    );
    assert_eq!(
        step(StartupState::AwaitingPool { db_exists: false }, StartupEvent::PoolCreated),
        (StartupState::AwaitingMigration, StartupAction::MigrateDatabase)
    );
}
