use nodescale_state::migration::{
    drop_v9_staging, new_query, old_query, stage_columns, Initialization, InitializationAction,
    InitializationEvent, V9Table,
};
use nodescale_state::rowdigest::{migration_query_digest, SqlValue};
use nodescale_state::{StateError, SUPPORTED_SCHEMA_VERSION};

fn columns(names: &[&str]) -> Vec<String> {
    names.iter().map(|name| name.to_string()).collect()
}

fn row(text: &str) -> Vec<SqlValue> {
    vec![SqlValue::Text(text.as_bytes().to_vec())]
}

/// Runs an opening on a database whose tables have the given rows before and
/// after, and says what was done.
fn run(
    found: u32,
    answer: impl Fn(&InitializationAction) -> Option<InitializationEvent>,
) -> (Vec<InitializationAction>, Initialization) {
    let mut state = Initialization::ReadingVersion;
    let mut actions = vec![];
    loop {
        let action = state.action();
        if action == InitializationAction::Finish {
            return (actions, state);
        }
        let event = answer(&action).unwrap_or_else(|| match &action {
            InitializationAction::ReadVersion => InitializationEvent::Version(found),
            InitializationAction::ReadColumns(_) => {
                InitializationEvent::Columns(columns(&["id", "join_session_id"]))
            }
            InitializationAction::ReadRows(_) => InitializationEvent::Rows(vec![row("x")]),
            InitializationAction::CountForeignKeyFailures => InitializationEvent::Count(0),
            InitializationAction::CountResidue => InitializationEvent::Count(0),
            InitializationAction::CheckIntegrity => InitializationEvent::Text("ok".into()),
            _ => InitializationEvent::Done,
        });
        actions.push(action);
        state = state.initialize(event);
    }
}

fn failed(state: Initialization) -> StateError {
    match state {
        Initialization::Failed { error } => error,
        other => panic!("{other:?}"),
    }
}

#[test]
fn digest_counts_rows_and_frames_values() {
    let rows = vec![
        vec![SqlValue::Null, SqlValue::Integer(-2), SqlValue::Real(0x3ff0_0000_0000_0000)],
        vec![
            SqlValue::Text(b"abc".to_vec()),
            SqlValue::Blob(vec![0, 255]),
            SqlValue::Integer(258),
        ],
    ];
    let (count, digest) = migration_query_digest(&rows);
    assert_eq!(count, 2);
    assert_eq!(digest, "eceb0804f8ced09a69c49c66ba01a057828e38f02440331d49cb96e02dcd8bab");
    assert_eq!(
        migration_query_digest(&vec![]),
        (0, "e3b0c44298fc1c149afbf4c8996fb92427ae41e4649b934ca495991b7852b855".to_string())
    );
}

#[test]
fn digest_tells_values_apart() {
    let digest = |values: Vec<SqlValue>| migration_query_digest(&vec![values]).1;
    let text = |s: &str| SqlValue::Text(s.as_bytes().to_vec());
    assert_ne!(digest(vec![text("ab"), text("c")]), digest(vec![text("a"), text("bc")]));
    assert_ne!(digest(vec![text("a")]), digest(vec![SqlValue::Blob(b"a".to_vec())]));
    assert_ne!(digest(vec![SqlValue::Integer(1)]), digest(vec![SqlValue::Real(1)]));
    assert_ne!(digest(vec![SqlValue::Integer(i64::MIN)]), digest(vec![SqlValue::Integer(0)]));
    assert_eq!(digest(vec![text("a")]), digest(vec![text("a")]));
}

#[test]
fn parity_queries_name_every_column() {
    let names = columns(&["device_id", "origin_join_session_id"]);
    assert_eq!(
        old_query(V9Table::DeviceIdentities, &names),
        "SELECT s.\"device_id\",s.\"origin_join_session_id\" FROM temp.\"stage_n5_device_identities\" s ORDER BY 1,2"
    );
    assert_eq!(
        new_query(V9Table::DeviceIdentities, &names),
        "SELECT n.\"device_id\",p.join_session_id AS origin_join_session_id FROM \"n5_device_identities\" n JOIN n5_n4_identity_origins p ON p.origin_id=n.n4_origin_id AND p.device_id=n.device_id AND p.network_id=n.network_id ORDER BY 1,2"
    );
    let names = columns(&["join_session_id", "credential_id", "provider_credential_reference", "x"]);
    assert_eq!(
        new_query(V9Table::ProviderBindings, &names),
        "SELECT p.join_session_id AS join_session_id,p.credential_id AS credential_id,p.provider_credential_reference AS provider_credential_reference,n.\"x\" FROM \"n5_provider_bindings\" n JOIN n5_n4_provider_binding_provenance p ON p.binding_id=n.n4_provenance_binding_id AND p.device_id=n.device_id AND p.network_id=n.network_id ORDER BY 1,2,3,4"
    );
    let names = columns(&["join_session_id", "credential_id"]);
    assert_eq!(
        new_query(V9Table::BindingRecords, &names),
        "SELECT p.join_session_id AS join_session_id,n.\"credential_id\" FROM \"n6_binding_records\" n JOIN n5_n4_provider_binding_provenance p ON p.binding_id=n.n5_provider_binding_id AND p.device_id=n.device_id AND p.network_id=n.network_id ORDER BY 1,2"
    );
    assert_eq!(
        new_query(V9Table::BindingDecisions, &columns(&["join_session_id"])),
        "SELECT p.join_session_id AS join_session_id FROM \"n6_binding_decisions\" n JOIN n6_binding_records r ON r.binding_id=n.binding_id AND r.network_id=n.network_id AND r.device_id=n.device_id AND r.generation=n.generation JOIN n5_n4_provider_binding_provenance p ON p.binding_id=r.n5_provider_binding_id AND p.device_id=r.device_id AND p.network_id=r.network_id ORDER BY 1"
    );
    assert_eq!(
        stage_columns(V9Table::ChallengeReservations),
        "PRAGMA temp.table_info(\"stage_n6_challenge_reservations\")"
    );
}

#[test]
fn new_database_gets_every_migration_and_check() {
    let (actions, state) = run(0, |_| None);
    assert_eq!(state, Initialization::Ready);
    let migrations: Vec<_> = (0..SUPPORTED_SCHEMA_VERSION)
        .map(InitializationAction::RunMigration)
        .collect();
    assert_eq!(actions[0], InitializationAction::ReadVersion);
    assert_eq!(actions[1..12], migrations[..]);
    let columns_read = actions
        .iter()
        .filter(|action| matches!(action, InitializationAction::ReadColumns(_)))
        .count();
    assert_eq!(columns_read, 7);
    assert_eq!(
        actions[actions.len() - 6..],
        [
            InitializationAction::DropStaging,
            InitializationAction::CountForeignKeyFailures,
            InitializationAction::CheckIntegrity,
            InitializationAction::CountResidue,
            InitializationAction::SetVersion(11),
            InitializationAction::Commit,
        ]
    );
    for table in drop_v9_staging().lines().filter(|line| !line.is_empty()) {
        assert!(table.starts_with("DROP TABLE temp.stage_n"));
    }
    assert_eq!(drop_v9_staging().lines().count(), 8);
}

#[test]
fn later_databases_skip_what_they_have() {
    let (actions, state) = run(9, |_| None);
    assert_eq!(state, Initialization::Ready);
    assert_eq!(
        actions[1..4],
        [
            InitializationAction::RunMigration(9),
            InitializationAction::RunMigration(10),
            InitializationAction::CountForeignKeyFailures,
        ]
    );
    let (actions, state) = run(11, |_| None);
    assert_eq!(state, Initialization::Ready);
    assert_eq!(actions[1], InitializationAction::CountForeignKeyFailures);
    let (actions, _) = run(8, |_| None);
    assert_eq!(actions[1], InitializationAction::RunMigration(8));
    assert!(matches!(actions[4], InitializationAction::ReadColumns(_)));
}

#[test]
fn newer_databases_are_refused() {
    let (actions, state) = run(12, |_| None);
    assert_eq!(failed(state), StateError::UnsupportedSchema { found: 12, supported: 11 });
    assert_eq!(actions.last(), Some(&InitializationAction::Rollback));
}

#[test]
fn missing_staging_is_refused() {
    let (actions, state) = run(3, |action| match action {
        InitializationAction::ReadColumns(query) if query.contains("n6_binding_records") => {
            Some(InitializationEvent::Columns(vec![]))
        }
        _ => None,
    });
    assert_eq!(
        failed(state),
        StateError::Conflict("V9 staging table stage_n6_binding_records is missing".into())
    );
    assert_eq!(actions.last(), Some(&InitializationAction::Rollback));
}

#[test]
fn lost_rows_are_noticed() {
    let (_, state) = run(0, |action| match action {
        InitializationAction::ReadRows(query) if query.contains("FROM \"n6_binding_challenges\"") => {
            Some(InitializationEvent::Rows(vec![row("y")]))
        }
        _ => None,
    });
    assert_eq!(
        failed(state),
        StateError::Conflict("V9 semantic parity failed for n6_binding_challenges".into())
    );
    let (_, state) = run(0, |action| match action {
        InitializationAction::ReadRows(query) if query.contains("FROM \"n5_device_identities\"") => {
            Some(InitializationEvent::Rows(vec![]))
        }
        _ => None,
    });
    assert_eq!(
        failed(state),
        StateError::Conflict("V9 semantic parity failed for n5_device_identities".into())
    );
}

#[test]
fn failed_checks_roll_back() {
    let outcome = |wanted: InitializationAction, event: fn() -> InitializationEvent| {
        let (actions, state) =
            run(0, |action| if *action == wanted { Some(event()) } else { None });
        assert_eq!(actions.last(), Some(&InitializationAction::Rollback));
        failed(state)
    };
    assert_eq!(
        outcome(InitializationAction::CountForeignKeyFailures, || InitializationEvent::Count(2)),
        StateError::Conflict("migration left 2 foreign-key violation(s)".into())
    );
    assert_eq!(
        outcome(InitializationAction::CheckIntegrity, || InitializationEvent::Text("bad".into())),
        StateError::Conflict("migration integrity check failed: bad".into())
    );
    assert_eq!(
        outcome(InitializationAction::CountResidue, || InitializationEvent::Count(1)),
        StateError::Conflict("migration left 1 temporary staging object(s)".into())
    );
    assert_eq!(
        outcome(InitializationAction::RunMigration(4), || InitializationEvent::Failed(
            StateError::Sqlite("syntax".into())
        )),
        StateError::Sqlite("syntax".into())
    );
}

#[test]
fn failed_commit_is_not_rolled_back() {
    let (actions, state) = run(11, |action| match action {
        InitializationAction::Commit => {
            Some(InitializationEvent::Failed(StateError::Sqlite("busy".into())))
        }
        _ => None,
    });
    assert_eq!(failed(state), StateError::Sqlite("busy".into()));
    assert_eq!(actions.last(), Some(&InitializationAction::Commit));
}

#[test]
fn failed_rollback_keeps_the_first_error() {
    let (_, state) = run(12, |action| match action {
        InitializationAction::Rollback => {
            Some(InitializationEvent::Failed(StateError::Sqlite("busy".into())))
        }
        _ => None,
    });
    assert_eq!(failed(state), StateError::UnsupportedSchema { found: 12, supported: 11 });
}
