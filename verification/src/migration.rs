//! Opening a database: which migrations run, how the staged tables of the ninth
//! one are compared with what became of them, and what must hold before the
//! new schema version is written.

use crate::digest::digest_text;
use crate::error::{StateError, StateErrorView};
use crate::rowdigest::{migration_query_digest, rows_bytes, rows_data, SqlValue};
use crate::text::{decimal, decimal_text, join, same_text};
use vstd::prelude::*;

verus! {

/// The schema version that this library reads and writes.
pub const SUPPORTED_SCHEMA_VERSION: u32 = 11;

/// The schema version from which on the tables of the devices and bindings are
/// split from their provenance.
pub const PROVENANCE_SCHEMA_VERSION: u32 = 9;

/// A table that the migration to the ninth version stages and rewrites.
#[derive(Clone, Copy, Debug, PartialEq, Eq, Structural)]
pub enum V9Table {
    DeviceIdentities,
    ProviderBindings,
    BindingDecisions,
    BindingRecords,
    BindingChallenges,
    BindingAuthorizations,
    ChallengeReservations,
}

impl V9Table {
    /// The name of the table.
    pub open spec fn text(self) -> Seq<char> {
        match self {
            V9Table::DeviceIdentities => "n5_device_identities"@,
            V9Table::ProviderBindings => "n5_provider_bindings"@,
            V9Table::BindingDecisions => "n6_binding_decisions"@,
            V9Table::BindingRecords => "n6_binding_records"@,
            V9Table::BindingChallenges => "n6_binding_challenges"@,
            V9Table::BindingAuthorizations => "n6_binding_authorizations"@,
            V9Table::ChallengeReservations => "n6_challenge_reservations"@,
        }
    }

    /// The name of the table that holds the rows as they were.
    pub open spec fn stage_text(self) -> Seq<char> {
        "stage_"@ + self.text()
    }

    /// How the rewritten table is joined with the provenance of its rows.
    pub open spec fn joins_text(self) -> Seq<char> {
        match self {
            V9Table::DeviceIdentities =>
                " JOIN n5_n4_identity_origins p ON p.origin_id=n.n4_origin_id AND p.device_id=n.device_id AND p.network_id=n.network_id"@,
            V9Table::ProviderBindings =>
                " JOIN n5_n4_provider_binding_provenance p ON p.binding_id=n.n4_provenance_binding_id AND p.device_id=n.device_id AND p.network_id=n.network_id"@,
            V9Table::BindingRecords =>
                " JOIN n5_n4_provider_binding_provenance p ON p.binding_id=n.n5_provider_binding_id AND p.device_id=n.device_id AND p.network_id=n.network_id"@,
            _ =>
                " JOIN n6_binding_records r ON r.binding_id=n.binding_id AND r.network_id=n.network_id AND r.device_id=n.device_id AND r.generation=n.generation JOIN n5_n4_provider_binding_provenance p ON p.binding_id=r.n5_provider_binding_id AND p.device_id=r.device_id AND p.network_id=r.network_id"@,
        }
    }

    /// The expression that gives a staged column in the rewritten table: the
    /// columns of the provenance moved, every other one stayed.
    pub open spec fn column_text(self, column: Seq<char>) -> Seq<char> {
        match self {
            V9Table::DeviceIdentities => if column == "origin_join_session_id"@ {
                "p.join_session_id AS origin_join_session_id"@
            } else {
                quoted_text("n"@, column)
            },
            V9Table::ProviderBindings => if column == "join_session_id"@ {
                "p.join_session_id AS join_session_id"@
            } else if column == "credential_id"@ {
                "p.credential_id AS credential_id"@
            } else if column == "provider_credential_reference"@ {
                "p.provider_credential_reference AS provider_credential_reference"@
            } else {
                quoted_text("n"@, column)
            },
            _ => if column == "join_session_id"@ {
                "p.join_session_id AS join_session_id"@
            } else {
                quoted_text("n"@, column)
            },
        }
    }

    /// The table that is compared after this one.
    pub open spec fn following(self) -> Option<V9Table> {
        match self {
            V9Table::DeviceIdentities => Some(V9Table::ProviderBindings),
            V9Table::ProviderBindings => Some(V9Table::BindingDecisions),
            V9Table::BindingDecisions => Some(V9Table::BindingRecords),
            V9Table::BindingRecords => Some(V9Table::BindingChallenges),
            V9Table::BindingChallenges => Some(V9Table::BindingAuthorizations),
            V9Table::BindingAuthorizations => Some(V9Table::ChallengeReservations),
            V9Table::ChallengeReservations => None,
        }
    }

    /// The number of tables from this one on.
    pub open spec fn left(self) -> nat {
        match self {
            V9Table::DeviceIdentities => 7,
            V9Table::ProviderBindings => 6,
            V9Table::BindingDecisions => 5,
            V9Table::BindingRecords => 4,
            V9Table::BindingChallenges => 3,
            V9Table::BindingAuthorizations => 2,
            V9Table::ChallengeReservations => 1,
        }
    }

    /// The name of the table.
    pub fn name(self) -> (name: &'static str)
        ensures
            name@ == self.text(),
    {
        match self {
            V9Table::DeviceIdentities => "n5_device_identities",
            V9Table::ProviderBindings => "n5_provider_bindings",
            V9Table::BindingDecisions => "n6_binding_decisions",
            V9Table::BindingRecords => "n6_binding_records",
            V9Table::BindingChallenges => "n6_binding_challenges",
            V9Table::BindingAuthorizations => "n6_binding_authorizations",
            V9Table::ChallengeReservations => "n6_challenge_reservations",
        }
    }

    /// The name of the table that holds the rows as they were.
    pub fn stage(self) -> (name: String)
        ensures
            name@ == self.stage_text(),
    {
        join("stage_", self.name())
    }

    /// How the rewritten table is joined with the provenance of its rows.
    pub fn joins(self) -> (text: &'static str)
        ensures
            text@ == self.joins_text(),
    {
        match self {
            V9Table::DeviceIdentities =>
                " JOIN n5_n4_identity_origins p ON p.origin_id=n.n4_origin_id AND p.device_id=n.device_id AND p.network_id=n.network_id",
            V9Table::ProviderBindings =>
                " JOIN n5_n4_provider_binding_provenance p ON p.binding_id=n.n4_provenance_binding_id AND p.device_id=n.device_id AND p.network_id=n.network_id",
            V9Table::BindingRecords =>
                " JOIN n5_n4_provider_binding_provenance p ON p.binding_id=n.n5_provider_binding_id AND p.device_id=n.device_id AND p.network_id=n.network_id",
            _ =>
                " JOIN n6_binding_records r ON r.binding_id=n.binding_id AND r.network_id=n.network_id AND r.device_id=n.device_id AND r.generation=n.generation JOIN n5_n4_provider_binding_provenance p ON p.binding_id=r.n5_provider_binding_id AND p.device_id=r.device_id AND p.network_id=r.network_id",
        }
    }

    /// The expression that gives a staged column in the rewritten table.
    pub fn column(self, column: &str) -> (text: String)
        ensures
            text@ == self.column_text(column@),
    {
        match self {
            V9Table::DeviceIdentities => {
                if same_text(column, "origin_join_session_id") {
                    return "p.join_session_id AS origin_join_session_id".to_owned();
                }
            },
            V9Table::ProviderBindings => {
                if same_text(column, "join_session_id") {
                    return "p.join_session_id AS join_session_id".to_owned();
                }
                if same_text(column, "credential_id") {
                    return "p.credential_id AS credential_id".to_owned();
                }
                if same_text(column, "provider_credential_reference") {
                    return
                        "p.provider_credential_reference AS provider_credential_reference".to_owned();
                }
            },
            _ => {
                if same_text(column, "join_session_id") {
                    return "p.join_session_id AS join_session_id".to_owned();
                }
            },
        }
        quoted("n", column)
    }

    /// The table that is compared after this one.
    pub fn next(self) -> (table: Option<V9Table>)
        ensures
            table == self.following(),
    {
        match self {
            V9Table::DeviceIdentities => Some(V9Table::ProviderBindings),
            V9Table::ProviderBindings => Some(V9Table::BindingDecisions),
            V9Table::BindingDecisions => Some(V9Table::BindingRecords),
            V9Table::BindingRecords => Some(V9Table::BindingChallenges),
            V9Table::BindingChallenges => Some(V9Table::BindingAuthorizations),
            V9Table::BindingAuthorizations => Some(V9Table::ChallengeReservations),
            V9Table::ChallengeReservations => None,
        }
    }
}

/// A quoted column of the table with the given alias.
pub open spec fn quoted_text(alias: Seq<char>, column: Seq<char>) -> Seq<char> {
    alias + ".\""@ + column + "\""@
}

fn quoted(alias: &str, column: &str) -> (text: String)
    ensures
        text@ == quoted_text(alias@, column@),
{
    let mut out = alias.to_owned();
    out.append(".\"");
    out.append(column);
    out.append("\"");
    out
}

/// Parts with a comma between each two.
pub open spec fn comma_separated(parts: Seq<Seq<char>>) -> Seq<char>
    decreases parts.len(),
{
    if parts.len() == 0 {
        Seq::empty()
    } else if parts.len() == 1 {
        parts[0]
    } else {
        comma_separated(parts.drop_last()) + ","@ + parts.last()
    }
}

fn push_part(out: &mut String, part: &str, parts: Ghost<Seq<Seq<char>>>, at: usize)
    requires
        at < parts@.len(),
        parts@[at as int] == part@,
        old(out)@ == comma_separated(parts@.take(at as int)),
    ensures
        final(out)@ == comma_separated(parts@.take(at + 1)),
{
    proof {
        let longer = parts@.take(at + 1);
        assert(longer.drop_last() =~= parts@.take(at as int));
        assert(longer.last() == part@);
    }
    if at > 0 {
        out.append(",");
    }
    out.append(part);
    assert(out@ =~= comma_separated(parts@.take(at + 1)));
}

/// The staged columns, as the staged table gives them.
pub open spec fn old_projection(columns: Seq<String>) -> Seq<Seq<char>> {
    columns.map_values(|column: String| quoted_text("s"@, column@))
}

/// The staged columns, as the rewritten table gives them.
pub open spec fn new_projection(table: V9Table, columns: Seq<String>) -> Seq<Seq<char>> {
    columns.map_values(|column: String| table.column_text(column@))
}

/// The numbers of all columns.
pub open spec fn order_numbers(count: nat) -> Seq<Seq<char>> {
    Seq::new(count, |i: int| decimal_text((i + 1) as nat))
}

/// The query for the rows of a table as they were.
pub open spec fn old_query_text(table: V9Table, columns: Seq<String>) -> Seq<char> {
    "SELECT "@ + comma_separated(old_projection(columns)) + " FROM temp.\""@ + table.stage_text()
        + "\" s ORDER BY "@ + comma_separated(order_numbers(columns.len()))
}

/// The query that puts the rows of a table together again as they were.
pub open spec fn new_query_text(table: V9Table, columns: Seq<String>) -> Seq<char> {
    "SELECT "@ + comma_separated(new_projection(table, columns)) + " FROM \""@ + table.text()
        + "\" n"@ + table.joins_text() + " ORDER BY "@ + comma_separated(
        order_numbers(columns.len()),
    )
}

fn order(count: usize) -> (text: String)
    ensures
        text@ == comma_separated(order_numbers(count as nat)),
{
    let mut out = String::new();
    let ghost parts = order_numbers(count as nat);
    assert(out@ =~= comma_separated(parts.take(0)));
    for i in 0..count
        invariant
            parts == order_numbers(count as nat),
            out@ == comma_separated(parts.take(i as int)),
    {
        push_part(&mut out, decimal(i as u64 + 1).as_str(), Ghost(parts), i);
    }
    assert(parts.take(count as int) =~= parts);
    out
}

/// The query for the rows of a table as they were.
pub fn old_query(table: V9Table, columns: &Vec<String>) -> (query: String)
    ensures
        query@ == old_query_text(table, columns@),
{
    let mut projection = String::new();
    let ghost parts = old_projection(columns@);
    assert(projection@ =~= comma_separated(parts.take(0)));
    for i in 0..columns.len()
        invariant
            parts == old_projection(columns@),
            projection@ == comma_separated(parts.take(i as int)),
    {
        push_part(&mut projection, quoted("s", columns[i].as_str()).as_str(), Ghost(parts), i);
    }
    assert(parts.take(columns@.len() as int) =~= parts);
    let mut out = "SELECT ".to_owned();
    out.append(projection.as_str());
    out.append(" FROM temp.\"");
    out.append(table.stage().as_str());
    out.append("\" s ORDER BY ");
    out.append(order(columns.len()).as_str());
    assert(out@ =~= old_query_text(table, columns@));
    out
}

/// The query that puts the rows of a table together again as they were.
pub fn new_query(table: V9Table, columns: &Vec<String>) -> (query: String)
    ensures
        query@ == new_query_text(table, columns@),
{
    let mut projection = String::new();
    let ghost parts = new_projection(table, columns@);
    assert(projection@ =~= comma_separated(parts.take(0)));
    for i in 0..columns.len()
        invariant
            parts == new_projection(table, columns@),
            projection@ == comma_separated(parts.take(i as int)),
    {
        push_part(&mut projection, table.column(columns[i].as_str()).as_str(), Ghost(parts), i);
    }
    assert(parts.take(columns@.len() as int) =~= parts);
    let mut out = "SELECT ".to_owned();
    out.append(projection.as_str());
    out.append(" FROM \"");
    out.append(table.name());
    out.append("\" n");
    out.append(table.joins());
    out.append(" ORDER BY ");
    out.append(order(columns.len()).as_str());
    assert(out@ =~= new_query_text(table, columns@));
    out
}

/// The query for the columns of a staged table.
pub fn stage_columns(table: V9Table) -> (query: String)
    ensures
        query@ == "PRAGMA temp.table_info(\""@ + table.stage_text() + "\")"@,
{
    let mut out = "PRAGMA temp.table_info(\"".to_owned();
    out.append(table.stage().as_str());
    out.append("\")");
    out
}

/// A staged table without columns is not there.
pub open spec fn staging_problem(table: V9Table, columns: Seq<String>) -> Option<StateErrorView> {
    if columns.len() == 0 {
        Some(
            StateErrorView::Conflict(
                "V9 staging table "@ + table.stage_text() + " is missing"@,
            ),
        )
    } else {
        None
    }
}

/// Requires that a staged table is there.
pub fn check_staging(table: V9Table, columns: &Vec<String>) -> (result: Result<(), StateError>)
    ensures
        match result {
            Ok(()) => staging_problem(table, columns@) is None,
            Err(error) => staging_problem(table, columns@) == Some(error@),
        },
{
    if columns.len() == 0 {
        let mut text = "V9 staging table ".to_owned();
        text.append(table.stage().as_str());
        text.append(" is missing");
        return Err(StateError::Conflict(text));
    }
    Ok(())
}

/// The rows of a table are not what they were.
pub open spec fn parity_problem(
    table: V9Table,
    old: (u64, Seq<char>),
    new: (u64, Seq<char>),
) -> Option<StateErrorView> {
    if old == new {
        None
    } else {
        Some(StateErrorView::Conflict("V9 semantic parity failed for "@ + table.text()))
    }
}

/// Requires that the rows of a table are what they were: as many, and with the
/// same digest.
pub fn verify_v9_migration_parity(table: V9Table, old: &(u64, String), new: &(u64, String)) -> (result:
    Result<(), StateError>)
    ensures
        match result {
            Ok(()) => parity_problem(table, (old.0, old.1@), (new.0, new.1@)) is None,
            Err(error) => parity_problem(table, (old.0, old.1@), (new.0, new.1@)) == Some(error@),
        },
{
    if old.0 != new.0 || !same_text(old.1.as_str(), new.1.as_str()) {
        return Err(StateError::Conflict(join("V9 semantic parity failed for ", table.name())));
    }
    Ok(())
}

/// How far the opening of a database has come. Everything happens in one
/// transaction of the database.
#[derive(Debug, PartialEq, Eq)]
pub enum Initialization {
    /// The schema version is being read.
    ReadingVersion,
    /// A migration, counted from zero, is running on a database of the found version.
    Migrating { found: u32, next: u32 },
    /// The columns of a staged table are being read.
    ReadingColumns { table: V9Table },
    /// The rows of a table as they were are being read.
    ReadingOld { table: V9Table, columns: Vec<String> },
    /// The rows of a table are being put together again.
    ReadingNew { table: V9Table, columns: Vec<String>, old: (u64, String) },
    /// The staged tables are being dropped.
    DroppingStaging,
    /// Violated foreign keys are being counted.
    CheckingForeignKeys,
    /// The integrity of the database is being checked.
    CheckingIntegrity,
    /// Staged tables that were left behind are being counted.
    CheckingResidue,
    /// The schema version is being written.
    SettingVersion,
    /// The transaction is being committed.
    Committing,
    /// The transaction is being rolled back because of an error.
    RollingBack { error: StateError },
    /// The database is open.
    Ready,
    /// The database was not opened.
    Failed { error: StateError },
}

/// What is to be done next with the database.
#[derive(Debug, PartialEq, Eq)]
pub enum InitializationAction {
    ReadVersion,
    RunMigration(u32),
    ReadColumns(String),
    ReadRows(String),
    DropStaging,
    CountForeignKeyFailures,
    CheckIntegrity,
    CountResidue,
    SetVersion(u32),
    Commit,
    Rollback,
    Finish,
}

/// What the database answered.
#[derive(Debug, PartialEq, Eq)]
pub enum InitializationEvent {
    Version(u32),
    Done,
    Columns(Vec<String>),
    Rows(Vec<Vec<SqlValue>>),
    Count(u64),
    Text(String),
    Failed(StateError),
}

/// The statements that drop the staged tables.
pub fn drop_v9_staging() -> (statements: &'static str)
    ensures
        statements@ == "\nDROP TABLE temp.stage_n6_challenge_reservations;\nDROP TABLE temp.stage_n6_binding_authorizations;\nDROP TABLE temp.stage_n6_binding_challenges;\nDROP TABLE temp.stage_n6_binding_records;\nDROP TABLE temp.stage_n6_binding_decisions;\nDROP TABLE temp.stage_n5_provider_bindings;\nDROP TABLE temp.stage_n5_device_identities;\n"@,
{
    "\nDROP TABLE temp.stage_n6_challenge_reservations;\nDROP TABLE temp.stage_n6_binding_authorizations;\nDROP TABLE temp.stage_n6_binding_challenges;\nDROP TABLE temp.stage_n6_binding_records;\nDROP TABLE temp.stage_n6_binding_decisions;\nDROP TABLE temp.stage_n5_provider_bindings;\nDROP TABLE temp.stage_n5_device_identities;\n"
}

/// A number and what there are that many of.
pub open spec fn counted_text(count: u64, what: Seq<char>) -> Seq<char> {
    "migration left "@ + decimal_text(count as nat) + what
}

fn counted(count: u64, what: &str) -> (text: String)
    ensures
        text@ == counted_text(count, what@),
{
    let mut out = "migration left ".to_owned();
    out.append(decimal(count).as_str());
    out.append(what);
    out
}

/// The digest of rows, with their number.
pub open spec fn rows_digest(rows: Vec<Vec<SqlValue>>) -> (u64, Seq<char>) {
    (rows@.len() as u64, digest_text(rows_bytes(rows_data(rows@))))
}

/// The opening fails with the given error, and the transaction is rolled back.
pub open spec fn rolls_back(state: Initialization, error: StateErrorView) -> bool {
    state matches Initialization::RollingBack { error: kept } && kept@ == error
}

/// The state after the migrations from the found version on have run.
pub open spec fn after_migrations(found: u32) -> Initialization {
    if found < PROVENANCE_SCHEMA_VERSION {
        Initialization::ReadingColumns { table: V9Table::DeviceIdentities }
    } else {
        Initialization::CheckingForeignKeys
    }
}

impl Initialization {
    /// The number of the next migration is in range while migrations run.
    pub open spec fn is_valid(self) -> bool {
        self matches Initialization::Migrating { found, next } ==> found <= next
            < SUPPORTED_SCHEMA_VERSION
    }

    /// The database is open, or was not opened.
    pub open spec fn is_over(self) -> bool {
        self is Ready || self is Failed
    }

    /// The event answers what this state asks for.
    pub open spec fn awaits(self, event: InitializationEvent) -> bool {
        !self.is_over() && (event is Failed || match self {
            Initialization::ReadingVersion => event is Version,
            Initialization::ReadingColumns { .. } => event is Columns,
            Initialization::ReadingOld { .. } => event is Rows,
            Initialization::ReadingNew { .. } => event is Rows,
            Initialization::CheckingForeignKeys => event is Count,
            Initialization::CheckingIntegrity => event is Text,
            Initialization::CheckingResidue => event is Count,
            _ => event is Done,
        })
    }

    /// What is to be done in this state.
    pub open spec fn asks(self, action: InitializationAction) -> bool {
        match self {
            Initialization::ReadingVersion => action == InitializationAction::ReadVersion,
            Initialization::Migrating { next, .. } => action == InitializationAction::RunMigration(
                next,
            ),
            Initialization::ReadingColumns { table } =>
                action matches InitializationAction::ReadColumns(query) && query@
                    == "PRAGMA temp.table_info(\""@ + table.stage_text() + "\")"@,
            Initialization::ReadingOld { table, columns } =>
                action matches InitializationAction::ReadRows(query) && query@ == old_query_text(
                    table,
                    columns@,
                ),
            Initialization::ReadingNew { table, columns, .. } =>
                action matches InitializationAction::ReadRows(query) && query@ == new_query_text(
                    table,
                    columns@,
                ),
            Initialization::DroppingStaging => action == InitializationAction::DropStaging,
            Initialization::CheckingForeignKeys => action
                == InitializationAction::CountForeignKeyFailures,
            Initialization::CheckingIntegrity => action == InitializationAction::CheckIntegrity,
            Initialization::CheckingResidue => action == InitializationAction::CountResidue,
            Initialization::SettingVersion => action == InitializationAction::SetVersion(
                SUPPORTED_SCHEMA_VERSION,
            ),
            Initialization::Committing => action == InitializationAction::Commit,
            Initialization::RollingBack { .. } => action == InitializationAction::Rollback,
            _ => action == InitializationAction::Finish,
        }
    }

    /// The event takes this state to the other one.
    pub open spec fn goes(self, event: InitializationEvent, after: Initialization) -> bool {
        match (self, event) {
            (Initialization::RollingBack { error }, _) => after == Initialization::Failed { error },
            (Initialization::Committing, InitializationEvent::Failed(error)) => after
                == Initialization::Failed { error },
            (_, InitializationEvent::Failed(error)) => after == Initialization::RollingBack {
                error,
            },
            (Initialization::ReadingVersion, InitializationEvent::Version(found)) => if found
                > SUPPORTED_SCHEMA_VERSION {
                rolls_back(
                    after,
                    StateErrorView::UnsupportedSchema { found, supported: SUPPORTED_SCHEMA_VERSION },
                )
            } else if found < SUPPORTED_SCHEMA_VERSION {
                after == Initialization::Migrating { found, next: found }
            } else {
                after == after_migrations(found)
            },
            (Initialization::Migrating { found, next }, _) => if next + 1
                < SUPPORTED_SCHEMA_VERSION {
                after == Initialization::Migrating { found, next: (next + 1) as u32 }
            } else {
                after == after_migrations(found)
            },
            (
                Initialization::ReadingColumns { table },
                InitializationEvent::Columns(columns),
            ) => match staging_problem(table, columns@) {
                Some(problem) => rolls_back(after, problem),
                None => after == Initialization::ReadingOld { table, columns },
            },
            (
                Initialization::ReadingOld { table, columns },
                InitializationEvent::Rows(rows),
            ) => after matches Initialization::ReadingNew { table: t, columns: c, old } && t == table
                && c == columns && (old.0, old.1@) == rows_digest(rows),
            (
                Initialization::ReadingNew { table, old, .. },
                InitializationEvent::Rows(rows),
            ) => match parity_problem(table, (old.0, old.1@), rows_digest(rows)) {
                Some(problem) => rolls_back(after, problem),
                None => match table.following() {
                    Some(next) => after == Initialization::ReadingColumns { table: next },
                    None => after == Initialization::DroppingStaging,
                },
            },
            (Initialization::DroppingStaging, _) => after == Initialization::CheckingForeignKeys,
            (Initialization::CheckingForeignKeys, InitializationEvent::Count(count)) => if count
                == 0 {
                after == Initialization::CheckingIntegrity
            } else {
                rolls_back(
                    after,
                    StateErrorView::Conflict(counted_text(count, " foreign-key violation(s)"@)),
                )
            },
            (Initialization::CheckingIntegrity, InitializationEvent::Text(text)) => if text@
                == "ok"@ {
                after == Initialization::CheckingResidue
            } else {
                rolls_back(
                    after,
                    StateErrorView::Conflict("migration integrity check failed: "@ + text@),
                )
            },
            (Initialization::CheckingResidue, InitializationEvent::Count(count)) => if count == 0 {
                after == Initialization::SettingVersion
            } else {
                rolls_back(
                    after,
                    StateErrorView::Conflict(
                        counted_text(count, " temporary staging object(s)"@),
                    ),
                )
            },
            (Initialization::SettingVersion, _) => after == Initialization::Committing,
            (Initialization::Committing, _) => after == Initialization::Ready,
            _ => false,
        }
    }

    /// How many more events there can be, at most.
    pub open spec fn remaining(self) -> nat {
        match self {
            Initialization::ReadingVersion => 60,
            Initialization::Migrating { next, .. } => (40 + (SUPPORTED_SCHEMA_VERSION - next))
                as nat,
            Initialization::ReadingColumns { table } => 10 + 3 * table.left(),
            Initialization::ReadingOld { table, .. } => (9 + 3 * table.left()) as nat,
            Initialization::ReadingNew { table, .. } => (8 + 3 * table.left()) as nat,
            Initialization::DroppingStaging => 8,
            Initialization::CheckingForeignKeys => 7,
            Initialization::CheckingIntegrity => 6,
            Initialization::CheckingResidue => 5,
            Initialization::SettingVersion => 4,
            Initialization::Committing => 3,
            Initialization::RollingBack { .. } => 1,
            _ => 0,
        }
    }

    /// What is to be done in this state.
    pub fn action(&self) -> (action: InitializationAction)
        ensures
            self.asks(action),
    {
        match self {
            Initialization::ReadingVersion => InitializationAction::ReadVersion,
            Initialization::Migrating { next, .. } => InitializationAction::RunMigration(*next),
            Initialization::ReadingColumns { table } => InitializationAction::ReadColumns(
                stage_columns(*table),
            ),
            Initialization::ReadingOld { table, columns } => InitializationAction::ReadRows(
                old_query(*table, columns),
            ),
            Initialization::ReadingNew { table, columns, .. } => InitializationAction::ReadRows(
                new_query(*table, columns),
            ),
            Initialization::DroppingStaging => InitializationAction::DropStaging,
            Initialization::CheckingForeignKeys => InitializationAction::CountForeignKeyFailures,
            Initialization::CheckingIntegrity => InitializationAction::CheckIntegrity,
            Initialization::CheckingResidue => InitializationAction::CountResidue,
            Initialization::SettingVersion => InitializationAction::SetVersion(
                SUPPORTED_SCHEMA_VERSION,
            ),
            Initialization::Committing => InitializationAction::Commit,
            Initialization::RollingBack { .. } => InitializationAction::Rollback,
            Initialization::Ready => InitializationAction::Finish,
            Initialization::Failed { .. } => InitializationAction::Finish,
        }
    }

    /// The state after the database has answered.
    pub fn initialize(self, event: InitializationEvent) -> (after: Initialization)
        requires
            self.is_valid(),
            self.awaits(event),
        ensures
            self.goes(event, after),
            after.is_valid(),
    {
        match (self, event) {
            (Initialization::RollingBack { error }, _) => Initialization::Failed { error },
            (
                Initialization::Committing,
                InitializationEvent::Failed(error),
            ) => Initialization::Failed { error },
            (_, InitializationEvent::Failed(error)) => Initialization::RollingBack { error },
            (Initialization::ReadingVersion, InitializationEvent::Version(found)) => {
                if found > SUPPORTED_SCHEMA_VERSION {
                    Initialization::RollingBack {
                        error: StateError::UnsupportedSchema {
                            found,
                            supported: SUPPORTED_SCHEMA_VERSION,
                        },
                    }
                } else if found < SUPPORTED_SCHEMA_VERSION {
                    Initialization::Migrating { found, next: found }
                } else {
                    Initialization::CheckingForeignKeys
                }
            },
            (Initialization::Migrating { found, next }, _) => {
                if next + 1 < SUPPORTED_SCHEMA_VERSION {
                    Initialization::Migrating { found, next: next + 1 }
                } else if found < PROVENANCE_SCHEMA_VERSION {
                    Initialization::ReadingColumns { table: V9Table::DeviceIdentities }
                } else {
                    Initialization::CheckingForeignKeys
                }
            },
            (
                Initialization::ReadingColumns { table },
                InitializationEvent::Columns(columns),
            ) => match check_staging(table, &columns) {
                Ok(()) => Initialization::ReadingOld { table, columns },
                Err(error) => Initialization::RollingBack { error },
            },
            (
                Initialization::ReadingOld { table, columns },
                InitializationEvent::Rows(rows),
            ) => Initialization::ReadingNew { table, columns, old: migration_query_digest(&rows) },
            (
                Initialization::ReadingNew { table, old, .. },
                InitializationEvent::Rows(rows),
            ) => {
                let new = migration_query_digest(&rows);
                match verify_v9_migration_parity(table, &old, &new) {
                    Ok(()) => match table.next() {
                        Some(next) => Initialization::ReadingColumns { table: next },
                        None => Initialization::DroppingStaging,
                    },
                    Err(error) => Initialization::RollingBack { error },
                }
            },
            (Initialization::DroppingStaging, _) => Initialization::CheckingForeignKeys,
            (Initialization::CheckingForeignKeys, InitializationEvent::Count(count)) => {
                if count != 0 {
                    Initialization::RollingBack {
                        error: StateError::Conflict(counted(count, " foreign-key violation(s)")),
                    }
                } else {
                    Initialization::CheckingIntegrity
                }
            },
            (Initialization::CheckingIntegrity, InitializationEvent::Text(text)) => {
                if !same_text(text.as_str(), "ok") {
                    Initialization::RollingBack {
                        error: StateError::Conflict(
                            join("migration integrity check failed: ", text.as_str()),
                        ),
                    }
                } else {
                    Initialization::CheckingResidue
                }
            },
            (Initialization::CheckingResidue, InitializationEvent::Count(count)) => {
                if count != 0 {
                    Initialization::RollingBack {
                        error: StateError::Conflict(counted(count, " temporary staging object(s)")),
                    }
                } else {
                    Initialization::SettingVersion
                }
            },
            (Initialization::SettingVersion, _) => Initialization::Committing,
            (Initialization::Committing, _) => Initialization::Ready,
            (other, _) => other,
        }
    }
}

/// Opening a database ends: with every answer fewer remain.
pub proof fn law_initialization_ends(
    before: Initialization,
    event: InitializationEvent,
    after: Initialization,
)
    requires
        before.is_valid(),
        before.awaits(event),
        before.goes(event, after),
    ensures
        after.remaining() < before.remaining(),
        after.remaining() == 0 <==> after.is_over(),
{
}

/// The schema version is written, and the transaction committed, only after
/// every check has passed; whatever else happens, the transaction is rolled
/// back before the opening fails, unless it was the commit itself that failed.
pub proof fn law_commit_follows_every_check(
    before: Initialization,
    event: InitializationEvent,
    after: Initialization,
)
    requires
        before.is_valid(),
        before.awaits(event),
        before.goes(event, after),
    ensures
        after is Ready ==> before is Committing && event is Done,
        after is Committing ==> before is SettingVersion && event is Done,
        after is SettingVersion ==> before is CheckingResidue && event
            == InitializationEvent::Count(0),
        after is CheckingResidue ==> before is CheckingIntegrity && (
        event matches InitializationEvent::Text(text) && text@ == "ok"@),
        after is CheckingIntegrity ==> before is CheckingForeignKeys && event
            == InitializationEvent::Count(0),
        after is DroppingStaging ==> (before matches Initialization::ReadingNew { table, old, .. }
            && table == V9Table::ChallengeReservations && (event matches InitializationEvent::Rows(
            rows,
        ) && (old.0, old.1@) == rows_digest(rows))),
        after is Failed ==> before is RollingBack || (before is Committing && event is Failed),
        (after matches Initialization::Migrating { found, next } && next != found) ==> (
        before matches Initialization::Migrating { found: f, next: n } && f
            == after->Migrating_found && n + 1 == after->Migrating_next),
{
}

/// A run of the opening of a database: the states, and the answers between them.
pub open spec fn is_run(states: Seq<Initialization>, events: Seq<InitializationEvent>) -> bool {
    &&& states.len() == events.len() + 1
    &&& states[0] is ReadingVersion
    &&& forall|i: int|
        0 <= i < events.len() ==> states[i].awaits(#[trigger] events[i]) && states[i].goes(
            events[i],
            states[i + 1],
        )
}

/// A migration ran, before the given place of a run, on a database of the found
/// version.
pub open spec fn ran_migration(
    states: Seq<Initialization>,
    events: Seq<InitializationEvent>,
    place: int,
    found: u32,
    number: u32,
) -> bool {
    exists|i: int|
        0 <= i < place && #[trigger] events[i] is Done && states[i] == Initialization::Migrating {
            found,
            next: number,
        }
}

/// A staged table was compared, before the given place of a run, and its rows
/// were what they had been.
pub open spec fn kept_table(
    states: Seq<Initialization>,
    events: Seq<InitializationEvent>,
    place: int,
    table: V9Table,
) -> bool {
    exists|i: int|
        0 <= i < place && is_comparison(states[i], #[trigger] events[i], table)
}

/// The answer completes a comparison of the table that found no difference.
pub open spec fn is_comparison(
    state: Initialization,
    event: InitializationEvent,
    table: V9Table,
) -> bool {
    state matches Initialization::ReadingNew { table: compared, old, .. } && compared == table && (
    event matches InitializationEvent::Rows(rows) && (old.0, old.1@) == rows_digest(rows))
}

/// No foreign key was found to be violated before the given place of a run.
pub open spec fn no_violations(
    states: Seq<Initialization>,
    events: Seq<InitializationEvent>,
    place: int,
) -> bool {
    exists|i: int|
        0 <= i < place && states[i] is CheckingForeignKeys && #[trigger] events[i]
            == InitializationEvent::Count(0)
}

/// The database was found to be intact before the given place of a run.
pub open spec fn is_intact(
    states: Seq<Initialization>,
    events: Seq<InitializationEvent>,
    place: int,
) -> bool {
    exists|i: int|
        0 <= i < place && states[i] is CheckingIntegrity && (
        #[trigger] events[i] matches InitializationEvent::Text(text) && text@ == "ok"@)
}

/// No staged table was left behind, before the given place of a run.
pub open spec fn no_residue(
    states: Seq<Initialization>,
    events: Seq<InitializationEvent>,
    place: int,
) -> bool {
    exists|i: int|
        0 <= i < place && states[i] is CheckingResidue && #[trigger] events[i]
            == InitializationEvent::Count(0)
}

/// The migrations from the found version up to the given one ran.
spec fn migrated(
    states: Seq<Initialization>,
    events: Seq<InitializationEvent>,
    place: int,
    found: u32,
    until: int,
) -> bool {
    forall|number: u32|
        found <= number < until ==> #[trigger] ran_migration(states, events, place, found, number)
}

/// The staged tables with more than the given number of tables from them on were
/// compared.
spec fn compared(
    states: Seq<Initialization>,
    events: Seq<InitializationEvent>,
    place: int,
    left: nat,
) -> bool {
    forall|table: V9Table|
        #![trigger kept_table(states, events, place, table)]
        table.left() > left ==> kept_table(states, events, place, table)
}

/// What a run has done when it is past its migrations.
spec fn is_past_tables(
    states: Seq<Initialization>,
    events: Seq<InitializationEvent>,
    place: int,
) -> bool {
    &&& events[0] matches InitializationEvent::Version(found) && {
        &&& found <= SUPPORTED_SCHEMA_VERSION
        &&& migrated(states, events, place, found, SUPPORTED_SCHEMA_VERSION as int)
        &&& found < PROVENANCE_SCHEMA_VERSION ==> compared(states, events, place, 0)
    }
}

/// What a run has done at a place, by the state that it is in.
spec fn progress(
    states: Seq<Initialization>,
    events: Seq<InitializationEvent>,
    place: int,
) -> bool {
    let comparing = |left: nat|
        {
            &&& place > 0
            &&& events[0] matches InitializationEvent::Version(found) && {
                &&& found < PROVENANCE_SCHEMA_VERSION
                &&& migrated(states, events, place, found, SUPPORTED_SCHEMA_VERSION as int)
                &&& compared(states, events, place, left)
            }
        };
    match states[place] {
        Initialization::ReadingVersion => place == 0,
        Initialization::Migrating { found, next } => {
            &&& place > 0
            &&& events[0] == InitializationEvent::Version(found)
            &&& found <= next < SUPPORTED_SCHEMA_VERSION
            &&& migrated(states, events, place, found, next as int)
        },
        Initialization::ReadingColumns { table } => comparing(table.left()),
        Initialization::ReadingOld { table, .. } => comparing(table.left()),
        Initialization::ReadingNew { table, .. } => comparing(table.left()),
        Initialization::DroppingStaging => comparing(0),
        Initialization::CheckingForeignKeys => place > 0 && is_past_tables(states, events, place),
        Initialization::CheckingIntegrity => place > 0 && is_past_tables(states, events, place)
            && no_violations(states, events, place),
        Initialization::CheckingResidue => place > 0 && is_past_tables(states, events, place)
            && no_violations(states, events, place) && is_intact(states, events, place),
        Initialization::SettingVersion => place > 0 && is_past_tables(states, events, place)
            && no_violations(states, events, place) && is_intact(states, events, place)
            && no_residue(states, events, place),
        Initialization::Committing => place > 0 && is_past_tables(states, events, place)
            && no_violations(states, events, place) && is_intact(states, events, place)
            && no_residue(states, events, place),
        Initialization::Ready => place > 0 && is_past_tables(states, events, place)
            && no_violations(states, events, place) && is_intact(states, events, place)
            && no_residue(states, events, place),
        _ => true,
    }
}

/// What was done by one place of a run was done by the next.
proof fn lemma_done_stays_done(
    states: Seq<Initialization>,
    events: Seq<InitializationEvent>,
    place: int,
)
    requires
        0 <= place,
    ensures
        forall|found: u32, number: u32|
            ran_migration(states, events, place, found, number) ==> #[trigger] ran_migration(
                states,
                events,
                place + 1,
                found,
                number,
            ),
        forall|table: V9Table|
            kept_table(states, events, place, table) ==> #[trigger] kept_table(
                states,
                events,
                place + 1,
                table,
            ),
        no_violations(states, events, place) ==> no_violations(states, events, place + 1),
        is_intact(states, events, place) ==> is_intact(states, events, place + 1),
        no_residue(states, events, place) ==> no_residue(states, events, place + 1),
{
    assert forall|found: u32, number: u32|
        ran_migration(states, events, place, found, number) implies #[trigger] ran_migration(
        states,
        events,
        place + 1,
        found,
        number,
    ) by {
        let i = choose|i: int|
            0 <= i < place && #[trigger] events[i] is Done && states[i]
                == Initialization::Migrating { found, next: number };
        assert(events[i] is Done);
    }
    assert forall|table: V9Table| kept_table(states, events, place, table) implies #[trigger] kept_table(
        states,
        events,
        place + 1,
        table,
    ) by {
        let i = choose|i: int|
            0 <= i < place && is_comparison(states[i], #[trigger] events[i], table);
        assert(is_comparison(states[i], events[i], table));
    }
}

#[verifier::rlimit(40)]
proof fn lemma_progress(
    states: Seq<Initialization>,
    events: Seq<InitializationEvent>,
    place: int,
)
    requires
        is_run(states, events),
        0 <= place <= events.len(),
    ensures
        progress(states, events, place),
        states[place].is_valid(),
    decreases place,
{
    if place > 0 {
        let earlier = place - 1;
        lemma_progress(states, events, earlier);
        lemma_done_stays_done(states, events, earlier);
        let state = states[earlier];
        let event = events[earlier];
        assert(state.awaits(event) && state.goes(event, states[earlier + 1]));
        match state {
            Initialization::Migrating { found, next } => {
                if event is Done {
                    assert(ran_migration(states, events, place, found, next));
                    assert(migrated(states, events, place, found, next + 1));
                }
            },
            Initialization::ReadingNew { table, .. } => {
                if is_comparison(state, event, table) {
                    assert(kept_table(states, events, place, table));
                    assert(compared(states, events, place, (table.left() - 1) as nat)) by {
                        assert forall|other: V9Table| other.left() > table.left() - 1 implies
                            #[trigger] kept_table(states, events, place, other) by {
                            if other.left() > table.left() {
                                assert(kept_table(states, events, earlier, other));
                            } else {
                                assert(other == table);
                            }
                        }
                    }
                }
            },
            Initialization::ReadingVersion => {
                if let InitializationEvent::Version(found) = event {
                    assert(migrated(states, events, place, found, found as int));
                    assert(compared(states, events, place, 7));
                }
            },
            _ => {},
        }
    }
}

/// A database that was opened was found in a supported version, every later
/// migration was run on it, and where the staged tables were rewritten each of
/// them was found unchanged; and after all that it had no violated foreign key,
/// was intact, and held no staged table.
pub proof fn law_open_database_was_migrated_and_checked(
    states: Seq<Initialization>,
    events: Seq<InitializationEvent>,
)
    requires
        is_run(states, events),
        states.last() is Ready,
    ensures
        events[0] matches InitializationEvent::Version(found) && {
            &&& found <= SUPPORTED_SCHEMA_VERSION
            &&& forall|number: u32|
                found <= number < SUPPORTED_SCHEMA_VERSION ==> #[trigger] ran_migration(
                    states,
                    events,
                    events.len() as int,
                    found,
                    number,
                )
            &&& found < PROVENANCE_SCHEMA_VERSION ==> forall|table: V9Table| #[trigger]
                kept_table(states, events, events.len() as int, table)
        },
        no_violations(states, events, events.len() as int),
        is_intact(states, events, events.len() as int),
        no_residue(states, events, events.len() as int),
{
    lemma_progress(states, events, events.len() as int);
    assert forall|table: V9Table| table.left() > 0 by {}
}

} // verus!
