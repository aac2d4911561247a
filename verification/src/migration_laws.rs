//! What each answer of the database leads to while it is opened, and what it is
//! asked.

use crate::digest::digest_text;
use crate::error::StateErrorView;
use crate::migration::{
    comma_separated, new_projection, new_query_text, old_projection, old_query_text,
    order_numbers, parity_problem, staging_problem, Initialization, InitializationAction,
    InitializationEvent, V9Table,
};
use crate::rowdigest::{big_endian, rows_bytes, rows_data, value_bytes, SqlData, SqlValue};
use crate::text::decimal_text;
use vstd::prelude::*;

verus! {

/// A database of a later version than the supported one is refused with both
/// versions; one of an earlier version runs every migration from its own on, one
/// after the other, and has its tables compared if they were rewritten on the
/// way; the supported one runs none.
pub proof fn law_version_decides_the_migrations(
    found: u32,
    next: u32,
    event: InitializationEvent,
    after: Initialization,
)
    requires
        event is Version || event is Done,
    ensures
        Initialization::ReadingVersion.goes(InitializationEvent::Version(found), after) ==> {
            &&& found > 11 ==> (after matches Initialization::RollingBack { error } && error@
                == (StateErrorView::UnsupportedSchema { found, supported: 11 }))
            &&& found < 11 ==> after == (Initialization::Migrating { found, next: found })
            &&& found == 11 ==> after == Initialization::CheckingForeignKeys
        },
        event is Done && next < 11 && (Initialization::Migrating { found, next }).goes(event, after)
            ==> {
            &&& next + 1 < 11 ==> (after matches Initialization::Migrating {
                found: same,
                next: following,
            } && same == found && following == next + 1)
            &&& next + 1 == 11 && found < 9 ==> after == (Initialization::ReadingColumns {
                table: V9Table::DeviceIdentities,
            })
            &&& next + 1 == 11 && found >= 9 ==> after == Initialization::CheckingForeignKeys
        },
{
}

/// Any failure on the way is rolled back, and is the error that the opening ends
/// with; a failed commit ends it at once.
pub proof fn law_failure_is_rolled_back(
    before: Initialization,
    event: InitializationEvent,
    after: Initialization,
)
    requires
        before.goes(event, after),
        event is Failed,
    ensures
        before is RollingBack ==> after is Failed && after->Failed_error
            == before->RollingBack_error,
        before is Committing ==> after is Failed && after->Failed_error == event->Failed_0,
        !(before is RollingBack) && !(before is Committing) ==> after is RollingBack
            && after->RollingBack_error == event->Failed_0,
{
}

/// A staged table without columns is missing, by its name; with columns it is
/// read as it was, then put together again, and both have to be the same in
/// number and digest.
pub proof fn law_staged_table_is_compared(
    table: V9Table,
    columns: Vec<String>,
    old: (u64, String),
    rows: Vec<Vec<SqlValue>>,
    after: Initialization,
)
    ensures
        (Initialization::ReadingColumns { table }).goes(
            InitializationEvent::Columns(columns),
            after,
        ) ==> {
            &&& columns@.len() == 0 ==> (after matches Initialization::RollingBack { error }
                && error@ == StateErrorView::Conflict(
                "V9 staging table "@ + ("stage_"@ + table.text()) + " is missing"@,
            ))
            &&& columns@.len() > 0 ==> after == (Initialization::ReadingOld { table, columns })
        },
        (Initialization::ReadingOld { table, columns }).goes(
            InitializationEvent::Rows(rows),
            after,
        ) ==> (after matches Initialization::ReadingNew {
            table: same,
            columns: kept,
            old: seen,
        } && same == table && kept == columns && seen.0 == rows@.len() as u64 && seen.1@
            == digest_text(rows_bytes(rows_data(rows@)))),
        (Initialization::ReadingNew { table, columns, old }).goes(
            InitializationEvent::Rows(rows),
            after,
        ) ==> if old.0 == rows@.len() as u64 && old.1@ == digest_text(
            rows_bytes(rows_data(rows@)),
        ) {
            &&& table == V9Table::DeviceIdentities ==> after == (Initialization::ReadingColumns {
                table: V9Table::ProviderBindings,
            })
            &&& table == V9Table::ProviderBindings ==> after == (Initialization::ReadingColumns {
                table: V9Table::BindingDecisions,
            })
            &&& table == V9Table::BindingDecisions ==> after == (Initialization::ReadingColumns {
                table: V9Table::BindingRecords,
            })
            &&& table == V9Table::BindingRecords ==> after == (Initialization::ReadingColumns {
                table: V9Table::BindingChallenges,
            })
            &&& table == V9Table::BindingChallenges ==> after == (Initialization::ReadingColumns {
                table: V9Table::BindingAuthorizations,
            })
            &&& table == V9Table::BindingAuthorizations ==> after
                == (Initialization::ReadingColumns { table: V9Table::ChallengeReservations })
            &&& table == V9Table::ChallengeReservations ==> after
                == Initialization::DroppingStaging
        } else {
            after matches Initialization::RollingBack { error } && error@
                == StateErrorView::Conflict("V9 semantic parity failed for "@ + table.text())
        },
{
}

/// After the migrations no foreign key may be violated, the database has to be
/// intact, and no staged table may be left; what is found instead is the error.
/// Then the version is written and all is committed.
pub proof fn law_checks_come_in_order(count: u64, text: String, after: Initialization)
    ensures
        Initialization::DroppingStaging.goes(InitializationEvent::Done, after) ==> after
            == Initialization::CheckingForeignKeys,
        Initialization::CheckingForeignKeys.goes(InitializationEvent::Count(count), after) ==> {
            &&& count == 0 ==> after == Initialization::CheckingIntegrity
            &&& count != 0 ==> (after matches Initialization::RollingBack { error } && error@
                == StateErrorView::Conflict(
                "migration left "@ + decimal_text(count as nat) + " foreign-key violation(s)"@,
            ))
        },
        Initialization::CheckingIntegrity.goes(InitializationEvent::Text(text), after) ==> {
            &&& text@ == "ok"@ ==> after == Initialization::CheckingResidue
            &&& text@ != "ok"@ ==> (after matches Initialization::RollingBack { error } && error@
                == StateErrorView::Conflict("migration integrity check failed: "@ + text@))
        },
        Initialization::CheckingResidue.goes(InitializationEvent::Count(count), after) ==> {
            &&& count == 0 ==> after == Initialization::SettingVersion
            &&& count != 0 ==> (after matches Initialization::RollingBack { error } && error@
                == StateErrorView::Conflict(
                "migration left "@ + decimal_text(count as nat) + " temporary staging object(s)"@,
            ))
        },
        Initialization::SettingVersion.goes(InitializationEvent::Done, after) ==> after
            == Initialization::Committing,
        Initialization::Committing.goes(InitializationEvent::Done, after) ==> after
            == Initialization::Ready,
{
}

/// Each state asks for the one thing that it waits for: the migration of its
/// number, the rows of its table as they were or as they are, and the supported
/// version to be written.
pub proof fn law_each_state_asks_for_one_thing(
    state: Initialization,
    action: InitializationAction,
)
    requires
        state.asks(action),
    ensures
        state is ReadingVersion <==> action is ReadVersion,
        state is Migrating <==> action is RunMigration,
        state is ReadingColumns <==> action is ReadColumns,
        state is ReadingOld || state is ReadingNew <==> action is ReadRows,
        state is DroppingStaging <==> action is DropStaging,
        state is CheckingForeignKeys <==> action is CountForeignKeyFailures,
        state is CheckingIntegrity <==> action is CheckIntegrity,
        state is CheckingResidue <==> action is CountResidue,
        state is SettingVersion <==> action == InitializationAction::SetVersion(11),
        state is Committing <==> action is Commit,
        state is RollingBack <==> action is Rollback,
        state is Ready || state is Failed <==> action is Finish,
        state matches Initialization::Migrating { next, .. } ==> action
            == InitializationAction::RunMigration(next),
        (state matches Initialization::ReadingColumns { table } && action
            is ReadColumns) ==> action->ReadColumns_0@ == "PRAGMA temp.table_info(\""@ + ("stage_"@
            + state->ReadingColumns_table.text()) + "\")"@,
        (state is ReadingOld && action is ReadRows) ==> action->ReadRows_0@ == old_query_text(
            state->ReadingOld_table,
            state->ReadingOld_columns@,
        ),
        (state is ReadingNew && action is ReadRows) ==> action->ReadRows_0@ == new_query_text(
            state->ReadingNew_table,
            state->ReadingNew_columns@,
        ),
{
}

/// A state that waits for something takes it, and goes to one state only.
pub proof fn law_each_answer_has_one_outcome(
    before: Initialization,
    event: InitializationEvent,
    left: Initialization,
    right: Initialization,
)
    requires
        before.is_valid(),
        before.awaits(event),
        before.goes(event, left),
        before.goes(event, right),
    ensures
        left is Ready <==> right is Ready,
        left is Failed <==> right is Failed,
        left is RollingBack <==> right is RollingBack,
        left is Migrating ==> right == left,
        left is ReadingColumns ==> right == left,
        left is ReadingOld ==> right == left,
        left is Committing <==> right is Committing,
        left is SettingVersion <==> right is SettingVersion,
{
}

/// Both queries of a table give the same columns in the same order, and the
/// second takes a column from the provenance exactly where it moved to it.
pub proof fn law_rewritten_columns_come_from_the_provenance(table: V9Table, column: Seq<char>)
    ensures
        table == V9Table::DeviceIdentities && column == "origin_join_session_id"@
            ==> table.column_text(column) == "p.join_session_id AS origin_join_session_id"@,
        table != V9Table::DeviceIdentities && column == "join_session_id"@ ==> table.column_text(
            column,
        ) == "p.join_session_id AS join_session_id"@,
        table == V9Table::ProviderBindings && column == "credential_id"@ ==> table.column_text(
            column,
        ) == "p.credential_id AS credential_id"@,
        table == V9Table::ProviderBindings && column == "provider_credential_reference"@
            ==> table.column_text(column)
            == "p.provider_credential_reference AS provider_credential_reference"@,
        column != "origin_join_session_id"@ && column != "join_session_id"@ && column
            != "credential_id"@ && column != "provider_credential_reference"@ ==> table.column_text(
            column,
        ) == "n"@ + ".\""@ + column + "\""@,
        table == V9Table::DeviceIdentities && column != "origin_join_session_id"@
            ==> table.column_text(column) == "n"@ + ".\""@ + column + "\""@,
        table != V9Table::ProviderBindings && table != V9Table::DeviceIdentities && column
            != "join_session_id"@ ==> table.column_text(column) == "n"@ + ".\""@ + column + "\""@,
{
    reveal_strlit("credential_id");
    reveal_strlit("join_session_id");
    reveal_strlit("provider_credential_reference");
    assert("credential_id"@.len() == 13);
    assert("join_session_id"@.len() == 15);
    assert("provider_credential_reference"@.len() == 29);
}

/// The names of the staged tables.
pub proof fn law_staged_table_names(table: V9Table)
    ensures
        table.stage_text() == "stage_"@ + table.text(),
        table == V9Table::DeviceIdentities ==> table.text() == "n5_device_identities"@,
        table == V9Table::ProviderBindings ==> table.text() == "n5_provider_bindings"@,
        table == V9Table::BindingDecisions ==> table.text() == "n6_binding_decisions"@,
        table == V9Table::BindingRecords ==> table.text() == "n6_binding_records"@,
        table == V9Table::BindingChallenges ==> table.text() == "n6_binding_challenges"@,
        table == V9Table::BindingAuthorizations ==> table.text() == "n6_binding_authorizations"@,
        table == V9Table::ChallengeReservations ==> table.text() == "n6_challenge_reservations"@,
{
}

/// Parts are put one behind the other with a comma between them, and rows are
/// ordered by all of their columns, counted from one.
pub proof fn law_parts_are_separated_by_commas(
    parts: Seq<Seq<char>>,
    last: Seq<char>,
    count: nat,
    i: int,
)
    ensures
        comma_separated(Seq::<Seq<char>>::empty()) == Seq::<char>::empty(),
        comma_separated(seq![last]) == last,
        parts.len() > 0 ==> comma_separated(parts.push(last)) == comma_separated(parts) + ","@
            + last,
        order_numbers(count).len() == count,
        0 <= i < count ==> order_numbers(count)[i] == decimal_text((i + 1) as nat),
{
    assert(parts.push(last).drop_last() =~= parts);
}

/// The rows of a table are what they were exactly if they are as many and have
/// the same digest.
pub proof fn law_parity_is_of_number_and_digest(
    table: V9Table,
    old: (u64, Seq<char>),
    new: (u64, Seq<char>),
    columns: Seq<String>,
)
    ensures
        parity_problem(table, old, new) is None <==> old.0 == new.0 && old.1 == new.1,
        parity_problem(table, old, new) is Some ==> parity_problem(table, old, new) == Some(
            StateErrorView::Conflict("V9 semantic parity failed for "@ + table.text()),
        ),
        staging_problem(table, columns) is None <==> columns.len() > 0,
{
}

/// A value enters the digest behind a tag of its own type, a text or a blob
/// behind its length too.
pub proof fn law_values_are_tagged(number: i64, bits: u64, bytes: Seq<u8>)
    ensures
        value_bytes(SqlData::Null) == seq![0u8],
        value_bytes(SqlData::Integer(number))[0] == 1,
        number >= 0 ==> value_bytes(SqlData::Integer(number)).skip(1) =~= big_endian(number as nat),
        number < 0 ==> value_bytes(SqlData::Integer(number)).skip(1) =~= big_endian(
            (number + 0x1_0000_0000_0000_0000) as nat,
        ),
        value_bytes(SqlData::Real(bits))[0] == 2,
        value_bytes(SqlData::Real(bits)).skip(1) =~= big_endian(bits as nat),
        value_bytes(SqlData::Text(bytes)) == seq![3u8] + big_endian(bytes.len()) + bytes,
        value_bytes(SqlData::Blob(bytes)) == seq![4u8] + big_endian(bytes.len()) + bytes,
{
}

/// Both queries of a table name every staged column once, in the same order, and
/// order the rows by all of them; the rewritten table is joined with the
/// provenance of its rows.
pub proof fn law_queries_give_the_same_columns(table: V9Table, columns: Seq<String>, i: int)
    ensures
        old_projection(columns).len() == columns.len(),
        new_projection(table, columns).len() == columns.len(),
        0 <= i < columns.len() ==> old_projection(columns)[i] == "s"@ + ".\""@ + columns[i]@
            + "\""@,
        0 <= i < columns.len() ==> new_projection(table, columns)[i] == table.column_text(
            columns[i]@,
        ),
        old_query_text(table, columns) == "SELECT "@ + comma_separated(old_projection(columns))
            + " FROM temp.\""@ + ("stage_"@ + table.text()) + "\" s ORDER BY "@ + comma_separated(
            order_numbers(columns.len()),
        ),
        new_query_text(table, columns) == "SELECT "@ + comma_separated(
            new_projection(table, columns),
        ) + " FROM \""@ + table.text() + "\" n"@ + table.joins_text() + " ORDER BY "@
            + comma_separated(order_numbers(columns.len())),
        table == V9Table::DeviceIdentities ==> table.joins_text()
            == " JOIN n5_n4_identity_origins p ON p.origin_id=n.n4_origin_id AND p.device_id=n.device_id AND p.network_id=n.network_id"@,
        table == V9Table::ProviderBindings ==> table.joins_text()
            == " JOIN n5_n4_provider_binding_provenance p ON p.binding_id=n.n4_provenance_binding_id AND p.device_id=n.device_id AND p.network_id=n.network_id"@,
        table == V9Table::BindingRecords ==> table.joins_text()
            == " JOIN n5_n4_provider_binding_provenance p ON p.binding_id=n.n5_provider_binding_id AND p.device_id=n.device_id AND p.network_id=n.network_id"@,
        table != V9Table::DeviceIdentities && table != V9Table::ProviderBindings && table
            != V9Table::BindingRecords ==> table.joins_text()
            == " JOIN n6_binding_records r ON r.binding_id=n.binding_id AND r.network_id=n.network_id AND r.device_id=n.device_id AND r.generation=n.generation JOIN n5_n4_provider_binding_provenance p ON p.binding_id=r.n5_provider_binding_id AND p.device_id=r.device_id AND p.network_id=r.network_id"@,
{
}

} // verus!
