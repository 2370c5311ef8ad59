//! What changing tables, expiring items, batches of writes and jobs come to.
use crate::batch_write::{
    applied_count, applied_size, batch_write_item, batch_write_response, failed_writes, has_group,
    BatchWriteOutcome, PreparedBatchOperation, UnprocessedWrites,
};
use crate::error::{tells_internal, tells_validation, StorageError};
use crate::jobs::{
    change_marker_cutoff, job_next, BackgroundJobName, JobAction, JobEvent, JobFailure, JobStep,
};
use crate::machine::Step;
use crate::provider::SQLiteStorageProvider;
use crate::sql::{statements, Script, SqlArg, Statement};
use crate::sql_statements::{
    UPDATE_ATTRIBUTE_DEFINITIONS, UPDATE_DELETION_PROTECTION, UPDATE_STREAM_DURATIONS,
    UPDATE_STREAM_SPECIFICATION, UPDATE_TABLE_STATUS,
};
use crate::stream_duration::{PreparedStateWrite, StreamTrimStateWrite};
use crate::table_update::{
    action_views, update_table, update_table_response, write_stream_durations, BillingMode,
    TableDescription, TableUpdateAction, UpdateTableRequest,
};
use crate::time_to_live::{
    backfill_page, backfill_ttl_index, describe_time_to_live, ensure_attribute_definition, is_defined,
    persist_attribute_definitions, ttl_entry_ok, ttl_index_views, ttl_views, update_time_to_live,
    BackfillAction, BackfillEvent, BackfillState, BackfillStep, TimeToLiveDescription,
    TimeToLiveSpecification, TimeToLiveStatus, TtlAction, TtlConfigRecord, TtlEntry, TtlPlan,
};
use crate::trim_laws::{can_store, hours_of, stores_state};
use crate::types::{
    AttributeDefinition, KeyAttributeType, StreamRetentionDuration, TableInfo, TableStatus,
};
use vstd::prelude::*;

verus! {

/// One where something is so, and none otherwise.
pub open spec fn one_if(b: bool) -> int {
    if b {
        1
    } else {
        0
    }
}

/// Whether an action runs a statement.
pub open spec fn runs(action: TableUpdateAction, sql: Seq<char>, args: Seq<SqlArg>) -> bool {
    action matches TableUpdateAction::Run(s) && s@.sql == sql && s@.args == args
}

/// The change of a table does each thing that was asked for once, and nothing else: the
/// table is updating first and active last, and what was not asked for stays.
pub proof fn law_tables_change_as_asked(
    request: UpdateTableRequest,
    table: TableInfo,
    json: Option<&str>,
    r: (TableInfo, Vec<TableUpdateAction>),
)
    requires
        call_ensures(update_table, (&request, table, json), r),
    ensures
        ({
            let list = r.1@;
            let name = SqlArg::Text(table.table_name@);
            let spec = one_if(request.stream_specification is Some);
            let protection = one_if(request.deletion_protection_enabled is Some);
            let durations = one_if(
                request.stream_duration is Some || request.default_item_stream_duration is Some,
            );
            let indexes = one_if(request.has_index_updates);
            &&& list.len() == 2 + spec + protection + durations + indexes
            &&& runs(list[0], UPDATE_TABLE_STATUS@, seq![SqlArg::Text("UPDATING"@), name])
            &&& runs(list.last(), UPDATE_TABLE_STATUS@, seq![SqlArg::Text("ACTIVE"@), name])
            &&& request.stream_specification is Some ==> runs(
                list[1],
                UPDATE_STREAM_SPECIFICATION@,
                seq![
                    match json {
                        Some(json) => SqlArg::Text(json@),
                        None => SqlArg::Null,
                    },
                    name,
                ],
            )
            &&& request.deletion_protection_enabled matches Some(enabled) ==> runs(
                list[1 + spec],
                UPDATE_DELETION_PROTECTION@,
                seq![SqlArg::Integer(one_if(enabled)), name],
            )
            &&& durations == 1 ==> list[1 + spec + protection] == (
            TableUpdateAction::WriteDurations {
                table_stream_duration: match request.stream_duration {
                    Some(duration) => duration,
                    None => table.table_stream_duration,
                },
                default_item_stream_duration: match request.default_item_stream_duration {
                    Some(duration) => duration,
                    None => table.default_item_stream_duration,
                },
            })
            &&& request.has_index_updates ==> list[1 + spec + protection + durations]
                == TableUpdateAction::UpdateIndexes
        }),
        r.0.stream_specification == (if request.stream_specification is Some {
            request.stream_specification
        } else {
            table.stream_specification
        }),
        r.0.deletion_protection_enabled == (match request.deletion_protection_enabled {
            Some(enabled) => enabled,
            None => table.deletion_protection_enabled,
        }),
        r.0.table_stream_duration == (match request.stream_duration {
            Some(duration) => duration,
            None => table.table_stream_duration,
        }),
        r.0.default_item_stream_duration == (match request.default_item_stream_duration {
            Some(duration) => duration,
            None => table.default_item_stream_duration,
        }),
        r.0.table_name == table.table_name && r.0.created_at == table.created_at,
        r.0.attribute_definitions == table.attribute_definitions && r.0.key_schema
            == table.key_schema,
        r.0.global_secondary_indexes == table.global_secondary_indexes,
        r.0.table_size_bytes == table.table_size_bytes && r.0.item_count == table.item_count,
{
    let list = r.1@;
    let views = action_views(list);
    assert(views.len() == list.len());
    assert forall|i: int| 0 <= i < list.len() implies (#[trigger] list[i])@ == views[i] by {
    }
    let spec = one_if(request.stream_specification is Some);
    let protection = one_if(request.deletion_protection_enabled is Some);
    let durations = one_if(
        request.stream_duration is Some || request.default_item_stream_duration is Some,
    );
    let indexes = one_if(request.has_index_updates);
    let name = table.table_name@;
    let first = seq![crate::table_update::status_view(name, TableStatus::Updating)];
    let b = crate::table_update::stream_specification_views(
        request,
        name,
        crate::sql::optional_str(json),
    );
    let c = crate::table_update::deletion_protection_views(request, name);
    let d = crate::table_update::duration_views(request, r.0);
    let e = crate::table_update::index_views(request);
    let end = seq![crate::table_update::status_view(name, TableStatus::Active)];
    assert(views == first + b + c + d + e + end);
    assert(b.len() == spec && c.len() == protection && d.len() == durations && e.len() == indexes);
    assert(list[0]@ == first[0]);
    assert(list[list.len() - 1]@ == end[0]);
    assert(list.last() == list[list.len() - 1]);
    if request.stream_specification is Some {
        assert(list[1]@ == b[0]);
        assert(list[1]->Run_0@.args =~= seq![
            match json {
                Some(json) => SqlArg::Text(json@),
                None => SqlArg::Null,
            },
            SqlArg::Text(name),
        ]);
    }
    if request.deletion_protection_enabled is Some {
        assert(list[1 + spec]@ == c[0]);
    }
    if durations == 1 {
        assert(list[1 + spec + protection]@ == d[0]);
    }
    if request.has_index_updates {
        assert(list[1 + spec + protection + durations]@ == e[0]);
    }
}

/// The hours of a duration, as they are stored.
pub open spec fn stored_hours(duration: StreamRetentionDuration) -> SqlArg {
    match hours_of(duration) {
        Some(hours) => SqlArg::Integer(hours as int),
        None => SqlArg::Integer(-1),
    }
}

/// How long the streams of a table are kept is stored with the plan of trimming them, or
/// not at all.
pub proof fn law_durations_are_stored_with_their_plan(
    table_name: &str,
    table_stream_duration: StreamRetentionDuration,
    default_item_stream_duration: StreamRetentionDuration,
    plan: StreamTrimStateWrite,
    answer: Result<Vec<Statement>, StorageError>,
)
    requires
        call_ensures(
            write_stream_durations,
            (table_name, table_stream_duration, default_item_stream_duration, plan),
            answer,
        ),
    ensures
        answer is Ok <==> can_store(plan),
        plan.encoded matches Err(e) ==> answer == Err::<Vec<Statement>, StorageError>(e),
        answer matches Ok(list) ==> {
            &&& stores_state(list@, 1, plan)
            &&& list@[0]@.sql == UPDATE_STREAM_DURATIONS@
            &&& list@[0]@.args == seq![
                stored_hours(table_stream_duration),
                stored_hours(default_item_stream_duration),
                SqlArg::Text(table_name@),
            ]
        },
{
    if answer is Ok {
        let list = answer->Ok_0@;
        assert(statements(list).len() == list.len());
        let update = seq![
            crate::table_update::stream_durations_view(
                table_name@,
                table_stream_duration,
                default_item_stream_duration,
            ),
        ];
        let prepared = choose|prepared: PreparedStateWrite|
            crate::stream_duration::prepares_state(plan, Ok(prepared)) && statements(list) == update
                + #[trigger] prepared.statement_views();
        let rest = prepared.statement_views();
        assert((update + rest)[1] == rest[0]);
        assert(statements(list)[0] == list[0]@);
        assert(statements(list)[1] == list[1]@);
        if plan.next_marker is Some {
            assert((update + rest)[2] == rest[1]);
            assert(statements(list)[2] == list[2]@);
        }
        assert(stores_state(list, 1, plan));
    }
}

/// What is told of a table once it was changed is what is known of it, and that it is
/// active.
pub proof fn law_changed_tables_are_told_as_they_are(table: TableInfo, told: TableDescription)
    requires
        call_ensures(update_table_response, (table,), told),
    ensures
        told.table_name == table.table_name,
        told.table_status == TableStatus::Active,
        told.created_at == table.created_at,
        told.attribute_definitions == table.attribute_definitions,
        told.key_schema == table.key_schema,
        told.table_size_bytes == table.table_size_bytes,
        told.item_count == table.item_count,
        told.table_arn@ == "arn:aws:dynamodb:us-east-1:123456789012:table/"@ + table.table_name@,
        told.billing_mode == BillingMode::PayPerRequest,
        told.global_secondary_indexes == table.global_secondary_indexes,
        told.stream_specification == table.stream_specification,
        told.deletion_protection_enabled == table.deletion_protection_enabled,
{
}

/// Items can be made to expire by an attribute exactly where it has a name, and none of
/// these is so: another change goes on, or they expire by another attribute.
pub proof fn law_time_to_live_is_enabled_by_one_attribute(
    specification: TimeToLiveSpecification,
    existing: Option<TtlConfigRecord>,
    plan: Result<TtlPlan, StorageError>,
)
    requires
        specification.enabled,
        call_ensures(update_time_to_live, (specification, existing), plan),
    ensures
        (forall|i: int|
            0 <= i < specification.attribute_name@.len() ==> #[trigger]
                specification.attribute_name@[i] == ' ') ==> (plan matches Err(e)
            && tells_validation(e, "Time to live attribute name must not be empty"@)),
        (exists|i: int|
            0 <= i < specification.attribute_name@.len() && '!'
                <= #[trigger] specification.attribute_name@[i]
                && specification.attribute_name@[i] <= '~') ==> match existing {
            Some(config) => match config.status {
                TimeToLiveStatus::Enabling | TimeToLiveStatus::Disabling => plan matches Err(e)
                    && tells_validation(
                    e,
                    "Time to live configuration update in progress; retry later"@,
                ),
                TimeToLiveStatus::Enabled => if config.attribute_name@
                    == specification.attribute_name@ {
                    plan matches Ok(made) && made.actions@.len() == 0 && made.response
                        == specification
                } else {
                    plan matches Err(e) && tells_validation(
                        e,
                        "Disable time to live before changing attribute name"@,
                    )
                },
                TimeToLiveStatus::Disabled => enables(specification, plan),
            },
            None => enables(specification, plan),
        },
{
    let name = specification.attribute_name@;
    if plan is Ok {
        let list = plan->Ok_0.actions@;
        assert(ttl_views(list).len() == list.len());
        assert forall|i: int| 0 <= i < list.len() implies (#[trigger] list[i])@ == ttl_views(
            list,
        )[i] by {
        }
        if list.len() == 6 {
            assert(list[0]@ == ttl_views(list)[0]);
            assert(list[1]@ == ttl_views(list)[1]);
            assert(list[2]@ == ttl_views(list)[2]);
            assert(list[3]@ == ttl_views(list)[3]);
            assert(list[4]@ == ttl_views(list)[4]);
            assert(list[5]@ == ttl_views(list)[5]);
        }
    }
    if exists|i: int| 0 <= i < name.len() && '!' <= #[trigger] name[i] && name[i] <= '~' {
        let i = choose|i: int| 0 <= i < name.len() && '!' <= #[trigger] name[i] && name[i] <= '~';
        assert(!crate::time_to_live::is_white_space(name[i]));
        assert(!crate::time_to_live::is_blank(name));
    }
}

/// Whether a plan makes items expire by an attribute: its definition is stored as a number,
/// the table that finds expired items is created, and is filled while the configuration is
/// enabling, which is enabled last.
pub open spec fn enables(
    specification: TimeToLiveSpecification,
    plan: Result<TtlPlan, StorageError>,
) -> bool {
    let name = specification.attribute_name@;
    &&& plan matches Ok(made)
    &&& made.response == specification
    &&& made.actions@.len() == 6
    &&& made.actions@[0] matches TtlAction::PersistAttributeDefinitions {
        attribute_name,
        attribute_type,
    }
    &&& attribute_name@ == name && attribute_type == KeyAttributeType::N
    &&& made.actions@[1] is InvalidateTableInfo
    &&& made.actions@[2] is CreateIndexTable
    &&& made.actions@[3] matches TtlAction::SaveConfig { attribute_name: enabling, status }
    &&& enabling@ == name && status == TimeToLiveStatus::Enabling
    &&& made.actions@[4] matches TtlAction::BackfillIndex { attribute_name: filled }
    &&& filled@ == name
    &&& made.actions@[5] matches TtlAction::SaveConfig { attribute_name: enabled, status: done }
    &&& enabled@ == name && done == TimeToLiveStatus::Enabled
}

/// Items stop expiring whatever the state: the index of the configuration, the table and
/// the configuration go, and the answer names the attribute by which they expired.
pub proof fn law_time_to_live_can_always_be_disabled(
    specification: TimeToLiveSpecification,
    existing: Option<TtlConfigRecord>,
    plan: Result<TtlPlan, StorageError>,
)
    requires
        !specification.enabled,
        call_ensures(update_time_to_live, (specification, existing), plan),
    ensures
        plan is Ok && !plan->Ok_0.response.enabled,
        existing is None ==> plan->Ok_0.actions@.len() == 0
            && plan->Ok_0.response.attribute_name@ == specification.attribute_name@,
        existing matches Some(config) ==> {
            let list = plan->Ok_0.actions@;
            &&& plan->Ok_0.response.attribute_name@ == config.attribute_name@
            &&& list.len() == 4
            &&& list[0] matches TtlAction::DeleteIndex { index_name }
            &&& index_name@ == config.index_name@
            &&& list[1] is InvalidateTableInfo
            &&& list[2] is DropIndexTable
            &&& list[3] is DeleteConfig
        },
{
    let list = plan->Ok_0.actions@;
    assert(ttl_views(list).len() == list.len());
    if existing is Some {
        assert(list[0]@ == ttl_views(list)[0]);
        assert(list[1]@ == ttl_views(list)[1]);
        assert(list[2]@ == ttl_views(list)[2]);
        assert(list[3]@ == ttl_views(list)[3]);
    }
}

/// What is told of a table's time to live is what is stored of it.
pub proof fn law_time_to_live_is_told_as_stored(
    config: Option<TtlConfigRecord>,
    told: TimeToLiveDescription,
    table_name: &str,
    words: &str,
    stored: Result<Statement, StorageError>,
    failed: Result<Statement, StorageError>,
)
    requires
        call_ensures(describe_time_to_live, (config,), told),
        call_ensures(
            persist_attribute_definitions,
            (table_name, Ok::<&str, &str>(words)),
            stored,
        ),
        call_ensures(
            persist_attribute_definitions,
            (table_name, Err::<&str, &str>(words)),
            failed,
        ),
    ensures
        config matches Some(config) ==> told.attribute_name == Some(config.attribute_name)
            && told.time_to_live_status == config.status,
        config is None ==> told.attribute_name is None && told.time_to_live_status
            == TimeToLiveStatus::Disabled,
        stored matches Ok(s) && s@.sql == UPDATE_ATTRIBUTE_DEFINITIONS@ && s@.args == seq![
            SqlArg::Text(words@),
            SqlArg::Text(table_name@),
        ],
        failed matches Err(e) && tells_internal(e, "serialize defs: "@ + words@),
{
}

/// An attribute is defined exactly where its name is among those of the definitions.
pub proof fn law_attributes_are_defined_by_name(
    definitions: Seq<AttributeDefinition>,
    name: Seq<char>,
)
    ensures
        is_defined(definitions, name) <==> definitions.map_values(
            |d: AttributeDefinition| d.attribute_name@,
        ).contains(name),
{
    let names = definitions.map_values(|d: AttributeDefinition| d.attribute_name@);
    if is_defined(definitions, name) {
        let i = choose|i: int|
            0 <= i < definitions.len() && (#[trigger] definitions[i]).attribute_name@ == name;
        assert(names[i] == name);
    }
    if names.contains(name) {
        let i = choose|i: int| 0 <= i < names.len() && names[i] == name;
        assert(definitions[i].attribute_name@ == name);
    }
}

/// The number of items that expire among the first of a page.
pub open spec fn expiring(entries: Seq<TtlEntry>, n: int) -> int
    decreases n,
{
    if n <= 0 {
        0
    } else {
        expiring(entries, n - 1) + one_if(entries[n - 1] is Expires)
    }
}

/// Whether statements note when the first items of a page expire: one for each that does,
/// in their order, with its time and its token.
pub open spec fn notes_first(
    ttl_table: Seq<char>,
    entries: Seq<TtlEntry>,
    n: int,
    list: Seq<Statement>,
) -> bool {
    &&& list.len() == expiring(entries, n)
    &&& forall|i: int|
        0 <= i < n && (#[trigger] entries[i]) is Expires ==> {
            &&& 0 <= expiring(entries, i) < list.len()
            &&& list[expiring(entries, i)]@.sql == "INSERT OR REPLACE INTO \""@ + ttl_table
                + "\" (ttl_value, key_token) VALUES (?1, ?2)"@
            &&& list[expiring(entries, i)]@.args == seq![
                SqlArg::Integer(entries[i]->seconds as int),
                SqlArg::Text(entries[i]->token->Ok_0@),
            ]
        }
}

proof fn lemma_expiring(entries: Seq<TtlEntry>, i: int, n: int)
    requires
        0 <= i < n <= entries.len(),
    ensures
        0 <= expiring(entries, i),
        expiring(entries, i) + one_if(entries[i] is Expires) <= expiring(entries, n),
    decreases n,
{
    if i < n - 1 {
        lemma_expiring(entries, i, n - 1);
    } else if i > 0 {
        lemma_expiring(entries, i - 1, i);
    }
}

proof fn lemma_notes(ttl_table: Seq<char>, entries: Seq<TtlEntry>, n: int)
    requires
        0 <= n <= entries.len(),
    ensures
        ({
            let views = ttl_index_views(ttl_table, entries.take(n));
            &&& views.len() == expiring(entries, n)
            &&& forall|i: int|
                0 <= i < n && (#[trigger] entries[i]) is Expires ==> {
                    &&& 0 <= expiring(entries, i) < views.len()
                    &&& views[expiring(entries, i)].sql == "INSERT OR REPLACE INTO \""@ + ttl_table
                        + "\" (ttl_value, key_token) VALUES (?1, ?2)"@
                    &&& views[expiring(entries, i)].args == seq![
                        SqlArg::Integer(entries[i]->seconds as int),
                        SqlArg::Text(entries[i]->token->Ok_0@),
                    ]
                }
        }),
    decreases n,
{
    if n > 0 {
        lemma_notes(ttl_table, entries, n - 1);
        assert(entries.take(n).drop_last() =~= entries.take(n - 1));
        assert(entries.take(n).last() == entries[n - 1]);
        assert forall|i: int| 0 <= i < n && (#[trigger] entries[i]) is Expires implies 0 <= expiring(
            entries,
            i,
        ) < expiring(entries, n) by {
            lemma_expiring(entries, i, n);
        }
    }
}

/// The items of a page that expire are noted, each with its time and its token, in their
/// order, up to the first that cannot be.
pub proof fn law_expiring_items_are_noted(
    ttl_table: &str,
    entries: Vec<TtlEntry>,
    script: Script,
)
    requires
        call_ensures(backfill_page, (ttl_table, entries), script),
    ensures
        script.failure is None ==> notes_first(
            ttl_table@,
            entries@,
            entries@.len() as int,
            script.statements@,
        ),
        script.failure is None <==> forall|i: int|
            0 <= i < entries@.len() ==> ((#[trigger] entries@[i]) matches TtlEntry::Expires {
                seconds,
                token,
            } ==> seconds <= i64::MAX && token is Ok),
        script.failure matches Some(e) ==> exists|n: int|
            #![trigger entries@[n]]
            0 <= n < entries@.len() && entries@[n] is Expires && (if entries@[n]->seconds
                > i64::MAX {
                tells_internal(e, "sqlite ttl normalize overflow"@)
            } else {
                entries@[n]->token == Err::<String, StorageError>(e)
            }) && notes_first(ttl_table@, entries@, n, script.statements@),
{
    let list = script.statements@;
    assert(statements(list).len() == list.len());
    assert forall|k: int| 0 <= k < list.len() implies (#[trigger] list[k])@ == statements(
        list,
    )[k] by {
    }
    if script.failure is None {
        assert(entries@.take(entries@.len() as int) =~= entries@);
        lemma_notes(ttl_table@, entries@, entries@.len() as int);
        assert forall|i: int| 0 <= i < entries@.len() implies ((
        #[trigger] entries@[i]) matches TtlEntry::Expires { seconds, token } ==> seconds
            <= i64::MAX && token is Ok) by {
            assert(ttl_entry_ok(entries@[i]));
        }
    } else {
        let e = script.failure->Some_0;
        let n = choose|n: int|
            #![trigger entries@[n]]
            0 <= n < entries@.len() && (forall|i: int|
                0 <= i < n ==> ttl_entry_ok(#[trigger] entries@[i]))
                && crate::time_to_live::ttl_entry_fails(entries@[n], e) && statements(list)
                == ttl_index_views(ttl_table@, entries@.take(n));
        lemma_notes(ttl_table@, entries@, n);
        assert(entries@[n] is Expires);
        assert(notes_first(ttl_table@, entries@, n, list));
    }
}

/// Filling the table that finds expired items notes every page that is read, and reads the
/// next from the very key at which a page ended; it ends well where a page is empty or was
/// the last, and otherwise with what storage failed with.
pub proof fn law_backfill_reads_page_after_page(
    ttl_table: &str,
    entries: Vec<TtlEntry>,
    key: Option<String>,
    noting: BackfillStep,
    next: BackfillStep,
    state: BackfillState,
    error: StorageError,
    failed: BackfillStep,
)
    requires
        call_ensures(
            backfill_ttl_index,
            (ttl_table, BackfillState::Scanning, BackfillEvent::Scanned(Ok((entries, key)))),
            noting,
        ),
        entries@.len() > 0 ==> call_ensures(
            backfill_ttl_index,
            (ttl_table, noting->state, BackfillEvent::Noted(Ok(()))),
            next,
        ),
        call_ensures(
            backfill_ttl_index,
            (ttl_table, state, BackfillEvent::Scanned(Err(error))),
            failed,
        )
            || call_ensures(
                backfill_ttl_index,
                (ttl_table, state, BackfillEvent::Noted(Err(error))),
                failed,
            ),
    ensures
        entries@.len() == 0 ==> noting matches Step::Finish(Ok(_)),
        entries@.len() > 0 ==> {
            &&& noting matches Step::Perform {
                state: BackfillState::Noting { .. },
                action: BackfillAction::Note(script),
            }
            &&& script.failure is None ==> notes_first(
                ttl_table@,
                entries@,
                entries@.len() as int,
                script.statements@,
            )
            &&& match key {
                Some(key) => next matches Step::Perform {
                    state: BackfillState::Scanning,
                    action: BackfillAction::Scan { exclusive_start_key },
                } && exclusive_start_key == Some(key),
                None => next matches Step::Finish(Ok(_)),
            }
        },
        failed matches Step::Finish(Err(e)) && e == error,
{
    if entries@.len() > 0 {
        let script = noting->action->Note_0;
        let list = script.statements@;
        assert(statements(list).len() == list.len());
        assert forall|k: int| 0 <= k < list.len() implies (#[trigger] list[k])@ == statements(
            list,
        )[k] by {
        }
        if script.failure is None {
            assert(entries@.take(entries@.len() as int) =~= entries@);
            lemma_notes(ttl_table@, entries@, entries@.len() as int);
        }
    }
}

/// The sum of numbers.
pub open spec fn sum(numbers: Seq<nat>) -> nat
    decreases numbers.len(),
{
    if numbers.len() == 0 {
        0
    } else {
        sum(numbers.drop_last()) + numbers.last()
    }
}

/// Whether places are those of the writes of a table that were not performed, in order.
pub open spec fn are_failed_at(
    operations: Seq<PreparedBatchOperation>,
    performed: Seq<bool>,
    table_name: Seq<char>,
    at: Seq<int>,
) -> bool {
    &&& forall|k: int|
        0 <= k < at.len() ==> 0 <= #[trigger] at[k] < operations.len() && !performed[at[k]]
            && operations[at[k]].table_name@ == table_name
    &&& forall|j: int, k: int| 0 <= j < k < at.len() ==> #[trigger] at[j] < #[trigger] at[k]
    &&& forall|i: int|
        0 <= i < operations.len() && !performed[i] && (#[trigger] operations[i]).table_name@
            == table_name ==> at.contains(i)
}

proof fn lemma_failed_at(
    operations: Seq<PreparedBatchOperation>,
    performed: Seq<bool>,
    table_name: Seq<char>,
) -> (at: Seq<int>)
    requires
        performed.len() == operations.len(),
    ensures
        are_failed_at(operations, performed, table_name, at),
        at.len() == failed_writes(operations, performed, table_name).len(),
        forall|k: int|
            0 <= k < at.len() ==> failed_writes(operations, performed, table_name)[k]
                == operations[#[trigger] at[k]].request,
    decreases operations.len(),
{
    if operations.len() == 0 {
        Seq::empty()
    } else {
        let n = operations.len() - 1;
        let shorter = operations.drop_last();
        let before = lemma_failed_at(shorter, performed.drop_last(), table_name);
        let now = if !performed.last() && operations.last().table_name@ == table_name {
            before.push(n)
        } else {
            before
        };
        assert forall|i: int|
            0 <= i < operations.len() && !performed[i] && (
            #[trigger] operations[i]).table_name@ == table_name implies now.contains(i) by {
            if i < n {
                assert(shorter[i] == operations[i]);
                assert(before.contains(i));
                let k = choose|k: int| 0 <= k < before.len() && before[k] == i;
                assert(now[k] == i);
            } else {
                assert(now[now.len() - 1] == n);
            }
        }
        assert forall|k: int| 0 <= k < now.len() implies failed_writes(
            operations,
            performed,
            table_name,
        )[k] == operations[#[trigger] now[k]].request && 0 <= now[k] < operations.len()
            && !performed[now[k]] && operations[now[k]].table_name@ == table_name by {
            if k < before.len() {
                assert(now[k] == before[k]);
                assert(shorter[before[k]] == operations[before[k]]);
                assert(performed.drop_last()[before[k]] == performed[before[k]]);
            }
        }
        assert forall|j: int, k: int| 0 <= j < k < now.len() implies #[trigger] now[j]
            < #[trigger] now[k] by {
            if k < before.len() {
                assert(before[j] < before[k]);
            } else {
                assert(before[j] < shorter.len());
            }
        }
        now
    }
}

/// What each write of a batch stores where it was performed.
pub open spec fn stored_sizes(
    operations: Seq<PreparedBatchOperation>,
    performed: Seq<bool>,
) -> Seq<nat> {
    Seq::new(
        operations.len(),
        |i: int|
            if performed[i] && operations[i].request is Put {
                operations[i].put_bytes->Ok_0 as nat
            } else {
                0
            },
    )
}

/// One for each write of a batch that was performed.
pub open spec fn performed_ones(performed: Seq<bool>) -> Seq<nat> {
    Seq::new(
        performed.len(),
        |i: int|
            if performed[i] {
                1
            } else {
                0
            },
    )
}

proof fn lemma_batch_sums(operations: Seq<PreparedBatchOperation>, performed: Seq<bool>)
    requires
        performed.len() == operations.len(),
        forall|i: int|
            0 <= i < operations.len() && performed[i] && (#[trigger] operations[i]).request is Put
                ==> operations[i].put_bytes is Ok,
    ensures
        applied_count(performed) == sum(performed_ones(performed)),
        applied_size(operations, performed) == sum(stored_sizes(operations, performed)),
    decreases operations.len(),
{
    if operations.len() > 0 {
        let shorter = operations.drop_last();
        let done = performed.drop_last();
        assert forall|i: int|
            0 <= i < shorter.len() && done[i] && (#[trigger] shorter[i]).request is Put implies shorter[i].put_bytes is Ok by {
            assert(shorter[i] == operations[i]);
        }
        lemma_batch_sums(shorter, done);
        assert(performed_ones(performed).drop_last() =~= performed_ones(done));
        assert(stored_sizes(operations, performed).drop_last() =~= stored_sizes(shorter, done));
        assert(operations[operations.len() - 1] == operations.last());
    }
}

/// A batch tells of every table exactly the writes that were not performed, in their
/// order, and how many writes were performed and how many bytes they stored.
pub proof fn law_batches_tell_what_was_not_performed(
    operations: Vec<PreparedBatchOperation>,
    performed: Vec<bool>,
    answer: Result<BatchWriteOutcome, StorageError>,
    table_name: Seq<char>,
) -> (at: Seq<int>)
    requires
        performed@.len() == operations@.len(),
        call_ensures(batch_write_item, (operations, &performed), answer),
    ensures
        answer is Ok <==> forall|i: int|
            0 <= i < operations@.len() && performed@[i] && (
            #[trigger] operations@[i]).request is Put ==> operations@[i].put_bytes is Ok,
        are_failed_at(operations@, performed@, table_name, at),
        answer matches Ok(outcome) ==> {
            &&& outcome.applied_items == sum(performed_ones(performed@))
            &&& outcome.applied_bytes == sum(stored_sizes(operations@, performed@))
            &&& forall|g: int|
                0 <= g < outcome.unprocessed@.len() && (
                #[trigger] outcome.unprocessed@[g]).table_name@ == table_name ==> {
                    &&& outcome.unprocessed@[g].requests@.len() == at.len() > 0
                    &&& forall|k: int|
                        0 <= k < at.len() ==> outcome.unprocessed@[g].requests@[k]
                            == operations@[#[trigger] at[k]].request
                }
            &&& at.len() > 0 ==> exists|g: int|
                0 <= g < outcome.unprocessed@.len() && (
                #[trigger] outcome.unprocessed@[g]).table_name@ == table_name
        },
{
    let at = lemma_failed_at(operations@, performed@, table_name);
    if answer is Ok {
        let outcome = answer->Ok_0;
        assert forall|i: int|
            0 <= i < operations@.len() && performed@[i] && (
            #[trigger] operations@[i]).request is Put implies operations@[i].put_bytes is Ok by {
            assert(operations@[i].is_measured());
        }
        lemma_batch_sums(operations@, performed@);
        if at.len() > 0 {
            let i = at[0];
            assert(has_group(outcome.unprocessed@, operations@[i].table_name@));
        }
    }
    at
}

/// What a batch answers is what it tells to be unprocessed, where there is anything.
pub proof fn law_batches_answer_with_what_is_left(
    outcome: BatchWriteOutcome,
    answer: Option<Vec<UnprocessedWrites>>,
)
    requires
        call_ensures(batch_write_response, (outcome,), answer),
    ensures
        answer is Some <==> outcome.unprocessed@.len() > 0,
        answer matches Some(left) ==> left == outcome.unprocessed,
{
}

/// The action of a job at its `k`th step.
pub open spec fn job_action(name: BackgroundJobName, k: int) -> JobAction {
    match name {
        BackgroundJobName::GsiUpdate => JobAction::ProcessGsiUpdates,
        BackgroundJobName::TtlSweep => if k % 2 == 0 {
            JobAction::TrimChangeMarkers
        } else {
            JobAction::RunTtlSweep
        },
        BackgroundJobName::StreamTrim => JobAction::RunStreamTrim,
        BackgroundJobName::GsiBackfill => JobAction::ProcessGsiBackfills,
        BackgroundJobName::Other => JobAction::RunTtlSweep,
    }
}

/// Whether an event is what came of an action of a job.
pub open spec fn comes_of(action: JobAction, event: JobEvent) -> bool {
    event is MarkersTrimmed <==> action == JobAction::TrimChangeMarkers
}

/// Whether steps are those of a job, each from the one before and what came of its action.
pub open spec fn job_run(
    provider: SQLiteStorageProvider,
    name: BackgroundJobName,
    events: Seq<JobEvent>,
    steps: Seq<JobStep>,
) -> bool {
    &&& steps.len() == events.len() + 1
    &&& call_ensures(SQLiteStorageProvider::start_job, (&provider, name), steps[0])
    &&& forall|k: int|
        0 <= k < events.len() ==> {
            &&& steps[k] is Perform
            &&& comes_of(steps[k]->action, #[trigger] events[k])
            &&& call_ensures(
                SQLiteStorageProvider::run_job,
                (&provider, steps[k]->state, events[k]),
                steps[k + 1],
            )
        }
}

proof fn lemma_job_run(
    provider: SQLiteStorageProvider,
    name: BackgroundJobName,
    events: Seq<JobEvent>,
    steps: Seq<JobStep>,
    k: int,
)
    requires
        job_run(provider, name, events, steps),
        0 <= k < steps.len(),
        steps[k] is Perform,
    ensures
        name != BackgroundJobName::Other,
        name == BackgroundJobName::GsiUpdate ==> !provider.immediate_gsi_consistency,
        steps[k]->action == job_action(name, k),
        steps[k]->state == job_action(name, k),
        forall|j: int|
            0 <= j < k ==> ((#[trigger] events[j]) matches JobEvent::Progressed(done) ==> done
                == Ok::<bool, JobFailure>(true)),
    decreases k,
{
    if k > 0 {
        let event = events[k - 1];
        assert(steps[k - 1] is Perform);
        lemma_job_run(provider, name, events, steps, k - 1);
        assert(job_next(steps[k - 1]->state, events[k - 1], steps[k - 1 + 1]));
    }
}

/// A job repeats its work as long as there is something to do, and only its own work. It
/// ends well where it has nothing to do, and otherwise with what its work failed with;
/// for the work on indexes that is told as an internal error.
pub proof fn law_jobs_repeat_their_own_work(
    provider: SQLiteStorageProvider,
    name: BackgroundJobName,
    events: Seq<JobEvent>,
    steps: Seq<JobStep>,
)
    requires
        job_run(provider, name, events, steps),
    ensures
        events.len() == 0 ==> (steps[0] is Finish <==> name == BackgroundJobName::Other || (name
            == BackgroundJobName::GsiUpdate && provider.immediate_gsi_consistency)),
        events.len() == 0 && steps[0] is Finish ==> steps[0]->Finish_0 is Ok,
        forall|k: int|
            0 <= k < steps.len() && (#[trigger] steps[k]) is Perform ==> steps[k]->action
                == job_action(name, k),
        events.len() > 0 ==> match events.last() {
            JobEvent::MarkersTrimmed(Ok(_)) => steps.last() is Perform,
            JobEvent::MarkersTrimmed(Err(e)) => steps.last() == Step::<
                JobAction,
                JobAction,
                Result<(), StorageError>,
            >::Finish(Err(e)),
            JobEvent::Progressed(Ok(more)) => if more {
                steps.last() is Perform
            } else {
                steps.last() matches Step::Finish(Ok(_))
            },
            JobEvent::Progressed(Err(failure)) => steps.last() matches Step::Finish(Err(e)) && (
            if name == BackgroundJobName::GsiUpdate || name == BackgroundJobName::GsiBackfill {
                tells_internal(e, failure.text@)
            } else {
                e == failure.error
            }),
        },
{
    assert forall|k: int|
        0 <= k < steps.len() && (#[trigger] steps[k]) is Perform implies steps[k]->action
        == job_action(name, k) by {
        lemma_job_run(provider, name, events, steps, k);
    }
    if events.len() > 0 {
        let k = events.len() - 1;
        let event = events[k];
        assert(steps[k] is Perform);
        lemma_job_run(provider, name, events, steps, k);
        assert(job_next(steps[k]->state, events[k], steps[k + 1]));
    }
}

/// Changes are forgotten once they are older than they are kept, as far as a time can be
/// told.
pub proof fn law_changes_are_kept_for_their_time(now: i64, retention_ms: i64, cutoff: i64)
    requires
        call_ensures(change_marker_cutoff, (now, retention_ms), cutoff),
    ensures
        i64::MIN <= now - retention_ms <= i64::MAX ==> cutoff + retention_ms == now,
        now - retention_ms < i64::MIN ==> cutoff == i64::MIN,
        now - retention_ms > i64::MAX ==> cutoff == i64::MAX,
{
}


/// Defining an attribute that is not defined yet adds it last, with its type, and changes
/// nothing else; one that is defined keeps its definition.
pub proof fn law_attributes_are_defined_once(
    definitions: &mut Vec<AttributeDefinition>,
    name: &str,
    attribute_type: KeyAttributeType,
)
    requires
        call_ensures(ensure_attribute_definition, (definitions, name, attribute_type), ()),
    ensures
        ({
            let before = old(definitions)@;
            let after = final(definitions)@;
            let names = before.map_values(|d: AttributeDefinition| d.attribute_name@);
            &&& names.contains(name@) ==> after == before
            &&& !names.contains(name@) ==> after.len() == before.len() + 1 && after.drop_last()
                == before && after.last().attribute_name@ == name@ && after.last().attribute_type
                == attribute_type
        }),
{
    law_attributes_are_defined_by_name(old(definitions)@, name@);
}

} // verus!
