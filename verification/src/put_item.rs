//! Storing an item.
use crate::error::{tells_internal, tells_step, tells_validation, Item, StorageError};
use crate::machine::Step;
use crate::provider::SQLiteStorageProvider;
use crate::sql::{args, text, SqlArg, SqlValue, Statement, StatementView};
use crate::stream_duration::prefixed;
use crate::stream_writer::{should_write_stream_entries_for_gsi_mode, writes_stream_entries};
use crate::text::{decimal, decimal_text};
use crate::types::{StreamRetentionDuration, TableInfo};
use vstd::prelude::*;
use vstd::string::*;

verus! {

/// What is asked of a put.
pub struct PutItemInput {
    pub item: Item,
    pub has_condition: bool,
    pub immediate_gsi_consistency: bool,
    pub return_old_on_condition_failure: bool,
    pub item_stream_ttl_hours: Option<StreamRetentionDuration>,
}

/// What a put needs done.
#[derive(Clone, Copy, Debug, PartialEq, Eq, Structural)]
pub enum PutItemAction {
    /// Read what is known of the table.
    LoadTable,
    /// Part the item into its key and its other attributes.
    SplitItem,
    /// Read the stored item.
    LoadOldItem,
    /// Hold the stored item, or an empty one where there is none, against the condition.
    EvaluateCondition,
    /// Take the indexed values out of the item.
    ExtractIndexers,
    /// Store the item.
    Insert,
    /// Give the item its next revision.
    BumpRevision,
    /// Note the write in the streams, under the item's version.
    WriteStreamEntries(u64),
    /// Update the indexes, under the item's version.
    ApplyImmediateGsiUpdates(u64),
    /// Read the time-to-live configuration of the table.
    LoadTtlConfig,
    /// Update the time-to-live index.
    UpdateTtlIndex,
    /// Set how long the item's stream is kept.
    ApplyItemStreamDuration,
}

/// How far a put has come.
pub enum PutItemState {
    LoadingTable,
    Splitting { writes_stream: bool },
    LoadingOldItem { writes_stream: bool },
    Evaluating { writes_stream: bool, old_item: Option<Item> },
    Extracting { writes_stream: bool, old_item: Option<Item> },
    Inserting { writes_stream: bool, old_item: Option<Item> },
    Bumping { writes_stream: bool, old_item: Option<Item> },
    WritingStream { version: u64, old_item: Option<Item> },
    ApplyingGsi { old_item: Option<Item> },
    LoadingTtl { old_item: Option<Item> },
    UpdatingTtl { old_item: Option<Item> },
    ApplyingDuration { old_item: Option<Item> },
}

/// What came of an action.
pub enum PutItemEvent {
    TableLoaded(Result<TableInfo, StorageError>),
    OldItemLoaded(Result<Option<Item>, StorageError>),
    ConditionEvaluated(bool),
    RevisionBumped(Result<i64, StorageError>),
    /// The statement that stores the item could not be made.
    InsertRefused(StorageError),
    /// An action that yields nothing was done.
    Done(Result<(), StorageError>),
}

/// What a put does next.
pub type PutItemStep = Step<PutItemState, PutItemAction, Result<Option<Item>, StorageError>>;

impl PutItemState {
    /// Whether the state waits for an event.
    pub open spec fn awaits(self, event: PutItemEvent) -> bool {
        match self {
            PutItemState::LoadingTable => event is TableLoaded,
            PutItemState::LoadingOldItem { .. } => event is OldItemLoaded,
            PutItemState::Evaluating { .. } => event is ConditionEvaluated,
            PutItemState::Bumping { .. } => event is RevisionBumped,
            PutItemState::Inserting { .. } => event is Done || event is InsertRefused,
            _ => event is Done,
        }
    }

    /// The place in the order of actions of the one that the state waits for.
    pub open spec fn rank(self) -> nat {
        match self {
            PutItemState::LoadingTable => 0,
            PutItemState::Splitting { .. } => 1,
            PutItemState::LoadingOldItem { .. } => 2,
            PutItemState::Evaluating { .. } => 3,
            PutItemState::Extracting { .. } => 4,
            PutItemState::Inserting { .. } => 5,
            PutItemState::Bumping { .. } => 6,
            PutItemState::WritingStream { .. } => 7,
            PutItemState::ApplyingGsi { .. } => 8,
            PutItemState::LoadingTtl { .. } => 9,
            PutItemState::UpdatingTtl { .. } => 10,
            PutItemState::ApplyingDuration { .. } => 11,
        }
    }
}

impl PutItemAction {
    /// The place of an action in the order of actions.
    pub open spec fn rank(self) -> nat {
        match self {
            PutItemAction::LoadTable => 0,
            PutItemAction::SplitItem => 1,
            PutItemAction::LoadOldItem => 2,
            PutItemAction::EvaluateCondition => 3,
            PutItemAction::ExtractIndexers => 4,
            PutItemAction::Insert => 5,
            PutItemAction::BumpRevision => 6,
            PutItemAction::WriteStreamEntries(_) => 7,
            PutItemAction::ApplyImmediateGsiUpdates(_) => 8,
            PutItemAction::LoadTtlConfig => 9,
            PutItemAction::UpdateTtlIndex => 10,
            PutItemAction::ApplyItemStreamDuration => 11,
        }
    }
}

/// What follows the writing of streams: the indexes where they are updated at once,
/// the time to live otherwise.
pub open spec fn after_streams(
    immediate_gsi_consistency: bool,
    version: u64,
    found: Option<Item>,
    step: PutItemStep,
) -> bool {
    if immediate_gsi_consistency {
        step matches Step::Perform {
            state: PutItemState::ApplyingGsi { old_item },
            action: PutItemAction::ApplyImmediateGsiUpdates(v),
        } && v == version && old_item == found
    } else {
        step matches Step::Perform {
            state: PutItemState::LoadingTtl { old_item },
            action: PutItemAction::LoadTtlConfig,
        } && old_item == found
    }
}

/// How a put goes on after an event. The stored item is held against the condition
/// before anything is written, and every failure ends the put at once.
pub open spec fn put_item_next(
    input: PutItemInput,
    state: PutItemState,
    event: PutItemEvent,
    step: PutItemStep,
) -> bool {
    match (state, event) {
        (_, PutItemEvent::TableLoaded(Err(e))) => step matches Step::Finish(Err(out)) && out == e,
        (_, PutItemEvent::TableLoaded(Ok(table))) => if input.item.spec_is_empty() {
            step matches Step::Finish(Err(e)) && e.is_validation("Item is empty"@)
        } else {
            step matches Step::Perform {
                state: PutItemState::Splitting { writes_stream },
                action: PutItemAction::SplitItem,
            } && writes_stream == writes_stream_entries(table, input.immediate_gsi_consistency)
        },
        (_, PutItemEvent::InsertRefused(e)) => step matches Step::Finish(Err(out)) && out == e,
        (PutItemState::Inserting { .. }, PutItemEvent::Done(Err(e))) => step matches Step::Finish(
            Err(out),
        ) && out.is_context("put item transaction insert execute"@, e),
        (PutItemState::WritingStream { .. }, PutItemEvent::Done(Err(e))) => step matches
            Step::Finish(Err(out)) && out.is_context("write stream entries"@, e),
        (_, PutItemEvent::Done(Err(e))) => step matches Step::Finish(Err(out)) && out == e,
        (PutItemState::Splitting { writes_stream: w }, PutItemEvent::Done(Ok(_))) => step matches
            Step::Perform {
            state: PutItemState::LoadingOldItem { writes_stream },
            action: PutItemAction::LoadOldItem,
        } && writes_stream == w,
        (_, PutItemEvent::OldItemLoaded(Err(e))) => step matches Step::Finish(Err(out)) && out == e,
        (
            PutItemState::LoadingOldItem { writes_stream: w },
            PutItemEvent::OldItemLoaded(Ok(found)),
        ) => if input.has_condition {
            step matches Step::Perform {
                state: PutItemState::Evaluating { writes_stream, old_item },
                action: PutItemAction::EvaluateCondition,
            } && writes_stream == w && old_item == found
        } else {
            step matches Step::Perform {
                state: PutItemState::Extracting { writes_stream, old_item },
                action: PutItemAction::ExtractIndexers,
            } && writes_stream == w && old_item == found
        },
        (
            PutItemState::Evaluating { writes_stream: w, old_item: found },
            PutItemEvent::ConditionEvaluated(holds),
        ) => if holds {
            step matches Step::Perform {
                state: PutItemState::Extracting { writes_stream, old_item },
                action: PutItemAction::ExtractIndexers,
            } && writes_stream == w && old_item == found
        } else {
            step matches Step::Finish(Err(StorageError::ConditionalCheckFailed { item })) && item
                == (if input.return_old_on_condition_failure {
                found
            } else {
                None
            })
        },
        (
            PutItemState::Extracting { writes_stream: w, old_item: found },
            PutItemEvent::Done(Ok(_)),
        ) => step matches Step::Perform {
            state: PutItemState::Inserting { writes_stream, old_item },
            action: PutItemAction::Insert,
        } && writes_stream == w && old_item == found,
        (
            PutItemState::Inserting { writes_stream: w, old_item: found },
            PutItemEvent::Done(Ok(_)),
        ) => step matches Step::Perform {
            state: PutItemState::Bumping { writes_stream, old_item },
            action: PutItemAction::BumpRevision,
        } && writes_stream == w && old_item == found,
        (_, PutItemEvent::RevisionBumped(Err(e))) => step matches Step::Finish(Err(out)) && out == e,
        (
            PutItemState::Bumping { writes_stream, old_item: found },
            PutItemEvent::RevisionBumped(Ok(revision)),
        ) => if revision < 0 {
            step matches Step::Finish(Err(e)) && e.is_internal("item revision is negative"@)
        } else if writes_stream {
            step matches Step::Perform {
                state: PutItemState::WritingStream { version, old_item },
                action: PutItemAction::WriteStreamEntries(v),
            } && version == revision && v == revision && old_item == found
        } else {
            after_streams(input.immediate_gsi_consistency, revision as u64, found, step)
        },
        (
            PutItemState::WritingStream { version, old_item: found },
            PutItemEvent::Done(Ok(_)),
        ) => after_streams(input.immediate_gsi_consistency, version, found, step),
        (PutItemState::ApplyingGsi { old_item: found }, PutItemEvent::Done(Ok(_))) => step matches
            Step::Perform {
            state: PutItemState::LoadingTtl { old_item },
            action: PutItemAction::LoadTtlConfig,
        } && old_item == found,
        (PutItemState::LoadingTtl { old_item: found }, PutItemEvent::Done(Ok(_))) => step matches
            Step::Perform {
            state: PutItemState::UpdatingTtl { old_item },
            action: PutItemAction::UpdateTtlIndex,
        } && old_item == found,
        (PutItemState::UpdatingTtl { old_item: found }, PutItemEvent::Done(Ok(_))) => step matches
            Step::Perform {
            state: PutItemState::ApplyingDuration { old_item },
            action: PutItemAction::ApplyItemStreamDuration,
        } && old_item == found,
        (PutItemState::ApplyingDuration { old_item }, PutItemEvent::Done(Ok(_))) => step matches
            Step::Finish(Ok(out)) && out == old_item,
        _ => false,
    }
}

/// The error of a write whose condition did not hold, with the stored item where it was
/// asked for.
pub fn conditional_failure(old_item: Option<Item>, return_old: bool) -> (r: StorageError)
    ensures
        r == (StorageError::ConditionalCheckFailed {
            item: if return_old {
                old_item
            } else {
                None
            },
        }),
{
    StorageError::ConditionalCheckFailed {
        item: if return_old {
            old_item
        } else {
            None
        },
    }
}

fn go_on_after_streams(
    immediate_gsi_consistency: bool,
    version: u64,
    old_item: Option<Item>,
) -> (r: PutItemStep)
    ensures
        after_streams(immediate_gsi_consistency, version, old_item, r),
{
    if immediate_gsi_consistency {
        Step::Perform {
            state: PutItemState::ApplyingGsi { old_item },
            action: PutItemAction::ApplyImmediateGsiUpdates(version),
        }
    } else {
        Step::Perform {
            state: PutItemState::LoadingTtl { old_item },
            action: PutItemAction::LoadTtlConfig,
        }
    }
}

impl SQLiteStorageProvider {
    /// Stores an item, and yields the item that was stored before. The first action is
    /// to read what is known of the table.
    pub fn do_put_item(input: &PutItemInput, state: PutItemState, event: PutItemEvent) -> (r:
        PutItemStep)
        requires
            state.awaits(event),
        ensures
            put_item_next(*input, state, event, r),
    {
        match (state, event) {
            (_, PutItemEvent::TableLoaded(Err(e))) => Step::Finish(Err(e)),
            (_, PutItemEvent::TableLoaded(Ok(table))) => {
                if input.item.is_empty() {
                    return Step::Finish(Err(StorageError::validation("Item is empty")));
                }
                let writes_stream = should_write_stream_entries_for_gsi_mode(
                    &table,
                    input.immediate_gsi_consistency,
                );
                Step::Perform {
                    state: PutItemState::Splitting { writes_stream },
                    action: PutItemAction::SplitItem,
                }
            },
            (_, PutItemEvent::InsertRefused(e)) => Step::Finish(Err(e)),
            (PutItemState::Inserting { .. }, PutItemEvent::Done(Err(e))) => Step::Finish(
                Err(e.context("put item transaction insert execute")),
            ),
            (PutItemState::WritingStream { .. }, PutItemEvent::Done(Err(e))) => Step::Finish(
                Err(e.context("write stream entries")),
            ),
            (_, PutItemEvent::Done(Err(e))) => Step::Finish(Err(e)),
            (PutItemState::Splitting { writes_stream }, PutItemEvent::Done(Ok(()))) => Step::Perform {
                state: PutItemState::LoadingOldItem { writes_stream },
                action: PutItemAction::LoadOldItem,
            },
            (_, PutItemEvent::OldItemLoaded(Err(e))) => Step::Finish(Err(e)),
            (
                PutItemState::LoadingOldItem { writes_stream },
                PutItemEvent::OldItemLoaded(Ok(old_item)),
            ) => if input.has_condition {
                Step::Perform {
                    state: PutItemState::Evaluating { writes_stream, old_item },
                    action: PutItemAction::EvaluateCondition,
                }
            } else {
                Step::Perform {
                    state: PutItemState::Extracting { writes_stream, old_item },
                    action: PutItemAction::ExtractIndexers,
                }
            },
            (
                PutItemState::Evaluating { writes_stream, old_item },
                PutItemEvent::ConditionEvaluated(holds),
            ) => if holds {
                Step::Perform {
                    state: PutItemState::Extracting { writes_stream, old_item },
                    action: PutItemAction::ExtractIndexers,
                }
            } else {
                Step::Finish(
                    Err(conditional_failure(old_item, input.return_old_on_condition_failure)),
                )
            },
            (
                PutItemState::Extracting { writes_stream, old_item },
                PutItemEvent::Done(Ok(())),
            ) => Step::Perform {
                state: PutItemState::Inserting { writes_stream, old_item },
                action: PutItemAction::Insert,
            },
            (
                PutItemState::Inserting { writes_stream, old_item },
                PutItemEvent::Done(Ok(())),
            ) => Step::Perform {
                state: PutItemState::Bumping { writes_stream, old_item },
                action: PutItemAction::BumpRevision,
            },
            (_, PutItemEvent::RevisionBumped(Err(e))) => Step::Finish(Err(e)),
            (
                PutItemState::Bumping { writes_stream, old_item },
                PutItemEvent::RevisionBumped(Ok(revision)),
            ) => {
                if revision < 0 {
                    return Step::Finish(Err(StorageError::internal("item revision is negative")));
                }
                let version: u64 = revision as u64;
                if writes_stream {
                    Step::Perform {
                        state: PutItemState::WritingStream { version, old_item },
                        action: PutItemAction::WriteStreamEntries(version),
                    }
                } else {
                    go_on_after_streams(input.immediate_gsi_consistency, version, old_item)
                }
            },
            (
                PutItemState::WritingStream { version, old_item },
                PutItemEvent::Done(Ok(())),
            ) => go_on_after_streams(input.immediate_gsi_consistency, version, old_item),
            (PutItemState::ApplyingGsi { old_item }, PutItemEvent::Done(Ok(()))) => Step::Perform {
                state: PutItemState::LoadingTtl { old_item },
                action: PutItemAction::LoadTtlConfig,
            },
            (PutItemState::LoadingTtl { old_item }, PutItemEvent::Done(Ok(()))) => Step::Perform {
                state: PutItemState::UpdatingTtl { old_item },
                action: PutItemAction::UpdateTtlIndex,
            },
            (PutItemState::UpdatingTtl { old_item }, PutItemEvent::Done(Ok(()))) => Step::Perform {
                state: PutItemState::ApplyingDuration { old_item },
                action: PutItemAction::ApplyItemStreamDuration,
            },
            (PutItemState::ApplyingDuration { old_item }, PutItemEvent::Done(Ok(()))) => Step::Finish(
                Ok(old_item),
            ),
            (_, _) => {
                assert(false);
                Step::Finish(Ok(None))
            },
        }
    }
}

/// The actions of a put come in one order, each at most once.
pub proof fn law_put_actions_in_order(
    input: PutItemInput,
    state: PutItemState,
    event: PutItemEvent,
    step: PutItemStep,
)
    requires
        state.awaits(event),
        put_item_next(input, state, event, step),
    ensures
        step matches Step::Perform { state: next, action } ==> next.rank() > state.rank()
            && action.rank() == next.rank(),
{
}

/// A put whose condition does not hold ends there: it stores nothing and gives the item
/// no new revision.
pub proof fn law_failed_condition_writes_nothing(
    input: PutItemInput,
    state: PutItemState,
    step: PutItemStep,
)
    requires
        state is Evaluating,
        put_item_next(input, state, PutItemEvent::ConditionEvaluated(false), step),
    ensures
        step matches Step::Finish(Err(e)) && e is ConditionalCheckFailed,
        state.rank() < PutItemAction::Insert.rank(),
        state.rank() < PutItemAction::BumpRevision.rank(),
{
}

/// Texts with a comma and a blank between them.
pub open spec fn joined(parts: Seq<Seq<char>>) -> Seq<char>
    decreases parts.len(),
{
    if parts.len() == 0 {
        Seq::empty()
    } else if parts.len() == 1 {
        parts[0]
    } else {
        joined(parts.drop_last()) + ", "@ + parts.last()
    }
}

/// The numbered placeholder of a value.
pub open spec fn placeholder(i: int) -> Seq<char> {
    "?"@ + decimal((i + 1) as nat)
}

/// The views of texts.
pub open spec fn texts(parts: Seq<String>) -> Seq<Seq<char>> {
    parts.map_values(|s: String| s@)
}

fn join(parts: &Vec<String>) -> (r: String)
    ensures
        r@ == joined(texts(parts@)),
{
    let mut all = String::new();
    let mut i: usize = 0;
    while i < parts.len()
        invariant
            i <= parts@.len(),
            all@ == joined(texts(parts@).take(i as int)),
        decreases parts@.len() - i,
    {
        let ghost next = texts(parts@).take(i + 1);
        assert(next.drop_last() =~= texts(parts@).take(i as int));
        assert(next.last() == parts@[i as int]@);
        if i > 0 {
            all.append(", ");
        }
        all.append(parts[i].as_str());
        assert(i == 0 ==> all@ =~= parts@[0]@);
        i = i + 1;
    }
    assert(texts(parts@).take(parts@.len() as int) =~= texts(parts@));
    all
}

fn placeholders(n: usize) -> (r: Vec<String>)
    ensures
        texts(r@) == Seq::new(n as nat, |i: int| placeholder(i)),
{
    let mut list: Vec<String> = Vec::new();
    let mut i: usize = 0;
    while i < n
        invariant
            i <= n,
            texts(list@) == Seq::new(i as nat, |i: int| placeholder(i)),
        decreases n - i,
    {
        let mut next = "?".to_owned();
        next.append(decimal_text(i as u64 + 1).as_str());
        let ghost before = list@;
        list.push(next);
        assert(texts(list@) =~= texts(before).push(placeholder(i as int)));
        assert(texts(list@) =~= Seq::new((i + 1) as nat, |i: int| placeholder(i)));
        i = i + 1;
    }
    list
}

/// A key attribute of an item: its column, and its value as text, or why it has none.
pub struct KeyColumn {
    pub name: String,
    pub value: Result<String, String>,
}

/// Whether every key attribute has a value as text.
pub open spec fn key_is_scalar(key: Seq<KeyColumn>) -> bool {
    forall|i: int| 0 <= i < key.len() ==> (#[trigger] key[i]).value is Ok
}

/// Whether the key attribute at an index is the first that has no value as text, and
/// gives an error.
pub open spec fn key_refused_at(key: Seq<KeyColumn>, i: int, error: StorageError) -> bool {
    &&& 0 <= i < key.len()
    &&& key_is_scalar(key.take(i))
    &&& key[i].value matches Err(e) && error.is_validation(
        "key attribute must be scalar: "@ + e@,
    )
}

/// The columns of a stored item: those of its key, the one of its other attributes, and
/// those of its indexed values.
pub open spec fn put_item_columns(key: Seq<KeyColumn>, indexers: Seq<String>) -> Seq<Seq<char>> {
    key.map_values(|c: KeyColumn| c.name@) + seq!["attributes_blob"@] + texts(indexers)
}

/// The values of a stored item, one for each of its columns. An indexed value that the
/// item does not have is null.
pub open spec fn put_item_args(
    key: Seq<KeyColumn>,
    residual: Seq<char>,
    slots: Seq<Option<String>>,
    capacity: nat,
) -> Seq<SqlArg> {
    key.map_values(|c: KeyColumn| SqlArg::Text(c.value->Ok_0@)) + seq![SqlArg::Text(residual)] + Seq::new(
        capacity,
        |i: int| if i < slots.len() && slots[i] is Some {
            SqlArg::Text(slots[i]->Some_0@)
        } else {
            SqlArg::Null
        },
    )
}

/// The text of the statement that stores an item.
pub open spec fn put_item_sql(table_name_safe: Seq<char>, columns: Seq<Seq<char>>) -> Seq<char> {
    "INSERT OR REPLACE INTO \"table_"@ + table_name_safe + "\" ("@ + joined(columns) + ") VALUES ("@
        + joined(Seq::new(columns.len(), |i: int| placeholder(i))) + ")"@
}

/// Stores an item, in the place of the one that had its key. A key attribute without a
/// value as text is refused.
pub fn execute_put_item(
    table_name_safe: &str,
    key: &Vec<KeyColumn>,
    residual_json: &str,
    slots: &Vec<Option<String>>,
    indexer_columns: &Vec<String>,
) -> (r: Result<Statement, StorageError>)
    requires
        key@.len() + indexer_columns@.len() < usize::MAX,
    ensures
        r is Ok <==> key_is_scalar(key@),
        match r {
            Ok(s) => s@ == (StatementView {
                sql: put_item_sql(table_name_safe@, put_item_columns(key@, indexer_columns@)),
                args: put_item_args(key@, residual_json@, slots@, indexer_columns@.len()),
            }),
            Err(e) => exists|i: int| #[trigger] key_refused_at(key@, i, e),
        },
{
    let mut columns: Vec<String> = Vec::new();
    let mut values: Vec<SqlValue> = Vec::new();
    let mut i: usize = 0;
    while i < key.len()
        invariant
            i <= key@.len(),
            key_is_scalar(key@.take(i as int)),
            texts(columns@) == key@.take(i as int).map_values(|c: KeyColumn| c.name@),
            args(values) == key@.take(i as int).map_values(|c: KeyColumn| SqlArg::Text(c.value->Ok_0@)),
        decreases key@.len() - i,
    {
        let ghost names = columns@;
        let ghost given = values;
        columns.push(key[i].name.clone());
        match &key[i].value {
            Ok(value) => {
                values.push(text(value.as_str()));
            },
            Err(e) => {
                let error = StorageError::Validation {
                    message: prefixed("key attribute must be scalar: ", e.as_str()),
                };
                assert(key_refused_at(key@, i as int, error));
                return Err(error);
            },
        }
        assert(texts(columns@) =~= texts(names).push(key@[i as int].name@));
        assert(args(values) =~= args(given).push(SqlArg::Text(key@[i as int].value->Ok_0@)));
        assert(key@.take(i + 1) =~= key@.take(i as int).push(key@[i as int]));
        i = i + 1;
    }
    assert(key@.take(key@.len() as int) =~= key@);
    let ghost names = columns@;
    let ghost given = values;
    columns.push("attributes_blob".to_owned());
    values.push(text(residual_json));
    assert(texts(columns@) =~= texts(names) + seq!["attributes_blob"@]);
    assert(args(values) =~= args(given) + seq![SqlArg::Text(residual_json@)]);
    let ghost names = columns@;
    let ghost given = values;
    let mut j: usize = 0;
    while j < indexer_columns.len()
        invariant
            j <= indexer_columns@.len(),
            columns@.len() == names.len() + j,
            texts(columns@) == texts(names) + texts(indexer_columns@.take(j as int)),
            args(values) == args(given) + Seq::new(
                j as nat,
                |i: int| if i < slots@.len() && slots@[i] is Some {
                    SqlArg::Text(slots@[i]->Some_0@)
                } else {
                    SqlArg::Null
                },
            ),
        decreases indexer_columns@.len() - j,
    {
        let ghost names_before = columns@;
        let ghost given_before = values;
        columns.push(indexer_columns[j].clone());
        let value = if j < slots.len() {
            match &slots[j] {
                Some(value) => text(value.as_str()),
                None => SqlValue::Null,
            }
        } else {
            SqlValue::Null
        };
        values.push(value);
        assert(texts(columns@) =~= texts(names_before).push(indexer_columns@[j as int]@));
        assert(texts(indexer_columns@.take(j + 1)) =~= texts(indexer_columns@.take(j as int)).push(
            indexer_columns@[j as int]@,
        ));
        assert(args(values) =~= args(given_before).push(value@));
        j = j + 1;
    }
    assert(indexer_columns@.take(indexer_columns@.len() as int) =~= indexer_columns@);
    assert(texts(columns@) =~= put_item_columns(key@, indexer_columns@));
    assert(args(values) =~= put_item_args(
        key@,
        residual_json@,
        slots@,
        indexer_columns@.len(),
    ));
    let marks = placeholders(columns.len());
    let mut sql = "INSERT OR REPLACE INTO \"table_".to_owned();
    sql.append(table_name_safe);
    sql.append("\" (");
    sql.append(join(&columns).as_str());
    sql.append(") VALUES (");
    sql.append(join(&marks).as_str());
    sql.append(")");
    Ok(Statement { sql, params: values })
}

/// A put names a column, a placeholder and a value for each thing it stores.
pub proof fn law_put_columns_match_values(
    key: Seq<KeyColumn>,
    residual: Seq<char>,
    slots: Seq<Option<String>>,
    indexers: Seq<String>,
)
    requires
        key_is_scalar(key),
    ensures
        put_item_columns(key, indexers).len() == put_item_args(
            key,
            residual,
            slots,
            indexers.len(),
        ).len(),
        forall|i: int|
            0 <= i < key.len() ==> put_item_columns(key, indexers)[i] == (#[trigger] key[i]).name@
                && put_item_args(key, residual, slots, indexers.len())[i] == SqlArg::Text(
                key[i].value->Ok_0@,
            ),
        put_item_columns(key, indexers)[key.len() as int] == "attributes_blob"@,
        put_item_args(key, residual, slots, indexers.len())[key.len() as int] == SqlArg::Text(
            residual,
        ),
{
}

/// Whether writes to a table are noted in streams: it has a stream, or indexes that the
/// streams bring up to date.
pub open spec fn notes_writes(table: TableInfo, immediate_gsi_consistency: bool) -> bool {
    (table.stream_specification matches Some(spec) && spec.stream_enabled) || (
    !immediate_gsi_consistency && (table.global_secondary_indexes matches Some(indexes) && exists|
        i: int,
    |
        0 <= i < indexes@.len() && !(#[trigger] indexes@[i]).is_ttl_index))
}

/// The actions of a put that succeeds, in their order. The streams and the indexes get the
/// revision that the item was given.
pub open spec fn put_actions(
    has_condition: bool,
    noted: bool,
    immediate: bool,
    version: u64,
) -> Seq<PutItemAction> {
    seq![PutItemAction::LoadTable, PutItemAction::SplitItem, PutItemAction::LoadOldItem] + (
    if has_condition {
        seq![PutItemAction::EvaluateCondition]
    } else {
        Seq::empty()
    }) + seq![PutItemAction::ExtractIndexers, PutItemAction::Insert, PutItemAction::BumpRevision]
        + (if noted {
        seq![PutItemAction::WriteStreamEntries(version)]
    } else {
        Seq::empty()
    }) + (if immediate {
        seq![PutItemAction::ApplyImmediateGsiUpdates(version)]
    } else {
        Seq::empty()
    }) + seq![
        PutItemAction::LoadTtlConfig,
        PutItemAction::UpdateTtlIndex,
        PutItemAction::ApplyItemStreamDuration,
    ]
}

/// Whether steps are those of a put from its start, each from the one before and an event.
pub open spec fn put_run(
    input: PutItemInput,
    events: Seq<PutItemEvent>,
    steps: Seq<PutItemStep>,
) -> bool {
    &&& steps.len() == events.len() + 1
    &&& steps[0] == (Step::<
        PutItemState,
        PutItemAction,
        Result<Option<Item>, StorageError>,
    >::Perform { state: PutItemState::LoadingTable, action: PutItemAction::LoadTable })
    &&& forall|k: int|
        0 <= k < events.len() ==> {
            &&& (#[trigger] steps[k]) is Perform
            &&& steps[k]->state.awaits(events[k])
            &&& call_ensures(
                SQLiteStorageProvider::do_put_item,
                (&input, steps[k]->state, events[k]),
                steps[k + 1],
            )
        }
}

/// The item that a run of a put found stored.
pub open spec fn found_item(events: Seq<PutItemEvent>) -> Option<Item> {
    events[2]->OldItemLoaded_0->Ok_0
}

/// The item that a state carries, where it carries one.
pub open spec fn carries(state: PutItemState, item: Option<Item>) -> bool {
    match state {
        PutItemState::LoadingTable => true,
        PutItemState::Splitting { .. } => true,
        PutItemState::LoadingOldItem { .. } => true,
        PutItemState::Evaluating { old_item, .. } => old_item == item,
        PutItemState::Extracting { old_item, .. } => old_item == item,
        PutItemState::Inserting { old_item, .. } => old_item == item,
        PutItemState::Bumping { old_item, .. } => old_item == item,
        PutItemState::WritingStream { old_item, .. } => old_item == item,
        PutItemState::ApplyingGsi { old_item } => old_item == item,
        PutItemState::LoadingTtl { old_item } => old_item == item,
        PutItemState::UpdatingTtl { old_item } => old_item == item,
        PutItemState::ApplyingDuration { old_item } => old_item == item,
    }
}

/// Where in a run of a put its item gets its revision.
pub open spec fn bumps_at(input: PutItemInput) -> int {
    if input.has_condition {
        6
    } else {
        5
    }
}

spec fn put_place(
    input: PutItemInput,
    noted: bool,
    version: u64,
    state: PutItemState,
    k: int,
) -> bool {
    let c: int = if input.has_condition { 1 } else { 0 };
    let w: int = if noted { 1 } else { 0 };
    let g: int = if input.immediate_gsi_consistency { 1 } else { 0 };
    match state {
        PutItemState::LoadingTable => k == 0,
        PutItemState::Splitting { writes_stream } => k == 1 && writes_stream == noted,
        PutItemState::LoadingOldItem { writes_stream } => k == 2 && writes_stream == noted,
        PutItemState::Evaluating { writes_stream, .. } => k == 3 && writes_stream == noted
            && input.has_condition,
        PutItemState::Extracting { writes_stream, .. } => k == 3 + c && writes_stream == noted,
        PutItemState::Inserting { writes_stream, .. } => k == 4 + c && writes_stream == noted,
        PutItemState::Bumping { writes_stream, .. } => k == 5 + c && writes_stream == noted,
        PutItemState::WritingStream { version: v, .. } => k == 6 + c && noted && v == version,
        PutItemState::ApplyingGsi { .. } => k == 6 + c + w && input.immediate_gsi_consistency,
        PutItemState::LoadingTtl { .. } => k == 6 + c + w + g,
        PutItemState::UpdatingTtl { .. } => k == 7 + c + w + g,
        PutItemState::ApplyingDuration { .. } => k == 8 + c + w + g,
    }
}

proof fn lemma_put_run(
    input: PutItemInput,
    events: Seq<PutItemEvent>,
    steps: Seq<PutItemStep>,
    k: int,
)
    requires
        put_run(input, events, steps),
        0 <= k < steps.len(),
        steps[k] is Perform,
    ensures
        ({
            let table = events[0]->TableLoaded_0->Ok_0;
            let noted = notes_writes(table, input.immediate_gsi_consistency);
            let revision = events[bumps_at(input)]->RevisionBumped_0->Ok_0;
            let actions = put_actions(
                input.has_condition,
                noted,
                input.immediate_gsi_consistency,
                revision as u64,
            );
            &&& put_place(input, noted, revision as u64, steps[k]->state, k)
            &&& k < actions.len() && steps[k]->action == actions[k]
            &&& carries(steps[k]->state, found_item(events))
            &&& k > 0 ==> events[0]->TableLoaded_0 is Ok && input.item.attributes@.len() > 0
            &&& k > 2 ==> events[2]->OldItemLoaded_0 is Ok
            &&& k > 3 && input.has_condition ==> events[3] == PutItemEvent::ConditionEvaluated(true)
            &&& k > bumps_at(input) ==> events[bumps_at(input)]->RevisionBumped_0 is Ok && revision
                >= 0
        }),
    decreases k,
{
    if k > 0 {
        assert(steps[k - 1] is Perform);
        lemma_put_run(input, events, steps, k - 1);
        assert(put_item_next(input, steps[k - 1]->state, events[k - 1], steps[k - 1 + 1]));
    }
}

/// A put that succeeds has gone through all its actions in their order, and answers with
/// the very item that was found stored, which every action on the way is given too, with
/// or without a condition. Its condition held, the item was stored and given a revision,
/// and the streams, where the write is noted, and the indexes, where they are updated at
/// once, get that revision.
pub proof fn law_put_answers_with_the_item_that_was_stored(
    input: PutItemInput,
    events: Seq<PutItemEvent>,
    steps: Seq<PutItemStep>,
)
    requires
        put_run(input, events, steps),
        steps.last() is Finish,
    ensures
        forall|k: int|
            0 <= k < events.len() ==> carries((#[trigger] steps[k])->state, found_item(events)),
        steps.last()->Finish_0 matches Ok(out) ==> {
            let actions = put_actions(
                input.has_condition,
                notes_writes(
                    events[0]->TableLoaded_0->Ok_0,
                    input.immediate_gsi_consistency,
                ),
                input.immediate_gsi_consistency,
                events[bumps_at(input)]->RevisionBumped_0->Ok_0 as u64,
            );
            &&& out == found_item(events)
            &&& events[2]->OldItemLoaded_0 is Ok
            &&& events.len() == actions.len()
            &&& forall|k: int|
                0 <= k < events.len() ==> (#[trigger] steps[k])->action == actions[k]
            &&& input.has_condition ==> events[3] == PutItemEvent::ConditionEvaluated(true)
            &&& events[bumps_at(input)]->RevisionBumped_0->Ok_0 >= 0
        },
{
    let last = events.len() - 1;
    assert(events.len() > 0);
    assert(steps[last] is Perform);
    lemma_put_run(input, events, steps, last);
    assert(put_item_next(input, steps[last]->state, events[last], steps[last + 1]));
    let actions = put_actions(
        input.has_condition,
        notes_writes(events[0]->TableLoaded_0->Ok_0, input.immediate_gsi_consistency),
        input.immediate_gsi_consistency,
        events[bumps_at(input)]->RevisionBumped_0->Ok_0 as u64,
    );
    assert forall|k: int| 0 <= k < events.len() implies (#[trigger] steps[k])->action == actions[k]
        && carries(steps[k]->state, found_item(events)) by {
        lemma_put_run(input, events, steps, k);
    }
}

/// A put that fails tells its first failure: an empty item is refused, a condition that
/// does not hold tells the stored item where it was asked for, what storing the item and
/// noting the write fail with is told with the step, and anything else as it came.
pub proof fn law_put_tells_its_failure(
    input: PutItemInput,
    events: Seq<PutItemEvent>,
    steps: Seq<PutItemStep>,
)
    requires
        put_run(input, events, steps),
        steps.last() matches Step::Finish(Err(_)),
    ensures
        ({
            let error = steps.last()->Finish_0->Err_0;
            let last = events.len() - 1;
            match events.last() {
                PutItemEvent::TableLoaded(Err(e)) => error == e,
                PutItemEvent::TableLoaded(Ok(_)) => input.item.attributes@.len() == 0
                    && tells_validation(error, "Item is empty"@),
                PutItemEvent::OldItemLoaded(r) => r == Err::<Option<Item>, StorageError>(error),
                PutItemEvent::ConditionEvaluated(holds) => !holds && error == (
                StorageError::ConditionalCheckFailed {
                    item: if input.return_old_on_condition_failure {
                        found_item(events)
                    } else {
                        None
                    },
                }),
                PutItemEvent::RevisionBumped(Err(e)) => error == e,
                PutItemEvent::RevisionBumped(Ok(revision)) => revision < 0 && tells_internal(
                    error,
                    "item revision is negative"@,
                ),
                PutItemEvent::InsertRefused(e) => steps[last]->action == PutItemAction::Insert
                    && error == e,
                PutItemEvent::Done(Ok(_)) => false,
                PutItemEvent::Done(Err(e)) => match steps[last]->action {
                    PutItemAction::Insert => tells_step(
                        error,
                        "put item transaction insert execute"@,
                        e,
                    ),
                    PutItemAction::WriteStreamEntries(_) => tells_step(
                        error,
                        "write stream entries"@,
                        e,
                    ),
                    _ => error == e,
                },
            }
        }),
{
    let last = events.len() - 1;
    assert(events.len() > 0);
    assert(steps[last] is Perform);
    lemma_put_run(input, events, steps, last);
    assert(put_item_next(input, steps[last]->state, events[last], steps[last + 1]));
}

/// The statement that stores an item binds the key first, each value in the place of its
/// column, then the other attributes, then the indexed values, null where the item has
/// none; it names a column for each of them.
pub proof fn law_put_statement_binds_what_is_stored(
    table_name_safe: &str,
    key: Vec<KeyColumn>,
    residual_json: &str,
    slots: Vec<Option<String>>,
    indexer_columns: Vec<String>,
    made: Result<Statement, StorageError>,
)
    requires
        call_ensures(
            execute_put_item,
            (table_name_safe, &key, residual_json, &slots, &indexer_columns),
            made,
        ),
    ensures
        made is Ok <==> forall|i: int| 0 <= i < key@.len() ==> (#[trigger] key@[i]).value is Ok,
        made matches Ok(s) ==> {
            &&& s@.args.len() == key@.len() + 1 + indexer_columns@.len()
            &&& forall|i: int|
                0 <= i < key@.len() ==> s@.args[i] == SqlArg::Text(
                    (#[trigger] key@[i]).value->Ok_0@,
                )
            &&& s@.args[key@.len() as int] == SqlArg::Text(residual_json@)
            &&& forall|i: int|
                0 <= i < indexer_columns@.len() ==> s@.args[key@.len() + 1 + i] == (if i
                    < slots@.len() && (#[trigger] slots@[i]) is Some {
                    SqlArg::Text(slots@[i]->Some_0@)
                } else {
                    SqlArg::Null
                })
        },
        made matches Err(e) ==> exists|i: int|
            0 <= i < key@.len() && (forall|j: int| 0 <= j < i ==> (#[trigger] key@[j]).value is Ok)
                && ((#[trigger] key@[i]).value matches Err(why) && tells_validation(
                e,
                "key attribute must be scalar: "@ + why@,
            )),
{
    if made is Err {
        let e = made->Err_0;
        let i = choose|i: int| #[trigger] key_refused_at(key@, i, e);
        assert forall|j: int| 0 <= j < i implies (#[trigger] key@[j]).value is Ok by {
            assert(key@.take(i)[j] == key@[j]);
        }
        assert(key@[i].value is Err);
    }
}

} // verus!
