//! Items that expire.
use crate::error::StorageError;
use crate::machine::Step;
use crate::sql::{integer, statement, text, Script, SqlArg, SqlValue, Statement, StatementView};
use crate::sql_statements::{update_attribute_definitions, UPDATE_ATTRIBUTE_DEFINITIONS};
use crate::stream_duration::prefixed;
use crate::types::{AttributeDefinition, KeyAttributeType};
use vstd::prelude::*;
use vstd::string::*;

verus! {

/// Whether a character is white space, as Unicode has it.
pub open spec fn is_white_space(c: char) -> bool {
    ||| '\u{9}' <= c && c <= '\u{d}'
    ||| c == '\u{20}'
    ||| c == '\u{85}'
    ||| c == '\u{a0}'
    ||| c == '\u{1680}'
    ||| '\u{2000}' <= c && c <= '\u{200a}'
    ||| c == '\u{2028}'
    ||| c == '\u{2029}'
    ||| c == '\u{202f}'
    ||| c == '\u{205f}'
    ||| c == '\u{3000}'
}

/// Whether a text holds nothing but white space.
pub open spec fn is_blank(s: Seq<char>) -> bool {
    forall|i: int| 0 <= i < s.len() ==> is_white_space(#[trigger] s[i])
}

fn blank(s: &str) -> (r: bool)
    ensures
        r == is_blank(s@),
{
    let n: usize = s.unicode_len();
    let mut i: usize = 0;
    while i < n
        invariant
            i <= n == s@.len(),
            forall|j: int| 0 <= j < i ==> is_white_space(#[trigger] s@[j]),
        decreases n - i,
    {
        let c = s.get_char(i);
        let white = ('\u{9}' <= c && c <= '\u{d}') || c == '\u{20}' || c == '\u{85}' || c
            == '\u{a0}' || c == '\u{1680}' || ('\u{2000}' <= c && c <= '\u{200a}') || c
            == '\u{2028}' || c == '\u{2029}' || c == '\u{202f}' || c == '\u{205f}' || c
            == '\u{3000}';
        if !white {
            assert(!is_white_space(s@[i as int]));
            return false;
        }
        i = i + 1;
    }
    true
}

/// The state of a table's time to live.
#[derive(Clone, Copy, Debug, PartialEq, Eq, Structural)]
pub enum TimeToLiveStatus {
    Enabling,
    Enabled,
    Disabling,
    Disabled,
}

/// What is asked for: the attribute that says when an item expires, and whether items
/// are to expire.
#[derive(Debug, PartialEq, Eq)]
pub struct TimeToLiveSpecification {
    pub attribute_name: String,
    pub enabled: bool,
}

/// What is stored of a table's time to live.
pub struct TtlConfigRecord {
    pub attribute_name: String,
    pub index_name: String,
    pub status: TimeToLiveStatus,
}

/// One thing to do for a change of the time to live; the first that fails ends it.
pub enum TtlAction {
    /// Store the attribute definitions of the table, the attribute now among them, of a
    /// type where it is not defined yet.
    PersistAttributeDefinitions { attribute_name: String, attribute_type: KeyAttributeType },
    /// Forget what was read of the table.
    InvalidateTableInfo,
    /// Create the table that finds expired items.
    CreateIndexTable,
    /// Store the configuration, in a state.
    SaveConfig { attribute_name: String, status: TimeToLiveStatus },
    /// Fill the table that finds expired items.
    BackfillIndex { attribute_name: String },
    /// Delete the index of a name.
    DeleteIndex { index_name: String },
    /// Drop the table that finds expired items.
    DropIndexTable,
    /// Remove the configuration.
    DeleteConfig,
}

/// What an action is.
pub enum TtlActionView {
    PersistAttributeDefinitions(Seq<char>, KeyAttributeType),
    InvalidateTableInfo,
    CreateIndexTable,
    SaveConfig(Seq<char>, TimeToLiveStatus),
    BackfillIndex(Seq<char>),
    DeleteIndex(Seq<char>),
    DropIndexTable,
    DeleteConfig,
}

impl View for TtlAction {
    type V = TtlActionView;

    open spec fn view(&self) -> TtlActionView {
        match *self {
            TtlAction::PersistAttributeDefinitions { attribute_name, attribute_type } => {
                TtlActionView::PersistAttributeDefinitions(attribute_name@, attribute_type)
            },
            TtlAction::InvalidateTableInfo => TtlActionView::InvalidateTableInfo,
            TtlAction::CreateIndexTable => TtlActionView::CreateIndexTable,
            TtlAction::SaveConfig { attribute_name, status } => TtlActionView::SaveConfig(
                attribute_name@,
                status,
            ),
            TtlAction::BackfillIndex { attribute_name } => TtlActionView::BackfillIndex(
                attribute_name@,
            ),
            TtlAction::DeleteIndex { index_name } => TtlActionView::DeleteIndex(index_name@),
            TtlAction::DropIndexTable => TtlActionView::DropIndexTable,
            TtlAction::DeleteConfig => TtlActionView::DeleteConfig,
        }
    }
}

/// What the actions of a list are.
pub open spec fn ttl_views(list: Seq<TtlAction>) -> Seq<TtlActionView> {
    list.map_values(|a: TtlAction| a@)
}

/// The actions that make items expire: the configuration is enabling while the index is
/// filled, and enabled only then.
pub open spec fn enable_views(attribute_name: Seq<char>) -> Seq<TtlActionView> {
    seq![
        TtlActionView::PersistAttributeDefinitions(attribute_name, KeyAttributeType::N),
        TtlActionView::InvalidateTableInfo,
        TtlActionView::CreateIndexTable,
        TtlActionView::SaveConfig(attribute_name, TimeToLiveStatus::Enabling),
        TtlActionView::BackfillIndex(attribute_name),
        TtlActionView::SaveConfig(attribute_name, TimeToLiveStatus::Enabled),
    ]
}

/// The actions that stop items from expiring.
pub open spec fn disable_views(index_name: Seq<char>) -> Seq<TtlActionView> {
    seq![
        TtlActionView::DeleteIndex(index_name),
        TtlActionView::InvalidateTableInfo,
        TtlActionView::DropIndexTable,
        TtlActionView::DeleteConfig,
    ]
}

/// A change of the time to live: what to do, and what to answer once it is done.
pub struct TtlPlan {
    pub actions: Vec<TtlAction>,
    pub response: TimeToLiveSpecification,
}

/// Whether an error refuses to make items expire. A name of white space is refused
/// first, then a change while another goes on, then another attribute than the one in
/// force.
pub open spec fn enable_refused(
    attribute_name: Seq<char>,
    existing: Option<TtlConfigRecord>,
    error: StorageError,
) -> bool {
    if is_blank(attribute_name) {
        error.is_validation("Time to live attribute name must not be empty"@)
    } else if existing matches Some(config) && (config.status == TimeToLiveStatus::Enabling
        || config.status == TimeToLiveStatus::Disabling) {
        error.is_validation("Time to live configuration update in progress; retry later"@)
    } else {
        existing matches Some(config) && config.status == TimeToLiveStatus::Enabled
            && config.attribute_name@ != attribute_name && error.is_validation(
            "Disable time to live before changing attribute name"@,
        )
    }
}

/// Whether items can be made to expire by an attribute.
pub open spec fn can_enable(
    attribute_name: Seq<char>,
    existing: Option<TtlConfigRecord>,
) -> bool {
    !is_blank(attribute_name) && (existing matches Some(config) ==> (config.status
        == TimeToLiveStatus::Disabled || (config.status == TimeToLiveStatus::Enabled
        && config.attribute_name@ == attribute_name)))
}

/// Plans a change of the time to live.
pub fn update_time_to_live(
    specification: TimeToLiveSpecification,
    existing: Option<TtlConfigRecord>,
) -> (r: Result<TtlPlan, StorageError>)
    ensures
        specification.enabled ==> (r is Ok <==> can_enable(
            specification.attribute_name@,
            existing,
        )),
        specification.enabled ==> (r matches Err(e) ==> enable_refused(
            specification.attribute_name@,
            existing,
            e,
        )),
        specification.enabled ==> (r matches Ok(plan) ==> plan.response == specification
            && ttl_views(plan.actions@) == (if existing matches Some(config) && config.status
            == TimeToLiveStatus::Enabled {
            Seq::empty()
        } else {
            enable_views(specification.attribute_name@)
        })),
        !specification.enabled ==> (r matches Ok(plan) && !plan.response.enabled && match existing {
            Some(config) => plan.response.attribute_name@ == config.attribute_name@ && ttl_views(
                plan.actions@,
            ) == disable_views(config.index_name@),
            None => plan.response.attribute_name@ == specification.attribute_name@ && ttl_views(
                plan.actions@,
            ) == Seq::<TtlActionView>::empty(),
        }),
{
    if specification.enabled {
        if blank(specification.attribute_name.as_str()) {
            return Err(StorageError::validation("Time to live attribute name must not be empty"));
        }
        if let Some(config) = existing {
            match config.status {
                TimeToLiveStatus::Enabling | TimeToLiveStatus::Disabling => {
                    return Err(
                        StorageError::validation(
                            "Time to live configuration update in progress; retry later",
                        ),
                    );
                },
                TimeToLiveStatus::Enabled => {
                    if config.attribute_name == specification.attribute_name {
                        let actions: Vec<TtlAction> = Vec::new();
                        assert(ttl_views(actions@) =~= Seq::<TtlActionView>::empty());
                        return Ok(TtlPlan { actions, response: specification });
                    }
                    return Err(
                        StorageError::validation(
                            "Disable time to live before changing attribute name",
                        ),
                    );
                },
                TimeToLiveStatus::Disabled => {},
            }
        }
        let actions = vec![
            TtlAction::PersistAttributeDefinitions {
                attribute_name: specification.attribute_name.clone(),
                attribute_type: KeyAttributeType::N,
            },
            TtlAction::InvalidateTableInfo,
            TtlAction::CreateIndexTable,
            TtlAction::SaveConfig {
                attribute_name: specification.attribute_name.clone(),
                status: TimeToLiveStatus::Enabling,
            },
            TtlAction::BackfillIndex { attribute_name: specification.attribute_name.clone() },
            TtlAction::SaveConfig {
                attribute_name: specification.attribute_name.clone(),
                status: TimeToLiveStatus::Enabled,
            },
        ];
        assert(ttl_views(actions@) =~= enable_views(specification.attribute_name@));
        Ok(TtlPlan { actions, response: specification })
    } else {
        match existing {
            Some(config) => {
                let ghost index_name = config.index_name@;
                let actions = vec![
                    TtlAction::DeleteIndex { index_name: config.index_name },
                    TtlAction::InvalidateTableInfo,
                    TtlAction::DropIndexTable,
                    TtlAction::DeleteConfig,
                ];
                assert(ttl_views(actions@) =~= disable_views(index_name));
                Ok(
                    TtlPlan {
                        actions,
                        response: TimeToLiveSpecification {
                            attribute_name: config.attribute_name,
                            enabled: false,
                        },
                    },
                )
            },
            None => {
                let actions: Vec<TtlAction> = Vec::new();
                assert(ttl_views(actions@) =~= Seq::<TtlActionView>::empty());
                Ok(
                    TtlPlan {
                        actions,
                        response: TimeToLiveSpecification {
                            attribute_name: specification.attribute_name,
                            enabled: false,
                        },
                    },
                )
            },
        }
    }
}

/// Making items expire again by the attribute by which they expire can be asked for at
/// any time, and does nothing; it is refused for any other attribute.
pub proof fn law_enabling_twice_changes_nothing(attribute_name: Seq<char>, config: TtlConfigRecord)
    requires
        config.status == TimeToLiveStatus::Enabled,
        !is_blank(attribute_name),
    ensures
        can_enable(attribute_name, Some(config)) <==> config.attribute_name@ == attribute_name,
{
}

/// The table that finds expired items is filled after the configuration is stored as
/// enabling, and before it is stored as enabled.
pub proof fn law_backfill_comes_before_enabled(attribute_name: Seq<char>)
    ensures
        enable_views(attribute_name)[3] == TtlActionView::SaveConfig(
            attribute_name,
            TimeToLiveStatus::Enabling,
        ),
        enable_views(attribute_name)[4] == TtlActionView::BackfillIndex(attribute_name),
        enable_views(attribute_name).last() == TtlActionView::SaveConfig(
            attribute_name,
            TimeToLiveStatus::Enabled,
        ),
{
}

/// What is told of a table's time to live.
pub struct TimeToLiveDescription {
    pub attribute_name: Option<String>,
    pub time_to_live_status: TimeToLiveStatus,
}

/// What is told of a table's time to live: without a configuration, it is disabled.
pub fn describe_time_to_live(config: Option<TtlConfigRecord>) -> (r: TimeToLiveDescription)
    ensures
        match config {
            Some(config) => r.attribute_name == Some(config.attribute_name)
                && r.time_to_live_status == config.status,
            None => r.attribute_name is None && r.time_to_live_status
                == TimeToLiveStatus::Disabled,
        },
{
    match config {
        Some(config) => TimeToLiveDescription {
            attribute_name: Some(config.attribute_name),
            time_to_live_status: config.status,
        },
        None => TimeToLiveDescription {
            attribute_name: None,
            time_to_live_status: TimeToLiveStatus::Disabled,
        },
    }
}

/// Whether an attribute is among definitions.
pub open spec fn is_defined(definitions: Seq<AttributeDefinition>, name: Seq<char>) -> bool {
    exists|i: int| 0 <= i < definitions.len() && (#[trigger] definitions[i]).attribute_name@ == name
}

/// Adds the definition of an attribute where there is none.
pub fn ensure_attribute_definition(
    definitions: &mut Vec<AttributeDefinition>,
    attribute_name: &str,
    attribute_type: KeyAttributeType,
)
    ensures
        is_defined(old(definitions)@, attribute_name@) ==> final(definitions)@ == old(
            definitions,
        )@,
        !is_defined(old(definitions)@, attribute_name@) ==> {
            &&& final(definitions)@.len() == old(definitions)@.len() + 1
            &&& final(definitions)@.drop_last() == old(definitions)@
            &&& final(definitions)@.last().attribute_name@ == attribute_name@
            &&& final(definitions)@.last().attribute_type == attribute_type
        },
        is_defined(final(definitions)@, attribute_name@),
{
    let name = attribute_name.to_owned();
    let mut i: usize = 0;
    while i < definitions.len()
        invariant
            i <= definitions@.len(),
            definitions@ == old(definitions)@,
            name@ == attribute_name@,
            forall|j: int|
                0 <= j < i ==> (#[trigger] definitions@[j]).attribute_name@ != attribute_name@,
        decreases definitions@.len() - i,
    {
        if definitions[i].attribute_name == name {
            return;
        }
        i = i + 1;
    }
    definitions.push(AttributeDefinition { attribute_name: name, attribute_type });
    assert(definitions@.drop_last() =~= old(definitions)@);
    assert(definitions@.last().attribute_name@ == attribute_name@);
}

/// Stores the attribute definitions of a table, from their JSON or the error that
/// writing it ended with.
pub fn persist_attribute_definitions(table_name: &str, json: Result<&str, &str>) -> (r: Result<
    Statement,
    StorageError,
>)
    ensures
        match json {
            Ok(json) => r matches Ok(s) && s@ == (StatementView {
                sql: UPDATE_ATTRIBUTE_DEFINITIONS@,
                args: seq![SqlArg::Text(json@), SqlArg::Text(table_name@)],
            }),
            Err(e) => r matches Err(out) && out.is_internal("serialize defs: "@ + e@),
        },
{
    match json {
        Ok(json) => Ok(statement(update_attribute_definitions(table_name, json))),
        Err(e) => Err(StorageError::Internal { message: prefixed("serialize defs: ", e) }),
    }
}

/// What an item says of when it expires: nothing, or the time in seconds and the token
/// of its key.
pub enum TtlEntry {
    Lasting,
    Expires { seconds: u64, token: Result<String, StorageError> },
}

/// The text of the statement that notes when an item expires.
pub open spec fn ttl_index_sql(ttl_table: Seq<char>) -> Seq<char> {
    "INSERT OR REPLACE INTO \""@ + ttl_table + "\" (ttl_value, key_token) VALUES (?1, ?2)"@
}

/// Whether an item cannot be noted, and why.
pub open spec fn ttl_entry_fails(entry: TtlEntry, error: StorageError) -> bool {
    match entry {
        TtlEntry::Lasting => false,
        TtlEntry::Expires { seconds, token } => if seconds > i64::MAX {
            error.is_internal("sqlite ttl normalize overflow"@)
        } else {
            token matches Err(e) && error == e
        },
    }
}

/// Whether an item can be noted, or has nothing to note.
pub open spec fn ttl_entry_ok(entry: TtlEntry) -> bool {
    entry matches TtlEntry::Expires { seconds, token } ==> seconds <= i64::MAX && token is Ok
}

/// The statements that note when items expire, in their order.
pub open spec fn ttl_index_views(ttl_table: Seq<char>, entries: Seq<TtlEntry>) -> Seq<StatementView>
    decreases entries.len(),
{
    if entries.len() == 0 {
        Seq::empty()
    } else {
        let before = ttl_index_views(ttl_table, entries.drop_last());
        match entries.last() {
            TtlEntry::Lasting => before,
            TtlEntry::Expires { seconds, token } => before.push(
                StatementView {
                    sql: ttl_index_sql(ttl_table),
                    args: seq![SqlArg::Integer(seconds as int), SqlArg::Text(token->Ok_0@)],
                },
            ),
        }
    }
}

/// Whether noting when items expire runs given statements: those of all items up to the
/// first that cannot be noted, which decides the error.
pub open spec fn backfills(ttl_table: Seq<char>, entries: Seq<TtlEntry>, script: Script) -> bool {
    match script.failure {
        None => (forall|i: int| 0 <= i < entries.len() ==> ttl_entry_ok(#[trigger] entries[i]))
            && crate::sql::statements(script.statements@) == ttl_index_views(ttl_table, entries),
        Some(e) => exists|n: int|
            #![trigger entries[n]]
            0 <= n < entries.len() && (forall|i: int|
                0 <= i < n ==> ttl_entry_ok(#[trigger] entries[i])) && ttl_entry_fails(
                entries[n],
                e,
            ) && crate::sql::statements(script.statements@) == ttl_index_views(
                ttl_table,
                entries.take(n),
            ),
    }
}

/// Notes when the items of a page expire.
pub fn backfill_page(ttl_table: &str, entries: Vec<TtlEntry>) -> (r: Script)
    ensures
        backfills(ttl_table@, entries@, r),
{
    let ghost given = entries@;
    let mut left = entries;
    let n: usize = left.len();
    let mut list: Vec<Statement> = Vec::new();
    let mut i: usize = 0;
    while i < n
        invariant
            i <= n == given.len(),
            given == entries@,
            left@ == given.skip(i as int),
            forall|j: int| 0 <= j < i ==> ttl_entry_ok(#[trigger] given[j]),
            crate::sql::statements(list@) == ttl_index_views(ttl_table@, given.take(i as int)),
        decreases n - i,
    {
        let entry = left.remove(0);
        assert(entry == given[i as int]);
        assert(left@ =~= given.skip(i + 1));
        assert(given.take(i + 1).drop_last() =~= given.take(i as int));
        match entry {
            TtlEntry::Lasting => {},
            TtlEntry::Expires { seconds, token } => {
                if seconds > i64::MAX as u64 {
                    let e = StorageError::internal("sqlite ttl normalize overflow");
                    assert(ttl_entry_fails(given[i as int], e));
                    return Script { statements: list, failure: Some(e) };
                }
                match token {
                    Err(e) => {
                        assert(ttl_entry_fails(given[i as int], e));
                        return Script { statements: list, failure: Some(e) };
                    },
                    Ok(token) => {
                        let ghost before = list@;
                        let ghost token_text = token@;
                        let mut sql = "INSERT OR REPLACE INTO \"".to_owned();
                        sql.append(ttl_table);
                        sql.append("\" (ttl_value, key_token) VALUES (?1, ?2)");
                        let params = vec![integer(seconds as i64), SqlValue::Text(token)];
                        assert(crate::sql::args(params) =~= seq![
                            SqlArg::Integer(seconds as int),
                            SqlArg::Text(token_text),
                        ]);
                        let next = Statement { sql, params };
                        list.push(next);
                        assert(crate::sql::statements(list@) =~= crate::sql::statements(
                            before,
                        ).push(next@));
                    },
                }
            },
        }
        i = i + 1;
    }
    assert(given.take(n as int) =~= given);
    Script { statements: list, failure: None }
}

/// What filling the table that finds expired items needs done.
pub enum BackfillAction {
    /// Read a page of the table, from after a key on.
    Scan { exclusive_start_key: Option<String> },
    /// Note when the items of a page expire, in one transaction.
    Note(Script),
}

/// How far filling the table has come.
pub enum BackfillState {
    Scanning,
    Noting { last_key: Option<String> },
}

/// What came of an action.
pub enum BackfillEvent {
    Scanned(Result<(Vec<TtlEntry>, Option<String>), StorageError>),
    Noted(Result<(), StorageError>),
}

/// What filling the table does next.
pub type BackfillStep = Step<BackfillState, BackfillAction, Result<(), StorageError>>;

impl BackfillState {
    /// Whether the state waits for an event.
    pub open spec fn awaits(self, event: BackfillEvent) -> bool {
        match self {
            BackfillState::Scanning => event is Scanned,
            BackfillState::Noting { .. } => event is Noted,
        }
    }
}

/// How filling the table goes on after an event: page after page, until a page is empty
/// or the last.
pub open spec fn backfill_next(
    ttl_table: Seq<char>,
    state: BackfillState,
    event: BackfillEvent,
    step: BackfillStep,
) -> bool {
    match (state, event) {
        (_, BackfillEvent::Scanned(Err(e))) => step matches Step::Finish(Err(out)) && out == e,
        (_, BackfillEvent::Scanned(Ok((entries, key)))) => if entries@.len() == 0 {
            step matches Step::Finish(Ok(_))
        } else {
            step matches Step::Perform {
                state: BackfillState::Noting { last_key },
                action: BackfillAction::Note(script),
            } && last_key == key && backfills(ttl_table, entries@, script)
        },
        (_, BackfillEvent::Noted(Err(e))) => step matches Step::Finish(Err(out)) && out == e,
        (BackfillState::Noting { last_key }, BackfillEvent::Noted(Ok(_))) => match last_key {
            None => step matches Step::Finish(Ok(_)),
            Some(key) => step matches Step::Perform {
                state: BackfillState::Scanning,
                action: BackfillAction::Scan { exclusive_start_key },
            } && exclusive_start_key == Some(key),
        },
        _ => false,
    }
}

/// Fills the table that finds expired items. The first action is to read the first page.
pub fn backfill_ttl_index(ttl_table: &str, state: BackfillState, event: BackfillEvent) -> (r:
    BackfillStep)
    requires
        state.awaits(event),
    ensures
        backfill_next(ttl_table@, state, event, r),
{
    match (state, event) {
        (_, BackfillEvent::Scanned(Err(e))) => Step::Finish(Err(e)),
        (_, BackfillEvent::Scanned(Ok((entries, last_key)))) => {
            if entries.len() == 0 {
                return Step::Finish(Ok(()));
            }
            Step::Perform {
                state: BackfillState::Noting { last_key },
                action: BackfillAction::Note(backfill_page(ttl_table, entries)),
            }
        },
        (_, BackfillEvent::Noted(Err(e))) => Step::Finish(Err(e)),
        (BackfillState::Noting { last_key }, BackfillEvent::Noted(Ok(()))) => match last_key {
            None => Step::Finish(Ok(())),
            Some(key) => Step::Perform {
                state: BackfillState::Scanning,
                action: BackfillAction::Scan { exclusive_start_key: Some(key) },
            },
        },
        (_, _) => {
            assert(false);
            Step::Finish(Ok(()))
        },
    }
}

} // verus!
