//! Noting writes in the streams.
use crate::error::{tells_internal, Item, StorageError};
use crate::ids::StreamItemId;
use crate::machine::Step;
use crate::put_item::notes_writes;
use crate::sql::{statement, statements, SqlArg, Statement, StatementView};
use crate::sql_statements::{
    check_stream_tables_exist, insert_change_index_marker, insert_stream_entry,
    CHECK_STREAM_TABLES_EXIST, INSERT_CHANGE_INDEX_MARKER, INSERT_STREAM_ENTRY,
};
use crate::stream_duration::{
    insert_stream_pointer_index, pointer_index_view, prefixed, INSERT_STREAM_POINTER_INDEX,
};
use crate::stream_provider::{
    item_of, law_stored_rows_read_back, row_stored_by, StreamItem, StreamItemRow,
};
use crate::text::decimal;
use crate::types::{StreamDataType, TableInfo};
use crate::uuids::fresh_uuid;
use vstd::prelude::*;

verus! {

/// Largest payload, in bytes, that a stream pointer carries inline.
pub const STREAM_EMBEDDED_MAX_BYTES: usize = 1024;

/// Whether writes to a table are noted in streams: where it has a stream of its own, or
/// an index that follows its items through the streams.
pub open spec fn writes_stream_entries(table: TableInfo, immediate_gsi_consistency: bool) -> bool {
    table.stream_enabled() || (table.has_index() && !immediate_gsi_consistency)
}

/// Whether writes to a table are noted in streams, indexes following them.
pub fn should_write_stream_entries(table_info: &TableInfo) -> (r: bool)
    ensures
        r == writes_stream_entries(*table_info, false),
{
    should_write_stream_entries_for_gsi_mode(table_info, false)
}

/// Whether writes to a table are noted in streams.
pub fn should_write_stream_entries_for_gsi_mode(
    table_info: &TableInfo,
    immediate_gsi_consistency: bool,
) -> (r: bool)
    ensures
        r == writes_stream_entries(*table_info, immediate_gsi_consistency),
{
    let stream_enabled = match &table_info.stream_specification {
        Some(spec) => spec.stream_enabled,
        None => false,
    };
    let mut has_index = false;
    if let Some(indexes) = &table_info.global_secondary_indexes {
        let mut i: usize = 0;
        while i < indexes.len()
            invariant
                i <= indexes@.len(),
                has_index <==> exists|j: int|
                    0 <= j < i && !(#[trigger] indexes@[j]).is_ttl_index,
            decreases indexes@.len() - i,
        {
            if !indexes[i].is_ttl_index {
                has_index = true;
            }
            i = i + 1;
        }
    }
    stream_enabled || (has_index && !immediate_gsi_consistency)
}

/// An image of an item inside a pointer.
pub struct EmbeddedStreamItem {
    pub data: Vec<u8>,
    pub data_type: StreamDataType,
}

/// What a table's stream and the system stream hold of a write: where the version of
/// the item is found, and the images themselves where they are small.
pub struct StoredStreamPointer {
    pub stream_name: String,
    pub table_name: String,
    pub target_item_stream_version: u64,
    pub embedded: Option<Vec<EmbeddedStreamItem>>,
    /// Where the write came from, as JSON, for one that was replicated.
    pub replication: Option<String>,
}

/// What is noted of a write.
pub struct WriteStreamEntriesInput<'a> {
    pub old_item: Option<&'a Item>,
    pub is_deleted: bool,
    pub item_stream_version: u64,
    pub replication: Option<&'a str>,
}

/// What is noted of a write of an encoded item.
pub struct WriteWireStreamEntriesInput<'a> {
    pub old_item: Option<&'a Item>,
    pub is_deleted: bool,
    pub item_stream_version: u64,
    pub replication: Option<&'a str>,
}

/// The write that is noted, as the machine carries it.
pub struct StreamWrite {
    pub table_name: String,
    /// Whether the item's old image is noted too.
    pub with_old_image: bool,
    pub is_deleted: bool,
    pub item_stream_version: u64,
    pub replication: Option<String>,
}

/// The streams of a write, and the images that go into them.
pub struct StreamImages {
    pub item_stream: String,
    pub table_stream: String,
    pub system_stream: String,
    pub created_at: i64,
    /// The slot of the table among the changes.
    pub slot: u16,
    pub data: Vec<u8>,
    pub old_data: Option<Vec<u8>>,
}

/// What finding the streams and encoding the images came to.
pub enum Resolution {
    KeyFailed(String),
    StreamNameFailed(String),
    ImageFailed(String),
    OldImageFailed(String),
    Failed(StorageError),
    Resolved(StreamImages),
}

/// What noting a write needs done.
pub enum StreamWriteAction {
    /// Run a statement, and tell whether it has a row; a failure counts as none.
    CheckTables(Statement),
    /// Find the streams and encode the images, the old one where it is asked for.
    Resolve { with_old_image: bool },
    /// Run a statement.
    Run(Statement),
    /// Encode a pointer.
    EncodePointer(StoredStreamPointer),
    /// Run statements in order, up to the first that fails.
    RunAll(Vec<Statement>),
}

/// How far noting a write has come.
pub enum StreamWriteState {
    CheckingTables,
    Resolving,
    InsertingItem(StreamImages),
    /// The pointer holds the images now.
    EncodingPointer {
        item_stream: String,
        table_stream: String,
        system_stream: String,
        created_at: i64,
        slot: u16,
    },
    InsertingPointers,
}

/// What came of an action.
pub enum StreamWriteEvent {
    TablesChecked(bool),
    Resolved(Resolution),
    ItemInserted(Result<(), StorageError>),
    PointerEncoded(Result<Vec<u8>, StorageError>),
    PointersInserted(Result<(), StorageError>),
}

/// What noting a write does next.
pub type StreamWriteStep = Step<StreamWriteState, StreamWriteAction, Result<(), StorageError>>;

impl StreamWriteState {
    /// Whether the state of noting a write waits for an event. There is an old image where
    /// it was asked for, and only there.
    pub open spec fn awaits(self, write: StreamWrite, event: StreamWriteEvent) -> bool {
        match self {
            StreamWriteState::CheckingTables => event is TablesChecked,
            StreamWriteState::Resolving => event matches StreamWriteEvent::Resolved(resolution) && (
            resolution matches Resolution::Resolved(images) ==> images.answers(write)),
            StreamWriteState::InsertingItem(images) => event is ItemInserted && images.answers(
                write,
            ),
            StreamWriteState::EncodingPointer { .. } => event is PointerEncoded,
            StreamWriteState::InsertingPointers => event is PointersInserted,
        }
    }
}

impl StreamImages {
    /// Whether there is an old image exactly where a write asks for it.
    pub open spec fn answers(self, write: StreamWrite) -> bool {
        self.old_data is Some <==> write.with_old_image
    }
}

/// What the row of an item's stream holds: the item, or a mark that it is gone.
pub open spec fn image_type(is_deleted: bool) -> StreamDataType {
    if is_deleted {
        StreamDataType::DeleteMarker
    } else {
        StreamDataType::DynamoDbJson
    }
}

/// The number of bytes of the images of a write.
pub open spec fn images_len(data: Seq<u8>, old_data: Option<Vec<u8>>) -> nat {
    data.len() + (match old_data {
        Some(old) => old@.len(),
        None => 0,
    })
}

/// The statement that stores a row of a stream.
pub open spec fn stream_entry_view(
    stream_name: Seq<char>,
    id: StreamItemId,
    data: Seq<u8>,
    created_at: i64,
    data_type: StreamDataType,
) -> StatementView {
    StatementView {
        sql: INSERT_STREAM_ENTRY@,
        args: seq![
            SqlArg::Text(stream_name),
            SqlArg::Text(id.text()),
            SqlArg::Blob(data),
            SqlArg::Integer(created_at as int),
            SqlArg::Integer(data_type.spec_code() as int),
        ],
    }
}

fn stream_entry(
    stream_name: &str,
    id: StreamItemId,
    data: &[u8],
    created_at: i64,
    data_type: StreamDataType,
) -> (r: Statement)
    ensures
        r@ == stream_entry_view(stream_name@, id, data@, created_at, data_type),
{
    statement(insert_stream_entry(stream_name, &id, data, created_at, data_type))
}

/// The statement that stores the row of an item's stream: under the item's version.
pub open spec fn item_entry_view(write: StreamWrite, images: StreamImages) -> StatementView {
    stream_entry_view(
        images.item_stream@,
        StreamItemId { high: 0, low: write.item_stream_version },
        images.data@,
        images.created_at,
        image_type(write.is_deleted),
    )
}

/// Whether a pointer is that of a write. It carries the images, the new one first,
/// where together they are small enough.
pub open spec fn points_to(
    write: StreamWrite,
    images: StreamImages,
    pointer: StoredStreamPointer,
) -> bool {
    &&& pointer.stream_name@ == images.item_stream@
    &&& pointer.table_name@ == write.table_name@
    &&& pointer.target_item_stream_version == write.item_stream_version
    &&& crate::sql::optional_string(pointer.replication) == crate::sql::optional_string(
        write.replication,
    )
    &&& pointer.embedded is Some <==> images_len(images.data@, images.old_data)
        <= STREAM_EMBEDDED_MAX_BYTES
    &&& pointer.embedded matches Some(items) ==> {
        &&& items@.len() == (if write.with_old_image {
            2int
        } else {
            1int
        })
        &&& items@[0].data == images.data
        &&& items@[0].data_type == image_type(write.is_deleted)
        &&& images.old_data matches Some(old) ==> items@[1].data == old && items@[1].data_type
            == StreamDataType::DynamoDbJson
    }
}

fn copy_optional(s: &Option<String>) -> (r: Option<String>)
    ensures
        crate::sql::optional_string(r) == crate::sql::optional_string(*s),
{
    match s {
        Some(s) => Some(s.clone()),
        None => None,
    }
}

/// The pointer of a write.
pub fn stored_stream_pointer(write: &StreamWrite, images: StreamImages) -> (r: StoredStreamPointer)
    requires
        images.answers(*write),
    ensures
        points_to(*write, images, r),
{
    let data_type = if write.is_deleted {
        StreamDataType::DeleteMarker
    } else {
        StreamDataType::DynamoDbJson
    };
    let old_len: usize = match &images.old_data {
        Some(old) => old.len(),
        None => 0,
    };
    let fits = images.data.len() <= STREAM_EMBEDDED_MAX_BYTES && old_len
        <= STREAM_EMBEDDED_MAX_BYTES - images.data.len();
    let embedded = if fits {
        let mut items: Vec<EmbeddedStreamItem> = Vec::new();
        items.push(EmbeddedStreamItem { data: images.data, data_type });
        match images.old_data {
            Some(old) => {
                items.push(
                    EmbeddedStreamItem { data: old, data_type: StreamDataType::DynamoDbJson },
                );
            },
            None => {},
        }
        Some(items)
    } else {
        None
    };
    StoredStreamPointer {
        stream_name: images.item_stream,
        table_name: write.table_name.clone(),
        target_item_stream_version: write.item_stream_version,
        embedded,
        replication: copy_optional(&write.replication),
    }
}

/// The statement that notes the change of a table, under the text of a pointer's id.
pub open spec fn change_marker_view(
    slot: u16,
    pointer_id: StreamItemId,
    table_name: Seq<char>,
    created_at: i64,
) -> StatementView {
    StatementView {
        sql: INSERT_CHANGE_INDEX_MARKER@,
        args: seq![
            SqlArg::Integer(slot as int),
            SqlArg::Text(pointer_id.text()),
            SqlArg::Text(table_name),
            SqlArg::Integer(created_at as int),
        ],
    }
}

/// The statements that follow the row of an item's stream: a pointer in the table's
/// stream, the same pointer in the system stream, how the two are found from the
/// version, and the change of the table.
pub open spec fn pointer_views(
    write: StreamWrite,
    item_stream: Seq<char>,
    table_stream: Seq<char>,
    system_stream: Seq<char>,
    created_at: i64,
    slot: u16,
    pointer: Seq<u8>,
    table_id: StreamItemId,
    system_id: StreamItemId,
) -> Seq<StatementView> {
    seq![
        stream_entry_view(
            table_stream,
            table_id,
            pointer,
            created_at,
            StreamDataType::StreamPointer,
        ),
        stream_entry_view(
            system_stream,
            system_id,
            pointer,
            created_at,
            StreamDataType::StreamPointer,
        ),
        pointer_index_view(
            write.table_name@,
            item_stream,
            write.item_stream_version,
            table_id,
            system_id,
            created_at,
        ),
        change_marker_view(slot, table_id, write.table_name@, created_at),
    ]
}

/// Stores the pointers of a write under given ids.
pub fn pointer_entries(
    write: &StreamWrite,
    item_stream: &str,
    table_stream: &str,
    system_stream: &str,
    created_at: i64,
    slot: u16,
    pointer: &[u8],
    table_id: StreamItemId,
    system_id: StreamItemId,
) -> (r: Vec<Statement>)
    ensures
        statements(r@) == pointer_views(
            *write,
            item_stream@,
            table_stream@,
            system_stream@,
            created_at,
            slot,
            pointer@,
            table_id,
            system_id,
        ),
{
    let versionstamp = table_id.to_text();
    let marker = statement(
        insert_change_index_marker(
            slot,
            versionstamp.as_str(),
            write.table_name.as_str(),
            created_at,
        ),
    );
    assert(marker@ == change_marker_view(slot, table_id, write.table_name@, created_at));
    vec![
        stream_entry(table_stream, table_id, pointer, created_at, StreamDataType::StreamPointer),
        stream_entry(system_stream, system_id, pointer, created_at, StreamDataType::StreamPointer),
        insert_stream_pointer_index(
            write.table_name.as_str(),
            item_stream,
            write.item_stream_version,
            table_id,
            system_id,
            created_at,
        ),
        marker,
    ]
}

/// A new id for a row of a stream, of a new UUID: neither the smallest nor the largest.
pub fn fresh_stream_item_id() -> (r: StreamItemId)
    ensures
        r.is_version_7(),
        0 < r.number() < 0xffff_ffff_ffff_ffff_ffff_ffff,
{
    let uuid: u128 = fresh_uuid();
    let id = StreamItemId::from_uuid(uuid);
    assert((uuid as nat / 0x1000_0000_0000_0000_0000) == (id.number() / 0x1000_0000_0000));
    assert((uuid as nat / 0x4000_0000_0000_0000) == (id.number() / 0x4000_0000));
    id
}

/// The words before the error of an image that could not be encoded.
pub open spec fn image_failure(is_deleted: bool) -> Seq<char> {
    if is_deleted {
        "stream delete marker encode error: "@
    } else {
        "stream new image encode error: "@
    }
}

/// How noting a write goes on after an event. Where the tables of the streams are
/// missing, there is nothing to note.
pub open spec fn stream_write_next(
    write: StreamWrite,
    state: StreamWriteState,
    event: StreamWriteEvent,
    step: StreamWriteStep,
) -> bool {
    match (state, event) {
        (_, StreamWriteEvent::TablesChecked(false)) => step matches Step::Finish(Ok(_)),
        (_, StreamWriteEvent::TablesChecked(true)) => step matches Step::Perform {
            state: StreamWriteState::Resolving,
            action: StreamWriteAction::Resolve { with_old_image },
        } && with_old_image == write.with_old_image,
        (_, StreamWriteEvent::Resolved(resolution)) => match resolution {
            Resolution::KeyFailed(e) => step matches Step::Finish(Err(out)) && out.is_internal(
                "stream item key error: "@ + e@,
            ),
            Resolution::StreamNameFailed(e) => step matches Step::Finish(Err(out))
                && out.is_internal("stream name error: "@ + e@),
            Resolution::ImageFailed(e) => step matches Step::Finish(Err(out)) && out.is_internal(
                image_failure(write.is_deleted) + e@,
            ),
            Resolution::OldImageFailed(e) => step matches Step::Finish(Err(out))
                && out.is_internal("stream old image encode error: "@ + e@),
            Resolution::Failed(e) => step matches Step::Finish(Err(out)) && out == e,
            Resolution::Resolved(images) => step matches Step::Perform {
                state: StreamWriteState::InsertingItem(kept),
                action: StreamWriteAction::Run(s),
            } && kept == images && s@ == item_entry_view(write, images),
        },
        (_, StreamWriteEvent::ItemInserted(Err(e))) => step matches Step::Finish(Err(out)) && out
            == e,
        (StreamWriteState::InsertingItem(images), StreamWriteEvent::ItemInserted(Ok(_))) => {
            step matches Step::Perform {
                state: StreamWriteState::EncodingPointer {
                    item_stream,
                    table_stream,
                    system_stream,
                    created_at,
                    slot,
                },
                action: StreamWriteAction::EncodePointer(pointer),
            } && points_to(write, images, pointer) && item_stream@ == images.item_stream@
                && table_stream@ == images.table_stream@ && system_stream@ == images.system_stream@
                && created_at == images.created_at && slot == images.slot
        },
        (_, StreamWriteEvent::PointerEncoded(Err(e))) => step matches Step::Finish(Err(out)) && out
            == e,
        (
            StreamWriteState::EncodingPointer {
                item_stream,
                table_stream,
                system_stream,
                created_at,
                slot,
            },
            StreamWriteEvent::PointerEncoded(Ok(pointer)),
        ) => step matches Step::Perform {
            state: StreamWriteState::InsertingPointers,
            action: StreamWriteAction::RunAll(list),
        } && exists|table_id: StreamItemId, system_id: StreamItemId|
            table_id.is_version_7() && system_id.is_version_7() && statements(list@)
                == #[trigger] pointer_views(
                write,
                item_stream@,
                table_stream@,
                system_stream@,
                created_at,
                slot,
                pointer@,
                table_id,
                system_id,
            ),
        (_, StreamWriteEvent::PointersInserted(result)) => step matches Step::Finish(out) && out
            == result,
        _ => false,
    }
}

/// Goes on with noting a write.
pub fn resume_stream_write(
    write: &StreamWrite,
    state: StreamWriteState,
    event: StreamWriteEvent,
) -> (r: StreamWriteStep)
    requires
        state.awaits(*write, event),
    ensures
        stream_write_next(*write, state, event, r),
{
    match (state, event) {
        (_, StreamWriteEvent::TablesChecked(exist)) => if exist {
            Step::Perform {
                state: StreamWriteState::Resolving,
                action: StreamWriteAction::Resolve { with_old_image: write.with_old_image },
            }
        } else {
            Step::Finish(Ok(()))
        },
        (_, StreamWriteEvent::Resolved(resolution)) => {
            let message = match resolution {
                Resolution::KeyFailed(e) => prefixed("stream item key error: ", e.as_str()),
                Resolution::StreamNameFailed(e) => prefixed("stream name error: ", e.as_str()),
                Resolution::ImageFailed(e) => if write.is_deleted {
                    prefixed("stream delete marker encode error: ", e.as_str())
                } else {
                    prefixed("stream new image encode error: ", e.as_str())
                },
                Resolution::OldImageFailed(e) => prefixed(
                    "stream old image encode error: ",
                    e.as_str(),
                ),
                Resolution::Failed(e) => {
                    return Step::Finish(Err(e));
                },
                Resolution::Resolved(images) => {
                    let data_type = if write.is_deleted {
                        StreamDataType::DeleteMarker
                    } else {
                        StreamDataType::DynamoDbJson
                    };
                    let entry = stream_entry(
                        images.item_stream.as_str(),
                        StreamItemId::from_version(write.item_stream_version),
                        images.data.as_slice(),
                        images.created_at,
                        data_type,
                    );
                    return Step::Perform {
                        state: StreamWriteState::InsertingItem(images),
                        action: StreamWriteAction::Run(entry),
                    };
                },
            };
            Step::Finish(Err(StorageError::Internal { message }))
        },
        (_, StreamWriteEvent::ItemInserted(Err(e))) => Step::Finish(Err(e)),
        (StreamWriteState::InsertingItem(images), StreamWriteEvent::ItemInserted(Ok(()))) => {
            let item_stream = images.item_stream.clone();
            let table_stream = images.table_stream.clone();
            let system_stream = images.system_stream.clone();
            let created_at: i64 = images.created_at;
            let slot: u16 = images.slot;
            Step::Perform {
                state: StreamWriteState::EncodingPointer {
                    item_stream,
                    table_stream,
                    system_stream,
                    created_at,
                    slot,
                },
                action: StreamWriteAction::EncodePointer(stored_stream_pointer(write, images)),
            }
        },
        (_, StreamWriteEvent::PointerEncoded(Err(e))) => Step::Finish(Err(e)),
        (
            StreamWriteState::EncodingPointer {
                item_stream,
                table_stream,
                system_stream,
                created_at,
                slot,
            },
            StreamWriteEvent::PointerEncoded(Ok(pointer)),
        ) => {
            let table_id = fresh_stream_item_id();
            let system_id = fresh_stream_item_id();
            Step::Perform {
                state: StreamWriteState::InsertingPointers,
                action: StreamWriteAction::RunAll(
                    pointer_entries(
                        write,
                        item_stream.as_str(),
                        table_stream.as_str(),
                        system_stream.as_str(),
                        created_at,
                        slot,
                        pointer.as_slice(),
                        table_id,
                        system_id,
                    ),
                ),
            }
        },
        (_, StreamWriteEvent::PointersInserted(result)) => Step::Finish(result),
        (_, _) => {
            assert(false);
            Step::Finish(Ok(()))
        },
    }
}

/// Whether noting a write starts with a given step: only where the table's writes are
/// noted at all, and then by looking for the tables of the streams.
pub open spec fn stream_write_starts(table_info: TableInfo, step: StreamWriteStep) -> bool {
    if writes_stream_entries(table_info, false) {
        step matches Step::Perform {
            state: StreamWriteState::CheckingTables,
            action: StreamWriteAction::CheckTables(s),
        } && s@ == (StatementView { sql: CHECK_STREAM_TABLES_EXIST@, args: Seq::empty() })
    } else {
        step matches Step::Finish(Ok(_))
    }
}

fn start_stream_write(table_info: &TableInfo) -> (r: StreamWriteStep)
    ensures
        stream_write_starts(*table_info, r),
{
    if should_write_stream_entries(table_info) {
        Step::Perform {
            state: StreamWriteState::CheckingTables,
            action: StreamWriteAction::CheckTables(statement(check_stream_tables_exist())),
        }
    } else {
        Step::Finish(Ok(()))
    }
}

fn copy_optional_str(s: Option<&str>) -> (r: Option<String>)
    ensures
        crate::sql::optional_string(r) == crate::sql::optional_str(s),
{
    match s {
        Some(s) => Some(s.to_owned()),
        None => None,
    }
}

/// Starts to note a write. The old image is noted where there was an item that had
/// attributes.
pub fn write_stream_entries(table_info: &TableInfo, input: WriteStreamEntriesInput<'_>) -> (r: (
    StreamWrite,
    StreamWriteStep,
))
    ensures
        stream_write_starts(*table_info, r.1),
        r.0.table_name@ == table_info.table_name@,
        r.0.with_old_image == (input.old_item matches Some(old) && !old.spec_is_empty()),
        r.0.is_deleted == input.is_deleted,
        r.0.item_stream_version == input.item_stream_version,
        crate::sql::optional_string(r.0.replication) == crate::sql::optional_str(input.replication),
{
    let with_old_image = match input.old_item {
        Some(old) => !old.is_empty(),
        None => false,
    };
    (
        StreamWrite {
            table_name: table_info.table_name.clone(),
            with_old_image,
            is_deleted: input.is_deleted,
            item_stream_version: input.item_stream_version,
            replication: copy_optional_str(input.replication),
        },
        start_stream_write(table_info),
    )
}

/// Starts to note a write of an encoded item. The old image is noted where there was an
/// item.
pub fn write_stream_entries_wire(
    table_info: &TableInfo,
    input: WriteWireStreamEntriesInput<'_>,
) -> (r: (StreamWrite, StreamWriteStep))
    ensures
        stream_write_starts(*table_info, r.1),
        r.0.table_name@ == table_info.table_name@,
        r.0.with_old_image == (input.old_item is Some),
        r.0.is_deleted == input.is_deleted,
        r.0.item_stream_version == input.item_stream_version,
        crate::sql::optional_string(r.0.replication) == crate::sql::optional_str(input.replication),
{
    (
        StreamWrite {
            table_name: table_info.table_name.clone(),
            with_old_image: input.old_item.is_some(),
            is_deleted: input.is_deleted,
            item_stream_version: input.item_stream_version,
            replication: copy_optional_str(input.replication),
        },
        start_stream_write(table_info),
    )
}

/// Whether the key attribute at an index is the first that is missing or cannot be read,
/// and gives an error.
pub open spec fn key_attribute_fails(
    found: Seq<Result<Option<String>, StorageError>>,
    i: int,
    error: StorageError,
) -> bool {
    &&& 0 <= i < found.len()
    &&& forall|j: int| 0 <= j < i ==> (#[trigger] found[j]) is Ok && found[j]->Ok_0 is Some
    &&& match found[i] {
        Ok(None) => error.is_internal("stream item missing key attributes"@),
        Err(e) => error == e,
        Ok(Some(_)) => false,
    }
}

/// The key attributes of an encoded item, each as it was found in the item: the first
/// that is missing or cannot be read decides the error.
pub fn wire_key_attributes(found: Vec<Result<Option<String>, StorageError>>) -> (r: Result<
    Vec<String>,
    StorageError,
>)
    ensures
        match r {
            Ok(values) => values@.len() == found@.len() && forall|i: int|
                0 <= i < found@.len() ==> found@[i] == Ok::<Option<String>, StorageError>(
                    Some(#[trigger] values@[i]),
                ),
            Err(e) => exists|i: int| #[trigger] key_attribute_fails(found@, i, e),
        },
{
    let ghost given = found@;
    let mut left = found;
    let n: usize = left.len();
    let mut values: Vec<String> = Vec::new();
    let mut i: usize = 0;
    while i < n
        invariant
            i <= n == given.len(),
            given == found@,
            left@ == given.skip(i as int),
            values@.len() == i,
            forall|j: int|
                0 <= j < i ==> given[j] == Ok::<Option<String>, StorageError>(
                    Some(#[trigger] values@[j]),
                ),
        decreases n - i,
    {
        let first = left.remove(0);
        assert(first == given[i as int]);
        assert(left@ =~= given.skip(i + 1));
        assert forall|j: int| 0 <= j < i implies (#[trigger] given[j]) is Ok
            && given[j]->Ok_0 is Some by {
            assert(given[j] == Ok::<Option<String>, StorageError>(Some(values@[j])));
        }
        match first {
            Ok(Some(value)) => {
                values.push(value);
            },
            Ok(None) => {
                let e = StorageError::internal("stream item missing key attributes");
                assert(key_attribute_fails(found@, i as int, e));
                return Err(e);
            },
            Err(e) => {
                assert(key_attribute_fails(found@, i as int, e));
                return Err(e);
            },
        }
        i = i + 1;
    }
    Ok(values)
}

/// Indexes that writes update themselves never make a write be noted that is not noted
/// otherwise.
pub proof fn law_immediate_indexes_note_less(table: TableInfo)
    ensures
        writes_stream_entries(table, true) ==> writes_stream_entries(table, false),
        writes_stream_entries(table, true) == table.stream_enabled(),
{
}

/// Whether steps are those of noting a write, from the check of the tables, each from the
/// one before and an event.
pub open spec fn stream_write_run(
    write: StreamWrite,
    events: Seq<StreamWriteEvent>,
    steps: Seq<StreamWriteStep>,
) -> bool {
    &&& steps.len() == events.len() + 1
    &&& steps[0] is Perform && steps[0]->state is CheckingTables
    &&& forall|k: int|
        0 <= k < events.len() ==> {
            &&& (#[trigger] steps[k]) is Perform
            &&& steps[k]->state.awaits(write, events[k])
            &&& call_ensures(
                resume_stream_write,
                (&write, steps[k]->state, events[k]),
                steps[k + 1],
            )
        }
}

/// Whether a statement stores a row: of a stream, under an id, with data of a type.
pub open spec fn stores_row(
    s: StatementView,
    stream_name: Seq<char>,
    id: StreamItemId,
    data: Seq<u8>,
    created_at: i64,
    code: int,
) -> bool {
    &&& s.sql == INSERT_STREAM_ENTRY@
    &&& s.args.len() == 5
    &&& s.args[0] == SqlArg::Text(stream_name)
    &&& s.args[1] == SqlArg::Text(id.text())
    &&& s.args[2] == SqlArg::Blob(data)
    &&& s.args[3] == SqlArg::Integer(created_at as int)
    &&& s.args[4] == SqlArg::Integer(code)
}

/// What a row of an item's stream is marked with: a delete with another number than a write
/// of an item.
pub open spec fn marks(is_deleted: bool) -> int {
    if is_deleted {
        3
    } else {
        1
    }
}

proof fn lemma_stream_write_run(
    write: StreamWrite,
    events: Seq<StreamWriteEvent>,
    steps: Seq<StreamWriteStep>,
    k: int,
)
    requires
        stream_write_run(write, events, steps),
        0 <= k < steps.len(),
        steps[k] is Perform,
    ensures
        match steps[k]->state {
            StreamWriteState::CheckingTables => k == 0,
            StreamWriteState::Resolving => k == 1,
            StreamWriteState::InsertingItem(images) => k == 2 && events[1]
                == StreamWriteEvent::Resolved(Resolution::Resolved(images)),
            StreamWriteState::EncodingPointer {
                item_stream,
                table_stream,
                system_stream,
                created_at,
                slot,
            } => {
                let images = events[1]->Resolved_0->Resolved_0;
                k == 3 && item_stream@ == images.item_stream@ && table_stream@
                    == images.table_stream@ && system_stream@ == images.system_stream@
                    && created_at == images.created_at && slot == images.slot
            },
            StreamWriteState::InsertingPointers => k == 4,
        },
        k > 0 ==> events[0] == StreamWriteEvent::TablesChecked(true),
        k > 1 ==> events[1] is Resolved && events[1]->Resolved_0 is Resolved,
        k > 3 ==> events[3]->PointerEncoded_0 is Ok,
    decreases k,
{
    if k > 0 {
        assert(steps[k - 1] is Perform);
        lemma_stream_write_run(write, events, steps, k - 1);
        assert(stream_write_next(write, steps[k - 1]->state, events[k - 1], steps[k - 1 + 1]));
    }
}

/// Noting a write stores the item's image in the item's stream under its version, marked as
/// a delete exactly where the write is one. What reads that row back finds that version,
/// that image and that mark.
pub proof fn law_item_rows_tell_deletes_from_writes(
    write: StreamWrite,
    events: Seq<StreamWriteEvent>,
    steps: Seq<StreamWriteStep>,
    row: StreamItemRow,
    item: StreamItem,
)
    requires
        stream_write_run(write, events, steps),
        events.len() >= 2,
        events[1] matches StreamWriteEvent::Resolved(Resolution::Resolved(_)),
    ensures
        ({
            let images = events[1]->Resolved_0->Resolved_0;
            &&& steps[2] matches Step::Perform { action: StreamWriteAction::Run(s), .. }
                && stores_row(
                s@,
                images.item_stream@,
                StreamItemId { high: 0, low: write.item_stream_version },
                images.data@,
                images.created_at,
                marks(write.is_deleted),
            )
            &&& row_stored_by(steps[2]->action->Run_0@, row) && item_of(row, item) ==> {
                &&& item.data_type == StreamDataType::DeleteMarker <==> write.is_deleted
                &&& item.data_type == StreamDataType::DynamoDbJson <==> !write.is_deleted
                &&& item.id == (StreamItemId { high: 0, low: write.item_stream_version })
                &&& item.stream_name@ == images.item_stream@
                &&& item.data@ == images.data@
                &&& item.created_at == images.created_at
            }
        }),
{
    assert(steps[1] is Perform);
    lemma_stream_write_run(write, events, steps, 1);
    assert(stream_write_next(write, steps[1]->state, events[1], steps[2]));
    let images = events[1]->Resolved_0->Resolved_0;
    let id = StreamItemId { high: 0, low: write.item_stream_version };
    let data_type = if write.is_deleted {
        StreamDataType::DeleteMarker
    } else {
        StreamDataType::DynamoDbJson
    };
    if row_stored_by(steps[2]->action->Run_0@, row) && item_of(row, item) {
        law_stored_rows_read_back(
            images.item_stream@,
            id,
            images.data@,
            images.created_at,
            data_type,
            row,
            item,
        );
    }
}

/// A pointer names the item's stream, the table and the item's version. It holds the images
/// exactly where they are of 1024 bytes together at most: the new one first, of the type of
/// the row in the item's stream, then the old one where the write asked for it.
pub proof fn law_pointers_lead_to_the_item(
    write: StreamWrite,
    events: Seq<StreamWriteEvent>,
    steps: Seq<StreamWriteStep>,
)
    requires
        stream_write_run(write, events, steps),
        events.len() >= 3,
        events[2] matches StreamWriteEvent::ItemInserted(Ok(_)),
    ensures
        events[1] matches StreamWriteEvent::Resolved(Resolution::Resolved(_)),
        steps[3] matches Step::Perform { action: StreamWriteAction::EncodePointer(_), .. },
        ({
            let images = events[1]->Resolved_0->Resolved_0;
            let pointer = steps[3]->action->EncodePointer_0;
            let bytes = images.data@.len() + (match images.old_data {
                Some(old) => old@.len(),
                None => 0,
            });
            &&& pointer.stream_name@ == images.item_stream@
            &&& pointer.table_name@ == write.table_name@
            &&& pointer.target_item_stream_version == write.item_stream_version
            &&& pointer.replication is Some <==> write.replication is Some
            &&& write.replication matches Some(origin) ==> pointer.replication->Some_0@ == origin@
            &&& pointer.embedded is Some <==> bytes <= 1024
            &&& pointer.embedded matches Some(items) ==> {
                &&& items@.len() == (if write.with_old_image {
                    2int
                } else {
                    1int
                })
                &&& items@[0].data@ == images.data@
                &&& items@[0].data_type == (if write.is_deleted {
                    StreamDataType::DeleteMarker
                } else {
                    StreamDataType::DynamoDbJson
                })
                &&& write.with_old_image ==> images.old_data is Some && items@[1].data@
                    == images.old_data->Some_0@ && items@[1].data_type
                    == StreamDataType::DynamoDbJson
            }
            &&& steps[2]->action->Run_0@.args[4] == SqlArg::Integer(marks(write.is_deleted))
        }),
{
    assert(steps[1] is Perform);
    assert(steps[2] is Perform);
    lemma_stream_write_run(write, events, steps, 2);
    assert(stream_write_next(write, steps[1]->state, events[1], steps[2]));
    assert(stream_write_next(write, steps[2]->state, events[2], steps[3]));
}

/// Once its pointer is encoded, a write is noted in four statements: the pointer in the
/// table's stream and in the system stream, each under a new id; which of these ids lead to
/// the item's version; and that the table has changed, at the id in its stream.
pub proof fn law_pointers_are_noted_in_both_streams(
    write: StreamWrite,
    events: Seq<StreamWriteEvent>,
    steps: Seq<StreamWriteStep>,
)
    requires
        stream_write_run(write, events, steps),
        events.len() >= 4,
        events[3] matches StreamWriteEvent::PointerEncoded(Ok(_)),
    ensures
        steps[4] matches Step::Perform { action: StreamWriteAction::RunAll(_), .. },
        ({
            let images = events[1]->Resolved_0->Resolved_0;
            let pointer = events[3]->PointerEncoded_0->Ok_0@;
            let list = steps[4]->action->RunAll_0@;
            &&& list.len() == 4
            &&& exists|table_id: StreamItemId, system_id: StreamItemId|
                {
                    &&& #[trigger] stores_row(
                        list[0]@,
                        images.table_stream@,
                        table_id,
                        pointer,
                        images.created_at,
                        2,
                    )
                    &&& #[trigger] stores_row(
                        list[1]@,
                        images.system_stream@,
                        system_id,
                        pointer,
                        images.created_at,
                        2,
                    )
                    &&& table_id.number() > 0 && system_id.number() > 0
                    &&& list[2]@.args == seq![
                        SqlArg::Text(write.table_name@),
                        SqlArg::Text(images.item_stream@),
                        SqlArg::Text(decimal(write.item_stream_version as nat)),
                        SqlArg::Text(table_id.text()),
                        SqlArg::Text(system_id.text()),
                        SqlArg::Integer(images.created_at as int),
                    ]
                    &&& list[3]@.args == seq![
                        SqlArg::Integer(images.slot as int),
                        SqlArg::Text(table_id.text()),
                        SqlArg::Text(write.table_name@),
                        SqlArg::Integer(images.created_at as int),
                    ]
                }
            &&& list[2]@.sql == INSERT_STREAM_POINTER_INDEX@
            &&& list[3]@.sql == INSERT_CHANGE_INDEX_MARKER@
        }),
{
    assert(steps[3] is Perform);
    lemma_stream_write_run(write, events, steps, 3);
    assert(stream_write_next(write, steps[3]->state, events[3], steps[4]));
    let state = steps[3]->state;
    let images = events[1]->Resolved_0->Resolved_0;
    let pointer = events[3]->PointerEncoded_0->Ok_0@;
    let list = steps[4]->action->RunAll_0@;
    let (table_id, system_id) = choose|table_id: StreamItemId, system_id: StreamItemId|
        table_id.is_version_7() && system_id.is_version_7() && statements(list)
            == #[trigger] pointer_views(
            write,
            state->EncodingPointer_item_stream@,
            state->EncodingPointer_table_stream@,
            state->EncodingPointer_system_stream@,
            state->EncodingPointer_created_at,
            state->EncodingPointer_slot,
            pointer,
            table_id,
            system_id,
        );
    assert(statements(list).len() == 4);
    assert(statements(list)[0] == list[0]@);
    assert(statements(list)[1] == list[1]@);
    assert(statements(list)[2] == list[2]@);
    assert(statements(list)[3] == list[3]@);
    assert(stores_row(list[0]@, images.table_stream@, table_id, pointer, images.created_at, 2));
    assert(stores_row(list[1]@, images.system_stream@, system_id, pointer, images.created_at, 2));
}

/// Noting a write succeeds only where the tables of the streams are missing, or where all
/// that is noted was stored; it asks for the old image exactly where the write does. What
/// it fails with is the first failure, in the words of what failed.
pub proof fn law_noted_writes_are_stored(
    write: StreamWrite,
    events: Seq<StreamWriteEvent>,
    steps: Seq<StreamWriteStep>,
)
    requires
        stream_write_run(write, events, steps),
        steps.last() is Finish,
    ensures
        events.len() > 1 ==> steps[1]->action == (StreamWriteAction::Resolve {
            with_old_image: write.with_old_image,
        }),
        steps.last()->Finish_0 is Ok ==> events.last() == StreamWriteEvent::TablesChecked(false)
            || (events.len() == 5 && events[2]->ItemInserted_0 is Ok && events[3]->PointerEncoded_0
            is Ok && events[4]->PointersInserted_0 is Ok),
        steps.last()->Finish_0 matches Err(error) ==> match events.last() {
            StreamWriteEvent::TablesChecked(_) => false,
            StreamWriteEvent::Resolved(resolution) => match resolution {
                Resolution::KeyFailed(e) => tells_internal(error, "stream item key error: "@ + e@),
                Resolution::StreamNameFailed(e) => tells_internal(
                    error,
                    "stream name error: "@ + e@,
                ),
                Resolution::ImageFailed(e) => tells_internal(
                    error,
                    (if write.is_deleted {
                        "stream delete marker encode error: "@
                    } else {
                        "stream new image encode error: "@
                    }) + e@,
                ),
                Resolution::OldImageFailed(e) => tells_internal(
                    error,
                    "stream old image encode error: "@ + e@,
                ),
                Resolution::Failed(e) => error == e,
                Resolution::Resolved(_) => false,
            },
            StreamWriteEvent::ItemInserted(r) => r == Err::<(), StorageError>(error),
            StreamWriteEvent::PointerEncoded(r) => r == Err::<Vec<u8>, StorageError>(error),
            StreamWriteEvent::PointersInserted(r) => r == Err::<(), StorageError>(error),
        },
{
    let last = events.len() - 1;
    assert(events.len() > 0);
    assert(steps[last] is Perform);
    lemma_stream_write_run(write, events, steps, last);
    assert(stream_write_next(write, steps[last]->state, events[last], steps[last + 1]));
    assert forall|k: int| 0 <= k < last implies stream_write_next(
        write,
        steps[k]->state,
        events[k],
        #[trigger] steps[k + 1],
    ) && steps[k] is Perform by {
        assert(steps[k] is Perform);
    }
    if events.len() > 1 {
        assert(steps[0] is Perform);
        lemma_stream_write_run(write, events, steps, 1);
        assert(stream_write_next(write, steps[0]->state, events[0], steps[1]));
    }
    if events.len() > 3 {
        lemma_stream_write_run(write, events, steps, 3);
        assert(steps[2] is Perform);
        lemma_stream_write_run(write, events, steps, 2);
        assert(stream_write_next(write, steps[2]->state, events[2], steps[3]));
    }
}

/// What is noted of a write follows from what is asked: the table's name, the version,
/// whether it is a delete, where it came from, and the old image where there was an item,
/// for a write of attributes only where that item had any. Nothing is noted for a table
/// without a stream and without an index that follows its items.
pub proof fn law_noted_writes_are_those_asked_for(
    table_info: TableInfo,
    input: WriteStreamEntriesInput<'static>,
    started: (StreamWrite, StreamWriteStep),
    wire: WriteWireStreamEntriesInput<'static>,
    wire_started: (StreamWrite, StreamWriteStep),
)
    requires
        call_ensures(write_stream_entries, (&table_info, input), started),
        call_ensures(write_stream_entries_wire, (&table_info, wire), wire_started),
    ensures
        started.0.table_name@ == table_info.table_name@,
        started.0.is_deleted == input.is_deleted,
        started.0.item_stream_version == input.item_stream_version,
        started.0.with_old_image <==> (input.old_item matches Some(old) && old.attributes@.len()
            > 0),
        started.0.replication is Some <==> input.replication is Some,
        input.replication matches Some(origin) ==> started.0.replication->Some_0@ == origin@,
        wire_started.0.table_name@ == table_info.table_name@,
        wire_started.0.is_deleted == wire.is_deleted,
        wire_started.0.item_stream_version == wire.item_stream_version,
        wire_started.0.with_old_image <==> wire.old_item is Some,
        wire_started.0.replication is Some <==> wire.replication is Some,
        wire.replication matches Some(origin) ==> wire_started.0.replication->Some_0@ == origin@,
        notes_writes(table_info, false) ==> started.1 is Perform && started.1->state
            is CheckingTables && wire_started.1 is Perform && wire_started.1->state
            is CheckingTables,
        !notes_writes(table_info, false) ==> started.1 is Finish && started.1->Finish_0 is Ok
            && wire_started.1 is Finish && wire_started.1->Finish_0 is Ok,
{
}

/// Whether writes to a table are noted follows from its stream and its indexes: those that
/// find expired items do not count, and no index does where writes update them at once.
pub proof fn law_tables_with_streams_or_indexes_are_noted(
    table_info: TableInfo,
    immediate: bool,
    noted: bool,
    noted_by_default: bool,
)
    requires
        call_ensures(should_write_stream_entries_for_gsi_mode, (&table_info, immediate), noted),
        call_ensures(should_write_stream_entries, (&table_info,), noted_by_default),
    ensures
        noted <==> notes_writes(table_info, immediate),
        noted_by_default <==> notes_writes(table_info, false),
{
}

/// The key of an encoded item is read only where every key attribute is there: then it is
/// their values, in their order; otherwise the first that is missing or cannot be read
/// decides the error.
pub proof fn law_wire_keys_are_complete(
    found: Vec<Result<Option<String>, StorageError>>,
    read: Result<Vec<String>, StorageError>,
)
    requires
        call_ensures(wire_key_attributes, (found,), read),
    ensures
        read is Ok <==> forall|i: int|
            0 <= i < found@.len() ==> (#[trigger] found@[i]) is Ok && found@[i]->Ok_0 is Some,
        read matches Ok(values) ==> values@.len() == found@.len() && forall|i: int|
            0 <= i < found@.len() ==> (#[trigger] found@[i])->Ok_0->Some_0 == values@[i],
        read matches Err(e) ==> exists|i: int|
            0 <= i < found@.len() && (forall|j: int|
                0 <= j < i ==> (#[trigger] found@[j]) is Ok && found@[j]->Ok_0 is Some) && match (
            #[trigger] found@[i]) {
                Ok(None) => tells_internal(e, "stream item missing key attributes"@),
                Ok(Some(_)) => false,
                Err(own) => e == own,
            },
{
    if read is Ok {
        let values = read->Ok_0;
        assert forall|i: int| 0 <= i < found@.len() implies (#[trigger] found@[i]) is Ok
            && found@[i]->Ok_0 is Some && found@[i]->Ok_0->Some_0 == values@[i] by {
            assert(found@[i] == Ok::<Option<String>, StorageError>(Some(values@[i])));
        }
    } else {
        let e = read->Err_0;
        let i = choose|i: int| #[trigger] key_attribute_fails(found@, i, e);
        assert(found@[i] is Err || found@[i]->Ok_0 is None);
    }
}

} // verus!
