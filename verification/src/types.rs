//! Values that statements and machines speak of.
use vstd::prelude::*;

verus! {

/// How long the rows of a stream are kept.
#[derive(Clone, Copy, Debug, PartialEq, Eq, Structural)]
pub enum StreamRetentionDuration {
    Forever,
    FiniteHours(u16),
}

impl StreamRetentionDuration {
    /// The number that stands for the duration: its hours, or -1.
    pub open spec fn wire_value(self) -> int {
        match self {
            StreamRetentionDuration::Forever => -1,
            StreamRetentionDuration::FiniteHours(hours) => hours as int,
        }
    }

    /// Whether rows are kept at least as long as under another duration.
    pub open spec fn covers(self, other: StreamRetentionDuration) -> bool {
        match (self, other) {
            (StreamRetentionDuration::Forever, _) => true,
            (_, StreamRetentionDuration::Forever) => false,
            (
                StreamRetentionDuration::FiniteHours(a),
                StreamRetentionDuration::FiniteHours(b),
            ) => a >= b,
        }
    }

    /// The number that stands for the duration.
    pub fn as_hours_wire_value(self) -> (r: i64)
        ensures
            r == self.wire_value(),
    {
        match self {
            StreamRetentionDuration::Forever => -1,
            StreamRetentionDuration::FiniteHours(hours) => hours as i64,
        }
    }

    /// How long an item's stream is kept: as long as its table's stream, or longer
    /// where the item asks for it.
    pub fn effective_item_retention(
        table_retention: StreamRetentionDuration,
        requested_retention: StreamRetentionDuration,
    ) -> (r: StreamRetentionDuration)
        ensures
            r == (if requested_retention.covers(table_retention) {
                requested_retention
            } else {
                table_retention
            }),
    {
        match (table_retention, requested_retention) {
            (_, StreamRetentionDuration::Forever) => requested_retention,
            (StreamRetentionDuration::Forever, _) => table_retention,
            (
                StreamRetentionDuration::FiniteHours(table),
                StreamRetentionDuration::FiniteHours(requested),
            ) => if requested >= table {
                requested_retention
            } else {
                table_retention
            },
        }
    }
}

/// What a row of a stream holds.
#[derive(Clone, Copy, Debug, PartialEq, Eq, Structural)]
pub enum StreamDataType {
    Text,
    DynamoDbJson,
    StreamPointer,
    DeleteMarker,
}

impl StreamDataType {
    /// The number that stands for the type.
    pub open spec fn spec_code(self) -> i32 {
        match self {
            StreamDataType::Text => 0,
            StreamDataType::DynamoDbJson => 1,
            StreamDataType::StreamPointer => 2,
            StreamDataType::DeleteMarker => 3,
        }
    }

    /// The number that stands for the type.
    pub fn code(self) -> (r: i32)
        ensures
            r == self.spec_code(),
    {
        match self {
            StreamDataType::Text => 0,
            StreamDataType::DynamoDbJson => 1,
            StreamDataType::StreamPointer => 2,
            StreamDataType::DeleteMarker => 3,
        }
    }

    /// The type that a number stands for; one that stands for none is read as text.
    pub fn from_code(code: i32) -> (r: StreamDataType)
        ensures
            r.spec_code() == code || (r == StreamDataType::Text && forall|t: StreamDataType|
                #[trigger] t.spec_code() != code),
    {
        match code {
            1 => StreamDataType::DynamoDbJson,
            2 => StreamDataType::StreamPointer,
            3 => StreamDataType::DeleteMarker,
            _ => StreamDataType::Text,
        }
    }
}

/// Which way a stream is read.
#[derive(Clone, Copy, Debug, PartialEq, Eq, Structural)]
pub enum ReadDirection {
    Forward,
    Backward,
}

/// Whether and how a table has a stream.
#[derive(Clone, Copy, Debug, PartialEq, Eq, Structural)]
pub struct StreamSpecification {
    pub stream_enabled: bool,
}

/// What a key attribute is for.
#[derive(Clone, Copy, Debug, PartialEq, Eq, Structural)]
pub enum KeyType {
    Hash,
    Range,
}

/// An attribute of a key.
pub struct KeySchemaElement {
    pub attribute_name: String,
    pub key_type: KeyType,
}

/// Which attributes an index holds beside its keys.
pub enum Projection {
    All,
    KeysOnly,
    Selected(Vec<String>),
}

/// A global secondary index; one of its kind finds items whose time to live has passed.
pub struct GlobalSecondaryIndex {
    pub index_name: String,
    pub key_schema: Vec<KeySchemaElement>,
    pub projection: Projection,
    pub is_ttl_index: bool,
}

/// The type of a key attribute.
#[derive(Clone, Copy, Debug, PartialEq, Eq, Structural)]
pub enum KeyAttributeType {
    S,
    N,
    B,
}

/// An attribute that keys or indexes use.
pub struct AttributeDefinition {
    pub attribute_name: String,
    pub attribute_type: KeyAttributeType,
}

/// What is known of a table.
pub struct TableInfo {
    pub table_name: String,
    pub created_at: i64,
    pub attribute_definitions: Vec<AttributeDefinition>,
    pub key_schema: Vec<KeySchemaElement>,
    pub global_secondary_indexes: Option<Vec<GlobalSecondaryIndex>>,
    pub stream_specification: Option<StreamSpecification>,
    pub deletion_protection_enabled: bool,
    pub table_stream_duration: StreamRetentionDuration,
    pub default_item_stream_duration: StreamRetentionDuration,
    pub table_size_bytes: i64,
    pub item_count: i64,
}

impl TableInfo {
    /// Whether the table has a stream of its own.
    pub open spec fn stream_enabled(&self) -> bool {
        self.stream_specification matches Some(spec) && spec.stream_enabled
    }

    /// Whether the table has an index that follows its items.
    pub open spec fn has_index(&self) -> bool {
        self.global_secondary_indexes matches Some(indexes) && exists|i: int|
            0 <= i < indexes@.len() && !(#[trigger] indexes@[i]).is_ttl_index
    }
}

/// The state of a table.
#[derive(Clone, Copy, Debug, PartialEq, Eq, Structural)]
pub enum TableStatus {
    Creating,
    Updating,
    Deleting,
    Active,
}

impl TableStatus {
    /// The name of the state.
    pub open spec fn spec_name(self) -> Seq<char> {
        match self {
            TableStatus::Creating => "CREATING"@,
            TableStatus::Updating => "UPDATING"@,
            TableStatus::Deleting => "DELETING"@,
            TableStatus::Active => "ACTIVE"@,
        }
    }

    /// The name of the state.
    pub fn name(self) -> (r: &'static str)
        ensures
            r@ == self.spec_name(),
    {
        match self {
            TableStatus::Creating => "CREATING",
            TableStatus::Updating => "UPDATING",
            TableStatus::Deleting => "DELETING",
            TableStatus::Active => "ACTIVE",
        }
    }
}

} // verus!
