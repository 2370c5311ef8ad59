//! Items, and the errors that storage operations end with.
use vstd::prelude::*;

verus! {

/// One attribute of an item: its name, and its value as DynamoDB JSON.
#[derive(Debug, PartialEq, Eq)]
pub struct Attribute {
    pub name: String,
    pub value: String,
}

/// An item: its attributes, no name twice.
#[derive(Debug, PartialEq, Eq)]
pub struct Item {
    pub attributes: Vec<Attribute>,
}

impl Item {
    /// Whether the item has no attribute.
    pub open spec fn spec_is_empty(&self) -> bool {
        self.attributes@.len() == 0
    }

    /// Whether the item has no attribute.
    #[verifier::when_used_as_spec(spec_is_empty)]
    pub fn is_empty(&self) -> (r: bool)
        ensures
            r == self.spec_is_empty(),
    {
        self.attributes.len() == 0
    }
}

/// Why one action of a transaction kept the transaction from being applied;
/// the code is `None` for an action that did not.
#[derive(Debug, PartialEq, Eq)]
pub struct CancellationReason {
    pub code: String,
    pub item: Option<Item>,
}

/// Why a storage operation failed.
#[derive(Debug, PartialEq, Eq)]
pub enum StorageError {
    /// The request is malformed.
    Validation { message: String },
    /// The store holds what it must not hold, or an inner step failed.
    Internal { message: String },
    /// This backend, as it is configured, cannot do what was asked.
    Unsupported { message: String },
    /// A key was to be given and is empty.
    InvalidOrMissingKey,
    /// The condition of a write did not hold of the stored item.
    ConditionalCheckFailed { item: Option<Item> },
    /// A transaction was not applied; one reason for each of its actions.
    TransactionCanceled { reasons: Vec<CancellationReason> },
    /// There is no table of that name.
    TableNotFound { table_name: String },
    /// A durable read proof no longer describes the stored item.
    GuardConflict { message: String },
    /// The database refused a statement.
    Database { message: String },
    /// An error, with the step in which it came.
    Context { step: String, source: Box<StorageError> },
}

impl StorageError {
    /// Whether this is the validation error with a given message.
    pub open spec fn is_validation(self, text: Seq<char>) -> bool {
        self matches StorageError::Validation { message } && message@ == text
    }

    /// Whether this is the internal error with a given message.
    pub open spec fn is_internal(self, text: Seq<char>) -> bool {
        self matches StorageError::Internal { message } && message@ == text
    }

    /// Whether this is the unsupported error with a given message.
    pub open spec fn is_unsupported(self, text: Seq<char>) -> bool {
        self matches StorageError::Unsupported { message } && message@ == text
    }

    /// Whether this is an error with its step noted.
    pub open spec fn is_context(self, text: Seq<char>, inner: StorageError) -> bool {
        self matches StorageError::Context { step, source } && step@ == text && *source == inner
    }

    /// The validation error with a given message.
    pub fn validation(message: &str) -> (r: StorageError)
        ensures
            r.is_validation(message@),
    {
        StorageError::Validation { message: message.to_owned() }
    }

    /// The internal error with a given message.
    pub fn internal(message: &str) -> (r: StorageError)
        ensures
            r.is_internal(message@),
    {
        StorageError::Internal { message: message.to_owned() }
    }

    /// The unsupported error with a given message.
    pub fn unsupported(message: &str) -> (r: StorageError)
        ensures
            r.is_unsupported(message@),
    {
        StorageError::Unsupported { message: message.to_owned() }
    }

    /// This error with the step noted in which it came.
    pub fn context(self, step: &str) -> (r: StorageError)
        ensures
            r.is_context(step@, self),
    {
        StorageError::Context { step: step.to_owned(), source: Box::new(self) }
    }
}

/// Why an operation on streams failed.
#[derive(Debug, PartialEq, Eq)]
pub enum StreamError {
    /// The request is malformed.
    Validation { message: String },
    /// There is a stream of that name already.
    StreamAlreadyExists { name: String },
    /// There is no stream of that name.
    StreamNotFound { name: String },
    /// There is a cursor of that name already.
    CursorAlreadyExists { name: String },
    /// There is no cursor of that name.
    CursorNotFound { name: String },
    /// The database failed.
    Internal { message: String },
    /// Storage failed.
    Storage(StorageError),
}

impl StreamError {
    /// Whether this is the validation error with a given message.
    pub open spec fn is_validation(self, text: Seq<char>) -> bool {
        self matches StreamError::Validation { message } && message@ == text
    }

    /// Whether this is the internal error with a given message.
    pub open spec fn is_internal(self, text: Seq<char>) -> bool {
        self matches StreamError::Internal { message } && message@ == text
    }

    /// The validation error with a given message.
    pub fn validation(message: &str) -> (r: StreamError)
        ensures
            r.is_validation(message@),
    {
        StreamError::Validation { message: message.to_owned() }
    }
}

/// Whether an error refuses a request, in given words.
pub open spec fn tells_validation(error: StorageError, words: Seq<char>) -> bool {
    error matches StorageError::Validation { message } && message@ == words
}

/// Whether an error is one of the backend itself, in given words.
pub open spec fn tells_internal(error: StorageError, words: Seq<char>) -> bool {
    error matches StorageError::Internal { message } && message@ == words
}

/// Whether an error tells the step at which another came.
pub open spec fn tells_step(error: StorageError, words: Seq<char>, cause: StorageError) -> bool {
    error matches StorageError::Context { step, source } && step@ == words && *source == cause
}

/// Errors keep the words that they are made of, and the error that they tell a step of.
pub proof fn law_errors_keep_their_words(
    words: &str,
    cause: StorageError,
    validation: StorageError,
    internal: StorageError,
    unsupported: StorageError,
    context: StorageError,
    of_stream: StreamError,
)
    requires
        call_ensures(StorageError::validation, (words,), validation),
        call_ensures(StorageError::internal, (words,), internal),
        call_ensures(StorageError::unsupported, (words,), unsupported),
        call_ensures(StorageError::context, (cause, words), context),
        call_ensures(StreamError::validation, (words,), of_stream),
    ensures
        tells_validation(validation, words@),
        tells_internal(internal, words@),
        unsupported matches StorageError::Unsupported { message } && message@ == words@,
        tells_step(context, words@, cause),
        of_stream matches StreamError::Validation { message } && message@ == words@,
{
}

/// An item is empty exactly where it has no attribute.
pub proof fn law_items_are_empty_without_attributes(item: Item, empty: bool)
    requires
        call_ensures(Item::is_empty, (&item,), empty),
    ensures
        empty <==> item.attributes@.len() == 0,
        item.spec_is_empty() <==> item.attributes@.len() == 0,
{
}

} // verus!
