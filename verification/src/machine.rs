//! The shape of an operation that alternates decisions with work on the database.
use vstd::prelude::*;

verus! {

/// What a machine does next: it asks for an action and waits, in a new state, for
/// what came of it; or it ends with a result.
pub enum Step<S, A, R> {
    Perform { state: S, action: A },
    Finish(R),
}

} // verus!
