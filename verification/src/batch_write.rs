//! Batches of writes, each of which may fail on its own.
use crate::error::{Item, StorageError};
use vstd::prelude::*;

verus! {

/// A write of a batch: an item to store, or the key of one to remove.
pub enum WriteRequest {
    Put(Item),
    Delete(Item),
}

/// A write that is ready to be performed.
pub struct PreparedBatchOperation {
    pub table_name: String,
    pub request: WriteRequest,
    /// The number of bytes of the item to store, or why it cannot be told.
    pub put_bytes: Result<usize, StorageError>,
}

impl PreparedBatchOperation {
    /// The number of bytes that performing the write stores.
    pub open spec fn stored_bytes(&self) -> nat {
        match (self.request, self.put_bytes) {
            (WriteRequest::Put(_), Ok(bytes)) => bytes as nat,
            _ => 0,
        }
    }

    /// Whether the number of bytes that performing the write stores can be told.
    pub open spec fn is_measured(&self) -> bool {
        self.request is Put ==> self.put_bytes is Ok
    }
}

/// The writes of one table that were not performed.
pub struct UnprocessedWrites {
    pub table_name: String,
    pub requests: Vec<WriteRequest>,
}

/// What performing a batch came to.
pub struct BatchWriteOutcome {
    pub unprocessed: Vec<UnprocessedWrites>,
    pub applied_items: usize,
    pub applied_bytes: usize,
}

/// The number of writes that were performed.
pub open spec fn applied_count(performed: Seq<bool>) -> nat
    decreases performed.len(),
{
    if performed.len() == 0 {
        0
    } else {
        applied_count(performed.drop_last()) + (if performed.last() {
            1nat
        } else {
            0nat
        })
    }
}

/// The number of bytes that the performed writes stored.
pub open spec fn applied_size(
    operations: Seq<PreparedBatchOperation>,
    performed: Seq<bool>,
) -> nat
    decreases operations.len(),
{
    if operations.len() == 0 {
        0
    } else {
        applied_size(operations.drop_last(), performed.drop_last()) + (if performed.last() {
            operations.last().stored_bytes()
        } else {
            0
        })
    }
}

/// The writes of a table that were not performed, in their order.
pub open spec fn failed_writes(
    operations: Seq<PreparedBatchOperation>,
    performed: Seq<bool>,
    table_name: Seq<char>,
) -> Seq<WriteRequest>
    decreases operations.len(),
{
    if operations.len() == 0 {
        Seq::empty()
    } else {
        let before = failed_writes(operations.drop_last(), performed.drop_last(), table_name);
        if !performed.last() && operations.last().table_name@ == table_name {
            before.push(operations.last().request)
        } else {
            before
        }
    }
}

/// The number of writes in all groups.
pub open spec fn group_total(groups: Seq<UnprocessedWrites>) -> nat
    decreases groups.len(),
{
    if groups.len() == 0 {
        0
    } else {
        group_total(groups.drop_last()) + groups.last().requests@.len()
    }
}

/// Whether groups hold the writes that were not performed: one group for each table
/// that has any, with all of the table's in their order.
pub open spec fn groups_failed_writes(
    operations: Seq<PreparedBatchOperation>,
    performed: Seq<bool>,
    groups: Seq<UnprocessedWrites>,
) -> bool {
    &&& forall|g: int, h: int|
        0 <= g < h < groups.len() ==> (#[trigger] groups[g]).table_name@ != (
        #[trigger] groups[h]).table_name@
    &&& forall|g: int|
        0 <= g < groups.len() ==> (#[trigger] groups[g]).requests@.len() > 0
            && groups[g].requests@ == failed_writes(operations, performed, groups[g].table_name@)
    &&& forall|i: int|
        0 <= i < operations.len() && !performed[i] ==> has_group(
            groups,
            (#[trigger] operations[i]).table_name@,
        )
}

/// Whether there is a group of a table.
pub open spec fn has_group(groups: Seq<UnprocessedWrites>, table_name: Seq<char>) -> bool {
    exists|g: int| 0 <= g < groups.len() && (#[trigger] groups[g]).table_name@ == table_name
}

proof fn lemma_group_total_update(
    groups: Seq<UnprocessedWrites>,
    g: int,
    group: UnprocessedWrites,
)
    requires
        0 <= g < groups.len(),
        group.requests@.len() == groups[g].requests@.len() + 1,
    ensures
        group_total(groups.update(g, group)) == group_total(groups) + 1,
    decreases groups.len(),
{
    let updated = groups.update(g, group);
    if g == groups.len() - 1 {
        assert(updated.drop_last() =~= groups.drop_last());
    } else {
        lemma_group_total_update(groups.drop_last(), g, group);
        assert(updated.drop_last() =~= groups.drop_last().update(g, group));
    }
}

proof fn lemma_no_group_no_writes(
    operations: Seq<PreparedBatchOperation>,
    performed: Seq<bool>,
    groups: Seq<UnprocessedWrites>,
    table_name: Seq<char>,
)
    requires
        performed.len() == operations.len(),
        !has_group(groups, table_name),
        forall|i: int|
            0 <= i < operations.len() && !performed[i] ==> has_group(
                groups,
                (#[trigger] operations[i]).table_name@,
            ),
    ensures
        failed_writes(operations, performed, table_name) == Seq::<WriteRequest>::empty(),
    decreases operations.len(),
{
    if operations.len() > 0 {
        assert(has_group(groups, operations.last().table_name@) || performed.last());
        assert forall|i: int|
            0 <= i < operations.drop_last().len() && !performed.drop_last()[i] implies has_group(
            groups,
            (#[trigger] operations.drop_last()[i]).table_name@,
        ) by {
            assert(operations.drop_last()[i] == operations[i]);
        }
        lemma_no_group_no_writes(
            operations.drop_last(),
            performed.drop_last(),
            groups,
            table_name,
        );
    }
}

fn find_group(groups: &Vec<UnprocessedWrites>, table_name: &String) -> (r: Option<usize>)
    ensures
        match r {
            Some(g) => g < groups@.len() && groups@[g as int].table_name@ == table_name@,
            None => !has_group(groups@, table_name@),
        },
{
    let mut g: usize = 0;
    while g < groups.len()
        invariant
            g <= groups@.len(),
            forall|h: int| 0 <= h < g ==> (#[trigger] groups@[h]).table_name@ != table_name@,
        decreases groups@.len() - g,
    {
        if groups[g].table_name == *table_name {
            return Some(g);
        }
        g = g + 1;
    }
    None
}

fn add_unprocessed(
    groups: Vec<UnprocessedWrites>,
    table_name: String,
    request: WriteRequest,
    Ghost(operations): Ghost<Seq<PreparedBatchOperation>>,
    Ghost(performed): Ghost<Seq<bool>>,
) -> (r: Vec<UnprocessedWrites>)
    requires
        operations.len() > 0,
        performed.len() == operations.len(),
        !performed.last(),
        operations.last().table_name@ == table_name@,
        operations.last().request == request,
        groups_failed_writes(operations.drop_last(), performed.drop_last(), groups@),
    ensures
        groups_failed_writes(operations, performed, r@),
        group_total(r@) == group_total(groups@) + 1,
{
    let ghost shorter = operations.drop_last();
    let ghost before = groups@;
    let mut groups = groups;
    match find_group(&groups, &table_name) {
        Some(g) => {
            let mut group = groups.remove(g);
            group.requests.push(request);
            groups.insert(g, group);
            proof {
                assert(groups@ =~= before.update(g as int, group));
                lemma_group_total_update(before, g as int, group);
                assert forall|h: int| 0 <= h < groups@.len() implies (
                #[trigger] groups@[h]).requests@.len() > 0 && groups@[h].requests@
                    == failed_writes(operations, performed, groups@[h].table_name@) by {
                    assert(before[h].requests@ == failed_writes(
                        shorter,
                        performed.drop_last(),
                        before[h].table_name@,
                    ));
                    if h == g {
                        assert(groups@[h].table_name@ == before[h].table_name@);
                    } else {
                        assert(before[h].table_name@ != before[g as int].table_name@);
                    }
                }
                assert forall|i: int| 0 <= i < operations.len() && !performed[i] implies has_group(
                    groups@,
                    (#[trigger] operations[i]).table_name@,
                ) by {
                    if i < shorter.len() {
                        assert(shorter[i] == operations[i]);
                        assert(has_group(before, shorter[i].table_name@));
                        let h = choose|h: int|
                            0 <= h < before.len() && (#[trigger] before[h]).table_name@
                                == shorter[i].table_name@;
                        assert(groups@[h].table_name@ == before[h].table_name@);
                    } else {
                        assert(groups@[g as int].table_name@ == operations[i].table_name@);
                    }
                }
            }
            groups
        },
        None => {
            proof {
                lemma_no_group_no_writes(shorter, performed.drop_last(), before, table_name@);
            }
            let mut requests: Vec<WriteRequest> = Vec::new();
            requests.push(request);
            groups.push(UnprocessedWrites { table_name, requests });
            proof {
                assert(groups@.drop_last() =~= before);
                let last = groups@.len() - 1;
                assert(groups@[last].requests@ =~= Seq::<WriteRequest>::empty().push(request));
                assert forall|h: int| 0 <= h < groups@.len() implies (
                #[trigger] groups@[h]).requests@.len() > 0 && groups@[h].requests@
                    == failed_writes(operations, performed, groups@[h].table_name@) by {
                    if h < last {
                        assert(groups@[h] == before[h]);
                        assert(before[h].table_name@ != table_name@);
                    }
                }
                assert forall|i: int| 0 <= i < operations.len() && !performed[i] implies has_group(
                    groups@,
                    (#[trigger] operations[i]).table_name@,
                ) by {
                    if i < shorter.len() {
                        assert(shorter[i] == operations[i]);
                        assert(has_group(before, shorter[i].table_name@));
                        let h = choose|h: int|
                            0 <= h < before.len() && (#[trigger] before[h]).table_name@
                                == shorter[i].table_name@;
                        assert(groups@[h] == before[h]);
                    } else {
                        assert(groups@[last].table_name@ == operations[i].table_name@);
                    }
                }
                assert forall|g: int, h: int| 0 <= g < h < groups@.len() implies (
                #[trigger] groups@[g]).table_name@ != (#[trigger] groups@[h]).table_name@ by {
                    if h < last {
                        assert(before[g].table_name@ != before[h].table_name@);
                    } else {
                        assert(before[g].table_name@ != table_name@);
                    }
                }
            }
            groups
        },
    }
}

/// Whether `e` is why the size of a performed write could not be told, for the first
/// such write.
pub open spec fn unmeasured(
    operations: Seq<PreparedBatchOperation>,
    performed: Seq<bool>,
    i: int,
    e: StorageError,
) -> bool {
    &&& 0 <= i < operations.len()
    &&& performed[i] && operations[i].request is Put
    &&& operations[i].put_bytes == Err::<usize, StorageError>(e)
    &&& forall|j: int|
        0 <= j < i && performed[j] ==> (#[trigger] operations[j]).is_measured()
}

/// Whether `outcome` is what performing a batch came to.
pub open spec fn batch_outcome(
    operations: Seq<PreparedBatchOperation>,
    performed: Seq<bool>,
    outcome: BatchWriteOutcome,
) -> bool {
    &&& groups_failed_writes(operations, performed, outcome.unprocessed@)
    &&& group_total(outcome.unprocessed@) + outcome.applied_items == operations.len()
    &&& outcome.applied_items == applied_count(performed)
    &&& outcome.applied_bytes == applied_size(operations, performed)
}

/// What performing a batch came to, from whether each of its writes was performed: those
/// that were not are told to be unprocessed.
pub fn batch_write_item(
    operations: Vec<PreparedBatchOperation>,
    performed: &Vec<bool>,
) -> (r: Result<BatchWriteOutcome, StorageError>)
    requires
        performed@.len() == operations@.len(),
        applied_size(operations@, performed@) <= usize::MAX,
    ensures
        match r {
            Ok(outcome) => batch_outcome(operations@, performed@, outcome) && forall|i: int|
                0 <= i < operations@.len() && performed@[i] ==> (
                #[trigger] operations@[i]).is_measured(),
            Err(e) => exists|i: int| #[trigger] unmeasured(operations@, performed@, i, e),
        },
{
    let ghost given = operations@;
    let mut left = operations;
    let n: usize = left.len();
    let mut unprocessed: Vec<UnprocessedWrites> = Vec::new();
    let mut applied_items: usize = 0;
    let mut applied_bytes: usize = 0;
    let mut i: usize = 0;
    while i < n
        invariant
            i <= n == given.len() == performed@.len(),
            given == operations@,
            left@ == given.skip(i as int),
            applied_size(given, performed@) <= usize::MAX,
            groups_failed_writes(
                given.take(i as int),
                performed@.take(i as int),
                unprocessed@,
            ),
            group_total(unprocessed@) + applied_items == i,
            applied_items == applied_count(performed@.take(i as int)),
            applied_bytes == applied_size(given.take(i as int), performed@.take(i as int)),
            forall|j: int|
                0 <= j < i && performed@[j] ==> (#[trigger] given[j]).is_measured(),
        decreases n - i,
    {
        let operation = left.remove(0);
        let ghost now = given.take(i + 1);
        let ghost done = performed@.take(i + 1);
        proof {
            assert(operation == given[i as int]);
            assert(left@ =~= given.skip(i + 1));
            assert(now.drop_last() =~= given.take(i as int));
            assert(done.drop_last() =~= performed@.take(i as int));
            assert(now.last() == operation);
            assert(done.last() == performed@[i as int]);
        }
        if performed[i] {
            proof {
                lemma_groups_keep(now, done, unprocessed@);
                lemma_applied_size_prefix(given, performed@, i + 1);
            }
            match operation.request {
                WriteRequest::Put(_) => match operation.put_bytes {
                    Ok(bytes) => {
                        applied_items = applied_items + 1;
                        applied_bytes = applied_bytes + bytes;
                    },
                    Err(e) => {
                        assert(unmeasured(given, performed@, i as int, e));
                        return Err(e);
                    },
                },
                WriteRequest::Delete(_) => {
                    applied_items = applied_items + 1;
                },
            }
        } else {
            unprocessed =
            add_unprocessed(
                unprocessed,
                operation.table_name,
                operation.request,
                Ghost(now),
                Ghost(done),
            );
        }
        i = i + 1;
    }
    assert(given.take(n as int) =~= given);
    assert(performed@.take(n as int) =~= performed@);
    Ok(BatchWriteOutcome { unprocessed, applied_items, applied_bytes })
}

proof fn lemma_groups_keep(
    operations: Seq<PreparedBatchOperation>,
    performed: Seq<bool>,
    groups: Seq<UnprocessedWrites>,
)
    requires
        operations.len() > 0,
        performed.len() == operations.len(),
        performed.last(),
        groups_failed_writes(operations.drop_last(), performed.drop_last(), groups),
    ensures
        groups_failed_writes(operations, performed, groups),
{
    assert forall|i: int| 0 <= i < operations.len() && !performed[i] implies has_group(
        groups,
        (#[trigger] operations[i]).table_name@,
    ) by {
        assert(operations.drop_last()[i] == operations[i]);
    }
}

proof fn lemma_applied_size_prefix(
    operations: Seq<PreparedBatchOperation>,
    performed: Seq<bool>,
    n: int,
)
    requires
        performed.len() == operations.len(),
        0 <= n <= operations.len(),
    ensures
        applied_size(operations.take(n), performed.take(n)) <= applied_size(operations, performed),
    decreases operations.len() - n,
{
    if n < operations.len() {
        lemma_applied_size_prefix(operations, performed, n + 1);
        assert(operations.take(n + 1).drop_last() =~= operations.take(n));
        assert(performed.take(n + 1).drop_last() =~= performed.take(n));
    } else {
        assert(operations.take(n) =~= operations);
        assert(performed.take(n) =~= performed);
    }
}

/// Every write of a batch is either performed or told to be unprocessed: nothing is told
/// to be unprocessed exactly where all writes were performed.
pub proof fn law_every_write_is_accounted_for(
    operations: Seq<PreparedBatchOperation>,
    performed: Seq<bool>,
    outcome: BatchWriteOutcome,
)
    requires
        performed.len() == operations.len(),
        batch_outcome(operations, performed, outcome),
    ensures
        outcome.unprocessed@.len() == 0 <==> forall|i: int|
            0 <= i < performed.len() ==> #[trigger] performed[i],
        outcome.applied_items + group_total(outcome.unprocessed@) == operations.len(),
{
    if outcome.unprocessed@.len() == 0 {
        assert forall|i: int| 0 <= i < performed.len() implies #[trigger] performed[i] by {
            if !performed[i] {
                assert(has_group(outcome.unprocessed@, operations[i].table_name@));
            }
        }
    } else {
        if forall|i: int| 0 <= i < performed.len() ==> #[trigger] performed[i] {
            lemma_all_applied(performed);
            let first = outcome.unprocessed@[0];
            assert(first.requests@.len() > 0);
            lemma_group_total_positive(outcome.unprocessed@);
        }
    }
}

proof fn lemma_all_applied(performed: Seq<bool>)
    requires
        forall|i: int| 0 <= i < performed.len() ==> #[trigger] performed[i],
    ensures
        applied_count(performed) == performed.len(),
    decreases performed.len(),
{
    if performed.len() > 0 {
        assert forall|i: int| 0 <= i < performed.drop_last().len() implies #[trigger] performed.drop_last()[i] by {
            assert(performed[i]);
        }
        lemma_all_applied(performed.drop_last());
        assert(performed[performed.len() - 1]);
    }
}

proof fn lemma_group_total_positive(groups: Seq<UnprocessedWrites>)
    requires
        groups.len() > 0,
        groups[0].requests@.len() > 0,
    ensures
        group_total(groups) > 0,
    decreases groups.len(),
{
    if groups.len() > 1 {
        lemma_group_total_positive(groups.drop_last());
    }
}

/// What a batch answers: the writes that were not performed, where there are any.
pub fn batch_write_response(outcome: BatchWriteOutcome) -> (r: Option<Vec<UnprocessedWrites>>)
    ensures
        r == (if outcome.unprocessed@.len() == 0 {
            None
        } else {
            Some(outcome.unprocessed)
        }),
{
    if outcome.unprocessed.len() == 0 {
        None
    } else {
        Some(outcome.unprocessed)
    }
}

} // verus!
