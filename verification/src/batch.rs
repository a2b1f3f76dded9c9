//! The batch deletion executor's plan: how a list of expired messages is cut
//! into delete calls.

use vstd::prelude::*;

verus! {

/// The most messages that the store takes in one bulk delete.
pub const MAX_BATCH: usize = 100;

/// One call on the message store.
#[derive(Clone, Debug, PartialEq, Eq)]
pub enum DeleteCall {
    /// Delete this one message with the single-message call.
    Single(u64),
    /// Delete these messages, two at least, with one bulk call.
    Bulk(Vec<u64>),
}

impl View for DeleteCall {
    type V = Seq<u64>;

    /// The messages that the call deletes, in order.
    open spec fn view(&self) -> Seq<u64> {
        match self {
            DeleteCall::Single(id) => seq![*id],
            DeleteCall::Bulk(ids) => ids@,
        }
    }
}

/// The number of calls that `n` messages take: `n / 100`, rounded up.
pub open spec fn call_count(n: nat) -> nat {
    ((n + MAX_BATCH - 1) / (MAX_BATCH as int)) as nat
}

/// The `i`-th chunk of `ids`: up to a hundred of them, from the `100 * i`-th
/// on.
pub open spec fn chunk(ids: Seq<u64>, i: int) -> Seq<u64> {
    let start = MAX_BATCH * i;
    let end = if start + MAX_BATCH <= ids.len() {
        start + MAX_BATCH
    } else {
        ids.len() as int
    };
    ids.subrange(start, end)
}

/// Whether `calls` is the plan for deleting `ids`: one call for each chunk,
/// in order, each naming its chunk's messages, and the single-message call
/// exactly for a chunk of one.
pub open spec fn is_delete_plan(calls: Seq<DeleteCall>, ids: Seq<u64>) -> bool {
    &&& calls.len() == call_count(ids.len())
    &&& forall|i: int|
        0 <= i < calls.len() ==> {
            &&& (#[trigger] calls[i])@ == chunk(ids, i)
            &&& (calls[i] is Single <==> chunk(ids, i).len() == 1)
        }
}

/// Cuts `ids` into delete calls.
pub fn delete_calls(ids: &Vec<u64>) -> (calls: Vec<DeleteCall>)
    ensures
        is_delete_plan(calls@, ids@),
{
    let mut calls: Vec<DeleteCall> = Vec::new();
    let mut start: usize = 0;
    while start < ids.len()
        invariant
            start <= ids.len(),
            start == calls.len() * MAX_BATCH || start == ids.len(),
            calls.len() == call_count(start as nat),
            forall|i: int|
                0 <= i < calls.len() ==> {
                    &&& (#[trigger] calls[i])@ == chunk(ids@, i)
                    &&& (calls[i] is Single <==> chunk(ids@, i).len() == 1)
                },
        decreases ids.len() - start,
    {
        let end: usize = if ids.len() - start > MAX_BATCH {
            start + MAX_BATCH
        } else {
            ids.len()
        };
        let ghost n = calls.len() as int;
        assert(start == n * MAX_BATCH);
        assert(ids@.subrange(start as int, end as int) == chunk(ids@, n));
        if end - start == 1 {
            calls.push(DeleteCall::Single(ids[start]));
            assert(calls[n]@ =~= chunk(ids@, n));
        } else {
            let mut batch: Vec<u64> = Vec::new();
            let mut k: usize = start;
            while k < end
                invariant
                    start <= k <= end <= ids.len(),
                    batch@ == ids@.subrange(start as int, k as int),
                decreases end - k,
            {
                batch.push(ids[k]);
                assert(batch@ =~= ids@.subrange(start as int, k + 1));
                k += 1;
            }
            calls.push(DeleteCall::Bulk(batch));
        }
        start = end;
    }
    calls
}

} // verus!
