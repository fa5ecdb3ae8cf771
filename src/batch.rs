//! The outcome of a batch of monitored-item requests, one entry per request.

use vstd::prelude::*;
use vstd::string::StringExecFns;
use crate::status::{is_good, is_good_code, status_code_text, status_text};

verus! {

/// What the server answered for one monitored-item request.
#[derive(Clone, Copy, Debug, PartialEq, Eq, Structural)]
pub struct ItemResult {
    pub status: u32,
    pub item_id: u32,
}

/// The outcome of one request of a batch.
#[derive(Clone, Copy, Debug, PartialEq, Eq, Structural)]
pub enum ItemOutcome {
    /// The server created the monitored item under this id.
    Created { item_id: u32 },
    /// The server refused this request with a status code.
    Rejected { status: u32 },
    /// The server's answer held no entry for this request.
    Missing,
}

/// The outcome of request `i`, read from the server's answer at position `i`
/// alone.
pub open spec fn outcome_at(results: Seq<ItemResult>, i: int) -> ItemOutcome {
    if i < results.len() {
        if is_good_code(results[i].status) {
            ItemOutcome::Created { item_id: results[i].item_id }
        } else {
            ItemOutcome::Rejected { status: results[i].status }
        }
    } else {
        ItemOutcome::Missing
    }
}

/// The outcomes of a batch of `n` requests.
pub open spec fn outcomes_spec(n: nat, results: Seq<ItemResult>) -> Seq<ItemOutcome> {
    Seq::new(n, |i: int| outcome_at(results, i))
}

/// Whether an outcome is a created item.
pub open spec fn is_created(o: ItemOutcome) -> bool {
    o is Created
}

/// How many outcomes of a sequence are created items.
pub open spec fn created_count(outcomes: Seq<ItemOutcome>) -> nat
    decreases outcomes.len(),
{
    if outcomes.len() == 0 {
        0
    } else {
        created_count(outcomes.drop_last()) + if is_created(outcomes.last()) {
            1nat
        } else {
            0nat
        }
    }
}

/// One outcome per request, in the order of the requests: entry `i` comes
/// from the server's entry `i` alone, and a request without an entry is
/// `Missing`. Entries beyond the requests are ignored.
pub fn item_outcomes(n_requests: usize, results: &Vec<ItemResult>) -> (r: Vec<ItemOutcome>)
    ensures
        r@ == outcomes_spec(n_requests as nat, results@),
{
    let mut r: Vec<ItemOutcome> = Vec::new();
    let mut i: usize = 0;
    while i < n_requests
        invariant
            i <= n_requests,
            r@ == outcomes_spec(i as nat, results@),
        decreases n_requests - i,
    {
        let o = if i < results.len() {
            let res = results[i];
            if is_good(res.status) {
                ItemOutcome::Created { item_id: res.item_id }
            } else {
                ItemOutcome::Rejected { status: res.status }
            }
        } else {
            ItemOutcome::Missing
        };
        r.push(o);
        i = i + 1;
        assert(r@ =~= outcomes_spec(i as nat, results@));
    }
    r
}

/// The number of created items among the outcomes.
pub fn count_created(outcomes: &Vec<ItemOutcome>) -> (r: usize)
    ensures
        r == created_count(outcomes@),
{
    let mut n: usize = 0;
    let mut i: usize = 0;
    while i < outcomes.len()
        invariant
            i <= outcomes@.len(),
            n == created_count(outcomes@.subrange(0, i as int)),
            n <= i,
        decreases outcomes@.len() - i,
    {
        assert(outcomes@.subrange(0, i as int + 1).drop_last() =~= outcomes@.subrange(0, i as int));
        if let ItemOutcome::Created { .. } = outcomes[i] {
            n = n + 1;
        }
        i = i + 1;
    }
    assert(outcomes@.subrange(0, outcomes@.len() as int) =~= outcomes@);
    n
}

/// The line that reports the outcome of the request for `topic`.
pub open spec fn outcome_message(topic: Seq<char>, o: ItemOutcome) -> Seq<char> {
    match o {
        ItemOutcome::Created { .. } => "monitoring "@ + topic,
        ItemOutcome::Rejected { status } => "ERROR: could not monitor "@ + topic + ": "@ + status_text(
            status,
        ),
        ItemOutcome::Missing => "ERROR: the server did not answer for "@ + topic,
    }
}

/// Reports the outcome of the request for `topic`, with the name of the
/// status code of a refusal.
pub fn describe_outcome(topic: &str, o: ItemOutcome) -> (r: String)
    ensures
        r@ == outcome_message(topic@, o),
{
    match o {
        ItemOutcome::Created { .. } => String::from_str("monitoring ").concat(topic),
        ItemOutcome::Rejected { status } => {
            let text = status_code_text(status);
            String::from_str("ERROR: could not monitor ").concat(topic).concat(": ").concat(
                text.as_str(),
            )
        },
        ItemOutcome::Missing => String::from_str("ERROR: the server did not answer for ").concat(
            topic,
        ),
    }
}

/// Every request of a batch gets exactly one outcome, in the order of the
/// requests, however many of them fail.
pub proof fn lemma_one_outcome_per_request(n: nat, results: Seq<ItemResult>)
    ensures
        outcomes_spec(n, results).len() == n,
        forall|i: int| 0 <= i < n ==> #[trigger] outcomes_spec(n, results)[i] == outcome_at(results, i),
{
}

/// Changing what the server answered for one request, failing or not, leaves
/// the outcome of every other request of the batch as it was.
pub proof fn lemma_outcomes_independent(
    n: nat,
    results: Seq<ItemResult>,
    j: int,
    changed: ItemResult,
    i: int,
)
    requires
        0 <= j < results.len(),
        0 <= i < n,
        i != j,
    ensures
        outcomes_spec(n, results.update(j, changed))[i] == outcomes_spec(n, results)[i],
{
}

} // verus!
