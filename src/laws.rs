//! Properties of the store that span several operations.
use vstd::prelude::*;

use crate::error::ContractError;
use crate::ledger::{appended, Ledger};
use crate::msg::{QueryMsg, QueryResponse};
use crate::state::{lemma_select_all, picks, selected, selects, Message, Selector};

verus! {

/// Two query results that agree: both the same failure, the same counter
/// value, or lists with the same records in the same order.
pub open spec fn same_answer(
    r1: Result<QueryResponse, ContractError>,
    r2: Result<QueryResponse, ContractError>,
) -> bool {
    match (r1, r2) {
        (Err(a), Err(b)) => a == b,
        (Ok(QueryResponse::CurrentId(a)), Ok(QueryResponse::CurrentId(b))) => a == b,
        (Ok(QueryResponse::Messages(a)), Ok(QueryResponse::Messages(b))) => a.messages@
            == b.messages@,
        _ => false,
    }
}

proof fn lemma_append_chain(states: Seq<Ledger>, ids: Seq<u128>, n: int)
    requires
        states.len() == ids.len() + 1,
        states[0].counter() == Some(0u128),
        states[0].records().len() == 0,
        forall|k: int| 0 <= k < ids.len() ==> appended(states[k], #[trigger] states[k + 1], ids[k]),
        0 <= n <= ids.len(),
    ensures
        states[n].counter() is Some,
        states[n].counter()->Some_0 == n,
        states[n].records().len() == n,
        forall|k: int| 0 <= k < n ==> #[trigger] ids[k] == k,
        forall|k: int| 0 <= k < n ==> #[trigger] states[n].records()[k].id == k,
    decreases n,
{
    if n > 0 {
        lemma_append_chain(states, ids, n - 1);
        assert(appended(states[n - 1], states[(n - 1) + 1], ids[n - 1]));
        assert forall|k: int| 0 <= k < n implies #[trigger] states[n].records()[k].id == k by {
            if k < n - 1 {
                assert(states[n].records()[k] == states[n].records().drop_last()[k]);
            }
        }
    }
}

/// Appending `N` times to a freshly initialized store hands out the
/// identifiers `0, 1, ..., N - 1`, in the order of the appends and each
/// once; the record at position `k` carries identifier `k`, and the counter
/// ends at `N`.
///
/// `states[k + 1]` is the store after the `k`-th successful append, which
/// returned `ids[k]`.
pub proof fn lemma_sequential_ids(states: Seq<Ledger>, ids: Seq<u128>)
    requires
        states.len() == ids.len() + 1,
        states[0].counter() == Some(0u128),
        states[0].records().len() == 0,
        forall|k: int| 0 <= k < ids.len() ==> appended(states[k], #[trigger] states[k + 1], ids[k]),
    ensures
        forall|k: int| 0 <= k < ids.len() ==> #[trigger] ids[k] == k,
        forall|j: int, k: int| 0 <= j < k < ids.len() ==> ids[j] < ids[k],
        forall|k: int|
            0 <= k < ids.len() ==> #[trigger] states.last().records()[k].id == ids[k],
        states.last().records().len() == ids.len(),
        states.last().counter() is Some,
        states.last().counter()->Some_0 == ids.len(),
{
    lemma_append_chain(states, ids, ids.len() as int);
    assert(states.last() == states[ids.len() as int]);
}

/// Asking the same query twice of an unchanged store gives the same answer.
pub proof fn lemma_reads_repeatable(
    l: Ledger,
    q: QueryMsg,
    r1: Result<QueryResponse, ContractError>,
    r2: Result<QueryResponse, ContractError>,
)
    requires
        l.answers(q, r1),
        l.answers(q, r2),
    ensures
        same_answer(r1, r2),
{
}

/// A filtered listing holds exactly the records of the full listing that
/// the filter picks, in the same relative order.
pub proof fn lemma_listing_filters_all(
    l: Ledger,
    sel: Selector,
    all: Result<Vec<Message>, ContractError>,
    some: Result<Vec<Message>, ContractError>,
)
    requires
        l.listed(Selector::All, all),
        l.listed(sel, some),
    ensures
        all is Ok <==> some is Ok,
        all is Ok ==> some->Ok_0@ == all->Ok_0@.filter(picks(sel)),
        all is Ok ==> forall|m: Message|
            #[trigger] some->Ok_0@.contains(m) <==> all->Ok_0@.contains(m) && selects(sel, m),
{
    broadcast use vstd::seq_lib::group_filter_ensures;

    lemma_select_all(l.records());
    if let (Ok(a), Ok(s)) = (all, some) {
        assert forall|m: Message| #[trigger] s@.contains(m) <==> a@.contains(m) && selects(sel, m) by {
            if s@.contains(m) {
                a@.lemma_filter_contains_rev(picks(sel), m);
                let i = choose|i: int| 0 <= i < s@.len() && s@[i] == m;
                assert(picks(sel)(s@[i]));
            }
            if a@.contains(m) && selects(sel, m) {
                let i = choose|i: int| 0 <= i < a@.len() && a@[i] == m;
                assert(picks(sel)(a@[i]));
            }
        }
    }
}

/// In a well-formed store the listing by identifier holds the one record
/// with that identifier, or nothing when there is none.
pub proof fn lemma_listing_by_id(l: Ledger, id: u128)
    requires
        l.wf(),
    ensures
        selected(l.records(), Selector::Id(id)) == if id < l.records().len() {
            seq![l.records()[id as int]]
        } else {
            Seq::<Message>::empty()
        },
{
    lemma_select_id(l.records(), id);
}

proof fn lemma_select_id(s: Seq<Message>, id: u128)
    requires
        forall|i: int| 0 <= i < s.len() ==> #[trigger] s[i].id == i,
    ensures
        selected(s, Selector::Id(id)) == if id < s.len() {
            seq![s[id as int]]
        } else {
            Seq::<Message>::empty()
        },
    decreases s.len(),
{
    reveal(Seq::filter);
    if s.len() > 0 {
        let rest = s.drop_last();
        assert forall|i: int| 0 <= i < rest.len() implies #[trigger] rest[i].id == i by {
            assert(rest[i] == s[i]);
        }
        lemma_select_id(rest, id);
        assert(s.last().id == s.len() - 1);
    }
}

/// A freshly initialized store counts zero and every listing of it is empty.
pub proof fn lemma_fresh_store_is_empty(l: Ledger, sel: Selector)
    requires
        l.wf(),
        l.counter() == Some(0u128),
    ensures
        l.records().len() == 0,
        selected(l.records(), sel) == Seq::<Message>::empty(),
{
    reveal(Seq::filter);
}

} // verus!
