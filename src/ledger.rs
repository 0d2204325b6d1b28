//! The ledger of account funds: what processing an input or an output does to
//! the funds rows, and the accounting law that ties balances to the items
//! processed.
use vstd::prelude::*;
use crate::common::{NostimintInput, NostimintOutput, is_faucet};
use crate::db::funds_of;
use crate::table::{has_key, index_of, keys_unique, lemma_lookup, map_of_rows, set_row};
use crate::types::Amount;

verus! {

/// Whether an input can be processed: the faucet can always pay, any other
/// account only up to its funds.
pub open spec fn input_accepted(funds: Map<Seq<u8>, Amount>, input: NostimintInput) -> bool {
    is_faucet(input.account@) || input.amount.msats <= funds_of(funds, input.account@)
}

/// The funds of the paying account after an accepted input.
pub open spec fn funds_after_input(funds: Map<Seq<u8>, Amount>, input: NostimintInput) -> int {
    if is_faucet(input.account@) {
        funds_of(funds, input.account@) + input.amount.msats
    } else {
        funds_of(funds, input.account@) - input.amount.msats
    }
}

/// Funds rows `after` result from processing `input` on funds rows `before`.
pub open spec fn input_step(
    before: Seq<(Seq<u8>, Amount)>,
    input: NostimintInput,
    after: Seq<(Seq<u8>, Amount)>,
) -> bool {
    &&& input_accepted(map_of_rows(before), input)
    &&& funds_after_input(map_of_rows(before), input) <= u64::MAX
    &&& after == set_row(
        before,
        input.account@,
        Amount { msats: funds_after_input(map_of_rows(before), input) as u64 },
    )
}

/// Funds rows `after` result from processing `output` on funds rows `before`.
pub open spec fn output_step(
    before: Seq<(Seq<u8>, Amount)>,
    output: NostimintOutput,
    after: Seq<(Seq<u8>, Amount)>,
) -> bool {
    &&& funds_of(map_of_rows(before), output.account@) + output.amount.msats <= u64::MAX
    &&& after == set_row(
        before,
        output.account@,
        Amount {
            msats: (funds_of(map_of_rows(before), output.account@) + output.amount.msats) as u64,
        },
    )
}

/// An input or an output that the ledger processed.
pub enum LedgerItem {
    Input(NostimintInput),
    Output(NostimintOutput),
}

pub open spec fn ledger_step(
    before: Seq<(Seq<u8>, Amount)>,
    item: LedgerItem,
    after: Seq<(Seq<u8>, Amount)>,
) -> bool {
    match item {
        LedgerItem::Input(i) => input_step(before, i, after),
        LedgerItem::Output(o) => output_step(before, o, after),
    }
}

/// What a funds row owes: its amount, unless it is the faucet's.
pub open spec fn owed(row: (Seq<u8>, Amount)) -> int {
    if is_faucet(row.0) {
        0
    } else {
        row.1.msats as int
    }
}

/// The funds of every account but the faucet, summed.
pub open spec fn user_funds(rows: Seq<(Seq<u8>, Amount)>) -> int
    decreases rows.len(),
{
    if rows.len() == 0 {
        0
    } else {
        user_funds(rows.drop_last()) + owed(rows.last())
    }
}

/// What one item adds to the funds owed: an output to an account other than
/// the faucet its amount, an input from such an account minus its amount;
/// items of the faucet's own account add nothing.
pub open spec fn issued(item: LedgerItem) -> int {
    match item {
        LedgerItem::Input(i) => if is_faucet(i.account@) {
            0
        } else {
            -(i.amount.msats as int)
        },
        LedgerItem::Output(o) => if is_faucet(o.account@) {
            0
        } else {
            o.amount.msats as int
        },
    }
}

/// Outputs paid to and inputs spent by accounts other than the faucet.
pub open spec fn net_issued(items: Seq<LedgerItem>) -> int
    decreases items.len(),
{
    if items.len() == 0 {
        0
    } else {
        net_issued(items.drop_last()) + issued(items.last())
    }
}

proof fn lemma_user_funds_update(s: Seq<(Seq<u8>, Amount)>, i: int, row: (Seq<u8>, Amount))
    requires
        0 <= i < s.len(),
    ensures
        user_funds(s.update(i, row)) == user_funds(s) - owed(s[i]) + owed(row),
    decreases s.len(),
{
    let t = s.update(i, row);
    if i == s.len() - 1 {
        assert(t.drop_last() =~= s.drop_last());
    } else {
        assert(t.drop_last() =~= s.drop_last().update(i, row));
        lemma_user_funds_update(s.drop_last(), i, row);
    }
}

proof fn lemma_user_funds_set_row(s: Seq<(Seq<u8>, Amount)>, k: Seq<u8>, v: Amount)
    ensures
        user_funds(set_row(s, k, v)) == user_funds(s) - (if is_faucet(k) {
            0
        } else {
            funds_of(map_of_rows(s), k) as int
        }) + owed((k, v)),
{
    if has_key(s, k) {
        let i = index_of(s, k);
        lemma_user_funds_update(s, i, (k, v));
    } else {
        assert(s.push((k, v)).drop_last() =~= s);
    }
}

/// One processed item changes the funds of the accounts other than the faucet
/// by what it issues.
pub proof fn lemma_ledger_step(
    before: Seq<(Seq<u8>, Amount)>,
    item: LedgerItem,
    after: Seq<(Seq<u8>, Amount)>,
)
    requires
        ledger_step(before, item, after),
    ensures
        user_funds(after) == user_funds(before) + issued(item),
{
    match item {
        LedgerItem::Input(i) => {
            let v = Amount { msats: funds_after_input(map_of_rows(before), i) as u64 };
            lemma_user_funds_set_row(before, i.account@, v);
        },
        LedgerItem::Output(o) => {
            let v = Amount {
                msats: (funds_of(map_of_rows(before), o.account@) + o.amount.msats) as u64,
            };
            lemma_user_funds_set_row(before, o.account@, v);
        },
    }
}

/// Ledger closure: starting from no funds, after any sequence of processed
/// inputs and outputs, the funds of all accounts other than the faucet add up
/// to the outputs paid to those accounts minus the inputs they spent.
pub proof fn lemma_ledger_closure(items: Seq<LedgerItem>, states: Seq<Seq<(Seq<u8>, Amount)>>)
    requires
        states.len() == items.len() + 1,
        states[0].len() == 0,
        forall|k: int| 0 <= k < items.len() ==> ledger_step(states[k], #[trigger] items[k], states[k + 1]),
    ensures
        user_funds(states.last()) == net_issued(items),
    decreases items.len(),
{
    if items.len() == 0 {
    } else {
        let n = items.len() - 1;
        let items0 = items.drop_last();
        let states0 = states.drop_last();
        assert forall|k: int| 0 <= k < items0.len() implies ledger_step(states0[k], #[trigger] items0[k], states0[k + 1]) by {
            assert(items0[k] == items[k]);
        }
        lemma_ledger_closure(items0, states0);
        assert(ledger_step(states[n], items[n], states[n + 1]));
        lemma_ledger_step(states[n], items[n], states[n + 1]);
        assert(states0.last() == states[n]);
    }
}

/// Spending exactly the funds of an account other than the faucet is accepted
/// and leaves it with zero; one unit more is refused.
pub proof fn lemma_spend_boundary(
    before: Seq<(Seq<u8>, Amount)>,
    input: NostimintInput,
    after: Seq<(Seq<u8>, Amount)>,
)
    requires
        keys_unique(before),
        !is_faucet(input.account@),
    ensures
        input.amount.msats == funds_of(map_of_rows(before), input.account@) ==> input_accepted(
            map_of_rows(before),
            input,
        ),
        input.amount.msats == funds_of(map_of_rows(before), input.account@) && input_step(
            before,
            input,
            after,
        ) ==> funds_of(map_of_rows(after), input.account@) == 0,
        input.amount.msats == funds_of(map_of_rows(before), input.account@) + 1 ==> !input_accepted(
            map_of_rows(before),
            input,
        ),
{
    if input.amount.msats == funds_of(map_of_rows(before), input.account@) && input_step(
        before,
        input,
        after,
    ) {
        let k = input.account@;
        let v = Amount { msats: 0 };
        if has_key(before, k) {
            let i = index_of(before, k);
            assert(after[i] == (k, v));
            assert(keys_unique(after)) by {
                assert forall|a: int, b: int|
                    0 <= a < after.len() && 0 <= b < after.len() && a != b implies after[a].0
                    != after[b].0 by {
                    assert(after[a].0 == before[a].0);
                    assert(after[b].0 == before[b].0);
                }
            }
            lemma_lookup(after, i);
        } else {
            assert(after[before.len() as int] == (k, v));
            assert(keys_unique(after)) by {
                assert forall|a: int, b: int|
                    0 <= a < after.len() && 0 <= b < after.len() && a != b implies after[a].0
                    != after[b].0 by {
                    if a < before.len() {
                        assert(after[a] == before[a]);
                    }
                    if b < before.len() {
                        assert(after[b] == before[b]);
                    }
                }
            }
            lemma_lookup(after, before.len() as int);
        }
    }
}

} // verus!
