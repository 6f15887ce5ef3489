use vstd::prelude::*;
use vstd::map::*;
use crate::error::LedgerError;
use crate::ledger::{Ledger, register_outcome};
use crate::transfer::transfer_outcome;

verus! {

/// In every state satisfying the ledger invariant — which genesis
/// establishes and every operation's contract preserves — the balances of
/// all accounts sum exactly to the total supply: no operation creates or
/// destroys value.
pub proof fn lemma_supply_conserved(l: Ledger)
    requires
        l.inv(),
    ensures
        crate::ledger::sum_of(l.accounts@) == l.total_supply as int,
{
}

/// No balance is ever observable below zero: balances live in an unsigned
/// type, and every decrement is checked before it happens.
pub proof fn lemma_balance_never_negative(l: Ledger, id: Seq<char>)
    ensures
        l.balance(id) >= 0,
{
}

/// Registering an identifier twice leaves exactly the ledger of registering
/// it once — in particular the same balance for that identifier.
pub proof fn lemma_register_idempotent(m: Map<Seq<char>, u128>, id: Seq<char>)
    ensures
        register_outcome(register_outcome(m, id), id) == register_outcome(m, id),
{
    if !m.dom().contains(id) {
        assert(register_outcome(m, id).dom().contains(id));
    }
}

/// A transfer of `n` from `a` to `b` followed by a transfer of `n` from `b`
/// back to `a` — both valid — restores every balance exactly.
pub proof fn lemma_transfer_round_trip(m: Map<Seq<char>, u128>, a: Seq<char>, b: Seq<char>, n: u128)
    requires
        a != b,
        m.dom().contains(a),
        m.dom().contains(b),
        n <= m[a],
        m[b] + n <= u128::MAX,
    ensures
        transfer_outcome(transfer_outcome(m, a, b, n), b, a, n) == m,
{
    let m1 = transfer_outcome(m, a, b, n);
    assert(m1[a] == (m[a] - n) as u128);
    assert(m1[b] == (m[b] + n) as u128);
    let m2 = transfer_outcome(m1, b, a, n);
    assert_maps_equal!(m2, m);
}

/// A transfer from an account to itself is refused as invalid, whatever the
/// amount and whatever the ledger holds.
pub proof fn lemma_self_transfer_rejected(l: Ledger, a: Seq<char>, n: u128)
    ensures
        l.transfer_error(a, a, n) == Some(LedgerError::InvalidTransfer),
{
}

} // verus!
