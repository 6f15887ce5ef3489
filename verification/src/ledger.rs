use vstd::prelude::*;
use vstd::map::*;
use crate::account::AccountId;
use crate::error::LedgerError;
use crate::event::Event;
use crate::metadata::TokenMetadata;

verus! {

/// One row of the ledger: an account and the balance it holds.
#[derive(Debug)]
pub struct AccountEntry {
    pub id: AccountId,
    pub balance: u128,
}

/// Whether some entry of `s` carries the identifier `id`.
pub open spec fn has_id(s: Seq<AccountEntry>, id: Seq<char>) -> bool {
    exists|i: int| 0 <= i < s.len() && s[i].id@ == id
}

/// The index of the entry carrying `id`; meaningful only under [`has_id`]
/// with unique identifiers.
pub open spec fn index_of(s: Seq<AccountEntry>, id: Seq<char>) -> int {
    choose|i: int| 0 <= i < s.len() && s[i].id@ == id
}

/// The balance recorded for `id`, or zero when no entry carries it.
pub open spec fn balance_in(s: Seq<AccountEntry>, id: Seq<char>) -> u128 {
    if has_id(s, id) {
        s[index_of(s, id)].balance
    } else {
        0
    }
}

/// No two entries carry the same identifier.
pub open spec fn unique_ids(s: Seq<AccountEntry>) -> bool {
    forall|i: int, j: int| 0 <= i < j < s.len() ==> s[i].id@ != s[j].id@
}

/// The sum of all recorded balances, as an unbounded integer.
pub open spec fn sum_of(s: Seq<AccountEntry>) -> int
    decreases s.len(),
{
    if s.len() == 0 {
        0
    } else {
        sum_of(s.drop_last()) + s.last().balance
    }
}

/// The account-balance ledger: every registered account with its balance,
/// the fixed total supply, and the storage calibration taken at genesis.
pub struct Ledger {
    pub accounts: Vec<AccountEntry>,
    pub total_supply: u128,
    pub bytes_for_longest_account_id: u64,
    pub metadata: Option<TokenMetadata>,
}

impl View for Ledger {
    type V = Map<Seq<char>, u128>;

    /// The ledger as a mapping from registered identifiers to balances.
    /// Absence from the domain means "not registered", which is distinct
    /// from "registered with zero balance".
    open spec fn view(&self) -> Map<Seq<char>, u128> {
        Map::new(
            |id: Seq<char>| has_id(self.accounts@, id),
            |id: Seq<char>| balance_in(self.accounts@, id),
        )
    }
}

impl Ledger {
    /// Whether `id` has an entry in the ledger.
    pub open spec fn registered(self, id: Seq<char>) -> bool {
        has_id(self.accounts@, id)
    }

    /// The balance of `id`, taking unregistered accounts to hold zero.
    pub open spec fn balance(self, id: Seq<char>) -> u128 {
        balance_in(self.accounts@, id)
    }

    /// Well-formed entries: no identifier occurs twice.
    pub open spec fn entries_wf(self) -> bool {
        unique_ids(self.accounts@)
    }

    /// The ledger invariant: identifiers are unique and the balances sum
    /// exactly to the total supply. Every operation that leaves an
    /// externally observable state preserves it.
    pub open spec fn inv(self) -> bool {
        &&& unique_ids(self.accounts@)
        &&& sum_of(self.accounts@) == self.total_supply as int
    }
}

/// What a registration leaves behind: a fresh zero-balance entry for an
/// absent identifier, and the ledger untouched for a present one.
pub open spec fn register_outcome(m: Map<Seq<char>, u128>, id: Seq<char>) -> Map<Seq<char>, u128> {
    if m.dom().contains(id) {
        m
    } else {
        m.insert(id, 0u128)
    }
}

pub proof fn lemma_index_of_unique(s: Seq<AccountEntry>, id: Seq<char>, i: int)
    requires
        unique_ids(s),
        0 <= i < s.len(),
        s[i].id@ == id,
    ensures
        has_id(s, id),
        index_of(s, id) == i,
        balance_in(s, id) == s[i].balance,
{
    assert(has_id(s, id));
    let j = index_of(s, id);
    assert(0 <= j < s.len() && s[j].id@ == id);
    if i < j {
        assert(s[i].id@ != s[j].id@);
    } else if j < i {
        assert(s[j].id@ != s[i].id@);
    }
}

proof fn lemma_sum_update(s: Seq<AccountEntry>, i: int, e: AccountEntry)
    requires
        0 <= i < s.len(),
    ensures
        sum_of(s.update(i, e)) == sum_of(s) - s[i].balance + e.balance,
    decreases s.len(),
{
    let t = s.update(i, e);
    if i == s.len() - 1 {
        assert(t.drop_last() =~= s.drop_last());
        assert(t.last() == e);
    } else {
        lemma_sum_update(s.drop_last(), i, e);
        assert(t.drop_last() =~= s.drop_last().update(i, e));
        assert(t.last() == s.last());
    }
}

proof fn lemma_sum_push(s: Seq<AccountEntry>, e: AccountEntry)
    ensures
        sum_of(s.push(e)) == sum_of(s) + e.balance,
{
    assert(s.push(e).drop_last() =~= s);
    assert(s.push(e).last() == e);
}

proof fn lemma_sum_nonneg(s: Seq<AccountEntry>)
    ensures
        sum_of(s) >= 0,
    decreases s.len(),
{
    if s.len() > 0 {
        lemma_sum_nonneg(s.drop_last());
    }
}

proof fn lemma_sum_at_least(s: Seq<AccountEntry>, i: int)
    requires
        0 <= i < s.len(),
    ensures
        sum_of(s) >= s[i].balance,
    decreases s.len(),
{
    if i == s.len() - 1 {
        lemma_sum_nonneg(s.drop_last());
    } else {
        lemma_sum_at_least(s.drop_last(), i);
        assert(s.drop_last()[i] == s[i]);
    }
}

/// Two distinct entries together never exceed the whole sum: the ground for
/// ruling arithmetic overflow out of transfers.
pub proof fn lemma_sum_two_entries(s: Seq<AccountEntry>, i: int, j: int)
    requires
        0 <= i < s.len(),
        0 <= j < s.len(),
        i != j,
    ensures
        sum_of(s) >= s[i].balance + s[j].balance,
    decreases s.len(),
{
    let hi = if i > j { i } else { j };
    let lo = if i > j { j } else { i };
    if hi == s.len() - 1 {
        lemma_sum_at_least(s.drop_last(), lo);
        assert(s.drop_last()[lo] == s[lo]);
    } else {
        lemma_sum_two_entries(s.drop_last(), i, j);
        assert(s.drop_last()[i] == s[i]);
        assert(s.drop_last()[j] == s[j]);
    }
}

/// The effect of replacing the entry at `i` by one with the same identifier:
/// registration is untouched, only that identifier's balance moves, and the
/// sum shifts by the difference.
pub proof fn lemma_update_entry(s: Seq<AccountEntry>, i: int, e: AccountEntry)
    requires
        unique_ids(s),
        0 <= i < s.len(),
        e.id@ == s[i].id@,
    ensures
        unique_ids(s.update(i, e)),
        sum_of(s.update(i, e)) == sum_of(s) - s[i].balance + e.balance,
        forall|id: Seq<char>| has_id(s.update(i, e), id) == has_id(s, id),
        balance_in(s.update(i, e), e.id@) == e.balance,
        forall|id: Seq<char>| id != e.id@ ==> balance_in(s.update(i, e), id) == balance_in(s, id),
{
    let t = s.update(i, e);
    assert(forall|k: int| 0 <= k < t.len() ==> t[k].id@ == s[k].id@);
    lemma_sum_update(s, i, e);
    assert forall|id: Seq<char>| has_id(t, id) == has_id(s, id) by {
        if has_id(t, id) {
            let k = choose|k: int| 0 <= k < t.len() && t[k].id@ == id;
            assert(s[k].id@ == id);
        }
        if has_id(s, id) {
            let k = choose|k: int| 0 <= k < s.len() && s[k].id@ == id;
            assert(t[k].id@ == id);
        }
    }
    lemma_index_of_unique(t, e.id@, i);
    assert forall|id: Seq<char>| id != e.id@ implies balance_in(t, id) == balance_in(s, id) by {
        if has_id(s, id) {
            let k = choose|k: int| 0 <= k < s.len() && s[k].id@ == id;
            lemma_index_of_unique(s, id, k);
            lemma_index_of_unique(t, id, k);
        }
    }
}

/// The effect of appending an entry with a fresh identifier: it becomes
/// registered with its balance, everything else is untouched, and the sum
/// grows by that balance.
pub proof fn lemma_push_entry(s: Seq<AccountEntry>, e: AccountEntry)
    requires
        unique_ids(s),
        !has_id(s, e.id@),
    ensures
        unique_ids(s.push(e)),
        sum_of(s.push(e)) == sum_of(s) + e.balance,
        forall|id: Seq<char>| has_id(s.push(e), id) == (has_id(s, id) || id == e.id@),
        balance_in(s.push(e), e.id@) == e.balance,
        forall|id: Seq<char>| id != e.id@ ==> balance_in(s.push(e), id) == balance_in(s, id),
{
    let t = s.push(e);
    assert(forall|k: int| 0 <= k < s.len() ==> t[k] == s[k]);
    assert(t[s.len() as int] == e);
    assert forall|i: int, j: int| 0 <= i < j < t.len() implies t[i].id@ != t[j].id@ by {
        if j < s.len() {
            assert(t[i] == s[i] && t[j] == s[j]);
        } else {
            assert(t[j] == e);
            assert(t[i] == s[i]);
        }
    }
    lemma_sum_push(s, e);
    assert forall|id: Seq<char>| has_id(t, id) == (has_id(s, id) || id == e.id@) by {
        if has_id(t, id) {
            let k = choose|k: int| 0 <= k < t.len() && t[k].id@ == id;
            if k < s.len() {
                assert(s[k].id@ == id);
            } else {
                assert(id == e.id@);
            }
        }
        if has_id(s, id) {
            let k = choose|k: int| 0 <= k < s.len() && s[k].id@ == id;
            assert(t[k].id@ == id);
        }
        if id == e.id@ {
            assert(t[s.len() as int].id@ == id);
        }
    }
    lemma_index_of_unique(t, e.id@, s.len() as int);
    assert forall|id: Seq<char>| id != e.id@ implies balance_in(t, id) == balance_in(s, id) by {
        if has_id(s, id) {
            let k = choose|k: int| 0 <= k < s.len() && s[k].id@ == id;
            lemma_index_of_unique(s, id, k);
            lemma_index_of_unique(t, id, k);
        }
    }
}

impl Ledger {
    /// Finds the position of the entry for `id`, if one exists.
    pub(crate) fn find_index(&self, id: &AccountId) -> (r: Option<usize>)
        ensures
            match r {
                Some(i) => i < self.accounts@.len() && self.accounts@[i as int].id@ == id@
                    && self.registered(id@),
                None => !self.registered(id@),
            },
    {
        let n = self.accounts.len();
        let mut i: usize = 0;
        while i < n
            invariant
                n == self.accounts@.len(),
                i <= n,
                forall|j: int| 0 <= j < i ==> self.accounts@[j].id@ != id@,
            decreases n - i,
        {
            if self.accounts[i].id == *id {
                return Some(i);
            }
            i += 1;
        }
        None
    }

    /// Whether `id` is registered. Registration is existence: an account
    /// absent from the ledger is not the same as one holding zero.
    pub fn is_registered(&self, id: &AccountId) -> (r: bool)
        ensures
            r == self.registered(id@),
    {
        self.find_index(id).is_some()
    }

    /// The balance held by `id`, with zero for an unregistered account.
    /// Callers that must tell the two cases apart use [`Self::is_registered`].
    pub fn balance_of(&self, id: &AccountId) -> (r: u128)
        requires
            self.entries_wf(),
        ensures
            r == self.balance(id@),
    {
        match self.find_index(id) {
            Some(i) => {
                proof {
                    lemma_index_of_unique(self.accounts@, id@, i as int);
                }
                self.accounts[i].balance
            },
            None => 0,
        }
    }

    /// Inserts `id` with balance zero when absent; signals
    /// `AlreadyRegistered` and leaves everything untouched when present.
    /// Either way the ledger afterwards is [`register_outcome`] of the old
    /// one, so registering a second time changes nothing.
    pub fn register(&mut self, id: &AccountId) -> (r: Result<(), LedgerError>)
        requires
            old(self).entries_wf(),
        ensures
            final(self).entries_wf(),
            final(self).total_supply == old(self).total_supply,
            final(self).bytes_for_longest_account_id == old(self).bytes_for_longest_account_id,
            final(self).metadata == old(self).metadata,
            final(self)@ == register_outcome(old(self)@, id@),
            final(self).registered(id@),
            final(self).balance(id@) == if old(self).registered(id@) {
                old(self).balance(id@)
            } else {
                0u128
            },
            forall|x: Seq<char>| x != id@ ==> final(self).balance(x) == old(self).balance(x),
            forall|x: Seq<char>| x != id@ ==> final(self).registered(x) == old(self).registered(x),
            sum_of(final(self).accounts@) == sum_of(old(self).accounts@),
            old(self).inv() ==> final(self).inv(),
            r == Ok::<(), LedgerError>(()) <==> !old(self).registered(id@),
            r == Err::<(), LedgerError>(LedgerError::AlreadyRegistered) <==> old(self).registered(id@),
            r matches Err(_) ==> *final(self) == *old(self),
    {
        match self.find_index(id) {
            Some(i) => {
                proof {
                    lemma_index_of_unique(self.accounts@, id@, i as int);
                    assert(self@.dom().contains(id@));
                }
                Err(LedgerError::AlreadyRegistered)
            },
            None => {
                let ghost s0 = self.accounts@;
                let entry = AccountEntry { id: id.clone(), balance: 0 };
                self.accounts.push(entry);
                proof {
                    lemma_push_entry(s0, entry);
                    assert(!old(self)@.dom().contains(id@));
                    assert_maps_equal!(self@, old(self)@.insert(id@, 0u128));
                }
                Ok(())
            },
        }
    }

    /// Increases the balance of a registered `id` by a positive `amount`,
    /// refusing the change when the new balance would not fit. The sum of
    /// balances grows by `amount`, so this primitive alone leaves the supply
    /// invariant to its caller: pair it with a matching withdrawal, as the
    /// transfer operations do in one atomic step.
    pub fn deposit(&mut self, id: &AccountId, amount: u128) -> (r: Result<(), LedgerError>)
        requires
            old(self).entries_wf(),
            amount > 0,
        ensures
            final(self).entries_wf(),
            final(self).total_supply == old(self).total_supply,
            final(self).bytes_for_longest_account_id == old(self).bytes_for_longest_account_id,
            final(self).metadata == old(self).metadata,
            r == Ok::<(), LedgerError>(()) <==> old(self).registered(id@)
                && old(self).balance(id@) + amount <= u128::MAX,
            r == Err::<(), LedgerError>(LedgerError::NotRegistered) <==> !old(self).registered(id@),
            r == Err::<(), LedgerError>(LedgerError::Overflow) <==> old(self).registered(id@)
                && old(self).balance(id@) + amount > u128::MAX,
            r matches Err(_) ==> *final(self) == *old(self),
            r matches Ok(_) ==> final(self)@ == old(self)@.insert(
                id@,
                (old(self).balance(id@) + amount) as u128,
            ),
            r matches Ok(_) ==> final(self).balance(id@) == old(self).balance(id@) + amount,
            forall|x: Seq<char>| x != id@ ==> final(self).balance(x) == old(self).balance(x),
            forall|x: Seq<char>| final(self).registered(x) == old(self).registered(x),
            r matches Ok(_) ==> sum_of(final(self).accounts@) == sum_of(old(self).accounts@)
                + amount,
    {
        match self.find_index(id) {
            Some(i) => {
                let bal = self.accounts[i].balance;
                proof {
                    lemma_index_of_unique(self.accounts@, id@, i as int);
                }
                if amount > u128::MAX - bal {
                    Err(LedgerError::Overflow)
                } else {
                    let ghost s0 = self.accounts@;
                    self.accounts[i].balance = bal + amount;
                    proof {
                        lemma_update_entry(s0, i as int, self.accounts@[i as int]);
                        assert_maps_equal!(
                            self@,
                            old(self)@.insert(id@, (old(self).balance(id@) + amount) as u128),
                        );
                    }
                    Ok(())
                }
            },
            None => Err(LedgerError::NotRegistered),
        }
    }

    /// Decreases the balance of a registered `id` by `amount`, refusing with
    /// `InsufficientBalance` — and leaving the balance untouched — when the
    /// account holds less than `amount`. The sum of balances shrinks by
    /// `amount`; as with [`Self::deposit`], the supply invariant is the
    /// caller's to keep, by pairing it with a matching deposit.
    pub fn withdraw(&mut self, id: &AccountId, amount: u128) -> (r: Result<(), LedgerError>)
        requires
            old(self).entries_wf(),
        ensures
            final(self).entries_wf(),
            final(self).total_supply == old(self).total_supply,
            final(self).bytes_for_longest_account_id == old(self).bytes_for_longest_account_id,
            final(self).metadata == old(self).metadata,
            r == Ok::<(), LedgerError>(()) <==> old(self).registered(id@)
                && amount <= old(self).balance(id@),
            r == Err::<(), LedgerError>(LedgerError::NotRegistered) <==> !old(self).registered(id@),
            r == Err::<(), LedgerError>(LedgerError::InsufficientBalance) <==> old(self).registered(
                id@,
            ) && amount > old(self).balance(id@),
            r matches Err(_) ==> *final(self) == *old(self),
            r matches Ok(_) ==> final(self)@ == old(self)@.insert(
                id@,
                (old(self).balance(id@) - amount) as u128,
            ),
            r matches Ok(_) ==> final(self).balance(id@) == old(self).balance(id@) - amount,
            forall|x: Seq<char>| x != id@ ==> final(self).balance(x) == old(self).balance(x),
            forall|x: Seq<char>| final(self).registered(x) == old(self).registered(x),
            r matches Ok(_) ==> sum_of(final(self).accounts@) == sum_of(old(self).accounts@)
                - amount,
    {
        match self.find_index(id) {
            Some(i) => {
                let bal = self.accounts[i].balance;
                proof {
                    lemma_index_of_unique(self.accounts@, id@, i as int);
                }
                if amount > bal {
                    Err(LedgerError::InsufficientBalance)
                } else {
                    let ghost s0 = self.accounts@;
                    self.accounts[i].balance = bal - amount;
                    proof {
                        lemma_update_entry(s0, i as int, self.accounts@[i as int]);
                        assert_maps_equal!(
                            self@,
                            old(self)@.insert(id@, (old(self).balance(id@) - amount) as u128),
                        );
                    }
                    Ok(())
                }
            },
            None => Err(LedgerError::NotRegistered),
        }
    }

    /// Constructs the ledger at genesis: the owner is registered and the
    /// whole fixed supply is minted to it in one bootstrap step, the only
    /// point where supply and balances are reconciled by construction. The
    /// storage calibration (see [`crate::storage`]) is recorded, the
    /// metadata is stored opaquely, and the one `Mint` notification is
    /// returned beside the ledger.
    pub fn genesis(
        owner: AccountId,
        total_supply: u128,
        registration_bytes: u64,
        metadata: Option<TokenMetadata>,
        memo: Option<String>,
    ) -> (r: (Ledger, Event))
        ensures
            r.0.inv(),
            r.0.total_supply == total_supply,
            r.0.bytes_for_longest_account_id == registration_bytes,
            r.0.metadata == metadata,
            r.0@ == Map::<Seq<char>, u128>::empty().insert(owner@, total_supply),
            r.0.registered(owner@),
            r.0.balance(owner@) == total_supply,
            forall|id: Seq<char>| id != owner@ ==> !r.0.registered(id),
            r.1.is_mint(owner@, total_supply, memo),
    {
        let event = Event::mint(owner.clone(), total_supply, memo);
        let mut accounts: Vec<AccountEntry> = Vec::new();
        let ghost s0 = accounts@;
        let entry = AccountEntry { id: owner, balance: total_supply };
        accounts.push(entry);
        proof {
            lemma_push_entry(s0, entry);
        }
        let ledger = Ledger {
            accounts,
            total_supply,
            bytes_for_longest_account_id: registration_bytes,
            metadata,
        };
        proof {
            assert_maps_equal!(ledger@, Map::<Seq<char>, u128>::empty().insert(entry.id@, total_supply));
        }
        (ledger, event)
    }
}

} // verus!
