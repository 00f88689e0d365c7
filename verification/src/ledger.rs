//! A ledger of native-token balances and its transfer routine.
//!
//! The ledger owns every balance; instructions only refer to accounts by
//! address. An address that the ledger has never seen holds nothing.

use vstd::prelude::*;
use crate::address::Address;
use crate::error::TransferError;

verus! {

/// What the ledger records for one account.
struct Entry {
    address: Address,
    balance: u64,
}

/// One call of the transfer routine: what was asked of it.
pub struct TransferRequest {
    pub from: Address,
    pub to: Address,
    pub amount: u64,
}

/// The balances of all accounts, in the smallest unit of the token.
///
/// Seen from outside, a ledger is a map from every address to what the
/// account there holds: what it can spend. All balances together, the
/// supply, fit in a `u64`. The ledger also remembers, for proofs only, what
/// its transfer routine has been asked to do.
pub struct Ledger {
    entries: Vec<Entry>,
    asked: Ghost<Seq<TransferRequest>>,
}

/// No address is recorded twice.
spec fn distinct(entries: Seq<Entry>) -> bool {
    forall|i: int, j: int|
        0 <= i < j < entries.len() ==> entries[i].address != entries[j].address
}

/// Whether the entry at `i` is the one for `address`.
spec fn records(entries: Seq<Entry>, address: Address, i: int) -> bool {
    0 <= i < entries.len() && entries[i].address == address
}

/// What the entries record for `address`: nothing, where there is no entry.
spec fn recorded(entries: Seq<Entry>, address: Address) -> nat {
    if exists|i: int| records(entries, address, i) {
        entries[choose|i: int| records(entries, address, i)].balance as nat
    } else {
        0
    }
}

/// All recorded balances together.
spec fn sum(entries: Seq<Entry>) -> nat
    decreases entries.len(),
{
    if entries.len() == 0 {
        0
    } else {
        sum(entries.drop_last()) + entries.last().balance as nat
    }
}

/// What is recorded for `address` once `entry` has taken the place of the
/// entry for its address, or has been added where there was none.
spec fn recorded_after(entries: Seq<Entry>, entry: Entry, address: Address) -> nat {
    if address == entry.address {
        entry.balance as nat
    } else {
        recorded(entries, address)
    }
}

/// What is recorded for the address of an entry is that entry's balance.
proof fn lemma_recorded_at(entries: Seq<Entry>, i: int)
    requires
        distinct(entries),
        0 <= i < entries.len(),
    ensures
        recorded(entries, entries[i].address) == entries[i].balance,
{
    assert(records(entries, entries[i].address, i));
}

/// Nothing is recorded for an address that no entry has.
proof fn lemma_recorded_absent(entries: Seq<Entry>, address: Address)
    requires
        forall|i: int| 0 <= i < entries.len() ==> entries[i].address != address,
    ensures
        recorded(entries, address) == 0,
{
}

/// Replacing the balance of a recorded account changes what is recorded for
/// that account, and for no other.
proof fn lemma_recorded_update(entries: Seq<Entry>, i: int, entry: Entry)
    requires
        distinct(entries),
        0 <= i < entries.len(),
        entry.address == entries[i].address,
    ensures
        distinct(entries.update(i, entry)),
        forall|a: Address| #[trigger]
            recorded(entries.update(i, entry), a) == recorded_after(entries, entry, a),
{
    let updated = entries.update(i, entry);
    assert forall|a: Address| #[trigger]
        recorded(updated, a) == recorded_after(entries, entry, a) by {
        if a == entry.address {
            lemma_recorded_at(updated, i);
        } else if exists|j: int| records(entries, a, j) {
            let j = choose|j: int| records(entries, a, j);
            lemma_recorded_at(entries, j);
            lemma_recorded_at(updated, j);
        } else {
            assert forall|j: int| 0 <= j < updated.len() implies updated[j].address != a by {
                assert(!records(entries, a, j));
            }
            lemma_recorded_absent(updated, a);
        }
    }
}

/// Recording a new account changes what is recorded for that account, and
/// for no other.
proof fn lemma_recorded_push(entries: Seq<Entry>, entry: Entry)
    requires
        distinct(entries),
        forall|i: int| 0 <= i < entries.len() ==> entries[i].address != entry.address,
    ensures
        distinct(entries.push(entry)),
        forall|a: Address| #[trigger]
            recorded(entries.push(entry), a) == recorded_after(entries, entry, a),
{
    let pushed = entries.push(entry);
    assert forall|a: Address| #[trigger]
        recorded(pushed, a) == recorded_after(entries, entry, a) by {
        if a == entry.address {
            lemma_recorded_at(pushed, entries.len() as int);
        } else if exists|j: int| records(entries, a, j) {
            let j = choose|j: int| records(entries, a, j);
            lemma_recorded_at(entries, j);
            lemma_recorded_at(pushed, j);
        } else {
            assert forall|j: int| 0 <= j < pushed.len() implies pushed[j].address != a by {
                if j < entries.len() {
                    assert(!records(entries, a, j));
                }
            }
            lemma_recorded_absent(pushed, a);
        }
    }
}

/// A new entry adds its balance to the sum.
proof fn lemma_sum_push(entries: Seq<Entry>, entry: Entry)
    ensures
        sum(entries.push(entry)) == sum(entries) + entry.balance,
{
    assert(entries.push(entry).drop_last() =~= entries);
}

/// An entry that takes the place of another changes the sum by the
/// difference of the two balances; every balance is part of the sum.
proof fn lemma_sum_update(entries: Seq<Entry>, i: int, entry: Entry)
    requires
        0 <= i < entries.len(),
    ensures
        sum(entries.update(i, entry)) == sum(entries) - entries[i].balance + entry.balance,
        entries[i].balance <= sum(entries),
    decreases entries.len(),
{
    let updated = entries.update(i, entry);
    if i == entries.len() - 1 {
        assert(updated.drop_last() =~= entries.drop_last());
    } else {
        lemma_sum_update(entries.drop_last(), i, entry);
        assert(updated.drop_last() =~= entries.drop_last().update(i, entry));
    }
}

/// The balances of the first `n` entries are part of the sum.
proof fn lemma_sum_of_prefix(entries: Seq<Entry>, n: int)
    requires
        0 <= n <= entries.len(),
    ensures
        sum(entries.take(n)) <= sum(entries),
    decreases entries.len() - n,
{
    if n < entries.len() {
        lemma_sum_of_prefix(entries, n + 1);
        lemma_sum_push(entries.take(n), entries[n]);
        assert(entries.take(n).push(entries[n]) =~= entries.take(n + 1));
    } else {
        assert(entries.take(n) =~= entries);
    }
}

/// What is recorded for an address is part of the sum.
proof fn lemma_recorded_within_sum(entries: Seq<Entry>, address: Address)
    ensures
        recorded(entries, address) <= sum(entries),
{
    if exists|i: int| records(entries, address, i) {
        let i = choose|i: int| records(entries, address, i);
        lemma_sum_update(entries, i, entries[i]);
    }
}

/// Whether `balances` tells what every account holds.
pub open spec fn covers_every_account(balances: Map<Address, nat>) -> bool {
    forall|address: Address| balances.dom().contains(address)
}

/// Whether `amount` can be taken from what `from` holds.
pub open spec fn transfer_outcome(
    balances: Map<Address, nat>,
    from: Address,
    amount: u64,
) -> Result<(), TransferError>
    recommends
        covers_every_account(balances),
{
    if amount <= balances[from] {
        Ok(())
    } else {
        Err(TransferError::InsufficientFunds)
    }
}

/// The balances after the transfer routine was asked to move `amount` from
/// `from` to `to`: `from` is debited, then `to` is credited, where `from`
/// holds enough; nothing changes, where it does not.
pub open spec fn after_transfer(
    balances: Map<Address, nat>,
    from: Address,
    to: Address,
    amount: u64,
) -> Map<Address, nat>
    recommends
        covers_every_account(balances),
{
    if amount <= balances[from] {
        let debited = balances.insert(from, (balances[from] - amount) as nat);
        debited.insert(to, (debited[to] + amount) as nat)
    } else {
        balances
    }
}

impl View for Ledger {
    type V = Map<Address, nat>;

    /// What every account holds: there is a balance for every address.
    open spec fn view(&self) -> Map<Address, nat> {
        Map::total(|address: Address| self.holds(address))
    }
}

impl Ledger {
    #[verifier::type_invariant]
    spec fn well_formed(self) -> bool {
        &&& distinct(self.entries@)
        &&& sum(self.entries@) <= u64::MAX
    }

    /// What the account at `address` holds: nothing, where the ledger has
    /// never seen the address.
    pub closed spec fn holds(&self, address: Address) -> nat {
        recorded(self.entries@, address)
    }

    /// All balances together.
    pub closed spec fn supply(&self) -> nat {
        sum(self.entries@)
    }

    /// Everything that the transfer routine has been asked to do, in order,
    /// whether it did it or refused.
    pub closed spec fn requests(&self) -> Seq<TransferRequest> {
        self.asked@
    }

    /// A ledger on which no account holds anything.
    pub fn new() -> (ledger: Ledger)
        ensures
            ledger@ == Map::total(|a: Address| 0nat),
            ledger.supply() == 0,
            ledger.requests() == Seq::<TransferRequest>::empty(),
    {
        let ledger = Ledger { entries: Vec::new(), asked: Ghost(Seq::empty()) };
        assert(ledger@ =~= Map::total(|a: Address| 0nat));
        ledger
    }

    /// Where the entry for `address` is, if there is one.
    fn find(&self, address: &Address) -> (found: Option<usize>)
        ensures
            found matches Some(i) ==> records(self.entries@, *address, i as int),
            found is None ==> forall|j: int|
                0 <= j < self.entries@.len() ==> self.entries@[j].address != *address,
    {
        let mut i: usize = 0;
        while i < self.entries.len()
            invariant
                i <= self.entries@.len(),
                forall|j: int| 0 <= j < i ==> self.entries@[j].address != *address,
            decreases self.entries@.len() - i,
        {
            if self.entries[i].address.same_as(address) {
                return Some(i);
            }
            i += 1;
        }
        None
    }

    /// What the account at `address` holds.
    pub fn balance_of(&self, address: &Address) -> (balance: u64)
        ensures
            balance == self@[*address],
            balance <= self.supply(),
    {
        proof {
            use_type_invariant(self);
            lemma_recorded_within_sum(self.entries@, *address);
        }
        match self.find(address) {
            Some(i) => {
                proof {
                    lemma_recorded_at(self.entries@, i as int);
                }
                self.entries[i].balance
            },
            None => {
                proof {
                    lemma_recorded_absent(self.entries@, *address);
                }
                0
            },
        }
    }

    /// All balances together.
    pub fn total_supply(&self) -> (total: u64)
        ensures
            total == self.supply(),
    {
        proof {
            use_type_invariant(self);
        }
        let mut total: u64 = 0;
        let mut i: usize = 0;
        while i < self.entries.len()
            invariant
                i <= self.entries@.len(),
                total == sum(self.entries@.take(i as int)),
                sum(self.entries@) <= u64::MAX,
            decreases self.entries@.len() - i,
        {
            proof {
                lemma_sum_push(self.entries@.take(i as int), self.entries@[i as int]);
                assert(self.entries@.take(i as int).push(self.entries@[i as int])
                    =~= self.entries@.take(i + 1));
                lemma_sum_of_prefix(self.entries@, i + 1);
            }
            total = total + self.entries[i].balance;
            i += 1;
        }
        assert(self.entries@.take(i as int) =~= self.entries@);
        total
    }

    /// Records `balance` as what the account at `address` holds.
    fn set_balance(&mut self, address: &Address, balance: u64)
        requires
            old(self).supply() - old(self)@[*address] + balance <= u64::MAX,
        ensures
            final(self)@ == old(self)@.insert(*address, balance as nat),
            final(self).supply() == old(self).supply() - old(self)@[*address] + balance,
            final(self).requests() == old(self).requests(),
    {
        proof {
            use_type_invariant(&*self);
        }
        let entry = Entry { address: *address, balance };
        let found = self.find(address);
        // The entries are taken out while they change, so that the ledger
        // itself is never seen half-changed.
        let mut entries: Vec<Entry> = Vec::new();
        core::mem::swap(&mut self.entries, &mut entries);
        match found {
            Some(i) => {
                proof {
                    lemma_recorded_at(entries@, i as int);
                    lemma_recorded_update(entries@, i as int, entry);
                    lemma_sum_update(entries@, i as int, entry);
                }
                entries[i] = entry;
            },
            None => {
                proof {
                    lemma_recorded_absent(entries@, *address);
                    lemma_recorded_push(entries@, entry);
                    lemma_sum_push(entries@, entry);
                }
                entries.push(entry);
            },
        }
        self.entries = entries;
        assert(self@ =~= old(self)@.insert(*address, balance as nat));
    }

    /// Puts `amount` of new tokens into the account at `address`, unless the
    /// supply would then no longer fit in a `u64`: in that case nothing
    /// changes. Returns whether the tokens were put in.
    pub fn deposit(&mut self, address: &Address, amount: u64) -> (accepted: bool)
        ensures
            accepted == (old(self).supply() + amount <= u64::MAX),
            accepted ==> final(self)@ == old(self)@.insert(
                *address,
                (old(self)@[*address] + amount) as nat,
            ),
            accepted ==> final(self).supply() == old(self).supply() + amount,
            !accepted ==> final(self)@ == old(self)@,
            !accepted ==> final(self).supply() == old(self).supply(),
            final(self).requests() == old(self).requests(),
    {
        let supply = self.total_supply();
        if amount > u64::MAX - supply {
            return false;
        }
        let held = self.balance_of(address);
        self.set_balance(address, held + amount);
        true
    }

    /// The transfer routine: moves `amount` from the account at `from` to the
    /// account at `to`, in one step. Where `from` holds less than `amount`,
    /// the transfer is refused and nothing changes.
    pub fn transfer(&mut self, from: &Address, to: &Address, amount: u64) -> (result: Result<
        (),
        TransferError,
    >)
        ensures
            result == transfer_outcome(old(self)@, *from, amount),
            final(self)@ == after_transfer(old(self)@, *from, *to, amount),
            final(self).supply() == old(self).supply(),
            final(self).requests() == old(self).requests().push(
                (TransferRequest { from: *from, to: *to, amount }),
            ),
    {
        proof {
            use_type_invariant(&*self);
        }
        self.asked = Ghost(self.asked@.push(TransferRequest { from: *from, to: *to, amount }));
        let available = self.balance_of(from);
        if amount > available {
            return Err(TransferError::InsufficientFunds);
        }
        self.set_balance(from, available - amount);
        let held = self.balance_of(to);
        self.set_balance(to, held + amount);
        Ok(())
    }
}

} // verus!
