use vstd::prelude::*;
use crate::address::{Address, zero_address_bytes};
use crate::token::{TokenId, token_id_limit};
use crate::errors::LedgerError;
use crate::events::TransferEvent;
use crate::store::{OwnerEntry, OwnerStore, stored_owner, lemma_stored_owner_absent};

verus! {

/// Everything a successful mint changes, computed before anything is
/// written: the id assigned, the counter value that follows it, the owner
/// record, and the issuance event. A host glue applies these to its durable
/// slots and log only after the decision succeeded, so a failing call
/// writes nothing.
#[derive(Clone, Copy, Debug)]
pub struct MintEffects {
    pub token_id: TokenId,
    pub next_id_after: TokenId,
    pub owner: Address,
    pub event: TransferEvent,
}

/// The per-call mint decision, from the two storage reads and the recipient
/// to either the full set of writes or the error, with nothing written yet.
///
/// `next_id` is the counter's current value and `current_owner` is what the
/// mapping reads for that id. Validation runs in order: a sentinel recipient
/// is rejected first, then an id that already holds a real owner.
pub fn mint_decision(next_id: &TokenId, current_owner: &Address, to: &Address) -> (r: Result<
    MintEffects,
    LedgerError,
>)
    requires
        next_id@ + 1 < token_id_limit(),
    ensures
        to@ == zero_address_bytes() <==> r == Err::<MintEffects, LedgerError>(
            LedgerError::InvalidRecipient,
        ),
        to@ != zero_address_bytes() && current_owner@ != zero_address_bytes() <==> r == Err::<
            MintEffects,
            LedgerError,
        >(LedgerError::TokenAlreadyMinted),
        to@ != zero_address_bytes() && current_owner@ == zero_address_bytes() ==> r is Ok,
        r is Ok ==> {
            let eff = r->Ok_0;
            &&& eff.token_id == *next_id
            &&& eff.next_id_after@ == next_id@ + 1
            &&& eff.owner == *to
            &&& eff.event.from@ == zero_address_bytes()
            &&& eff.event.to == *to
            &&& eff.event.token_id == *next_id
        },
{
    if to.is_zero() {
        return Err(LedgerError::InvalidRecipient);
    }
    if !current_owner.is_zero() {
        return Err(LedgerError::TokenAlreadyMinted);
    }
    let token_id = *next_id;
    let next_id_after = next_id.succ();
    Ok(
        MintEffects {
            token_id,
            next_id_after,
            owner: *to,
            event: TransferEvent { from: Address::zero(), to: *to, token_id },
        },
    )
}

/// The ownership ledger: the sparse token-id → owner mapping, the
/// next-token-id counter, and the issuance events emitted so far. The two
/// slots are this ledger's only durable state; `mint` is their only writer.
/// On the host each slot holds the fixed-width words of `crate::codec`: the
/// counter one 32-byte word, the mapping one 32-byte word per key.
#[derive(Debug)]
pub struct NftContract {
    pub owners: OwnerStore,
    pub next_id: TokenId,
    pub log: Vec<TransferEvent>,
}

impl NftContract {
    /// The issuance invariants. A fresh ledger satisfies them and every
    /// operation preserves them:
    /// - one mapping record per mint, each id below the counter, each owner
    ///   real, no id recorded twice;
    /// - no gaps: every id below the counter reads as a real owner;
    /// - one event per mint, in call order: the i-th event carries id i, a
    ///   zero "from" marker, and the recipient the mapping still holds.
    pub open spec fn wf(self) -> bool {
        let s = self.owners.contents();
        &&& s.len() == self.next_id@
        &&& forall|i: int| 0 <= i < s.len() ==> (#[trigger] s[i].id)@ < self.next_id@
        &&& forall|i: int| 0 <= i < s.len() ==> (#[trigger] s[i].owner)@ != zero_address_bytes()
        &&& forall|i: int, j: int|
            0 <= i < j < s.len() ==> (#[trigger] s[i].id)@ != (#[trigger] s[j].id)@
        &&& forall|t: nat| t < self.next_id@ ==> #[trigger] stored_owner(s, t) != zero_address_bytes()
        &&& self.log@.len() == self.next_id@
        &&& forall|i: int|
            0 <= i < self.log@.len() ==> {
                let e = #[trigger] self.log@[i];
                &&& e.token_id@ == i
                &&& e.from@ == zero_address_bytes()
                &&& e.to@ == stored_owner(s, i as nat)
            }
    }

    /// A fresh ledger: empty mapping, counter at zero, no events.
    pub fn new() -> (c: NftContract)
        ensures
            c.wf(),
            c.next_id@ == 0,
            c.owners.contents().len() == 0,
            c.log@.len() == 0,
    {
        NftContract { owners: OwnerStore::new(), next_id: TokenId::zero(), log: Vec::new() }
    }

    /// Mint a new token to `to`.
    ///
    /// A sentinel recipient fails with `InvalidRecipient`; any failure
    /// leaves the ledger exactly as it was, counter included. Otherwise the
    /// current counter value is assigned as the id, recorded as owned by
    /// `to`, the counter moves up by one, and exactly one issuance event is
    /// appended.
    pub fn mint(&mut self, to: &Address) -> (r: Result<TokenId, LedgerError>)
        requires
            old(self).wf(),
            old(self).next_id@ + 1 < token_id_limit(),
        ensures
            final(self).wf(),
            to@ == zero_address_bytes() <==> r == Err::<TokenId, LedgerError>(
                LedgerError::InvalidRecipient,
            ),
            to@ != zero_address_bytes() ==> r is Ok,
            r is Err ==> *final(self) == *old(self),
            r is Ok ==> {
                &&& r->Ok_0@ == old(self).next_id@
                &&& final(self).next_id@ == old(self).next_id@ + 1
                &&& final(self).owners.contents() == old(self).owners.contents().push(
                    (OwnerEntry { id: r->Ok_0, owner: *to }),
                )
                &&& stored_owner(final(self).owners.contents(), old(self).next_id@) == to@
                &&& forall|t: nat|
                    t != old(self).next_id@ ==> stored_owner(final(self).owners.contents(), t)
                        == stored_owner(old(self).owners.contents(), t)
                &&& final(self).log@.len() == old(self).log@.len() + 1
                &&& forall|i: int|
                    0 <= i < old(self).log@.len() ==> final(self).log@[i] == old(self).log@[i]
                &&& final(self).log@.last().from@ == zero_address_bytes()
                &&& final(self).log@.last().to@ == to@
                &&& final(self).log@.last().token_id@ == old(self).next_id@
            },
    {
        let current = self.owners.read(&self.next_id);
        proof {
            assert forall|i: int| 0 <= i < old(self).owners.contents().len()
                implies old(self).owners.contents()[i].id@ != old(self).next_id@ by {}
            lemma_stored_owner_absent(old(self).owners.contents(), old(self).next_id@);
        }
        match mint_decision(&self.next_id, &current, to) {
            Err(e) => Err(e),
            Ok(eff) => {
                self.owners.write(eff.token_id, eff.owner);
                self.next_id = eff.next_id_after;
                self.log.push(eff.event);
                proof {
                    let s_old = old(self).owners.contents();
                    let s_new = final(self).owners.contents();
                    let n: nat = old(self).next_id@;
                    assert forall|i: int| 0 <= i < s_new.len() implies (#[trigger] s_new[i].id)@
                        < final(self).next_id@ by {
                        if i < s_old.len() {
                            assert(s_new[i] == s_old[i]);
                        }
                    }
                    assert forall|i: int, j: int| 0 <= i < j < s_new.len() implies (
                    #[trigger] s_new[i].id)@ != (#[trigger] s_new[j].id)@ by {
                        if j < s_old.len() {
                            assert(s_new[i] == s_old[i]);
                            assert(s_new[j] == s_old[j]);
                        } else {
                            assert(s_new[i] == s_old[i]);
                            assert(s_new[j].id@ == n);
                        }
                    }
                    assert forall|t: nat| t < final(self).next_id@ implies #[trigger] stored_owner(
                        s_new,
                        t,
                    ) != zero_address_bytes() by {
                        if t < n {
                            assert(stored_owner(s_new, t) == stored_owner(s_old, t));
                        } else {
                            assert(t == n);
                            assert(stored_owner(s_new, t) == to@);
                        }
                    }
                    assert forall|i: int| 0 <= i < final(self).log@.len() implies {
                        let e = #[trigger] final(self).log@[i];
                        &&& e.token_id@ == i
                        &&& e.from@ == zero_address_bytes()
                        &&& e.to@ == stored_owner(s_new, i as nat)
                    } by {
                        if i < old(self).log@.len() {
                            assert(final(self).log@[i] == old(self).log@[i]);
                            assert(stored_owner(s_new, i as nat) == stored_owner(s_old, i as nat));
                        } else {
                            assert(final(self).log@[i] == final(self).log@.last());
                        }
                    }
                }
                Ok(eff.token_id)
            },
        }
    }

    /// The owner recorded for `token_id`, or the sentinel zero address if
    /// that id was never minted. Never fails.
    pub fn owner_of(&self, token_id: &TokenId) -> (r: Address)
        ensures
            r@ == stored_owner(self.owners.contents(), token_id@),
    {
        self.owners.read(token_id)
    }

    /// The current counter value: the id the next successful mint assigns.
    /// Never fails.
    pub fn next_token_id(&self) -> (r: TokenId)
        ensures
            r == self.next_id,
            r@ == self.next_id@,
    {
        self.next_id
    }
}

/// Successful mints hand out ids 0, 1, 2, … in call order, with no gaps and
/// no repeats: the i-th issuance event of a well-formed ledger carries
/// exactly id i, and one event exists per id below the counter.
pub proof fn lemma_issued_ids_sequential(c: NftContract)
    requires
        c.wf(),
    ensures
        c.log@.len() == c.next_id@,
        forall|i: int| 0 <= i < c.log@.len() ==> (#[trigger] c.log@[i]).token_id@ == i,
{
}

/// A token id that was never the target of a successful mint — in a
/// well-formed ledger, any id at or above the counter — reads as the
/// sentinel zero address.
pub proof fn lemma_unminted_reads_sentinel(c: NftContract, t: nat)
    requires
        c.wf(),
        t >= c.next_id@,
    ensures
        stored_owner(c.owners.contents(), t) == zero_address_bytes(),
{
    assert forall|i: int| 0 <= i < c.owners.contents().len() implies c.owners.contents()[i].id@
        != t by {}
    lemma_stored_owner_absent(c.owners.contents(), t);
}

/// The audit log alone reconstructs the ledger: an indexer replaying the
/// events of a well-formed ledger sees, for every minted id, the zero
/// "from" marker and the very owner the mapping still holds.
pub proof fn lemma_log_reconstructs_ownership(c: NftContract, t: nat)
    requires
        c.wf(),
        t < c.next_id@,
    ensures
        c.log@[t as int].token_id@ == t,
        c.log@[t as int].from@ == zero_address_bytes(),
        c.log@[t as int].to@ == stored_owner(c.owners.contents(), t),
        c.log@[t as int].to@ != zero_address_bytes(),
{
}

} // verus!
