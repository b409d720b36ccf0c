use vstd::prelude::*;
use crate::address::{Address, zero_address_bytes};
use crate::token::TokenId;

verus! {

/// One durable record of the token-id → owner mapping.
#[derive(Clone, Copy, Debug)]
pub struct OwnerEntry {
    pub id: TokenId,
    pub owner: Address,
}

/// What a read of the sparse token-id → owner slot yields: the owner written
/// last for that id, or the sentinel zero address if the id was never
/// written. This is the host store's read semantics.
pub open spec fn stored_owner(s: Seq<OwnerEntry>, t: nat) -> Seq<u8>
    decreases s.len(),
{
    if s.len() == 0 {
        zero_address_bytes()
    } else if s.last().id@ == t {
        s.last().owner@
    } else {
        stored_owner(s.drop_last(), t)
    }
}

/// Writing one record changes the read of its key alone.
pub proof fn lemma_stored_owner_write(s: Seq<OwnerEntry>, e: OwnerEntry, t: nat)
    ensures
        stored_owner(s.push(e), t) == (if e.id@ == t {
            e.owner@
        } else {
            stored_owner(s, t)
        }),
{
    assert(s.push(e).last() == e);
    assert(s.push(e).drop_last() =~= s);
}

/// A key that no record holds reads as the sentinel.
pub proof fn lemma_stored_owner_absent(s: Seq<OwnerEntry>, t: nat)
    requires
        forall|i: int| 0 <= i < s.len() ==> s[i].id@ != t,
    ensures
        stored_owner(s, t) == zero_address_bytes(),
    decreases s.len(),
{
    if s.len() > 0 {
        assert(forall|i: int| 0 <= i < s.drop_last().len() ==> s.drop_last()[i] == s[i]);
        lemma_stored_owner_absent(s.drop_last(), t);
    }
}

/// The durable sparse mapping slot: an append-only sequence of records whose
/// read semantics are `stored_owner`. Entries are created only by writes;
/// nothing in scope mutates or deletes one.
#[derive(Debug)]
pub struct OwnerStore {
    pub entries: Vec<OwnerEntry>,
}

impl OwnerStore {
    /// The records written so far, oldest first.
    pub open spec fn contents(self) -> Seq<OwnerEntry> {
        self.entries@
    }

    /// A fresh store with nothing written.
    pub fn new() -> (s: OwnerStore)
        ensures
            s.contents().len() == 0,
    {
        OwnerStore { entries: Vec::new() }
    }

    /// Read the owner recorded for `id`, or the sentinel if none is.
    pub fn read(&self, id: &TokenId) -> (r: Address)
        ensures
            r@ == stored_owner(self.contents(), id@),
    {
        let n: usize = self.entries.len();
        let mut i: usize = n;
        proof {
            assert(self.contents().take(n as int) =~= self.contents());
        }
        while i > 0
            invariant
                i <= n,
                n == self.entries.len(),
                stored_owner(self.contents(), id@) == stored_owner(
                    self.contents().take(i as int),
                    id@,
                ),
            decreases i,
        {
            i = i - 1;
            let e = &self.entries[i];
            proof {
                assert(self.contents().take(i + 1).last() == self.contents()[i as int]);
                assert(self.contents().take(i + 1).drop_last() =~= self.contents().take(i as int));
                TokenId::lemma_view_injective(e.id, *id);
            }
            if e.id == *id {
                return e.owner;
            }
        }
        proof {
            assert(self.contents().take(0).len() == 0);
        }
        Address::zero()
    }

    /// Record `owner` for `id`. The slot is append-only: earlier records
    /// stay, and every other key reads as before.
    pub fn write(&mut self, id: TokenId, owner: Address)
        ensures
            final(self).contents() == old(self).contents().push(
                (OwnerEntry { id, owner }),
            ),
            stored_owner(final(self).contents(), id@) == owner@,
            forall|t: nat|
                t != id@ ==> stored_owner(final(self).contents(), t) == stored_owner(
                    old(self).contents(),
                    t,
                ),
    {
        self.entries.push(OwnerEntry { id, owner });
        proof {
            assert forall|t: nat| true implies stored_owner(final(self).contents(), t) == (if id@
                == t {
                owner@
            } else {
                stored_owner(old(self).contents(), t)
            }) by {
                lemma_stored_owner_write(old(self).contents(), (OwnerEntry { id, owner }), t);
            }
        }
    }
}

} // verus!
