use vstd::prelude::*;

verus! {

/// A 256-bit unsigned token identifier, stored least-significant word first,
/// mirroring the host's 256-bit storage words. Its mathematical value is
/// `view`, a natural number below `token_id_limit()`.
#[derive(Clone, Copy, PartialEq, Eq, Structural, Debug, Hash)]
pub struct TokenId {
    pub w0: u64,
    pub w1: u64,
    pub w2: u64,
    pub w3: u64,
}

/// 2^64: the radix in which the four words of a token id are read.
pub open spec fn word_radix() -> nat {
    0x1_0000_0000_0000_0000
}

/// 2^256: one more than the largest representable token id.
pub open spec fn token_id_limit() -> nat {
    word_radix() * word_radix() * word_radix() * word_radix()
}

impl View for TokenId {
    type V = nat;

    open spec fn view(&self) -> nat {
        self.w0 as nat + word_radix() * (self.w1 as nat + word_radix() * (self.w2
            as nat + word_radix() * (self.w3 as nat)))
    }
}

impl TokenId {
    /// The first token id ever assigned.
    pub fn zero() -> (r: TokenId)
        ensures
            r@ == 0,
    {
        TokenId { w0: 0, w1: 0, w2: 0, w3: 0 }
    }

    pub fn from_u64(v: u64) -> (r: TokenId)
        ensures
            r@ == v,
    {
        TokenId { w0: v, w1: 0, w2: 0, w3: 0 }
    }

    /// Two token ids with the same mathematical value are the same id.
    pub proof fn lemma_view_injective(a: TokenId, b: TokenId)
        ensures
            (a@ == b@) <==> (a == b),
    {
        if a@ == b@ {
            let k: int = 0x1_0000_0000_0000_0000;
            let ta: int = a.w2 + k * a.w3;
            let tb: int = b.w2 + k * b.w3;
            let sa: int = a.w1 + k * ta;
            let sb: int = b.w1 + k * tb;
            assert(a.w0 + k * sa == b.w0 + k * sb);
            let d1: int = sb - sa;
            assert(a.w0 - b.w0 == k * d1);
            assert(d1 == 0) by {
                if d1 >= 1 {
                    assert(k * d1 >= k * 1);
                } else if d1 <= -1 {
                    assert(k * d1 <= k * -1);
                }
            }
            assert(a.w0 == b.w0);
            assert(sa == sb);
            let d2: int = tb - ta;
            assert(a.w1 - b.w1 == k * d2);
            assert(d2 == 0) by {
                if d2 >= 1 {
                    assert(k * d2 >= k * 1);
                } else if d2 <= -1 {
                    assert(k * d2 <= k * -1);
                }
            }
            assert(a.w1 == b.w1);
            assert(ta == tb);
            let d3: int = b.w3 - a.w3;
            assert(a.w2 - b.w2 == k * d3);
            assert(d3 == 0) by {
                if d3 >= 1 {
                    assert(k * d3 >= k * 1);
                } else if d3 <= -1 {
                    assert(k * d3 <= k * -1);
                }
            }
            assert(a.w2 == b.w2);
            assert(a.w3 == b.w3);
        }
    }

    /// The successor id: this id's value plus one.
    pub fn succ(&self) -> (r: TokenId)
        requires
            self@ + 1 < token_id_limit(),
        ensures
            r@ == self@ + 1,
    {
        if self.w0 < u64::MAX {
            TokenId { w0: self.w0 + 1, w1: self.w1, w2: self.w2, w3: self.w3 }
        } else if self.w1 < u64::MAX {
            TokenId { w0: 0, w1: self.w1 + 1, w2: self.w2, w3: self.w3 }
        } else if self.w2 < u64::MAX {
            TokenId { w0: 0, w1: 0, w2: self.w2 + 1, w3: self.w3 }
        } else {
            proof {
                if self.w3 == u64::MAX {
                    assert(self@ + 1 == token_id_limit());
                    assert(false);
                }
            }
            TokenId { w0: 0, w1: 0, w2: 0, w3: self.w3 + 1 }
        }
    }
}

} // verus!
