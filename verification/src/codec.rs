use vstd::prelude::*;
use crate::address::Address;
use crate::token::TokenId;

verus! {

/// The big-endian byte image of one 64-bit word.
pub open spec fn word_bytes(w: u64) -> Seq<u8> {
    seq![
        (w >> 56) as u8,
        (w >> 48) as u8,
        (w >> 40) as u8,
        (w >> 32) as u8,
        (w >> 24) as u8,
        (w >> 16) as u8,
        (w >> 8) as u8,
        w as u8,
    ]
}

/// The 64-bit word read back from eight big-endian bytes.
pub open spec fn word_of_bytes(b: Seq<u8>) -> u64 {
    (((b[0] as u64) << 56) | ((b[1] as u64) << 48) | ((b[2] as u64) << 40) | ((b[3] as u64)
        << 32) | ((b[4] as u64) << 24) | ((b[5] as u64) << 16) | ((b[6] as u64) << 8) | (b[7]
        as u64))
}

/// Reading back the byte image of a word yields the word.
pub proof fn lemma_word_round_trip(w: u64)
    ensures
        word_of_bytes(word_bytes(w)) == w,
{
    assert((((((w >> 56) as u8) as u64) << 56) | ((((w >> 48) as u8) as u64) << 48) | ((((w
        >> 40) as u8) as u64) << 40) | ((((w >> 32) as u8) as u64) << 32) | ((((w >> 24) as u8)
        as u64) << 24) | ((((w >> 16) as u8) as u64) << 16) | ((((w >> 8) as u8) as u64) << 8) | ((
    w as u8) as u64)) == w) by (bit_vector);
}

/// The 32-byte big-endian storage word of a token id: this is how the
/// host's fixed-width slot represents the counter and a mapping key.
pub open spec fn token_id_word(t: TokenId) -> Seq<u8> {
    word_bytes(t.w3) + word_bytes(t.w2) + word_bytes(t.w1) + word_bytes(t.w0)
}

/// The token id read back from a 32-byte big-endian storage word.
pub open spec fn token_id_of_word(b: Seq<u8>) -> TokenId {
    TokenId {
        w3: word_of_bytes(b.subrange(0, 8)),
        w2: word_of_bytes(b.subrange(8, 16)),
        w1: word_of_bytes(b.subrange(16, 24)),
        w0: word_of_bytes(b.subrange(24, 32)),
    }
}

/// Reading back the storage word of a token id yields the id.
pub proof fn lemma_token_id_word_round_trip(t: TokenId)
    ensures
        token_id_of_word(token_id_word(t)) == t,
{
    assert(token_id_word(t).subrange(0, 8) =~= word_bytes(t.w3));
    assert(token_id_word(t).subrange(8, 16) =~= word_bytes(t.w2));
    assert(token_id_word(t).subrange(16, 24) =~= word_bytes(t.w1));
    assert(token_id_word(t).subrange(24, 32) =~= word_bytes(t.w0));
    lemma_word_round_trip(t.w3);
    lemma_word_round_trip(t.w2);
    lemma_word_round_trip(t.w1);
    lemma_word_round_trip(t.w0);
}

/// The 32-byte storage word of an address: twelve zero bytes of padding,
/// then the twenty address bytes.
pub open spec fn address_word(a: Seq<u8>) -> Seq<u8> {
    Seq::new(32, |i: int| if i < 12 { 0u8 } else { a[i - 12] })
}

/// Reading the address bytes back out of its storage word yields the
/// address.
pub proof fn lemma_address_word_round_trip(a: Seq<u8>)
    requires
        a.len() == 20,
    ensures
        address_word(a).subrange(12, 32) == a,
{
    assert(address_word(a).subrange(12, 32) =~= a);
}

/// Append the eight big-endian bytes of `w`.
fn push_word_bytes(v: &mut Vec<u8>, w: u64)
    ensures
        final(v)@ == old(v)@ + word_bytes(w),
{
    v.push(#[verifier::truncate] ((w >> 56) as u8));
    v.push(#[verifier::truncate] ((w >> 48) as u8));
    v.push(#[verifier::truncate] ((w >> 40) as u8));
    v.push(#[verifier::truncate] ((w >> 32) as u8));
    v.push(#[verifier::truncate] ((w >> 24) as u8));
    v.push(#[verifier::truncate] ((w >> 16) as u8));
    v.push(#[verifier::truncate] ((w >> 8) as u8));
    v.push(#[verifier::truncate] (w as u8));
    proof {
        assert(v@ =~= old(v)@ + word_bytes(w));
    }
}

/// Encode a token id as its 32-byte big-endian storage word.
pub fn encode_token_id(t: &TokenId) -> (r: Vec<u8>)
    ensures
        r@ == token_id_word(*t),
{
    let mut v: Vec<u8> = Vec::new();
    push_word_bytes(&mut v, t.w3);
    push_word_bytes(&mut v, t.w2);
    push_word_bytes(&mut v, t.w1);
    push_word_bytes(&mut v, t.w0);
    proof {
        assert(v@ =~= token_id_word(*t));
    }
    v
}

/// Read one 64-bit word out of eight big-endian bytes at `off`.
fn read_word(b: &Vec<u8>, off: usize) -> (r: u64)
    requires
        off + 8 <= b@.len(),
    ensures
        r == word_of_bytes(b@.subrange(off as int, off as int + 8)),
{
    let n: usize = b.len();
    proof {
        assert(off + 8 <= n);
    }
    ((b[off] as u64) << 56) | ((b[off + 1] as u64) << 48) | ((b[off + 2] as u64) << 40) | ((b[off
        + 3] as u64) << 32) | ((b[off + 4] as u64) << 24) | ((b[off + 5] as u64) << 16) | ((b[off
        + 6] as u64) << 8) | (b[off + 7] as u64)
}

/// Decode a token id from its 32-byte big-endian storage word.
pub fn decode_token_id(b: &Vec<u8>) -> (t: TokenId)
    requires
        b@.len() == 32,
    ensures
        t == token_id_of_word(b@),
{
    let w3: u64 = read_word(b, 0);
    let w2: u64 = read_word(b, 8);
    let w1: u64 = read_word(b, 16);
    let w0: u64 = read_word(b, 24);
    TokenId { w0, w1, w2, w3 }
}

/// Encode an address as its 32-byte storage word: twelve zero bytes of
/// padding, then the twenty address bytes.
pub fn encode_address(a: &Address) -> (r: Vec<u8>)
    ensures
        r@ == address_word(a@),
{
    let mut v: Vec<u8> = Vec::new();
    let mut i: usize = 0;
    while i < 12
        invariant
            i <= 12,
            v@.len() == i,
            forall|j: int| 0 <= j < i ==> v@[j] == 0,
        decreases 12 - i,
    {
        v.push(0u8);
        i += 1;
    }
    let mut k: usize = 0;
    while k < 20
        invariant
            k <= 20,
            v@.len() == 12 + k,
            forall|j: int| 0 <= j < 12 ==> v@[j] == 0,
            forall|j: int| 0 <= j < k ==> v@[12 + j] == a@[j],
        decreases 20 - k,
    {
        v.push(a.bytes[k]);
        k += 1;
    }
    proof {
        assert(v@ =~= address_word(a@));
    }
    v
}

/// Decode an address from its 32-byte storage word, taking the twenty
/// low-order bytes.
pub fn decode_address(w: &Vec<u8>) -> (a: Address)
    requires
        w@.len() == 32,
    ensures
        a@ == w@.subrange(12, 32),
{
    let bytes: [u8; 20] = [
        w[12],
        w[13],
        w[14],
        w[15],
        w[16],
        w[17],
        w[18],
        w[19],
        w[20],
        w[21],
        w[22],
        w[23],
        w[24],
        w[25],
        w[26],
        w[27],
        w[28],
        w[29],
        w[30],
        w[31],
    ];
    let a = Address { bytes };
    proof {
        assert(a@ =~= w@.subrange(12, 32));
    }
    a
}

} // verus!
