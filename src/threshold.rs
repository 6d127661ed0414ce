//! Key shares and signature aggregation for the threshold demonstration.
//!
//! The shares are random byte strings of the secret key's length, one per
//! share number; they are not a secret-sharing of the key. Aggregation keeps
//! the first partial signature.
use std::collections::HashMap;
use vstd::prelude::*;
use vstd::slice::slice_subrange;
use vstd::slice::slice_to_vec;

verus! {

broadcast use vstd::std_specs::hash::group_hash_axioms;

/// Number of partial signatures that are gathered.
pub const THRESHOLD: usize = 3;

/// Number of key shares that are generated.
pub const TOTAL_SHARES: usize = 5;

/// Relies on rand::random: a value drawn from the thread-local generator.
pub assume_specification<T>[ rand::random::<T> ]() -> T
    where
        rand::distributions::Standard: rand::distributions::Distribution<T>,
;

/// `count` random bytes.
pub fn random_bytes(count: usize) -> (r: Vec<u8>)
    ensures
        r@.len() == count,
{
    let mut r: Vec<u8> = Vec::new();
    let mut i: usize = 0;
    while i < count
        invariant
            0 <= i <= count,
            r@.len() == i,
        decreases count - i,
    {
        let b: u8 = rand::random::<u8>();
        r.push(b);
        i = i + 1;
    }
    r
}

/// The share map is keyed by the share numbers `0..TOTAL_SHARES`, and each
/// share has `secret_key_len` bytes.
pub open spec fn shares_shaped(shares: Map<usize, Vec<u8>>, secret_key_len: nat) -> bool {
    &&& forall|i: usize| #[trigger] shares.contains_key(i) <==> i < TOTAL_SHARES
    &&& forall|i: usize| #[trigger] shares.contains_key(i) ==> shares[i]@.len() == secret_key_len
}

/// Share `i` holds the `i`-th run of `share_len` bytes of `drawn`.
pub open spec fn shares_cut_from(shares: Map<usize, Vec<u8>>, drawn: Seq<u8>, share_len: nat) -> bool {
    forall|i: usize|
        #[trigger] shares.contains_key(i) ==> shares[i]@ == drawn.subrange(
            i * share_len,
            (i + 1) * share_len,
        )
}

/// Cuts `drawn` into `TOTAL_SHARES` key shares of `share_len` bytes each,
/// share `i` taking the `i`-th run.
pub fn shares_from_bytes(drawn: &[u8], share_len: usize) -> (r: HashMap<usize, Vec<u8>>)
    requires
        drawn@.len() == TOTAL_SHARES * share_len,
        TOTAL_SHARES * share_len <= usize::MAX,
    ensures
        shares_shaped(r@, share_len as nat),
        shares_cut_from(r@, drawn@, share_len as nat),
{
    let mut shares: HashMap<usize, Vec<u8>> = HashMap::new();
    let mut i: usize = 0;
    while i < TOTAL_SHARES
        invariant
            0 <= i <= TOTAL_SHARES,
            drawn@.len() == TOTAL_SHARES * share_len,
            TOTAL_SHARES * share_len <= usize::MAX,
            forall|j: usize| #[trigger] shares@.contains_key(j) <==> j < i,
            forall|j: usize| #[trigger] shares@.contains_key(j) ==> shares@[j]@.len() == share_len,
            shares_cut_from(shares@, drawn@, share_len as nat),
        decreases TOTAL_SHARES - i,
    {
        let ghost n = share_len as int;
        let ghost k = i as int;
        assert(k * n <= (k + 1) * n <= 5 * n && (k + 1) * n - k * n == n) by (nonlinear_arith)
            requires
                0 <= k < 5,
                0 <= n,
        ;
        assert(drawn@.len() == 5 * n);
        let start: usize = i * share_len;
        let end: usize = (i + 1) * share_len;
        let share = slice_to_vec(slice_subrange(drawn, start, end));
        shares.insert(i, share);
        i = i + 1;
    }
    shares
}

/// Makes `TOTAL_SHARES` random key shares, each as long as the secret key.
pub fn split_private_key(secret_key_len: usize) -> (r: HashMap<usize, Vec<u8>>)
    requires
        TOTAL_SHARES * secret_key_len <= usize::MAX,
    ensures
        shares_shaped(r@, secret_key_len as nat),
{
    let drawn = random_bytes(TOTAL_SHARES * secret_key_len);
    shares_from_bytes(drawn.as_slice(), secret_key_len)
}

/// How many partial signatures are gathered from `share_count` shares: at
/// most `THRESHOLD`.
pub fn partial_signature_count(share_count: usize) -> (r: usize)
    ensures
        r == if share_count < THRESHOLD { share_count } else { THRESHOLD },
{
    if share_count < THRESHOLD {
        share_count
    } else {
        THRESHOLD
    }
}

/// Combines partial signatures into one: the first partial signature.
pub fn aggregate_signatures(partial_sigs: Vec<Vec<u8>>) -> (r: Vec<u8>)
    requires
        partial_sigs@.len() > 0,
    ensures
        r@ == partial_sigs@[0]@,
{
    slice_to_vec(partial_sigs[0].as_slice())
}

} // verus!
