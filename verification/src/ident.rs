//! Attestation identifiers: a counter, written into 32 bytes.
//!
//! Identifiers are handed out in allocation order. The counter moves up by
//! one with each allocation and the identifier is the new counter value in
//! big-endian form, so two different counter values never share an
//! identifier.

use vstd::prelude::*;

verus! {

/// The counter after one more allocation; it stays at the largest value.
pub open spec fn next_counter(c: u64) -> u64 {
    if c < u64::MAX {
        (c + 1) as u64
    } else {
        c
    }
}

/// `n` with its `k` lowest base-256 digits dropped.
pub open spec fn drop_digits(n: nat, k: nat) -> nat
    decreases k,
{
    if k == 0 {
        n
    } else {
        drop_digits(n / 256, (k - 1) as nat)
    }
}

/// The `len` lowest base-256 digits of `n`, most significant first.
pub open spec fn be_digits(n: nat, len: nat) -> Seq<u8>
    decreases len,
{
    if len == 0 {
        Seq::empty()
    } else {
        be_digits(n / 256, (len - 1) as nat).push((n % 256) as u8)
    }
}

/// The identifier of the attestation allocated at counter value `n`: `n` in
/// 32 bytes, most significant first.
pub open spec fn id_bytes(n: u64) -> Seq<u8> {
    be_digits(n as nat, 32)
}

/// Digit `i` of `be_digits(n, len)` is the digit of `n` at place
/// `len - 1 - i`.
pub proof fn lemma_digit_at(n: nat, len: nat, i: int)
    requires
        0 <= i < len,
    ensures
        be_digits(n, len).len() == len,
        be_digits(n, len)[i] == (drop_digits(n, (len - 1 - i) as nat) % 256) as u8,
    decreases len,
{
    lemma_digits_len(n, len);
    if i < len - 1 {
        lemma_digits_len(n / 256, (len - 1) as nat);
        lemma_digit_at(n / 256, (len - 1) as nat, i);
    }
}

/// `be_digits(n, len)` has `len` digits.
pub proof fn lemma_digits_len(n: nat, len: nat)
    ensures
        be_digits(n, len).len() == len,
    decreases len,
{
    if len > 0 {
        lemma_digits_len(n / 256, (len - 1) as nat);
    }
}

/// Dropping `j` digits and then `k` more drops `j + k` digits.
pub proof fn lemma_drop_digits_twice(n: nat, j: nat, k: nat)
    ensures
        drop_digits(n, j + k) == drop_digits(drop_digits(n, j), k),
    decreases j,
{
    if j > 0 {
        lemma_drop_digits_twice(n / 256, (j - 1) as nat, k);
    }
}

/// Zero has no digits to drop.
pub proof fn lemma_drop_digits_zero(k: nat)
    ensures
        drop_digits(0, k) == 0,
    decreases k,
{
    if k > 0 {
        lemma_drop_digits_zero((k - 1) as nat);
    }
}

/// A 64-bit value has eight digits: nothing is left once they are dropped.
pub proof fn lemma_drop_digits_u64(n: u64, k: nat)
    requires
        k >= 8,
    ensures
        drop_digits(n as nat, k) == 0,
{
    reveal_with_fuel(drop_digits, 9);
    assert(drop_digits(n as nat, 8) == 0);
    lemma_drop_digits_twice(n as nat, 8, (k - 8) as nat);
    lemma_drop_digits_zero((k - 8) as nat);
}

/// Two numbers with the same `len` lowest digits and the same digits above
/// them are the same number.
pub proof fn lemma_digits_determine(a: nat, b: nat, len: nat)
    requires
        be_digits(a, len) == be_digits(b, len),
        drop_digits(a, len) == drop_digits(b, len),
    ensures
        a == b,
    decreases len,
{
    if len > 0 {
        let sa = be_digits(a / 256, (len - 1) as nat);
        let sb = be_digits(b / 256, (len - 1) as nat);
        let da = (a % 256) as u8;
        let db = (b % 256) as u8;
        assert(sa.push(da).drop_last() == sa);
        assert(sb.push(db).drop_last() == sb);
        assert(sa.push(da).last() == da);
        assert(sb.push(db).last() == db);
        lemma_digits_determine(a / 256, b / 256, (len - 1) as nat);
    }
}

/// Different counter values have different identifiers.
pub proof fn lemma_id_bytes_injective(a: u64, b: u64)
    requires
        id_bytes(a) == id_bytes(b),
    ensures
        a == b,
{
    lemma_drop_digits_u64(a, 32);
    lemma_drop_digits_u64(b, 32);
    lemma_digits_determine(a as nat, b as nat, 32);
}

/// An identifier is 32 bytes long; the counter value sits in the last
/// eight, and the 24 bytes before them are zero.
pub proof fn lemma_id_bytes_shape(n: u64)
    ensures
        id_bytes(n).len() == 32,
        forall|i: int| 0 <= i < 24 ==> id_bytes(n)[i] == 0,
{
    lemma_digits_len(n as nat, 32);
    assert forall|i: int| 0 <= i < 24 implies id_bytes(n)[i] == 0 by {
        lemma_digit_at(n as nat, 32, i);
        lemma_drop_digits_u64(n, (31 - i) as nat);
    }
}

/// Writes the counter value `n` as an identifier.
pub fn attestation_id(n: u64) -> (id: [u8; 32])
    ensures
        id@ == id_bytes(n),
{
    let mut id = [0u8; 32];
    let mut rest: u64 = n;
    let mut i: usize = 32;
    while i > 0
        invariant
            i <= 32,
            rest as nat == drop_digits(n as nat, (32 - i) as nat),
            forall|j: int|
                i <= j < 32 ==> id[j] == (drop_digits(n as nat, (31 - j) as nat) % 256) as u8,
        decreases i,
    {
        i -= 1;
        id[i] = (rest % 256) as u8;
        proof {
            lemma_drop_digits_twice(n as nat, (31 - i) as nat, 1);
            reveal_with_fuel(drop_digits, 2);
        }
        rest = rest / 256;
    }
    proof {
        assert forall|j: int| 0 <= j < 32 implies id@[j] == id_bytes(n)[j] by {
            lemma_digit_at(n as nat, 32, j);
        }
        lemma_digits_len(n as nat, 32);
        assert(id@ =~= id_bytes(n));
    }
    id
}

/// Allocates the next attestation identifier: moves the counter on by one,
/// holding it at the largest value, and returns the new counter value with
/// the identifier made from it.
pub fn next_attestation_id(counter: u64) -> (r: (u64, [u8; 32]))
    ensures
        r.0 == next_counter(counter),
        r.1@ == id_bytes(r.0),
{
    let n: u64 = counter.saturating_add(1);
    (n, attestation_id(n))
}

} // verus!
