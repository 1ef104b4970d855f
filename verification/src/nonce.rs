//! Nonces as big-endian counters.

use vstd::prelude::*;

verus! {

/// `256` raised to the power `n`: one more than the largest value that `n`
/// bytes can hold.
pub open spec fn pow256(n: nat) -> nat
    decreases n,
{
    if n == 0 {
        1
    } else {
        256 * pow256((n - 1) as nat)
    }
}

/// The number that a byte string stands for, read big-endian (first byte
/// most significant).
pub open spec fn be_value(s: Seq<u8>) -> nat
    decreases s.len(),
{
    if s.len() == 0 {
        0
    } else {
        (s[0] as nat) * pow256((s.len() - 1) as nat) + be_value(s.drop_first())
    }
}

/// `pow256` is positive.
pub proof fn lemma_pow256_positive(n: nat)
    ensures
        pow256(n) > 0,
    decreases n,
{
    if n > 0 {
        lemma_pow256_positive((n - 1) as nat);
    }
}

/// A byte string of length `n` stands for a number below `256^n`.
pub proof fn lemma_be_value_bound(s: Seq<u8>)
    ensures
        be_value(s) < pow256(s.len()),
    decreases s.len(),
{
    if s.len() > 0 {
        let p = pow256((s.len() - 1) as nat);
        let x = s[0];
        let r = be_value(s.drop_first());
        lemma_be_value_bound(s.drop_first());
        assert(x * p + r < 256 * p) by (nonlinear_arith)
            requires
                x <= 255,
                r < p,
        ;
    }
}

/// A byte string stands for `256^n - 1`, the largest value of its length,
/// exactly when every byte is `0xff`.
pub proof fn lemma_be_value_max(s: Seq<u8>)
    ensures
        be_value(s) + 1 == pow256(s.len()) <==> (forall|i: int| 0 <= i < s.len() ==> s[i] == 0xff),
    decreases s.len(),
{
    if s.len() > 0 {
        let p = pow256((s.len() - 1) as nat);
        let x = s[0] as int;
        let rest = s.drop_first();
        let r = be_value(rest) as int;
        lemma_be_value_max(rest);
        lemma_be_value_bound(rest);
        lemma_pow256_positive((s.len() - 1) as nat);
        if be_value(s) + 1 == pow256(s.len()) {
            assert(x == 255 && r + 1 == p) by (nonlinear_arith)
                requires
                    x * p + r + 1 == 256 * p,
                    0 <= x <= 255,
                    0 <= r < p,
            ;
            assert forall|i: int| 0 <= i < s.len() implies s[i] == 0xff by {
                if i > 0 {
                    assert(s[i] == rest[i - 1]);
                }
            }
        }
        if forall|i: int| 0 <= i < s.len() ==> s[i] == 0xff {
            assert forall|i: int| 0 <= i < rest.len() implies rest[i] == 0xff by {
                assert(rest[i] == s[i + 1]);
            }
            assert(s[0] == 0xff);
            assert(x * p + r + 1 == 256 * p) by (nonlinear_arith)
                requires
                    x == 255,
                    r + 1 == p,
            ;
        }
    }
}

/// A byte string stands for zero exactly when every byte is zero.
pub proof fn lemma_be_value_zero(s: Seq<u8>)
    ensures
        be_value(s) == 0 <==> (forall|i: int| 0 <= i < s.len() ==> s[i] == 0),
    decreases s.len(),
{
    if s.len() > 0 {
        let p = pow256((s.len() - 1) as nat);
        let x = s[0] as int;
        let rest = s.drop_first();
        lemma_be_value_zero(rest);
        lemma_pow256_positive((s.len() - 1) as nat);
        if be_value(s) == 0 {
            assert(x == 0) by (nonlinear_arith)
                requires
                    x * p + be_value(rest) == 0,
                    0 <= x,
                    p > 0,
            ;
            assert forall|i: int| 0 <= i < s.len() implies s[i] == 0 by {
                if i > 0 {
                    assert(s[i] == rest[i - 1]);
                }
            }
        }
        if forall|i: int| 0 <= i < s.len() ==> s[i] == 0 {
            assert forall|i: int| 0 <= i < rest.len() implies rest[i] == 0 by {
                assert(rest[i] == s[i + 1]);
            }
            assert(s[0] == 0);
        }
    }
}

/// A byte string of a given length is fixed by the number it stands for.
pub proof fn lemma_be_value_injective(a: Seq<u8>, b: Seq<u8>)
    requires
        a.len() == b.len(),
        be_value(a) == be_value(b),
    ensures
        a == b,
    decreases a.len(),
{
    if a.len() > 0 {
        let p = pow256((a.len() - 1) as nat);
        let ra = be_value(a.drop_first()) as int;
        let rb = be_value(b.drop_first()) as int;
        let xa = a[0] as int;
        let xb = b[0] as int;
        lemma_be_value_bound(a.drop_first());
        lemma_be_value_bound(b.drop_first());
        assert(xa == xb && ra == rb) by (nonlinear_arith)
            requires
                xa * p + ra == xb * p + rb,
                0 <= ra < p,
                0 <= rb < p,
                0 <= xa,
                0 <= xb,
        ;
        lemma_be_value_injective(a.drop_first(), b.drop_first());
        assert(a =~= seq![a[0]] + a.drop_first());
        assert(b =~= seq![b[0]] + b.drop_first());
    } else {
        assert(a =~= b);
    }
}

/// `next` is what one increment makes of `prev`: the same length, and the
/// next value modulo `256^len`.
pub open spec fn increments(prev: Seq<u8>, next: Seq<u8>) -> bool {
    &&& next.len() == prev.len()
    &&& be_value(next) == (be_value(prev) + 1) % pow256(prev.len())
}

/// `states` is a run of successive increments: each state is what one
/// increment makes of the one before it.
pub open spec fn increment_chain(states: Seq<Seq<u8>>) -> bool {
    forall|i: int| 0 <= i < states.len() - 1 ==> increments(#[trigger] states[i], states[i + 1])
}

/// After `j` successive increments a nonce keeps its length and stands for
/// its first value plus `j`, modulo `256^len`; the increment that leads from
/// state `j` wraps exactly when the first value plus `j + 1` is a multiple of
/// `256^len`.
pub proof fn lemma_increment_chain(states: Seq<Seq<u8>>, j: int)
    requires
        increment_chain(states),
        0 <= j < states.len(),
    ensures
        states[j].len() == states[0].len(),
        be_value(states[j]) == (be_value(states[0]) + j) % (pow256(states[0].len()) as int),
        be_value(states[j]) + 1 == pow256(states[0].len()) <==> (be_value(states[0]) + j + 1)
            % (pow256(states[0].len()) as int) == 0,
    decreases j,
{
    let p = pow256(states[0].len());
    let b0 = be_value(states[0]);
    lemma_pow256_positive(states[0].len());
    lemma_be_value_bound(states[0]);
    if j == 0 {
        vstd::arithmetic::div_mod::lemma_small_mod(b0, p);
    } else {
        lemma_increment_chain(states, j - 1);
        assert(increments(states[j - 1], states[j]));
        vstd::arithmetic::div_mod::lemma_add_mod_noop_right(1, b0 + j - 1, p as int);
        assert((1 + (b0 + j - 1)) == b0 + j);
    }
    let v = be_value(states[j]) as int;
    assert(v < p) by {
        lemma_be_value_bound(states[j]);
    }
    vstd::arithmetic::div_mod::lemma_add_mod_noop_right(1, b0 + j, p as int);
    assert((1 + (b0 + j)) == b0 + j + 1);
    if v + 1 < p {
        vstd::arithmetic::div_mod::lemma_small_mod((v + 1) as nat, p);
    } else {
        vstd::arithmetic::div_mod::lemma_mod_self_0(p as int);
    }
}

/// A run of `256^len` increments brings a nonce back to where it started,
/// and exactly one of those increments wraps: the one from state
/// `256^len - 1 - first value`.
pub proof fn lemma_increment_period(states: Seq<Seq<u8>>)
    requires
        increment_chain(states),
        states.len() == pow256(states[0].len()) + 1,
    ensures
        states[states.len() - 1] == states[0],
        forall|i: int|
            0 <= i < states.len() - 1 ==> (be_value(#[trigger] states[i]) + 1 == pow256(
                states[0].len(),
            ) <==> i == pow256(states[0].len()) - 1 - be_value(states[0])),
{
    let p = pow256(states[0].len());
    let b0 = be_value(states[0]);
    lemma_pow256_positive(states[0].len());
    lemma_be_value_bound(states[0]);
    lemma_increment_chain(states, p as int);
    vstd::arithmetic::div_mod::lemma_mod_multiples_vanish(1, b0 as int, p as int);
    vstd::arithmetic::div_mod::lemma_small_mod(b0, p);
    assert(p * 1 + b0 == b0 + p);
    lemma_be_value_injective(states[p as int], states[0]);
    assert forall|i: int|
        0 <= i < states.len() - 1 implies (be_value(#[trigger] states[i]) + 1 == p <==> i == p - 1
        - b0) by {
        lemma_increment_chain(states, i);
        let x = b0 + i + 1;
        if x < p {
            vstd::arithmetic::div_mod::lemma_small_mod(x as nat, p);
        } else {
            vstd::arithmetic::div_mod::lemma_mod_multiples_vanish(1, x - p, p as int);
            assert(p * 1 + (x - p) == x);
            vstd::arithmetic::div_mod::lemma_small_mod((x - p) as nat, p);
        }
    }
}

/// Increment a nonce by one, treating it as a big-endian counter that wraps
/// around to zero. Returns `true` when it wrapped, that is when every byte was
/// `0xff` before the call (and, for an empty nonce, always).
pub fn increment_nonce(nonce: &mut [u8]) -> (wrapped: bool)
    ensures
        increments(old(nonce)@, final(nonce)@),
        final(nonce)@.len() == old(nonce)@.len(),
        be_value(final(nonce)@) == (be_value(old(nonce)@) + 1) % pow256(old(nonce)@.len()),
        wrapped <==> be_value(old(nonce)@) + 1 == pow256(old(nonce)@.len()),
        wrapped <==> (forall|i: int| 0 <= i < old(nonce)@.len() ==> old(nonce)@[i] == 0xff),
        wrapped ==> (forall|i: int| 0 <= i < final(nonce)@.len() ==> final(nonce)@[i] == 0),
{
    let ghost orig: Seq<u8> = nonce@;
    let n: usize = nonce.len();
    let mut carry: u8 = 1;
    let mut i: usize = n;
    proof {
        assert(orig.subrange(n as int, n as int) =~= Seq::<u8>::empty());
        assert(nonce@.subrange(n as int, n as int) =~= Seq::<u8>::empty());
    }
    while i > 0
        invariant
            i <= n,
            n == orig.len(),
            nonce@.len() == n,
            carry <= 1,
            forall|k: int| 0 <= k < i ==> nonce@[k] == orig[k],
            be_value(orig.subrange(i as int, n as int)) + 1 == be_value(
                nonce@.subrange(i as int, n as int),
            ) + carry * pow256((n - i) as nat),
        decreases i,
    {
        i = i - 1;
        let ghost prev: Seq<u8> = nonce@;
        let ghost c: int = carry as int;
        let x: u8 = nonce[i];
        let sum: u16 = x as u16 + carry as u16;
        if sum >= 256 {
            nonce[i] = 0;
            carry = 1;
        } else {
            nonce[i] = sum as u8;
            carry = 0;
        }
        proof {
            let p = pow256((n - i - 1) as nat);
            let y = nonce@[i as int];
            let c2 = carry as int;
            assert(x + c == y + 256 * c2);
            assert(orig[i as int] == x);
            assert(orig.subrange(i as int, n as int).drop_first() =~= orig.subrange(
                i + 1,
                n as int,
            ));
            assert(nonce@.subrange(i as int, n as int).drop_first() =~= prev.subrange(
                i + 1,
                n as int,
            ));
            assert(orig.subrange(i as int, n as int)[0] == x);
            assert(nonce@.subrange(i as int, n as int)[0] == y);
            let ov = be_value(orig.subrange(i + 1, n as int));
            let nv = be_value(prev.subrange(i + 1, n as int));
            assert(be_value(orig.subrange(i as int, n as int)) == x * p + ov);
            assert(be_value(nonce@.subrange(i as int, n as int)) == y * p + nv);
            assert(pow256((n - i) as nat) == 256 * p);
            assert(ov + 1 == nv + c * p);
            assert(x * p + ov + 1 == y * p + nv + c2 * (256 * p)) by (nonlinear_arith)
                requires
                    x + c == y + 256 * c2,
                    ov + 1 == nv + c * p,
            ;
        }
    }
    proof {
        assert(orig.subrange(0, n as int) =~= orig);
        assert(nonce@.subrange(0, n as int) =~= nonce@);
        lemma_be_value_bound(orig);
        lemma_be_value_bound(nonce@);
        lemma_be_value_max(orig);
        lemma_be_value_zero(nonce@);
        let m = pow256(n as nat);
        if carry == 1 {
            vstd::arithmetic::div_mod::lemma_mod_self_0(m as int);
        } else {
            vstd::arithmetic::div_mod::lemma_small_mod((be_value(orig) + 1) as nat, m);
        }
    }
    carry != 0
}

} // verus!
