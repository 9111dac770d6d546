//! Decimal rendering of payload lengths, for `Content-Length` header values.

use vstd::prelude::*;

verus! {

/// The byte of the ASCII digit `d`.
pub open spec fn digit_byte(d: nat) -> u8
    recommends
        d < 10,
{
    (d + ('0' as u8)) as u8
}

/// The ASCII decimal rendering of `n`, most significant digit first,
/// without leading zeroes (except for `n == 0`, rendered as `"0"`).
pub open spec fn dec_of(n: nat) -> Seq<u8>
    decreases n,
{
    if n < 10 {
        seq![digit_byte(n)]
    } else {
        dec_of(n / 10).push(digit_byte(n % 10))
    }
}

/// The number a sequence of ASCII digits denotes, most significant first.
pub open spec fn dec_val(s: Seq<u8>) -> nat
    decreases s.len(),
{
    if s.len() == 0 {
        0
    } else {
        dec_val(s.drop_last()) * 10 + (if s.last() >= ('0' as u8) {
            (s.last() - ('0' as u8)) as nat
        } else {
            0
        })
    }
}

/// Reading the rendering of `n` back as a number gives `n` again.
pub proof fn lemma_dec_round_trip(n: nat)
    ensures
        dec_val(dec_of(n)) == n,
    decreases n,
{
    if n < 10 {
        assert(dec_of(n) =~= seq![digit_byte(n)]);
        assert(dec_val(dec_of(n)) == n) by {
            reveal_with_fuel(dec_val, 2);
            assert(dec_of(n).drop_last() =~= Seq::<u8>::empty());
        }
    } else {
        lemma_dec_round_trip(n / 10);
        assert(dec_of(n).drop_last() =~= dec_of(n / 10));
        assert(dec_val(dec_of(n)) == (n / 10) * 10 + n % 10);
        assert((n / 10) * 10 + n % 10 == n) by {
            vstd::arithmetic::div_mod::lemma_fundamental_div_mod(n as int, 10);
        }
    }
}

/// Renders `n` in decimal, exactly as [`dec_of`] describes.
pub fn decimal_digits(n: usize) -> (r: Vec<u8>)
    ensures
        r@ == dec_of(n as nat),
    decreases n,
{
    if n < 10 {
        let mut v: Vec<u8> = Vec::new();
        v.push(('0' as u8) + (n as u8));
        proof {
            assert(v@ =~= dec_of(n as nat));
        }
        v
    } else {
        let mut v = decimal_digits(n / 10);
        v.push(('0' as u8) + ((n % 10) as u8));
        proof {
            assert(v@ =~= dec_of(n as nat));
        }
        v
    }
}

} // verus!
