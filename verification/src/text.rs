//! Numbers as decimal text, and text put together from pieces.

use vstd::prelude::*;

verus! {

/// The ASCII digit for a value below 10.
pub open spec fn digit(n: nat) -> u8 {
    (0x30 + n % 10) as u8
}

/// A number in decimal, most significant digit first, without leading zeros.
pub open spec fn decimal(n: nat) -> Seq<u8>
    decreases n,
{
    if n < 10 {
        seq![digit(n)]
    } else {
        decimal(n / 10).push(digit(n % 10))
    }
}

/// Appends `bytes` to `out`.
pub fn push_all(out: &mut Vec<u8>, bytes: &[u8])
    ensures
        final(out)@ == old(out)@ + bytes@,
{
    let mut i: usize = 0;
    while i < bytes.len()
        invariant
            i <= bytes.len(),
            out@ == old(out)@ + bytes@.take(i as int),
        decreases bytes.len() - i,
    {
        out.push(bytes[i]);
        assert(bytes@.take(i + 1) =~= bytes@.take(i as int).push(bytes@[i as int]));
        assert(out@ =~= old(out)@ + bytes@.take(i + 1));
        i += 1;
    }
    assert(bytes@.take(i as int) =~= bytes@);
}

/// Appends `n` in decimal to `out`.
pub fn push_decimal(out: &mut Vec<u8>, n: u64)
    ensures
        final(out)@ == old(out)@ + decimal(n as nat),
{
    // The digits, least significant first.
    let mut rev: Vec<u8> = Vec::new();
    let mut rest: u64 = n;
    while rest >= 10
        invariant
            decimal(n as nat) == decimal(rest as nat) + rev@.reverse(),
        decreases rest,
    {
        let d: u8 = (rest % 10) as u8;
        proof {
            let r = rest as nat;
            assert(decimal(r) == decimal(r / 10).push(digit(r % 10)));
            assert(digit(r % 10) == 0x30 + d);
            let grown = rev@.push((0x30 + d) as u8);
            assert(grown.reverse() =~= seq![(0x30 + d) as u8] + rev@.reverse());
            assert(decimal(r / 10).push(digit(r % 10)) + rev@.reverse() =~= decimal(r / 10)
                + grown.reverse());
        }
        rev.push(0x30 + d);
        rest = rest / 10;
    }
    out.push(0x30 + (rest as u8));
    assert(decimal(rest as nat) =~= seq![(0x30 + rest) as u8]);
    let mut k: usize = rev.len();
    while k > 0
        invariant
            k <= rev.len(),
            out@ == old(out)@ + decimal(rest as nat) + rev@.reverse().take(rev.len() - k),
        decreases k,
    {
        k -= 1;
        out.push(rev[k]);
        proof {
            let r = rev@.reverse();
            let j = rev.len() - k - 1;
            assert(r[j] == rev@[k as int]);
            assert(r.take(j + 1) =~= r.take(j).push(r[j]));
            assert(out@ =~= old(out)@ + decimal(rest as nat) + r.take(j + 1));
        }
    }
    proof {
        let r = rev@.reverse();
        assert(r.take(rev.len() as int) =~= r);
        assert(old(out)@ + decimal(rest as nat) + r =~= old(out)@ + (decimal(rest as nat) + r));
    }
}

} // verus!
