use crate::ident::Encoding;
use vstd::prelude::*;

verus! {

/// The bytes of a field reordered so that the most significant comes first.
pub open spec fn msb_first(s: Seq<u8>, enc: Encoding) -> Seq<u8> {
    match enc {
        Encoding::Little => s.reverse(),
        Encoding::Big => s,
    }
}

/// Value of a byte string read most significant byte first.
pub open spec fn be_value(s: Seq<u8>) -> nat
    decreases s.len(),
{
    if s.len() == 0 {
        0
    } else {
        be_value(s.drop_last()) * 256 + s.last() as nat
    }
}

/// Value of the unsigned integer stored in `s` under byte order `enc`.
pub open spec fn uint_value(s: Seq<u8>, enc: Encoding) -> nat {
    be_value(msb_first(s, enc))
}

pub open spec fn pow256(n: nat) -> nat
    decreases n,
{
    if n == 0 {
        1
    } else {
        256 * pow256((n - 1) as nat)
    }
}

proof fn lemma_be_value_bound(s: Seq<u8>)
    ensures
        be_value(s) < pow256(s.len()),
    decreases s.len(),
{
    if s.len() > 0 {
        lemma_be_value_bound(s.drop_last());
        let p = pow256(s.drop_last().len());
        let v = be_value(s.drop_last());
        let b = s.last() as nat;
        assert(v * 256 + b < 256 * p) by (nonlinear_arith)
            requires
                v < p,
                b < 256,
        ;
    }
}

proof fn lemma_pow256_monotone(k: nat)
    requires
        k <= 8,
    ensures
        pow256(k) <= pow256(8),
        pow256(8) == 0x1_0000_0000_0000_0000,
    decreases 8 - k,
{
    reveal_with_fuel(pow256, 9);
    if k < 8 {
        lemma_pow256_monotone(k + 1);
    }
}

/// The bounds of the integer types that header fields are stored in.
pub proof fn lemma_pow256_values()
    ensures
        pow256(2) == 0x1_0000,
        pow256(4) == 0x1_0000_0000,
        pow256(8) == 0x1_0000_0000_0000_0000,
{
    reveal_with_fuel(pow256, 9);
}

/// Reads the unsigned integer of `width` bytes that starts at `offset`,
/// in byte order `enc`.
pub fn read_uint(bytes: &[u8], offset: usize, width: usize, enc: Encoding) -> (r: u64)
    requires
        offset + width <= bytes@.len(),
        width <= 8,
    ensures
        r as nat == uint_value(bytes@.subrange(offset as int, offset + width), enc),
        (r as nat) < pow256(width as nat),
{
    let ghost window = bytes@.subrange(offset as int, offset + width);
    let ghost ordered = msb_first(window, enc);
    let len = bytes.len();
    let mut acc: u64 = 0;
    let mut k: usize = 0;
    while k < width
        invariant
            len == bytes@.len(),
            offset + width <= len,
            width <= 8,
            window == bytes@.subrange(offset as int, offset + width),
            ordered == msb_first(window, enc),
            ordered.len() == width,
            k <= width,
            acc as nat == be_value(ordered.take(k as int)),
        decreases width - k,
    {
        let idx: usize = match enc {
            Encoding::Little => offset + (width - 1 - k),
            Encoding::Big => offset + k,
        };
        let b = bytes[idx];
        proof {
            assert(ordered[k as int] == b);
            let next = ordered.take(k + 1);
            assert(next.drop_last() =~= ordered.take(k as int));
            lemma_be_value_bound(ordered.take(k as int));
            lemma_pow256_monotone(k as nat);
            lemma_pow256_monotone((k + 1) as nat);
            assert(pow256((k + 1) as nat) == 256 * pow256(k as nat));
            assert(acc * 256 + b < 256 * pow256(k as nat)) by (nonlinear_arith)
                requires
                    acc < pow256(k as nat),
                    b < 256,
            ;
        }
        acc = acc * 256 + b as u64;
        k = k + 1;
    }
    assert(ordered.take(width as int) =~= ordered);
    proof {
        lemma_be_value_bound(ordered);
    }
    acc
}

} // verus!
