//! The byte-level model: little-endian byte representations of natural
//! numbers, the all-zero pattern, and the exact byte comparison that decides
//! whether a candidate value carries the zero pattern.

use vstd::prelude::*;

verus! {

/// The all-zero byte pattern of `n` bytes.
pub open spec fn seq_zero(n: nat) -> Seq<u8> {
    Seq::new(n, |i: int| 0u8)
}

/// `256^n`: one more than the largest value representable in `n` bytes.
pub open spec fn pow256(n: nat) -> nat
    decreases n,
{
    if n == 0 {
        1
    } else {
        256 * pow256((n - 1) as nat)
    }
}

/// The little-endian `n`-byte representation of `x`.
pub open spec fn le_bytes(x: nat, n: nat) -> Seq<u8>
    decreases n,
{
    if n == 0 {
        Seq::empty()
    } else {
        seq![(x % 256) as u8] + le_bytes(x / 256, (n - 1) as nat)
    }
}

/// The powers of 256 at the widths of the supported primitive types.
pub proof fn lemma_pow256_widths()
    ensures
        pow256(1) == 0x100,
        pow256(2) == 0x1_0000,
        pow256(4) == 0x1_0000_0000,
        pow256(8) == 0x1_0000_0000_0000_0000,
        pow256(16) == 0x1_0000_0000_0000_0000_0000_0000_0000_0000,
{
    reveal_with_fuel(pow256, 17);
}

/// A little-endian representation has exactly `n` bytes.
pub proof fn lemma_le_bytes_len(x: nat, n: nat)
    ensures
        le_bytes(x, n).len() == n,
    decreases n,
{
    if n > 0 {
        lemma_le_bytes_len(x / 256, (n - 1) as nat);
    }
}

/// An in-range value's bytes are all zero exactly when the value is zero.
pub proof fn lemma_le_bytes_zero_iff(x: nat, n: nat)
    requires
        x < pow256(n),
    ensures
        (le_bytes(x, n) == seq_zero(n)) <==> (x == 0),
    decreases n,
{
    lemma_le_bytes_len(x, n);
    if n == 0 {
        assert(le_bytes(x, n) =~= seq_zero(n));
    } else {
        let tail_len = (n - 1) as nat;
        let quot = x / 256;
        let rem = x % 256;
        vstd::arithmetic::div_mod::lemma_fundamental_div_mod(x as int, 256);
        assert(quot < pow256(tail_len)) by (nonlinear_arith)
            requires
                x < 256 * pow256(tail_len),
                quot == x / 256,
        ;
        lemma_le_bytes_zero_iff(quot, tail_len);
        lemma_le_bytes_len(quot, tail_len);
        assert(forall|i: int| 0 <= i < tail_len ==>
            le_bytes(x, n)[i + 1] == #[trigger] le_bytes(quot, tail_len)[i]);
        if x == 0 {
            assert(le_bytes(x, n) =~= seq_zero(n));
        }
        if le_bytes(x, n) == seq_zero(n) {
            assert(le_bytes(x, n)[0] == (rem as u8));
            assert(seq_zero(n)[0] == 0u8);
            assert(rem == 0);
            assert(le_bytes(quot, tail_len) =~= seq_zero(tail_len)) by {
                assert(forall|i: int| 0 <= i < tail_len ==>
                    #[trigger] le_bytes(quot, tail_len)[i] == seq_zero(n)[i + 1]);
            }
            assert(quot == 0);
            assert(x == 0);
        }
    }
}

/// Computes the little-endian `count`-byte representation of `x`.
pub fn le_byte_encode(x: u128, count: usize) -> (r: Vec<u8>)
    requires
        (x as nat) < pow256(count as nat),
    ensures
        r@ == le_bytes(x as nat, count as nat),
{
    let mut out: Vec<u8> = Vec::new();
    let mut rest: u128 = x;
    let mut i: usize = 0;
    proof {
        assert(le_bytes(x as nat, count as nat) =~=
            out@ + le_bytes(rest as nat, (count - i) as nat));
    }
    while i < count
        invariant
            i <= count,
            out@.len() == i,
            (rest as nat) < pow256((count - i) as nat),
            le_bytes(x as nat, count as nat) == out@ + le_bytes(rest as nat, (count - i) as nat),
        decreases count - i,
    {
        let b: u8 = (rest % 256) as u8;
        let ghost pending = (count - i) as nat;
        let ghost old_out = out@;
        let ghost old_rest = rest as nat;
        out.push(b);
        rest = rest / 256;
        i = i + 1;
        proof {
            assert((rest as nat) < pow256((count - i) as nat)) by (nonlinear_arith)
                requires
                    old_rest < 256 * pow256((count - i) as nat),
                    rest as nat == old_rest / 256,
            ;
            assert(le_bytes(old_rest, pending) =~=
                seq![b] + le_bytes(rest as nat, (count - i) as nat));
            assert(old_out + le_bytes(old_rest, pending) =~=
                out@ + le_bytes(rest as nat, (count - i) as nat));
        }
    }
    proof {
        assert(out@ + le_bytes(rest as nat, 0) =~= out@);
    }
    out
}

/// Compares two byte views for exact equality in length and content,
/// walking indices from highest to lowest.
pub fn slice_eq(left: &[u8], right: &[u8]) -> (r: bool)
    ensures
        r == (left@ == right@),
{
    if left.len() != right.len() {
        proof {
            assert(left@.len() != right@.len());
        }
        return false;
    }
    let mut ix: usize = right.len();
    while ix > 0
        invariant
            ix <= right@.len(),
            left@.len() == right@.len(),
            forall|j: int| ix <= j < right@.len() ==> left@[j] == right@[j],
        decreases ix,
    {
        let nix = ix - 1;
        if left[nix] != right[nix] {
            return false;
        }
        ix = nix;
    }
    proof {
        assert(left@ =~= right@);
    }
    true
}

/// The byte comparison is pure: its outcome is a function of the two byte
/// sequences alone, so running it twice on the same input yields the same
/// boolean result. The premises are exactly what `slice_eq` ensures of each
/// of the two runs.
pub proof fn lemma_slice_eq_repeatable(left: Seq<u8>, right: Seq<u8>, first: bool, second: bool)
    requires
        first == (left == right),
        second == (left == right),
    ensures
        first == second,
{
}

} // verus!
