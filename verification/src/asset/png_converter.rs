//! Texture dimension rules of the GPU.
use vstd::prelude::*;

use crate::asset::error::AssetError;
use crate::text::{decimal_text, push_decimal};

verus! {

/// `n` is a power of two.
pub open spec fn is_pow2(n: nat) -> bool
    decreases n,
{
    if n == 1 {
        true
    } else if n == 0 || n % 2 == 1 {
        false
    } else {
        is_pow2(n / 2)
    }
}

/// The smallest power of two that is at least `n`, searching up from `p`.
pub open spec fn next_pow2_from(n: nat, p: nat) -> nat
    decreases (if p < n { n - p } else { 0 }),
{
    if p == 0 || p >= n {
        p
    } else {
        next_pow2_from(n, 2 * p)
    }
}

/// The smallest power of two that is at least `n` (1 for 0), as
/// `u32::next_power_of_two` computes it.
pub open spec fn next_pow2(n: nat) -> nat {
    next_pow2_from(n, 1)
}

proof fn lemma_bit_trick(n: u32)
    requires
        n > 0,
    ensures
        (n & (n - 1) as u32) == 0 <==> is_pow2(n as nat),
    decreases n,
{
    if n == 1 {
        assert(1u32 & 0u32 == 0) by (bit_vector);
    } else if n % 2 == 1 {
        assert((n & (n - 1) as u32) != 0) by (bit_vector)
            requires
                n % 2 == 1,
                n > 1,
        ;
    } else {
        let h = (n / 2) as u32;
        lemma_bit_trick(h);
        assert((n & (n - 1) as u32) == 0 <==> (h & (h - 1) as u32) == 0) by (bit_vector)
            requires
                n % 2 == 0,
                n > 1,
                h == n / 2,
        ;
    }
}

/// Check if a number is a power of two.
pub fn is_power_of_two(n: u32) -> (b: bool)
    ensures
        b == is_pow2(n as nat),
{
    proof {
        if n > 0 {
            lemma_bit_trick(n);
        }
    }
    n > 0 && (n & (n - 1)) == 0
}

proof fn lemma_next_pow2_from(n: nat, p: nat)
    requires
        is_pow2(p),
        n <= 0x8000_0000,
        p <= 0x8000_0000,
    ensures
        is_pow2(next_pow2_from(n, p)),
        next_pow2_from(n, p) >= n,
        next_pow2_from(n, p) <= 0x8000_0000,
    decreases (if p < n { n - p } else { 0 }),
{
    if p >= n {
    } else {
        assert(is_pow2(2 * p)) by {
            assert((2 * p) / 2 == p);
        }
        lemma_pow2_le(p, n);
        lemma_next_pow2_from(n, 2 * p);
    }
}

proof fn lemma_pow2_le(p: nat, n: nat)
    requires
        is_pow2(p),
        p < n <= 0x8000_0000,
    ensures
        2 * p <= 0x8000_0000,
{
    reveal_with_fuel(is_pow2, 33);
    assert(is_pow2(0x8000_0000));
    lemma_pow2_gap(p, 0x8000_0000);
}

/// Between two distinct powers of two there is a factor of at least two.
proof fn lemma_pow2_gap(p: nat, q: nat)
    requires
        is_pow2(p),
        is_pow2(q),
        p < q,
    ensures
        2 * p <= q,
    decreases q,
{
    if p == 1 {
    } else {
        lemma_pow2_gap(p / 2, q / 2);
    }
}

proof fn lemma_next_pow2_half(n: nat, p: nat)
    requires
        is_pow2(p),
        n >= 1,
        p == 1 || p / 2 < n,
    ensures
        next_pow2_from(n, p) / 2 < n,
    decreases (if p < n { n - p } else { 0 }),
{
    if p < n {
        assert(is_pow2(2 * p)) by {
            assert((2 * p) / 2 == p);
        }
        lemma_next_pow2_half(n, 2 * p);
    }
}

/// For 1 <= n <= 2^31 the suggested size `next_pow2(n)` is a power of two,
/// at least n, and its half is below n, so the two suggestions of a
/// dimension error bracket the rejected size.
pub proof fn law_next_pow2_brackets(n: nat)
    requires
        1 <= n <= 0x8000_0000,
    ensures
        is_pow2(next_pow2(n)),
        next_pow2(n) >= n,
        next_pow2(n) / 2 < n,
{
    lemma_next_pow2_from(n, 1);
    lemma_next_pow2_half(n, 1);
}

/// `u32::next_power_of_two` for inputs where it does not overflow.
fn next_power_of_two(n: u32) -> (p: u32)
    requires
        n <= 0x8000_0000,
    ensures
        p == next_pow2(n as nat),
{
    proof {
        lemma_next_pow2_from(n as nat, 1);
    }
    let mut p: u32 = 1;
    while p < n
        invariant
            1 <= p,
            is_pow2(p as nat),
            n <= 0x8000_0000,
            next_pow2_from(n as nat, p as nat) == next_pow2(n as nat),
            p <= 0x8000_0000,
        decreases 0x8000_0000 - p,
    {
        proof {
            lemma_pow2_le(p as nat, n as nat);
            assert(is_pow2(2 * p as nat)) by {
                assert((2 * p as nat) / 2 == p as nat);
            }
        }
        p = p * 2;
    }
    p
}

/// Message for dimensions that are not powers of two, with the nearest
/// powers of two above and below as suggestions.
pub open spec fn not_pow2_message(width: nat, height: nat) -> Seq<char> {
    "Expected power-of-two dimensions, got "@ + decimal_text(width) + "×"@ + decimal_text(height)
        + ". Try "@ + decimal_text(next_pow2(width)) + "×"@ + decimal_text(next_pow2(height))
        + " or "@ + decimal_text(next_pow2(width) / 2) + "×"@ + decimal_text(next_pow2(height) / 2)
        + "."@
}

/// Message for dimensions below the 8x8 minimum.
pub open spec fn too_small_message(width: nat, height: nat) -> Seq<char> {
    "Dimensions "@ + decimal_text(width) + "×"@ + decimal_text(height) + " below GPU minimum (8×8)"@
}

/// Message for dimensions above the 1024x1024 maximum.
pub open spec fn too_large_message(width: nat, height: nat) -> Seq<char> {
    "Dimensions "@ + decimal_text(width) + "×"@ + decimal_text(height)
        + " exceed GPU maximum (1024×1024)"@
}

/// The validation message for texture dimensions, or `None` when the GPU
/// accepts them: both powers of two, both at least 8, both at most 1024.
pub open spec fn dimension_problem(width: nat, height: nat) -> Option<Seq<char>> {
    if !is_pow2(width) || !is_pow2(height) {
        Some(not_pow2_message(width, height))
    } else if width < 8 || height < 8 {
        Some(too_small_message(width, height))
    } else if width > 1024 || height > 1024 {
        Some(too_large_message(width, height))
    } else {
        None
    }
}

/// Validate texture dimensions against GPU constraints.
///
/// Dimensions above 2^31 are left out: there the suggested power of two
/// overflows `u32`.
pub fn validate_dimensions(width: u32, height: u32) -> (r: Result<(), AssetError>)
    requires
        width <= 0x8000_0000,
        height <= 0x8000_0000,
    ensures
        r is Ok <==> dimension_problem(width as nat, height as nat) is None,
        r matches Err(e) ==> e matches AssetError::Validation(m) && Some(m@) == dimension_problem(
            width as nat,
            height as nat,
        ),
{
    if !is_power_of_two(width) || !is_power_of_two(height) {
        let mut m = String::from_str("Expected power-of-two dimensions, got ");
        push_decimal(&mut m, width as u64);
        m.append("×");
        push_decimal(&mut m, height as u64);
        m.append(". Try ");
        let nw = next_power_of_two(width);
        let nh = next_power_of_two(height);
        push_decimal(&mut m, nw as u64);
        m.append("×");
        push_decimal(&mut m, nh as u64);
        m.append(" or ");
        push_decimal(&mut m, (nw / 2) as u64);
        m.append("×");
        push_decimal(&mut m, (nh / 2) as u64);
        m.append(".");
        return Err(AssetError::Validation(m));
    }
    if width < 8 || height < 8 {
        let mut m = String::from_str("Dimensions ");
        push_decimal(&mut m, width as u64);
        m.append("×");
        push_decimal(&mut m, height as u64);
        m.append(" below GPU minimum (8×8)");
        return Err(AssetError::Validation(m));
    }
    if width > 1024 || height > 1024 {
        let mut m = String::from_str("Dimensions ");
        push_decimal(&mut m, width as u64);
        m.append("×");
        push_decimal(&mut m, height as u64);
        m.append(" exceed GPU maximum (1024×1024)");
        return Err(AssetError::Validation(m));
    }
    Ok(())
}

} // verus!
