//! Hardware alignment constants of the ray-tracing shader table, and the
//! round-up-to-alignment arithmetic that the table layout is built on.

use vstd::prelude::*;

verus! {

/// Size in bytes of an opaque shader identifier.
pub const SHADER_IDENTIFIER_SIZE: u32 = 32;

/// Required alignment of each record inside a shader-table region.
pub const SHADER_RECORD_ALIGNMENT: u32 = 32;

/// Required alignment of each shader-table region.
pub const SHADER_TABLE_ALIGNMENT: u32 = 64;

/// The least multiple of `align` that is at least `x`.
pub open spec fn spec_round_up(x: int, align: int) -> int
    recommends
        align > 0,
{
    if x % align == 0 {
        x
    } else {
        x + align - x % align
    }
}

/// `spec_round_up` returns an aligned value, no smaller than `x` and less
/// than `x + align` away from it.
pub proof fn lemma_round_up_properties(x: int, align: int)
    requires
        x >= 0,
        align > 0,
    ensures
        spec_round_up(x, align) % align == 0,
        x <= spec_round_up(x, align) < x + align,
{
    let r = x % align;
    vstd::arithmetic::div_mod::lemma_mod_division_less_than_divisor(x, align);
    if r != 0 {
        vstd::arithmetic::div_mod::lemma_fundamental_div_mod(x, align);
        vstd::arithmetic::div_mod::lemma_mod_multiples_basic(x / align + 1, align);
        assert((x / align + 1) * align == align * (x / align) + align) by (nonlinear_arith);
        assert(spec_round_up(x, align) == (x / align + 1) * align);
    }
}

/// Any multiple of `align` that is at least `x` is at least
/// `spec_round_up(x, align)`: the round-up is the least aligned bound.
pub proof fn lemma_round_up_is_least(x: int, align: int, y: int)
    requires
        x >= 0,
        align > 0,
        y % align == 0,
        y >= x,
    ensures
        y >= spec_round_up(x, align),
{
    lemma_round_up_properties(x, align);
    let r = spec_round_up(x, align);
    if y < r {
        vstd::arithmetic::div_mod::lemma_mod_division_less_than_divisor(x, align);
        assert(x <= y < x + align - x % align);
        vstd::arithmetic::div_mod::lemma_fundamental_div_mod(x, align);
        assert((x / align) * align < y < (x / align) * align + align);
        vstd::arithmetic::div_mod::lemma_fundamental_div_mod_converse_mod(
            y,
            align,
            x / align,
            y - (x / align) * align,
        );
        assert(y % align != 0);
    }
}

/// Rounds `x` up to the next multiple of `align`.
pub fn round_up(x: u32, align: u32) -> (r: u32)
    requires
        align > 0,
        x + align <= u32::MAX + 1,
    ensures
        r == spec_round_up(x as int, align as int),
        r % align == 0,
        x <= r < x + align,
{
    proof {
        lemma_round_up_properties(x as int, align as int);
    }
    let rem = x % align;
    if rem == 0 {
        x
    } else {
        x + (align - rem)
    }
}

} // verus!
