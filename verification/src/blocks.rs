//! The blocks of the code space whose use is fixed for good: no later
//! version of the standard can assign a character inside them.

use vstd::prelude::*;

verus! {

/// The largest codepoint.
pub const MAX_CODEPOINT: u32 = 0x10FFFF;

/// The number of codepoints in a plane.
pub const PLANE_SIZE: u32 = 0x10000;

/// `c` is a codepoint at all.
pub open spec fn is_codepoint(c: int) -> bool {
    0 <= c <= MAX_CODEPOINT
}

/// `c` lies in the C0 or the C1 block of control codes.
pub open spec fn is_control(c: int) -> bool {
    0x0000 <= c <= 0x001F || 0x007F <= c <= 0x009F
}

/// `c` is a UTF-16 surrogate.
pub open spec fn is_surrogate(c: int) -> bool {
    0xD800 <= c <= 0xDFFF
}

/// `c` is a Unicode scalar value: a codepoint that is no surrogate. These
/// are the numbers of the values of `char`.
pub open spec fn is_scalar_value(c: int) -> bool {
    is_codepoint(c) && !is_surrogate(c)
}

/// `c` lies in the private-use area of the basic plane, or in plane 15 or
/// 16 below the last two codepoints of the plane.
pub open spec fn is_private_use(c: int) -> bool {
    0xE000 <= c <= 0xF8FF || 0xF0000 <= c <= 0xFFFFD || 0x100000 <= c <= 0x10FFFD
}

/// `c` is one of the 66 noncharacters: the block U+FDD0..U+FDEF, and the
/// last two codepoints of each of the 17 planes.
pub open spec fn is_noncharacter(c: int) -> bool {
    0xFDD0 <= c <= 0xFDEF || (is_codepoint(c) && c % (PLANE_SIZE as int) >= 0xFFFE)
}

/// The four families of fixed blocks never overlap: a codepoint lies in at
/// most one of them.
pub proof fn lemma_fixed_blocks_disjoint(c: int)
    ensures
        !(is_control(c) && is_surrogate(c)),
        !(is_control(c) && is_private_use(c)),
        !(is_control(c) && is_noncharacter(c)),
        !(is_surrogate(c) && is_private_use(c)),
        !(is_surrogate(c) && is_noncharacter(c)),
        !(is_private_use(c) && is_noncharacter(c)),
{
}

} // verus!
