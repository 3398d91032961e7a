//! Which characters separate tokens.

use vstd::prelude::*;

verus! {

/// Whether `c` has the Unicode property `White_Space`.
///
/// These are the characters on which a line is split: the ASCII controls
/// U+0009 to U+000D, the space, and the spaces and line separators beyond ASCII.
pub open spec fn is_space(c: char) -> bool {
    let n = c as u32;
    ||| 0x0009 <= n <= 0x000D
    ||| n == 0x0020
    ||| n == 0x0085
    ||| n == 0x00A0
    ||| n == 0x1680
    ||| 0x2000 <= n <= 0x200A
    ||| n == 0x2028
    ||| n == 0x2029
    ||| n == 0x202F
    ||| n == 0x205F
    ||| n == 0x3000
}

/// Whether every character of `s` is whitespace.
pub open spec fn is_blank(s: Seq<char>) -> bool {
    forall|i: int| 0 <= i < s.len() ==> is_space(#[trigger] s[i])
}

/// Tells whether `c` is a whitespace character.
pub fn is_whitespace(c: char) -> (b: bool)
    ensures
        b == is_space(c),
{
    let n: u32 = c as u32;
    (0x0009 <= n && n <= 0x000D)
        || n == 0x0020
        || n == 0x0085
        || n == 0x00A0
        || n == 0x1680
        || (0x2000 <= n && n <= 0x200A)
        || n == 0x2028
        || n == 0x2029
        || n == 0x202F
        || n == 0x205F
        || n == 0x3000
}

} // verus!
