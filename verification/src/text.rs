//! Character-level helpers shared by the elements: collecting the characters of a
//! string, building strings from characters, and the Unicode `White_Space` property.

use vstd::prelude::*;

verus! {

broadcast use vstd::string::group_string_axioms;

/// Most characters a string built here holds: at four UTF-8 bytes each, and with the
/// doubling of a growing buffer, its capacity stays below `isize::MAX` bytes, past which
/// `String::push` panics ("capacity overflow"). A machine limit: 2^58 on 64-bit targets.
pub open spec fn max_string_chars() -> int {
    (isize::MAX as int) / 32
}

/// Appends one character to a string (`String::push`).
///
/// Trusted: `String::push` appends `c` to the end of the string; the contract says
/// exactly that, over the character sequence that a `String` views as. The bound on the
/// length keeps the call clear of the capacity-overflow panic.
#[verifier::external_body]
pub(crate) fn push_char(s: &mut String, c: char)
    requires
        old(s)@.len() < max_string_chars(),
    ensures
        final(s)@ == old(s)@.push(c),
{
    s.push(c);
}

/// The view of an optional string.
pub open spec fn opt_view(s: Option<String>) -> Option<Seq<char>> {
    match s {
        Some(t) => Some(t@),
        None => None,
    }
}

/// The character at index `i` of `s`.
pub(crate) fn char_at(s: &[char], i: usize) -> (c: char)
    requires
        i < s@.len(),
    ensures
        c == s@[i as int],
{
    s[i]
}

/// The Unicode scalar values of `s`, in order.
pub fn chars_of(s: &str) -> (out: Vec<char>)
    ensures
        out@ == s@,
{
    let mut out: Vec<char> = Vec::new();
    for c in it: s.chars()
        invariant
            it.seq() == s@,
            out@ == it.seq().take(it.index() as int),
    {
        out.push(c);
    }
    out
}

/// The Unicode `White_Space` property (PropList.txt): U+0009..U+000D, U+0020, U+0085,
/// U+00A0, U+1680, U+2000..U+200A, U+2028, U+2029, U+202F, U+205F and U+3000.
pub open spec fn is_white_space_spec(c: char) -> bool {
    let u = c as u32;
    ||| 0x09 <= u <= 0x0D
    ||| u == 0x20
    ||| u == 0x85
    ||| u == 0xA0
    ||| u == 0x1680
    ||| 0x2000 <= u <= 0x200A
    ||| u == 0x2028
    ||| u == 0x2029
    ||| u == 0x202F
    ||| u == 0x205F
    ||| u == 0x3000
}

/// Whether `c` has the Unicode `White_Space` property (what `char::is_whitespace` tests).
pub fn is_white_space(c: char) -> (b: bool)
    ensures
        b == is_white_space_spec(c),
{
    let u = c as u32;
    (0x09 <= u && u <= 0x0D) || u == 0x20 || u == 0x85 || u == 0xA0 || u == 0x1680 || (0x2000
        <= u && u <= 0x200A) || u == 0x2028 || u == 0x2029 || u == 0x202F || u == 0x205F || u
        == 0x3000
}

/// Whether some character of `s` is white space.
pub open spec fn has_white_space(s: Seq<char>) -> bool {
    exists|i: int| 0 <= i < s.len() && #[trigger] is_white_space_spec(s[i])
}

/// Whether some character of `s` is white space.
pub fn any_white_space(s: &[char]) -> (b: bool)
    ensures
        b == has_white_space(s@),
{
    let mut i: usize = 0;
    while i < s.len()
        invariant
            0 <= i <= s@.len(),
            forall|j: int| 0 <= j < i ==> !#[trigger] is_white_space_spec(s@[j]),
        decreases s@.len() - i,
    {
        if is_white_space(s[i]) {
            return true;
        }
        i = i + 1;
    }
    false
}

/// An optional string is viewed as its characters, and unset stays unset.
pub proof fn lemma_opt_view(s: Option<String>)
    ensures
        s is None <==> opt_view(s) is None,
        s matches Some(t) ==> opt_view(s) == Some(t@),
{
}

} // verus!
