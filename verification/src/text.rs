use vstd::prelude::*;

verus! {

/// A non-empty text field.
pub open spec fn non_empty(s: Seq<char>) -> bool {
    s.len() > 0
}

/// Executable check of `non_empty` on a `String`.
pub(crate) fn is_non_empty(s: &String) -> (b: bool)
    ensures
        b == non_empty(s@),
{
    !s.as_str().is_empty()
}

/// The Unicode `White_Space` property, which is what `char::is_whitespace`
/// and `str::trim` go by: U+0009..U+000D, U+0020, U+0085, U+00A0, U+1680,
/// U+2000..U+200A, U+2028, U+2029, U+202F, U+205F and U+3000.
pub open spec fn is_white_space(c: char) -> bool {
    let u = c as u32;
    ||| 0x09 <= u <= 0x0d
    ||| u == 0x20
    ||| u == 0x85
    ||| u == 0xa0
    ||| u == 0x1680
    ||| 0x2000 <= u <= 0x200a
    ||| u == 0x2028
    ||| u == 0x2029
    ||| u == 0x202f
    ||| u == 0x205f
    ||| u == 0x3000
}

/// A text is blank when trimming it leaves nothing: every char is white space.
pub open spec fn is_blank(s: Seq<char>) -> bool {
    forall|i: int| 0 <= i < s.len() ==> #[trigger] is_white_space(s[i])
}

/// Executable `is_white_space`; agrees with `char::is_whitespace`.
pub(crate) fn white_space(c: char) -> (b: bool)
    ensures
        b == is_white_space(c),
{
    let u: u32 = c as u32;
    (0x09 <= u && u <= 0x0d) || u == 0x20 || u == 0x85 || u == 0xa0 || u == 0x1680
        || (0x2000 <= u && u <= 0x200a) || u == 0x2028 || u == 0x2029 || u == 0x202f
        || u == 0x205f || u == 0x3000
}

/// Whether `s.trim()` is empty, i.e. whether `s` holds only white space.
pub(crate) fn trims_to_empty(s: &str) -> (b: bool)
    ensures
        b == is_blank(s@),
{
    broadcast use vstd::string::axiom_spec_iter;

    for c in it: s.chars()
        invariant
            it.seq() == s@,
            forall|j: int| 0 <= j < it.index() ==> #[trigger] is_white_space(it.seq()[j]),
    {
        if !white_space(c) {
            return false;
        }
    }
    true
}

} // verus!
