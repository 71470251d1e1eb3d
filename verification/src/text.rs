//! Character-level helpers on strings.
use vstd::prelude::*;
use vstd::string::StrSliceExecFns;
use vstd::string::StringExecFns;

verus! {

/// Whether two strings hold the same characters.
pub fn same_text(a: &str, b: &str) -> (r: bool)
    ensures
        r == (a@ == b@),
{
    let len = a.unicode_len();
    if len != b.unicode_len() {
        return false;
    }
    let mut i: usize = 0;
    while i < len
        invariant
            len == a@.len(),
            len == b@.len(),
            i <= len,
            forall|j: int| 0 <= j < i ==> a@[j] == b@[j],
        decreases len - i,
    {
        if a.get_char(i) != b.get_char(i) {
            return false;
        }
        i = i + 1;
    }
    assert(a@ =~= b@);
    true
}

/// The Unicode `White_Space` property, as listed in the Unicode Character
/// Database file PropList.txt.
pub open spec fn is_white_space(c: char) -> bool {
    let u = c as u32;
    ||| 0x09 <= u <= 0x0d
    ||| u == 0x20
    ||| u == 0x85
    ||| u == 0xa0
    ||| u == 0x1680
    ||| 0x2000 <= u <= 0x200a
    ||| u == 0x2028
    ||| u == 0x2029
    ||| u == 0x202f
    ||| u == 0x205f
    ||| u == 0x3000
}

/// Whether `c` has the Unicode `White_Space` property, as
/// `char::is_whitespace` tells it.
pub fn char_is_whitespace(c: char) -> (r: bool)
    ensures
        r == is_white_space(c),
{
    let u = c as u32;
    (0x09 <= u && u <= 0x0d) || u == 0x20 || u == 0x85 || u == 0xa0 || u == 0x1680 || (0x2000
        <= u && u <= 0x200a) || u == 0x2028 || u == 0x2029 || u == 0x202f || u == 0x205f || u
        == 0x3000
}

/// The index of the first character at or after `from` that is not white
/// space, or the length of `s` if there is none.
pub open spec fn skip_white_space(s: Seq<char>, from: int) -> int
    decreases s.len() - from,
{
    if 0 <= from < s.len() && is_white_space(s[from]) {
        skip_white_space(s, from + 1)
    } else {
        from
    }
}

/// `s` without its leading white space.
pub open spec fn trim_start(s: Seq<char>) -> Seq<char> {
    s.subrange(skip_white_space(s, 0), s.len() as int)
}

pub proof fn lemma_skip_white_space_bounds(s: Seq<char>, from: int)
    requires
        0 <= from <= s.len(),
    ensures
        from <= skip_white_space(s, from) <= s.len(),
        forall|j: int| from <= j < skip_white_space(s, from) ==> is_white_space(s[j]),
        skip_white_space(s, from) < s.len() ==> !is_white_space(s[skip_white_space(s, from)]),
    decreases s.len() - from,
{
    if from < s.len() && is_white_space(s[from]) {
        lemma_skip_white_space_bounds(s, from + 1);
    }
}

/// `s` without its leading white space.
pub fn trimmed_start(s: &str) -> (t: String)
    ensures
        t@ == trim_start(s@),
{
    let len = s.unicode_len();
    let mut i: usize = 0;
    proof {
        lemma_skip_white_space_bounds(s@, 0);
    }
    while i < len && char_is_whitespace(s.get_char(i))
        invariant
            len == s@.len(),
            i <= len,
            skip_white_space(s@, i as int) == skip_white_space(s@, 0),
        decreases len - i,
    {
        i = i + 1;
    }
    String::from_str(s.substring_char(i, len))
}

} // verus!
