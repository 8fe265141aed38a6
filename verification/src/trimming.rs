//! Whitespace trimming at the text boundary.
//!
//! Signature and ciphertext text arrives with whatever surrounding
//! whitespace the shell read; the boundary strips leading and trailing
//! whitespace characters — the Unicode white-space set — before decoding.

use vstd::prelude::*;

use vstd::string::StrSliceExecFns;

verus! {

/// A white-space character: the Unicode `White_Space` set.
pub open spec fn is_text_space(c: char) -> bool {
    let n = c as u32;
    (9 <= n <= 13) || n == 32 || n == 0x85 || n == 0xa0 || n == 0x1680 || (0x2000 <= n <= 0x200a)
        || n == 0x2028 || n == 0x2029 || n == 0x202f || n == 0x205f || n == 0x3000
}

/// `chars` with every leading and trailing white-space character dropped.
pub open spec fn trim_spec(chars: Seq<char>) -> Seq<char>
    decreases chars.len(),
{
    if chars.len() > 0 && is_text_space(chars[0]) {
        trim_spec(chars.drop_first())
    } else if chars.len() > 0 && is_text_space(chars[chars.len() - 1]) {
        trim_spec(chars.drop_last())
    } else {
        chars
    }
}

/// Law: text that holds no white-space character is its own trim.
pub proof fn lemma_trim_no_space(chars: Seq<char>)
    requires
        forall|k: int| 0 <= k < chars.len() ==> !is_text_space(#[trigger] chars[k]),
    ensures
        trim_spec(chars) == chars,
{
    if chars.len() > 0 {
        assert(!is_text_space(chars[0]));
        assert(!is_text_space(chars[chars.len() - 1]));
    }
}

fn is_space_char(c: char) -> (r: bool)
    ensures
        r == is_text_space(c),
{
    let n = c as u32;
    (9 <= n && n <= 13) || n == 32 || n == 0x85 || n == 0xa0 || n == 0x1680 || (0x2000 <= n && n
        <= 0x200a) || n == 0x2028 || n == 0x2029 || n == 0x202f || n == 0x205f || n == 0x3000
}

proof fn lemma_trim_all_space(chars: Seq<char>)
    requires
        forall|k: int| 0 <= k < chars.len() ==> is_text_space(#[trigger] chars[k]),
    ensures
        trim_spec(chars) == Seq::<char>::empty(),
    decreases chars.len(),
{
    if chars.len() > 0 {
        let t = chars.drop_first();
        assert(forall|k: int| 0 <= k < t.len() ==> is_text_space(#[trigger] t[k]));
        lemma_trim_all_space(t);
    } else {
        assert(chars =~= Seq::<char>::empty());
    }
}

proof fn lemma_trim_spec_subrange(chars: Seq<char>, lo: int, hi: int)
    requires
        0 <= lo <= hi <= chars.len(),
        forall|k: int| 0 <= k < lo ==> is_text_space(#[trigger] chars[k]),
        forall|k: int| hi <= k < chars.len() ==> is_text_space(#[trigger] chars[k]),
        lo < hi ==> !is_text_space(chars[lo]),
        lo < hi ==> !is_text_space(chars[hi - 1]),
    ensures
        trim_spec(chars) == chars.subrange(lo, hi),
    decreases chars.len(),
{
    if lo == hi {
        lemma_trim_all_space(chars);
        assert(chars.subrange(lo, hi) =~= Seq::<char>::empty());
    } else if is_text_space(chars[0]) {
        let t = chars.drop_first();
        assert(forall|k: int| 0 <= k < t.len() ==> t[k] == chars[k + 1]);
        lemma_trim_spec_subrange(t, lo - 1, hi - 1);
        assert(chars.subrange(lo, hi) =~= t.subrange(lo - 1, hi - 1));
    } else if is_text_space(chars[chars.len() - 1]) {
        let t = chars.drop_last();
        assert(forall|k: int| 0 <= k < t.len() ==> t[k] == chars[k]);
        lemma_trim_spec_subrange(t, lo, hi);
        assert(chars.subrange(lo, hi) =~= t.subrange(lo, hi));
    } else {
        assert(chars.subrange(lo, hi) =~= chars);
    }
}

/// Strips leading and trailing white-space characters from `text`.
pub fn trim_text(text: &str) -> (r: &str)
    ensures
        r@ == trim_spec(text@),
{
    let n = text.unicode_len();
    let mut lo: usize = 0;
    while lo < n && is_space_char(text.get_char(lo))
        invariant
            n == text@.len(),
            0 <= lo <= n,
            forall|k: int| 0 <= k < lo ==> is_text_space(#[trigger] text@[k]),
        decreases n - lo,
    {
        lo = lo + 1;
    }
    let mut hi: usize = n;
    while hi > lo && is_space_char(text.get_char(hi - 1))
        invariant
            n == text@.len(),
            0 <= lo <= hi <= n,
            forall|k: int| 0 <= k < lo ==> is_text_space(#[trigger] text@[k]),
            forall|k: int| hi <= k < n ==> is_text_space(#[trigger] text@[k]),
        decreases hi,
    {
        hi = hi - 1;
    }
    let r = text.substring_char(lo, hi);
    proof {
        lemma_trim_spec_subrange(text@, lo as int, hi as int);
    }
    r
}

} // verus!
