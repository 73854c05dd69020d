//! Removal of the markdown code fences that a language model tends to wrap
//! its reply in.

use vstd::prelude::*;
use vstd::string::*;
use crate::text::{
    chars_of, drop_blank, drop_repeated, is_blank, is_trimmed, is_white_space, lemma_trimmed,
    lemma_trimmed_pad, skip_blank, skip_repeated, trimmed, without_leading, without_trailing,
};

verus! {

/// The bare fence: three backticks.
pub open spec fn fence() -> Seq<char> {
    seq!['`', '`', '`']
}

/// The fence that opens a block tagged as JSON.
pub open spec fn json_fence() -> Seq<char> {
    seq!['`', '`', '`', 'j', 's', 'o', 'n']
}

/// What is left of a reply once its fences are gone: the tagged fences at
/// the front, then the bare ones at the front, then the bare ones at the
/// end; the white space around the rest; and once more the bare fences at
/// the end and the white space that they leave behind.
pub open spec fn stripped(s: Seq<char>) -> Seq<char> {
    let opened = without_leading(without_leading(s, json_fence()), fence());
    let closed = trimmed(without_trailing(opened, fence()));
    trimmed(without_trailing(closed, fence()))
}

/// Whether nothing is left for `stripped` to remove from `s`.
pub open spec fn is_bare(s: Seq<char>) -> bool {
    &&& is_trimmed(s)
    &&& !fence().is_prefix_of(s)
    &&& !fence().is_suffix_of(s)
}

/// Removes the code fences and the white space that surround a reply.
pub fn strip_fences<'a>(text: &'a str) -> (r: &'a str)
    ensures
        r@ == stripped(text@),
{
    let chars = chars_of(text);
    let n = chars.len();
    let bare: Vec<char> = vec!['`', '`', '`'];
    let tagged: Vec<char> = vec!['`', '`', '`', 'j', 's', 'o', 'n'];
    proof {
        assert(bare@ =~= fence());
        assert(tagged@ =~= json_fence());
        assert(chars@.subrange(0, n as int) =~= text@);
    }
    let lo = skip_repeated(&chars, 0, n, &tagged);
    let lo = skip_repeated(&chars, lo, n, &bare);
    let hi = drop_repeated(&chars, lo, n, &bare);
    let lo = skip_blank(&chars, lo, hi);
    let hi = drop_blank(&chars, lo, hi);
    let hi = drop_repeated(&chars, lo, hi, &bare);
    let lo = skip_blank(&chars, lo, hi);
    let hi = drop_blank(&chars, lo, hi);
    text.substring_char(lo, hi)
}

proof fn lemma_without_leading(s: Seq<char>, pat: Seq<char>)
    ensures
        without_leading(s, pat).len() <= s.len(),
        pat.len() > 0 && pat.is_prefix_of(s) ==> without_leading(s, pat).len() < s.len(),
        !pat.is_prefix_of(s) ==> without_leading(s, pat) == s,
    decreases s.len(),
{
    if pat.len() > 0 && pat.is_prefix_of(s) {
        lemma_without_leading(s.skip(pat.len() as int), pat);
    }
}

proof fn lemma_without_trailing(s: Seq<char>, pat: Seq<char>)
    ensures
        without_trailing(s, pat).len() <= s.len(),
        pat.len() > 0 && pat.is_suffix_of(s) ==> without_trailing(s, pat).len() < s.len(),
        !pat.is_suffix_of(s) ==> without_trailing(s, pat) == s,
    decreases s.len(),
{
    if pat.len() > 0 && pat.is_suffix_of(s) {
        lemma_without_trailing(s.take(s.len() - pat.len()), pat);
    }
}

/// Stripping never lengthens a text, and what it returns is trimmed.
pub proof fn lemma_stripped_bounds(s: Seq<char>)
    ensures
        stripped(s).len() <= s.len(),
        is_trimmed(stripped(s)),
{
    let a = without_leading(s, json_fence());
    let opened = without_leading(a, fence());
    let b = without_trailing(opened, fence());
    let closed = trimmed(b);
    let c = without_trailing(closed, fence());
    lemma_without_leading(s, json_fence());
    lemma_without_leading(a, fence());
    lemma_without_trailing(opened, fence());
    lemma_trimmed(b);
    lemma_without_trailing(closed, fence());
    lemma_trimmed(c);
}

/// The texts that stripping leaves untouched are exactly the bare ones.
pub proof fn lemma_stripped_fixed_point(s: Seq<char>)
    ensures
        stripped(s) == s <==> is_bare(s),
{
    let a = without_leading(s, json_fence());
    let opened = without_leading(a, fence());
    let b = without_trailing(opened, fence());
    let closed = trimmed(b);
    let c = without_trailing(closed, fence());
    lemma_without_leading(s, json_fence());
    lemma_without_leading(a, fence());
    lemma_without_trailing(opened, fence());
    lemma_trimmed(b);
    lemma_without_trailing(closed, fence());
    lemma_trimmed(c);
    lemma_trimmed(s);
    if json_fence().is_prefix_of(s) {
        assert(fence() =~= json_fence().subrange(0, 3));
        assert(fence() =~= s.subrange(0, 3));
    }
    if is_bare(s) {
        assert(a == s);
        assert(opened == s);
        assert(b == s);
        assert(closed == s);
        assert(c == s);
    }
}

/// Stripping twice gives what stripping once gives exactly where the first
/// pass has left no fence at either end of its result.
pub proof fn lemma_strip_idempotent(s: Seq<char>)
    ensures
        stripped(stripped(s)) == stripped(s) <==> !fence().is_prefix_of(stripped(s))
            && !fence().is_suffix_of(stripped(s)),
{
    lemma_stripped_bounds(s);
    lemma_stripped_fixed_point(stripped(s));
}

/// A bare text is returned unchanged, however often it is stripped.
pub proof fn lemma_strip_bare(s: Seq<char>)
    requires
        is_bare(s),
    ensures
        stripped(s) == s,
        stripped(stripped(s)) == s,
{
    lemma_stripped_fixed_point(s);
}

/// A trimmed text that does not end in a fence comes back unchanged from a
/// block that opens with the tagged fence and closes with the bare fence,
/// whatever white space stands between the fences and the text. Where none
/// stands after the opening fence, the text must not begin with a backtick.
pub proof fn lemma_strip_fenced_block(left: Seq<char>, body: Seq<char>, right: Seq<char>)
    requires
        is_blank(left),
        is_blank(right),
        is_trimmed(body),
        !fence().is_suffix_of(body),
        left.len() > 0 || (body.len() > 0 && body[0] != '`'),
    ensures
        stripped(json_fence() + left + body + right + fence()) == body,
{
    let s = json_fence() + left + body + right + fence();
    let s1 = left + body + right + fence();
    let s2 = left + body + right;
    assert(json_fence().is_prefix_of(s));
    assert(s.skip(7) =~= s1);
    assert(s1[0] != '`') by {
        if left.len() > 0 {
            assert(s1[0] == left[0]);
            assert(is_white_space(left[0]));
        } else {
            assert(s1[0] == body[0]);
        }
    }
    assert(!json_fence().is_prefix_of(s1)) by {
        if json_fence().is_prefix_of(s1) {
            assert(s1.subrange(0, 7)[0] == json_fence()[0]);
        }
    }
    assert(!fence().is_prefix_of(s1)) by {
        if fence().is_prefix_of(s1) {
            assert(s1.subrange(0, 3)[0] == fence()[0]);
        }
    }
    lemma_without_leading(s1, json_fence());
    lemma_without_leading(s1, fence());
    assert(without_leading(s, json_fence()) == s1);
    assert(fence().is_suffix_of(s1));
    assert(s1.take(s1.len() - 3) =~= s2);
    assert(!fence().is_suffix_of(s2)) by {
        if fence().is_suffix_of(s2) {
            let tail = s2.subrange(s2.len() - 3, s2.len() as int);
            assert(tail =~= fence());
            if right.len() > 0 {
                assert(tail[2] == right.last());
                assert(is_white_space(right.last()));
            } else if body.len() >= 3 {
                assert(body.subrange(body.len() - 3, body.len() as int) =~= tail);
            } else {
                assert(tail[0] == left[left.len() + body.len() - 3]);
                assert(is_white_space(left[left.len() + body.len() - 3]));
            }
        }
    }
    lemma_without_trailing(s2, fence());
    assert(without_trailing(s1, fence()) == s2);
    lemma_trimmed_pad(left, body, right);
    lemma_trimmed(body);
    lemma_without_trailing(body, fence());
}

/// A text that begins with an opening brace and ends with a closing one, as
/// every serialised JSON object does, comes back unchanged from a block of
/// three lines: the tagged fence, the text, the bare fence. Stripping it
/// again changes nothing.
pub proof fn lemma_strip_fenced_object(body: Seq<char>)
    requires
        body.len() >= 2,
        body[0] == '{',
        body.last() == '}',
    ensures
        stripped(json_fence() + seq!['\n'] + body + seq!['\n'] + fence()) == body,
        stripped(body) == body,
{
    assert(is_white_space('\n'));
    assert(!fence().is_suffix_of(body)) by {
        if fence().is_suffix_of(body) {
            assert(body.subrange(body.len() - 3, body.len() as int)[2] == fence()[2]);
        }
    }
    assert(!fence().is_prefix_of(body)) by {
        if fence().is_prefix_of(body) {
            assert(body.subrange(0, 3)[0] == fence()[0]);
        }
    }
    lemma_strip_fenced_block(seq!['\n'], body, seq!['\n']);
    lemma_stripped_fixed_point(body);
}

} // verus!
