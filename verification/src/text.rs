//! The string operations that the bridge relies on: what each of them
//! means, and how it is carried out.

use vstd::prelude::*;
use vstd::string::*;

verus! {

/// Whether `c` carries the Unicode property `White_Space`.
pub open spec fn is_white_space(c: char) -> bool {
    let n = c as u32;
    ||| 0x09 <= n <= 0x0D
    ||| n == 0x20
    ||| n == 0x85
    ||| n == 0xA0
    ||| n == 0x1680
    ||| 0x2000 <= n <= 0x200A
    ||| n == 0x2028
    ||| n == 0x2029
    ||| n == 0x202F
    ||| n == 0x205F
    ||| n == 0x3000
}

/// `s` without its leading white space.
pub open spec fn trimmed_start(s: Seq<char>) -> Seq<char>
    decreases s.len(),
{
    if s.len() > 0 && is_white_space(s[0]) {
        trimmed_start(s.skip(1))
    } else {
        s
    }
}

/// `s` without its trailing white space.
pub open spec fn trimmed_end(s: Seq<char>) -> Seq<char>
    decreases s.len(),
{
    if s.len() > 0 && is_white_space(s.last()) {
        trimmed_end(s.drop_last())
    } else {
        s
    }
}

/// `s` without the white space on either side.
pub open spec fn trimmed(s: Seq<char>) -> Seq<char> {
    trimmed_end(trimmed_start(s))
}

/// Whether `s` neither begins nor ends with white space.
pub open spec fn is_trimmed(s: Seq<char>) -> bool {
    s.len() > 0 ==> !is_white_space(s[0]) && !is_white_space(s.last())
}

/// `s` after `pat` has been taken from its front as often as it stands there.
pub open spec fn without_leading(s: Seq<char>, pat: Seq<char>) -> Seq<char>
    decreases s.len(),
{
    if pat.len() > 0 && pat.is_prefix_of(s) {
        without_leading(s.skip(pat.len() as int), pat)
    } else {
        s
    }
}

/// `s` after `pat` has been taken from its end as often as it stands there.
pub open spec fn without_trailing(s: Seq<char>, pat: Seq<char>) -> Seq<char>
    decreases s.len(),
{
    if pat.len() > 0 && pat.is_suffix_of(s) {
        without_trailing(s.take(s.len() - pat.len()), pat)
    } else {
        s
    }
}

proof fn lemma_trimmed_start(s: Seq<char>)
    ensures
        trimmed_start(s).len() <= s.len(),
        trimmed_start(s).len() > 0 ==> !is_white_space(trimmed_start(s)[0]),
        s.len() > 0 && !is_white_space(s[0]) ==> trimmed_start(s) == s,
    decreases s.len(),
{
    if s.len() > 0 && is_white_space(s[0]) {
        lemma_trimmed_start(s.skip(1));
    }
}

proof fn lemma_trimmed_end(s: Seq<char>)
    ensures
        trimmed_end(s).len() <= s.len(),
        trimmed_end(s).len() > 0 ==> !is_white_space(trimmed_end(s).last()),
        trimmed_end(s).len() > 0 ==> trimmed_end(s)[0] == s[0],
        s.len() > 0 && !is_white_space(s.last()) ==> trimmed_end(s) == s,
    decreases s.len(),
{
    if s.len() > 0 && is_white_space(s.last()) {
        lemma_trimmed_end(s.drop_last());
    }
}

/// Trimming leaves no white space at either end, never lengthens, and leaves
/// a trimmed sequence as it is.
pub proof fn lemma_trimmed(s: Seq<char>)
    ensures
        is_trimmed(trimmed(s)),
        trimmed(s).len() <= s.len(),
        is_trimmed(s) <==> trimmed(s) == s,
{
    lemma_trimmed_start(s);
    lemma_trimmed_end(trimmed_start(s));
}

/// Whether `s` holds nothing but white space.
pub open spec fn is_blank(s: Seq<char>) -> bool {
    forall|i: int| 0 <= i < s.len() ==> is_white_space(#[trigger] s[i])
}

proof fn lemma_trimmed_start_blank(s: Seq<char>)
    ensures
        trimmed_start(s).len() == 0 <==> is_blank(s),
    decreases s.len(),
{
    if s.len() > 0 && is_white_space(s[0]) {
        lemma_trimmed_start_blank(s.skip(1));
        if is_blank(s.skip(1)) {
            assert forall|i: int| 0 <= i < s.len() implies is_white_space(#[trigger] s[i]) by {
                if i > 0 {
                    assert(s[i] == s.skip(1)[i - 1]);
                }
            }
        } else {
            let k = choose|k: int| 0 <= k < s.skip(1).len() && !is_white_space(s.skip(1)[k]);
            assert(s[k + 1] == s.skip(1)[k]);
        }
    } else if s.len() > 0 {
        assert(!is_white_space(s[0]));
    }
}

proof fn lemma_trimmed_start_pad(pad: Seq<char>, s: Seq<char>)
    requires
        is_blank(pad),
    ensures
        trimmed_start(pad + s) == trimmed_start(s),
    decreases pad.len(),
{
    if pad.len() == 0 {
        assert(pad + s =~= s);
    } else {
        assert((pad + s)[0] == pad[0]);
        assert((pad + s).skip(1) =~= pad.skip(1) + s);
        assert forall|i: int| 0 <= i < pad.skip(1).len() implies is_white_space(
            #[trigger] pad.skip(1)[i],
        ) by {
            assert(pad.skip(1)[i] == pad[i + 1]);
        }
        lemma_trimmed_start_pad(pad.skip(1), s);
    }
}

proof fn lemma_trimmed_end_pad(s: Seq<char>, pad: Seq<char>)
    requires
        is_blank(pad),
    ensures
        trimmed_end(s + pad) == trimmed_end(s),
    decreases pad.len(),
{
    if pad.len() == 0 {
        assert(s + pad =~= s);
    } else {
        assert((s + pad).last() == pad.last());
        assert((s + pad).drop_last() =~= s + pad.drop_last());
        assert forall|i: int| 0 <= i < pad.drop_last().len() implies is_white_space(
            #[trigger] pad.drop_last()[i],
        ) by {
            assert(pad.drop_last()[i] == pad[i]);
        }
        lemma_trimmed_end_pad(s, pad.drop_last());
    }
}

proof fn lemma_trimmed_start_append(s: Seq<char>, tail: Seq<char>)
    requires
        !is_blank(s),
    ensures
        trimmed_start(s + tail) == trimmed_start(s) + tail,
    decreases s.len(),
{
    if s.len() > 0 && is_white_space(s[0]) {
        assert((s + tail)[0] == s[0]);
        assert((s + tail).skip(1) =~= s.skip(1) + tail);
        let k = choose|k: int| 0 <= k < s.len() && !is_white_space(s[k]);
        assert(s.skip(1)[k - 1] == s[k]);
        lemma_trimmed_start_append(s.skip(1), tail);
    } else {
        assert(s.len() > 0);
        assert((s + tail)[0] == s[0]);
    }
}

/// White space around a text makes no difference to what trimming leaves.
pub proof fn lemma_trimmed_pad(left: Seq<char>, s: Seq<char>, right: Seq<char>)
    requires
        is_blank(left),
        is_blank(right),
    ensures
        trimmed(left + s + right) == trimmed(s),
{
    assert(left + s + right =~= left + (s + right));
    lemma_trimmed_start_pad(left, s + right);
    lemma_trimmed_start_blank(s);
    if is_blank(s) {
        assert forall|i: int| 0 <= i < (s + right).len() implies is_white_space(
            #[trigger] (s + right)[i],
        ) by {
            if i < s.len() {
                assert((s + right)[i] == s[i]);
            } else {
                assert((s + right)[i] == right[i - s.len()]);
            }
        }
        lemma_trimmed_start_blank(s + right);
        assert(trimmed_start(s + right) =~= trimmed_start(s));
    } else {
        lemma_trimmed_start_append(s, right);
        lemma_trimmed_end_pad(trimmed_start(s), right);
    }
}

/// Whether `c` is white space.
pub fn is_blank_char(c: char) -> (r: bool)
    ensures
        r == is_white_space(c),
{
    let n: u32 = c as u32;
    (0x09 <= n && n <= 0x0D) || n == 0x20 || n == 0x85 || n == 0xA0 || n == 0x1680 || (0x2000 <= n
        && n <= 0x200A) || n == 0x2028 || n == 0x2029 || n == 0x202F || n == 0x205F || n == 0x3000
}

/// The characters of `s`, in order.
pub fn chars_of(s: &str) -> (r: Vec<char>)
    ensures
        r@ == s@,
{
    broadcast use vstd::string::group_string_axioms;

    let mut out: Vec<char> = Vec::new();
    for c in it: s.chars()
        invariant
            it.seq() == s@,
            out@ == s@.take(it.index() as int),
    {
        out.push(c);
        proof {
            assert(out@ =~= s@.take(it.index() + 1));
        }
    }
    proof {
        assert(out@ =~= s@);
    }
    out
}

/// Where the part of `chars` from `lo` to `hi` begins once its leading
/// white space is gone.
pub fn skip_blank(chars: &Vec<char>, lo: usize, hi: usize) -> (r: usize)
    requires
        lo <= hi <= chars.len(),
    ensures
        lo <= r <= hi,
        chars@.subrange(r as int, hi as int) == trimmed_start(
            chars@.subrange(lo as int, hi as int),
        ),
{
    let mut i: usize = lo;
    while i < hi && is_blank_char(chars[i])
        invariant
            lo <= i <= hi <= chars.len(),
            trimmed_start(chars@.subrange(i as int, hi as int)) == trimmed_start(
                chars@.subrange(lo as int, hi as int),
            ),
        decreases hi - i,
    {
        proof {
            let rest = chars@.subrange(i as int, hi as int);
            assert(rest[0] == chars@[i as int]);
            assert(rest.skip(1) =~= chars@.subrange(i + 1, hi as int));
        }
        i += 1;
    }
    proof {
        let rest = chars@.subrange(i as int, hi as int);
        if i < hi {
            assert(rest[0] == chars@[i as int]);
        }
    }
    i
}

/// Where the part of `chars` from `lo` to `hi` ends once its trailing white
/// space is gone.
pub fn drop_blank(chars: &Vec<char>, lo: usize, hi: usize) -> (r: usize)
    requires
        lo <= hi <= chars.len(),
    ensures
        lo <= r <= hi,
        chars@.subrange(lo as int, r as int) == trimmed_end(chars@.subrange(lo as int, hi as int)),
{
    let mut i: usize = hi;
    while lo < i && is_blank_char(chars[i - 1])
        invariant
            lo <= i <= hi <= chars.len(),
            trimmed_end(chars@.subrange(lo as int, i as int)) == trimmed_end(
                chars@.subrange(lo as int, hi as int),
            ),
        decreases i - lo,
    {
        proof {
            let rest = chars@.subrange(lo as int, i as int);
            assert(rest.last() == chars@[i - 1]);
            assert(rest.drop_last() =~= chars@.subrange(lo as int, i - 1));
        }
        i -= 1;
    }
    proof {
        let rest = chars@.subrange(lo as int, i as int);
        if lo < i {
            assert(rest.last() == chars@[i - 1]);
        }
    }
    i
}

/// Whether `pat` stands in `chars` at `at`, within the part that ends at
/// `hi`.
pub fn starts_at(chars: &Vec<char>, at: usize, hi: usize, pat: &Vec<char>) -> (r: bool)
    requires
        at <= hi <= chars.len(),
    ensures
        r == pat@.is_prefix_of(chars@.subrange(at as int, hi as int)),
{
    let ghost part = chars@.subrange(at as int, hi as int);
    if pat.len() > hi - at {
        return false;
    }
    let mut k: usize = 0;
    while k < pat.len()
        invariant
            k <= pat.len() <= hi - at,
            at <= hi <= chars.len(),
            part == chars@.subrange(at as int, hi as int),
            forall|j: int| 0 <= j < k ==> part[j] == pat@[j],
        decreases pat.len() - k,
    {
        if chars[at + k] != pat[k] {
            proof {
                assert(part.subrange(0, pat@.len() as int)[k as int] == part[k as int]);
            }
            return false;
        }
        k += 1;
    }
    proof {
        assert(pat@ =~= part.subrange(0, pat@.len() as int));
    }
    true
}

/// Whether `pat` stands in `chars` just before `at`, within the part that
/// begins at `lo`.
pub fn ends_at(chars: &Vec<char>, lo: usize, at: usize, pat: &Vec<char>) -> (r: bool)
    requires
        lo <= at <= chars.len(),
    ensures
        r == pat@.is_suffix_of(chars@.subrange(lo as int, at as int)),
{
    let ghost part = chars@.subrange(lo as int, at as int);
    if pat.len() > at - lo {
        return false;
    }
    let from: usize = at - pat.len();
    let ghost tail = part.subrange(part.len() - pat@.len(), part.len() as int);
    let mut k: usize = 0;
    while k < pat.len()
        invariant
            k <= pat.len() <= at - lo,
            lo <= at <= chars.len(),
            from == at - pat.len(),
            part == chars@.subrange(lo as int, at as int),
            tail == part.subrange(part.len() - pat@.len(), part.len() as int),
            forall|j: int| 0 <= j < k ==> tail[j] == pat@[j],
        decreases pat.len() - k,
    {
        proof {
            assert(tail[k as int] == chars@[from + k]);
        }
        if chars[from + k] != pat[k] {
            return false;
        }
        k += 1;
    }
    proof {
        assert(pat@ =~= tail);
    }
    true
}

/// Where the part of `chars` from `lo` to `hi` begins once every leading
/// repetition of `pat` is gone. An empty `pat` stands nowhere.
pub fn skip_repeated(chars: &Vec<char>, lo: usize, hi: usize, pat: &Vec<char>) -> (r: usize)
    requires
        lo <= hi <= chars.len(),
    ensures
        lo <= r <= hi,
        chars@.subrange(r as int, hi as int) == without_leading(
            chars@.subrange(lo as int, hi as int),
            pat@,
        ),
{
    if pat.len() == 0 {
        return lo;
    }
    let mut i: usize = lo;
    while starts_at(chars, i, hi, pat)
        invariant
            lo <= i <= hi <= chars.len(),
            pat.len() > 0,
            without_leading(chars@.subrange(i as int, hi as int), pat@) == without_leading(
                chars@.subrange(lo as int, hi as int),
                pat@,
            ),
        decreases hi - i,
    {
        proof {
            let rest = chars@.subrange(i as int, hi as int);
            assert(rest.skip(pat@.len() as int) =~= chars@.subrange(i + pat@.len(), hi as int));
        }
        i += pat.len();
    }
    i
}

/// Where the part of `chars` from `lo` to `hi` ends once every trailing
/// repetition of `pat` is gone. An empty `pat` stands nowhere.
pub fn drop_repeated(chars: &Vec<char>, lo: usize, hi: usize, pat: &Vec<char>) -> (r: usize)
    requires
        lo <= hi <= chars.len(),
    ensures
        lo <= r <= hi,
        chars@.subrange(lo as int, r as int) == without_trailing(
            chars@.subrange(lo as int, hi as int),
            pat@,
        ),
{
    if pat.len() == 0 {
        return hi;
    }
    let mut i: usize = hi;
    while ends_at(chars, lo, i, pat)
        invariant
            lo <= i <= hi <= chars.len(),
            pat.len() > 0,
            without_trailing(chars@.subrange(lo as int, i as int), pat@) == without_trailing(
                chars@.subrange(lo as int, hi as int),
                pat@,
            ),
        decreases i - lo,
    {
        proof {
            let rest = chars@.subrange(lo as int, i as int);
            assert(rest.take(rest.len() - pat@.len()) =~= chars@.subrange(
                lo as int,
                i - pat@.len(),
            ));
        }
        i -= pat.len();
    }
    i
}

/// The slice of `s` that is left when the white space on both sides is
/// removed.
pub fn trim<'a>(s: &'a str) -> (r: &'a str)
    ensures
        r@ == trimmed(s@),
{
    let chars = chars_of(s);
    let lo = skip_blank(&chars, 0, chars.len());
    let hi = drop_blank(&chars, lo, chars.len());
    proof {
        assert(chars@.subrange(0, chars@.len() as int) =~= s@);
    }
    s.substring_char(lo, hi)
}

} // verus!
