//! Text helpers shared by the request normalisers: whitespace trimming,
//! lower-casing, splitting on delimiter characters and message building.
//!
//! Every contract is stated over `Seq<char>`, the view of `str` and `String`.

use vstd::prelude::*;

verus! {

/// What `str::to_lowercase` returns for a text, as a function of its characters.
pub uninterp spec fn lowercase_of(s: Seq<char>) -> Seq<char>;

/// `str::to_lowercase` of std: the lower-case form of `s` under the Unicode
/// case mapping. The mapping is not spelled out here; the result is known
/// only as `lowercase_of` of the input.
#[verifier::external_body]
pub(crate) fn lowercase(s: &str) -> (r: String)
    ensures
        r@ == lowercase_of(s@),
{
    s.to_lowercase()
}

/// `==` of std on two `str`: true exactly when both hold the same characters.
#[verifier::external_body]
pub(crate) fn text_eq(a: &str, b: &str) -> (r: bool)
    ensures
        r == (a@ == b@),
{
    a == b
}

/// The characters with the Unicode property `White_Space`.
pub open spec fn is_space(c: char) -> bool {
    let n = c as u32;
    ||| 0x09 <= n <= 0x0d
    ||| n == 0x20
    ||| n == 0x85
    ||| n == 0xa0
    ||| n == 0x1680
    ||| 0x2000 <= n <= 0x200a
    ||| n == 0x2028
    ||| n == 0x2029
    ||| n == 0x202f
    ||| n == 0x205f
    ||| n == 0x3000
}

/// Whether `c` is white space.
pub fn char_is_space(c: char) -> (r: bool)
    ensures
        r == is_space(c),
{
    let n: u32 = c as u32;
    (0x09 <= n && n <= 0x0d) || n == 0x20 || n == 0x85 || n == 0xa0 || n == 0x1680 || (0x2000 <= n
        && n <= 0x200a) || n == 0x2028 || n == 0x2029 || n == 0x202f || n == 0x205f || n == 0x3000
}

/// `s` without its leading white space.
pub open spec fn skip_spaces(s: Seq<char>) -> Seq<char>
    decreases s.len(),
{
    if s.len() > 0 && is_space(s[0]) {
        skip_spaces(s.drop_first())
    } else {
        s
    }
}

/// `s` without its trailing white space.
pub open spec fn drop_end_spaces(s: Seq<char>) -> Seq<char>
    decreases s.len(),
{
    if s.len() > 0 && is_space(s.last()) {
        drop_end_spaces(s.drop_last())
    } else {
        s
    }
}

/// `s` without leading and trailing white space.
pub open spec fn trimmed(s: Seq<char>) -> Seq<char> {
    drop_end_spaces(skip_spaces(s))
}

/// The characters of each text of a list.
pub open spec fn texts(v: Seq<String>) -> Seq<Seq<char>> {
    Seq::new(v.len(), |i: int| v[i]@)
}

/// The characters of an optional text.
pub open spec fn opt_text(s: Option<String>) -> Option<Seq<char>> {
    match s {
        Some(t) => Some(t@),
        None => None,
    }
}

/// The characters of `s`, one element each.
pub fn collect_chars(s: &str) -> (v: Vec<char>)
    ensures
        v@ == s@,
{
    let mut v: Vec<char> = Vec::new();
    for c in it: s.chars()
        invariant
            it.seq() == s@,
            v@ =~= s@.take(it.index()),
    {
        v.push(c);
    }
    assert(s@.take(s@.len() as int) =~= s@);
    v
}

/// Where the trimmed form of `chars[lo..hi]` starts and ends.
pub fn trim_bounds(chars: &Vec<char>, lo: usize, hi: usize) -> (r: (usize, usize))
    requires
        lo <= hi <= chars@.len(),
    ensures
        lo <= r.0 <= r.1 <= hi,
        chars@.subrange(r.0 as int, r.1 as int) == trimmed(chars@.subrange(lo as int, hi as int)),
{
    let ghost whole = chars@.subrange(lo as int, hi as int);
    let mut a: usize = lo;
    while a < hi && char_is_space(chars[a])
        invariant
            lo <= a <= hi <= chars@.len(),
            skip_spaces(whole) == skip_spaces(chars@.subrange(a as int, hi as int)),
        decreases hi - a,
    {
        proof {
            let cur = chars@.subrange(a as int, hi as int);
            assert(cur[0] == chars@[a as int]);
            assert(cur.drop_first() =~= chars@.subrange(a + 1, hi as int));
        }
        a += 1;
    }
    let ghost head = chars@.subrange(a as int, hi as int);
    assert(skip_spaces(whole) == head) by {
        if a < hi {
            assert(head[0] == chars@[a as int]);
        }
    }
    let mut b: usize = hi;
    while b > a && char_is_space(chars[b - 1])
        invariant
            a <= b <= hi <= chars@.len(),
            drop_end_spaces(head) == drop_end_spaces(chars@.subrange(a as int, b as int)),
        decreases b - a,
    {
        proof {
            let cur = chars@.subrange(a as int, b as int);
            assert(cur.last() == chars@[b - 1]);
            assert(cur.drop_last() =~= chars@.subrange(a as int, b - 1));
        }
        b -= 1;
    }
    proof {
        let cur = chars@.subrange(a as int, b as int);
        if b > a {
            assert(cur.last() == chars@[b - 1]);
        }
        assert(drop_end_spaces(cur) == cur);
    }
    (a, b)
}

/// `s` without leading and trailing white space, as `str::trim` gives it.
pub fn trim(s: &str) -> (r: String)
    ensures
        r@ == trimmed(s@),
{
    let chars = collect_chars(s);
    let (a, b) = trim_bounds(&chars, 0, chars.len());
    assert(chars@.subrange(0, chars@.len() as int) =~= s@);
    s.substring_char(a, b).to_string()
}

/// How many characters of `s` stand before its first delimiter; the whole
/// length where it holds none.
pub open spec fn first_delim(s: Seq<char>, delims: Seq<char>) -> int
    decreases s.len(),
{
    if s.len() == 0 || delims.contains(s[0]) {
        0
    } else {
        1 + first_delim(s.drop_first(), delims)
    }
}

/// The pieces of `s` between delimiters, in order. A text without a
/// delimiter is one piece; two delimiters in a row enclose an empty piece.
pub open spec fn split_on(s: Seq<char>, delims: Seq<char>) -> Seq<Seq<char>>
    decreases s.len(),
{
    let k = first_delim(s, delims);
    if 0 <= k < s.len() {
        seq![s.take(k)] + split_on(s.skip(k + 1), delims)
    } else {
        seq![s]
    }
}

/// Each piece trimmed, and the pieces that are empty after trimming left out.
pub open spec fn clean_pieces(pieces: Seq<Seq<char>>) -> Seq<Seq<char>>
    decreases pieces.len(),
{
    if pieces.len() == 0 {
        Seq::empty()
    } else {
        let before = clean_pieces(pieces.drop_last());
        let piece = trimmed(pieces.last());
        if piece.len() == 0 {
            before
        } else {
            before.push(piece)
        }
    }
}

/// The sub-texts of `s` that a list of index pairs delimits.
pub open spec fn ranges_text(s: Seq<char>, ranges: Seq<(usize, usize)>) -> Seq<Seq<char>> {
    Seq::new(ranges.len(), |i: int| s.subrange(ranges[i].0 as int, ranges[i].1 as int))
}

/// The first delimiter of `s` stands at `k` where no delimiter stands
/// before `k` and one stands at `k`, or `s` ends there.
pub proof fn lemma_first_delim(s: Seq<char>, delims: Seq<char>, k: int)
    requires
        0 <= k <= s.len(),
        forall|j: int| 0 <= j < k ==> !delims.contains(#[trigger] s[j]),
        k < s.len() ==> delims.contains(s[k]),
    ensures
        first_delim(s, delims) == k,
    decreases k,
{
    if k > 0 {
        let rest = s.drop_first();
        assert forall|j: int| 0 <= j < k - 1 implies !delims.contains(#[trigger] rest[j]) by {
            assert(rest[j] == s[j + 1]);
        }
        lemma_first_delim(rest, delims, k - 1);
    }
}

/// Whether `c` is one of `delims`.
pub fn is_delimiter(delims: &[char], c: char) -> (r: bool)
    ensures
        r == delims@.contains(c),
{
    let mut i: usize = 0;
    while i < delims.len()
        invariant
            i <= delims@.len(),
            forall|j: int| 0 <= j < i ==> delims@[j] != c,
        decreases delims@.len() - i,
    {
        if delims[i] == c {
            return true;
        }
        i += 1;
    }
    false
}

/// Where each piece of `split_on` starts and ends in `chars`.
pub fn split_ranges(chars: &Vec<char>, delims: &[char]) -> (r: Vec<(usize, usize)>)
    ensures
        forall|i: int| 0 <= i < r@.len() ==> (#[trigger] r@[i]).0 <= r@[i].1 <= chars@.len(),
        ranges_text(chars@, r@) == split_on(chars@, delims@),
{
    let ghost s = chars@;
    let ghost d = delims@;
    let n = chars.len();
    let mut out: Vec<(usize, usize)> = Vec::new();
    let mut start: usize = 0;
    let mut done = false;
    assert(s.skip(0) =~= s);
    assert(ranges_text(s, out@) + split_on(s.skip(0), d) =~= split_on(s, d));
    while !done
        invariant
            s == chars@,
            d == delims@,
            n == s.len(),
            start <= n,
            forall|i: int| 0 <= i < out@.len() ==> (#[trigger] out@[i]).0 <= out@[i].1 <= n,
            !done ==> split_on(s, d) == ranges_text(s, out@) + split_on(s.skip(start as int), d),
            done ==> split_on(s, d) == ranges_text(s, out@),
        decreases n - start + (if done { 0int } else { 1int }),
    {
        let mut k: usize = start;
        while k < n && !is_delimiter(delims, chars[k])
            invariant
                s == chars@,
                d == delims@,
                n == s.len(),
                start <= k <= n,
                forall|j: int| start <= j < k ==> !d.contains(#[trigger] s[j]),
            decreases n - k,
        {
            k += 1;
        }
        let ghost rest = s.skip(start as int);
        let ghost before = out@;
        proof {
            assert forall|j: int| 0 <= j < k - start implies !d.contains(#[trigger] rest[j]) by {
                assert(rest[j] == s[start + j]);
            }
            if k < n {
                assert(rest[k - start] == s[k as int]);
            }
            lemma_first_delim(rest, d, k - start);
            assert(rest.take(k - start) =~= s.subrange(start as int, k as int));
        }
        out.push((start, k));
        proof {
            assert(ranges_text(s, out@) =~= ranges_text(s, before).push(
                s.subrange(start as int, k as int),
            ));
        }
        if k == n {
            proof {
                assert(rest =~= s.subrange(start as int, k as int));
                assert(split_on(rest, d) =~= seq![rest]);
                assert(ranges_text(s, before) + seq![rest] =~= ranges_text(s, out@));
            }
            done = true;
        } else {
            proof {
                assert(rest.skip(k - start + 1) =~= s.skip(k + 1));
                assert(split_on(rest, d) =~= seq![s.subrange(start as int, k as int)] + split_on(
                    s.skip(k + 1),
                    d,
                ));
                assert(ranges_text(s, before) + (seq![s.subrange(start as int, k as int)]
                    + split_on(s.skip(k + 1), d)) =~= ranges_text(s, out@) + split_on(
                    s.skip(k + 1),
                    d,
                ));
            }
            start = k + 1;
        }
    }
    out
}

/// The pieces of `s` between delimiters, trimmed, without the empty ones.
pub fn split_clean(s: &str, delims: &[char]) -> (r: Vec<String>)
    ensures
        texts(r@) == clean_pieces(split_on(s@, delims@)),
{
    let chars = collect_chars(s);
    let ranges = split_ranges(&chars, delims);
    let ghost pieces = split_on(s@, delims@);
    let mut out: Vec<String> = Vec::new();
    let mut i: usize = 0;
    assert(pieces.take(0) =~= Seq::<Seq<char>>::empty());
    assert(texts(out@) =~= clean_pieces(pieces.take(0)));
    while i < ranges.len()
        invariant
            chars@ == s@,
            pieces == ranges_text(chars@, ranges@),
            i <= ranges@.len(),
            forall|j: int|
                0 <= j < ranges@.len() ==> (#[trigger] ranges@[j]).0 <= ranges@[j].1
                    <= chars@.len(),
            texts(out@) == clean_pieces(pieces.take(i as int)),
        decreases ranges@.len() - i,
    {
        let (lo, hi) = ranges[i];
        let (a, b) = trim_bounds(&chars, lo, hi);
        let ghost before = out@;
        proof {
            assert(pieces.take(i + 1).drop_last() =~= pieces.take(i as int));
            assert(pieces.take(i + 1).last() == chars@.subrange(lo as int, hi as int));
        }
        if a < b {
            let piece = s.substring_char(a, b).to_string();
            out.push(piece);
            assert(texts(out@) =~= texts(before).push(piece@));
        }
        i += 1;
    }
    assert(pieces.take(ranges@.len() as int) =~= pieces);
    out
}

/// A text as the normalisers read it: trimmed, then lower-cased.
pub open spec fn normal_form(input: Seq<char>) -> Seq<char> {
    lowercase_of(trimmed(input))
}

/// `input` trimmed and lower-cased.
pub fn normalize(input: &str) -> (r: String)
    ensures
        r@ == normal_form(input@),
{
    let trimmed_input = trim(input);
    lowercase(trimmed_input.as_str())
}

/// `prefix`, then `value`, then a closing single quote: the shape of the
/// messages that name a rejected value.
pub fn quoted_message(prefix: &str, value: &str) -> (r: String)
    ensures
        r@ == prefix@ + value@ + "'"@,
{
    let mut r: String = prefix.to_string();
    r.append(value);
    r.append("'");
    r
}

} // verus!
