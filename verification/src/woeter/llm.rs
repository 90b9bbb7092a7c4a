//! The texts exchanged with a model provider: where the responses
//! interface of a provider is found, and the answer of a model without
//! the code fence that models like to put around JSON.

use vstd::prelude::*;
use crate::text::{collect_chars, trim_bounds, trimmed};

verus! {

/// Whether `s` begins with `p`.
pub open spec fn starts_with(s: Seq<char>, p: Seq<char>) -> bool {
    s.len() >= p.len() && s.take(p.len() as int) == p
}

/// Whether `s` ends with `p`.
pub open spec fn ends_with(s: Seq<char>, p: Seq<char>) -> bool {
    s.len() >= p.len() && s.skip(s.len() - p.len()) == p
}

/// Whether `p` stands in `s` at the place `at`.
pub open spec fn occurs_at(s: Seq<char>, p: Seq<char>, at: int) -> bool {
    0 <= at && at + p.len() <= s.len() && s.subrange(at, at + p.len()) == p
}

/// `s` without every `p` that it begins with.
pub open spec fn without_prefixes(s: Seq<char>, p: Seq<char>) -> Seq<char>
    decreases s.len(),
{
    if p.len() > 0 && starts_with(s, p) {
        without_prefixes(s.skip(p.len() as int), p)
    } else {
        s
    }
}

/// `s` without every `c` at its end.
pub open spec fn without_trailing(s: Seq<char>, c: char) -> Seq<char>
    decreases s.len(),
{
    if s.len() > 0 && s.last() == c {
        without_trailing(s.drop_last(), c)
    } else {
        s
    }
}

/// Whether the last occurrence of `p` in `s` is at `at`.
pub open spec fn is_last_occurrence(s: Seq<char>, p: Seq<char>, at: int) -> bool {
    occurs_at(s, p, at) && forall|j: int| at < j ==> !#[trigger] occurs_at(s, p, j)
}

/// What stands in `s` before the last occurrence of `p`; all of `s` where
/// `p` does not occur.
pub open spec fn before_last(s: Seq<char>, p: Seq<char>) -> Seq<char> {
    if exists|at: int| occurs_at(s, p, at) {
        s.take(choose|at: int| is_last_occurrence(s, p, at))
    } else {
        s
    }
}

/// The opening of a fenced block of JSON.
pub open spec fn json_fence() -> Seq<char> {
    seq!['`', '`', '`', 'j', 's', 'o', 'n']
}

/// A code fence.
pub open spec fn fence() -> Seq<char> {
    seq!['`', '`', '`']
}

/// The answer of a model without its code fence: the trimmed answer as it
/// is where it does not open a block of JSON; else what stands between the
/// opening and the last fence, trimmed.
pub open spec fn unfenced(content: Seq<char>) -> Seq<char> {
    let answer = trimmed(content);
    if starts_with(answer, json_fence()) {
        trimmed(before_last(without_prefixes(answer, json_fence()), fence()))
    } else {
        answer
    }
}

/// The address of the responses interface of a provider at `base_url`:
/// the base without slashes at its end, with `/v1` added where it does not
/// end with it, and `/responses` after that.
pub open spec fn responses_address(base_url: Seq<char>) -> Seq<char> {
    let base = without_trailing(base_url, '/');
    if ends_with(base, "/v1"@) {
        base + "/responses"@
    } else {
        base + "/v1/responses"@
    }
}

/// Whether `pattern` stands in `chars[lo..hi]` at the place `at` of
/// `chars`.
fn matches_at(chars: &Vec<char>, lo: usize, hi: usize, at: usize, pattern: &[char]) -> (r: bool)
    requires
        lo <= at <= hi <= chars@.len(),
    ensures
        r == occurs_at(chars@.subrange(lo as int, hi as int), pattern@, at - lo),
{
    let ghost part = chars@.subrange(lo as int, hi as int);
    let n = pattern.len();
    if n > hi - at {
        return false;
    }
    let mut i: usize = 0;
    while i < n
        invariant
            lo <= at <= hi <= chars@.len(),
            n == pattern@.len(),
            at + n <= hi,
            i <= n,
            part == chars@.subrange(lo as int, hi as int),
            forall|j: int| 0 <= j < i ==> chars@[at + j] == pattern@[j],
        decreases n - i,
    {
        if chars[at + i] != pattern[i] {
            assert(part.subrange(at - lo, at - lo + n)[i as int] == chars@[at + i]);
            return false;
        }
        i += 1;
    }
    assert(part.subrange(at - lo, at - lo + n) =~= pattern@);
    true
}

/// Where in `chars[lo..hi]` the part before the last occurrence of
/// `pattern` ends.
fn before_last_end(chars: &Vec<char>, lo: usize, hi: usize, pattern: &[char]) -> (r: usize)
    requires
        lo <= hi <= chars@.len(),
    ensures
        lo <= r <= hi,
        chars@.subrange(lo as int, r as int) == before_last(
            chars@.subrange(lo as int, hi as int),
            pattern@,
        ),
{
    let ghost part = chars@.subrange(lo as int, hi as int);
    let mut at: usize = hi;
    loop
        invariant
            lo <= at <= hi <= chars@.len(),
            part == chars@.subrange(lo as int, hi as int),
            forall|j: int| at - lo < j ==> !#[trigger] occurs_at(part, pattern@, j),
        decreases at - lo,
    {
        if matches_at(chars, lo, hi, at, pattern) {
            proof {
                assert(is_last_occurrence(part, pattern@, at - lo));
                let chosen = choose|k: int| is_last_occurrence(part, pattern@, k);
                assert(is_last_occurrence(part, pattern@, chosen));
                if chosen < at - lo {
                    assert(!occurs_at(part, pattern@, at - lo));
                }
                if at - lo < chosen {
                    assert(!occurs_at(part, pattern@, chosen));
                }
                assert(part.take(at - lo) =~= chars@.subrange(lo as int, at as int));
            }
            return at;
        }
        if at == lo {
            proof {
                assert forall|k: int| !#[trigger] occurs_at(part, pattern@, k) by {}
            }
            return hi;
        }
        at -= 1;
    }
}

/// The answer `content` of a model without its code fence.
pub fn strip_code_fence(content: &str) -> (r: String)
    ensures
        r@ == unfenced(content@),
{
    let chars = collect_chars(content);
    let (lo, hi) = trim_bounds(&chars, 0, chars.len());
    assert(chars@.subrange(0, chars@.len() as int) =~= content@);
    let opening: [char; 7] = ['`', '`', '`', 'j', 's', 'o', 'n'];
    let closing: [char; 3] = ['`', '`', '`'];
    assert(opening@ =~= json_fence());
    assert(closing@ =~= fence());
    let ghost answer = chars@.subrange(lo as int, hi as int);
    proof {
        assert(occurs_at(answer, json_fence(), 0) == starts_with(answer, json_fence())) by {
            if answer.len() >= 7 {
                assert(answer.take(7) =~= answer.subrange(0, 7));
            }
        }
    }
    if !matches_at(&chars, lo, hi, lo, opening.as_slice()) {
        return content.substring_char(lo, hi).to_string();
    }
    let mut start: usize = lo;
    while matches_at(&chars, start, hi, start, opening.as_slice())
        invariant
            lo <= start <= hi <= chars@.len(),
            opening@ == json_fence(),
            without_prefixes(answer, json_fence()) == without_prefixes(
                chars@.subrange(start as int, hi as int),
                json_fence(),
            ),
        decreases hi - start,
    {
        proof {
            let rest = chars@.subrange(start as int, hi as int);
            assert(rest.take(7) =~= rest.subrange(0, 7));
            assert(rest.skip(7) =~= chars@.subrange(start + 7, hi as int));
        }
        start += 7;
    }
    proof {
        let rest = chars@.subrange(start as int, hi as int);
        if rest.len() >= 7 {
            assert(rest.take(7) =~= rest.subrange(0, 7));
        }
        assert(without_prefixes(rest, json_fence()) == rest);
    }
    let end = before_last_end(&chars, start, hi, closing.as_slice());
    let (a, b) = trim_bounds(&chars, start, end);
    content.substring_char(a, b).to_string()
}

/// The address of the responses interface of a provider at `base_url`.
pub fn responses_url(base_url: &str) -> (r: String)
    ensures
        r@ == responses_address(base_url@),
{
    proof {
        reveal_strlit("/v1");
    }
    let chars = collect_chars(base_url);
    let mut end: usize = chars.len();
    assert(chars@.subrange(0, end as int) =~= base_url@);
    while end > 0 && chars[end - 1] == '/'
        invariant
            end <= chars@.len(),
            chars@ == base_url@,
            without_trailing(base_url@, '/') == without_trailing(
                chars@.subrange(0, end as int),
                '/',
            ),
        decreases end,
    {
        proof {
            let cur = chars@.subrange(0, end as int);
            assert(cur.last() == chars@[end - 1]);
            assert(cur.drop_last() =~= chars@.subrange(0, end - 1));
        }
        end -= 1;
    }
    let ghost base = chars@.subrange(0, end as int);
    proof {
        if end > 0 {
            assert(base.last() == chars@[end - 1]);
        }
        assert(without_trailing(base, '/') == base);
    }
    let versioned = end >= 3 && chars[end - 3] == '/' && chars[end - 2] == 'v' && chars[end - 1]
        == '1';
    proof {
        if end >= 3 {
            let tail = base.skip(base.len() - 3);
            assert(tail[0] == chars@[end - 3] && tail[1] == chars@[end - 2] && tail[2]
                == chars@[end - 1]);
            if versioned {
                assert(tail =~= "/v1"@);
            }
        }
    }
    let mut url = base_url.substring_char(0, end).to_string();
    if versioned {
        url.append("/responses");
    } else {
        url.append("/v1/responses");
    }
    url
}

} // verus!
