//! Who is asking: the user that a request identifies, and where in the
//! request the token that identifies the user stands.
//!
//! Checking the token itself is left to the caller.

use vstd::prelude::*;
use crate::text::{
    collect_chars, first_delim, lemma_first_delim, normal_form, normalize, ranges_text,
    split_on, split_ranges, trim_bounds, trimmed,
};

verus! {

/// The user that a request was made for.
#[derive(Clone, Debug)]
pub struct CurrentUser {
    pub user_id: String,
    pub email: Option<String>,
    pub name: Option<String>,
}

/// The caller could not be identified.
#[derive(Debug)]
pub struct AuthError;

impl AuthError {
    /// The HTTP status and the text that answer an unidentified caller.
    pub fn response(&self) -> (r: (u16, &'static str))
        ensures
            r.0 == 401,
            r.1@ == "unauthorized"@,
    {
        (401, "unauthorized")
    }
}

/// The token of an `Authorization` header: what follows `Bearer `, where
/// the header starts with it.
pub open spec fn bearer_of(header: Seq<char>) -> Option<Seq<char>> {
    if header.len() >= 7 && header.take(7) == "Bearer "@ {
        Some(header.skip(7))
    } else {
        None
    }
}

/// The token that the header `authorization` carries.
pub fn bearer_token<'a>(authorization: &'a str) -> (r: Option<&'a str>)
    ensures
        match r {
            Some(token) => bearer_of(authorization@) == Some(token@),
            None => bearer_of(authorization@) is None,
        },
{
    proof {
        reveal_strlit("Bearer ");
    }
    let n = authorization.unicode_len();
    if n < 7 {
        return None;
    }
    let chars = collect_chars(authorization);
    let matches = chars[0] == 'B' && chars[1] == 'e' && chars[2] == 'a' && chars[3] == 'r'
        && chars[4] == 'e' && chars[5] == 'r' && chars[6] == ' ';
    proof {
        let head = authorization@.take(7);
        if matches {
            assert(head =~= "Bearer "@);
        } else {
            assert(head[0] == chars@[0] && head[1] == chars@[1] && head[2] == chars@[2] && head[3]
                == chars@[3] && head[4] == chars@[4] && head[5] == chars@[5] && head[6]
                == chars@[6]);
        }
        assert(authorization@.skip(7) =~= authorization@.subrange(7, n as int));
    }
    if matches {
        Some(authorization.substring_char(7, n))
    } else {
        None
    }
}

/// The value that one piece of a cookie header gives to the cookie
/// `name`: the piece is trimmed and split at its first `=`; the value
/// counts where the trimmed text before the `=` is the name.
pub open spec fn cookie_value(piece: Seq<char>, name: Seq<char>) -> Option<Seq<char>> {
    let pair = trimmed(piece);
    let at = first_delim(pair, seq!['=']);
    if 0 <= at < pair.len() && trimmed(pair.take(at)) == name {
        Some(trimmed(pair.skip(at + 1)))
    } else {
        None
    }
}

/// The value of the first piece that gives one to the cookie `name`.
pub open spec fn first_cookie(pieces: Seq<Seq<char>>, name: Seq<char>) -> Option<Seq<char>>
    decreases pieces.len(),
{
    if pieces.len() == 0 {
        None
    } else {
        match cookie_value(pieces[0], name) {
            Some(value) => Some(value),
            None => first_cookie(pieces.drop_first(), name),
        }
    }
}

/// The value of the cookie `name` in a cookie header, whose pieces are
/// separated by semicolons.
pub open spec fn cookie_of(header: Seq<char>, name: Seq<char>) -> Option<Seq<char>> {
    first_cookie(split_on(header, seq![';']), name)
}

/// Whether `chars[lo..hi]` is the text `other`.
fn range_is(chars: &Vec<char>, lo: usize, hi: usize, other: &Vec<char>) -> (r: bool)
    requires
        lo <= hi <= chars@.len(),
    ensures
        r == (chars@.subrange(lo as int, hi as int) == other@),
{
    if hi - lo != other.len() {
        return false;
    }
    let mut i: usize = 0;
    while i < other.len()
        invariant
            lo <= hi <= chars@.len(),
            hi - lo == other@.len(),
            i <= other@.len(),
            forall|j: int| 0 <= j < i ==> chars@[lo + j] == other@[j],
        decreases other@.len() - i,
    {
        if chars[lo + i] != other[i] {
            assert(chars@.subrange(lo as int, hi as int)[i as int] != other@[i as int]);
            return false;
        }
        i += 1;
    }
    assert(chars@.subrange(lo as int, hi as int) =~= other@);
    true
}

/// The value of the cookie `name` in the header `cookie_header`.
pub fn find_cookie<'a>(cookie_header: &'a str, name: &str) -> (r: Option<&'a str>)
    ensures
        match r {
            Some(value) => cookie_of(cookie_header@, name@) == Some(value@),
            None => cookie_of(cookie_header@, name@) is None,
        },
{
    let chars = collect_chars(cookie_header);
    let wanted = collect_chars(name);
    let semicolon: [char; 1] = [';'];
    let equals: [char; 1] = ['='];
    assert(semicolon@ =~= seq![';']);
    assert(equals@ =~= seq!['=']);
    let ranges = split_ranges(&chars, semicolon.as_slice());
    let ghost pieces = split_on(cookie_header@, seq![';']);
    let mut i: usize = 0;
    assert(pieces.skip(0) =~= pieces);
    while i < ranges.len()
        invariant
            chars@ == cookie_header@,
            wanted@ == name@,
            pieces == ranges_text(chars@, ranges@),
            i <= ranges@.len(),
            forall|j: int|
                0 <= j < ranges@.len() ==> (#[trigger] ranges@[j]).0 <= ranges@[j].1
                    <= chars@.len(),
            cookie_of(cookie_header@, name@) == first_cookie(pieces.skip(i as int), name@),
        decreases ranges@.len() - i,
    {
        let (lo, hi) = ranges[i];
        let (a, b) = trim_bounds(&chars, lo, hi);
        let ghost pair = chars@.subrange(a as int, b as int);
        let mut at: usize = a;
        while at < b && chars[at] != '='
            invariant
                a <= at <= b <= chars@.len(),
                forall|j: int| a <= j < at ==> chars@[j] != '=',
            decreases b - at,
        {
            at += 1;
        }
        proof {
            assert(pieces.skip(i as int)[0] == chars@.subrange(lo as int, hi as int));
            assert(pieces.skip(i as int).drop_first() =~= pieces.skip(i + 1));
            assert forall|j: int| 0 <= j < at - a implies !seq!['='].contains(
                #[trigger] pair[j],
            ) by {
                assert(pair[j] == chars@[a + j]);
            }
            if at < b {
                assert(pair[at - a] == '=');
                assert(seq!['='][0] == '=');
            }
            lemma_first_delim(pair, seq!['='], at - a);
            assert(pair.take(at - a) =~= chars@.subrange(a as int, at as int));
        }
        if at < b {
            let (key_lo, key_hi) = trim_bounds(&chars, a, at);
            if range_is(&chars, key_lo, key_hi, &wanted) {
                let (value_lo, value_hi) = trim_bounds(&chars, at + 1, b);
                proof {
                    assert(pair.skip(at - a + 1) =~= chars@.subrange(at + 1, b as int));
                }
                return Some(cookie_header.substring_char(value_lo, value_hi));
            }
        }
        i += 1;
    }
    None
}

/// The e-mail address under which an account is kept: trimmed and in
/// lower case.
pub fn normalize_email(email: &str) -> (r: String)
    ensures
        r@ == normal_form(email@),
{
    normalize(email)
}

/// Whether an account may be opened with these credentials: the address
/// must not be empty, and the password must have at least 6 bytes.
pub fn credentials_acceptable(email: &str, password: &str) -> (r: bool)
    ensures
        r == (email@.len() > 0 && password.len() >= 6),
{
    email.unicode_len() > 0 && password.len() >= 6
}

/// The cookie that opens a session: the name, the token, and the
/// attributes that keep it to this site and away from scripts.
pub fn session_cookie(name: &str, token: &str) -> (r: String)
    ensures
        r@ == name@ + "="@ + token@ + "; Path=/; HttpOnly; SameSite=Lax"@,
{
    let mut cookie = name.to_string();
    cookie.append("=");
    cookie.append(token);
    cookie.append("; Path=/; HttpOnly; SameSite=Lax");
    cookie
}

/// The cookie that ends a session: the name without a value, expired at
/// once.
pub fn expired_cookie(name: &str) -> (r: String)
    ensures
        r@ == name@ + "=; Path=/; Max-Age=0; HttpOnly; SameSite=Lax"@,
{
    let mut cookie = name.to_string();
    cookie.append("=; Path=/; Max-Age=0; HttpOnly; SameSite=Lax");
    cookie
}

/// The token that a request presents: the bearer token of its
/// `Authorization` header where there is one, else the value of the
/// session cookie.
pub open spec fn token_of(
    authorization: Option<Seq<char>>,
    cookies: Option<Seq<char>>,
    cookie_name: Seq<char>,
) -> Option<Seq<char>> {
    if authorization is Some && bearer_of(authorization->0) is Some {
        bearer_of(authorization->0)
    } else if cookies is Some {
        cookie_of(cookies->0, cookie_name)
    } else {
        None
    }
}

/// The token that a request with the given headers presents.
pub fn presented_token<'a>(
    authorization: Option<&'a str>,
    cookies: Option<&'a str>,
    cookie_name: &str,
) -> (r: Option<&'a str>)
    ensures
        match r {
            Some(token) => token_of(
                match authorization {
                    Some(h) => Some(h@),
                    None => None,
                },
                match cookies {
                    Some(h) => Some(h@),
                    None => None,
                },
                cookie_name@,
            ) == Some(token@),
            None => token_of(
                match authorization {
                    Some(h) => Some(h@),
                    None => None,
                },
                match cookies {
                    Some(h) => Some(h@),
                    None => None,
                },
                cookie_name@,
            ) is None,
        },
{
    match authorization {
        Some(header) => match bearer_token(header) {
            Some(token) => {
                return Some(token);
            },
            None => {},
        },
        None => {},
    }
    match cookies {
        Some(header) => find_cookie(header, cookie_name),
        None => None,
    }
}

} // verus!
