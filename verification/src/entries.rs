//! Entries that users add to the catalog, and the reading of the answer
//! of a language model that is asked to fill them in.

use vstd::prelude::*;
use crate::error::AppError;
use crate::flashcard::dto::{keep_text, kept_text};
use crate::flashcard::service::{normalize_part_of_speech, part_from, rejects};
use crate::model::PartOfSpeech;
use crate::text::{collect_chars, normal_form, opt_text, trim, trimmed};

verus! {

/// A request to add an entry.
#[derive(Debug)]
pub struct CreateEntryRequest {
    pub word: String,
    pub part_of_speech: String,
    pub english: Option<String>,
    pub meaning: Option<String>,
    pub examples: Option<String>,
    pub themes: Option<String>,
    pub extra: Option<serde_json::Value>,
}

/// The answer to a request to add an entry.
#[derive(Debug)]
pub struct CreateEntryResponse {
    pub entry_id: i32,
}

/// An entry as it is handed to the store, which gives it its id.
#[derive(Debug)]
pub struct NewEntry {
    pub word: String,
    pub part_of_speech: PartOfSpeech,
    pub user_owner: Option<String>,
    pub english: Option<String>,
    pub meaning: Option<String>,
    pub examples: Option<String>,
    pub themes: Option<String>,
    pub source_table: String,
    pub source_created_time: Option<i64>,
    pub extra: Option<serde_json::Value>,
}

/// The entry that `user_id` adds with `req` at `now`: the word trimmed,
/// the optional texts trimmed and dropped where blank, and the user as the
/// owner. A part of speech that stands for nothing is refused.
pub fn prepare_entry(req: CreateEntryRequest, user_id: &str, now: i64) -> (r: Result<
    NewEntry,
    AppError,
>)
    ensures
        match r {
            Ok(entry) => {
                &&& part_from(normal_form(req.part_of_speech@)) == Some(entry.part_of_speech)
                &&& entry.word@ == trimmed(req.word@)
                &&& entry.user_owner is Some && entry.user_owner->0@ == user_id@
                &&& opt_text(entry.english) == kept_text(opt_text(req.english))
                &&& opt_text(entry.meaning) == kept_text(opt_text(req.meaning))
                &&& opt_text(entry.examples) == kept_text(opt_text(req.examples))
                &&& opt_text(entry.themes) == kept_text(opt_text(req.themes))
                &&& entry.source_table@ == "user"@
                &&& entry.source_created_time == Some(now)
                &&& entry.extra == req.extra
            },
            Err(e) => part_from(normal_form(req.part_of_speech@)) is None && rejects(
                e,
                "unsupported part_of_speech '"@,
                normal_form(req.part_of_speech@),
            ),
        },
{
    let part_of_speech = match normalize_part_of_speech(req.part_of_speech.as_str()) {
        Ok(part) => part,
        Err(e) => {
            return Err(e);
        },
    };
    Ok(
        NewEntry {
            word: trim(req.word.as_str()),
            part_of_speech,
            user_owner: Some(user_id.to_string()),
            english: keep_text(req.english),
            meaning: keep_text(req.meaning),
            examples: keep_text(req.examples),
            themes: keep_text(req.themes),
            source_table: "user".to_string(),
            source_created_time: Some(now),
            extra: req.extra,
        },
    )
}

/// How many more brackets are opened than closed in `s[from..to]`.
pub open spec fn bracket_balance(s: Seq<char>, from: int, to: int) -> int
    decreases to - from,
{
    if to <= from {
        0
    } else {
        bracket_balance(s, from, to - 1) + if s[to - 1] == '[' {
            1int
        } else if s[to - 1] == ']' {
            -1int
        } else {
            0int
        }
    }
}

/// Whether `s[start..end]` is the first bracketed part of `s`: it starts
/// at the first opening bracket and ends with the bracket that closes it.
pub open spec fn is_first_array(s: Seq<char>, start: int, end: int) -> bool {
    &&& 0 <= start < end <= s.len()
    &&& s[start] == '['
    &&& forall|j: int| 0 <= j < start ==> #[trigger] s[j] != '['
    &&& bracket_balance(s, start, end) == 0
    &&& forall|k: int| start < k < end ==> #[trigger] bracket_balance(s, start, k) > 0
}

/// The first bracketed part of `s`, from its first opening bracket to the
/// bracket that closes it; `None` where `s` has no opening bracket or the
/// first is never closed.
pub fn extract_json_array<'a>(s: &'a str) -> (r: Option<&'a str>)
    ensures
        match r {
            Some(part) => exists|start: int, end: int|
                #[trigger] is_first_array(s@, start, end) && part@ == s@.subrange(start, end),
            None => forall|start: int, end: int| !#[trigger] is_first_array(s@, start, end),
        },
{
    let chars = collect_chars(s);
    let n = chars.len();
    let mut start: usize = 0;
    while start < n && chars[start] != '['
        invariant
            start <= n == chars@.len(),
            forall|j: int| 0 <= j < start ==> #[trigger] chars@[j] != '[',
        decreases n - start,
    {
        start += 1;
    }
    if start == n {
        assert forall|a: int, b: int| !#[trigger] is_first_array(s@, a, b) by {
            if 0 <= a < s@.len() {
                assert(s@[a] != '[');
            }
        }
        return None;
    }
    let mut depth: usize = 1;
    let mut i: usize = start + 1;
    assert(bracket_balance(chars@, start as int, start + 1) == 1) by {
        assert(bracket_balance(chars@, start as int, start as int) == 0);
    }
    while i < n
        invariant
            start < i <= n == chars@.len(),
            chars@ == s@,
            chars@[start as int] == '[',
            forall|j: int| 0 <= j < start ==> #[trigger] chars@[j] != '[',
            depth == bracket_balance(chars@, start as int, i as int),
            0 < depth <= i - start,
            forall|k: int|
                start < k <= i ==> #[trigger] bracket_balance(chars@, start as int, k) > 0,
        decreases n - i,
    {
        let c = chars[i];
        if c == '[' {
            depth += 1;
        } else if c == ']' {
            depth -= 1;
            if depth == 0 {
                assert(is_first_array(s@, start as int, i + 1));
                return Some(s.substring_char(start, i + 1));
            }
        }
        i += 1;
    }
    assert forall|a: int, b: int| !#[trigger] is_first_array(s@, a, b) by {
        if is_first_array(s@, a, b) {
            if a < start {
                assert(s@[a] != '[');
            }
            if start < a {
                assert(s@[start as int] != '[');
            }
            assert(bracket_balance(chars@, start as int, b) > 0);
        }
    }
    None
}

} // verus!
