//! Reading what the responses interface of a provider sends: the lines of
//! an event stream, and the texts inside the JSON of an answer.

use vstd::prelude::*;
use crate::text::{collect_chars, text_eq, trim_bounds, trimmed};
use crate::woeter::llm::{ends_with, starts_with};
use crate::woeter::tree::{
    first_text, items_of, member, opt_str, text_of, JsonTree,
};

verus! {

/// What one line of an event stream means to the reader.
#[derive(Debug)]
pub enum SseLine {
    /// Nothing to read: a blank line, or a `data:` line without data.
    Skip,
    /// The stream says that it is done.
    Done,
    /// JSON to read: the data of a `data:` line, or a line that is sent
    /// without that prefix.
    Payload(String),
}

/// What one line of an event stream means, as the contracts see it.
pub enum SseView {
    Skip,
    Done,
    Payload(Seq<char>),
}

impl View for SseLine {
    type V = SseView;

    open spec fn view(&self) -> SseView {
        match self {
            SseLine::Skip => SseView::Skip,
            SseLine::Done => SseView::Done,
            SseLine::Payload(data) => SseView::Payload(data@),
        }
    }
}

/// The prefix of a line that carries data.
pub open spec fn data_prefix() -> Seq<char> {
    seq!['d', 'a', 't', 'a', ':']
}

/// What the line `line` means: it is trimmed first; after `data:` the
/// rest is trimmed again, and `[DONE]` ends the stream.
pub open spec fn line_meaning(line: Seq<char>) -> SseView {
    let text = trimmed(line);
    if text.len() == 0 {
        SseView::Skip
    } else if starts_with(text, data_prefix()) {
        let data = trimmed(text.skip(5));
        if data == "[DONE]"@ {
            SseView::Done
        } else if data.len() == 0 {
            SseView::Skip
        } else {
            SseView::Payload(data)
        }
    } else {
        SseView::Payload(text)
    }
}

/// What the line `line` of an event stream means.
pub fn classify_line(line: &str) -> (r: SseLine)
    ensures
        r@ == line_meaning(line@),
{
    let chars = collect_chars(line);
    let (lo, hi) = trim_bounds(&chars, 0, chars.len());
    assert(chars@.subrange(0, chars@.len() as int) =~= line@);
    let ghost text = chars@.subrange(lo as int, hi as int);
    if lo == hi {
        return SseLine::Skip;
    }
    let prefixed = hi - lo >= 5 && chars[lo] == 'd' && chars[lo + 1] == 'a' && chars[lo + 2] == 't'
        && chars[lo + 3] == 'a' && chars[lo + 4] == ':';
    proof {
        if hi - lo >= 5 {
            let head = text.take(5);
            assert(head[0] == chars@[lo as int] && head[1] == chars@[lo + 1] && head[2]
                == chars@[lo + 2] && head[3] == chars@[lo + 3] && head[4] == chars@[lo + 4]);
            if prefixed {
                assert(head =~= data_prefix());
            }
        }
    }
    if prefixed {
        let (a, b) = trim_bounds(&chars, lo + 5, hi);
        assert(text.skip(5) =~= chars@.subrange(lo + 5, hi as int));
        let data = line.substring_char(a, b);
        if text_eq(data, "[DONE]") {
            SseLine::Done
        } else if a == b {
            SseLine::Skip
        } else {
            SseLine::Payload(data.to_string())
        }
    } else {
        SseLine::Payload(line.substring_char(lo, hi).to_string())
    }
}

/// Where the first line break of `bytes` stands; the length where there
/// is none.
pub open spec fn line_end(bytes: Seq<u8>) -> int
    decreases bytes.len(),
{
    if bytes.len() == 0 || bytes[0] == 10u8 {
        0
    } else {
        1 + line_end(bytes.drop_first())
    }
}

proof fn lemma_line_end(bytes: Seq<u8>, at: int)
    requires
        0 <= at <= bytes.len(),
        forall|j: int| 0 <= j < at ==> #[trigger] bytes[j] != 10u8,
        at < bytes.len() ==> bytes[at] == 10u8,
    ensures
        line_end(bytes) == at,
    decreases at,
{
    if at > 0 {
        let rest = bytes.drop_first();
        assert forall|j: int| 0 <= j < at - 1 implies #[trigger] rest[j] != 10u8 by {
            assert(rest[j] == bytes[j + 1]);
        }
        assert(at - 1 < rest.len() ==> rest[at - 1] == bytes[at]);
        lemma_line_end(rest, at - 1);
    }
}

/// Takes the first line out of `buffer`, its line break included. Where
/// the buffer holds no line break it is left as it is.
pub fn take_line(buffer: &mut Vec<u8>) -> (r: Option<Vec<u8>>)
    ensures
        match r {
            Some(line) => {
                &&& line_end(old(buffer)@) < old(buffer)@.len()
                &&& line@ == old(buffer)@.take(line_end(old(buffer)@) + 1)
                &&& final(buffer)@ == old(buffer)@.skip(line_end(old(buffer)@) + 1)
            },
            None => line_end(old(buffer)@) == old(buffer)@.len() && final(buffer)@ == old(
                buffer,
            )@,
        },
{
    let n = buffer.len();
    let mut at: usize = 0;
    while at < n && buffer[at] != 10u8
        invariant
            at <= n == buffer@.len(),
            buffer@ == old(buffer)@,
            forall|j: int| 0 <= j < at ==> #[trigger] buffer@[j] != 10u8,
        decreases n - at,
    {
        at += 1;
    }
    proof {
        lemma_line_end(buffer@, at as int);
    }
    if at == n {
        return None;
    }
    let mut line: Vec<u8> = Vec::new();
    let mut rest: Vec<u8> = Vec::new();
    let mut i: usize = 0;
    while i < n
        invariant
            at < n == buffer@.len(),
            i <= n,
            buffer@ == old(buffer)@,
            line@ == buffer@.take(if i <= at { i as int } else { at + 1 }),
            rest@ == buffer@.subrange(at + 1, if i <= at { at + 1 } else { i as int }),
        decreases n - i,
    {
        let ghost line_before = line@;
        let ghost rest_before = rest@;
        if i <= at {
            line.push(buffer[i]);
            assert(line@ =~= buffer@.take(i + 1));
        } else {
            rest.push(buffer[i]);
            assert(rest@ =~= buffer@.subrange(at + 1, i + 1));
        }
        i += 1;
    }
    proof {
        assert(rest@ =~= old(buffer)@.skip(at + 1));
    }
    *buffer = rest;
    Some(line)
}

/// The text of a part of an answer, where the part says by its `type`
/// that it is reasoning.
pub open spec fn reasoning_part(part: JsonTree) -> Option<Seq<char>> {
    if text_of(member(Some(part), "type"@)) == Some("reasoning"@) {
        text_of(member(Some(part), "text"@))
    } else {
        None
    }
}

/// The first text that `pick` finds among the parts of the content of
/// `item`.
pub open spec fn content_text(item: JsonTree, pick: spec_fn(JsonTree) -> Option<Seq<char>>)
    -> Option<Seq<char>> {
    match items_of(member(Some(item), "content"@)) {
        Some(parts) => first_text(parts, pick),
        None => None,
    }
}

/// The first text that `pick` finds among the parts of the output of
/// `answer`, going through the items of the output in order.
pub open spec fn output_text(answer: JsonTree, pick: spec_fn(JsonTree) -> Option<Seq<char>>)
    -> Option<Seq<char>> {
    match items_of(member(Some(answer), "output"@)) {
        Some(items) => first_text(items, |item: JsonTree| content_text(item, pick)),
        None => None,
    }
}

/// The reasoning that an answer carries: the summary of its `reasoning`
/// member, or else the first part of its output that is reasoning.
pub open spec fn reasoning_of(answer: JsonTree) -> Option<Seq<char>> {
    match text_of(member(member(Some(answer), "reasoning"@), "summary"@)) {
        Some(summary) => Some(summary),
        None => output_text(answer, |part: JsonTree| reasoning_part(part)),
    }
}

/// The text of a part of an answer, where the part says by its `type`
/// that it is output text.
pub open spec fn text_part(part: JsonTree) -> Option<Seq<char>> {
    let kind = text_of(member(Some(part), "type"@));
    if kind == Some("output_text"@) || kind == Some("text"@) {
        text_of(member(Some(part), "text"@))
    } else {
        None
    }
}

/// The text of a part of an answer, where the part says by its `type`
/// that it is output text or the text of a summary.
pub open spec fn text_or_summary_part(part: JsonTree) -> Option<Seq<char>> {
    let kind = text_of(member(Some(part), "type"@));
    if kind == Some("output_text"@) || kind == Some("text"@) || kind == Some("summary_text"@) {
        text_of(member(Some(part), "text"@))
    } else {
        None
    }
}

/// The piece of output text that an event of a stream adds: the `delta`
/// of an event whose `type` ends with `output_text.delta`, as a string or
/// as the text of its `output_text`; or else the first part of the output
/// of the event that is output text.
pub open spec fn delta_of(event: JsonTree) -> Option<Seq<char>> {
    let kind = text_of(member(Some(event), "type"@));
    let delta = member(Some(event), "delta"@);
    let direct = if kind is Some && ends_with(kind->0, "output_text.delta"@) {
        match text_of(delta) {
            Some(text) => Some(text),
            None => text_of(member(member(delta, "output_text"@), "text"@)),
        }
    } else {
        None
    };
    match direct {
        Some(text) => Some(text),
        None => output_text(event, |part: JsonTree| text_part(part)),
    }
}

/// The text of a complete answer: its `output_text` where that is a
/// string, or else the first part of its output that is output text or
/// the text of a summary.
pub open spec fn answer_text_of(answer: JsonTree) -> Option<Seq<char>> {
    match text_of(member(Some(answer), "output_text"@)) {
        Some(text) => Some(text),
        None => output_text(answer, |part: JsonTree| text_or_summary_part(part)),
    }
}

/// Which parts of an answer are looked for.
#[derive(Clone, Copy, Debug, PartialEq, Eq, Structural)]
pub enum PartKind {
    Reasoning,
    Text,
    TextOrSummary,
}

impl PartKind {
    /// The text that a part gives where it is of this kind.
    pub open spec fn pick(self) -> spec_fn(JsonTree) -> Option<Seq<char>> {
        match self {
            PartKind::Reasoning => |part: JsonTree| reasoning_part(part),
            PartKind::Text => |part: JsonTree| text_part(part),
            PartKind::TextOrSummary => |part: JsonTree| text_or_summary_part(part),
        }
    }
}

/// The text of `part`, where it is of the kind `kind`.
pub fn part_text<'a>(part: &'a JsonTree, kind: PartKind) -> (r: Option<&'a str>)
    ensures
        opt_str(r) == (kind.pick())(*part),
{
    match part.text_at("type") {
        Some(name) => {
            let wanted = match kind {
                PartKind::Reasoning => text_eq(name, "reasoning"),
                PartKind::Text => text_eq(name, "output_text") || text_eq(name, "text"),
                PartKind::TextOrSummary => text_eq(name, "output_text") || text_eq(name, "text")
                    || text_eq(name, "summary_text"),
            };
            if wanted {
                part.text_at("text")
            } else {
                None
            }
        },
        None => None,
    }
}

/// The first text of the kind `kind` among `parts`.
pub fn find_in_parts<'a>(parts: &'a Vec<JsonTree>, kind: PartKind) -> (r: Option<&'a str>)
    ensures
        opt_str(r) == first_text(parts@, kind.pick()),
{
    let mut i: usize = 0;
    assert(parts@.skip(0) =~= parts@);
    while i < parts.len()
        invariant
            i <= parts@.len(),
            first_text(parts@, kind.pick()) == first_text(parts@.skip(i as int), kind.pick()),
        decreases parts@.len() - i,
    {
        proof {
            assert(parts@.skip(i as int)[0] == parts@[i as int]);
            assert(parts@.skip(i as int).drop_first() =~= parts@.skip(i + 1));
        }
        match part_text(&parts[i], kind) {
            Some(text) => {
                return Some(text);
            },
            None => {},
        }
        i += 1;
    }
    None
}

/// The first text of the kind `kind` among the parts of the content of
/// `item`.
pub fn find_in_content<'a>(item: &'a JsonTree, kind: PartKind) -> (r: Option<&'a str>)
    ensures
        opt_str(r) == content_text(*item, kind.pick()),
{
    match item.items_at("content") {
        Some(parts) => find_in_parts(parts, kind),
        None => None,
    }
}

/// The first text of the kind `kind` among the parts of the contents of
/// `items`, going through the items in order.
pub fn find_in_items<'a>(items: &'a Vec<JsonTree>, kind: PartKind) -> (r: Option<&'a str>)
    ensures
        opt_str(r) == first_text(items@, |item: JsonTree| content_text(item, kind.pick())),
{
    let ghost pick = |item: JsonTree| content_text(item, kind.pick());
    let mut i: usize = 0;
    assert(items@.skip(0) =~= items@);
    while i < items.len()
        invariant
            i <= items@.len(),
            pick == (|item: JsonTree| content_text(item, kind.pick())),
            first_text(items@, pick) == first_text(items@.skip(i as int), pick),
        decreases items@.len() - i,
    {
        proof {
            assert(items@.skip(i as int)[0] == items@[i as int]);
            assert(items@.skip(i as int).drop_first() =~= items@.skip(i + 1));
        }
        match find_in_content(&items[i], kind) {
            Some(text) => {
                return Some(text);
            },
            None => {},
        }
        i += 1;
    }
    None
}

/// The first text of the kind `kind` among the parts of the output of
/// `answer`.
pub fn find_in_output<'a>(answer: &'a JsonTree, kind: PartKind) -> (r: Option<&'a str>)
    ensures
        opt_str(r) == output_text(*answer, kind.pick()),
{
    match answer.items_at("output") {
        Some(items) => find_in_items(items, kind),
        None => None,
    }
}

/// The reasoning that `answer` carries.
pub fn extract_reasoning_text(answer: &JsonTree) -> (r: Option<String>)
    ensures
        crate::text::opt_text(r) == reasoning_of(*answer),
{
    let summary = match answer.get("reasoning") {
        Some(reasoning) => reasoning.text_at("summary"),
        None => None,
    };
    match summary {
        Some(text) => Some(text.to_string()),
        None => match find_in_output(answer, PartKind::Reasoning) {
            Some(text) => Some(text.to_string()),
            None => None,
        },
    }
}

/// Whether `s` ends with `suffix`.
pub fn text_ends_with(s: &str, suffix: &str) -> (r: bool)
    ensures
        r == ends_with(s@, suffix@),
{
    let chars = collect_chars(s);
    let tail = collect_chars(suffix);
    if tail.len() > chars.len() {
        return false;
    }
    let from = chars.len() - tail.len();
    let mut i: usize = 0;
    while i < tail.len()
        invariant
            chars@ == s@,
            tail@ == suffix@,
            from + tail@.len() == chars@.len() <= usize::MAX,
            i <= tail@.len(),
            forall|j: int| 0 <= j < i ==> chars@[from + j] == tail@[j],
        decreases tail@.len() - i,
    {
        if chars[from + i] != tail[i] {
            assert(chars@.skip(from as int)[i as int] != tail@[i as int]);
            return false;
        }
        i += 1;
    }
    assert(chars@.skip(from as int) =~= tail@);
    true
}

/// The piece of output text that `event` adds.
pub fn extract_output_text_delta(event: &JsonTree) -> (r: Option<String>)
    ensures
        crate::text::opt_text(r) == delta_of(*event),
{
    let direct = match event.text_at("type") {
        Some(kind) => {
            if text_ends_with(kind, "output_text.delta") {
                match event.text_at("delta") {
                    Some(text) => Some(text),
                    None => match event.get("delta") {
                        Some(delta) => match delta.get("output_text") {
                            Some(inner) => inner.text_at("text"),
                            None => None,
                        },
                        None => None,
                    },
                }
            } else {
                None
            }
        },
        None => None,
    };
    match direct {
        Some(text) => Some(text.to_string()),
        None => match find_in_output(event, PartKind::Text) {
            Some(text) => Some(text.to_string()),
            None => None,
        },
    }
}

/// The text of the complete answer `answer`.
pub fn extract_answer_text(answer: &JsonTree) -> (r: Option<String>)
    ensures
        crate::text::opt_text(r) == answer_text_of(*answer),
{
    match answer.text_at("output_text") {
        Some(text) => Some(text.to_string()),
        None => match find_in_output(answer, PartKind::TextOrSummary) {
            Some(text) => Some(text.to_string()),
            None => None,
        },
    }
}

} // verus!
