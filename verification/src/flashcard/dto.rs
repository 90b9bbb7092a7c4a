//! The values that cross the boundary of the engine: requests as they
//! arrive, and the answers handed back.

use vstd::prelude::*;
use crate::json::{
    is_object, json_is_object, json_members, member_item, member_len, member_text, JsonMember,
};
use crate::model::{PartOfSpeech, ProgressRecord, ProgressView, VocabularyEntry};
use crate::text::{clean_pieces, opt_text, split_clean, split_on, texts, trim, trimmed};
use crate::timefmt::{format_rfc3339, rfc3339_text};

verus! {

/// The card handed to the client: an entry together with where the user
/// stands on it.
#[derive(Debug)]
pub struct FlashcardResponse {
    pub entry_id: i32,
    pub word: String,
    pub part_of_speech: String,
    pub meaning: Option<String>,
    pub english: Option<String>,
    pub examples: Option<String>,
    pub themes: Option<String>,
    /// The status of the progress record; `None` for a card never reviewed.
    pub status: Option<String>,
    pub times_seen: i32,
    pub times_mastered: i32,
    /// When the card was last reviewed, as RFC 3339 text.
    pub last_seen_at: Option<String>,
    pub metadata: Option<FlashcardMetadata>,
}

/// The details of an entry that depend on its part of speech.
#[derive(Debug)]
pub enum FlashcardMetadata {
    Noun { gender: Option<String>, plural: Option<String>, suffix: Option<String> },
    Verb {
        present_form: Option<String>,
        preterite_form: Option<String>,
        perfect_form: Option<String>,
        properties: Option<String>,
        noun_form: Option<String>,
    },
    AdjectiveAdverb { attribute: Option<String>, comparison_forms: Vec<String> },
}

/// The details of an entry as the contracts see them.
pub enum MetadataView {
    Noun { gender: Option<Seq<char>>, plural: Option<Seq<char>>, suffix: Option<Seq<char>> },
    Verb {
        present_form: Option<Seq<char>>,
        preterite_form: Option<Seq<char>>,
        perfect_form: Option<Seq<char>>,
        properties: Option<Seq<char>>,
        noun_form: Option<Seq<char>>,
    },
    AdjectiveAdverb { attribute: Option<Seq<char>>, comparison_forms: Seq<Seq<char>> },
}

impl View for FlashcardMetadata {
    type V = MetadataView;

    open spec fn view(&self) -> MetadataView {
        match *self {
            FlashcardMetadata::Noun { gender, plural, suffix } => MetadataView::Noun {
                gender: opt_text(gender),
                plural: opt_text(plural),
                suffix: opt_text(suffix),
            },
            FlashcardMetadata::Verb {
                present_form,
                preterite_form,
                perfect_form,
                properties,
                noun_form,
            } => MetadataView::Verb {
                present_form: opt_text(present_form),
                preterite_form: opt_text(preterite_form),
                perfect_form: opt_text(perfect_form),
                properties: opt_text(properties),
                noun_form: opt_text(noun_form),
            },
            FlashcardMetadata::AdjectiveAdverb {
                attribute,
                comparison_forms,
            } => MetadataView::AdjectiveAdverb {
                attribute: opt_text(attribute),
                comparison_forms: texts(comparison_forms@),
            },
        }
    }
}

/// A card as the contracts see it.
pub struct CardView {
    pub entry_id: int,
    pub word: Seq<char>,
    pub part_of_speech: Seq<char>,
    pub meaning: Option<Seq<char>>,
    pub english: Option<Seq<char>>,
    pub examples: Option<Seq<char>>,
    pub themes: Option<Seq<char>>,
    pub status: Option<Seq<char>>,
    pub times_seen: int,
    pub times_mastered: int,
    pub last_seen_at: Option<Seq<char>>,
    pub metadata: Option<MetadataView>,
}

impl View for FlashcardResponse {
    type V = CardView;

    open spec fn view(&self) -> CardView {
        CardView {
            entry_id: self.entry_id as int,
            word: self.word@,
            part_of_speech: self.part_of_speech@,
            meaning: opt_text(self.meaning),
            english: opt_text(self.english),
            examples: opt_text(self.examples),
            themes: opt_text(self.themes),
            status: opt_text(self.status),
            times_seen: self.times_seen as int,
            times_mastered: self.times_mastered as int,
            last_seen_at: opt_text(self.last_seen_at),
            metadata: match self.metadata {
                Some(m) => Some(m@),
                None => None,
            },
        }
    }
}

/// A text that counts: trimmed, and `None` where nothing is left.
pub open spec fn kept_text(raw: Option<Seq<char>>) -> Option<Seq<char>> {
    match raw {
        Some(s) => if trimmed(s).len() > 0 {
            Some(trimmed(s))
        } else {
            None
        },
        None => None,
    }
}

/// The member `key` of the JSON object `v`, where it is a string.
pub open spec fn raw_member(v: serde_json::Value, key: Seq<char>) -> Option<Seq<char>> {
    if json_members(v).contains_key(key) {
        match json_members(v)[key] {
            JsonMember::Text(s) => Some(s),
            _ => None,
        }
    } else {
        None
    }
}

/// The items of a JSON array that are strings, trimmed, without those that
/// are empty after trimming.
pub open spec fn kept_items(items: Seq<Option<Seq<char>>>) -> Seq<Seq<char>>
    decreases items.len(),
{
    if items.len() == 0 {
        Seq::empty()
    } else {
        let before = kept_items(items.drop_last());
        match kept_text(items.last()) {
            Some(t) => before.push(t),
            None => before,
        }
    }
}

/// The characters that separate comparison forms written as one text: the
/// comma, the semicolon and the full-width semicolon.
pub open spec fn form_delimiters() -> Seq<char> {
    seq![',', ';', '\u{ff1b}']
}

/// The comparison forms of an adjective or adverb: the pieces of a text
/// member, or the string items of an array member; none for anything else.
pub open spec fn comparison_forms_of(v: serde_json::Value) -> Seq<Seq<char>> {
    let key = "comparison_forms"@;
    if json_members(v).contains_key(key) {
        match json_members(v)[key] {
            JsonMember::Text(s) => clean_pieces(split_on(s, form_delimiters())),
            JsonMember::List(items) => kept_items(items),
            JsonMember::Other => Seq::empty(),
        }
    } else {
        Seq::empty()
    }
}

/// The details that the JSON object `v` holds for an entry of part of
/// speech `part`.
pub open spec fn metadata_from(v: serde_json::Value, part: PartOfSpeech) -> MetadataView {
    match part {
        PartOfSpeech::Noun => MetadataView::Noun {
            gender: kept_text(raw_member(v, "gender"@)),
            plural: kept_text(raw_member(v, "plural"@)),
            suffix: kept_text(raw_member(v, "suffix"@)),
        },
        PartOfSpeech::Verb => MetadataView::Verb {
            present_form: kept_text(raw_member(v, "present_form"@)),
            preterite_form: kept_text(raw_member(v, "preterite_form"@)),
            perfect_form: kept_text(raw_member(v, "perfect_form"@)),
            properties: kept_text(raw_member(v, "properties"@)),
            noun_form: kept_text(raw_member(v, "noun_form"@)),
        },
        PartOfSpeech::AdjectiveAdverb => MetadataView::AdjectiveAdverb {
            attribute: kept_text(raw_member(v, "attribute"@)),
            comparison_forms: comparison_forms_of(v),
        },
    }
}

/// The details of an entry: none where the entry carries no JSON or the
/// JSON is no object.
pub open spec fn metadata_of(entry: VocabularyEntry) -> Option<MetadataView> {
    match entry.extra {
        Some(v) => if json_is_object(v) {
            Some(metadata_from(v, entry.part_of_speech))
        } else {
            None
        },
        None => None,
    }
}

/// The card of `entry` for a user whose progress record on it is `record`
/// (`None` for a user who never reviewed it); `last_seen_at` and
/// `metadata` are taken as given.
pub open spec fn card_with(
    entry: VocabularyEntry,
    record: Option<ProgressView>,
    last_seen_at: Option<Seq<char>>,
    metadata: Option<MetadataView>,
) -> CardView {
    CardView {
        entry_id: entry.entry_id as int,
        word: entry.word@,
        part_of_speech: entry.part_of_speech.name_text(),
        meaning: opt_text(entry.meaning),
        english: opt_text(entry.english),
        examples: opt_text(entry.examples),
        themes: opt_text(entry.themes),
        status: match record {
            Some(r) => Some(r.status.name_text()),
            None => None,
        },
        times_seen: match record {
            Some(r) => r.times_seen,
            None => 0,
        },
        times_mastered: match record {
            Some(r) => r.times_mastered,
            None => 0,
        },
        last_seen_at,
        metadata,
    }
}

/// When the card was last reviewed, as text.
pub open spec fn last_seen_text(record: Option<ProgressView>) -> Option<Seq<char>> {
    match record {
        Some(r) => match r.last_seen_at {
            Some(t) => rfc3339_text(t),
            None => None,
        },
        None => None,
    }
}

/// The card of `entry` for a user whose progress record on it is `record`.
pub open spec fn card_for(entry: VocabularyEntry, record: Option<ProgressView>) -> CardView {
    card_with(entry, record, last_seen_text(record), metadata_of(entry))
}

/// The view of an optional progress record.
pub open spec fn opt_record(record: Option<ProgressRecord>) -> Option<ProgressView> {
    match record {
        Some(r) => Some(r@),
        None => None,
    }
}

/// A copy of an optional text.
pub fn copy_text(s: &Option<String>) -> (r: Option<String>)
    ensures
        opt_text(r) == opt_text(*s),
{
    match s {
        Some(t) => Some(t.clone()),
        None => None,
    }
}

/// `raw` trimmed; `None` where `raw` is `None` or nothing is left of it.
pub fn keep_text(raw: Option<String>) -> (r: Option<String>)
    ensures
        opt_text(r) == kept_text(opt_text(raw)),
{
    match raw {
        Some(s) => {
            let t = trim(s.as_str());
            if t.as_str().unicode_len() > 0 {
                Some(t)
            } else {
                None
            }
        },
        None => None,
    }
}

/// The member `key` of the JSON object `data`, trimmed, where it is a
/// string that is not blank.
pub fn extract_string(data: &serde_json::Value, key: &str) -> (r: Option<String>)
    ensures
        opt_text(r) == kept_text(raw_member(*data, key@)),
{
    keep_text(member_text(data, key))
}

impl FlashcardMetadata {
    /// The details of `entry`, read from its JSON.
    pub fn from_entry(entry: &VocabularyEntry) -> (r: Option<Self>)
        ensures
            match r {
                Some(m) => metadata_of(*entry) == Some(m@),
                None => metadata_of(*entry) is None,
            },
    {
        match &entry.extra {
            Some(data) => {
                if is_object(data) {
                    Some(
                        match entry.part_of_speech {
                            PartOfSpeech::Noun => Self::noun_from_extra(data),
                            PartOfSpeech::Verb => Self::verb_from_extra(data),
                            PartOfSpeech::AdjectiveAdverb => Self::adjective_from_extra(data),
                        },
                    )
                } else {
                    None
                }
            },
            None => None,
        }
    }

    /// The details of a noun: gender, plural and suffix.
    pub fn noun_from_extra(data: &serde_json::Value) -> (r: Self)
        ensures
            r@ == metadata_from(*data, PartOfSpeech::Noun),
    {
        FlashcardMetadata::Noun {
            gender: extract_string(data, "gender"),
            plural: extract_string(data, "plural"),
            suffix: extract_string(data, "suffix"),
        }
    }

    /// The details of a verb: its forms and properties.
    pub fn verb_from_extra(data: &serde_json::Value) -> (r: Self)
        ensures
            r@ == metadata_from(*data, PartOfSpeech::Verb),
    {
        FlashcardMetadata::Verb {
            present_form: extract_string(data, "present_form"),
            preterite_form: extract_string(data, "preterite_form"),
            perfect_form: extract_string(data, "perfect_form"),
            properties: extract_string(data, "properties"),
            noun_form: extract_string(data, "noun_form"),
        }
    }

    /// The details of an adjective or adverb: its attribute and its
    /// comparison forms, which come as one text or as a list.
    pub fn adjective_from_extra(data: &serde_json::Value) -> (r: Self)
        ensures
            r@ == metadata_from(*data, PartOfSpeech::AdjectiveAdverb),
    {
        let key = "comparison_forms";
        let comparison_forms: Vec<String> = match member_text(data, key) {
            Some(value) => {
                let delimiters: [char; 3] = [',', ';', '\u{ff1b}'];
                assert(delimiters@ =~= form_delimiters());
                split_clean(value.as_str(), delimiters.as_slice())
            },
            None => match member_len(data, key) {
                Some(n) => {
                    let ghost items = json_members(*data)[key@]->List_0;
                    let mut forms: Vec<String> = Vec::new();
                    let mut i: usize = 0;
                    assert(items.take(0) =~= Seq::<Option<Seq<char>>>::empty());
                    while i < n
                        invariant
                            i <= n == items.len(),
                            json_members(*data).contains_key(key@),
                            json_members(*data)[key@] == JsonMember::List(items),
                            texts(forms@) =~= kept_items(items.take(i as int)),
                        decreases n - i,
                    {
                        let ghost before = forms@;
                        proof {
                            assert(items.take(i + 1).drop_last() =~= items.take(i as int));
                            assert(items.take(i + 1).last() == items[i as int]);
                        }
                        match keep_text(member_item(data, key, i)) {
                            Some(form) => {
                                forms.push(form);
                                assert(texts(forms@) =~= texts(before).push(form@));
                            },
                            None => {},
                        }
                        i += 1;
                    }
                    assert(items.take(n as int) =~= items);
                    forms
                },
                None => Vec::new(),
            },
        };
        assert(texts(comparison_forms@) =~= comparison_forms_of(*data));
        FlashcardMetadata::AdjectiveAdverb {
            attribute: extract_string(data, "attribute"),
            comparison_forms,
        }
    }
}

impl FlashcardResponse {
    /// The card of `entry` with the given last-seen text and details.
    pub fn assemble(
        entry: &VocabularyEntry,
        progress: Option<&ProgressRecord>,
        last_seen_at: Option<String>,
        metadata: Option<FlashcardMetadata>,
    ) -> (r: Self)
        ensures
            r@ == card_with(
                *entry,
                match progress {
                    Some(p) => Some(p@),
                    None => None,
                },
                opt_text(last_seen_at),
                match metadata {
                    Some(m) => Some(m@),
                    None => None,
                },
            ),
    {
        let (status, times_seen, times_mastered) = match progress {
            Some(p) => (Some(p.status.name().to_string()), p.times_seen, p.times_mastered),
            None => (None, 0, 0),
        };
        FlashcardResponse {
            entry_id: entry.entry_id,
            word: entry.word.clone(),
            part_of_speech: entry.part_of_speech.name().to_string(),
            meaning: copy_text(&entry.meaning),
            english: copy_text(&entry.english),
            examples: copy_text(&entry.examples),
            themes: copy_text(&entry.themes),
            status,
            times_seen,
            times_mastered,
            last_seen_at,
            metadata,
        }
    }

    /// The card of `entry` for a user whose progress record on it is
    /// `progress`.
    pub fn for_card(entry: &VocabularyEntry, progress: Option<&ProgressRecord>) -> (r: Self)
        ensures
            r@ == card_for(
                *entry,
                match progress {
                    Some(p) => Some(p@),
                    None => None,
                },
            ),
    {
        let last_seen_at = match progress {
            Some(p) => match p.last_seen_at {
                Some(t) => format_rfc3339(t),
                None => None,
            },
            None => None,
        };
        let metadata = FlashcardMetadata::from_entry(entry);
        Self::assemble(entry, progress, last_seen_at, metadata)
    }

    /// The card of `entry` for a user whose progress record on it is
    /// `progress`.
    pub fn from_models(entry: VocabularyEntry, progress: Option<ProgressRecord>) -> (r: Self)
        ensures
            r@ == card_for(entry, opt_record(progress)),
    {
        Self::for_card(&entry, progress.as_ref())
    }
}

/// The body of a review request.
#[derive(Debug)]
pub struct ReviewRequest {
    /// The outcome as the client wrote it.
    pub result: String,
    pub notes: Option<String>,
}

/// The parameters of a request for the next card, as the client wrote them.
#[derive(Debug)]
pub struct NextCardQuery {
    pub part_of_speech: Option<String>,
    pub status: Option<String>,
}

impl Default for NextCardQuery {
    fn default() -> (r: Self)
        ensures
            r.part_of_speech is None,
            r.status is None,
    {
        NextCardQuery { part_of_speech: None, status: None }
    }
}

/// The counts of one part of speech.
#[derive(Debug)]
pub struct PartOfSpeechStats {
    pub part_of_speech: String,
    pub total: u64,
    pub mastered: u64,
    pub learning: u64,
    pub new: u64,
}

/// The counts of one part of speech as the contracts see them.
pub struct GroupView {
    pub part_of_speech: Seq<char>,
    pub total: int,
    pub mastered: int,
    pub learning: int,
    pub fresh: int,
}

impl View for PartOfSpeechStats {
    type V = GroupView;

    open spec fn view(&self) -> GroupView {
        GroupView {
            part_of_speech: self.part_of_speech@,
            total: self.total as int,
            mastered: self.mastered as int,
            learning: self.learning as int,
            fresh: self.new as int,
        }
    }
}

/// The statistics of one user over the catalog.
#[derive(Debug)]
pub struct StatsResponse {
    pub total: u64,
    pub mastered: u64,
    pub learning: u64,
    pub new: u64,
    pub per_part_of_speech: Vec<PartOfSpeechStats>,
}

/// The statistics as the contracts see them.
pub struct StatsView {
    pub total: int,
    pub mastered: int,
    pub learning: int,
    pub fresh: int,
    pub per_part_of_speech: Seq<GroupView>,
}

impl View for StatsResponse {
    type V = StatsView;

    open spec fn view(&self) -> StatsView {
        StatsView {
            total: self.total as int,
            mastered: self.mastered as int,
            learning: self.learning as int,
            fresh: self.new as int,
            per_part_of_speech: Seq::new(
                self.per_part_of_speech@.len(),
                |i: int| self.per_part_of_speech@[i]@,
            ),
        }
    }
}

} // verus!
