//! The handling of a request to add words: which words are asked about,
//! which model is asked, and what is reported for each word.

use vstd::prelude::*;
use crate::text::{clean_pieces, split_clean, split_on, text_eq, texts};
use crate::woeter::config::{find_model, has_model, WoeterConfig};

verus! {

/// A request to add words.
#[derive(Debug)]
pub struct AddWordRequest {
    /// 1 for nouns, 2 for verbs, 3 for adjectives and adverbs, 4 for
    /// phrases and reflexive verbs.
    pub word_type: i32,
    /// The words, separated by commas, semicolons or line breaks.
    pub words: String,
    pub model: Option<String>,
}

/// The answer to a request to add words.
#[derive(Debug)]
pub struct AddWordResponse {
    pub success: bool,
    pub message: String,
    pub results: Vec<ResultEntry>,
    pub model: String,
}

/// What became of one word.
#[derive(Debug)]
pub struct ResultEntry {
    pub word: String,
    /// `inserted`, `duplicate` or `error`.
    pub status: String,
    pub message: Option<String>,
}

/// What became of one word, as the contracts see it.
pub struct ResultView {
    pub word: Seq<char>,
    pub status: Seq<char>,
    pub message: Option<Seq<char>>,
}

impl View for ResultEntry {
    type V = ResultView;

    open spec fn view(&self) -> ResultView {
        ResultView {
            word: self.word@,
            status: self.status@,
            message: match self.message {
                Some(m) => Some(m@),
                None => None,
            },
        }
    }
}

/// The views of a list of results, in order.
pub open spec fn result_views(results: Seq<ResultEntry>) -> Seq<ResultView> {
    Seq::new(results.len(), |i: int| results[i]@)
}

/// What happened to a word on its way into the notes database.
#[derive(Debug)]
pub enum WordEvent {
    /// The notes database held the word before the model was asked.
    KnownBefore,
    /// Looking the word up before asking the model failed.
    PrecheckFailed(String),
    /// The model could not be asked; the report is on the whole input.
    ModelFailed { model: String, error: String },
    /// An answer of the model names no word.
    MissingWord,
    /// The notes database holds the word of the answer already.
    AlreadyStored,
    /// Looking the word of the answer up failed.
    LookupFailed(String),
    /// The word was stored.
    Inserted,
    /// Storing the word failed.
    InsertFailed(String),
}

/// The report on `word` after `event`.
pub open spec fn reported(word: Seq<char>, event: WordEvent) -> ResultView {
    match event {
        WordEvent::KnownBefore => ResultView {
            word,
            status: "duplicate"@,
            message: Some("exists in Notion"@),
        },
        WordEvent::PrecheckFailed(error) => ResultView {
            word,
            status: "error"@,
            message: Some("precheck error: "@ + error@),
        },
        WordEvent::ModelFailed { model, error } => ResultView {
            word,
            status: "error"@,
            message: Some(model@ + " API error: "@ + error@),
        },
        WordEvent::MissingWord => ResultView {
            word: "unknown"@,
            status: "error"@,
            message: Some("Missing 'Wörter' field in response"@),
        },
        WordEvent::AlreadyStored => ResultView { word, status: "duplicate"@, message: None },
        WordEvent::LookupFailed(error) => ResultView {
            word,
            status: "error"@,
            message: Some("Database check error: "@ + error@),
        },
        WordEvent::Inserted => ResultView { word, status: "inserted"@, message: None },
        WordEvent::InsertFailed(error) => ResultView {
            word,
            status: "error"@,
            message: Some("Insert error: "@ + error@),
        },
    }
}

fn labelled(label: &str, detail: &str) -> (r: String)
    ensures
        r@ == label@ + detail@,
{
    let mut text = label.to_string();
    text.append(detail);
    text
}

/// The report on `word` after `event`.
pub fn report(word: String, event: WordEvent) -> (r: ResultEntry)
    ensures
        r@ == reported(word@, event),
{
    match event {
        WordEvent::KnownBefore => ResultEntry {
            word,
            status: "duplicate".to_string(),
            message: Some("exists in Notion".to_string()),
        },
        WordEvent::PrecheckFailed(error) => ResultEntry {
            word,
            status: "error".to_string(),
            message: Some(labelled("precheck error: ", error.as_str())),
        },
        WordEvent::ModelFailed { model, error } => {
            let mut message = model;
            message.append(" API error: ");
            message.append(error.as_str());
            ResultEntry { word, status: "error".to_string(), message: Some(message) }
        },
        WordEvent::MissingWord => ResultEntry {
            word: "unknown".to_string(),
            status: "error".to_string(),
            message: Some("Missing 'Wörter' field in response".to_string()),
        },
        WordEvent::AlreadyStored => ResultEntry {
            word,
            status: "duplicate".to_string(),
            message: None,
        },
        WordEvent::LookupFailed(error) => ResultEntry {
            word,
            status: "error".to_string(),
            message: Some(labelled("Database check error: ", error.as_str())),
        },
        WordEvent::Inserted => ResultEntry { word, status: "inserted".to_string(), message: None },
        WordEvent::InsertFailed(error) => ResultEntry {
            word,
            status: "error".to_string(),
            message: Some(labelled("Insert error: ", error.as_str())),
        },
    }
}

/// The characters that separate the words of a request.
pub open spec fn word_delimiters() -> Seq<char> {
    seq![',', '\n', ';']
}

/// The words of a request: the pieces between separators, trimmed,
/// without the empty ones.
pub fn split_words(input: &str) -> (r: Vec<String>)
    ensures
        texts(r@) == clean_pieces(split_on(input@, word_delimiters())),
{
    let delimiters: [char; 3] = [',', '\n', ';'];
    assert(delimiters@ =~= word_delimiters());
    split_clean(input, delimiters.as_slice())
}

/// The words that occur for the first time, in order.
pub open spec fn first_occurrences(words: Seq<Seq<char>>) -> Seq<Seq<char>>
    decreases words.len(),
{
    if words.len() == 0 {
        Seq::empty()
    } else {
        let before = first_occurrences(words.drop_last());
        if words.drop_last().contains(words.last()) {
            before
        } else {
            before.push(words.last())
        }
    }
}

/// The report on a word that stands in the request more than once.
pub open spec fn repeated(word: Seq<char>) -> ResultView {
    ResultView { word, status: "duplicate"@, message: Some("duplicated in input"@) }
}

/// One report for each word that occurred before, in order.
pub open spec fn repeated_occurrences(words: Seq<Seq<char>>) -> Seq<ResultView>
    decreases words.len(),
{
    if words.len() == 0 {
        Seq::empty()
    } else {
        let before = repeated_occurrences(words.drop_last());
        if words.drop_last().contains(words.last()) {
            before.push(repeated(words.last()))
        } else {
            before
        }
    }
}

/// Whether `word` is among `words`.
pub fn contains_word(words: &Vec<String>, word: &str) -> (r: bool)
    ensures
        r == texts(words@).contains(word@),
{
    let mut i: usize = 0;
    while i < words.len()
        invariant
            i <= words@.len(),
            forall|j: int| 0 <= j < i ==> texts(words@)[j] != word@,
        decreases words@.len() - i,
    {
        if text_eq(words[i].as_str(), word) {
            assert(texts(words@)[i as int] == word@);
            return true;
        }
        i += 1;
    }
    false
}

/// A word is among the first occurrences of a list exactly when it is in
/// the list.
pub proof fn lemma_first_occurrences(words: Seq<Seq<char>>, word: Seq<char>)
    ensures
        first_occurrences(words).contains(word) <==> words.contains(word),
        first_occurrences(words).no_duplicates(),
    decreases words.len(),
{
    if words.len() > 0 {
        let before = words.drop_last();
        let last = words.last();
        lemma_first_occurrences(before, word);
        lemma_first_occurrences(before, last);
        let firsts = first_occurrences(words);
        let firsts_before = first_occurrences(before);
        if words.contains(word) {
            let at = choose|i: int| 0 <= i < words.len() && words[i] == word;
            if at < before.len() {
                assert(before[at] == word);
                assert(before.contains(word));
                let k = choose|i: int| 0 <= i < firsts_before.len() && firsts_before[i] == word;
                assert(firsts[k] == word);
            } else if before.contains(last) {
                let k = choose|i: int| 0 <= i < firsts_before.len() && firsts_before[i] == last;
                assert(firsts[k] == word);
            } else {
                assert(firsts[firsts.len() - 1] == word);
            }
        }
        if firsts.contains(word) {
            let k = choose|i: int| 0 <= i < firsts.len() && firsts[i] == word;
            if k < firsts_before.len() {
                assert(firsts_before[k] == word);
                assert(firsts_before.contains(word));
                let at = choose|i: int| 0 <= i < before.len() && before[i] == word;
                assert(words[at] == word);
            } else {
                assert(words[words.len() - 1] == word);
            }
        }
        assert forall|i: int, j: int| 0 <= i < j < firsts.len() implies firsts[i] != firsts[j] by {
            if j < firsts_before.len() {
                assert(firsts_before[i] != firsts_before[j]);
            } else {
                assert(firsts[j] == last);
                assert(firsts_before[i] == firsts[i]);
                if firsts[i] == last {
                    assert(firsts_before.contains(last));
                }
            }
        }
    }
}

/// The words to ask about, each once, and a report for each repetition.
pub fn dedup_words(words: Vec<String>) -> (r: (Vec<String>, Vec<ResultEntry>))
    ensures
        texts(r.0@) == first_occurrences(texts(words@)),
        result_views(r.1@) == repeated_occurrences(texts(words@)),
{
    let ghost all = texts(words@);
    let mut uniques: Vec<String> = Vec::new();
    let mut results: Vec<ResultEntry> = Vec::new();
    let mut i: usize = 0;
    assert(all.take(0) =~= Seq::<Seq<char>>::empty());
    while i < words.len()
        invariant
            i <= words@.len(),
            all == texts(words@),
            texts(uniques@) == first_occurrences(all.take(i as int)),
            result_views(results@) == repeated_occurrences(all.take(i as int)),
        decreases words@.len() - i,
    {
        let word = &words[i];
        let ghost seen = texts(uniques@);
        let ghost reported = result_views(results@);
        proof {
            assert(all.take(i + 1).drop_last() =~= all.take(i as int));
            assert(all.take(i + 1).last() == word@);
            lemma_first_occurrences(all.take(i as int), word@);
        }
        if contains_word(&uniques, word.as_str()) {
            let entry = ResultEntry {
                word: word.clone(),
                status: "duplicate".to_string(),
                message: Some("duplicated in input".to_string()),
            };
            results.push(entry);
            assert(result_views(results@) =~= reported.push(repeated(word@)));
        } else {
            uniques.push(word.clone());
            assert(texts(uniques@) =~= seen.push(word@));
        }
        i += 1;
    }
    assert(all.take(words@.len() as int) =~= all);
    (uniques, results)
}

/// The names of the configured models, in order.
pub fn available_models(cfg: &WoeterConfig) -> (r: Vec<String>)
    ensures
        r@.len() == cfg.models@.len(),
        forall|i: int| 0 <= i < r@.len() ==> (#[trigger] r@[i])@ == cfg.models@[i].name@,
{
    let mut names: Vec<String> = Vec::new();
    let mut i: usize = 0;
    while i < cfg.models.len()
        invariant
            i <= cfg.models@.len(),
            names@.len() == i,
            forall|j: int| 0 <= j < i ==> (#[trigger] names@[j])@ == cfg.models@[j].name@,
        decreases cfg.models@.len() - i,
    {
        names.push(cfg.models[i].name.clone());
        i += 1;
    }
    names
}

/// The name of the model that a request means: the one it names where
/// that is configured, else the default model.
pub open spec fn meant_model(cfg: WoeterConfig, requested: Option<Seq<char>>) -> Seq<char> {
    match requested {
        Some(name) => if has_model(cfg.models@, name) {
            name
        } else {
            cfg.default_model@
        },
        None => cfg.default_model@,
    }
}

/// The model to ask for a request that names `requested`. Where the model
/// meant is not configured, its name comes back as the failure.
pub fn choose_model(cfg: &WoeterConfig, requested: Option<String>) -> (r: Result<String, String>)
    ensures
        match r {
            Ok(name) => name@ == meant_model(
                *cfg,
                match requested {
                    Some(m) => Some(m@),
                    None => None,
                },
            ) && has_model(cfg.models@, name@),
            Err(name) => name@ == meant_model(
                *cfg,
                match requested {
                    Some(m) => Some(m@),
                    None => None,
                },
            ) && !has_model(cfg.models@, name@),
        },
{
    let model = match requested {
        Some(name) => {
            if find_model(&cfg.models, name.as_str()).is_some() {
                name
            } else {
                cfg.default_model.clone()
            }
        },
        None => cfg.default_model.clone(),
    };
    if find_model(&cfg.models, model.as_str()).is_some() {
        Ok(model)
    } else {
        Err(model)
    }
}

/// What a kind of word brings with it: the database it is stored in, the
/// prompt it is asked with, and its name.
#[derive(Debug)]
pub struct WordTypeInfo {
    pub db_id: String,
    pub system_prompt: String,
    pub name: &'static str,
}

/// The database, prompt and name of the kind of word `word_type`. Any
/// number but 1, 2, 3 and 4 is refused.
pub fn get_word_type_info(cfg: &WoeterConfig, word_type: i32) -> (r: Result<WordTypeInfo, String>)
    ensures
        match r {
            Ok(info) => {
                ||| word_type == 1 && info.db_id@ == cfg.noun_db_id@ && info.system_prompt@
                    == cfg.prompts.noun@ && info.name@ == "Noun"@
                ||| word_type == 2 && info.db_id@ == cfg.verb_db_id@ && info.system_prompt@
                    == cfg.prompts.verb@ && info.name@ == "Verb"@
                ||| word_type == 3 && info.db_id@ == cfg.adj_adv_db_id@ && info.system_prompt@
                    == cfg.prompts.adj_adv@ && info.name@ == "Adjective/Adverb"@
                ||| word_type == 4 && info.db_id@ == cfg.prep_reflex_db_id@ && info.system_prompt@
                    == cfg.prompts.prep_reflex@ && info.name@ == "Prepositional/Reflexive Verb"@
            },
            Err(msg) => !(1 <= word_type <= 4) && msg@
                == "invalid word type. Must be 1 (noun), 2 (verb), 3 (adj/adv), or 4 (prep/reflex)"@,
        },
{
    if word_type == 1 {
        Ok(
            WordTypeInfo {
                db_id: cfg.noun_db_id.clone(),
                system_prompt: cfg.prompts.noun.clone(),
                name: "Noun",
            },
        )
    } else if word_type == 2 {
        Ok(
            WordTypeInfo {
                db_id: cfg.verb_db_id.clone(),
                system_prompt: cfg.prompts.verb.clone(),
                name: "Verb",
            },
        )
    } else if word_type == 3 {
        Ok(
            WordTypeInfo {
                db_id: cfg.adj_adv_db_id.clone(),
                system_prompt: cfg.prompts.adj_adv.clone(),
                name: "Adjective/Adverb",
            },
        )
    } else if word_type == 4 {
        Ok(
            WordTypeInfo {
                db_id: cfg.prep_reflex_db_id.clone(),
                system_prompt: cfg.prompts.prep_reflex.clone(),
                name: "Prepositional/Reflexive Verb",
            },
        )
    } else {
        Err(
            "invalid word type. Must be 1 (noun), 2 (verb), 3 (adj/adv), or 4 (prep/reflex)".to_string(),
        )
    }
}

} // verus!
