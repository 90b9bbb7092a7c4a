use german_learn::config::AppConfig;
use german_learn::entries::{extract_json_array, prepare_entry, CreateEntryRequest, CreateEntryResponse};
use german_learn::error::AppError;
use german_learn::model::PartOfSpeech;
use german_learn::woeter::config::{
    default_enabled_true, default_prop_attributes, default_prop_comparison,
    default_prop_examples, default_prop_genus, default_prop_meaning_cn, default_prop_meaning_en,
    default_prop_plural, default_prop_title, default_prop_word_type,
    default_use_instructions_true, find_model, is_responses_debug_enabled, LlmApi, ModelConfig,
    NamedModel, NotionConfig, NotionPropertiesConfig, PromptsConfig, ResponsesConfig,
    WoeterConfig,
};
use german_learn::woeter::handlers::{
    available_models, choose_model, contains_word, dedup_words, get_word_type_info, split_words,
    AddWordRequest, AddWordResponse, ResultEntry,
};
use german_learn::woeter::prompts::{
    default_prompt_adj_adv, default_prompt_noun, default_prompt_prep_reflex,
    default_prompt_verb, SYSTEM_PROMPT_ADJ_ADV, SYSTEM_PROMPT_NOUN, SYSTEM_PROMPT_PREP_REFLEX,
    SYSTEM_PROMPT_VERB,
};

fn import_model(name: &str, api: Option<LlmApi>) -> NamedModel {
    NamedModel {
        name: name.to_string(),
        config: ModelConfig {
            api_key: Some("key".to_string()),
            api_key_env: None,
            base_url: "https://example.invalid/v1".to_string(),
            model_name: format!("{}-model", name),
            llm_api: api,
        },
    }
}

fn import_config(models: Vec<NamedModel>, default_model: &str) -> WoeterConfig {
    WoeterConfig {
        noun_db_id: "db-noun".to_string(),
        verb_db_id: "db-verb".to_string(),
        adj_adv_db_id: "db-adj".to_string(),
        prep_reflex_db_id: "db-prep".to_string(),
        models,
        default_model: default_model.to_string(),
        llm_api: LlmApi::default(),
        responses: ResponsesConfig::default(),
        prompts: PromptsConfig::default(),
        notion: NotionConfig::default(),
    }
}

#[test]
fn split_words_splits_on_commas_semicolons_and_line_breaks() {
    assert_eq!(split_words("Haus, Baum;Tisch\nStuhl"), vec!["Haus", "Baum", "Tisch", "Stuhl"]);
    assert_eq!(split_words("  sich erinnern an ,, ;\n\n gehen "), vec!["sich erinnern an", "gehen"]);
    assert_eq!(split_words(""), Vec::<String>::new());
    assert_eq!(split_words(" \n "), Vec::<String>::new());
    assert_eq!(split_words("a/b"), vec!["a/b"]);
}

#[test]
fn dedup_words_keeps_first_occurrences() {
    let words: Vec<String> = ["a", "b", "a", "c", "b", "a"].iter().map(|w| w.to_string()).collect();
    let (uniques, repeated) = dedup_words(words);
    assert_eq!(uniques, vec!["a", "b", "c"]);
    assert_eq!(repeated.len(), 3);
    let words: Vec<&str> = repeated.iter().map(|r| r.word.as_str()).collect();
    assert_eq!(words, vec!["a", "b", "a"]);
    for entry in &repeated {
        assert_eq!(entry.status, "duplicate");
        assert_eq!(entry.message.as_deref(), Some("duplicated in input"));
    }
    let (uniques, repeated) = dedup_words(Vec::new());
    assert!(uniques.is_empty());
    assert!(repeated.is_empty());
    assert!(contains_word(&vec!["x".to_string()], "x"));
    assert!(!contains_word(&vec!["x".to_string()], "X"));
}

#[test]
fn choose_model_falls_back_to_the_default() {
    let cfg = import_config(vec![import_model("fast", None), import_model("smart", None)], "smart");
    assert_eq!(choose_model(&cfg, Some("fast".to_string())), Ok("fast".to_string()));
    assert_eq!(choose_model(&cfg, Some("unknown".to_string())), Ok("smart".to_string()));
    assert_eq!(choose_model(&cfg, None), Ok("smart".to_string()));
    let broken = import_config(vec![import_model("fast", None)], "gone");
    assert_eq!(choose_model(&broken, None), Err("gone".to_string()));
    assert_eq!(choose_model(&broken, Some("other".to_string())), Err("gone".to_string()));
    assert_eq!(choose_model(&broken, Some("fast".to_string())), Ok("fast".to_string()));
    assert_eq!(available_models(&cfg), vec!["fast", "smart"]);
}

#[test]
fn word_type_info_for_each_kind() {
    let cfg = import_config(vec![import_model("m", None)], "m");
    let noun = get_word_type_info(&cfg, 1).unwrap();
    assert_eq!((noun.db_id.as_str(), noun.name), ("db-noun", "Noun"));
    assert_eq!(noun.system_prompt, SYSTEM_PROMPT_NOUN);
    let verb = get_word_type_info(&cfg, 2).unwrap();
    assert_eq!((verb.db_id.as_str(), verb.name), ("db-verb", "Verb"));
    assert_eq!(verb.system_prompt, SYSTEM_PROMPT_VERB);
    let adj = get_word_type_info(&cfg, 3).unwrap();
    assert_eq!((adj.db_id.as_str(), adj.name), ("db-adj", "Adjective/Adverb"));
    assert_eq!(adj.system_prompt, SYSTEM_PROMPT_ADJ_ADV);
    let prep = get_word_type_info(&cfg, 4).unwrap();
    assert_eq!((prep.db_id.as_str(), prep.name), ("db-prep", "Prepositional/Reflexive Verb"));
    assert_eq!(prep.system_prompt, SYSTEM_PROMPT_PREP_REFLEX);
    for bad in [0, 5, -1, i32::MAX] {
        assert_eq!(
            get_word_type_info(&cfg, bad).unwrap_err(),
            "invalid word type. Must be 1 (noun), 2 (verb), 3 (adj/adv), or 4 (prep/reflex)"
        );
    }
}

#[test]
fn default_model_is_settled() {
    let cfg = import_config(vec![import_model("first", None), import_model("second", None)], "");
    assert_eq!(cfg.with_default_model().unwrap().default_model, "first");
    let cfg = import_config(vec![import_model("first", None), import_model("second", None)], "second");
    let settled = cfg.with_default_model().unwrap();
    assert_eq!(settled.default_model, "second");
    assert_eq!(settled.models.len(), 2);
    assert_eq!(settled.noun_db_id, "db-noun");
    let cfg = import_config(Vec::new(), "any");
    assert_eq!(cfg.with_default_model().unwrap_err(), "no models configured in woeter TOML config");
    let cfg = import_config(vec![import_model("first", None)], "missing");
    assert_eq!(
        cfg.with_default_model().unwrap_err(),
        "default model 'missing' not found in models configuration"
    );
}

#[test]
fn api_of_a_model_overrides_the_general_one() {
    let mut cfg = import_config(
        vec![import_model("plain", None), import_model("own", Some(LlmApi::Responses))],
        "plain",
    );
    assert_eq!(cfg.api_for("plain"), Ok(LlmApi::ChatCompletions));
    assert_eq!(cfg.api_for("own"), Ok(LlmApi::Responses));
    cfg.llm_api = LlmApi::Responses;
    assert_eq!(cfg.api_for("plain"), Ok(LlmApi::Responses));
    assert_eq!(cfg.api_for("nope"), Err("model 'nope' not configured".to_string()));
    assert_eq!(find_model(&cfg.models, "own"), Some(1));
    assert_eq!(find_model(&cfg.models, "Own"), None);
}

#[test]
fn api_key_prefers_the_environment() {
    let model = |key: Option<&str>, env: Option<&str>| ModelConfig {
        api_key: key.map(|k| k.to_string()),
        api_key_env: env.map(|e| e.to_string()),
        base_url: String::new(),
        model_name: String::new(),
        llm_api: None,
    };
    let missing = "API key not provided. Set 'api_key' or 'api_key_env' with a valid env var name.";
    assert_eq!(model(Some("cfg"), Some("VAR")).api_key(Some("env".to_string())), Ok("env".to_string()));
    assert_eq!(model(Some("cfg"), Some("VAR")).api_key(Some(String::new())), Ok("cfg".to_string()));
    assert_eq!(model(Some("cfg"), Some("VAR")).api_key(None), Ok("cfg".to_string()));
    assert_eq!(model(Some("cfg"), None).api_key(Some("env".to_string())), Ok("cfg".to_string()));
    assert_eq!(model(None, Some("VAR")).api_key(Some("env".to_string())), Ok("env".to_string()));
    assert_eq!(model(None, Some("VAR")).api_key(None), Err(missing.to_string()));
    assert_eq!(model(Some(""), None).api_key(None), Err(missing.to_string()));
    assert_eq!(model(None, None).api_key(Some("env".to_string())), Err(missing.to_string()));
}

#[test]
fn default_properties() {
    let check = |p: german_learn::woeter::config::PropertyConfig, name: &str, kind: &str, enabled: bool| {
        assert_eq!((p.name.as_str(), p.kind.as_str(), p.enabled), (name, kind, enabled));
    };
    check(default_prop_title(), "W\u{f6}rter", "title", true);
    check(default_prop_genus().unwrap(), "Genus", "multi_select", true);
    check(default_prop_plural().unwrap(), "Plural", "rich_text", true);
    check(default_prop_meaning_cn().unwrap(), "\u{91ca}\u{4e49}", "rich_text", true);
    check(default_prop_meaning_en().unwrap(), "English", "rich_text", true);
    check(default_prop_examples().unwrap(), "Beispiel", "rich_text", true);
    check(default_prop_attributes().unwrap(), "Eigenschaft", "multi_select", true);
    check(default_prop_word_type().unwrap(), "\u{7c7b}\u{578b}", "select", false);
    check(default_prop_comparison().unwrap(), "Komparativ & Superlativ", "rich_text", true);
    let all = NotionPropertiesConfig::default();
    check(all.title, "W\u{f6}rter", "title", true);
    check(all.word_type.unwrap(), "\u{7c7b}\u{578b}", "select", false);
    check(NotionConfig::default().properties.genus.unwrap(), "Genus", "multi_select", true);
    assert!(default_enabled_true());
    assert!(default_use_instructions_true());
}

#[test]
fn default_prompts_and_settings() {
    assert_eq!(default_prompt_noun(), SYSTEM_PROMPT_NOUN);
    assert_eq!(default_prompt_verb(), SYSTEM_PROMPT_VERB);
    assert_eq!(default_prompt_adj_adv(), SYSTEM_PROMPT_ADJ_ADV);
    assert_eq!(default_prompt_prep_reflex(), SYSTEM_PROMPT_PREP_REFLEX);
    assert!(SYSTEM_PROMPT_NOUN.contains("German noun"));
    assert!(SYSTEM_PROMPT_VERB.contains("sein-Perfekt"));
    assert!(SYSTEM_PROMPT_ADJ_ADV.contains("Komparativ & Superlativ"));
    assert!(SYSTEM_PROMPT_PREP_REFLEX.contains("sich erinnern an"));
    let prompts = PromptsConfig::default();
    assert_eq!(prompts.noun, SYSTEM_PROMPT_NOUN);
    assert_eq!(prompts.prep_reflex, SYSTEM_PROMPT_PREP_REFLEX);
    assert_eq!(LlmApi::default(), LlmApi::ChatCompletions);
    let responses = ResponsesConfig::default();
    assert!(!responses.stream && !responses.use_instructions && !responses.debug);
    assert_eq!(responses.reasoning_effort, None);
}

#[test]
fn responses_debug_switch() {
    let off = ResponsesConfig::default();
    let on = ResponsesConfig { debug: true, ..ResponsesConfig::default() };
    assert!(is_responses_debug_enabled(&on, None));
    assert!(is_responses_debug_enabled(&on, Some("0")));
    assert!(!is_responses_debug_enabled(&off, None));
    for v in ["1", "true", "TRUE", "yes", "on"] {
        assert!(is_responses_debug_enabled(&off, Some(v)));
    }
    for v in ["0", "True", "YES", "", " on"] {
        assert!(!is_responses_debug_enabled(&off, Some(v)));
    }
}

#[test]
fn request_and_response_values() {
    let req = AddWordRequest { word_type: 1, words: "a,b".to_string(), model: None };
    assert_eq!(split_words(&req.words).len(), 2);
    let resp = AddWordResponse {
        success: true,
        message: "ok".to_string(),
        results: vec![ResultEntry { word: "a".to_string(), status: "inserted".to_string(), message: None }],
        model: "m".to_string(),
    };
    assert_eq!(resp.results[0].status, "inserted");
    assert_eq!(CreateEntryResponse { entry_id: 9 }.entry_id, 9);
}

#[test]
fn app_config_from_values() {
    let s = |v: &str| Some(v.to_string());
    let cfg = AppConfig::from_values(s("postgres://a"), s("postgres://b"), None, None, None).unwrap();
    assert_eq!(cfg.database_url, "postgres://a");
    assert_eq!(cfg.server_addr, "127.0.0.1:8080");
    assert_eq!(cfg.auth_secret, "dev_secret_change_me");
    assert_eq!(cfg.auth_cookie_name, "ba_session");
    let cfg = AppConfig::from_values(None, s("postgres://b"), s("0.0.0.0:1"), s("sec"), s("sid")).unwrap();
    assert_eq!(cfg.database_url, "postgres://b");
    assert_eq!(cfg.server_addr, "0.0.0.0:1");
    assert_eq!(cfg.auth_secret, "sec");
    assert_eq!(cfg.auth_cookie_name, "sid");
    assert!(AppConfig::from_values(None, None, s("x"), s("y"), s("z")).is_none());
}

#[test]
fn prepare_entry_cleans_the_request() {
    let req = CreateEntryRequest {
        word: "  Haus ".to_string(),
        part_of_speech: " N ".to_string(),
        english: Some(" house ".to_string()),
        meaning: Some("   ".to_string()),
        examples: None,
        themes: Some("home".to_string()),
        extra: Some(serde_json::Value::Bool(true)),
    };
    let entry = prepare_entry(req, "u1", 77).unwrap();
    assert_eq!(entry.word, "Haus");
    assert_eq!(entry.part_of_speech, PartOfSpeech::Noun);
    assert_eq!(entry.user_owner.as_deref(), Some("u1"));
    assert_eq!(entry.english.as_deref(), Some("house"));
    assert_eq!(entry.meaning, None);
    assert_eq!(entry.examples, None);
    assert_eq!(entry.themes.as_deref(), Some("home"));
    assert_eq!(entry.source_table, "user");
    assert_eq!(entry.source_created_time, Some(77));
    assert_eq!(entry.extra, Some(serde_json::Value::Bool(true)));
    let req = CreateEntryRequest {
        word: "x".to_string(),
        part_of_speech: "Ding".to_string(),
        english: None,
        meaning: None,
        examples: None,
        themes: None,
        extra: None,
    };
    match prepare_entry(req, "u1", 1) {
        Err(AppError::Validation(msg)) => assert_eq!(msg, "unsupported part_of_speech 'ding'"),
        other => panic!("unexpected: {:?}", other),
    }
}

#[test]
fn extract_json_array_finds_the_first_bracketed_part() {
    assert_eq!(extract_json_array("[]"), Some("[]"));
    assert_eq!(extract_json_array("Here you go: [{\"a\": [1, 2]}] thanks"), Some("[{\"a\": [1, 2]}]"));
    assert_eq!(extract_json_array("x ] y [1] [2]"), Some("[1]"));
    assert_eq!(extract_json_array("[[1],[2]] [3]"), Some("[[1],[2]]"));
    assert_eq!(extract_json_array("\u{91ca}\u{4e49} [\"\u{fc}\"] \u{3002}"), Some("[\"\u{fc}\"]"));
}

#[test]
fn extract_json_array_is_none_without_a_closed_bracket() {
    assert_eq!(extract_json_array(""), None);
    assert_eq!(extract_json_array("no brackets"), None);
    assert_eq!(extract_json_array("]]]"), None);
    assert_eq!(extract_json_array("[1, [2]"), None);
    assert_eq!(extract_json_array("] ["), None);
}
