//! The configuration of the word import: the models that may be asked, the
//! prompts, and how the fields of a word map to the properties of the
//! notes database.

use vstd::prelude::*;
use crate::text::{opt_text, text_eq};
use crate::woeter::prompts::{
    default_prompt_adj_adv, default_prompt_noun, default_prompt_prep_reflex,
    default_prompt_verb, SYSTEM_PROMPT_ADJ_ADV, SYSTEM_PROMPT_NOUN, SYSTEM_PROMPT_PREP_REFLEX,
    SYSTEM_PROMPT_VERB,
};

verus! {

/// Which interface of a model provider is called.
#[derive(Clone, Copy, Debug, PartialEq, Eq, Structural)]
pub enum LlmApi {
    ChatCompletions,
    Responses,
}

impl Default for LlmApi {
    fn default() -> (r: Self)
        ensures
            r == LlmApi::ChatCompletions,
    {
        LlmApi::ChatCompletions
    }
}

/// How one model is reached.
#[derive(Clone, Debug)]
pub struct ModelConfig {
    /// The key itself, where the configuration holds it.
    pub api_key: Option<String>,
    /// The name of the environment variable that holds the key.
    pub api_key_env: Option<String>,
    pub base_url: String,
    pub model_name: String,
    /// The interface to call, where it differs from the general one.
    pub llm_api: Option<LlmApi>,
}

/// The key that a model configuration yields, given what the environment
/// variable it names holds: that value where a variable is named and holds
/// a non-empty value, else the configured key where it is non-empty.
pub open spec fn key_of(
    api_key: Option<Seq<char>>,
    api_key_env: Option<Seq<char>>,
    env_value: Option<Seq<char>>,
) -> Option<Seq<char>> {
    if api_key_env is Some && env_value is Some && env_value->0.len() > 0 {
        env_value
    } else if api_key is Some && api_key->0.len() > 0 {
        api_key
    } else {
        None
    }
}

impl ModelConfig {
    /// The key to present to the provider. `env_value` is what the
    /// environment holds under the name `api_key_env`, if anything.
    pub fn api_key(&self, env_value: Option<String>) -> (r: Result<String, String>)
        ensures
            match r {
                Ok(key) => key_of(
                    opt_text(self.api_key),
                    opt_text(self.api_key_env),
                    opt_text(env_value),
                ) == Some(key@),
                Err(msg) => key_of(
                    opt_text(self.api_key),
                    opt_text(self.api_key_env),
                    opt_text(env_value),
                ) is None && msg@
                    == "API key not provided. Set 'api_key' or 'api_key_env' with a valid env var name."@,
            },
    {
        if self.api_key_env.is_some() {
            match env_value {
                Some(v) => {
                    if v.as_str().unicode_len() > 0 {
                        return Ok(v);
                    }
                },
                None => {},
            }
        }
        match &self.api_key {
            Some(v) => {
                if v.as_str().unicode_len() > 0 {
                    return Ok(v.clone());
                }
            },
            None => {},
        }
        Err(
            "API key not provided. Set 'api_key' or 'api_key_env' with a valid env var name.".to_string(),
        )
    }
}

/// The prompts, one for each kind of word.
#[derive(Clone, Debug)]
pub struct PromptsConfig {
    pub noun: String,
    pub verb: String,
    pub adj_adv: String,
    pub prep_reflex: String,
}

impl Default for PromptsConfig {
    fn default() -> (r: Self)
        ensures
            r.noun@ == SYSTEM_PROMPT_NOUN@,
            r.verb@ == SYSTEM_PROMPT_VERB@,
            r.adj_adv@ == SYSTEM_PROMPT_ADJ_ADV@,
            r.prep_reflex@ == SYSTEM_PROMPT_PREP_REFLEX@,
    {
        PromptsConfig {
            noun: default_prompt_noun(),
            verb: default_prompt_verb(),
            adj_adv: default_prompt_adj_adv(),
            prep_reflex: default_prompt_prep_reflex(),
        }
    }
}

/// One property of the notes database.
#[derive(Clone, Debug)]
pub struct PropertyConfig {
    pub name: String,
    /// The kind of the property: `title`, `rich_text`, `select` or
    /// `multi_select`.
    pub kind: String,
    pub enabled: bool,
}

impl PropertyConfig {
    /// Whether the property has the given name and kind and is switched
    /// on or off as given.
    pub open spec fn holds(self, name: Seq<char>, kind: Seq<char>, enabled: bool) -> bool {
        self.name@ == name && self.kind@ == kind && self.enabled == enabled
    }
}

/// A property is switched on unless the configuration says otherwise.
pub fn default_enabled_true() -> (r: bool)
    ensures
        r,
{
    true
}

/// The prompt goes into the instructions of a request unless the
/// configuration says otherwise.
pub fn default_use_instructions_true() -> (r: bool)
    ensures
        r,
{
    true
}

/// The property of the word itself.
pub fn default_prop_title() -> (r: PropertyConfig)
    ensures
        r.holds("Wörter"@, "title"@, true),
{
    PropertyConfig { name: "Wörter".to_string(), kind: "title".to_string(), enabled: true }
}

/// The property of the gender of a noun.
pub fn default_prop_genus() -> (r: Option<PropertyConfig>)
    ensures
        r is Some && r->0.holds("Genus"@, "multi_select"@, true),
{
    Some(
        PropertyConfig { name: "Genus".to_string(), kind: "multi_select".to_string(), enabled: true },
    )
}

/// The property of the plural of a noun.
pub fn default_prop_plural() -> (r: Option<PropertyConfig>)
    ensures
        r is Some && r->0.holds("Plural"@, "rich_text"@, true),
{
    Some(PropertyConfig { name: "Plural".to_string(), kind: "rich_text".to_string(), enabled: true })
}

/// The property of the meaning in Chinese.
pub fn default_prop_meaning_cn() -> (r: Option<PropertyConfig>)
    ensures
        r is Some && r->0.holds("释义"@, "rich_text"@, true),
{
    Some(PropertyConfig { name: "释义".to_string(), kind: "rich_text".to_string(), enabled: true })
}

/// The property of the meaning in English.
pub fn default_prop_meaning_en() -> (r: Option<PropertyConfig>)
    ensures
        r is Some && r->0.holds("English"@, "rich_text"@, true),
{
    Some(
        PropertyConfig { name: "English".to_string(), kind: "rich_text".to_string(), enabled: true },
    )
}

/// The property of the example sentences.
pub fn default_prop_examples() -> (r: Option<PropertyConfig>)
    ensures
        r is Some && r->0.holds("Beispiel"@, "rich_text"@, true),
{
    Some(
        PropertyConfig { name: "Beispiel".to_string(), kind: "rich_text".to_string(), enabled: true },
    )
}

/// The property of the attributes of a verb.
pub fn default_prop_attributes() -> (r: Option<PropertyConfig>)
    ensures
        r is Some && r->0.holds("Eigenschaft"@, "multi_select"@, true),
{
    Some(
        PropertyConfig {
            name: "Eigenschaft".to_string(),
            kind: "multi_select".to_string(),
            enabled: true,
        },
    )
}

/// The property of the kind of word, which is switched off.
pub fn default_prop_word_type() -> (r: Option<PropertyConfig>)
    ensures
        r is Some && r->0.holds("类型"@, "select"@, false),
{
    Some(PropertyConfig { name: "类型".to_string(), kind: "select".to_string(), enabled: false })
}

/// The property of the comparison forms.
pub fn default_prop_comparison() -> (r: Option<PropertyConfig>)
    ensures
        r is Some && r->0.holds("Komparativ & Superlativ"@, "rich_text"@, true),
{
    Some(
        PropertyConfig {
            name: "Komparativ & Superlativ".to_string(),
            kind: "rich_text".to_string(),
            enabled: true,
        },
    )
}

/// The properties of the notes database that the fields of a word go to.
#[derive(Clone, Debug)]
pub struct NotionPropertiesConfig {
    pub title: PropertyConfig,
    pub genus: Option<PropertyConfig>,
    pub plural: Option<PropertyConfig>,
    pub meaning_cn: Option<PropertyConfig>,
    pub meaning_en: Option<PropertyConfig>,
    pub examples: Option<PropertyConfig>,
    pub attributes: Option<PropertyConfig>,
    pub word_type: Option<PropertyConfig>,
    pub comparison: Option<PropertyConfig>,
}

impl NotionPropertiesConfig {
    /// Whether every property is the one used without configuration. All
    /// are switched on but the word type.
    pub open spec fn is_default(self) -> bool {
        &&& self.title.holds("Wörter"@, "title"@, true)
        &&& self.genus is Some && self.genus->0.holds("Genus"@, "multi_select"@, true)
        &&& self.plural is Some && self.plural->0.holds("Plural"@, "rich_text"@, true)
        &&& self.meaning_cn is Some && self.meaning_cn->0.holds("释义"@, "rich_text"@, true)
        &&& self.meaning_en is Some && self.meaning_en->0.holds("English"@, "rich_text"@, true)
        &&& self.examples is Some && self.examples->0.holds("Beispiel"@, "rich_text"@, true)
        &&& self.attributes is Some && self.attributes->0.holds(
            "Eigenschaft"@,
            "multi_select"@,
            true,
        )
        &&& self.word_type is Some && self.word_type->0.holds("类型"@, "select"@, false)
        &&& self.comparison is Some && self.comparison->0.holds(
            "Komparativ & Superlativ"@,
            "rich_text"@,
            true,
        )
    }
}

impl Default for NotionPropertiesConfig {
    fn default() -> (r: Self)
        ensures
            r.is_default(),
    {
        NotionPropertiesConfig {
            title: default_prop_title(),
            genus: default_prop_genus(),
            plural: default_prop_plural(),
            meaning_cn: default_prop_meaning_cn(),
            meaning_en: default_prop_meaning_en(),
            examples: default_prop_examples(),
            attributes: default_prop_attributes(),
            word_type: default_prop_word_type(),
            comparison: default_prop_comparison(),
        }
    }
}

/// What concerns the notes database.
#[derive(Clone, Debug)]
pub struct NotionConfig {
    pub properties: NotionPropertiesConfig,
}

impl Default for NotionConfig {
    fn default() -> (r: Self)
        ensures
            r.properties.is_default(),
    {
        NotionConfig { properties: NotionPropertiesConfig::default() }
    }
}

/// How the responses interface is used.
#[derive(Clone, Debug)]
pub struct ResponsesConfig {
    pub stream: bool,
    /// `low`, `medium` or `high`, where the provider takes it.
    pub reasoning_effort: Option<String>,
    pub use_instructions: bool,
    pub debug: bool,
}

impl Default for ResponsesConfig {
    fn default() -> (r: Self)
        ensures
            !r.stream,
            r.reasoning_effort is None,
            !r.use_instructions,
            !r.debug,
    {
        ResponsesConfig { stream: false, reasoning_effort: None, use_instructions: false, debug: false }
    }
}

/// Whether the exchange with the responses interface is logged in full:
/// where the configuration says so, or the environment switch holds one of
/// `1`, `true`, `TRUE`, `yes`, `on`.
pub open spec fn debug_switch(configured: bool, env_value: Option<Seq<char>>) -> bool {
    configured || (env_value matches Some(v) && (v == "1"@ || v == "true"@ || v == "TRUE"@ || v
        == "yes"@ || v == "on"@))
}

/// Whether the exchange with the responses interface is logged in full.
/// `env_value` is what the environment holds under the name of the switch.
pub fn is_responses_debug_enabled(responses: &ResponsesConfig, env_value: Option<&str>) -> (r: bool)
    ensures
        r == debug_switch(
            responses.debug,
            match env_value {
                Some(v) => Some(v@),
                None => None,
            },
        ),
{
    if responses.debug {
        return true;
    }
    match env_value {
        Some(v) => text_eq(v, "1") || text_eq(v, "true") || text_eq(v, "TRUE") || text_eq(v, "yes")
            || text_eq(v, "on"),
        None => false,
    }
}

/// A model under the name by which requests ask for it.
#[derive(Clone, Debug)]
pub struct NamedModel {
    pub name: String,
    pub config: ModelConfig,
}

/// The configuration of the word import.
#[derive(Clone, Debug)]
pub struct WoeterConfig {
    pub noun_db_id: String,
    pub verb_db_id: String,
    pub adj_adv_db_id: String,
    pub prep_reflex_db_id: String,
    /// The models by name.
    pub models: Vec<NamedModel>,
    /// The model asked where a request names none; empty for the first.
    pub default_model: String,
    pub llm_api: LlmApi,
    pub responses: ResponsesConfig,
    pub prompts: PromptsConfig,
    pub notion: NotionConfig,
}

/// Whether a model of the name `name` is configured.
pub open spec fn has_model(models: Seq<NamedModel>, name: Seq<char>) -> bool {
    exists|i: int| 0 <= i < models.len() && (#[trigger] models[i]).name@ == name
}

/// The first place at which the model `name` stands.
pub open spec fn is_model_at(models: Seq<NamedModel>, name: Seq<char>, at: int) -> bool {
    &&& 0 <= at < models.len()
    &&& models[at].name@ == name
    &&& forall|j: int| 0 <= j < at ==> (#[trigger] models[j]).name@ != name
}

/// The name of the model that is asked by default: the configured one, or
/// the first model where none is configured.
pub open spec fn default_name(models: Seq<NamedModel>, configured: Seq<char>) -> Seq<char> {
    if configured.len() == 0 && models.len() > 0 {
        models[0].name@
    } else {
        configured
    }
}

/// The place of the model `name` among `models`.
pub fn find_model(models: &Vec<NamedModel>, name: &str) -> (r: Option<usize>)
    ensures
        r is Some <==> has_model(models@, name@),
        r matches Some(at) ==> is_model_at(models@, name@, at as int),
{
    let mut i: usize = 0;
    while i < models.len()
        invariant
            i <= models@.len(),
            forall|j: int| 0 <= j < i ==> (#[trigger] models@[j]).name@ != name@,
        decreases models@.len() - i,
    {
        if text_eq(models[i].name.as_str(), name) {
            return Some(i);
        }
        i += 1;
    }
    None
}

impl WoeterConfig {
    /// The configuration with its default model settled. It is refused
    /// where no model is configured, or the default model is not among the
    /// configured ones.
    pub fn with_default_model(self) -> (r: Result<Self, String>)
        ensures
            match r {
                Ok(cfg) => {
                    &&& self.models@.len() > 0
                    &&& has_model(self.models@, default_name(self.models@, self.default_model@))
                    &&& cfg.default_model@ == default_name(self.models@, self.default_model@)
                    &&& cfg == (WoeterConfig { default_model: cfg.default_model, ..self })
                },
                Err(msg) => if self.models@.len() == 0 {
                    msg@ == "no models configured in woeter TOML config"@
                } else {
                    &&& !has_model(self.models@, default_name(self.models@, self.default_model@))
                    &&& msg@ == "default model '"@ + default_name(
                        self.models@,
                        self.default_model@,
                    ) + "' not found in models configuration"@
                },
            },
    {
        if self.models.len() == 0 {
            return Err("no models configured in woeter TOML config".to_string());
        }
        let default_model = if self.default_model.as_str().unicode_len() == 0 {
            self.models[0].name.clone()
        } else {
            self.default_model.clone()
        };
        if find_model(&self.models, default_model.as_str()).is_none() {
            let mut msg = "default model '".to_string();
            msg.append(default_model.as_str());
            msg.append("' not found in models configuration");
            return Err(msg);
        }
        let mut cfg = self;
        cfg.default_model = default_model;
        Ok(cfg)
    }

    /// The interface to call for the model `model_name`: the model's own
    /// where it has one, else the general one. An unknown model is
    /// reported by name.
    pub fn api_for(&self, model_name: &str) -> (r: Result<LlmApi, String>)
        ensures
            match r {
                Ok(api) => exists|at: int|
                    is_model_at(self.models@, model_name@, at) && api == match (
                    #[trigger] self.models@[at]).config.llm_api {
                        Some(own) => own,
                        None => self.llm_api,
                    },
                Err(msg) => !has_model(self.models@, model_name@) && msg@ == "model '"@
                    + model_name@ + "' not configured"@,
            },
    {
        match find_model(&self.models, model_name) {
            Some(at) => Ok(
                match self.models[at].config.llm_api {
                    Some(own) => own,
                    None => self.llm_api,
                },
            ),
            None => {
                let mut msg = "model '".to_string();
                msg.append(model_name);
                msg.append("' not configured");
                Err(msg)
            },
        }
    }
}

} // verus!
