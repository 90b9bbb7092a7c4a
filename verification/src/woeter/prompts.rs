//! The instructions given to the language model for each kind of word,
//! used where the configuration does not bring its own.

use vstd::prelude::*;

verus! {

/// The instructions for nouns.
pub const SYSTEM_PROMPT_NOUN: &'static str = r#"
You are a German language expert. For each German noun provided, return ONLY a valid JSON array with the structure:

[
  {
    "Genus": "der/die/das",
    "Wörter": "singular form",
    "Plural": "plural form",
    "释义": "Chinese meaning",
    "English": "English meaning",
    "Beispiel": "Two to three short native‑sounding German sentences (separated by \n) that each show a typical use of the noun"
  }
]

Rules:
1. Return ONLY the JSON array, no extra text.
2. Use the exact field names shown.
3. Every item must include a `Beispiel` field containing 2–3 sentences separated by newline (\n).
4. Sentences should reflect authentic contemporary usage. Cover at least two different common contexts (e.g. literal + figurative if applicable).
5. If unsure about any field, give your best guess.
"#;

/// The instructions for verbs.
pub const SYSTEM_PROMPT_VERB: &'static str = r#"
你是一位德语动词专家。对于用户提供的每个德语不定式动词，请仅返回 *合法 JSON 数组*，格式示例：

[
  {
    "Wörter": "fahren",
    "Eigenschaft": ["URM", "sein-Perfekt", "A."],
    "释义": "驾驶，行驶",
    "English": "to drive",
    "Beispiel": ["Ich fahre morgen nach Berlin.", "Er fährt das Auto sehr sicher."]
  }
]

字段说明：
1. "Wörter"              → 动词不定式原形
2. "Eigenschaft"         → 列表，可能包含以下标签：
   - "URM"：不规则动词
   - "sein-Perfekt"：Perfekt 时使用助动词 sein
   - "Trennbar"：可分动词
   - "A."：及物动词，仅带第四格（宾格）
   - "D."：及物动词，仅带第三格（与格/间接受格）
   - ["D.","A."]：双及物动词（既带人三格又带物四格）
   - []：不及物动词时留空
3. "释义"                → 简洁中文释义
4. "English"             → 简洁英文释义
5. "Beispiel"            → 列表，包含 2-3 个符合德国人用法的示例句（及物或不及物）

"URM"注意：不规则变化中，符合变位规律的不算，如为了发音方便，在后缀为-d,-t等词后加上一个"e"，"leisten → leistet → leistete → hat geleistet"。若任何一个格式变化都有不规则的变化，则记为URM。
"Eigenschaft"注意: 请一定标识上该动词的及物/不及物属性(为空)，及物后加的格或人三物四的情况。

严格要求：
- 只输出 JSON；不要加其它说明文字。
- 若动词信息不确定，尽量给出最合理判断并保持字段完整。
"#;

/// The instructions for adjectives and adverbs.
pub const SYSTEM_PROMPT_ADJ_ADV: &'static str = r#"
You are a German adjective/adverb expert. For each item, return ONLY a valid JSON array like:

[
  {
    "Wörter": "schnell",
    "Komparativ & Superlativ": "schneller, am schnellsten",
    "释义": "快速的",
    "English": "fast",
    "Beispiel": "Das Auto ist schnell.\nSie arbeitet schnell und effizient."
  }
]

Rules:
1. Only output a JSON array with the specified keys.
2. Provide natural, contemporary example sentences, separated by \n.
"#;

/// The instructions for phrases and reflexive verbs.
pub const SYSTEM_PROMPT_PREP_REFLEX: &'static str = r#"
你是一位德语短语与反身动词专家。对每个给定的短语或带介词/反身的动词形式，输出 仅含 JSON 数组 的结果：

[
  {
    "Wörter": "sich erinnern an",
    "Eigenschaft": ["E-Reflexive","A.(P)"],
    "释义": "使…回忆起；某人想起",
    "English": "remind of; remember",
    "Beispiel": "Ich erinnere mich an meinen ersten Tag in Shanghai.\nErinnerst du dich an unser Gespräch?"
  }
]

注意：输入的短语则对应该短语的用法，不要发散到其他无关用法。
仅输出 JSON 数组，不要包含其他说明文字。
"#;

/// The prompt for nouns where none is configured.
pub fn default_prompt_noun() -> (r: String)
    ensures
        r@ == SYSTEM_PROMPT_NOUN@,
{
    SYSTEM_PROMPT_NOUN.to_string()
}

/// The prompt for verbs where none is configured.
pub fn default_prompt_verb() -> (r: String)
    ensures
        r@ == SYSTEM_PROMPT_VERB@,
{
    SYSTEM_PROMPT_VERB.to_string()
}

/// The prompt for adjectives and adverbs where none is configured.
pub fn default_prompt_adj_adv() -> (r: String)
    ensures
        r@ == SYSTEM_PROMPT_ADJ_ADV@,
{
    SYSTEM_PROMPT_ADJ_ADV.to_string()
}

/// The prompt for phrases and reflexive verbs where none is configured.
pub fn default_prompt_prep_reflex() -> (r: String)
    ensures
        r@ == SYSTEM_PROMPT_PREP_REFLEX@,
{
    SYSTEM_PROMPT_PREP_REFLEX.to_string()
}

} // verus!
