use vstd::prelude::*;
use crate::clock::now_micros;
use crate::connectors::LLMConnectorType;
use crate::ids::new_uuid;
use crate::llm::{LLM, ParamValue};
use crate::string_map::StrMap;

verus! {

/// The fields the two built-in OpenAI models share: organization, family,
/// licence, requirements, homepage, tags, the OpenAI connector, its
/// configuration, why they are on record, never called, no session
/// parameters and no model file.
pub open spec fn factory_common(l: LLM) -> bool {
    &&& l.organization@ == "openai"@
    &&& l.family_id@ == "gpt"@
    &&& l.license@ == "Closed Source"@
    &&& l.downloaded_reason@ == "Factory Include"@
    &&& l.last_called is None
    &&& l.requirements@ == "An OpenAI Api Key"@
    &&& l.url@ == ""@
    &&& l.homepage@ == "https://platform.openai.com/docs/introduction"@
    &&& l.tags@.len() == 1 && l.tags@[0]@ == "openai"@
    &&& (l.uuid >> 76u128) & 0xfu128 == 4u128
    &&& l.connector_type == LLMConnectorType::OpenAI
    &&& openai_config_holds(l.config@)
    &&& l.session_parameters@ == Map::<Seq<char>, ParamValue>::empty()
    &&& l.user_session_parameters@.len() == 0
    &&& l.model_path is None
}

/// `v` is the JSON string `t`.
pub open spec fn text_value(v: ParamValue, t: Seq<char>) -> bool {
    v matches ParamValue::Text(s) && s@ == t
}

/// `v` is the JSON value written `t`.
pub open spec fn json_value(v: ParamValue, t: Seq<char>) -> bool {
    v matches ParamValue::Json(s) && s@ == t
}

/// The OpenAI connector's configuration: the completions endpoint and the
/// `text-davinci-ada` model.
pub open spec fn openai_config_holds(m: Map<Seq<char>, ParamValue>) -> bool {
    &&& m.dom() == set!["endpoint"@, "model"@]
    &&& text_value(m["endpoint"@], "completions"@)
    &&& text_value(m["model"@], "text-davinci-ada"@)
}

fn text(s: &str) -> (r: String)
    ensures
        r@ == s@,
{
    s.to_owned()
}

fn openai_config() -> (m: StrMap<ParamValue>)
    ensures
        openai_config_holds(m@),
{
    let mut m = StrMap::new();
    m.insert(text("endpoint"), ParamValue::Text(text("completions")));
    m.insert(text("model"), ParamValue::Text(text("text-davinci-ada")));
    proof {
        reveal_strlit("endpoint");
        reveal_strlit("model");
        assert("endpoint"@.len() != "model"@.len());
    }
    assert(m@.dom() =~= set!["endpoint"@, "model"@]);
    m
}

fn capabilities(score: i64) -> (m: StrMap<i64>)
    ensures
        m@ == Map::<Seq<char>, i64>::empty().insert("TEXT_COMPLETION"@, score).insert(
            "CONVERSATION"@,
            score,
        ),
{
    let mut m = StrMap::new();
    m.insert(text("TEXT_COMPLETION"), score);
    m.insert(text("CONVERSATION"), score);
    m
}

/// The LLMs every installation starts with: OpenAI's Ada and GPT-4, each
/// under a fresh UUID and dated now. Ada runs with a temperature of 0.5
/// (which callers may change) and the colour red; GPT-4 with no parameters.
/// Ada does not run locally; GPT-4 is marked as running locally.
pub fn factory_llms() -> (r: Vec<LLM>)
    ensures
        r@.len() == 2,
        factory_common(r@[0]),
        r@[0].id@ == "openai_ada"@,
        r@[0].name@ == "OpenAI Ada"@,
        r@[0].description@ == "openAi's Ada model"@,
        r@[0].capabilities@ == Map::<Seq<char>, i64>::empty().insert("TEXT_COMPLETION"@, 2).insert(
            "CONVERSATION"@,
            2,
        ),
        !r@[0].local,
        r@[0].parameters@.dom() == set!["temperature"@, "color"@],
        json_value(r@[0].parameters@["temperature"@], "0.5"@),
        text_value(r@[0].parameters@["color"@], "red"@),
        r@[0].user_parameters@.len() == 1 && r@[0].user_parameters@[0]@ == "temperature"@,
        factory_common(r@[1]),
        r@[1].id@ == "openai_gpt4"@,
        r@[1].name@ == "OpenAI GPT-4"@,
        r@[1].description@ == "openAi's GPT-4 model"@,
        r@[1].capabilities@ == Map::<Seq<char>, i64>::empty().insert("TEXT_COMPLETION"@, 10).insert(
            "CONVERSATION"@,
            10,
        ),
        r@[1].local,
        r@[1].parameters@ == Map::<Seq<char>, ParamValue>::empty(),
        r@[1].user_parameters@.len() == 0,
{
    let mut ada_parameters = StrMap::new();
    ada_parameters.insert(text("temperature"), ParamValue::Json(text("0.5")));
    ada_parameters.insert(text("color"), ParamValue::Text(text("red")));
    proof {
        reveal_strlit("temperature");
        reveal_strlit("color");
        assert("temperature"@.len() != "color"@.len());
    }
    assert(ada_parameters@.dom() =~= set!["temperature"@, "color"@]);
    let mut ada_user_parameters: Vec<String> = Vec::new();
    ada_user_parameters.push(text("temperature"));
    let mut ada_tags: Vec<String> = Vec::new();
    ada_tags.push(text("openai"));
    let ada = LLM {
        id: text("openai_ada"),
        organization: text("openai"),
        family_id: text("gpt"),
        name: text("OpenAI Ada"),
        license: text("Closed Source"),
        description: text("openAi's Ada model"),
        downloaded_reason: text("Factory Include"),
        downloaded_date: now_micros(),
        last_called: None,
        requirements: text("An OpenAI Api Key"),
        url: text(""),
        homepage: text("https://platform.openai.com/docs/introduction"),
        capabilities: capabilities(2),
        tags: ada_tags,
        uuid: new_uuid(),
        local: false,
        connector_type: LLMConnectorType::OpenAI,
        config: openai_config(),
        parameters: ada_parameters,
        user_parameters: ada_user_parameters,
        session_parameters: StrMap::new(),
        user_session_parameters: Vec::new(),
        model_path: None,
    };
    let mut gpt4_tags: Vec<String> = Vec::new();
    gpt4_tags.push(text("openai"));
    let gpt4 = LLM {
        id: text("openai_gpt4"),
        organization: text("openai"),
        family_id: text("gpt"),
        name: text("OpenAI GPT-4"),
        license: text("Closed Source"),
        description: text("openAi's GPT-4 model"),
        downloaded_reason: text("Factory Include"),
        downloaded_date: now_micros(),
        last_called: None,
        requirements: text("An OpenAI Api Key"),
        url: text(""),
        homepage: text("https://platform.openai.com/docs/introduction"),
        capabilities: capabilities(10),
        tags: gpt4_tags,
        uuid: new_uuid(),
        local: true,
        connector_type: LLMConnectorType::OpenAI,
        config: openai_config(),
        session_parameters: StrMap::new(),
        user_session_parameters: Vec::new(),
        parameters: StrMap::new(),
        user_parameters: Vec::new(),
        model_path: None,
    };
    let mut r: Vec<LLM> = Vec::new();
    r.push(ada);
    r.push(gpt4);
    r
}

} // verus!
