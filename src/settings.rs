use vstd::prelude::*;

use crate::config::{
    model_config_valid, GlobalConfig, ModelConfig, ModelConfigView, Temperature,
    temperature_in_range,
};
use crate::error::FuseLlmError;
use crate::state::{texts, ConversationConfig};
use crate::text::{owned, same_text};

verus! {

/// A value of a settings document, as plain data.
#[derive(Debug)]
pub enum TomlScalar {
    Text(String),
    /// An integer or float, as the numeral TOML writes for it.
    Number(String),
    Flag(bool),
    /// An array; each element that is a string, and none for the others.
    List(Vec<Option<String>>),
    /// A table, a date, or anything else.
    Other,
}

/// The mathematical value of a document value.
pub enum ScalarView {
    Text(Seq<char>),
    Number(Seq<char>),
    Flag(bool),
    List(Seq<Option<Seq<char>>>),
    Other,
}

/// The texts of a list of optional strings.
pub open spec fn opt_texts(v: Seq<Option<String>>) -> Seq<Option<Seq<char>>> {
    v.map_values(|o: Option<String>| match o {
        Some(s) => Some(s@),
        None => None,
    })
}

impl View for TomlScalar {
    type V = ScalarView;

    open spec fn view(&self) -> ScalarView {
        match self {
            TomlScalar::Text(s) => ScalarView::Text(s@),
            TomlScalar::Number(s) => ScalarView::Number(s@),
            TomlScalar::Flag(b) => ScalarView::Flag(*b),
            TomlScalar::List(v) => ScalarView::List(opt_texts(v@)),
            TomlScalar::Other => ScalarView::Other,
        }
    }
}

/// The mathematical value of a parsed document.
pub open spec fn doc_view(d: Seq<(String, TomlScalar)>) -> Seq<(Seq<char>, ScalarView)> {
    d.map_values(|e: (String, TomlScalar)| (e.0@, e.1@))
}

/// The top-level keys and values of a TOML document, or none when the text
/// is not a TOML document.
pub uninterp spec fn toml_table(text: Seq<char>) -> Option<Seq<(Seq<char>, ScalarView)>>;

/// How TOML writes a text as a string value: quoted and escaped, in the
/// basic, literal or multi-line form that toml chooses for it.
pub uninterp spec fn toml_quoted(s: Seq<char>) -> Seq<char>;

/// Relies on `toml::from_str` into a `toml::Table`: the document's top-level
/// entries, or none when the text is not TOML. Integers and floats become
/// the numeral that `toml::Value`'s `Display` writes for them.
#[verifier::external_body]
fn parse_toml_table(text: &str) -> (r: Option<Vec<(String, TomlScalar)>>)
    ensures
        r matches Some(d) ==> toml_table(text@) == Some(doc_view(d@)),
        r is None ==> toml_table(text@) is None,
{
    let table: toml::Table = toml::from_str(text).ok()?;
    Some(table.into_iter().map(|(k, v)| (k, match v {
        toml::Value::String(s) => TomlScalar::Text(s),
        toml::Value::Boolean(b) => TomlScalar::Flag(b),
        toml::Value::Array(a) => TomlScalar::List(a.iter().map(|x| x.as_str().map(String::from)).collect()),
        v @ (toml::Value::Integer(_) | toml::Value::Float(_)) => TomlScalar::Number(v.to_string()),
        _ => TomlScalar::Other,
    })).collect())
}

/// Relies on `toml::Value::String`'s `Display`: the text as a TOML string
/// value.
#[verifier::external_body]
fn quote_toml(s: &str) -> (r: String)
    ensures
        r@ == toml_quoted(s@),
{
    toml::Value::String(s.to_string()).to_string()
}

/// The value of the first entry with a given key.
pub open spec fn lookup(doc: Seq<(Seq<char>, ScalarView)>, key: Seq<char>) -> Option<ScalarView>
    decreases doc.len(),
{
    if doc.len() == 0 {
        None
    } else if doc[0].0 == key {
        Some(doc[0].1)
    } else {
        lookup(doc.skip(1), key)
    }
}

/// Finds the first entry with a given key.
fn find_setting(doc: &Vec<(String, TomlScalar)>, key: &str) -> (r: Option<usize>)
    ensures
        r matches Some(i) ==> i < doc@.len() && lookup(doc_view(doc@), key@) == Some(doc@[i as int].1@),
        r is None ==> lookup(doc_view(doc@), key@) is None,
{
    let ghost dv = doc_view(doc@);
    let mut i: usize = 0;
    proof {
        assert(dv.skip(0) =~= dv);
    }
    while i < doc.len()
        invariant
            i <= doc@.len(),
            dv == doc_view(doc@),
            lookup(dv.skip(i as int), key@) == lookup(dv, key@),
        decreases doc@.len() - i,
    {
        proof {
            assert(dv.skip(i as int)[0] == dv[i as int]);
            assert(dv.skip(i as int).skip(1) =~= dv.skip(i + 1));
            assert(dv[i as int] == (doc@[i as int].0@, doc@[i as int].1@));
        }
        if same_text(doc[i].0.as_str(), key) {
            return Some(i);
        }
        i += 1;
    }
    proof {
        assert(dv.skip(i as int).len() == 0);
    }
    None
}

/// A text setting: the document's text if it has the key, the current
/// value if not, and none (a type error) if the key holds something else.
pub open spec fn text_setting(doc: Seq<(Seq<char>, ScalarView)>, key: Seq<char>, cur: Option<Seq<char>>) -> Option<
    Option<Seq<char>>,
> {
    match lookup(doc, key) {
        None => Some(cur),
        Some(ScalarView::Text(t)) => Some(Some(t)),
        Some(_) => None,
    }
}

/// A numeric setting, in the same way.
pub open spec fn number_setting(doc: Seq<(Seq<char>, ScalarView)>, key: Seq<char>, cur: Option<Seq<char>>) -> Option<
    Option<Seq<char>>,
> {
    match lookup(doc, key) {
        None => Some(cur),
        Some(ScalarView::Number(t)) => Some(Some(t)),
        Some(_) => None,
    }
}

fn read_text_setting(doc: &Vec<(String, TomlScalar)>, key: &str, cur: &Option<String>) -> (r: Result<Option<String>, FuseLlmError>)
    ensures
        text_setting(doc_view(doc@), key@, opt_view(*cur)) matches Some(v) ==> (r matches Ok(x) && opt_view(x) == v),
        text_setting(doc_view(doc@), key@, opt_view(*cur)) is None ==> (r matches Err(e) && e is InvalidInput),
{
    match find_setting(doc, key) {
        None => Ok(match cur {
            Some(c) => Some(c.clone()),
            None => None,
        }),
        Some(i) => match &doc[i].1 {
            TomlScalar::Text(t) => Ok(Some(t.clone())),
            _ => Err(FuseLlmError::InvalidInput(owned("a setting has the wrong type"))),
        },
    }
}

fn read_number_setting(doc: &Vec<(String, TomlScalar)>, key: &str, cur: &Option<Temperature>) -> (r: Result<Option<Temperature>, FuseLlmError>)
    ensures
        number_setting(doc_view(doc@), key@, temp_view(*cur)) matches Some(v) ==> (r matches Ok(x) && temp_view(x) == v),
        number_setting(doc_view(doc@), key@, temp_view(*cur)) is None ==> (r matches Err(e) && e is InvalidInput),
{
    match find_setting(doc, key) {
        None => Ok(match cur {
            Some(c) => Some(Temperature { text: c.text.clone() }),
            None => None,
        }),
        Some(i) => match &doc[i].1 {
            TomlScalar::Number(t) => Ok(Some(Temperature { text: t.clone() })),
            _ => Err(FuseLlmError::InvalidInput(owned("a setting has the wrong type"))),
        },
    }
}

/// The text of an optional string.
pub open spec fn opt_view(o: Option<String>) -> Option<Seq<char>> {
    match o {
        Some(s) => Some(s@),
        None => None,
    }
}

/// The numeral of an optional temperature.
pub open spec fn temp_view(o: Option<Temperature>) -> Option<Seq<char>> {
    match o {
        Some(t) => Some(t.text@),
        None => None,
    }
}

/// A model configuration after a settings document: `temperature` and
/// `system_prompt` replace the current values; none when a key has the
/// wrong type.
pub open spec fn model_fields(base: ModelConfigView, doc: Seq<(Seq<char>, ScalarView)>) -> Option<ModelConfigView> {
    match (number_setting(doc, "temperature"@, base.temperature), text_setting(doc, "system_prompt"@, base.system_prompt)) {
        (Some(t), Some(s)) => Some(ModelConfigView { temperature: t, system_prompt: s }),
        _ => None,
    }
}

/// Every key of the document is one of the known ones.
pub open spec fn keys_known(doc: Seq<(Seq<char>, ScalarView)>, known: Seq<Seq<char>>) -> bool {
    forall|i: int| 0 <= i < doc.len() ==> known.contains(#[trigger] doc[i].0)
}

/// The texts of a list of string slices.
pub open spec fn strs_view(v: Seq<&str>) -> Seq<Seq<char>> {
    v.map_values(|k: &str| k@)
}

/// The keys of a model settings document.
pub open spec fn model_keys() -> Seq<Seq<char>> {
    seq!["temperature"@, "system_prompt"@]
}

/// The keys of a conversation settings document.
pub open spec fn conv_keys() -> Seq<Seq<char>> {
    seq!["model"@, "system_prompt"@, "temperature"@]
}

/// The keys of the global settings document.
pub open spec fn global_keys() -> Seq<Seq<char>> {
    seq![
        "default_model"@,
        "models"@,
        "temperature"@,
        "system_prompt"@,
        "base_url"@,
        "api_key"@,
        "service_url"@,
        "embedding_model"@,
    ]
}

/// A model configuration after a settings document; none when a key is
/// unknown or has the wrong type.
pub open spec fn model_settings_spec(base: ModelConfigView, doc: Seq<(Seq<char>, ScalarView)>) -> Option<ModelConfigView> {
    if keys_known(doc, model_keys()) { model_fields(base, doc) } else { None }
}

/// A conversation's configuration after a settings document; none when a
/// key is unknown or has the wrong type.
pub open spec fn conv_settings_spec(base: ConversationSettingsView, doc: Seq<(Seq<char>, ScalarView)>) -> Option<ConversationSettingsView> {
    if keys_known(doc, conv_keys()) { conv_fields(base, doc) } else { None }
}

/// A global configuration after a settings document; none when a key is
/// unknown or has the wrong type.
pub open spec fn global_settings_spec(base: GlobalSettingsView, doc: Seq<(Seq<char>, ScalarView)>) -> Option<GlobalSettingsView> {
    if keys_known(doc, global_keys()) { global_fields(base, doc) } else { None }
}

/// Whether every key of a document is one of the known ones.
fn check_keys(doc: &Vec<(String, TomlScalar)>, known: &Vec<&str>) -> (r: bool)
    ensures
        r == keys_known(doc_view(doc@), strs_view(known@)),
{
    let ghost kv = strs_view(known@);
    let mut i: usize = 0;
    while i < doc.len()
        invariant
            i <= doc@.len(),
            kv == strs_view(known@),
            forall|t: int| 0 <= t < i ==> kv.contains(#[trigger] doc_view(doc@)[t].0),
        decreases doc@.len() - i,
    {
        let mut j: usize = 0;
        let mut found = false;
        while j < known.len()
            invariant
                i < doc@.len(),
                j <= known@.len(),
                kv == strs_view(known@),
                found ==> kv.contains(doc@[i as int].0@),
                !found ==> forall|t: int| 0 <= t < j ==> kv[t] != doc@[i as int].0@,
            decreases known@.len() - j,
        {
            proof {
                assert(kv[j as int] == known@[j as int]@);
            }
            if same_text(known[j], doc[i].0.as_str()) {
                found = true;
            }
            j += 1;
        }
        proof {
            assert(doc_view(doc@)[i as int].0 == doc@[i as int].0@);
        }
        if !found {
            proof {
                assert(!kv.contains(doc_view(doc@)[i as int].0));
            }
            return false;
        }
        i += 1;
    }
    true
}

/// Applies a model settings document to a configuration. A text that is
/// not TOML, a key of the wrong type or a temperature out of range is
/// refused with `InvalidInput`.
pub fn apply_model_settings(base: &ModelConfig, text: &str) -> (r: Result<ModelConfig, FuseLlmError>)
    ensures
        r is Ok <==> (toml_table(text@) matches Some(doc) && model_settings_spec(base@, doc) matches Some(c)
            && model_config_valid(c)),
        r matches Ok(c) ==> toml_table(text@) matches Some(doc) && model_settings_spec(base@, doc) == Some(c@),
        r matches Err(e) ==> e is InvalidInput,
{
    let doc = match parse_toml_table(text) {
        Some(d) => d,
        None => return Err(FuseLlmError::InvalidInput(owned("not a TOML document"))),
    };
    let known: Vec<&str> = vec!["temperature", "system_prompt"];
    proof {
        assert(strs_view(known@) =~= model_keys());
    }
    if !check_keys(&doc, &known) {
        return Err(FuseLlmError::InvalidInput(owned("unknown setting")));
    }
    let temperature = read_number_setting(&doc, "temperature", &base.temperature)?;
    let system_prompt = read_text_setting(&doc, "system_prompt", &base.system_prompt)?;
    let c = ModelConfig { temperature, system_prompt };
    c.validate()?;
    Ok(c)
}

/// The view of a conversation's settings.
pub struct ConversationSettingsView {
    pub model: Seq<char>,
    pub system_prompt: Seq<char>,
    pub temperature: Option<Seq<char>>,
}

/// The view of a conversation's configuration.
pub open spec fn conv_config_view(c: ConversationConfig) -> ConversationSettingsView {
    ConversationSettingsView { model: c.model@, system_prompt: c.system_prompt@, temperature: temp_view(c.temperature) }
}

/// A conversation's configuration after a settings document: `model`,
/// `system_prompt` and `temperature` replace the current values.
pub open spec fn conv_fields(base: ConversationSettingsView, doc: Seq<(Seq<char>, ScalarView)>) -> Option<ConversationSettingsView> {
    match (
        text_setting(doc, "model"@, Some(base.model)),
        text_setting(doc, "system_prompt"@, Some(base.system_prompt)),
        number_setting(doc, "temperature"@, base.temperature),
    ) {
        (Some(Some(m)), Some(Some(s)), Some(t)) => Some(ConversationSettingsView { model: m, system_prompt: s, temperature: t }),
        _ => None,
    }
}

/// Whether a conversation configuration is acceptable.
pub open spec fn conv_settings_valid(c: ConversationSettingsView) -> bool {
    c.temperature matches Some(t) ==> temperature_in_range(t)
}

/// Applies a settings document to a conversation's configuration, refusing
/// what `apply_model_settings` refuses.
pub fn apply_conversation_settings(base: &ConversationConfig, text: &str) -> (r: Result<ConversationConfig, FuseLlmError>)
    ensures
        r is Ok <==> (toml_table(text@) matches Some(doc) && conv_settings_spec(conv_config_view(*base), doc) matches Some(
            c,
        ) && conv_settings_valid(c)),
        r matches Ok(c) ==> toml_table(text@) matches Some(doc) && conv_settings_spec(conv_config_view(*base), doc)
            == Some(conv_config_view(c)),
        r matches Err(e) ==> e is InvalidInput,
{
    let doc = match parse_toml_table(text) {
        Some(d) => d,
        None => return Err(FuseLlmError::InvalidInput(owned("not a TOML document"))),
    };
    let known: Vec<&str> = vec!["model", "system_prompt", "temperature"];
    proof {
        assert(strs_view(known@) =~= conv_keys());
    }
    if !check_keys(&doc, &known) {
        return Err(FuseLlmError::InvalidInput(owned("unknown setting")));
    }
    let model = read_text_setting(&doc, "model", &Some(base.model.clone()))?;
    let system_prompt = read_text_setting(&doc, "system_prompt", &Some(base.system_prompt.clone()))?;
    let temperature = read_number_setting(&doc, "temperature", &base.temperature)?;
    let (model, system_prompt) = match (model, system_prompt) {
        (Some(m), Some(s)) => (m, s),
        _ => return Err(FuseLlmError::InvalidInput(owned("a setting has the wrong type"))),
    };
    let t_ok = match &temperature {
        Some(t) => t.in_range(),
        None => true,
    };
    if !t_ok {
        return Err(FuseLlmError::InvalidInput(owned("temperature must be between 0.0 and 2.0")));
    }
    Ok(ConversationConfig { model, system_prompt, temperature })
}

/// The model list after a settings document: an array of strings replaces
/// it; anything else under `models` is a type error.
pub open spec fn models_setting(doc: Seq<(Seq<char>, ScalarView)>, cur: Seq<Seq<char>>) -> Option<Seq<Seq<char>>> {
    match lookup(doc, "models"@) {
        None => Some(cur),
        Some(ScalarView::List(items)) => if forall|i: int| 0 <= i < items.len() ==> (#[trigger] items[i]) is Some {
            Some(items.map_values(|o: Option<Seq<char>>| o->Some_0))
        } else {
            None
        },
        Some(_) => None,
    }
}

fn read_models_setting(doc: &Vec<(String, TomlScalar)>, cur: &Vec<String>) -> (r: Result<Vec<String>, FuseLlmError>)
    ensures
        models_setting(doc_view(doc@), texts(cur@)) matches Some(v) ==> (r matches Ok(x) && texts(x@) == v),
        models_setting(doc_view(doc@), texts(cur@)) is None ==> (r matches Err(e) && e is InvalidInput),
{
    match find_setting(doc, "models") {
        None => {
            let mut v: Vec<String> = Vec::new();
            let mut i: usize = 0;
            while i < cur.len()
                invariant
                    i <= cur@.len(),
                    v@.len() == i,
                    forall|j: int| 0 <= j < i ==> (#[trigger] v@[j])@ == cur@[j]@,
                decreases cur@.len() - i,
            {
                v.push(cur[i].clone());
                i += 1;
            }
            proof {
                assert(texts(v@) =~= texts(cur@));
            }
            Ok(v)
        },
        Some(k) => match &doc[k].1 {
            TomlScalar::List(items) => {
                let mut v: Vec<String> = Vec::new();
                let mut i: usize = 0;
                while i < items.len()
                    invariant
                        k < doc@.len(),
                        lookup(doc_view(doc@), "models"@) == Some(doc@[k as int].1@),
                        doc@[k as int].1@ == ScalarView::List(opt_texts(items@)),
                        i <= items@.len(),
                        v@.len() == i,
                        forall|j: int| 0 <= j < i ==> ((#[trigger] items@[j]) matches Some(s) && v@[j]@ == s@),
                    decreases items@.len() - i,
                {
                    match &items[i] {
                        Some(s) => v.push(s.clone()),
                        None => {
                            proof {
                                let ot = opt_texts(items@);
                                assert(ot[i as int] is None);
                                assert(lookup(doc_view(doc@), "models"@) == Some(ScalarView::List(ot)));
                                assert(!(forall|j: int| 0 <= j < ot.len() ==> (#[trigger] ot[j]) is Some));
                            }
                            return Err(FuseLlmError::InvalidInput(owned("models must be a list of names")));
                        },
                    }
                    i += 1;
                }
                proof {
                    let ot = opt_texts(items@);
                    assert forall|j: int| 0 <= j < ot.len() implies (#[trigger] ot[j]) is Some by {
                        assert(items@[j] is Some);
                    }
                    assert(texts(v@) =~= ot.map_values(|o: Option<Seq<char>>| o->Some_0));
                }
                Ok(v)
            },
            _ => Err(FuseLlmError::InvalidInput(owned("models must be a list of names"))),
        },
    }
}

/// The view of the fields a global settings document sets.
pub struct GlobalSettingsView {
    pub default_model: Option<Seq<char>>,
    pub models: Seq<Seq<char>>,
    pub default_config: ModelConfigView,
    pub base_url: Option<Seq<char>>,
    pub api_key: Seq<char>,
    pub service_url: Option<Seq<char>>,
    pub embedding_model: Option<Seq<char>>,
}

/// The view of a global configuration.
pub open spec fn global_view(c: GlobalConfig) -> GlobalSettingsView {
    GlobalSettingsView {
        default_model: opt_view(c.default_model),
        models: texts(c.models@),
        default_config: c.default_config@,
        base_url: opt_view(c.base_url),
        api_key: c.api_key@,
        service_url: opt_view(c.semantic_search.service_url),
        embedding_model: opt_view(c.semantic_search.embedding_model),
    }
}

/// A global configuration after a settings document: `default_model`,
/// `models`, `temperature`, `system_prompt`, `base_url`, `api_key`,
/// `service_url` and `embedding_model` replace the current values.
pub open spec fn global_fields(base: GlobalSettingsView, doc: Seq<(Seq<char>, ScalarView)>) -> Option<GlobalSettingsView> {
    match (
        text_setting(doc, "default_model"@, base.default_model),
        models_setting(doc, base.models),
        model_fields(base.default_config, doc),
        text_setting(doc, "base_url"@, base.base_url),
        text_setting(doc, "api_key"@, Some(base.api_key)),
        text_setting(doc, "service_url"@, base.service_url),
        text_setting(doc, "embedding_model"@, base.embedding_model),
    ) {
        (Some(d), Some(m), Some(c), Some(b), Some(Some(k)), Some(s), Some(e)) => Some(
            GlobalSettingsView {
                default_model: d,
                models: m,
                default_config: c,
                base_url: b,
                api_key: k,
                service_url: s,
                embedding_model: e,
            },
        ),
        _ => None,
    }
}

/// Applies a global settings document to a snapshot. Per-model overrides
/// are kept. Refuses what `apply_model_settings` refuses, and a model list
/// with a repeated name or the name `default`.
pub fn apply_global_settings(base: &GlobalConfig, text: &str) -> (r: Result<GlobalConfig, FuseLlmError>)
    ensures
        r is Ok <==> (toml_table(text@) matches Some(doc) && global_settings_spec(global_view(*base), doc) matches Some(
            c,
        ) && model_config_valid(c.default_config) && crate::config::model_names_ok(c.models) && base.valid_overrides()),
        r matches Ok(c) ==> toml_table(text@) matches Some(doc) && global_settings_spec(global_view(*base), doc)
            == Some(global_view(c)) && c.model_configs@ == base.model_configs@ && c.valid(),
        r matches Err(e) ==> e is InvalidInput,
{
    let doc = match parse_toml_table(text) {
        Some(d) => d,
        None => return Err(FuseLlmError::InvalidInput(owned("not a TOML document"))),
    };
    let known: Vec<&str> = vec!["default_model", "models", "temperature", "system_prompt", "base_url", "api_key", "service_url", "embedding_model"];
    proof {
        assert(strs_view(known@) =~= global_keys());
    }
    if !check_keys(&doc, &known) {
        return Err(FuseLlmError::InvalidInput(owned("unknown setting")));
    }
    let default_model = read_text_setting(&doc, "default_model", &base.default_model)?;
    let models = read_models_setting(&doc, &base.models)?;
    let temperature = read_number_setting(&doc, "temperature", &base.default_config.temperature)?;
    let system_prompt = read_text_setting(&doc, "system_prompt", &base.default_config.system_prompt)?;
    let base_url = read_text_setting(&doc, "base_url", &base.base_url)?;
    let api_key = match read_text_setting(&doc, "api_key", &Some(base.api_key.clone()))? {
        Some(k) => k,
        None => return Err(FuseLlmError::InvalidInput(owned("a setting has the wrong type"))),
    };
    let service_url = read_text_setting(&doc, "service_url", &base.semantic_search.service_url)?;
    let embedding_model = read_text_setting(&doc, "embedding_model", &base.semantic_search.embedding_model)?;
    let c = GlobalConfig {
        default_model,
        models,
        default_config: ModelConfig { temperature, system_prompt },
        model_configs: copy_overrides(&base.model_configs),
        base_url,
        api_key,
        semantic_search: crate::config::SemanticSearchConfig { service_url, embedding_model },
    };
    proof {
        assert(c.model_configs@ == base.model_configs@);
        assert(c.valid_overrides() == base.valid_overrides());
        assert(global_settings_spec(global_view(*base), doc_view(doc@)) == Some(global_view(c)));
    }
    c.validate()?;
    Ok(c)
}

/// A copy of a list of per-model overrides.
fn copy_overrides(v: &Vec<(String, ModelConfig)>) -> (r: Vec<(String, ModelConfig)>)
    ensures
        r@ == v@,
{
    let mut out: Vec<(String, ModelConfig)> = Vec::new();
    let mut i: usize = 0;
    while i < v.len()
        invariant
            i <= v@.len(),
            out@ == v@.take(i as int),
        decreases v@.len() - i,
    {
        let (n, c) = &v[i];
        let copy = ModelConfig {
            temperature: match &c.temperature {
                Some(t) => Some(Temperature { text: t.text.clone() }),
                None => None,
            },
            system_prompt: match &c.system_prompt {
                Some(s) => Some(s.clone()),
                None => None,
            },
        };
        out.push((n.clone(), copy));
        i += 1;
        proof {
            assert(out@ =~= v@.take(i as int));
        }
    }
    proof {
        assert(v@.take(v@.len() as int) =~= v@);
    }
    out
}

/// A line `key = "text"`.
pub open spec fn text_line(key: Seq<char>, v: Seq<char>) -> Seq<char> {
    key + " = "@ + toml_quoted(v) + "\n"@
}

/// A line `key = numeral`.
pub open spec fn number_line(key: Seq<char>, v: Seq<char>) -> Seq<char> {
    key + " = "@ + v + "\n"@
}

/// A text line when the value is set, nothing otherwise.
pub open spec fn opt_text_line(key: Seq<char>, o: Option<Seq<char>>) -> Seq<char> {
    match o {
        Some(v) => text_line(key, v),
        None => Seq::empty(),
    }
}

/// A numeral line when the value is set, nothing otherwise.
pub open spec fn opt_number_line(key: Seq<char>, o: Option<Seq<char>>) -> Seq<char> {
    match o {
        Some(v) => number_line(key, v),
        None => Seq::empty(),
    }
}

/// Quoted names separated by `, `.
pub open spec fn quoted_list(names: Seq<Seq<char>>) -> Seq<char>
    decreases names.len(),
{
    if names.len() == 0 {
        Seq::empty()
    } else if names.len() == 1 {
        toml_quoted(names[0])
    } else {
        quoted_list(names.drop_last()) + ", "@ + toml_quoted(names.last())
    }
}

/// The settings file of a model configuration.
pub open spec fn model_settings_text(c: ModelConfigView) -> Seq<char> {
    opt_number_line("temperature"@, c.temperature) + opt_text_line("system_prompt"@, c.system_prompt)
}

/// The settings file of a conversation.
pub open spec fn conv_settings_text(c: ConversationSettingsView) -> Seq<char> {
    text_line("model"@, c.model) + text_line("system_prompt"@, c.system_prompt) + opt_number_line(
        "temperature"@,
        c.temperature,
    )
}

/// The global settings file. The API key is not shown.
pub open spec fn global_settings_text(g: GlobalSettingsView) -> Seq<char> {
    opt_text_line("default_model"@, g.default_model) + "models = ["@ + quoted_list(g.models) + "]\n"@
        + model_settings_text(g.default_config) + opt_text_line("base_url"@, g.base_url) + opt_text_line(
        "service_url"@,
        g.service_url,
    ) + opt_text_line("embedding_model"@, g.embedding_model)
}

fn push_text_line(out: &mut String, key: &str, v: &str)
    ensures
        final(out)@ == old(out)@ + text_line(key@, v@),
{
    out.append(key);
    out.append(" = ");
    let q = quote_toml(v);
    out.append(q.as_str());
    out.append("\n");
}

fn push_opt_text_line(out: &mut String, key: &str, v: &Option<String>)
    ensures
        final(out)@ == old(out)@ + opt_text_line(key@, opt_view(*v)),
{
    match v {
        Some(t) => push_text_line(out, key, t.as_str()),
        None => {
            proof {
                assert(old(out)@ + Seq::<char>::empty() =~= old(out)@);
            }
        },
    }
}

fn push_opt_number_line(out: &mut String, key: &str, v: &Option<Temperature>)
    ensures
        final(out)@ == old(out)@ + opt_number_line(key@, temp_view(*v)),
{
    match v {
        Some(t) => {
            out.append(key);
            out.append(" = ");
            out.append(t.text.as_str());
            out.append("\n");
        },
        None => {
            proof {
                assert(old(out)@ + Seq::<char>::empty() =~= old(out)@);
            }
        },
    }
}

/// Renders a model configuration as its settings file.
pub fn render_model_settings(c: &ModelConfig) -> (r: String)
    ensures
        r@ == model_settings_text(c@),
{
    let mut out = String::new();
    push_opt_number_line(&mut out, "temperature", &c.temperature);
    push_opt_text_line(&mut out, "system_prompt", &c.system_prompt);
    proof {
        assert(out@ =~= model_settings_text(c@));
    }
    out
}

/// Renders a conversation's configuration as its settings file.
pub fn render_conversation_settings(c: &ConversationConfig) -> (r: String)
    ensures
        r@ == conv_settings_text(conv_config_view(*c)),
{
    let mut out = String::new();
    push_text_line(&mut out, "model", c.model.as_str());
    push_text_line(&mut out, "system_prompt", c.system_prompt.as_str());
    push_opt_number_line(&mut out, "temperature", &c.temperature);
    proof {
        assert(out@ =~= conv_settings_text(conv_config_view(*c)));
    }
    out
}

/// Renders the global snapshot as its settings file.
pub fn render_global_settings(g: &GlobalConfig) -> (r: String)
    ensures
        r@ == global_settings_text(global_view(*g)),
{
    let mut out = String::new();
    push_opt_text_line(&mut out, "default_model", &g.default_model);
    out.append("models = [");
    let ghost head = out@;
    let mut i: usize = 0;
    while i < g.models.len()
        invariant
            i <= g.models@.len(),
            out@ == head + quoted_list(texts(g.models@).take(i as int)),
        decreases g.models@.len() - i,
    {
        proof {
            let t = texts(g.models@).take(i + 1);
            assert(t.drop_last() =~= texts(g.models@).take(i as int));
            assert(t.last() == g.models@[i as int]@);
        }
        if i > 0 {
            out.append(", ");
        }
        let q = quote_toml(g.models[i].as_str());
        out.append(q.as_str());
        proof {
            if i == 0 {
                assert(texts(g.models@).take(0) =~= Seq::<Seq<char>>::empty());
            }
        }
        i += 1;
    }
    proof {
        assert(texts(g.models@).take(g.models@.len() as int) =~= texts(g.models@));
    }
    out.append("]\n");
    push_opt_number_line(&mut out, "temperature", &g.default_config.temperature);
    push_opt_text_line(&mut out, "system_prompt", &g.default_config.system_prompt);
    push_opt_text_line(&mut out, "base_url", &g.base_url);
    push_opt_text_line(&mut out, "service_url", &g.semantic_search.service_url);
    push_opt_text_line(&mut out, "embedding_model", &g.semantic_search.embedding_model);
    proof {
        assert(out@ =~= global_settings_text(global_view(*g)));
    }
    out
}

/// The view of the built-in configuration.
pub open spec fn default_settings_view() -> GlobalSettingsView {
    GlobalSettingsView {
        default_model: None,
        models: Seq::empty(),
        default_config: ModelConfigView {
            temperature: Some(crate::config::DEFAULT_TEMPERATURE@),
            system_prompt: Some(crate::config::DEFAULT_SYSTEM_PROMPT@),
        },
        base_url: None,
        api_key: Seq::empty(),
        service_url: Some(crate::config::DEFAULT_SEARCH_URL@),
        embedding_model: None,
    }
}

/// Loads a configuration from the text of a settings file: the built-in
/// defaults overlaid by the document. Refuses what `apply_global_settings`
/// refuses.
pub fn parse_global_config(text: &str) -> (r: Result<GlobalConfig, FuseLlmError>)
    ensures
        r is Ok <==> (toml_table(text@) matches Some(doc) && global_settings_spec(default_settings_view(), doc) matches Some(g)
            && model_config_valid(g.default_config) && crate::config::model_names_ok(g.models)),
        r matches Ok(c) ==> toml_table(text@) matches Some(doc) && global_settings_spec(default_settings_view(), doc)
            == Some(global_view(c)) && c.valid() && c.model_configs@.len() == 0,
        r matches Err(e) ==> e is InvalidInput,
{
    let base = GlobalConfig::default();
    proof {
        assert(texts(base.models@) =~= Seq::<Seq<char>>::empty());
        assert(base.api_key@ =~= Seq::<char>::empty());
        assert(global_view(base) == default_settings_view());
    }
    apply_global_settings(&base, text)
}

} // verus!
