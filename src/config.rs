use vstd::prelude::*;

use crate::error::FuseLlmError;
use crate::text::{chars_of, is_digit, owned, same_text};

verus! {

/// Numeric value of a string of decimal digits.
pub open spec fn digits_value(s: Seq<char>) -> int
    decreases s.len(),
{
    if s.len() == 0 {
        0
    } else {
        digits_value(s.drop_last()) * 10 + (s.last() as int - '0' as int)
    }
}

/// Every character is a decimal digit.
pub open spec fn all_digits(s: Seq<char>) -> bool {
    forall|i: int| 0 <= i < s.len() ==> is_digit(#[trigger] s[i])
}

/// Every character is `0`.
pub open spec fn all_zeros(s: Seq<char>) -> bool {
    forall|i: int| 0 <= i < s.len() ==> #[trigger] s[i] == '0'
}

/// An accepted sampling temperature: a numeral in the closed range from 0
/// to 2, or a negative zero such as `-0.0`.
pub open spec fn temperature_in_range(s: Seq<char>) -> bool {
    ||| nonneg_in_range(s)
    ||| (s.len() > 0 && s[0] == '-' && nonneg_in_range(s.skip(1)) && zero_digits(s.skip(1)))
}

/// Every character is `0` or `.`.
pub open spec fn zero_digits(s: Seq<char>) -> bool {
    forall|i: int| 0 <= i < s.len() ==> (#[trigger] s[i] == '0' || s[i] == '.')
}

/// A decimal numeral `digits` or `digits.digits` whose value lies in the
/// closed range from 0 to 2.
pub open spec fn nonneg_in_range(s: Seq<char>) -> bool {
    ||| (s.len() > 0 && all_digits(s) && digits_value(s) <= 2)
    ||| exists|k: int|
        0 < k < s.len() - 1 && s[k] == '.' && all_digits(#[trigger] s.take(k)) && all_digits(
            s.skip(k + 1),
        ) && (digits_value(s.take(k)) < 2 || (digits_value(s.take(k)) == 2 && all_zeros(
            s.skip(k + 1),
        )))
}

/// A numeral's value is not negative.
pub proof fn lemma_digits_value_nonneg(s: Seq<char>)
    requires
        all_digits(s),
    ensures
        digits_value(s) >= 0,
    decreases s.len(),
{
    if s.len() > 0 {
        lemma_digits_value_nonneg(s.drop_last());
    }
}

/// The value of a run of digits when it is at most 2, and some number above
/// 2 otherwise; the run may be arbitrarily long without overflow.
fn small_digits_value(v: &Vec<char>, lo: usize, hi: usize) -> (r: u64)
    requires
        lo <= hi <= v@.len(),
        all_digits(v@.subrange(lo as int, hi as int)),
    ensures
        digits_value(v@.subrange(lo as int, hi as int)) <= 2 ==> r == digits_value(
            v@.subrange(lo as int, hi as int),
        ),
        digits_value(v@.subrange(lo as int, hi as int)) > 2 ==> r > 2,
{
    let mut val: u64 = 0;
    let mut i: usize = lo;
    while i < hi
        invariant
            lo <= i <= hi <= v@.len(),
            all_digits(v@.subrange(lo as int, hi as int)),
            val <= 29,
            digits_value(v@.subrange(lo as int, i as int)) <= 2 ==> val == digits_value(
                v@.subrange(lo as int, i as int),
            ),
            digits_value(v@.subrange(lo as int, i as int)) > 2 ==> val > 2,
        decreases hi - i,
    {
        let c = v[i];
        proof {
            assert(v@.subrange(lo as int, hi as int)[i - lo] == c);
            let p = v@.subrange(lo as int, i as int);
            let q = v@.subrange(lo as int, i + 1);
            assert(q.drop_last() == p);
            assert(q.last() == c);
            assert(all_digits(p)) by {
                assert forall|t: int| 0 <= t < p.len() implies is_digit(#[trigger] p[t]) by {
                    assert(p[t] == v@.subrange(lo as int, hi as int)[t]);
                }
            }
            lemma_digits_value_nonneg(p);
            let dv = digits_value(p);
            assert(dv * 10 >= dv) by (nonlinear_arith)
                requires
                    dv >= 0,
            ;
        }
        let d = (c as u32 - '0' as u32) as u64;
        if val > 2 {
            val = 3;
        } else {
            val = val * 10 + d;
        }
        i += 1;
    }
    val
}

/// A sampling temperature, held as the decimal numeral that a settings
/// document wrote for it.
#[derive(Debug, Clone)]
pub struct Temperature {
    pub text: String,
}

/// Whether a numeral is a non-negative temperature in range.
fn nonneg_temperature(text: &str) -> (r: bool)
    ensures
        r == nonneg_in_range(text@),
{
    let v = chars_of(text);
    let n = v.len();
    if n == 0 {
        return false;
    }
    let mut dot: usize = n;
    let mut i: usize = 0;
    while i < n
        invariant
            n == v@.len(),
            v@ == text@,
            i <= n,
            dot <= n,
            dot == n ==> forall|t: int| 0 <= t < i ==> is_digit(#[trigger] v@[t]),
            dot < n ==> dot < i && v@[dot as int] == '.' && forall|t: int|
                0 <= t < i && t != dot ==> is_digit(#[trigger] v@[t]),
        decreases n - i,
    {
        let c = v[i];
        if c == '.' && dot == n {
            dot = i;
        } else if !('0' <= c && c <= '9') {
            proof {
                assert(!is_digit(v@[i as int]));
                assert(!all_digits(v@));
                assert(!nonneg_in_range(v@)) by {
                    if exists|k: int|
                        0 < k < v@.len() - 1 && v@[k] == '.' && all_digits(#[trigger] v@.take(k))
                            && all_digits(v@.skip(k + 1)) {
                        let k = choose|k: int|
                            0 < k < v@.len() - 1 && v@[k] == '.' && all_digits(#[trigger] v@.take(k))
                                && all_digits(v@.skip(k + 1));
                        if i < k {
                            assert(v@.take(k)[i as int] == c);
                        } else if i > k {
                            assert(v@.skip(k + 1)[i - k - 1] == c);
                        } else {
                            assert(v@.take(k)[dot as int] == '.');
                        }
                    }
                    assert(!is_digit(v@[i as int]));
                }
            }
            return false;
        }
        i += 1;
    }
    if dot == n {
        proof {
            assert(v@.subrange(0, n as int) == v@);
            assert forall|k: int| 0 < k < v@.len() - 1 implies v@[k] != '.' by {
                assert(is_digit(v@[k]));
            }
        }
        let val = small_digits_value(&v, 0, n);
        return val <= 2;
    }
    if dot == 0 || dot == n - 1 {
        proof {
            assert forall|k: int| 0 < k < v@.len() - 1 implies v@[k] != '.' by {
                if k != dot {
                    assert(is_digit(v@[k]));
                }
            }
            assert(!all_digits(v@)) by {
                assert(!is_digit(v@[dot as int]));
            }
        }
        return false;
    }
    proof {
        assert(v@.take(dot as int) == v@.subrange(0, dot as int));
        assert(v@.skip(dot + 1) == v@.subrange(dot + 1, n as int));
        assert(all_digits(v@.take(dot as int))) by {
            assert forall|t: int| 0 <= t < dot implies is_digit(#[trigger] v@.take(dot as int)[t]) by {
                assert(v@.take(dot as int)[t] == v@[t]);
            }
        }
        assert(all_digits(v@.skip(dot + 1))) by {
            assert forall|t: int| 0 <= t < v@.skip(dot + 1).len() implies is_digit(
                #[trigger] v@.skip(dot + 1)[t],
            ) by {
                assert(v@.skip(dot + 1)[t] == v@[t + dot + 1]);
            }
        }
        assert(!all_digits(v@)) by {
            assert(!is_digit(v@[dot as int]));
        }
        assert forall|k: int| 0 < k < v@.len() - 1 && k != dot implies v@[k] != '.' by {
            assert(is_digit(v@[k]));
        }
    }
    let int_val = small_digits_value(&v, 0, dot);
    if int_val < 2 {
        return true;
    }
    if int_val > 2 {
        return false;
    }
    proof {
        assert(digits_value(v@.take(dot as int)) == 2);
    }
    let mut j: usize = dot + 1;
    while j < n
        invariant
            dot + 1 <= j <= n,
            n == v@.len(),
            v@ == text@,
            0 < dot < n - 1,
            v@[dot as int] == '.',
            digits_value(v@.take(dot as int)) == 2,
            forall|k: int| 0 < k < v@.len() - 1 && k != dot ==> v@[k] != '.',
            forall|t: int| dot + 1 <= t < j ==> #[trigger] v@[t] == '0',
        decreases n - j,
    {
        if v[j] != '0' {
            proof {
                assert(v@.skip(dot + 1)[j - dot - 1] == v@[j as int]);
                assert(!all_zeros(v@.skip(dot + 1)));
                if exists|k: int|
                    0 < k < v@.len() - 1 && v@[k] == '.' && all_digits(#[trigger] v@.take(k)) && all_digits(
                        v@.skip(k + 1),
                    ) && (digits_value(v@.take(k)) < 2 || (digits_value(v@.take(k)) == 2 && all_zeros(
                        v@.skip(k + 1),
                    ))) {
                    let k = choose|k: int|
                        0 < k < v@.len() - 1 && v@[k] == '.' && all_digits(#[trigger] v@.take(k)) && all_digits(
                            v@.skip(k + 1),
                        ) && (digits_value(v@.take(k)) < 2 || (digits_value(v@.take(k)) == 2 && all_zeros(
                            v@.skip(k + 1),
                        )));
                    assert(k == dot);
                }
            }
            return false;
        }
        j += 1;
    }
    proof {
        assert forall|t: int| 0 <= t < v@.skip(dot + 1).len() implies #[trigger] v@.skip(dot + 1)[t] == '0' by {
            assert(v@.skip(dot + 1)[t] == v@[t + dot + 1]);
        }
    }
    true
}

impl Temperature {
    /// Whether the numeral is a temperature in the accepted range.
    pub fn in_range(&self) -> (r: bool)
        ensures
            r == temperature_in_range(self.text@),
    {
        let t = self.text.as_str();
        let n = t.unicode_len();
        if n > 0 && t.get_char(0) == '-' {
            let rest = t.substring_char(1, n);
            proof {
                assert(rest@ =~= t@.skip(1));
            }
            let mut i: usize = 0;
            while i < n - 1
                invariant
                    rest@ == t@.skip(1),
                    n == t@.len(),
                    n > 0,
                    t@[0] == '-',
                    t@ == self.text@,
                    i <= n - 1,
                    forall|k: int| 0 <= k < i ==> (#[trigger] rest@[k] == '0' || rest@[k] == '.'),
                decreases n - 1 - i,
            {
                let c = rest.get_char(i);
                if c != '0' && c != '.' {
                    proof {
                        assert(rest@[i as int] == c);
                        assert(!zero_digits(t@.skip(1)));
                        assert(!nonneg_in_range(t@)) by {
                            assert(!is_digit(t@[0]));
                            if exists|k: int| 0 < k < t@.len() - 1 && t@[k] == '.' && all_digits(#[trigger] t@.take(k)) {
                                let k = choose|k: int| 0 < k < t@.len() - 1 && t@[k] == '.' && all_digits(#[trigger] t@.take(k));
                                assert(t@.take(k)[0] == '-');
                            }
                        }
                    }
                    return false;
                }
                i += 1;
            }
            proof {
                assert(!nonneg_in_range(t@)) by {
                    assert(!is_digit(t@[0]));
                    if exists|k: int| 0 < k < t@.len() - 1 && t@[k] == '.' && all_digits(#[trigger] t@.take(k)) {
                        let k = choose|k: int| 0 < k < t@.len() - 1 && t@[k] == '.' && all_digits(#[trigger] t@.take(k));
                        assert(t@.take(k)[0] == '-');
                    }
                }
            }
            nonneg_temperature(rest)
        } else {
            let r = nonneg_temperature(t);
            proof {
                if n > 0 {
                    assert(t@[0] != '-');
                }
            }
            r
        }
    }
}

/// Model-specific settings. `None` means "not set here", so that a later
/// layer leaves the earlier value in place.
#[derive(Debug, Clone)]
pub struct ModelConfig {
    pub temperature: Option<Temperature>,
    pub system_prompt: Option<String>,
}

/// Mathematical value of a model configuration.
pub struct ModelConfigView {
    pub temperature: Option<Seq<char>>,
    pub system_prompt: Option<Seq<char>>,
}

impl View for ModelConfig {
    type V = ModelConfigView;

    open spec fn view(&self) -> ModelConfigView {
        ModelConfigView {
            temperature: match self.temperature {
                Some(t) => Some(t.text@),
                None => None,
            },
            system_prompt: match self.system_prompt {
                Some(s) => Some(s@),
                None => None,
            },
        }
    }
}

/// Left-to-right overlay: a field set in `over` replaces the one in `base`.
pub open spec fn merged(base: ModelConfigView, over: ModelConfigView) -> ModelConfigView {
    ModelConfigView {
        temperature: if over.temperature is Some { over.temperature } else { base.temperature },
        system_prompt: if over.system_prompt is Some { over.system_prompt } else { base.system_prompt },
    }
}

/// Whether a configuration is acceptable: its temperature, if set, is in range.
pub open spec fn model_config_valid(c: ModelConfigView) -> bool {
    c.temperature matches Some(t) ==> temperature_in_range(t)
}

/// The prompt every configuration starts from.
pub const DEFAULT_SYSTEM_PROMPT: &'static str = "You are a helpful assistant. Everything is a file. Even the LLM.";

/// The temperature every configuration starts from.
pub const DEFAULT_TEMPERATURE: &'static str = "1.0";

impl ModelConfig {
    /// A configuration with every field unset.
    pub fn unset() -> (r: ModelConfig)
        ensures
            r@.temperature is None,
            r@.system_prompt is None,
    {
        ModelConfig { temperature: None, system_prompt: None }
    }

    /// The built-in defaults: temperature 1.0 and the stock system prompt.
    pub fn default() -> (r: ModelConfig)
        ensures
            r@.temperature == Some(DEFAULT_TEMPERATURE@),
            r@.system_prompt == Some(DEFAULT_SYSTEM_PROMPT@),
    {
        ModelConfig {
            temperature: Some(Temperature { text: owned(DEFAULT_TEMPERATURE) }),
            system_prompt: Some(owned(DEFAULT_SYSTEM_PROMPT)),
        }
    }

    /// Checks the temperature range.
    pub fn validate(&self) -> (r: Result<(), FuseLlmError>)
        ensures
            r is Ok <==> model_config_valid(self@),
            r matches Err(e) ==> e is InvalidInput,
    {
        match &self.temperature {
            Some(t) => {
                if t.in_range() {
                    Ok(())
                } else {
                    Err(FuseLlmError::InvalidInput("temperature must be between 0.0 and 2.0".to_string()))
                }
            },
            None => Ok(()),
        }
    }

    /// Overlays `other` on this configuration: each field that `other` sets
    /// replaces this one's.
    pub fn merge(&mut self, other: &ModelConfig)
        ensures
            final(self)@ == merged(old(self)@, other@),
    {
        if let Some(t) = &other.temperature {
            self.temperature = Some(Temperature { text: t.text.clone() });
        }
        if let Some(p) = &other.system_prompt {
            self.system_prompt = Some(p.clone());
        }
    }
}

/// Overlaying a configuration whose fields are all unset changes nothing.
pub proof fn law_merge_unset_is_identity(base: ModelConfigView, over: ModelConfigView)
    requires
        over.temperature is None,
        over.system_prompt is None,
    ensures
        merged(base, over) == base,
{
}

/// Settings of the semantic-search service.
#[derive(Debug, Clone)]
pub struct SemanticSearchConfig {
    pub service_url: Option<String>,
    pub embedding_model: Option<String>,
}

/// The default address of the search service.
pub const DEFAULT_SEARCH_URL: &'static str = "ipc:///tmp/fusellm-semantic.ipc";

impl SemanticSearchConfig {
    /// The local IPC endpoint and no embedding model.
    pub fn default() -> (r: SemanticSearchConfig)
        ensures
            r.service_url matches Some(u) && u@ == DEFAULT_SEARCH_URL@,
            r.embedding_model is None,
    {
        SemanticSearchConfig { service_url: Some(owned(DEFAULT_SEARCH_URL)), embedding_model: None }
    }
}

/// Model names are distinct and none is `default`, the name of the link
/// beside them.
pub open spec fn model_names_ok(names: Seq<Seq<char>>) -> bool {
    crate::state::distinct(names) && !names.contains("default"@)
}

/// Whether a list of texts holds a given one.
pub open spec fn texts_contain(v: Seq<String>, name: Seq<char>) -> bool {
    exists|i: int| 0 <= i < v.len() && (#[trigger] v[i])@ == name
}

/// The global configuration snapshot.
#[derive(Debug)]
pub struct GlobalConfig {
    /// The model that `/models/default` points at.
    pub default_model: Option<String>,
    /// The models offered under `/models` and `/config/models`.
    pub models: Vec<String>,
    /// The bottom layer of every effective configuration.
    pub default_config: ModelConfig,
    /// Per-model overrides, keyed by model name.
    pub model_configs: Vec<(String, ModelConfig)>,
    pub base_url: Option<String>,
    pub api_key: String,
    pub semantic_search: SemanticSearchConfig,
}

/// The override of a model in a list of overrides: the first entry with that
/// name, or an unset configuration.
pub open spec fn override_of(overrides: Seq<(String, ModelConfig)>, model: Seq<char>) -> ModelConfigView
    decreases overrides.len(),
{
    if overrides.len() == 0 {
        ModelConfigView { temperature: None, system_prompt: None }
    } else if overrides[0].0@ == model {
        overrides[0].1@
    } else {
        override_of(overrides.skip(1), model)
    }
}

impl GlobalConfig {
    /// No models, no key, the built-in model defaults and the default search
    /// endpoint.
    pub fn default() -> (r: GlobalConfig)
        ensures
            r.default_model is None,
            r.models@.len() == 0,
            r.default_config@.temperature == Some(DEFAULT_TEMPERATURE@),
            r.default_config@.system_prompt == Some(DEFAULT_SYSTEM_PROMPT@),
            r.model_configs@.len() == 0,
            r.base_url is None,
            r.api_key@.len() == 0,
            r.semantic_search.service_url matches Some(u) && u@ == DEFAULT_SEARCH_URL@,
            r.semantic_search.embedding_model is None,
    {
        GlobalConfig {
            default_model: None,
            models: Vec::new(),
            default_config: ModelConfig::default(),
            model_configs: Vec::new(),
            base_url: None,
            api_key: String::new(),
            semantic_search: SemanticSearchConfig::default(),
        }
    }

    /// Whether every configuration layer is acceptable.
    pub open spec fn valid(&self) -> bool {
        model_config_valid(self.default_config@) && self.valid_overrides() && self.models_ok()
    }

    /// The offered models have distinct names, none of them `default`.
    pub open spec fn models_ok(&self) -> bool {
        model_names_ok(crate::state::texts(self.models@))
    }

    /// Checks the model names.
    pub fn check_models(&self) -> (r: bool)
        ensures
            r == self.models_ok(),
    {
        let n = self.models.len();
        let ghost names = crate::state::texts(self.models@);
        let mut i: usize = 0;
        while i < n
            invariant
                n == self.models@.len(),
                names == crate::state::texts(self.models@),
                i <= n,
                forall|a: int| 0 <= a < i ==> names[a] != "default"@,
                forall|a: int, b: int| 0 <= a < i && 0 <= b < n && a != b ==> names[a] != names[b],
            decreases n - i,
        {
            proof {
                assert(names[i as int] == self.models@[i as int]@);
            }
            if same_text(self.models[i].as_str(), "default") {
                proof {
                    assert(names.contains("default"@));
                }
                return false;
            }
            let mut j: usize = 0;
            while j < n
                invariant
                    n == self.models@.len(),
                    names == crate::state::texts(self.models@),
                    i < n,
                    j <= n,
                    forall|b: int| 0 <= b < j && b != i ==> names[i as int] != names[b],
                decreases n - j,
            {
                proof {
                    assert(names[j as int] == self.models@[j as int]@);
                    assert(names[i as int] == self.models@[i as int]@);
                }
                if j != i && same_text(self.models[i].as_str(), self.models[j].as_str()) {
                    proof {
                        assert(!crate::state::distinct(names));
                    }
                    return false;
                }
                j += 1;
            }
            i += 1;
        }
        proof {
            assert forall|a: int| 0 <= a < names.len() implies names[a] != "default"@ by {}
            if names.contains("default"@) {
                let a = choose|a: int| 0 <= a < names.len() && names[a] == "default"@;
            }
        }
        true
    }

    /// Whether every per-model override is acceptable.
    pub open spec fn valid_overrides(&self) -> bool {
        forall|i: int| 0 <= i < self.model_configs@.len() ==> model_config_valid(
            (#[trigger] self.model_configs@[i]).1@,
        )
    }

    /// Checks the default layer, every per-model override and the model
    /// names.
    pub fn validate(&self) -> (r: Result<(), FuseLlmError>)
        ensures
            r is Ok <==> self.valid(),
            r matches Err(e) ==> e is InvalidInput,
    {
        self.default_config.validate()?;
        let mut i: usize = 0;
        while i < self.model_configs.len()
            invariant
                i <= self.model_configs@.len(),
                model_config_valid(self.default_config@),
                forall|t: int| 0 <= t < i ==> model_config_valid((#[trigger] self.model_configs@[t]).1@),
            decreases self.model_configs@.len() - i,
        {
            self.model_configs[i].1.validate()?;
            i += 1;
        }
        if !self.check_models() {
            return Err(FuseLlmError::InvalidInput(owned("model names must be distinct and not `default`")));
        }
        Ok(())
    }

    /// Whether a model is offered.
    pub fn has_model(&self, name: &str) -> (r: bool)
        ensures
            r == texts_contain(self.models@, name@),
    {
        let mut i: usize = 0;
        while i < self.models.len()
            invariant
                i <= self.models@.len(),
                forall|t: int| 0 <= t < i ==> (#[trigger] self.models@[t])@ != name@,
            decreases self.models@.len() - i,
        {
            if same_text(self.models[i].as_str(), name) {
                return true;
            }
            i += 1;
        }
        false
    }

    /// The override layer of a model.
    pub fn model_override(&self, model: &str) -> (r: ModelConfig)
        ensures
            r@ == override_of(self.model_configs@, model@),
    {
        let mut i: usize = 0;
        proof {
            assert(self.model_configs@.skip(0) =~= self.model_configs@);
        }
        while i < self.model_configs.len()
            invariant
                i <= self.model_configs@.len(),
                override_of(self.model_configs@.skip(i as int), model@) == override_of(
                    self.model_configs@,
                    model@,
                ),
            decreases self.model_configs@.len() - i,
        {
            proof {
                assert(self.model_configs@.skip(i as int).skip(1) =~= self.model_configs@.skip(i + 1));
            }
            if same_text(self.model_configs[i].0.as_str(), model) {
                let c = &self.model_configs[i].1;
                return ModelConfig { temperature: copy_temperature(&c.temperature), system_prompt: copy_text(&c.system_prompt) };
            }
            i += 1;
        }
        ModelConfig::unset()
    }

    /// The configuration of one request: the global defaults, overlaid by
    /// the model's override, overlaid by the caller's own layer.
    pub fn effective_config(&self, model: &str, own: &ModelConfig) -> (r: ModelConfig)
        ensures
            r@ == merged(merged(self.default_config@, override_of(self.model_configs@, model@)), own@),
    {
        let mut r = ModelConfig {
            temperature: copy_temperature(&self.default_config.temperature),
            system_prompt: copy_text(&self.default_config.system_prompt),
        };
        let over = self.model_override(model);
        r.merge(&over);
        r.merge(own);
        r
    }
}

/// A copy of an optional temperature.
pub fn copy_temperature(t: &Option<Temperature>) -> (r: Option<Temperature>)
    ensures
        r matches Some(x) ==> t matches Some(y) && x.text@ == y.text@,
        r is None ==> t is None,
{
    match t {
        Some(x) => Some(Temperature { text: x.text.clone() }),
        None => None,
    }
}

/// A copy of an optional text.
pub fn copy_text(t: &Option<String>) -> (r: Option<String>)
    ensures
        r matches Some(x) ==> t matches Some(y) && x@ == y@,
        r is None ==> t is None,
{
    match t {
        Some(x) => Some(x.clone()),
        None => None,
    }
}

/// The override of a model is the first entry with its name.
pub proof fn lemma_override_at(s: Seq<(String, ModelConfig)>, model: Seq<char>, i: int)
    requires
        0 <= i < s.len(),
        s[i].0@ == model,
        forall|j: int| 0 <= j < i ==> (#[trigger] s[j]).0@ != model,
    ensures
        override_of(s, model) == s[i].1@,
    decreases i,
{
    if i > 0 {
        assert forall|j: int| 0 <= j < i - 1 implies (#[trigger] s.skip(1)[j]).0@ != model by {
            assert(s.skip(1)[j] == s[j + 1]);
        }
        lemma_override_at(s.skip(1), model, i - 1);
    }
}

impl GlobalConfig {
    /// Sets the override layer of a model; the other models' layers stay.
    pub fn set_model_override(&mut self, model: String, config: ModelConfig)
        ensures
            override_of(final(self).model_configs@, model@) == config@,
            forall|m: Seq<char>| m != model@ ==> #[trigger] override_of(final(self).model_configs@, m)
                == override_of(old(self).model_configs@, m),
            final(self).default_config == old(self).default_config,
            final(self).models == old(self).models,
            final(self).default_model == old(self).default_model,
            final(self).valid_overrides() <== old(self).valid_overrides() && model_config_valid(config@),
    {
        let mut i: usize = 0;
        while i < self.model_configs.len()
            invariant
                i <= self.model_configs@.len(),
                forall|j: int| 0 <= j < i ==> (#[trigger] self.model_configs@[j]).0@ != model@,
                *self == *old(self),
            decreases self.model_configs@.len() - i,
        {
            if same_text(self.model_configs[i].0.as_str(), model.as_str()) {
                let ghost before = self.model_configs@;
                let ghost entry = (model, config);
                self.model_configs.set(i, (model, config));
                proof {
                    let after = self.model_configs@;
                    lemma_override_at(after, entry.0@, i as int);
                    assert forall|m: Seq<char>| m != entry.0@ implies #[trigger] override_of(after, m) == override_of(before, m) by {
                        lemma_override_same_elsewhere(before, after, m, i as int);
                    }
                }
                return;
            }
            i += 1;
        }
        let ghost before = self.model_configs@;
        let ghost entry = (model, config);
        self.model_configs.push((model, config));
        proof {
            let after = self.model_configs@;
            assert forall|j: int| 0 <= j < before.len() implies (#[trigger] after[j]).0@ != entry.0@ by {
                assert(after[j] == before[j]);
            }
            lemma_override_at(after, entry.0@, before.len() as int);
            assert forall|m: Seq<char>| m != entry.0@ implies #[trigger] override_of(after, m) == override_of(before, m) by {
                lemma_override_push(before, entry, m);
            }
        }
    }
}

/// Replacing an entry of another model leaves a model's override alone.
pub proof fn lemma_override_same_elsewhere(a: Seq<(String, ModelConfig)>, b: Seq<(String, ModelConfig)>, m: Seq<char>, i: int)
    requires
        a.len() == b.len(),
        0 <= i < a.len(),
        a[i].0@ != m,
        b[i].0@ != m,
        forall|j: int| 0 <= j < a.len() && j != i ==> #[trigger] a[j] == b[j],
    ensures
        override_of(a, m) == override_of(b, m),
    decreases a.len(),
{
    if a.len() > 0 {
        if i == 0 {
            assert(a.skip(1) =~= b.skip(1)) by {
                assert forall|j: int| 0 <= j < a.skip(1).len() implies a.skip(1)[j] == b.skip(1)[j] by {
                    assert(a[j + 1] == b[j + 1]);
                }
            }
        } else {
            assert(a[0] == b[0]);
            assert forall|j: int| 0 <= j < a.skip(1).len() && j != i - 1 implies #[trigger] a.skip(1)[j] == b.skip(1)[j] by {
                assert(a[j + 1] == b[j + 1]);
            }
            lemma_override_same_elsewhere(a.skip(1), b.skip(1), m, i - 1);
        }
    }
}

/// Appending an entry of another model leaves a model's override alone.
pub proof fn lemma_override_push(s: Seq<(String, ModelConfig)>, e: (String, ModelConfig), m: Seq<char>)
    requires
        e.0@ != m,
    ensures
        override_of(s.push(e), m) == override_of(s, m),
    decreases s.len(),
{
    if s.len() == 0 {
        assert(s.push(e).skip(1) =~= Seq::<(String, ModelConfig)>::empty());
        assert(s.push(e)[0] == e);
        assert(override_of(s.push(e).skip(1), m) == override_of(s, m));
    } else {
        assert(s.push(e).skip(1) =~= s.skip(1).push(e));
        assert(s.push(e)[0] == s[0]);
        lemma_override_push(s.skip(1), e, m);
    }
}

} // verus!
