//! The configuration data model: providers and the application config.

use std::collections::HashMap;
use vstd::prelude::*;

verus! {

/// The kind of AI service a provider talks to.
#[derive(Clone, Copy, Debug, PartialEq, Eq, Structural)]
pub enum ProviderType {
    OpenAi,
    Anthropic,
    Ollama,
    OpenRouter,
    Custom,
}

/// The name under which a provider type is written and accepted.
pub open spec fn provider_type_name(t: ProviderType) -> Seq<char> {
    match t {
        ProviderType::OpenAi => "openai"@,
        ProviderType::Anthropic => "anthropic"@,
        ProviderType::Ollama => "ollama"@,
        ProviderType::OpenRouter => "openrouter"@,
        ProviderType::Custom => "custom"@,
    }
}

/// The provider type that a name denotes, if any.
pub open spec fn parse_provider_type(s: Seq<char>) -> Option<ProviderType> {
    if s == "openai"@ {
        Some(ProviderType::OpenAi)
    } else if s == "anthropic"@ {
        Some(ProviderType::Anthropic)
    } else if s == "ollama"@ {
        Some(ProviderType::Ollama)
    } else if s == "openrouter"@ {
        Some(ProviderType::OpenRouter)
    } else if s == "custom"@ {
        Some(ProviderType::Custom)
    } else {
        None
    }
}

impl ProviderType {
    /// Parses a provider type from its name ("openai", "anthropic",
    /// "ollama", "openrouter", "custom").
    pub fn parse(s: &str) -> (r: Option<ProviderType>)
        ensures
            r == parse_provider_type(s@),
    {
        let given = String::from_str(s);
        if given == String::from_str("openai") {
            Some(ProviderType::OpenAi)
        } else if given == String::from_str("anthropic") {
            Some(ProviderType::Anthropic)
        } else if given == String::from_str("ollama") {
            Some(ProviderType::Ollama)
        } else if given == String::from_str("openrouter") {
            Some(ProviderType::OpenRouter)
        } else if given == String::from_str("custom") {
            Some(ProviderType::Custom)
        } else {
            None
        }
    }

    /// The name of this provider type.
    pub fn as_str(&self) -> (r: &'static str)
        ensures
            r@ == provider_type_name(*self),
    {
        match self {
            ProviderType::OpenAi => "openai",
            ProviderType::Anthropic => "anthropic",
            ProviderType::Ollama => "ollama",
            ProviderType::OpenRouter => "openrouter",
            ProviderType::Custom => "custom",
        }
    }
}

/// Metadata for an AI provider connection. It holds no API key: the key
/// lives in the OS keychain, under the entry that `key_id` names.
#[derive(Debug, PartialEq)]
pub struct ProviderMeta {
    pub id: String,
    pub name: String,
    pub provider_type: ProviderType,
    pub base_url: Option<String>,
    pub model: Option<String>,
    /// Keychain entry that holds the provider's API key, if it has one.
    pub key_id: Option<String>,
    pub extra_headers: Option<HashMap<String, String>>,
}

/// The value of a provider's metadata.
pub struct ProviderMetaView {
    pub id: Seq<char>,
    pub name: Seq<char>,
    pub provider_type: ProviderType,
    pub base_url: Option<Seq<char>>,
    pub model: Option<Seq<char>>,
    pub key_id: Option<Seq<char>>,
    pub extra_headers: Option<Map<String, String>>,
}

/// The value of an optional string.
pub open spec fn opt_view(s: Option<String>) -> Option<Seq<char>> {
    match s {
        Some(v) => Some(v@),
        None => None,
    }
}

/// The value of optional extra headers.
pub open spec fn headers_view(h: Option<HashMap<String, String>>) -> Option<Map<String, String>> {
    match h {
        Some(m) => Some(m@),
        None => None,
    }
}

impl View for ProviderMeta {
    type V = ProviderMetaView;

    open spec fn view(&self) -> ProviderMetaView {
        ProviderMetaView {
            id: self.id@,
            name: self.name@,
            provider_type: self.provider_type,
            base_url: opt_view(self.base_url),
            model: opt_view(self.model),
            key_id: opt_view(self.key_id),
            extra_headers: headers_view(self.extra_headers),
        }
    }
}

/// Copies an optional string.
pub fn clone_opt_string(s: &Option<String>) -> (r: Option<String>)
    ensures
        opt_view(r) == opt_view(*s),
{
    match s {
        Some(v) => Some(v.clone()),
        None => None,
    }
}

impl Clone for ProviderMeta {
    fn clone(&self) -> (r: Self)
        ensures
            r@ == self@,
    {
        let extra_headers = match &self.extra_headers {
            Some(h) => Some(h.clone()),
            None => None,
        };
        ProviderMeta {
            id: self.id.clone(),
            name: self.name.clone(),
            provider_type: self.provider_type,
            base_url: clone_opt_string(&self.base_url),
            model: clone_opt_string(&self.model),
            key_id: clone_opt_string(&self.key_id),
            extra_headers,
        }
    }
}

/// The application configuration kept in the config file.
#[derive(Debug, PartialEq)]
pub struct AppConfig {
    pub default_provider: Option<String>,
    pub providers: Vec<ProviderMeta>,
    pub theme: Option<String>,
    pub locale: Option<String>,
}

/// The value of the application configuration.
pub struct AppConfigView {
    pub default_provider: Option<Seq<char>>,
    pub providers: Seq<ProviderMetaView>,
    pub theme: Option<Seq<char>>,
    pub locale: Option<Seq<char>>,
}

/// The values of a sequence of providers.
pub open spec fn providers_view(ps: Seq<ProviderMeta>) -> Seq<ProviderMetaView> {
    ps.map_values(|p: ProviderMeta| p@)
}

impl View for AppConfig {
    type V = AppConfigView;

    open spec fn view(&self) -> AppConfigView {
        AppConfigView {
            default_provider: opt_view(self.default_provider),
            providers: providers_view(self.providers@),
            theme: opt_view(self.theme),
            locale: opt_view(self.locale),
        }
    }
}

/// The configuration in force when there is no config file: no providers,
/// no default provider, theme or locale.
pub open spec fn empty_config() -> AppConfigView {
    AppConfigView {
        default_provider: None,
        providers: Seq::empty(),
        theme: None,
        locale: None,
    }
}

impl Default for AppConfig {
    fn default() -> (r: AppConfig)
        ensures
            r@ == empty_config(),
    {
        let r = AppConfig { default_provider: None, providers: Vec::new(), theme: None, locale: None };
        assert(r@.providers =~= Seq::<ProviderMetaView>::empty());
        r
    }
}

/// Copies a sequence of providers.
pub fn clone_providers(ps: &Vec<ProviderMeta>) -> (r: Vec<ProviderMeta>)
    ensures
        providers_view(r@) == providers_view(ps@),
{
    let mut r: Vec<ProviderMeta> = Vec::new();
    let mut i: usize = 0;
    while i < ps.len()
        invariant
            i <= ps.len(),
            r.len() == i,
            forall|j: int| 0 <= j < i ==> (#[trigger] r@[j])@ == ps@[j]@,
        decreases ps.len() - i,
    {
        r.push(ps[i].clone());
        i = i + 1;
    }
    assert(providers_view(r@) =~= providers_view(ps@));
    r
}

impl Clone for AppConfig {
    fn clone(&self) -> (r: Self)
        ensures
            r@ == self@,
    {
        AppConfig {
            default_provider: clone_opt_string(&self.default_provider),
            providers: clone_providers(&self.providers),
            theme: clone_opt_string(&self.theme),
            locale: clone_opt_string(&self.locale),
        }
    }
}

} // verus!
