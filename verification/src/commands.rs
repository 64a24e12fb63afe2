//! The commands the frontend invokes: app information and provider
//! management (list, add, update, delete, activate).
//!
//! A command that changes the configuration does not write it: it returns a
//! [`CommandPlan`], which names the config to write, the keychain entry to
//! set or delete, the message to report on success, and the prefixes of the
//! messages that report a failed write.

use crate::config::{
    error_message, key_write_view, keyring_service, lookup_result, position_of, provider_key_id,
    provider_key_name, read_result, with_provider, ConfigError, ConfigErrorView, ConfigFile,
    ConfigManager, ConfigWrite, KeyLookup, KeyWrite,
};
use crate::models::{
    headers_view, opt_view, parse_provider_type, providers_view, AppConfig, AppConfigView,
    ProviderMeta, ProviderMetaView, ProviderType,
};
use crate::text::{join2, join3};
use std::collections::HashMap;
use vstd::prelude::*;

verus! {

/// Name, version and status of the application.
#[derive(Debug)]
pub struct AppInfo {
    pub name: String,
    pub version: String,
    pub status: Option<String>,
}

/// Basic health check: the application's name and version, and that it is
/// running.
pub fn health_check() -> (r: AppInfo)
    ensures
        r.name@ == "ScholarAI"@,
        r.version@ == "0.1.0"@,
        opt_view(r.status) == Some("running"@),
{
    AppInfo {
        name: String::from_str("ScholarAI"),
        version: String::from_str("0.1.0"),
        status: Some(String::from_str("running")),
    }
}

/// The application's name and version.
pub fn get_app_info() -> (r: AppInfo)
    ensures
        r.name@ == "ScholarAI"@,
        r.version@ == "0.1.0"@,
        r.status is None,
{
    AppInfo { name: String::from_str("ScholarAI"), version: String::from_str("0.1.0"), status: None }
}

/// The writes a command asks for, in order: the config file, then the
/// keychain entry to set or to delete.
#[derive(Debug)]
pub struct CommandPlan {
    pub write: ConfigWrite,
    pub key_write: Option<KeyWrite>,
    /// The keychain entry whose API key is to be deleted.
    pub key_delete: Option<String>,
    /// What precedes the error when writing the config file fails.
    pub write_failure: String,
    /// What precedes the error when the keychain operation fails.
    pub key_failure: String,
    /// What the command reports when every write succeeded.
    pub message: String,
}

/// The message that reports a failed step: `prefix` then the error.
pub fn failure_message(prefix: &str, e: &ConfigError) -> (r: String)
    ensures
        r@ == prefix@ + error_message(e@),
{
    let m = e.message();
    join2(prefix, m.as_str())
}

/// The message for a provider type that is not one of the known ones.
pub open spec fn invalid_type_message(t: Seq<char>) -> Seq<char> {
    "Invalid provider_type '"@ + t + "'. Must be one of: openai, anthropic, ollama, openrouter, custom"@
}

fn invalid_type(t: &str) -> (r: String)
    ensures
        r@ == invalid_type_message(t@),
{
    join3(
        "Invalid provider_type '",
        t,
        "'. Must be one of: openai, anthropic, ollama, openrouter, custom",
    )
}

/// The message for a provider id that no provider has.
pub open spec fn not_found_message(id: Seq<char>) -> Seq<char> {
    "Provider '"@ + id + "' not found"@
}

/// Lists all configured providers.
pub fn list_providers(config: &ConfigManager, file: ConfigFile) -> (r: Result<Vec<ProviderMeta>, String>)
    ensures
        match read_result(file) {
            Ok(c) => r matches Ok(ps) && providers_view(ps@) == c.providers,
            Err(e) => r matches Err(m) && m@ == "Failed to read config: "@ + error_message(e),
        },
{
    match config.read_config(file) {
        Ok(c) => Ok(c.providers),
        Err(e) => Err(failure_message("Failed to read config: ", &e)),
    }
}

/// The metadata `add_provider` saves.
pub open spec fn new_provider(
    id: Seq<char>,
    name: Seq<char>,
    t: ProviderType,
    model: Option<Seq<char>>,
    base_url: Option<Seq<char>>,
    has_key: bool,
    extra_headers: Option<Map<String, String>>,
) -> ProviderMetaView {
    ProviderMetaView {
        id,
        name,
        provider_type: t,
        base_url,
        model,
        key_id: if has_key {
            Some(provider_key_id(id))
        } else {
            None
        },
        extra_headers,
    }
}

/// Adds a new AI provider: the provider type is checked first, then the
/// provider is saved (an upsert) with its API key in the keychain.
pub fn add_provider(
    config: &ConfigManager,
    file: ConfigFile,
    id: String,
    name: String,
    provider_type: String,
    model: Option<String>,
    base_url: Option<String>,
    api_key: Option<String>,
    extra_headers: Option<HashMap<String, String>>,
) -> (r: Result<CommandPlan, String>)
    ensures
        match parse_provider_type(provider_type@) {
            None => r matches Err(m) && m@ == invalid_type_message(provider_type@),
            Some(t) => match read_result(file) {
                Err(e) => r matches Err(m) && m@ == "Failed to save provider: "@ + error_message(e),
                Ok(c) => r matches Ok(p) && {
                    let meta = new_provider(
                        id@,
                        name@,
                        t,
                        opt_view(model),
                        opt_view(base_url),
                        api_key is Some,
                        headers_view(extra_headers),
                    );
                    &&& p.write.path@ == config.path()
                    &&& p.write.config@ == with_provider(c, meta)
                    &&& key_write_view(p.key_write) == match api_key {
                        Some(k) => Some((keyring_service(), provider_key_id(id@), k@)),
                        None => None,
                    }
                    &&& p.key_delete is None
                    &&& p.write_failure@ == "Failed to save provider: "@
                    &&& p.key_failure@ == "Failed to save provider: "@
                    &&& p.message@ == "Provider '"@ + id@ + "' added successfully"@
                },
            },
        },
{
    let ptype = match ProviderType::parse(provider_type.as_str()) {
        Some(t) => t,
        None => {
            return Err(invalid_type(provider_type.as_str()));
        },
    };
    let key_id = match &api_key {
        Some(_) => Some(provider_key_name(id.as_str())),
        None => None,
    };
    let message = join3("Provider '", id.as_str(), "' added successfully");
    let meta = ProviderMeta {
        id,
        name,
        provider_type: ptype,
        base_url,
        model,
        key_id,
        extra_headers,
    };
    let key = match &api_key {
        Some(k) => Some(k.as_str()),
        None => None,
    };
    match config.save_provider(file, &meta, key) {
        Err(e) => Err(failure_message("Failed to save provider: ", &e)),
        Ok(save) => {
            Ok(
                CommandPlan {
                    write: save.write,
                    key_write: save.key,
                    key_delete: None,
                    write_failure: String::from_str("Failed to save provider: "),
                    key_failure: String::from_str("Failed to save provider: "),
                    message,
                },
            )
        },
    }
}

/// The value of an optional change to an optional string.
pub open spec fn opt_opt_view(o: Option<Option<String>>) -> Option<Option<Seq<char>>> {
    match o {
        Some(v) => Some(opt_view(v)),
        None => None,
    }
}

/// The value of an optional change to the extra headers.
pub open spec fn headers_patch_view(o: Option<Option<HashMap<String, String>>>) -> Option<
    Option<Map<String, String>>,
> {
    match o {
        Some(v) => Some(headers_view(v)),
        None => None,
    }
}

/// Provider `m` with the given changes applied: each field that has a
/// change takes it, the others are kept; when a new API key is stored, the
/// provider records the keychain entry that holds it.
pub open spec fn patched(
    m: ProviderMetaView,
    name: Option<Seq<char>>,
    t: ProviderType,
    model: Option<Option<Seq<char>>>,
    base_url: Option<Option<Seq<char>>>,
    extra_headers: Option<Option<Map<String, String>>>,
    new_key: bool,
) -> ProviderMetaView {
    ProviderMetaView {
        name: match name {
            Some(n) => n,
            None => m.name,
        },
        provider_type: t,
        model: match model {
            Some(v) => v,
            None => m.model,
        },
        base_url: match base_url {
            Some(v) => v,
            None => m.base_url,
        },
        extra_headers: match extra_headers {
            Some(v) => v,
            None => m.extra_headers,
        },
        key_id: if new_key {
            Some(provider_key_id(m.id))
        } else {
            m.key_id
        },
        ..m
    }
}

/// The provider type after an update: the named type, or the current one
/// when none is named (`None` when the name denotes no type).
pub open spec fn updated_type(current: ProviderType, given: Option<String>) -> Option<ProviderType> {
    match given {
        Some(s) => parse_provider_type(s@),
        None => Some(current),
    }
}

/// A provider update under way: the provider to update and the
/// configuration it was found in. Its API key is read from the keychain
/// next, from the entry "provider-<id>".
#[derive(Debug)]
pub struct UpdateStart {
    pub current: AppConfig,
    pub found: ProviderMeta,
}

/// Starts updating the provider `id`: finds it in the config read from the
/// file.
pub fn begin_update(config: &ConfigManager, file: ConfigFile, id: &str) -> (r: Result<
    UpdateStart,
    String,
>)
    ensures
        match read_result(file) {
            Err(e) => r matches Err(m) && m@ == "Failed to load provider: "@ + error_message(e),
            Ok(c) => match position_of(c.providers, id@) {
                None => r matches Err(m) && m@ == "Failed to load provider: "@ + error_message(
                    ConfigErrorView::ProviderNotFound(id@),
                ),
                Some(k) => r matches Ok(u) && u.current@ == c && u.found@ == c.providers[k],
            },
        },
{
    let current = match config.read_config(file) {
        Ok(c) => c,
        Err(e) => {
            return Err(failure_message("Failed to load provider: ", &e));
        },
    };
    let found = match config.find_provider(ConfigFile::Parsed(current.clone()), id) {
        Ok(m) => m,
        Err(e) => {
            return Err(failure_message("Failed to load provider: ", &e));
        },
    };
    Ok(UpdateStart { current, found })
}

/// Updates an existing AI provider's metadata: with the provider found and
/// its key read (a failed read ends the update), the given changes are
/// applied and the provider is saved again (an upsert); `api_key`, when
/// given, is stored in the keychain and recorded as the provider's key.
pub fn update_provider(
    config: &ConfigManager,
    start: UpdateStart,
    key: KeyLookup,
    name: Option<String>,
    provider_type: Option<String>,
    model: Option<Option<String>>,
    base_url: Option<Option<String>>,
    api_key: Option<String>,
    extra_headers: Option<Option<HashMap<String, String>>>,
) -> (r: Result<CommandPlan, String>)
    ensures
        match lookup_result(key) {
            Err(e) => r matches Err(m) && m@ == "Failed to load provider: "@ + error_message(e),
            Ok(_) => match updated_type(start.found.provider_type, provider_type) {
                None => r matches Err(m) && m@ == invalid_type_message(provider_type->0@),
                Some(t) => r matches Ok(p) && {
                    let meta = patched(
                        start.found@,
                        opt_view(name),
                        t,
                        opt_opt_view(model),
                        opt_opt_view(base_url),
                        headers_patch_view(extra_headers),
                        api_key is Some,
                    );
                    &&& p.write.path@ == config.path()
                    &&& p.write.config@ == with_provider(start.current@, meta)
                    &&& key_write_view(p.key_write) == match api_key {
                        Some(k) => Some((keyring_service(), provider_key_id(meta.id), k@)),
                        None => None,
                    }
                    &&& p.key_delete is None
                    &&& p.write_failure@ == "Failed to update provider: "@
                    &&& p.key_failure@ == "Failed to update provider: "@
                    &&& p.message@ == "Provider '"@ + start.found.id@ + "' updated successfully"@
                },
            },
        },
{
    let UpdateStart { current, found } = start;
    let mut meta = match config.load_provider(found, key) {
        Ok((m, _key)) => m,
        Err(e) => {
            return Err(failure_message("Failed to load provider: ", &e));
        },
    };
    if let Some(n) = name {
        meta.name = n;
    }
    if let Some(ptype_str) = provider_type {
        meta.provider_type = match ProviderType::parse(ptype_str.as_str()) {
            Some(t) => t,
            None => {
                return Err(invalid_type(ptype_str.as_str()));
            },
        };
    }
    if let Some(m) = model {
        meta.model = m;
    }
    if let Some(b) = base_url {
        meta.base_url = b;
    }
    if let Some(h) = extra_headers {
        meta.extra_headers = h;
    }
    let key = match &api_key {
        Some(k) => {
            meta.key_id = Some(provider_key_name(meta.id.as_str()));
            Some(k.as_str())
        },
        None => None,
    };
    let message = join3("Provider '", meta.id.as_str(), "' updated successfully");
    match config.save_provider(ConfigFile::Parsed(current), &meta, key) {
        Err(e) => Err(failure_message("Failed to update provider: ", &e)),
        Ok(save) => Ok(
            CommandPlan {
                write: save.write,
                key_write: save.key,
                key_delete: None,
                write_failure: String::from_str("Failed to update provider: "),
                key_failure: String::from_str("Failed to update provider: "),
                message,
            },
        ),
    }
}

/// The configuration after deleting the provider at position `k`, whose id
/// is `id`: it leaves the providers, and stops being the default provider.
pub open spec fn without_provider(c: AppConfigView, k: int, id: Seq<char>) -> AppConfigView {
    AppConfigView {
        providers: c.providers.remove(k),
        default_provider: if c.default_provider == Some(id) {
            None
        } else {
            c.default_provider
        },
        ..c
    }
}

/// Deletes an AI provider by id: its metadata leaves the config file (the
/// first provider with the id), it stops being the default provider, and
/// its API key leaves the keychain.
pub fn delete_provider(config: &ConfigManager, file: ConfigFile, id: String) -> (r: Result<
    CommandPlan,
    String,
>)
    ensures
        match read_result(file) {
            Err(e) => r matches Err(m) && m@ == "Failed to read config: "@ + error_message(e),
            Ok(c) => {
                match position_of(c.providers, id@) {
                    None => r matches Err(m) && m@ == not_found_message(id@),
                    Some(k) => r matches Ok(p) && {
                        &&& p.write.path@ == config.path()
                        &&& p.write.config@ == without_provider(c, k, id@)
                        &&& p.key_write is None
                        &&& opt_view(p.key_delete) == Some(provider_key_id(id@))
                        &&& p.write_failure@ == "Failed to write config: "@
                        &&& p.key_failure@ == "Failed to delete API key: "@
                        &&& p.message@ == "Provider '"@ + id@ + "' deleted successfully"@
                    },
                }
            },
        },
{
    let mut data = match config.read_config(file) {
        Ok(c) => c,
        Err(e) => {
            return Err(failure_message("Failed to read config: ", &e));
        },
    };
    let idx = match find_position_in(&data, &id) {
        Some(i) => i,
        None => {
            return Err(join3("Provider '", id.as_str(), "' not found"));
        },
    };
    let ghost before = data@;
    let ghost old_ps = data.providers@;
    let _removed = data.providers.remove(idx);
    assert(providers_view(data.providers@) =~= providers_view(old_ps).remove(idx as int));
    let is_default = match &data.default_provider {
        Some(d) => *d == id,
        None => false,
    };
    if is_default {
        data.default_provider = None;
    }
    let write = config.write_config(&data);
    Ok(
        CommandPlan {
            write,
            key_write: None,
            key_delete: Some(provider_key_name(id.as_str())),
            write_failure: String::from_str("Failed to write config: "),
            key_failure: String::from_str("Failed to delete API key: "),
            message: join3("Provider '", id.as_str(), "' deleted successfully"),
        },
    )
}

fn find_position_in(c: &AppConfig, id: &String) -> (r: Option<usize>)
    ensures
        match r {
            Some(k) => position_of(c@.providers, id@) == Some(k as int) && k < c.providers.len(),
            None => position_of(c@.providers, id@) is None,
        },
{
    let r = crate::config::find_position(&c.providers, id);
    proof {
        crate::config::lemma_position_of(c@.providers, id@);
    }
    r
}

/// The configuration with `id` as its default provider.
pub open spec fn with_default(c: AppConfigView, id: Seq<char>) -> AppConfigView {
    AppConfigView { default_provider: Some(id), ..c }
}

/// Sets the default (active) AI provider, which must exist.
pub fn set_active_provider(config: &ConfigManager, file: ConfigFile, id: String) -> (r: Result<
    CommandPlan,
    String,
>)
    ensures
        match read_result(file) {
            Err(e) => r matches Err(m) && m@ == "Failed to read config: "@ + error_message(e),
            Ok(c) => {
                match position_of(c.providers, id@) {
                    None => r matches Err(m) && m@ == not_found_message(id@),
                    Some(_) => r matches Ok(p) && {
                        &&& p.write.path@ == config.path()
                        &&& p.write.config@ == with_default(c, id@)
                        &&& p.key_write is None
                        &&& p.key_delete is None
                        &&& p.write_failure@ == "Failed to write config: "@
                        &&& p.key_failure@ == "Failed to write config: "@
                        &&& p.message@ == "Active provider set to '"@ + id@ + "'"@
                    },
                }
            },
        },
{
    let mut data = match config.read_config(file) {
        Ok(c) => c,
        Err(e) => {
            return Err(failure_message("Failed to read config: ", &e));
        },
    };
    if find_position_in(&data, &id).is_none() {
        return Err(join3("Provider '", id.as_str(), "' not found"));
    }
    let message = join3("Active provider set to '", id.as_str(), "'");
    data.default_provider = Some(id);
    let write = config.write_config(&data);
    Ok(
        CommandPlan {
            write,
            key_write: None,
            key_delete: None,
            write_failure: String::from_str("Failed to write config: "),
            key_failure: String::from_str("Failed to write config: "),
            message,
        },
    )
}

} // verus!
