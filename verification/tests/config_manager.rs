// The configuration manager: reading, writing, saving and loading providers,
// and the keychain decisions.

use std::collections::HashMap;

use scholar_ai::config::{
    provider_key_name, ConfigError, ConfigFile, ConfigManager, KeyLookup, KeyringFault,
    KeyringFaultKind,
};
use scholar_ai::models::{AppConfig, ProviderMeta, ProviderType};
use scholar_ai::platform::{Platform, ProcessStatus};

fn temp_config_manager() -> ConfigManager {
    ConfigManager::new("scholar-ai-test.json".to_string())
}

fn meta(id: &str, name: &str, t: ProviderType) -> ProviderMeta {
    ProviderMeta {
        id: id.into(),
        name: name.into(),
        provider_type: t,
        base_url: None,
        model: Some("gpt-4o".into()),
        key_id: Some(format!("provider-{}", id)),
        extra_headers: None,
    }
}

#[test]
fn empty_config_roundtrip() {
    let mgr = temp_config_manager();
    let original = AppConfig::default();
    let write = mgr.write_config(&original);

    let loaded = mgr.read_config(ConfigFile::Parsed(write.config)).unwrap();
    assert_eq!(loaded.providers.len(), 0);
    assert!(loaded.default_provider.is_none());
}

#[test]
fn missing_config_file_reads_as_default() {
    let mgr = temp_config_manager();
    let loaded = mgr.read_config(ConfigFile::Missing).unwrap();
    assert_eq!(loaded, AppConfig::default());
    assert_eq!(mgr.config_path(), "scholar-ai-test.json");
}

#[test]
fn write_and_read_providers() {
    let mgr = temp_config_manager();

    let meta1 = ProviderMeta {
        id: "p1".into(),
        name: "OpenAI".into(),
        provider_type: ProviderType::OpenAi,
        base_url: None,
        model: Some("gpt-4o".into()),
        key_id: Some("provider-p1".into()),
        extra_headers: None,
    };

    let meta2 = ProviderMeta {
        id: "p2".into(),
        name: "Ollama".into(),
        provider_type: ProviderType::Ollama,
        base_url: Some("http://localhost:11434".into()),
        model: Some("llama3".into()),
        key_id: Some("provider-p2".into()),
        extra_headers: None,
    };

    let mut config = AppConfig::default();
    config.providers.push(meta1.clone());
    config.providers.push(meta2.clone());

    let write = mgr.write_config(&config);
    assert_eq!(write.path, "scholar-ai-test.json");
    let loaded = mgr.read_config(ConfigFile::Parsed(write.config)).unwrap();

    assert_eq!(loaded.providers.len(), 2);
    assert_eq!(loaded.providers[0].id, "p1");
    assert_eq!(loaded.providers[0].name, "OpenAI");
    assert_eq!(loaded.providers[0].provider_type, ProviderType::OpenAi);
    assert_eq!(loaded.providers[0].model.as_deref(), Some("gpt-4o"));
    assert!(loaded.providers[0].key_id.is_some());

    assert_eq!(loaded.providers[1].id, "p2");
    assert_eq!(loaded.providers[1].provider_type, ProviderType::Ollama);
    assert_eq!(
        loaded.providers[1].base_url.as_deref(),
        Some("http://localhost:11434")
    );
}

#[test]
fn upsert_replaces_existing_provider() {
    let mgr = temp_config_manager();

    let meta_v1 = ProviderMeta {
        id: "p1".into(),
        name: "OpenAI v1".into(),
        provider_type: ProviderType::OpenAi,
        base_url: None,
        model: Some("gpt-4".into()),
        key_id: Some("provider-p1".into()),
        extra_headers: None,
    };

    let meta_v2 = ProviderMeta {
        id: "p1".into(),
        name: "OpenAI v2".into(),
        provider_type: ProviderType::OpenAi,
        base_url: Some("https://api.openai.com/v1".into()),
        model: Some("gpt-4o".into()),
        key_id: Some("provider-p1".into()),
        extra_headers: None,
    };

    let mut config = AppConfig::default();
    config.providers.push(meta_v1);
    let first = mgr.write_config(&config);

    let mut config2 = AppConfig::default();
    config2.providers.push(meta_v2.clone());
    let second = mgr.write_config(&config2);
    drop(first);

    let loaded = mgr.read_config(ConfigFile::Parsed(second.config)).unwrap();
    assert_eq!(loaded.providers.len(), 1);
    assert_eq!(loaded.providers[0].name, "OpenAI v2");
    assert_eq!(
        loaded.providers[0].base_url.as_deref(),
        Some("https://api.openai.com/v1")
    );
}

#[test]
fn default_provider_persists() {
    let mgr = temp_config_manager();

    let config = AppConfig {
        default_provider: Some("p1".into()),
        providers: vec![ProviderMeta {
            id: "p1".into(),
            name: "Test".into(),
            provider_type: ProviderType::OpenAi,
            base_url: None,
            model: Some("gpt-4o".into()),
            key_id: Some("provider-p1".into()),
            extra_headers: None,
        }],
        theme: Some("dark".into()),
        locale: Some("en-US".into()),
    };

    let write = mgr.write_config(&config);
    let loaded = mgr.read_config(ConfigFile::Parsed(write.config)).unwrap();

    assert_eq!(loaded.default_provider.as_deref(), Some("p1"));
    assert_eq!(loaded.theme.as_deref(), Some("dark"));
    assert_eq!(loaded.locale.as_deref(), Some("en-US"));
}

#[test]
fn config_json_roundtrip_preserves_all_metadata() {
    let mgr = temp_config_manager();

    let config = AppConfig {
        default_provider: Some("main".into()),
        providers: vec![
            ProviderMeta {
                id: "main".into(),
                name: "Main Provider".into(),
                provider_type: ProviderType::OpenAi,
                base_url: None,
                model: Some("gpt-4o".into()),
                key_id: Some("provider-main".into()),
                extra_headers: Some(
                    [("X-Custom".to_string(), "value".to_string())]
                        .iter()
                        .cloned()
                        .collect(),
                ),
            },
            ProviderMeta {
                id: "local".into(),
                name: "Local Model".into(),
                provider_type: ProviderType::Ollama,
                base_url: Some("http://localhost:11434".into()),
                model: Some("llama3".into()),
                key_id: None,
                extra_headers: None,
            },
        ],
        theme: Some("dark".into()),
        locale: Some("en-US".into()),
    };

    let write = mgr.write_config(&config);
    let loaded = mgr.read_config(ConfigFile::Parsed(write.config)).unwrap();

    assert_eq!(loaded.default_provider.as_deref(), Some("main"));
    assert_eq!(loaded.providers.len(), 2);
    assert_eq!(loaded.providers[0].extra_headers.as_ref().unwrap()["X-Custom"], "value");
    assert_eq!(loaded.providers[1].base_url.as_deref(), Some("http://localhost:11434"));
    assert!(loaded.providers[0].key_id.is_some());
    assert!(loaded.providers[1].key_id.is_none());
    assert_eq!(loaded, config);
}

#[test]
fn save_provider_upserts_and_sends_key_to_keychain() {
    let mgr = temp_config_manager();
    let mut config = AppConfig::default();
    config.providers.push(meta("a", "A", ProviderType::OpenAi));
    config.providers.push(meta("b", "B", ProviderType::Ollama));
    config.providers.push(meta("c", "C", ProviderType::Custom));
    config.default_provider = Some("b".into());

    let replacement = meta("b", "B2", ProviderType::Anthropic);
    let save = mgr.save_provider(ConfigFile::Parsed(config), &replacement, Some("sk-b")).unwrap();
    let ids: Vec<&str> = save.write.config.providers.iter().map(|p| p.id.as_str()).collect();
    assert_eq!(ids, vec!["a", "c", "b"]);
    assert_eq!(save.write.config.providers[2].name, "B2");
    assert_eq!(save.write.config.default_provider.as_deref(), Some("b"));
    let key = save.key.unwrap();
    assert_eq!(key.entry.service, "scholar-ai");
    assert_eq!(key.entry.user, "provider-b");
    assert_eq!(key.secret, "sk-b");

    let no_key = mgr.save_provider(ConfigFile::Missing, &replacement, None).unwrap();
    assert!(no_key.key.is_none());
    assert_eq!(no_key.write.config.providers.len(), 1);
}

#[test]
fn save_provider_twice_is_save_once() {
    let mgr = temp_config_manager();
    let mut config = AppConfig::default();
    config.providers.push(meta("a", "A", ProviderType::OpenAi));
    let m = meta("n", "N", ProviderType::Ollama);
    let once = mgr.save_provider(ConfigFile::Parsed(config), &m, None).unwrap().write.config;
    let twice = mgr.save_provider(ConfigFile::Parsed(once.clone()), &m, None).unwrap().write.config;
    assert_eq!(once, twice);
}

#[test]
fn api_key_never_changes_saved_config() {
    let mgr = temp_config_manager();
    let m = meta("p1", "P", ProviderType::OpenAi);
    let with_key = mgr.save_provider(ConfigFile::Missing, &m, Some("sk-secret")).unwrap();
    let without_key = mgr.save_provider(ConfigFile::Missing, &m, None).unwrap();
    assert_eq!(with_key.write.config, without_key.write.config);
    let rendered = format!("{:?}", with_key.write.config);
    assert!(!rendered.contains("sk-secret"));
}

#[test]
fn load_provider_finds_saved_provider_and_key() {
    let mgr = temp_config_manager();
    let m = meta("p1", "P", ProviderType::OpenAi);
    let save = mgr.save_provider(ConfigFile::Missing, &m, Some("sk-1")).unwrap();
    let found = mgr.find_provider(ConfigFile::Parsed(save.write.config), "p1").unwrap();
    let (loaded, key) = mgr.load_provider(found, KeyLookup::Found("sk-1".into())).unwrap();
    assert_eq!(loaded, m);
    assert_eq!(key.as_deref(), Some("sk-1"));
}

#[test]
fn load_provider_reports_missing_provider() {
    let mgr = temp_config_manager();
    let r = mgr.find_provider(ConfigFile::Missing, "ghost");
    assert_eq!(r.unwrap_err(), ConfigError::ProviderNotFound("ghost".into()));
}

#[test]
fn corrupt_config_is_reported() {
    let mgr = temp_config_manager();
    let r = mgr.read_config(ConfigFile::Unparsable("expected `,` at line 3".into()));
    let e = r.unwrap_err();
    assert_eq!(e, ConfigError::Corrupted("expected `,` at line 3".into()));
    assert_eq!(e.message(), "Config corrupted — reset recommended");
    let io = mgr.read_config(ConfigFile::Unreadable("permission denied".into())).unwrap_err();
    assert_eq!(io.message(), "IO error: permission denied");
    let m = meta("p1", "P", ProviderType::OpenAi);
    assert_eq!(
        mgr.save_provider(ConfigFile::Unparsable("x".into()), &m, None).unwrap_err(),
        ConfigError::Corrupted("x".into())
    );
}

#[test]
fn load_provider_propagates_keyring_failure() {
    let mgr = temp_config_manager();
    let save = mgr
        .save_provider(ConfigFile::Missing, &meta("p1", "P", ProviderType::OpenAi), None)
        .unwrap();
    let found = mgr.find_provider(ConfigFile::Parsed(save.write.config), "p1").unwrap();
    let fault = KeyringFault {
        kind: KeyringFaultKind::Other,
        detail: String::new(),
        display: "Couldn't access platform secure storage: locked".into(),
    };
    let r = mgr.load_provider(found, KeyLookup::Failed(fault));
    assert_eq!(
        r.unwrap_err().message(),
        "Keyring operation failed: Couldn't access platform secure storage: locked"
    );
}

#[test]
fn get_api_key_outcomes() {
    let mgr = temp_config_manager();
    assert_eq!(mgr.get_api_key(KeyLookup::Found("k".into())), Ok(Some("k".into())));
    let no_entry = KeyringFault {
        kind: KeyringFaultKind::NoEntry,
        detail: String::new(),
        display: "No matching entry found in secure storage".into(),
    };
    assert_eq!(mgr.get_api_key(KeyLookup::Failed(no_entry)), Ok(None));
    let unavailable = ConfigError::KeyringUnavailable("KeyringUnavailable: x".into());
    assert_eq!(
        mgr.get_api_key(KeyLookup::EntryFailed(unavailable)),
        Err(ConfigError::KeyringUnavailable("KeyringUnavailable: x".into()))
    );
    let other = ConfigError::Io("boom".into());
    assert_eq!(
        mgr.get_api_key(KeyLookup::EntryFailed(other)),
        Err(ConfigError::Io("boom".into()))
    );
}

#[test]
fn entry_error_mentions_libsecret_on_linux() {
    let mgr = temp_config_manager();
    let fault = KeyringFault {
        kind: KeyringFaultKind::PlatformFailure,
        detail: "no dbus".into(),
        display: "Platform secure storage failure: no dbus".into(),
    };
    assert_eq!(
        mgr.entry_error(Platform::Linux, &fault),
        ConfigError::KeyringUnavailable("KeyringUnavailable: install libsecret-1-0 (no dbus)".into())
    );
    assert_eq!(
        mgr.entry_error(Platform::MacOs, &fault),
        ConfigError::KeyringUnavailable(
            "KeyringUnavailable: Platform secure storage failure: no dbus".into()
        )
    );
    assert_eq!(
        mgr.entry_error(Platform::Linux, &fault).message(),
        "KeyringUnavailable: install libsecret-1-0"
    );
}

#[test]
fn save_api_key_targets_service_entry() {
    let mgr = temp_config_manager();
    let w = mgr.save_api_key("provider-x", "sk");
    assert_eq!(w.entry.service, "scholar-ai");
    assert_eq!(w.entry.user, "provider-x");
    assert_eq!(w.secret, "sk");
    assert_eq!(provider_key_name("x"), "provider-x");
    let e = mgr.entry_for("abc");
    assert_eq!(e.user, "abc");
}

#[test]
fn delete_api_key_commands() {
    let mgr = temp_config_manager();
    let mac = mgr.delete_api_key_command("provider-x", Platform::MacOs);
    assert_eq!(mac.program, "security");
    assert_eq!(
        mac.args,
        vec!["delete-generic-password", "-s", "scholar-ai", "-a", "provider-x"]
    );
    let win = mgr.delete_api_key_command("provider-x", Platform::Windows);
    assert_eq!(win.program, "cmdkey");
    assert_eq!(win.args, vec!["/delete:", "scholar-ai:provider-x"]);
    let linux = mgr.delete_api_key_command("provider-x", Platform::Linux);
    assert_eq!(linux.program, "secret-tool");
    assert_eq!(
        linux.args,
        vec!["clear", "service", "scholar-ai", "account", "provider-x"]
    );
}

#[test]
fn delete_api_key_outcomes() {
    let mgr = temp_config_manager();
    let ok = ProcessStatus { success: true, code: Some(0) };
    let missing_mac = ProcessStatus { success: false, code: Some(255) };
    let other_fail = ProcessStatus { success: false, code: Some(1) };
    assert_eq!(mgr.delete_api_key("k", Platform::OtherUnix, Ok(ok)), Ok(()));
    assert_eq!(mgr.delete_api_key("k", Platform::MacOs, Ok(missing_mac)), Ok(()));
    assert_eq!(mgr.delete_api_key("k", Platform::Windows, Ok(other_fail)), Ok(()));
    assert_eq!(mgr.delete_api_key("k", Platform::Linux, Ok(other_fail)), Ok(()));
    // secret-tool exits 1 when nothing matches, wherever it is used.
    assert_eq!(mgr.delete_api_key("k", Platform::OtherUnix, Ok(other_fail)), Ok(()));
    assert_eq!(mgr.delete_api_key("k", Platform::Other, Ok(other_fail)), Ok(()));
    let other_code = ProcessStatus { success: false, code: Some(2) };
    assert!(mgr.delete_api_key("k", Platform::OtherUnix, Ok(other_code)).is_err());
    // `security` exits 44 when the item is not found.
    let not_found_mac = ProcessStatus { success: false, code: Some(44) };
    assert_eq!(mgr.delete_api_key("k", Platform::MacOs, Ok(not_found_mac)), Ok(()));
    assert_eq!(
        mgr.delete_api_key("k", Platform::MacOs, Ok(other_fail)),
        Err(ConfigError::KeyringError(
            "Platform secure storage failure: failed to delete keyring entry for k".into()
        ))
    );
    assert_eq!(
        mgr.delete_api_key("k", Platform::Linux, Err("not found".into())),
        Err(ConfigError::Io("not found".into()))
    );
}

#[test]
fn error_messages() {
    assert_eq!(ConfigError::Io("x".into()).message(), "IO error: x");
    assert_eq!(ConfigError::Serde("x".into()).message(), "JSON serialization error: x");
    assert_eq!(ConfigError::KeyringError("x".into()).message(), "Keyring operation failed: x");
    assert_eq!(ConfigError::ProviderNotFound("x".into()).message(), "Provider not found: x");
}

#[test]
fn provider_type_names() {
    for (t, name) in [
        (ProviderType::OpenAi, "openai"),
        (ProviderType::Anthropic, "anthropic"),
        (ProviderType::Ollama, "ollama"),
        (ProviderType::OpenRouter, "openrouter"),
        (ProviderType::Custom, "custom"),
    ] {
        assert_eq!(t.as_str(), name);
        assert_eq!(ProviderType::parse(name), Some(t));
    }
    assert_eq!(ProviderType::parse("OpenAI"), None);
    assert_eq!(ProviderType::parse(""), None);
}

#[test]
fn clone_keeps_every_field() {
    let mut headers = HashMap::new();
    headers.insert("A".to_string(), "1".to_string());
    let m = ProviderMeta {
        id: "i".into(),
        name: "n".into(),
        provider_type: ProviderType::Custom,
        base_url: Some("u".into()),
        model: None,
        key_id: Some("k".into()),
        extra_headers: Some(headers),
    };
    assert_eq!(m.clone(), m);
}
