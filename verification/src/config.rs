//! The configuration manager: provider metadata in `config.json`, API keys
//! in the OS keychain.
//!
//! **Design**: hybrid persistence.
//! - Provider metadata lives in the config file (no API key field, ever).
//! - API keys are stored in the OS keychain under the service "scholar-ai".
//!
//! The manager decides; its caller reads and writes. Each operation takes
//! what reading the config file found ([`ConfigFile`]) and the outcome of any
//! keychain access, and returns the config to write and the keychain entry
//! to set. A provider is found before its keychain entry is read.

use crate::models::{
    empty_config, providers_view, AppConfig, AppConfigView, ProviderMeta, ProviderMetaView,
};
use crate::models::opt_view;
use crate::platform::{command_view, Platform, ProcessCommand, ProcessStatus};
use crate::text::{join2, join3};
use vstd::prelude::*;

verus! {

/// The keychain service under which every API key is stored.
pub open spec fn keyring_service() -> Seq<char> {
    "scholar-ai"@
}

/// Returns the keychain service name, "scholar-ai".
pub fn keyring_service_name() -> (r: &'static str)
    ensures
        r@ == keyring_service(),
{
    "scholar-ai"
}

/// The keychain entry that holds the API key of the provider `id`.
pub open spec fn provider_key_id(id: Seq<char>) -> Seq<char> {
    "provider-"@ + id
}

/// Returns the keychain entry name for the API key of provider `id`: a
/// stable name that does not leak the key.
pub fn provider_key_name(id: &str) -> (r: String)
    ensures
        r@ == provider_key_id(id@),
{
    join2("provider-", id)
}

/// Errors of config and keyring operations.
#[derive(Debug, PartialEq)]
pub enum ConfigError {
    /// Reading or writing the config file failed.
    Io(String),
    /// Encoding the configuration as JSON failed.
    Serde(String),
    /// The config file did not hold a valid configuration; the parser's
    /// description of the fault.
    Corrupted(String),
    /// The OS keychain cannot be reached.
    KeyringUnavailable(String),
    /// A keychain operation failed.
    KeyringError(String),
    /// No provider has the given id.
    ProviderNotFound(String),
}

/// The value of a config error.
pub enum ConfigErrorView {
    Io(Seq<char>),
    Serde(Seq<char>),
    Corrupted(Seq<char>),
    KeyringUnavailable(Seq<char>),
    KeyringError(Seq<char>),
    ProviderNotFound(Seq<char>),
}

impl View for ConfigError {
    type V = ConfigErrorView;

    open spec fn view(&self) -> ConfigErrorView {
        match self {
            ConfigError::Io(s) => ConfigErrorView::Io(s@),
            ConfigError::Serde(s) => ConfigErrorView::Serde(s@),
            ConfigError::Corrupted(s) => ConfigErrorView::Corrupted(s@),
            ConfigError::KeyringUnavailable(s) => ConfigErrorView::KeyringUnavailable(s@),
            ConfigError::KeyringError(s) => ConfigErrorView::KeyringError(s@),
            ConfigError::ProviderNotFound(s) => ConfigErrorView::ProviderNotFound(s@),
        }
    }
}

/// The text that describes a config error.
pub open spec fn error_message(e: ConfigErrorView) -> Seq<char> {
    match e {
        ConfigErrorView::Io(s) => "IO error: "@ + s,
        ConfigErrorView::Serde(s) => "JSON serialization error: "@ + s,
        ConfigErrorView::Corrupted(_) => "Config corrupted — reset recommended"@,
        ConfigErrorView::KeyringUnavailable(_) => "KeyringUnavailable: install libsecret-1-0"@,
        ConfigErrorView::KeyringError(s) => "Keyring operation failed: "@ + s,
        ConfigErrorView::ProviderNotFound(s) => "Provider not found: "@ + s,
    }
}

impl ConfigError {
    /// The text that describes this error.
    pub fn message(&self) -> (r: String)
        ensures
            r@ == error_message(self@),
    {
        match self {
            ConfigError::Io(s) => join2("IO error: ", s.as_str()),
            ConfigError::Serde(s) => join2("JSON serialization error: ", s.as_str()),
            ConfigError::Corrupted(_) => String::from_str("Config corrupted — reset recommended"),
            ConfigError::KeyringUnavailable(_) => String::from_str(
                "KeyringUnavailable: install libsecret-1-0",
            ),
            ConfigError::KeyringError(s) => join2("Keyring operation failed: ", s.as_str()),
            ConfigError::ProviderNotFound(s) => join2("Provider not found: ", s.as_str()),
        }
    }
}

/// The kinds of keychain failure that the manager tells apart.
#[derive(Clone, Copy, Debug, PartialEq, Eq, Structural)]
pub enum KeyringFaultKind {
    /// The keychain holds no such entry.
    NoEntry,
    /// The platform's secure storage failed.
    PlatformFailure,
    /// Any other failure.
    Other,
}

/// A failure reported by the keychain.
#[derive(Debug)]
pub struct KeyringFault {
    pub kind: KeyringFaultKind,
    /// For a platform failure, the description of the underlying error.
    pub detail: String,
    /// The full description of the failure.
    pub display: String,
}

/// A keychain entry: a service and a user within it.
#[derive(Debug)]
pub struct KeyringEntry {
    pub service: String,
    pub user: String,
}

/// A request to store a secret in a keychain entry.
#[derive(Debug)]
pub struct KeyWrite {
    pub entry: KeyringEntry,
    pub secret: String,
}

/// A request to write a configuration to a config file.
#[derive(Debug)]
pub struct ConfigWrite {
    pub path: String,
    pub config: AppConfig,
}

/// What saving a provider writes: the config file, then, when an API key
/// was given, the keychain.
#[derive(Debug)]
pub struct ProviderSave {
    pub write: ConfigWrite,
    pub key: Option<KeyWrite>,
}

/// The outcome of reading an API key from the keychain.
#[derive(Debug)]
pub enum KeyLookup {
    /// The keychain entry could not be created.
    EntryFailed(ConfigError),
    /// The entry holds this key.
    Found(String),
    /// Reading the entry failed.
    Failed(KeyringFault),
}

/// What reading the config file found.
#[derive(Debug)]
pub enum ConfigFile {
    /// There is no config file.
    Missing,
    /// The file holds this configuration.
    Parsed(AppConfig),
    /// The file's contents are not a valid configuration; the parser's
    /// description of the fault.
    Unparsable(String),
    /// The file could not be read; the description of the failure.
    Unreadable(String),
}

/// The configuration in force given what the config file holds, or the
/// error that reading it reports: no file means the empty configuration,
/// and a file that does not parse is reported as corrupted.
pub open spec fn read_result(file: ConfigFile) -> Result<AppConfigView, ConfigErrorView> {
    match file {
        ConfigFile::Missing => Ok(empty_config()),
        ConfigFile::Parsed(c) => Ok(c@),
        ConfigFile::Unparsable(d) => Err(ConfigErrorView::Corrupted(d@)),
        ConfigFile::Unreadable(d) => Err(ConfigErrorView::Io(d@)),
    }
}

/// The providers, in order, whose id is not `id`.
pub open spec fn without_id(ps: Seq<ProviderMetaView>, id: Seq<char>) -> Seq<ProviderMetaView>
    decreases ps.len(),
{
    if ps.len() == 0 {
        ps
    } else if ps.last().id == id {
        without_id(ps.drop_last(), id)
    } else {
        without_id(ps.drop_last(), id).push(ps.last())
    }
}

/// The configuration after saving provider `m`: any provider with its id
/// is replaced by `m`, which comes last.
pub open spec fn with_provider(c: AppConfigView, m: ProviderMetaView) -> AppConfigView {
    AppConfigView { providers: without_id(c.providers, m.id).push(m), ..c }
}

/// The position of the first provider whose id is `id`.
pub open spec fn position_of(ps: Seq<ProviderMetaView>, id: Seq<char>) -> Option<int>
    decreases ps.len(),
{
    if ps.len() == 0 {
        None
    } else if ps[0].id == id {
        Some(0)
    } else {
        match position_of(ps.drop_first(), id) {
            Some(k) => Some(k + 1),
            None => None,
        }
    }
}

/// Whether some provider has the id `id`.
pub open spec fn has_provider(ps: Seq<ProviderMetaView>, id: Seq<char>) -> bool {
    exists|i: int| 0 <= i < ps.len() && (#[trigger] ps[i]).id == id
}

/// `position_of` gives the first provider with the id, and `None` exactly
/// when there is none.
pub proof fn lemma_position_of(ps: Seq<ProviderMetaView>, id: Seq<char>)
    ensures
        match position_of(ps, id) {
            Some(k) => 0 <= k < ps.len() && ps[k].id == id && forall|j: int|
                0 <= j < k ==> (#[trigger] ps[j]).id != id,
            None => forall|j: int| 0 <= j < ps.len() ==> (#[trigger] ps[j]).id != id,
        },
        position_of(ps, id) is Some <==> has_provider(ps, id),
    decreases ps.len(),
{
    if ps.len() > 0 {
        lemma_position_of(ps.drop_first(), id);
        assert forall|j: int| 0 < j < ps.len() implies ps[j] == #[trigger] ps.drop_first()[j - 1] by {}
        if ps[0].id != id {
            match position_of(ps.drop_first(), id) {
                Some(k) => {
                    assert(ps[k + 1] == ps.drop_first()[k]);
                    assert forall|j: int| 0 <= j < k + 1 implies (#[trigger] ps[j]).id != id by {
                        if j > 0 {
                            assert(ps[j] == ps.drop_first()[j - 1]);
                        }
                    }
                },
                None => {
                    assert forall|j: int| 0 <= j < ps.len() implies (#[trigger] ps[j]).id != id by {
                        if j > 0 {
                            assert(ps[j] == ps.drop_first()[j - 1]);
                        }
                    }
                },
            }
        }
    }
}

/// Every provider kept by `without_id` has another id, and the providers
/// with other ids are all kept.
pub proof fn lemma_without_id(ps: Seq<ProviderMetaView>, id: Seq<char>)
    ensures
        forall|i: int| 0 <= i < without_id(ps, id).len() ==> (#[trigger] without_id(ps, id)[i]).id != id,
        forall|i: int|
            0 <= i < ps.len() && (#[trigger] ps[i]).id != id ==> without_id(ps, id).contains(ps[i]),
        forall|x: ProviderMetaView| #[trigger] without_id(ps, id).contains(x) ==> ps.contains(x),
        without_id(ps, id).len() <= ps.len(),
    decreases ps.len(),
{
    if ps.len() > 0 {
        let init = ps.drop_last();
        lemma_without_id(init, id);
        assert forall|i: int| 0 <= i < ps.len() && (#[trigger] ps[i]).id != id implies without_id(
            ps,
            id,
        ).contains(ps[i]) by {
            if i < ps.len() - 1 {
                assert(init[i] == ps[i]);
                let w = without_id(init, id);
                let k = choose|k: int| 0 <= k < w.len() && w[k] == init[i];
                if ps.last().id != id {
                    assert(without_id(ps, id)[k] == ps[i]);
                }
            } else {
                assert(without_id(ps, id).last() == ps[i]);
            }
        }
        assert forall|x: ProviderMetaView| #[trigger] without_id(ps, id).contains(x) implies ps.contains(
            x,
        ) by {
            let w = without_id(ps, id);
            let k = choose|k: int| 0 <= k < w.len() && w[k] == x;
            if ps.last().id != id && k == w.len() - 1 {
                assert(ps[ps.len() - 1] == x);
            } else {
                assert(without_id(init, id)[k] == x);
                assert(without_id(init, id).contains(x));
                let j = choose|j: int| 0 <= j < init.len() && init[j] == x;
                assert(ps[j] == x);
            }
        }
    }
}

/// Keeps, in order, the providers whose id is not `id`.
fn retain_other_ids(ps: &Vec<ProviderMeta>, id: &String) -> (r: Vec<ProviderMeta>)
    ensures
        providers_view(r@) == without_id(providers_view(ps@), id@),
{
    let ghost all = providers_view(ps@);
    let mut r: Vec<ProviderMeta> = Vec::new();
    let mut i: usize = 0;
    while i < ps.len()
        invariant
            i <= ps.len(),
            all == providers_view(ps@),
            providers_view(r@) == without_id(all.take(i as int), id@),
        decreases ps.len() - i,
    {
        assert(all.take(i + 1).drop_last() =~= all.take(i as int));
        assert(all.take(i + 1).last() == ps@[i as int]@);
        if ps[i].id != *id {
            let ghost before = r@;
            r.push(ps[i].clone());
            assert(providers_view(r@) =~= providers_view(before).push(ps@[i as int]@));
        }
        i = i + 1;
    }
    assert(all.take(ps.len() as int) =~= all);
    r
}

/// The position of the first provider whose id is `id`.
pub fn find_position(ps: &Vec<ProviderMeta>, id: &String) -> (r: Option<usize>)
    ensures
        match r {
            Some(k) => position_of(providers_view(ps@), id@) == Some(k as int),
            None => position_of(providers_view(ps@), id@) is None,
        },
{
    let ghost all = providers_view(ps@);
    proof {
        lemma_position_of(all, id@);
    }
    let mut i: usize = 0;
    while i < ps.len()
        invariant
            i <= ps.len(),
            all == providers_view(ps@),
            forall|j: int| 0 <= j < i ==> (#[trigger] all[j]).id != id@,
        decreases ps.len() - i,
    {
        if ps[i].id == *id {
            proof {
                assert(all[i as int].id == id@);
                assert(has_provider(all, id@));
                lemma_position_of(all, id@);
                let k = position_of(all, id@).unwrap();
                assert(all[k].id == id@);
                assert(!(k < i));
                assert(!(k > i)) by {
                    if k > i {
                        assert(all[i as int].id != id@);
                    }
                }
            }
            return Some(i);
        }
        i = i + 1;
    }
    None
}

/// Manages persistent configuration (the config file) and API keys (the OS
/// keychain).
#[derive(Debug)]
pub struct ConfigManager {
    config_path: String,
}

impl ConfigManager {
    /// The path of the config file this manager looks after.
    pub closed spec fn path(&self) -> Seq<char> {
        self.config_path@
    }

    /// Creates a manager for the config file at `config_path`.
    pub fn new(config_path: String) -> (r: ConfigManager)
        ensures
            r.path() == config_path@,
    {
        ConfigManager { config_path }
    }

    /// The path of the config file.
    pub fn config_path(&self) -> (r: String)
        ensures
            r@ == self.path(),
    {
        self.config_path.clone()
    }

    /// Reads the current configuration, given what the config file holds:
    /// the empty configuration when there is no file.
    pub fn read_config(&self, file: ConfigFile) -> (r: Result<AppConfig, ConfigError>)
        ensures
            match r {
                Ok(c) => read_result(file) == Ok::<AppConfigView, ConfigErrorView>(c@),
                Err(e) => read_result(file) == Err::<AppConfigView, ConfigErrorView>(e@),
            },
    {
        match file {
            ConfigFile::Missing => Ok(AppConfig::default()),
            ConfigFile::Parsed(c) => Ok(c),
            ConfigFile::Unparsable(d) => Err(ConfigError::Corrupted(d)),
            ConfigFile::Unreadable(d) => Err(ConfigError::Io(d)),
        }
    }

    /// Writes the supplied configuration to this manager's config file.
    pub fn write_config(&self, config: &AppConfig) -> (r: ConfigWrite)
        ensures
            r.path@ == self.path(),
            r.config@ == config@,
            read_result(ConfigFile::Parsed(r.config)) == Ok::<AppConfigView, ConfigErrorView>(
                config@,
            ),
    {
        ConfigWrite { path: self.config_path.clone(), config: config.clone() }
    }

    /// The keychain entry for `id` under the service "scholar-ai".
    pub fn entry_for(&self, id: &str) -> (r: KeyringEntry)
        ensures
            r.service@ == keyring_service(),
            r.user@ == id@,
    {
        KeyringEntry { service: String::from_str(keyring_service_name()), user: String::from_str(id) }
    }

    /// The error to report when the keychain entry cannot be created: the
    /// keychain is unavailable, and on Linux a platform failure points at
    /// the missing libsecret.
    pub fn entry_error(&self, platform: Platform, fault: &KeyringFault) -> (r: ConfigError)
        ensures
            r@ == (if fault.kind == KeyringFaultKind::PlatformFailure && platform == Platform::Linux {
                ConfigErrorView::KeyringUnavailable(
                    "KeyringUnavailable: install libsecret-1-0 ("@ + fault.detail@ + ")"@,
                )
            } else {
                ConfigErrorView::KeyringUnavailable("KeyringUnavailable: "@ + fault.display@)
            }),
    {
        if fault.kind == KeyringFaultKind::PlatformFailure && platform == Platform::Linux {
            ConfigError::KeyringUnavailable(
                join3("KeyringUnavailable: install libsecret-1-0 (", fault.detail.as_str(), ")"),
            )
        } else {
            ConfigError::KeyringUnavailable(join2("KeyringUnavailable: ", fault.display.as_str()))
        }
    }

    /// The error to report when a keychain operation fails.
    pub fn keyring_error(fault: &KeyringFault) -> (r: ConfigError)
        ensures
            r@ == ConfigErrorView::KeyringError(fault.display@),
    {
        ConfigError::KeyringError(fault.display.clone())
    }

    /// Stores an API key in the OS keychain: the key `key` goes to the
    /// entry `id`. The key is never written to the config file.
    pub fn save_api_key(&self, id: &str, key: &str) -> (r: KeyWrite)
        ensures
            r.entry.service@ == keyring_service(),
            r.entry.user@ == id@,
            r.secret@ == key@,
            lookup_result(KeyLookup::Found(r.secret)) == Ok::<Option<Seq<char>>, ConfigErrorView>(
                Some(key@),
            ),
    {
        KeyWrite { entry: self.entry_for(id), secret: String::from_str(key) }
    }

    /// The API key read from the keychain: `None` when the keychain holds no
    /// such entry; an unavailable keychain is an error.
    pub fn get_api_key(&self, lookup: KeyLookup) -> (r: Result<Option<String>, ConfigError>)
        ensures
            match r {
                Ok(k) => lookup_result(lookup) == Ok::<Option<Seq<char>>, ConfigErrorView>(
                    opt_view(k),
                ),
                Err(e) => lookup_result(lookup) == Err::<Option<Seq<char>>, ConfigErrorView>(e@),
            },
    {
        match lookup {
            KeyLookup::EntryFailed(e) => Err(e),
            KeyLookup::Found(k) => Ok(Some(k)),
            KeyLookup::Failed(f) => {
                if f.kind == KeyringFaultKind::NoEntry {
                    Ok(None)
                } else {
                    Err(ConfigManager::keyring_error(&f))
                }
            },
        }
    }

    /// The command that deletes the keychain entry `id`, by the platform's
    /// own credential manager: `security` on macOS, `cmdkey` on Windows,
    /// `secret-tool` (from libsecret) elsewhere.
    pub fn delete_api_key_command(&self, id: &str, platform: Platform) -> (r: ProcessCommand)
        ensures
            command_view(r) == delete_key_command(id@, platform),
    {
        let mut args: Vec<String> = Vec::new();
        if platform == Platform::MacOs {
            args.push(String::from_str("delete-generic-password"));
            args.push(String::from_str("-s"));
            args.push(String::from_str(keyring_service_name()));
            args.push(String::from_str("-a"));
            args.push(String::from_str(id));
            let r = ProcessCommand { program: String::from_str("security"), args };
            assert(command_view(r).1 =~= delete_key_command(id@, platform).1);
            r
        } else if platform == Platform::Windows {
            args.push(String::from_str("/delete:"));
            args.push(join3(keyring_service_name(), ":", id));
            let r = ProcessCommand { program: String::from_str("cmdkey"), args };
            assert(command_view(r).1 =~= delete_key_command(id@, platform).1);
            r
        } else {
            args.push(String::from_str("clear"));
            args.push(String::from_str("service"));
            args.push(String::from_str(keyring_service_name()));
            args.push(String::from_str("account"));
            args.push(String::from_str(id));
            let r = ProcessCommand { program: String::from_str("secret-tool"), args };
            assert(command_view(r).1 =~= delete_key_command(id@, platform).1);
            r
        }
    }

    /// Deletes an API key from the OS keychain: the verdict on how the
    /// deletion command ended (`Err` when it could not be run). It silently
    /// succeeds when the key does not exist.
    pub fn delete_api_key(&self, id: &str, platform: Platform, outcome: Result<ProcessStatus, String>) -> (r: Result<(), ConfigError>)
        ensures
            match outcome {
                Ok(status) => if delete_tolerated(platform, status) {
                    r is Ok
                } else {
                    r matches Err(e) && e@ == ConfigErrorView::KeyringError(
                        "Platform secure storage failure: "@ + "failed to delete keyring entry for "@
                            + id@,
                    )
                },
                Err(io) => r matches Err(e) && e@ == ConfigErrorView::Io(io@),
            },
    {
        match outcome {
            Ok(status) => {
                if status.success {
                    Ok(())
                } else if platform == Platform::Windows {
                    Ok(())
                } else if platform == Platform::MacOs && (status.code == Some(44i32) || status.code
                    == Some(255i32) || status.code == Some(256i32)) {
                    Ok(())
                } else if platform == Platform::Linux {
                    Ok(())
                } else if (platform == Platform::OtherUnix || platform == Platform::Other)
                    && status.code == Some(1i32) {
                    Ok(())
                } else {
                    let detail = join2("failed to delete keyring entry for ", id);
                    let text = platform_failure_text(detail.as_str());
                    assert(text@ =~= "Platform secure storage failure: "@
                        + "failed to delete keyring entry for "@ + id@);
                    Err(ConfigError::KeyringError(text))
                }
            },
            Err(io) => Err(ConfigError::Io(io)),
        }
    }

    /// Upserts a provider's metadata: the config read from the file, with
    /// any provider of the same id replaced by `meta`, is written back; when
    /// `api_key` is given it goes to the keychain entry "provider-<id>".
    /// The API key is never written to the config file.
    pub fn save_provider(&self, file: ConfigFile, meta: &ProviderMeta, api_key: Option<&str>) -> (r: Result<ProviderSave, ConfigError>)
        ensures
            match read_result(file) {
                Err(e) => r matches Err(re) && re@ == e,
                Ok(c) => r matches Ok(p) && {
                    &&& p.write.path@ == self.path()
                    &&& p.write.config@ == with_provider(c, meta@)
                    &&& key_write_view(p.key) == match api_key {
                        Some(k) => Some((keyring_service(), provider_key_id(meta.id@), k@)),
                        None => None,
                    }
                },
            },
    {
        let mut config = self.read_config(file)?;
        let mut providers = retain_other_ids(&config.providers, &meta.id);
        let ghost kept = providers_view(providers@);
        providers.push(meta.clone());
        assert(providers_view(providers@) =~= kept.push(meta@));
        config.providers = providers;
        let write = ConfigWrite { path: self.config_path.clone(), config };
        let key = match api_key {
            Some(k) => {
                let key_id = provider_key_name(meta.id.as_str());
                Some(self.save_api_key(key_id.as_str(), k))
            },
            None => None,
        };
        Ok(ProviderSave { write, key })
    }

    /// Finds a provider's metadata: the first provider with the id `id` in
    /// the config read from the file. Its API key is then read from the
    /// keychain entry "provider-<id>" and handed to `load_provider`.
    pub fn find_provider(&self, file: ConfigFile, id: &str) -> (r: Result<ProviderMeta, ConfigError>)
        ensures
            match read_result(file) {
                Err(e) => r matches Err(re) && re@ == e,
                Ok(c) => match position_of(c.providers, id@) {
                    None => r matches Err(e) && e@ == ConfigErrorView::ProviderNotFound(id@),
                    Some(k) => r matches Ok(m) && m@ == c.providers[k],
                },
            },
    {
        let config = self.read_config(file)?;
        let wanted = String::from_str(id);
        match find_position(&config.providers, &wanted) {
            None => Err(ConfigError::ProviderNotFound(wanted)),
            Some(k) => {
                proof {
                    lemma_position_of(providers_view(config.providers@), id@);
                }
                Ok(config.providers[k].clone())
            },
        }
    }

    /// Loads a provider: the metadata `find_provider` found, with the API key
    /// that the keychain lookup of its entry gave.
    pub fn load_provider(&self, meta: ProviderMeta, key: KeyLookup) -> (r: Result<(ProviderMeta, Option<String>), ConfigError>)
        ensures
            match lookup_result(key) {
                Ok(found) => r matches Ok((m, rk)) && m@ == meta@ && opt_view(rk) == found,
                Err(e) => r matches Err(re) && re@ == e,
            },
    {
        let api_key = self.get_api_key(key)?;
        Ok((meta, api_key))
    }
}

/// The value `get_api_key` gives for a keychain lookup.
pub open spec fn lookup_result(lookup: KeyLookup) -> Result<Option<Seq<char>>, ConfigErrorView> {
    match lookup {
        KeyLookup::EntryFailed(e) => Err(e@),
        KeyLookup::Found(k) => Ok(Some(k@)),
        KeyLookup::Failed(f) => if f.kind == KeyringFaultKind::NoEntry {
            Ok(None)
        } else {
            Err(ConfigErrorView::KeyringError(f.display@))
        },
    }
}

/// The value of a keychain write: service, entry and secret.
pub open spec fn key_write_view(w: Option<KeyWrite>) -> Option<(Seq<char>, Seq<char>, Seq<char>)> {
    match w {
        Some(w) => Some((w.entry.service@, w.entry.user@, w.secret@)),
        None => None,
    }
}

/// The command that deletes keychain entry `id` on `platform`.
pub open spec fn delete_key_command(id: Seq<char>, platform: Platform) -> (Seq<char>, Seq<Seq<char>>) {
    if platform == Platform::MacOs {
        ("security"@, seq!["delete-generic-password"@, "-s"@, keyring_service(), "-a"@, id])
    } else if platform == Platform::Windows {
        ("cmdkey"@, seq!["/delete:"@, keyring_service() + ":"@ + id])
    } else {
        ("secret-tool"@, seq!["clear"@, "service"@, keyring_service(), "account"@, id])
    }
}

/// Whether the deletion command's exit counts as success: it succeeded, or
/// it reported a missing entry, which is not an error: any failure of
/// `cmdkey` on Windows; exit code 44 (item not found), 255 or 256 of
/// `security` on macOS; any failure of `secret-tool` on Linux; and exit
/// code 1 of `secret-tool` (nothing matched) on the other platforms.
pub open spec fn delete_tolerated(platform: Platform, status: ProcessStatus) -> bool {
    ||| status.success
    ||| platform == Platform::Windows
    ||| platform == Platform::MacOs && (status.code == Some(44i32) || status.code == Some(255i32)
        || status.code == Some(256i32))
    ||| platform == Platform::Linux
    ||| (platform == Platform::OtherUnix || platform == Platform::Other) && status.code == Some(1i32)
}

/// How the keyring crate describes a platform failure whose underlying
/// error reads `detail`.
///
/// This calls `keyring::Error`'s `Display` on a `PlatformFailure` built from
/// `detail`; the contract claims the text that keyring 3.6.3 writes for it
/// ("Platform secure storage failure: " then the underlying error, which for
/// a string is the string itself).
#[verifier::external_body]
fn platform_failure_text(detail: &str) -> (r: String)
    ensures
        r@ == "Platform secure storage failure: "@ + detail@,
{
    keyring::Error::PlatformFailure(detail.to_string().into()).to_string()
}

} // verus!
