//! What holds of the library as a whole: how saving, loading, deleting and
//! activating providers relate, what every operation keeps, and the bounds
//! of the sidecar's start-up.

use crate::ai_bridge::{
    poll_run, poll_step, status_is_success, stop_command, PollStep, HEALTH_MAX_RETRIES,
};
use crate::commands::{new_provider, patched};
use crate::commands::{with_default, without_provider};
use crate::config::{
    delete_key_command, delete_tolerated, error_message, has_provider, read_result, ConfigFile, lemma_position_of, lemma_without_id, lookup_result,
    position_of, with_provider, without_id, ConfigErrorView, KeyLookup, KeyringFault,
    KeyringFaultKind,
};
use crate::models::{
    parse_provider_type, provider_type_name, AppConfig, AppConfigView, ProviderMetaView, ProviderType,
};
use crate::platform::{Platform, ProcessStatus};
use crate::text::decimal;
use vstd::prelude::*;

verus! {

/// No two providers share an id.
pub open spec fn unique_ids(ps: Seq<ProviderMetaView>) -> bool {
    forall|i: int, j: int|
        0 <= i < j < ps.len() ==> (#[trigger] ps[i]).id != (#[trigger] ps[j]).id
}

/// The default provider, when there is one, is one of the providers.
pub open spec fn default_is_known(c: AppConfigView) -> bool {
    match c.default_provider {
        Some(d) => has_provider(c.providers, d),
        None => true,
    }
}

/// A provider type's name parses back to that type, and a name parses to a
/// type only when it is that type's name.
pub proof fn law_provider_type_name_roundtrip(t: ProviderType, s: Seq<char>)
    ensures
        parse_provider_type(provider_type_name(t)) == Some(t),
        parse_provider_type(s) == Some(t) ==> s == provider_type_name(t),
{
    reveal_strlit("openai");
    reveal_strlit("anthropic");
    reveal_strlit("ollama");
    reveal_strlit("openrouter");
    reveal_strlit("custom");
    assert("ollama"@[1] != "openai"@[1]);
    assert("custom"@[0] != "openai"@[0]);
    assert("custom"@[0] != "ollama"@[0]);
    assert("anthropic"@.len() != "openai"@.len());
    assert("openrouter"@.len() != "openai"@.len());
    assert("ollama"@ != "openai"@);
    assert("custom"@ != "openai"@);
    assert("custom"@ != "ollama"@);
}

proof fn lemma_without_id_idempotent(ps: Seq<ProviderMetaView>, id: Seq<char>)
    ensures
        without_id(without_id(ps, id), id) == without_id(ps, id),
    decreases ps.len(),
{
    if ps.len() > 0 {
        lemma_without_id_idempotent(ps.drop_last(), id);
        let w = without_id(ps.drop_last(), id);
        if ps.last().id != id {
            assert(w.push(ps.last()).drop_last() =~= w);
        }
    }
}

proof fn lemma_without_id_unique(ps: Seq<ProviderMetaView>, id: Seq<char>)
    requires
        unique_ids(ps),
    ensures
        unique_ids(without_id(ps, id)),
    decreases ps.len(),
{
    if ps.len() > 0 {
        let init = ps.drop_last();
        assert(unique_ids(init)) by {
            assert forall|i: int, j: int| 0 <= i < j < init.len() implies (#[trigger] init[i]).id
                != (#[trigger] init[j]).id by {
                assert(init[i] == ps[i] && init[j] == ps[j]);
            }
        }
        lemma_without_id_unique(init, id);
        lemma_without_id(init, id);
        if ps.last().id != id {
            let w = without_id(init, id);
            let v = w.push(ps.last());
            assert forall|i: int, j: int| 0 <= i < j < v.len() implies (#[trigger] v[i]).id != (
            #[trigger] v[j]).id by {
                if j == v.len() - 1 {
                    assert(w.contains(w[i]));
                    assert(init.contains(w[i]));
                    let k = choose|k: int| 0 <= k < init.len() && init[k] == w[i];
                    assert(ps[k] == init[k]);
                    assert(ps[k].id != ps[ps.len() - 1].id);
                } else {
                    assert(v[i] == w[i] && v[j] == w[j]);
                }
            }
        }
    }
}

/// Saving provider `m` and then loading its id gives back `m`: it is the
/// first (and only) provider with that id, and it comes last.
pub proof fn law_save_then_load(c: AppConfigView, m: ProviderMetaView)
    ensures
        ({
            let ps = with_provider(c, m).providers;
            &&& position_of(ps, m.id) == Some(ps.len() - 1)
            &&& ps[ps.len() - 1] == m
        }),
{
    let w = without_id(c.providers, m.id);
    let ps = w.push(m);
    lemma_without_id(c.providers, m.id);
    lemma_position_of(ps, m.id);
    assert(ps[ps.len() - 1] == m);
    assert(has_provider(ps, m.id));
    let k = position_of(ps, m.id).unwrap();
    if k < ps.len() - 1 {
        assert(ps[k] == w[k]);
    }
}

/// Saving a provider replaces any provider with its id: afterwards exactly
/// one provider has that id, every provider with another id is kept (in
/// order), no other provider appears, and the rest of the configuration is
/// unchanged.
pub proof fn law_save_replaces(c: AppConfigView, m: ProviderMetaView)
    ensures
        ({
            let s = with_provider(c, m);
            &&& forall|i: int| 0 <= i < s.providers.len() && (#[trigger] s.providers[i]).id == m.id
                ==> i == s.providers.len() - 1
            &&& forall|i: int|
                0 <= i < c.providers.len() && (#[trigger] c.providers[i]).id != m.id
                    ==> s.providers.contains(c.providers[i])
            &&& forall|x: ProviderMetaView| #[trigger]
                s.providers.contains(x) ==> x == m || c.providers.contains(x)
            &&& s.default_provider == c.default_provider
            &&& s.theme == c.theme
            &&& s.locale == c.locale
        }),
{
    let w = without_id(c.providers, m.id);
    let ps = w.push(m);
    lemma_without_id(c.providers, m.id);
    assert forall|i: int| 0 <= i < ps.len() && (#[trigger] ps[i]).id == m.id implies i == ps.len()
        - 1 by {
        if i < ps.len() - 1 {
            assert(ps[i] == w[i]);
        }
    }
    assert forall|i: int| 0 <= i < c.providers.len() && (#[trigger] c.providers[i]).id != m.id
        implies ps.contains(c.providers[i]) by {
        assert(w.contains(c.providers[i]));
        let k = choose|k: int| 0 <= k < w.len() && w[k] == c.providers[i];
        assert(ps[k] == w[k]);
    }
    assert forall|x: ProviderMetaView| #[trigger] ps.contains(x) implies x == m
        || c.providers.contains(x) by {
        let k = choose|k: int| 0 <= k < ps.len() && ps[k] == x;
        if k < ps.len() - 1 {
            assert(ps[k] == w[k]);
            assert(w.contains(x));
        }
    }
}

/// Saving the same provider twice is the same as saving it once.
pub proof fn law_save_idempotent(c: AppConfigView, m: ProviderMetaView)
    ensures
        with_provider(with_provider(c, m), m) == with_provider(c, m),
{
    let w = without_id(c.providers, m.id);
    lemma_without_id_idempotent(c.providers, m.id);
    assert(w.push(m).drop_last() =~= w);
    assert(without_id(w.push(m), m.id) == without_id(w, m.id));
    assert(with_provider(with_provider(c, m), m).providers =~= with_provider(c, m).providers);
}

/// Deleting a provider right after saving it undoes the save, except that
/// any earlier provider with the same id is gone too: the providers are
/// those of the original config with other ids, and the provider stops
/// being the default.
pub proof fn law_delete_after_save(c: AppConfigView, m: ProviderMetaView)
    ensures
        ({
            let s = with_provider(c, m);
            let k = position_of(s.providers, m.id).unwrap();
            let d = without_provider(s, k, m.id);
            &&& d.providers == without_id(c.providers, m.id)
            &&& d.default_provider == (if c.default_provider == Some(m.id) {
                None
            } else {
                c.default_provider
            })
            &&& d.theme == c.theme
            &&& d.locale == c.locale
        }),
{
    law_save_then_load(c, m);
    let w = without_id(c.providers, m.id);
    assert(w.push(m).remove(w.len() as int) =~= w);
}

/// Saving keeps the providers' ids unique.
pub proof fn law_save_keeps_ids_unique(c: AppConfigView, m: ProviderMetaView)
    requires
        unique_ids(c.providers),
    ensures
        unique_ids(with_provider(c, m).providers),
{
    lemma_without_id_unique(c.providers, m.id);
    lemma_without_id(c.providers, m.id);
    let w = without_id(c.providers, m.id);
    let ps = w.push(m);
    assert forall|i: int, j: int| 0 <= i < j < ps.len() implies (#[trigger] ps[i]).id != (
    #[trigger] ps[j]).id by {
        assert(ps[i] == w[i]);
        if j < ps.len() - 1 {
            assert(ps[j] == w[j]);
        }
    }
}

/// Deleting the provider found at position `k` keeps the ids unique, and
/// when they are unique no provider with the deleted id is left; the others
/// keep their order.
pub proof fn law_delete_removes_provider(c: AppConfigView, id: Seq<char>, k: int)
    requires
        position_of(c.providers, id) == Some(k),
        unique_ids(c.providers),
    ensures
        ({
            let d = without_provider(c, k, id);
            &&& unique_ids(d.providers)
            &&& !has_provider(d.providers, id)
            &&& d.providers.len() == c.providers.len() - 1
            &&& forall|i: int| 0 <= i < k ==> #[trigger] d.providers[i] == c.providers[i]
            &&& forall|i: int| k <= i < d.providers.len() ==> #[trigger] d.providers[i]
                == c.providers[i + 1]
        }),
{
    lemma_position_of(c.providers, id);
    let ps = c.providers;
    let r = ps.remove(k);
    assert forall|i: int, j: int| 0 <= i < j < r.len() implies (#[trigger] r[i]).id != (
    #[trigger] r[j]).id by {
        let a = if i < k {
            i
        } else {
            i + 1
        };
        let b = if j < k {
            j
        } else {
            j + 1
        };
        assert(r[i] == ps[a] && r[j] == ps[b]);
    }
    if has_provider(r, id) {
        let i = choose|i: int| 0 <= i < r.len() && (#[trigger] r[i]).id == id;
        if i < k {
            assert(r[i] == ps[i]);
        } else {
            assert(r[i] == ps[i + 1]);
        }
    }
}

/// Activating a provider makes it the default and changes nothing else.
pub proof fn law_activate_sets_default(c: AppConfigView, id: Seq<char>)
    ensures
        with_default(c, id).default_provider == Some(id),
        with_default(c, id).providers == c.providers,
        with_default(c, id).theme == c.theme,
        with_default(c, id).locale == c.locale,
{
}

/// Every change keeps the default provider one of the providers: saving a
/// provider, deleting the provider found at position `k`, and activating a
/// provider that exists.
pub proof fn law_default_stays_known(c: AppConfigView, m: ProviderMetaView, id: Seq<char>, k: int)
    requires
        default_is_known(c),
    ensures
        default_is_known(with_provider(c, m)),
        position_of(c.providers, id) == Some(k) ==> default_is_known(without_provider(c, k, id)),
        has_provider(c.providers, id) ==> default_is_known(with_default(c, id)),
{
    lemma_without_id(c.providers, m.id);
    let w = without_id(c.providers, m.id);
    let ps = w.push(m);
    if let Some(d) = c.default_provider {
        let i = choose|i: int| 0 <= i < c.providers.len() && (#[trigger] c.providers[i]).id == d;
        if d == m.id {
            assert(ps[ps.len() - 1].id == d);
        } else {
            assert(w.contains(c.providers[i]));
            let j = choose|j: int| 0 <= j < w.len() && w[j] == c.providers[i];
            assert(ps[j] == w[j]);
        }
        assert(has_provider(ps, d));
        if position_of(c.providers, id) == Some(k) {
            lemma_position_of(c.providers, id);
            if d != id {
                let r = c.providers.remove(k);
                if i < k {
                    assert(r[i] == c.providers[i]);
                } else {
                    assert(i != k);
                    assert(r[i - 1] == c.providers[i]);
                }
                assert(has_provider(r, d));
            }
        }
    }
}

proof fn lemma_poll_run_bounded(a: u32, replies: Seq<bool>)
    requires
        1 <= a <= HEALTH_MAX_RETRIES,
    ensures
        0 <= poll_run(a, replies).0 <= HEALTH_MAX_RETRIES - a + 1,
        poll_run(a, replies).1 <==> exists|i: int|
            0 <= i < replies.len() && i <= HEALTH_MAX_RETRIES - a && #[trigger] replies[i],
    decreases replies.len(),
{
    if replies.len() > 0 {
        if !replies[0] && a < HEALTH_MAX_RETRIES {
            let rest = replies.drop_first();
            lemma_poll_run_bounded((a + 1) as u32, rest);
            assert(poll_step(a, replies[0]) == PollStep::Retry { next_attempt: (a + 1) as u32 });
            if exists|i: int|
                0 <= i < replies.len() && i <= HEALTH_MAX_RETRIES - a && #[trigger] replies[i] {
                let i = choose|i: int|
                    0 <= i < replies.len() && i <= HEALTH_MAX_RETRIES - a && #[trigger] replies[i];
                assert(i != 0);
                assert(rest[i - 1] == replies[i]);
            }
            if exists|i: int|
                0 <= i < rest.len() && i <= HEALTH_MAX_RETRIES - (a + 1) && #[trigger] rest[i] {
                let i = choose|i: int|
                    0 <= i < rest.len() && i <= HEALTH_MAX_RETRIES - (a + 1) && #[trigger] rest[i];
                assert(replies[i + 1] == rest[i]);
            }
        } else if !replies[0] {
            if exists|i: int|
                0 <= i < replies.len() && i <= HEALTH_MAX_RETRIES - a && #[trigger] replies[i] {
                let i = choose|i: int|
                    0 <= i < replies.len() && i <= HEALTH_MAX_RETRIES - a && #[trigger] replies[i];
                assert(i == 0);
            }
        }
    }
}

/// The start-up health poll, which begins at attempt 1, sends at most
/// `HEALTH_MAX_RETRIES` requests, and ends healthy exactly when one of the
/// first `HEALTH_MAX_RETRIES` replies is healthy.
pub proof fn law_health_poll_bounded(replies: Seq<bool>)
    ensures
        0 <= poll_run(1, replies).0 <= HEALTH_MAX_RETRIES,
        poll_run(1, replies).1 <==> exists|i: int|
            0 <= i < replies.len() && i < HEALTH_MAX_RETRIES && #[trigger] replies[i],
{
    lemma_poll_run_bounded(1, replies);
}

/// Stopping a running sidecar kills its process on every Unix (macOS, Linux
/// and the others) with `kill <pid>`, and on Windows with
/// `taskkill /PID <pid> /F`; with no sidecar (pid 0) nothing is run.
pub proof fn law_stop_kills_running_sidecar(pid: u32, platform: Platform)
    ensures
        pid != 0 && (platform == Platform::MacOs || platform == Platform::Linux || platform
            == Platform::OtherUnix) ==> stop_command(pid, platform) == Some(
            ("kill"@, seq![decimal(pid as nat)]),
        ),
        pid != 0 && platform == Platform::Windows ==> stop_command(pid, platform) == Some(
            ("taskkill"@, seq!["/PID"@, decimal(pid as nat), "/F"@]),
        ),
        pid == 0 ==> stop_command(pid, platform) is None,
{
}

/// The sidecar is healthy exactly when it answers with a status from 200 to
/// 299: every 1xx, 3xx, 4xx and 5xx answer is a failure.
pub proof fn law_health_success_is_2xx(code: u16)
    ensures
        status_is_success(code) <==> (200 <= code && code <= 299),
        code < 200 ==> !status_is_success(code),
        code >= 300 ==> !status_is_success(code),
{
}

/// An update changes exactly the fields it is given: each field with a
/// change takes the given value, each field without one keeps its value;
/// the id never changes, and the key entry is recorded when a new key is
/// stored and kept otherwise.
pub proof fn law_update_applies_each_change(
    m: ProviderMetaView,
    name: Option<Seq<char>>,
    t: ProviderType,
    model: Option<Option<Seq<char>>>,
    base_url: Option<Option<Seq<char>>>,
    extra_headers: Option<Option<Map<String, String>>>,
    new_key: bool,
)
    ensures
        ({
            let u = patched(m, name, t, model, base_url, extra_headers, new_key);
            &&& u.id == m.id
            &&& u.provider_type == t
            &&& (name matches Some(n) ==> u.name == n)
            &&& (name is None ==> u.name == m.name)
            &&& (model matches Some(v) ==> u.model == v)
            &&& (model is None ==> u.model == m.model)
            &&& (base_url matches Some(v) ==> u.base_url == v)
            &&& (base_url is None ==> u.base_url == m.base_url)
            &&& (extra_headers matches Some(v) ==> u.extra_headers == v)
            &&& (extra_headers is None ==> u.extra_headers == m.extra_headers)
            &&& (new_key ==> u.key_id == Some("provider-"@ + m.id))
            &&& (!new_key ==> u.key_id == m.key_id)
        }),
{
}

/// A key deletion whose command succeeded is a success on every platform;
/// a failed command is an error only where it cannot mean a missing entry:
/// on macOS an exit code other than 44, 255 or 256, and on the platforms
/// other than Linux, macOS and Windows an exit code other than 1.
pub proof fn law_successful_deletion_is_ok(platform: Platform, status: ProcessStatus)
    ensures
        status.success ==> delete_tolerated(platform, status),
        !status.success && platform == Platform::MacOs ==> (delete_tolerated(platform, status) <==> (
        status.code == Some(44i32) || status.code == Some(255i32) || status.code == Some(256i32))),
        !status.success && (platform == Platform::Windows || platform == Platform::Linux)
            ==> delete_tolerated(platform, status),
        !status.success && (platform == Platform::OtherUnix || platform == Platform::Other) ==> (
        delete_tolerated(platform, status) <==> status.code == Some(1i32)),
{
}

/// A keychain read gives no key exactly when the entry does not exist;
/// every other failed read is reported as a keyring error with the
/// failure's description, a failure to reach the keychain is reported as
/// it is, and a key found is given as it is.
pub proof fn law_key_read_failures_are_errors(f: KeyringFault, k: String, e: crate::config::ConfigError)
    ensures
        lookup_result(KeyLookup::Failed(f)) == Ok::<Option<Seq<char>>, ConfigErrorView>(None)
            <==> f.kind == KeyringFaultKind::NoEntry,
        f.kind != KeyringFaultKind::NoEntry ==> lookup_result(KeyLookup::Failed(f)) == Err::<
            Option<Seq<char>>,
            ConfigErrorView,
        >(ConfigErrorView::KeyringError(f.display@)),
        lookup_result(KeyLookup::Found(k)) == Ok::<Option<Seq<char>>, ConfigErrorView>(Some(k@)),
        lookup_result(KeyLookup::EntryFailed(e)) == Err::<Option<Seq<char>>, ConfigErrorView>(e@),
{
}

/// A new provider holds exactly what it was added with, and records the
/// keychain entry "provider-<id>" exactly when it was added with a key.
pub proof fn law_added_provider_holds_its_inputs(
    id: Seq<char>,
    name: Seq<char>,
    t: ProviderType,
    model: Option<Seq<char>>,
    base_url: Option<Seq<char>>,
    has_key: bool,
    extra_headers: Option<Map<String, String>>,
)
    ensures
        ({
            let m = new_provider(id, name, t, model, base_url, has_key, extra_headers);
            &&& m.id == id
            &&& m.name == name
            &&& m.provider_type == t
            &&& m.model == model
            &&& m.base_url == base_url
            &&& m.extra_headers == extra_headers
            &&& (m.key_id is Some <==> has_key)
            &&& (has_key ==> m.key_id == Some("provider-"@ + id))
        }),
{
}

/// Reading the config: no file gives the configuration with no providers
/// and nothing set; a file's configuration is given as it is; a file that
/// does not parse is reported as corrupted (with the reset hint) and one
/// that cannot be read as an I/O error.
pub proof fn law_read_outcomes(c: AppConfig, detail: String)
    ensures
        read_result(ConfigFile::Missing) matches Ok(e) && e.providers.len() == 0
            && e.default_provider is None && e.theme is None && e.locale is None,
        read_result(ConfigFile::Parsed(c)) == Ok::<AppConfigView, ConfigErrorView>(c@),
        read_result(ConfigFile::Unparsable(detail)) matches Err(e) && error_message(e)
            == "Config corrupted — reset recommended"@,
        read_result(ConfigFile::Unreadable(detail)) matches Err(e) && error_message(e)
            == "IO error: "@ + detail@,
{
}

/// The key of entry `id` is deleted by the platform's credential manager:
/// `security delete-generic-password -s scholar-ai -a <id>` on macOS,
/// `cmdkey /delete: scholar-ai:<id>` on Windows, and
/// `secret-tool clear service scholar-ai account <id>` everywhere else.
pub proof fn law_delete_commands(id: Seq<char>, platform: Platform)
    ensures
        platform == Platform::MacOs ==> delete_key_command(id, platform) == (
            "security"@,
            seq!["delete-generic-password"@, "-s"@, "scholar-ai"@, "-a"@, id],
        ),
        platform == Platform::Windows ==> delete_key_command(id, platform) == (
            "cmdkey"@,
            seq!["/delete:"@, "scholar-ai"@ + ":"@ + id],
        ),
        platform != Platform::MacOs && platform != Platform::Windows ==> delete_key_command(
            id,
            platform,
        ) == ("secret-tool"@, seq!["clear"@, "service"@, "scholar-ai"@, "account"@, id]),
{
}

} // verus!
