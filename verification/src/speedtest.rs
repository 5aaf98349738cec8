//! The plugin registry and the two discovery sweeps.
//!
//! The registry keeps every plugin whose load attempt succeeded, under its
//! configured name. Discovery asks each registered plugin which proxies it
//! can offer for a connection string and which tests it can run; a plugin
//! whose answer fails contributes no entry, and nothing else changes.

use vstd::prelude::*;

use serde_json::Value;

use vstd::string::StringExecFns;

use crate::plugin::{Plugin, PluginType, ProtocolDescriptor, TestDescriptor};
use crate::plugin_loader::{PluginLoaderError, SourceUri};

verus! {

/// How one plugin is obtained and initialised.
pub struct PluginConfig {
    /// Where the plugin comes from; only the `file` scheme is supported.
    pub source: SourceUri,
    /// The transport the plugin speaks.
    pub plugin_kind: PluginType,
    /// The plugin-private configuration handed to its one-shot `init`.
    pub config: Value,
}

/// Proxy providers: provider name, the provider's slot in the registry's
/// plugin list, and the proxy candidates it offered.
pub type ProxyProviderMap = Vec<(String, usize, Vec<ProtocolDescriptor>)>;

/// Test providers: provider name, the provider's slot in the registry's
/// plugin list, and the tests it offered.
pub type TestProviderMap = Vec<(String, usize, Vec<TestDescriptor>)>;

/// A provider map, lifted to its mathematical shape.
pub open spec fn provider_map_view<D>(m: Seq<(String, usize, Vec<D>)>) -> Seq<
    (String, int, Seq<D>),
> {
    m.map_values(|e: (String, usize, Vec<D>)| (e.0, e.1 as int, e.2@))
}

/// Every provider entry points at a plugin slot below `n`.
pub open spec fn provider_map_wf<D>(m: Seq<(String, int, Seq<D>)>, n: int) -> bool {
    forall|i: int| 0 <= i < m.len() ==> 0 <= (#[trigger] m[i]).1 < n
}

/// Whether some provider entry carries this name.
pub open spec fn provider_has_key<D>(m: Seq<(String, int, Seq<D>)>, key: Seq<char>) -> bool {
    exists|i: int| 0 <= i < m.len() && (#[trigger] m[i]).0@ == key
}

/// Whether some registry entry carries this name.
pub open spec fn has_name<P>(plugins: Seq<(String, P)>, key: Seq<char>) -> bool {
    exists|i: int| 0 <= i < plugins.len() && (#[trigger] plugins[i]).0@ == key
}

/// The registry that load outcomes leave behind: the entries that
/// succeeded, in order, each under its configured name.
pub open spec fn loaded_entries<P>(
    outcomes: Seq<(String, Result<P, PluginLoaderError>)>,
) -> Seq<(String, P)>
    decreases outcomes.len(),
{
    if outcomes.len() == 0 {
        Seq::empty()
    } else {
        let rest = loaded_entries(outcomes.drop_last());
        match outcomes.last().1 {
            Ok(p) => rest.push((outcomes.last().0, p)),
            Err(_) => rest,
        }
    }
}

/// The proxy-provider map that proxy discovery over `plugins` yields for
/// one connection string: every plugin whose `parse_protocol` succeeds,
/// with its slot and its candidates.
pub open spec fn proxy_providers_model<P: Plugin>(
    plugins: Seq<(String, P)>,
    cs: Seq<char>,
) -> Seq<(String, int, Seq<ProtocolDescriptor>)>
    decreases plugins.len(),
{
    if plugins.len() == 0 {
        Seq::empty()
    } else {
        let rest = proxy_providers_model(plugins.drop_last(), cs);
        match plugins.last().1.parse_protocol_model(cs) {
            Ok(items) => rest.push((plugins.last().0, plugins.len() - 1, items)),
            Err(_) => rest,
        }
    }
}

/// The test-provider map that test discovery over `plugins` yields:
/// every plugin whose `tests` call succeeds, with its slot and its tests.
pub open spec fn test_providers_model<P: Plugin>(plugins: Seq<(String, P)>) -> Seq<
    (String, int, Seq<TestDescriptor>),
>
    decreases plugins.len(),
{
    if plugins.len() == 0 {
        Seq::empty()
    } else {
        let rest = test_providers_model(plugins.drop_last());
        match plugins.last().1.tests_model() {
            Ok(items) => rest.push((plugins.last().0, plugins.len() - 1, items)),
            Err(_) => rest,
        }
    }
}

/// Decide how to obtain the plugin one configuration describes: a `file`
/// source names the executable to launch and connect to; any other scheme
/// is refused with `UnexpectedScheme` carrying the serialised URI.
pub fn plan_plugin_launch(config: &PluginConfig) -> (r: Result<String, PluginLoaderError>)
    requires
        config.plugin_kind == PluginType::JSONRPC,
    ensures
        match r {
            Ok(path) => config.source.scheme@ == "file"@ && path == config.source.path,
            Err(e) => config.source.scheme@ != "file"@ && e
                == PluginLoaderError::UnexpectedScheme(config.source.raw),
        },
{
    let file_scheme: String = String::from_str("file");
    if config.source.scheme == file_scheme {
        Ok(config.source.path.clone())
    } else {
        Err(PluginLoaderError::UnexpectedScheme(config.source.raw.clone()))
    }
}

/// The registry: the name-to-plugin mapping of every plugin that loaded.
/// Built once; read-only afterwards.
pub struct SpeedTest<P> {
    pub plugin_map: Vec<(String, P)>,
}

impl<P: Plugin> SpeedTest<P> {
    /// Build the registry from the per-plugin load outcomes. An entry
    /// that failed to load is left out; every other entry survives under
    /// its configured name, in the order given.
    pub fn new(outcomes: Vec<(String, Result<P, PluginLoaderError>)>) -> (r: Self)
        ensures
            r.plugin_map@ == loaded_entries(outcomes@),
    {
        let ghost orig = outcomes@;
        let mut remaining = outcomes;
        let mut plugin_map: Vec<(String, P)> = Vec::new();
        while remaining.len() > 0
            invariant
                remaining@.len() <= orig.len(),
                remaining@ == orig.skip(orig.len() - remaining@.len()),
                plugin_map@ == loaded_entries(orig.take(orig.len() - remaining@.len())),
            decreases remaining@.len(),
        {
            let ghost k = orig.len() - remaining@.len();
            proof {
                assert(remaining@[0] == orig[k]);
                assert(orig.skip(k).remove(0) =~= orig.skip(k + 1));
                assert(orig.take(k + 1).drop_last() =~= orig.take(k));
                assert(orig.take(k + 1).last() == orig[k]);
            }
            let (name, outcome) = remaining.remove(0);
            match outcome {
                Ok(p) => plugin_map.push((name, p)),
                Err(_) => {},
            }
        }
        proof {
            assert(orig.take(orig.len() as int) =~= orig);
        }
        SpeedTest { plugin_map }
    }

    /// Proxy discovery: ask every registered plugin to expand the
    /// connection string, keeping the answers of those that succeed.
    pub fn get_proxy_provider(&self, connection_string: &str) -> (r: ProxyProviderMap)
        ensures
            provider_map_view(r@) == proxy_providers_model(
                self.plugin_map@,
                connection_string@,
            ),
            provider_map_wf(provider_map_view(r@), self.plugin_map@.len() as int),
    {
        let mut r: ProxyProviderMap = Vec::new();
        let mut i: usize = 0;
        while i < self.plugin_map.len()
            invariant
                i <= self.plugin_map@.len(),
                provider_map_view(r@) == proxy_providers_model(
                    self.plugin_map@.take(i as int),
                    connection_string@,
                ),
                provider_map_wf(provider_map_view(r@), i as int),
            decreases self.plugin_map@.len() - i,
        {
            proof {
                assert(self.plugin_map@.take(i + 1).drop_last() =~= self.plugin_map@.take(
                    i as int,
                ));
                assert(self.plugin_map@.take(i + 1).last() == self.plugin_map@[i as int]);
            }
            let entry = &self.plugin_map[i];
            match entry.1.parse_protocol(connection_string) {
                Ok(items) => {
                    let ghost before = r@;
                    r.push((entry.0.clone(), i, items));
                    proof {
                        assert(provider_map_view(r@) =~= provider_map_view(before).push(
                            (entry.0, i as int, items@),
                        ));
                    }
                },
                Err(_) => {},
            }
            i += 1;
        }
        proof {
            assert(self.plugin_map@.take(self.plugin_map@.len() as int) =~= self.plugin_map@);
        }
        r
    }

    /// Test discovery: ask every registered plugin which tests it runs,
    /// keeping the answers of those that succeed.
    pub fn get_test_provider(&self) -> (r: TestProviderMap)
        ensures
            provider_map_view(r@) == test_providers_model(self.plugin_map@),
            provider_map_wf(provider_map_view(r@), self.plugin_map@.len() as int),
    {
        let mut r: TestProviderMap = Vec::new();
        let mut i: usize = 0;
        while i < self.plugin_map.len()
            invariant
                i <= self.plugin_map@.len(),
                provider_map_view(r@) == test_providers_model(self.plugin_map@.take(i as int)),
                provider_map_wf(provider_map_view(r@), i as int),
            decreases self.plugin_map@.len() - i,
        {
            proof {
                assert(self.plugin_map@.take(i + 1).drop_last() =~= self.plugin_map@.take(
                    i as int,
                ));
                assert(self.plugin_map@.take(i + 1).last() == self.plugin_map@[i as int]);
            }
            let entry = &self.plugin_map[i];
            match entry.1.tests() {
                Ok(items) => {
                    let ghost before = r@;
                    r.push((entry.0.clone(), i, items));
                    proof {
                        assert(provider_map_view(r@) =~= provider_map_view(before).push(
                            (entry.0, i as int, items@),
                        ));
                    }
                },
                Err(_) => {},
            }
            i += 1;
        }
        proof {
            assert(self.plugin_map@.take(self.plugin_map@.len() as int) =~= self.plugin_map@);
        }
        r
    }
}

/// A name whose every load outcome failed is absent from the registry.
pub proof fn lemma_failed_load_absent<P>(
    outcomes: Seq<(String, Result<P, PluginLoaderError>)>,
    key: Seq<char>,
)
    requires
        forall|i: int|
            0 <= i < outcomes.len() && (#[trigger] outcomes[i]).0@ == key ==> outcomes[i].1
                is Err,
    ensures
        !has_name(loaded_entries(outcomes), key),
    decreases outcomes.len(),
{
    if outcomes.len() > 0 {
        assert forall|i: int|
            0 <= i < outcomes.drop_last().len() && (#[trigger] outcomes.drop_last()[i]).0@
                == key implies outcomes.drop_last()[i].1 is Err by {
            assert(outcomes.drop_last()[i] == outcomes[i]);
        }
        lemma_failed_load_absent(outcomes.drop_last(), key);
        if has_name(loaded_entries(outcomes), key) {
            let i = choose|i: int|
                0 <= i < loaded_entries(outcomes).len() && (#[trigger] loaded_entries(
                    outcomes,
                )[i]).0@ == key;
            let rest = loaded_entries(outcomes.drop_last());
            match outcomes.last().1 {
                Ok(p) => {
                    if i < rest.len() {
                        assert(has_name(rest, key));
                    } else {
                        assert(loaded_entries(outcomes)[i].0 == outcomes.last().0);
                        assert(outcomes[outcomes.len() - 1].1 is Err);
                    }
                },
                Err(_) => {
                    assert(has_name(rest, key));
                },
            }
            assert(false);
        }
    }
}

/// A name absent from the registry is absent from the proxy-provider map
/// that discovery yields over it.
pub proof fn lemma_proxy_provider_keys_from_registry<P: Plugin>(
    plugins: Seq<(String, P)>,
    cs: Seq<char>,
    key: Seq<char>,
)
    requires
        !has_name(plugins, key),
    ensures
        !provider_has_key(proxy_providers_model(plugins, cs), key),
    decreases plugins.len(),
{
    if plugins.len() > 0 {
        assert(!has_name(plugins.drop_last(), key)) by {
            if has_name(plugins.drop_last(), key) {
                let i = choose|i: int|
                    0 <= i < plugins.drop_last().len() && (#[trigger] plugins.drop_last()[
                        i
                    ]).0@ == key;
                assert(plugins[i].0@ == key);
            }
        }
        lemma_proxy_provider_keys_from_registry(plugins.drop_last(), cs, key);
        if provider_has_key(proxy_providers_model(plugins, cs), key) {
            let m = proxy_providers_model(plugins, cs);
            let i = choose|i: int| 0 <= i < m.len() && (#[trigger] m[i]).0@ == key;
            let rest = proxy_providers_model(plugins.drop_last(), cs);
            match plugins.last().1.parse_protocol_model(cs) {
                Ok(items) => {
                    if i < rest.len() {
                        assert(provider_has_key(rest, key));
                    } else {
                        assert(m[i].0 == plugins.last().0);
                        assert(plugins[plugins.len() - 1].0@ == key);
                    }
                },
                Err(_) => {
                    assert(provider_has_key(rest, key));
                },
            }
            assert(false);
        }
    }
}

/// A name absent from the registry is absent from the test-provider map
/// that discovery yields over it.
pub proof fn lemma_test_provider_keys_from_registry<P: Plugin>(
    plugins: Seq<(String, P)>,
    key: Seq<char>,
)
    requires
        !has_name(plugins, key),
    ensures
        !provider_has_key(test_providers_model(plugins), key),
    decreases plugins.len(),
{
    if plugins.len() > 0 {
        assert(!has_name(plugins.drop_last(), key)) by {
            if has_name(plugins.drop_last(), key) {
                let i = choose|i: int|
                    0 <= i < plugins.drop_last().len() && (#[trigger] plugins.drop_last()[
                        i
                    ]).0@ == key;
                assert(plugins[i].0@ == key);
            }
        }
        lemma_test_provider_keys_from_registry(plugins.drop_last(), key);
        if provider_has_key(test_providers_model(plugins), key) {
            let m = test_providers_model(plugins);
            let i = choose|i: int| 0 <= i < m.len() && (#[trigger] m[i]).0@ == key;
            let rest = test_providers_model(plugins.drop_last());
            match plugins.last().1.tests_model() {
                Ok(items) => {
                    if i < rest.len() {
                        assert(provider_has_key(rest, key));
                    } else {
                        assert(m[i].0 == plugins.last().0);
                        assert(plugins[plugins.len() - 1].0@ == key);
                    }
                },
                Err(_) => {
                    assert(provider_has_key(rest, key));
                },
            }
            assert(false);
        }
    }
}

/// A plugin whose every configuration has an unsupported source scheme
/// is excluded from the registry, and its name appears in neither
/// discovery mapping. [`plan_plugin_launch`] refuses such a source, so
/// no load that follows the plan can produce anything but a failure for
/// it; that link between configurations and outcomes is the premise.
pub proof fn lemma_unsupported_scheme_excluded<P: Plugin>(
    configs: Seq<(String, PluginConfig)>,
    outcomes: Seq<(String, Result<P, PluginLoaderError>)>,
    key: Seq<char>,
    cs: Seq<char>,
)
    requires
        outcomes.len() == configs.len(),
        forall|i: int| 0 <= i < configs.len() ==> (#[trigger] outcomes[i]).0 == configs[i].0,
        forall|i: int|
            0 <= i < configs.len() && (#[trigger] configs[i]).1.source.scheme@ != "file"@
                ==> outcomes[i].1 is Err,
        forall|i: int|
            0 <= i < configs.len() && (#[trigger] configs[i]).0@ == key ==> configs[i].1.source.scheme@
                != "file"@,
    ensures
        !has_name(loaded_entries(outcomes), key),
        !provider_has_key(proxy_providers_model(loaded_entries(outcomes), cs), key),
        !provider_has_key(test_providers_model(loaded_entries(outcomes)), key),
{
    assert forall|i: int|
        0 <= i < outcomes.len() && (#[trigger] outcomes[i]).0@ == key implies outcomes[i].1
        is Err by {
        assert(configs[i].0@ == key);
    }
    lemma_failed_load_absent(outcomes, key);
    lemma_proxy_provider_keys_from_registry(loaded_entries(outcomes), cs, key);
    lemma_test_provider_keys_from_registry(loaded_entries(outcomes), key);
}

/// Discovery is repeatable: both provider maps are functions of the
/// registry and the connection string alone, so re-running an unchanged
/// discovery yields equal mappings.
pub proof fn lemma_discovery_idempotent<P: Plugin>(
    plugins: Seq<(String, P)>,
    cs: Seq<char>,
    p1: Seq<(String, int, Seq<ProtocolDescriptor>)>,
    p2: Seq<(String, int, Seq<ProtocolDescriptor>)>,
    t1: Seq<(String, int, Seq<TestDescriptor>)>,
    t2: Seq<(String, int, Seq<TestDescriptor>)>,
)
    requires
        p1 == proxy_providers_model(plugins, cs),
        p2 == proxy_providers_model(plugins, cs),
        t1 == test_providers_model(plugins),
        t2 == test_providers_model(plugins),
    ensures
        p1 == p2,
        t1 == t2,
{
}

} // verus!
