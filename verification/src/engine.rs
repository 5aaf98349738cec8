//! The cross-product test execution engine and the result tree it
//! assembles.
//!
//! For every proxy provider's every proxy candidate the engine sets up a
//! connection, and runs every test provider's every test against it. A
//! failed setup skips that one proxy; a failed test run skips that one
//! leaf; nothing else is affected. A leaf is present in the tree exactly
//! when its test returned success.

use vstd::prelude::*;

use serde_json::Value;

use crate::plugin::{ConnectionDescriptor, Plugin, ProtocolDescriptor, TestDescriptor};
use crate::speedtest::{
    provider_map_view, provider_map_wf, ProxyProviderMap, TestProviderMap,
};
use crate::value::clone_value;

verus! {

/// Test name to result payload, for one connection and one test provider.
pub type TestResults = Vec<(String, Value)>;

/// Test provider name to its results, for one connection.
pub type TestProviderResults = Vec<(String, TestResults)>;

/// Proxy name to the results gathered over its connection.
pub type ProxyResults = Vec<(String, TestProviderResults)>;

/// Proxy provider name to the results of all its proxies: the whole run.
pub type ResultTree = Vec<(String, ProxyResults)>;

/// The mathematical shape of [`TestResults`].
pub type TestResultsModel = Seq<(String, Value)>;

/// The mathematical shape of [`TestProviderResults`].
pub type TestProviderResultsModel = Seq<(String, TestResultsModel)>;

/// The mathematical shape of [`ProxyResults`].
pub type ProxyResultsModel = Seq<(String, TestProviderResultsModel)>;

/// The mathematical shape of [`ResultTree`].
pub type ResultTreeModel = Seq<(String, ProxyResultsModel)>;

/// [`TestProviderResults`], lifted to its mathematical shape.
pub open spec fn test_provider_results_view(r: Seq<(String, TestResults)>) -> TestProviderResultsModel {
    r.map_values(|e: (String, TestResults)| (e.0, e.1@))
}

/// [`ProxyResults`], lifted to its mathematical shape.
pub open spec fn proxy_results_view(r: Seq<(String, TestProviderResults)>) -> ProxyResultsModel {
    r.map_values(|e: (String, TestProviderResults)| (e.0, test_provider_results_view(e.1@)))
}

/// [`ResultTree`], lifted to its mathematical shape.
pub open spec fn result_tree_view(r: Seq<(String, ProxyResults)>) -> ResultTreeModel {
    r.map_values(|e: (String, ProxyResults)| (e.0, proxy_results_view(e.1@)))
}

/// Whether some entry of a keyed sequence carries this name.
pub open spec fn has_key<V>(m: Seq<(String, V)>, key: Seq<char>) -> bool {
    exists|i: int| 0 <= i < m.len() && (#[trigger] m[i]).0@ == key
}

/// The results of running `tests` over one connection on their owning
/// plugin: one leaf per test whose run succeeded, in order.
pub open spec fn test_results_model<P: Plugin>(
    p: P,
    conn: ConnectionDescriptor,
    tests: Seq<TestDescriptor>,
) -> TestResultsModel
    decreases tests.len(),
{
    if tests.len() == 0 {
        Seq::empty()
    } else {
        let rest = test_results_model(p, conn, tests.drop_last());
        match p.run_test_model(tests.last(), conn) {
            Ok(v) => rest.push((tests.last().name, v)),
            Err(_) => rest,
        }
    }
}

/// The results of every test provider over one connection: every provider
/// keeps its entry, holding whatever leaves its tests produced.
pub open spec fn test_provider_results_model<P: Plugin>(
    plugins: Seq<(String, P)>,
    tps: Seq<(String, int, Seq<TestDescriptor>)>,
    conn: ConnectionDescriptor,
) -> TestProviderResultsModel
    decreases tps.len(),
{
    if tps.len() == 0 {
        Seq::empty()
    } else {
        let last = tps.last();
        test_provider_results_model(plugins, tps.drop_last(), conn).push(
            (last.0, test_results_model(plugins[last.1].1, conn, last.2)),
        )
    }
}

/// The results of one proxy provider's candidates: a proxy whose setup
/// fails contributes nothing; a proxy whose setup succeeds carries the
/// full sweep of all test providers over its connection.
pub open spec fn proxy_results_model<P: Plugin>(
    plugins: Seq<(String, P)>,
    p: P,
    proxies: Seq<ProtocolDescriptor>,
    tps: Seq<(String, int, Seq<TestDescriptor>)>,
) -> ProxyResultsModel
    decreases proxies.len(),
{
    if proxies.len() == 0 {
        Seq::empty()
    } else {
        let rest = proxy_results_model(plugins, p, proxies.drop_last(), tps);
        match p.setup_proxy_model(proxies.last().content) {
            Ok(conn) => rest.push(
                (proxies.last().name, test_provider_results_model(plugins, tps, conn)),
            ),
            Err(_) => rest,
        }
    }
}

/// The whole run: every proxy provider keeps its entry, holding the
/// results of its candidates crossed with every test provider.
pub open spec fn result_tree_model<P: Plugin>(
    plugins: Seq<(String, P)>,
    pps: Seq<(String, int, Seq<ProtocolDescriptor>)>,
    tps: Seq<(String, int, Seq<TestDescriptor>)>,
) -> ResultTreeModel
    decreases pps.len(),
{
    if pps.len() == 0 {
        Seq::empty()
    } else {
        let last = pps.last();
        result_tree_model(plugins, pps.drop_last(), tps).push(
            (last.0, proxy_results_model(plugins, plugins[last.1].1, last.2, tps)),
        )
    }
}

/// Set up one proxy candidate on its owning plugin; a failure yields
/// nothing and is isolated to this candidate.
pub fn try_set_up_proxy<P: Plugin>(plugin: &P, proxy: &ProtocolDescriptor) -> (r: Option<
    ConnectionDescriptor,
>)
    ensures
        match plugin.setup_proxy_model(proxy.content) {
            Ok(c) => r == Some(c),
            Err(_) => r is None,
        },
{
    match plugin.setup_proxy(clone_value(&proxy.content)) {
        Ok(c) => Some(c),
        Err(_) => None,
    }
}

/// Run one test over one connection on its owning plugin; a success
/// yields the leaf, a failure yields nothing and is isolated to this
/// test.
pub fn try_run_test<P: Plugin>(
    plugin: &P,
    test: &TestDescriptor,
    proxy_connection: &ConnectionDescriptor,
) -> (r: Option<(String, Value)>)
    ensures
        match plugin.run_test_model(*test, *proxy_connection) {
            Ok(v) => r == Some((test.name, v)),
            Err(_) => r is None,
        },
{
    match plugin.run_test(test, proxy_connection) {
        Ok(v) => Some((test.name.clone(), v)),
        Err(_) => None,
    }
}

/// Run every test of one provider over one connection, keeping the
/// leaves of the tests that succeeded.
pub fn collect_test_results<P: Plugin>(
    plugin: &P,
    proxy_connection: &ConnectionDescriptor,
    tests: &Vec<TestDescriptor>,
) -> (r: TestResults)
    ensures
        r@ == test_results_model(*plugin, *proxy_connection, tests@),
{
    let mut r: TestResults = Vec::new();
    let mut i: usize = 0;
    while i < tests.len()
        invariant
            i <= tests@.len(),
            r@ == test_results_model(*plugin, *proxy_connection, tests@.take(i as int)),
        decreases tests@.len() - i,
    {
        proof {
            assert(tests@.take(i + 1).drop_last() =~= tests@.take(i as int));
            assert(tests@.take(i + 1).last() == tests@[i as int]);
        }
        match try_run_test(plugin, &tests[i], proxy_connection) {
            Some(leaf) => r.push(leaf),
            None => {},
        }
        i += 1;
    }
    proof {
        assert(tests@.take(tests@.len() as int) =~= tests@);
    }
    r
}

/// Sweep every test provider over one connection. Every provider keeps
/// its entry; a provider none of whose tests succeeded keeps an empty
/// one.
pub fn collect_test_results_from_test_providers<P: Plugin>(
    plugins: &Vec<(String, P)>,
    test_providers: &TestProviderMap,
    proxy_connection: &ConnectionDescriptor,
) -> (r: TestProviderResults)
    requires
        provider_map_wf(provider_map_view(test_providers@), plugins@.len() as int),
    ensures
        test_provider_results_view(r@) == test_provider_results_model(
            plugins@,
            provider_map_view(test_providers@),
            *proxy_connection,
        ),
{
    let ghost tpv = provider_map_view(test_providers@);
    let mut r: TestProviderResults = Vec::new();
    let mut i: usize = 0;
    while i < test_providers.len()
        invariant
            i <= test_providers@.len(),
            tpv == provider_map_view(test_providers@),
            provider_map_wf(tpv, plugins@.len() as int),
            test_provider_results_view(r@) == test_provider_results_model(
                plugins@,
                tpv.take(i as int),
                *proxy_connection,
            ),
        decreases test_providers@.len() - i,
    {
        proof {
            assert(tpv.take(i + 1).drop_last() =~= tpv.take(i as int));
            assert(tpv.take(i + 1).last() == tpv[i as int]);
            assert(tpv[i as int] == (test_providers@[i as int].0, test_providers@[
                i as int
            ].1 as int, test_providers@[i as int].2@));
        }
        let entry = &test_providers[i];
        let slot: usize = entry.1;
        let results = collect_test_results(&plugins[slot].1, proxy_connection, &entry.2);
        let ghost before = r@;
        r.push((entry.0.clone(), results));
        proof {
            assert(test_provider_results_view(r@) =~= test_provider_results_view(before).push(
                (entry.0, results@),
            ));
        }
        i += 1;
    }
    proof {
        assert(tpv.take(tpv.len() as int) =~= tpv);
    }
    r
}

/// Measure every candidate of one proxy provider: set each one up on the
/// owning plugin, and on success cross its connection with every test
/// provider. A candidate whose setup fails is skipped whole.
pub fn perform_speedtest_for_proxies<P: Plugin>(
    plugins: &Vec<(String, P)>,
    plugin: &P,
    proxies: &Vec<ProtocolDescriptor>,
    test_providers: &TestProviderMap,
) -> (r: ProxyResults)
    requires
        provider_map_wf(provider_map_view(test_providers@), plugins@.len() as int),
    ensures
        proxy_results_view(r@) == proxy_results_model(
            plugins@,
            *plugin,
            proxies@,
            provider_map_view(test_providers@),
        ),
{
    let ghost tpv = provider_map_view(test_providers@);
    let mut r: ProxyResults = Vec::new();
    let mut i: usize = 0;
    while i < proxies.len()
        invariant
            i <= proxies@.len(),
            tpv == provider_map_view(test_providers@),
            provider_map_wf(tpv, plugins@.len() as int),
            proxy_results_view(r@) == proxy_results_model(
                plugins@,
                *plugin,
                proxies@.take(i as int),
                tpv,
            ),
        decreases proxies@.len() - i,
    {
        proof {
            assert(proxies@.take(i + 1).drop_last() =~= proxies@.take(i as int));
            assert(proxies@.take(i + 1).last() == proxies@[i as int]);
        }
        let proxy = &proxies[i];
        match try_set_up_proxy(plugin, proxy) {
            Some(proxy_connection) => {
                let results = collect_test_results_from_test_providers(
                    plugins,
                    test_providers,
                    &proxy_connection,
                );
                let ghost before = r@;
                r.push((proxy.name.clone(), results));
                proof {
                    assert(proxy_results_view(r@) =~= proxy_results_view(before).push(
                        (proxy.name, test_provider_results_view(results@)),
                    ));
                }
            },
            None => {},
        }
        i += 1;
    }
    proof {
        assert(proxies@.take(proxies@.len() as int) =~= proxies@);
    }
    r
}

/// The whole run: measure every proxy provider's candidates against
/// every test provider's tests, and assemble the nested result tree.
pub fn perform_speedtest_for_proxy_providers<P: Plugin>(
    plugins: &Vec<(String, P)>,
    proxy_providers: &ProxyProviderMap,
    test_providers: &TestProviderMap,
) -> (r: ResultTree)
    requires
        provider_map_wf(provider_map_view(proxy_providers@), plugins@.len() as int),
        provider_map_wf(provider_map_view(test_providers@), plugins@.len() as int),
    ensures
        result_tree_view(r@) == result_tree_model(
            plugins@,
            provider_map_view(proxy_providers@),
            provider_map_view(test_providers@),
        ),
{
    let ghost ppv = provider_map_view(proxy_providers@);
    let ghost tpv = provider_map_view(test_providers@);
    let mut r: ResultTree = Vec::new();
    let mut i: usize = 0;
    while i < proxy_providers.len()
        invariant
            i <= proxy_providers@.len(),
            ppv == provider_map_view(proxy_providers@),
            tpv == provider_map_view(test_providers@),
            provider_map_wf(ppv, plugins@.len() as int),
            provider_map_wf(tpv, plugins@.len() as int),
            result_tree_view(r@) == result_tree_model(plugins@, ppv.take(i as int), tpv),
        decreases proxy_providers@.len() - i,
    {
        proof {
            assert(ppv.take(i + 1).drop_last() =~= ppv.take(i as int));
            assert(ppv.take(i + 1).last() == ppv[i as int]);
            assert(ppv[i as int] == (proxy_providers@[i as int].0, proxy_providers@[
                i as int
            ].1 as int, proxy_providers@[i as int].2@));
        }
        let entry = &proxy_providers[i];
        let slot: usize = entry.1;
        let results = perform_speedtest_for_proxies(
            plugins,
            &plugins[slot].1,
            &entry.2,
            test_providers,
        );
        let ghost before = r@;
        r.push((entry.0.clone(), results));
        proof {
            assert(result_tree_view(r@) =~= result_tree_view(before).push(
                (entry.0, proxy_results_view(results@)),
            ));
        }
        i += 1;
    }
    proof {
        assert(ppv.take(ppv.len() as int) =~= ppv);
    }
    r
}

/// A test whose run fails leaves exactly its own leaf out: the results
/// over a connection are the same as if the failing test had never been
/// offered.
pub proof fn lemma_failed_test_removed<P: Plugin>(
    p: P,
    conn: ConnectionDescriptor,
    tests: Seq<TestDescriptor>,
    i: int,
)
    requires
        0 <= i < tests.len(),
        p.run_test_model(tests[i], conn) is Err,
    ensures
        test_results_model(p, conn, tests) == test_results_model(p, conn, tests.remove(i)),
    decreases tests.len(),
{
    if i == tests.len() - 1 {
        assert(tests.remove(i) =~= tests.drop_last());
    } else {
        assert(tests.remove(i).drop_last() =~= tests.drop_last().remove(i));
        assert(tests.remove(i).last() == tests.last());
        assert(tests.drop_last()[i] == tests[i]);
        lemma_failed_test_removed(p, conn, tests.drop_last(), i);
    }
}

/// No leaf in the results over a connection carries the name of a test
/// all of whose runs fail.
pub proof fn lemma_failed_test_leaf_absent<P: Plugin>(
    p: P,
    conn: ConnectionDescriptor,
    tests: Seq<TestDescriptor>,
    key: Seq<char>,
)
    requires
        forall|j: int|
            0 <= j < tests.len() && (#[trigger] tests[j]).name@ == key ==> p.run_test_model(
                tests[j],
                conn,
            ) is Err,
    ensures
        !has_key(test_results_model(p, conn, tests), key),
    decreases tests.len(),
{
    if tests.len() > 0 {
        assert forall|j: int|
            0 <= j < tests.drop_last().len() && (#[trigger] tests.drop_last()[j]).name@
                == key implies p.run_test_model(tests.drop_last()[j], conn) is Err by {
            assert(tests.drop_last()[j] == tests[j]);
        }
        lemma_failed_test_leaf_absent(p, conn, tests.drop_last(), key);
        let m = test_results_model(p, conn, tests);
        if has_key(m, key) {
            let i = choose|i: int| 0 <= i < m.len() && (#[trigger] m[i]).0@ == key;
            let rest = test_results_model(p, conn, tests.drop_last());
            match p.run_test_model(tests.last(), conn) {
                Ok(v) => {
                    if i < rest.len() {
                        assert(has_key(rest, key));
                    } else {
                        assert(m[i].0 == tests.last().name);
                        assert(tests[tests.len() - 1].name@ == key);
                    }
                },
                Err(_) => {
                    assert(has_key(rest, key));
                },
            }
            assert(false);
        }
    }
}

/// A test whose run succeeds over a connection has its leaf, with its
/// payload, in the results.
pub proof fn lemma_passed_test_leaf_present<P: Plugin>(
    p: P,
    conn: ConnectionDescriptor,
    tests: Seq<TestDescriptor>,
    i: int,
    v: Value,
)
    requires
        0 <= i < tests.len(),
        p.run_test_model(tests[i], conn) == Ok::<Value, crate::plugin::PluginError>(v),
    ensures
        test_results_model(p, conn, tests).contains((tests[i].name, v)),
    decreases tests.len(),
{
    let m = test_results_model(p, conn, tests);
    if i == tests.len() - 1 {
        assert(m[m.len() - 1] == (tests[i].name, v));
    } else {
        assert(tests.drop_last()[i] == tests[i]);
        lemma_passed_test_leaf_present(p, conn, tests.drop_last(), i, v);
        let rest = test_results_model(p, conn, tests.drop_last());
        let j = choose|j: int| 0 <= j < rest.len() && rest[j] == (tests[i].name, v);
        assert(m[j] == (tests[i].name, v));
    }
}

/// Every leaf in the results over a connection comes from a test whose
/// run actually returned success: its name is some offered test's name,
/// and its payload is exactly what that test's run returned.
pub proof fn lemma_leaf_from_successful_run<P: Plugin>(
    p: P,
    conn: ConnectionDescriptor,
    tests: Seq<TestDescriptor>,
    k: int,
)
    requires
        0 <= k < test_results_model(p, conn, tests).len(),
    ensures
        exists|j: int|
            0 <= j < tests.len() && (#[trigger] tests[j]).name == test_results_model(
                p,
                conn,
                tests,
            )[k].0 && p.run_test_model(tests[j], conn) == Ok::<Value, crate::plugin::PluginError>(
                test_results_model(p, conn, tests)[k].1,
            ),
    decreases tests.len(),
{
    let m = test_results_model(p, conn, tests);
    let rest = test_results_model(p, conn, tests.drop_last());
    if k < rest.len() {
        lemma_leaf_from_successful_run(p, conn, tests.drop_last(), k);
        let j = choose|j: int|
            0 <= j < tests.drop_last().len() && (#[trigger] tests.drop_last()[j]).name == rest[
                k
            ].0 && p.run_test_model(tests.drop_last()[j], conn) == Ok::<
                Value,
                crate::plugin::PluginError,
            >(rest[k].1);
        assert(tests.drop_last()[j] == tests[j]);
        assert(m[k] == rest[k]);
    } else {
        assert(tests[tests.len() - 1].name == m[k].0);
    }
}

/// A proxy whose setup fails leaves nothing of its own behind: the
/// provider's results are the same as if the candidate had never been
/// offered, so every sibling proxy is unaffected.
pub proof fn lemma_failed_setup_removed<P: Plugin>(
    plugins: Seq<(String, P)>,
    p: P,
    proxies: Seq<ProtocolDescriptor>,
    tps: Seq<(String, int, Seq<TestDescriptor>)>,
    i: int,
)
    requires
        0 <= i < proxies.len(),
        p.setup_proxy_model(proxies[i].content) is Err,
    ensures
        proxy_results_model(plugins, p, proxies, tps) == proxy_results_model(
            plugins,
            p,
            proxies.remove(i),
            tps,
        ),
    decreases proxies.len(),
{
    if i == proxies.len() - 1 {
        assert(proxies.remove(i) =~= proxies.drop_last());
    } else {
        assert(proxies.remove(i).drop_last() =~= proxies.drop_last().remove(i));
        assert(proxies.remove(i).last() == proxies.last());
        assert(proxies.drop_last()[i] == proxies[i]);
        lemma_failed_setup_removed(plugins, p, proxies.drop_last(), tps, i);
    }
}

/// No entry under a proxy provider carries the name of a candidate all
/// of whose setups fail.
pub proof fn lemma_failed_setup_absent<P: Plugin>(
    plugins: Seq<(String, P)>,
    p: P,
    proxies: Seq<ProtocolDescriptor>,
    tps: Seq<(String, int, Seq<TestDescriptor>)>,
    key: Seq<char>,
)
    requires
        forall|j: int|
            0 <= j < proxies.len() && (#[trigger] proxies[j]).name@ == key
                ==> p.setup_proxy_model(proxies[j].content) is Err,
    ensures
        !has_key(proxy_results_model(plugins, p, proxies, tps), key),
    decreases proxies.len(),
{
    if proxies.len() > 0 {
        assert forall|j: int|
            0 <= j < proxies.drop_last().len() && (#[trigger] proxies.drop_last()[j]).name@
                == key implies p.setup_proxy_model(proxies.drop_last()[j].content) is Err by {
            assert(proxies.drop_last()[j] == proxies[j]);
        }
        lemma_failed_setup_absent(plugins, p, proxies.drop_last(), tps, key);
        let m = proxy_results_model(plugins, p, proxies, tps);
        if has_key(m, key) {
            let i = choose|i: int| 0 <= i < m.len() && (#[trigger] m[i]).0@ == key;
            let rest = proxy_results_model(plugins, p, proxies.drop_last(), tps);
            match p.setup_proxy_model(proxies.last().content) {
                Ok(conn) => {
                    if i < rest.len() {
                        assert(has_key(rest, key));
                    } else {
                        assert(m[i].0 == proxies.last().name);
                        assert(proxies[proxies.len() - 1].name@ == key);
                    }
                },
                Err(_) => {
                    assert(has_key(rest, key));
                },
            }
            assert(false);
        }
    }
}

/// A proxy whose setup succeeds has its entry under its provider,
/// carrying the full sweep of every test provider over its connection.
pub proof fn lemma_passed_setup_present<P: Plugin>(
    plugins: Seq<(String, P)>,
    p: P,
    proxies: Seq<ProtocolDescriptor>,
    tps: Seq<(String, int, Seq<TestDescriptor>)>,
    i: int,
    conn: ConnectionDescriptor,
)
    requires
        0 <= i < proxies.len(),
        p.setup_proxy_model(proxies[i].content) == Ok::<
            ConnectionDescriptor,
            crate::plugin::PluginError,
        >(conn),
    ensures
        proxy_results_model(plugins, p, proxies, tps).contains(
            (proxies[i].name, test_provider_results_model(plugins, tps, conn)),
        ),
    decreases proxies.len(),
{
    let m = proxy_results_model(plugins, p, proxies, tps);
    let sub = test_provider_results_model(plugins, tps, conn);
    if i == proxies.len() - 1 {
        assert(m[m.len() - 1] == (proxies[i].name, sub));
    } else {
        assert(proxies.drop_last()[i] == proxies[i]);
        lemma_passed_setup_present(plugins, p, proxies.drop_last(), tps, i, conn);
        let rest = proxy_results_model(plugins, p, proxies.drop_last(), tps);
        let j = choose|j: int| 0 <= j < rest.len() && rest[j] == (proxies[i].name, sub);
        assert(m[j] == (proxies[i].name, sub));
    }
}

} // verus!
