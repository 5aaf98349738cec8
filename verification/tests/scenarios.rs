use serde_json::Value;
use speedtest_controller::engine::perform_speedtest_for_proxy_providers;
use speedtest_controller::local::LocalPlugin;
use speedtest_controller::plugin::{
    ConnectionDescriptor, Plugin, PluginError, PluginMetaData, ProtocolDescriptor,
    TestDescriptor,
};
use speedtest_controller::plugin_loader::PluginLoaderError;
use speedtest_controller::speedtest::SpeedTest;

fn payload(key: &str, n: u64) -> Value {
    let mut m = serde_json::Map::new();
    m.insert(key.to_string(), Value::from(n));
    Value::Object(m)
}

fn socks_connection(addr: &str) -> ConnectionDescriptor {
    ConnectionDescriptor {
        http: None,
        socks5: Some(addr.to_string()),
        tun: false,
    }
}

/// One plugin offering one proxy and one test, both succeeding.
fn simple_plugin(name: &str, proxy: &str, test: &str, latency: u64) -> LocalPlugin {
    LocalPlugin {
        meta: PluginMetaData {
            name: name.to_string(),
        },
        init_result: Ok(()),
        tests_result: Ok(vec![TestDescriptor {
            name: test.to_string(),
        }]),
        transforms_result: Ok(Vec::new()),
        protocols_result: Ok(vec![ProtocolDescriptor {
            name: proxy.to_string(),
            content: Value::Null,
        }]),
        setup_result: Ok(socks_connection("127.0.0.1:1080")),
        test_runs: vec![(test.to_string(), Ok(payload("latency_ms", latency)))],
        default_run: Err(PluginError::BadResponse("unknown test".to_string())),
    }
}

#[test]
fn single_plugin_single_leaf() {
    let plugin = simple_plugin("A", "p1", "t1", 42);
    let st = SpeedTest::new(vec![("A".to_string(), Ok(plugin))]);
    let pp = st.get_proxy_provider("x");
    let tp = st.get_test_provider();
    let tree = perform_speedtest_for_proxy_providers(&st.plugin_map, &pp, &tp);

    assert_eq!(tree.len(), 1);
    let (provider, proxies) = &tree[0];
    assert_eq!(provider, "A");
    assert_eq!(proxies.len(), 1);
    let (proxy, test_providers) = &proxies[0];
    assert_eq!(proxy, "p1");
    assert_eq!(test_providers.len(), 1);
    let (test_provider, leaves) = &test_providers[0];
    assert_eq!(test_provider, "A");
    assert_eq!(leaves.len(), 1);
    assert_eq!(leaves[0].0, "t1");
    assert_eq!(leaves[0].1, payload("latency_ms", 42));
}

#[test]
fn failed_setup_leaves_provider_empty() {
    let mut plugin = simple_plugin("A", "p1", "t1", 42);
    plugin.setup_result = Err(PluginError::Transport("connection refused".to_string()));
    let st = SpeedTest::new(vec![("A".to_string(), Ok(plugin))]);
    let pp = st.get_proxy_provider("x");
    let tp = st.get_test_provider();
    let tree = perform_speedtest_for_proxy_providers(&st.plugin_map, &pp, &tp);

    assert_eq!(tree.len(), 1);
    let (provider, proxies) = &tree[0];
    assert_eq!(provider, "A");
    assert!(proxies.is_empty());
}

#[test]
fn two_plugins_full_cross_product() {
    let a = simple_plugin("A", "pa", "ta", 1);
    let b = simple_plugin("B", "pb", "tb", 2);
    let st = SpeedTest::new(vec![
        ("A".to_string(), Ok(a)),
        ("B".to_string(), Ok(b)),
    ]);
    let pp = st.get_proxy_provider("x");
    let tp = st.get_test_provider();
    let tree = perform_speedtest_for_proxy_providers(&st.plugin_map, &pp, &tp);

    assert_eq!(tree.len(), 2);
    let mut leaves = Vec::new();
    for (provider, proxies) in &tree {
        assert_eq!(proxies.len(), 1);
        let (proxy, test_providers) = &proxies[0];
        // every proxy is crossed with every test provider
        assert_eq!(test_providers.len(), 2);
        for (test_provider, results) in test_providers {
            assert_eq!(results.len(), 1);
            leaves.push((
                provider.clone(),
                proxy.clone(),
                test_provider.clone(),
                results[0].0.clone(),
            ));
        }
    }
    assert_eq!(leaves.len(), 4);
    assert!(leaves.contains(&("A".into(), "pa".into(), "A".into(), "ta".into())));
    assert!(leaves.contains(&("A".into(), "pa".into(), "B".into(), "tb".into())));
    assert!(leaves.contains(&("B".into(), "pb".into(), "A".into(), "ta".into())));
    assert!(leaves.contains(&("B".into(), "pb".into(), "B".into(), "tb".into())));
}

#[test]
fn failed_run_skips_exactly_that_leaf() {
    let mut plugin = simple_plugin("A", "p1", "t1", 7);
    plugin.tests_result = Ok(vec![
        TestDescriptor {
            name: "t1".to_string(),
        },
        TestDescriptor {
            name: "t2".to_string(),
        },
    ]);
    plugin.test_runs = vec![
        ("t1".to_string(), Ok(payload("latency_ms", 7))),
        (
            "t2".to_string(),
            Err(PluginError::Transport("timed out".to_string())),
        ),
    ];
    let st = SpeedTest::new(vec![("A".to_string(), Ok(plugin))]);
    let pp = st.get_proxy_provider("x");
    let tp = st.get_test_provider();
    let tree = perform_speedtest_for_proxy_providers(&st.plugin_map, &pp, &tp);

    let leaves = &tree[0].1[0].1[0].1;
    assert_eq!(leaves.len(), 1);
    assert_eq!(leaves[0].0, "t1");
    assert_eq!(leaves[0].1, payload("latency_ms", 7));
}

#[test]
fn failed_load_excludes_plugin_everywhere() {
    let a = simple_plugin("A", "pa", "ta", 1);
    let st = SpeedTest::new(vec![
        ("A".to_string(), Ok(a)),
        (
            "B".to_string(),
            Err(PluginLoaderError::UnexpectedScheme(
                "docker://registry.example/image".to_string(),
            )),
        ),
    ]);
    assert_eq!(st.plugin_map.len(), 1);
    assert_eq!(st.plugin_map[0].0, "A");
    let pp = st.get_proxy_provider("x");
    let tp = st.get_test_provider();
    assert!(pp.iter().all(|e| e.0 != "B"));
    assert!(tp.iter().all(|e| e.0 != "B"));
    let tree = perform_speedtest_for_proxy_providers(&st.plugin_map, &pp, &tp);
    assert!(tree.iter().all(|e| e.0 != "B"));
}

#[test]
fn failed_discovery_isolates_one_sweep() {
    let mut plugin = simple_plugin("A", "pa", "ta", 1);
    plugin.tests_result = Err(PluginError::BadResponse("garbled".to_string()));
    let st = SpeedTest::new(vec![("A".to_string(), Ok(plugin))]);
    let pp = st.get_proxy_provider("x");
    let tp = st.get_test_provider();
    // the failing sweep drops the plugin; the other is unaffected
    assert_eq!(pp.len(), 1);
    assert_eq!(pp[0].0, "A");
    assert!(tp.is_empty());
}

#[test]
fn discovery_is_repeatable() {
    let a = simple_plugin("A", "pa", "ta", 1);
    let st = SpeedTest::new(vec![("A".to_string(), Ok(a))]);
    let pp1 = st.get_proxy_provider("x");
    let pp2 = st.get_proxy_provider("x");
    assert_eq!(pp1.len(), pp2.len());
    for (e1, e2) in pp1.iter().zip(pp2.iter()) {
        assert_eq!(e1.0, e2.0);
        assert_eq!(e1.1, e2.1);
        let names1: Vec<&String> = e1.2.iter().map(|d| &d.name).collect();
        let names2: Vec<&String> = e2.2.iter().map(|d| &d.name).collect();
        assert_eq!(names1, names2);
    }
    let tp1 = st.get_test_provider();
    let tp2 = st.get_test_provider();
    assert_eq!(tp1.len(), tp2.len());
}

#[test]
fn empty_registry_yields_empty_tree() {
    let st: SpeedTest<LocalPlugin> = SpeedTest::new(Vec::new());
    let pp = st.get_proxy_provider("x");
    let tp = st.get_test_provider();
    assert!(pp.is_empty());
    assert!(tp.is_empty());
    let tree = perform_speedtest_for_proxy_providers(&st.plugin_map, &pp, &tp);
    assert!(tree.is_empty());
}

#[test]
fn capability_calls_answer_from_the_table() {
    let plugin = simple_plugin("foo", "p", "t", 3);
    assert_eq!(plugin.metadata().unwrap().name, "foo");
    assert!(plugin.init().is_ok());
    assert!(plugin.data_transforms().unwrap().is_empty());
    let tests = plugin.tests().unwrap();
    assert_eq!(tests.len(), 1);
    assert_eq!(tests[0].name, "t");
    let conn = plugin.setup_proxy(Value::Null).unwrap();
    assert_eq!(conn.socks5.as_deref(), Some("127.0.0.1:1080"));
    assert_eq!(conn.http, None);
    assert!(!conn.tun);
    let unknown = plugin.run_test(
        &TestDescriptor {
            name: "missing".to_string(),
        },
        &conn,
    );
    assert!(matches!(unknown, Err(PluginError::BadResponse(_))));
}
