use serde_json::Value;
use speedtest_controller::plugin::PluginType;
use speedtest_controller::plugin_loader::{PluginLoaderError, SourceUri};
use speedtest_controller::speedtest::{plan_plugin_launch, PluginConfig};

#[test]
fn parse_file_uri() {
    let uri = SourceUri::parse("file:///usr/local/bin/plugin-hello").unwrap();
    assert_eq!(uri.scheme, "file");
    assert_eq!(uri.path, "/usr/local/bin/plugin-hello");
    assert_eq!(uri.raw, "file:///usr/local/bin/plugin-hello");
}

#[test]
fn parse_docker_uri() {
    let uri = SourceUri::parse("docker://registry.example/image").unwrap();
    assert_eq!(uri.scheme, "docker");
    assert_eq!(uri.path, "/image");
}

#[test]
fn parse_rejects_non_uri() {
    assert!(SourceUri::parse("just a string").is_none());
}

#[test]
fn plan_accepts_file_scheme() {
    let config = PluginConfig {
        source: SourceUri::parse("file:///opt/plugins/hello").unwrap(),
        plugin_kind: PluginType::JSONRPC,
        config: Value::Null,
    };
    let r = plan_plugin_launch(&config);
    assert_eq!(r.ok(), Some("/opt/plugins/hello".to_string()));
}

#[test]
fn plan_refuses_unsupported_scheme() {
    let config = PluginConfig {
        source: SourceUri::parse("docker://registry.example/image").unwrap(),
        plugin_kind: PluginType::JSONRPC,
        config: Value::Null,
    };
    match plan_plugin_launch(&config) {
        Err(PluginLoaderError::UnexpectedScheme(raw)) => {
            assert_eq!(raw, "docker://registry.example/image");
        }
        _ => panic!("a non-file scheme must be refused"),
    }
}

#[test]
fn plugin_type_defaults_to_jsonrpc() {
    assert_eq!(PluginType::default(), PluginType::JSONRPC);
}
