//! The capability contract that every plugin transport satisfies, and the
//! descriptor types that cross it.

use vstd::prelude::*;

use serde_json::Value;

use crate::value::clone_value;

verus! {

/// An error raised by one call on a plugin: the transport failed, the
/// response did not decode, an address did not parse, or the handshake
/// with a freshly launched plugin broke down.
#[derive(Debug)]
pub enum PluginError {
    Transport(String),
    BadResponse(String),
    Parse(String),
    Handshake(String),
}

/// The transport a plugin speaks.
#[derive(Debug, PartialEq, Eq, Structural)]
pub enum PluginType {
    JSONRPC,
}

impl Default for PluginType {
    fn default() -> (r: Self)
        ensures
            r == PluginType::JSONRPC,
    {
        PluginType::JSONRPC
    }
}

/// Identity a live plugin reports about itself.
#[derive(Debug)]
pub struct PluginMetaData {
    pub name: String,
}

/// One test a plugin can execute.
#[derive(Debug)]
pub struct TestDescriptor {
    pub name: String,
}

/// One data transform a plugin declares; the execution engine does not
/// consume these, they complete the capability contract.
#[derive(Debug)]
pub struct DataTransformDescriptor {
    pub name: String,
    pub accepted_scheme: String,
}

/// One proxy candidate a plugin can offer. `content` is plugin-private
/// configuration, handed back unread to the same plugin at setup time.
#[derive(Debug)]
pub struct ProtocolDescriptor {
    pub name: String,
    pub content: Value,
}

/// A live, ready-to-use proxy endpoint returned after a successful setup.
#[derive(Debug)]
pub struct ConnectionDescriptor {
    pub http: Option<String>,
    pub socks5: Option<String>,
    pub tun: bool,
}

/// A value that can hand out an equal copy of itself.
pub trait Duplicable: Sized {
    /// An equal copy of the value.
    fn duplicate(&self) -> (r: Self)
        ensures
            r == *self,
    ;
}

/// An equal copy of a vector, element by element.
pub fn duplicate_vec<T: Duplicable>(v: &Vec<T>) -> (r: Vec<T>)
    ensures
        r@ == v@,
{
    let mut r: Vec<T> = Vec::new();
    let mut i: usize = 0;
    while i < v.len()
        invariant
            i <= v@.len(),
            r@ == v@.take(i as int),
        decreases v@.len() - i,
    {
        r.push(v[i].duplicate());
        proof {
            assert(v@.take(i + 1) =~= v@.take(i as int).push(v@[i as int]));
        }
        i += 1;
    }
    proof {
        assert(v@.take(v@.len() as int) =~= v@);
    }
    r
}

impl Duplicable for ProtocolDescriptor {
    fn duplicate(&self) -> (r: Self) {
        ProtocolDescriptor { name: self.name.clone(), content: clone_value(&self.content) }
    }
}

impl Duplicable for ConnectionDescriptor {
    fn duplicate(&self) -> (r: Self) {
        let http = match &self.http {
            Some(s) => Some(s.clone()),
            None => None,
        };
        let socks5 = match &self.socks5 {
            Some(s) => Some(s.clone()),
            None => None,
        };
        ConnectionDescriptor { http, socks5, tun: self.tun }
    }
}

/// Whether an executable answer over `Vec` agrees with a modelled answer
/// over `Seq`: same success or failure, and on success the same items in
/// the same order.
pub open spec fn vec_result_agrees<T>(
    r: Result<Vec<T>, PluginError>,
    m: Result<Seq<T>, PluginError>,
) -> bool {
    match (r, m) {
        (Ok(v), Ok(s)) => v@ == s,
        (Err(e), Err(f)) => e == f,
        _ => false,
    }
}

/// The capability contract every plugin transport satisfies.
///
/// Each call may fail with a [`PluginError`]; a failure is always isolated
/// to the one call that raised it. The `*_model` spec functions give the
/// plugin's behaviour as a function of the call's arguments alone: the
/// contract describes a plugin whose answers are deterministic, which is
/// what repeatable discovery relies on. A transport that leaves a model
/// at its default promises nothing about that call beyond its type.
pub trait Plugin: Sized {
    /// The modelled outcome of `init`.
    open spec fn init_model(&self) -> Result<(), PluginError> {
        arbitrary()
    }

    /// The modelled outcome of `metadata`.
    open spec fn metadata_model(&self) -> Result<PluginMetaData, PluginError> {
        arbitrary()
    }

    /// The modelled outcome of `tests`.
    open spec fn tests_model(&self) -> Result<Seq<TestDescriptor>, PluginError> {
        arbitrary()
    }

    /// The modelled outcome of `setup_proxy` on one candidate's content.
    open spec fn setup_proxy_model(&self, proxy: Value) -> Result<ConnectionDescriptor, PluginError> {
        arbitrary()
    }

    /// The modelled outcome of `run_test` for one test over one connection.
    open spec fn run_test_model(&self, test: TestDescriptor, proxy: ConnectionDescriptor) -> Result<
        Value,
        PluginError,
    > {
        arbitrary()
    }

    /// The modelled outcome of `data_transforms`.
    open spec fn data_transforms_model(&self) -> Result<Seq<DataTransformDescriptor>, PluginError> {
        arbitrary()
    }

    /// The modelled outcome of `parse_protocol` on one connection string.
    open spec fn parse_protocol_model(&self, connection_string: Seq<char>) -> Result<
        Seq<ProtocolDescriptor>,
        PluginError,
    > {
        arbitrary()
    }

    /// One-shot setup call, made once after the channel is usable.
    fn init(&self) -> (r: Result<(), PluginError>)
        ensures
            r == self.init_model(),
    ;

    /// The identity the plugin reports about itself.
    fn metadata(&self) -> (r: Result<PluginMetaData, PluginError>)
        ensures
            r == self.metadata_model(),
    ;

    /// The tests this plugin can run.
    fn tests(&self) -> (r: Result<Vec<TestDescriptor>, PluginError>)
        ensures
            vec_result_agrees(r, self.tests_model()),
    ;

    /// Produce a live connection from one candidate's private content.
    fn setup_proxy(&self, proxy: Value) -> (r: Result<ConnectionDescriptor, PluginError>)
        ensures
            r == self.setup_proxy_model(proxy),
    ;

    /// Execute one test against one live connection.
    fn run_test(&self, test: &TestDescriptor, proxy: &ConnectionDescriptor) -> (r: Result<
        Value,
        PluginError,
    >)
        ensures
            r == self.run_test_model(*test, *proxy),
    ;

    /// The data transforms this plugin declares.
    fn data_transforms(&self) -> (r: Result<Vec<DataTransformDescriptor>, PluginError>)
        ensures
            vec_result_agrees(r, self.data_transforms_model()),
    ;

    /// Expand one connection string into the proxy candidates this plugin
    /// can offer for it.
    fn parse_protocol(&self, connection_string: &str) -> (r: Result<
        Vec<ProtocolDescriptor>,
        PluginError,
    >)
        ensures
            vec_result_agrees(r, self.parse_protocol_model(connection_string@)),
    ;
}

impl Duplicable for PluginError {
    fn duplicate(&self) -> (r: Self) {
        match self {
            PluginError::Transport(s) => PluginError::Transport(s.clone()),
            PluginError::BadResponse(s) => PluginError::BadResponse(s.clone()),
            PluginError::Parse(s) => PluginError::Parse(s.clone()),
            PluginError::Handshake(s) => PluginError::Handshake(s.clone()),
        }
    }
}

impl Duplicable for PluginMetaData {
    fn duplicate(&self) -> (r: Self) {
        PluginMetaData { name: self.name.clone() }
    }
}

impl Duplicable for TestDescriptor {
    fn duplicate(&self) -> (r: Self) {
        TestDescriptor { name: self.name.clone() }
    }
}

impl Duplicable for DataTransformDescriptor {
    fn duplicate(&self) -> (r: Self) {
        DataTransformDescriptor {
            name: self.name.clone(),
            accepted_scheme: self.accepted_scheme.clone(),
        }
    }
}

} // verus!
