//! A local, in-process plugin.
//!
//! The capability contract is transport-agnostic: a plugin living in the
//! controller's own process is as valid as one reached over a message
//! channel. This one answers every call from a fixed table, so its
//! behaviour is a plain function of each call's arguments; it serves as
//! the reference implementation of the contract and drives the engine in
//! the crate's tests.

use vstd::prelude::*;

use serde_json::Value;

use crate::plugin::{
    duplicate_vec, ConnectionDescriptor, DataTransformDescriptor, Duplicable, Plugin,
    PluginError, PluginMetaData, ProtocolDescriptor, TestDescriptor,
};
use crate::value::clone_value;

verus! {

/// A plugin that answers from a fixed table: one answer per capability
/// call, and per-test answers for `run_test` keyed by test name.
pub struct LocalPlugin {
    /// The identity reported by `metadata`.
    pub meta: PluginMetaData,
    /// The answer to `init`.
    pub init_result: Result<(), PluginError>,
    /// The answer to `tests`.
    pub tests_result: Result<Vec<TestDescriptor>, PluginError>,
    /// The answer to `data_transforms`.
    pub transforms_result: Result<Vec<DataTransformDescriptor>, PluginError>,
    /// The answer to `parse_protocol`, whatever the connection string.
    pub protocols_result: Result<Vec<ProtocolDescriptor>, PluginError>,
    /// The answer to `setup_proxy`, whatever the candidate's content.
    pub setup_result: Result<ConnectionDescriptor, PluginError>,
    /// The answers to `run_test`, looked up by test name; the first
    /// entry with the test's name decides.
    pub test_runs: Vec<(String, Result<Value, PluginError>)>,
    /// The answer to `run_test` for a test name with no entry.
    pub default_run: Result<Value, PluginError>,
}

/// The answer the run table holds for a test name: the first entry with
/// that name decides, and a name with no entry falls back to the default.
pub open spec fn lookup_run(
    runs: Seq<(String, Result<Value, PluginError>)>,
    name: Seq<char>,
    default: Result<Value, PluginError>,
) -> Result<Value, PluginError>
    decreases runs.len(),
{
    if runs.len() == 0 {
        default
    } else if runs[0].0@ == name {
        runs[0].1
    } else {
        lookup_run(runs.drop_first(), name, default)
    }
}

/// An equal copy of one stored `run_test` answer.
fn duplicate_run(r: &Result<Value, PluginError>) -> (d: Result<Value, PluginError>)
    ensures
        d == *r,
{
    match r {
        Ok(v) => Ok(clone_value(v)),
        Err(e) => Err(e.duplicate()),
    }
}

impl Plugin for LocalPlugin {
    open spec fn init_model(&self) -> Result<(), PluginError> {
        self.init_result
    }

    open spec fn metadata_model(&self) -> Result<PluginMetaData, PluginError> {
        Ok(self.meta)
    }

    open spec fn tests_model(&self) -> Result<Seq<TestDescriptor>, PluginError> {
        match self.tests_result {
            Ok(v) => Ok(v@),
            Err(e) => Err(e),
        }
    }

    open spec fn setup_proxy_model(&self, proxy: Value) -> Result<
        ConnectionDescriptor,
        PluginError,
    > {
        self.setup_result
    }

    open spec fn run_test_model(&self, test: TestDescriptor, proxy: ConnectionDescriptor) -> Result<
        Value,
        PluginError,
    > {
        lookup_run(self.test_runs@, test.name@, self.default_run)
    }

    open spec fn data_transforms_model(&self) -> Result<Seq<DataTransformDescriptor>, PluginError> {
        match self.transforms_result {
            Ok(v) => Ok(v@),
            Err(e) => Err(e),
        }
    }

    open spec fn parse_protocol_model(&self, connection_string: Seq<char>) -> Result<
        Seq<ProtocolDescriptor>,
        PluginError,
    > {
        match self.protocols_result {
            Ok(v) => Ok(v@),
            Err(e) => Err(e),
        }
    }

    fn init(&self) -> (r: Result<(), PluginError>) {
        match &self.init_result {
            Ok(u) => Ok(*u),
            Err(e) => Err(e.duplicate()),
        }
    }

    fn metadata(&self) -> (r: Result<PluginMetaData, PluginError>) {
        Ok(self.meta.duplicate())
    }

    fn tests(&self) -> (r: Result<Vec<TestDescriptor>, PluginError>) {
        match &self.tests_result {
            Ok(v) => Ok(duplicate_vec(v)),
            Err(e) => Err(e.duplicate()),
        }
    }

    fn setup_proxy(&self, proxy: Value) -> (r: Result<ConnectionDescriptor, PluginError>) {
        match &self.setup_result {
            Ok(c) => Ok(c.duplicate()),
            Err(e) => Err(e.duplicate()),
        }
    }

    fn run_test(&self, test: &TestDescriptor, proxy: &ConnectionDescriptor) -> (r: Result<
        Value,
        PluginError,
    >) {
        let mut i: usize = 0;
        proof {
            assert(self.test_runs@.skip(0) =~= self.test_runs@);
        }
        while i < self.test_runs.len()
            invariant
                i <= self.test_runs@.len(),
                lookup_run(self.test_runs@, test.name@, self.default_run) == lookup_run(
                    self.test_runs@.skip(i as int),
                    test.name@,
                    self.default_run,
                ),
            decreases self.test_runs@.len() - i,
        {
            proof {
                assert(self.test_runs@.skip(i as int)[0] == self.test_runs@[i as int]);
                assert(self.test_runs@.skip(i as int).drop_first() =~= self.test_runs@.skip(
                    i + 1,
                ));
            }
            if self.test_runs[i].0 == test.name {
                return duplicate_run(&self.test_runs[i].1);
            }
            i += 1;
        }
        proof {
            assert(self.test_runs@.skip(self.test_runs@.len() as int).len() == 0);
        }
        duplicate_run(&self.default_run)
    }

    fn data_transforms(&self) -> (r: Result<Vec<DataTransformDescriptor>, PluginError>) {
        match &self.transforms_result {
            Ok(v) => Ok(duplicate_vec(v)),
            Err(e) => Err(e.duplicate()),
        }
    }

    fn parse_protocol(&self, connection_string: &str) -> (r: Result<
        Vec<ProtocolDescriptor>,
        PluginError,
    >) {
        match &self.protocols_result {
            Ok(v) => Ok(duplicate_vec(v)),
            Err(e) => Err(e.duplicate()),
        }
    }
}

} // verus!
