//! Loading errors and the plugin source URI.
//!
//! A plugin's source is configured as a URI; only its scheme and path take
//! part in any load decision, so the library keeps exactly those, next to
//! the serialised form used in diagnostics.

use vstd::prelude::*;

use crate::plugin::PluginError;

verus! {

/// Why one plugin failed to load. A load failure is always isolated to
/// the plugin it concerns; it never aborts the run.
#[derive(Debug)]
pub enum PluginLoaderError {
    /// The configured source URI has a scheme the loader does not
    /// support; the payload is the serialised URI.
    UnexpectedScheme(String),
    /// A call on the freshly connected plugin failed.
    PluginError(PluginError),
}

/// A plugin source URI, reduced to what load decisions read: its scheme,
/// its path, and the serialised whole for diagnostics.
#[derive(Debug)]
pub struct SourceUri {
    pub scheme: String,
    pub path: String,
    pub raw: String,
}

/// What parsing a URI string yields: the scheme, the path and the
/// serialised form, or nothing when the string is no absolute URI.
pub uninterp spec fn parsed_uri(s: Seq<char>) -> Option<(Seq<char>, Seq<char>, Seq<char>)>;

/// Relies on url::Url::parse, Url::scheme, Url::path and the String
/// conversion of Url: the scheme is reported lower-cased without its ':'
/// delimiter, the path percent-encoded, and all three depend on the input
/// string alone.
#[verifier::external_body]
fn parse_uri_raw(s: &str) -> (r: Option<(String, String, String)>)
    ensures
        match (r, parsed_uri(s@)) {
            (Some(t), Some(m)) => t.0@ == m.0 && t.1@ == m.1 && t.2@ == m.2,
            (None, None) => true,
            _ => false,
        },
{
    match url::Url::parse(s) {
        Ok(u) => {
            let scheme = u.scheme().to_string();
            let path = u.path().to_string();
            Some((scheme, path, String::from(u)))
        },
        Err(_) => None,
    }
}

impl SourceUri {
    /// Resolve a URI string into the parts load decisions read.
    pub fn parse(s: &str) -> (r: Option<SourceUri>)
        ensures
            match (r, parsed_uri(s@)) {
                (Some(u), Some(m)) => u.scheme@ == m.0 && u.path@ == m.1 && u.raw@ == m.2,
                (None, None) => true,
                _ => false,
            },
    {
        match parse_uri_raw(s) {
            Some((scheme, path, raw)) => Some(SourceUri { scheme, path, raw }),
            None => None,
        }
    }
}

} // verus!
