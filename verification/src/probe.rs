//! The settings probe: given the base URL a freshly started server announced,
//! the application issues one HTTP GET against the server's well-known
//! settings path and hands the status code and body back to this module,
//! which validates the JSON shape and extracts the server version and the
//! canonical base URL.
//!
//! The probe is single-attempt by design; a retry policy, if wanted, is
//! layered on top by the caller without changing these contracts.

use vstd::prelude::*;
use vstd::string::StrSliceExecFns;
use vstd::string::StringExecFns;

verus! {

/// What the settings endpoint reported about the running server.
#[derive(Debug, Clone)]
pub struct SettingsData {
    /// The server's own semantic version string.
    pub version: String,
    /// The canonical base URL the server wants clients to use; it may
    /// differ from the URL the endpoint was discovered under.
    pub base_url: String,
}

/// Why the settings probe failed.
#[derive(Debug, Clone, PartialEq, Eq)]
pub enum SettingsError {
    /// The HTTP request itself failed; the transport's message is carried
    /// along.  Built by the caller, which owns the HTTP client.
    Transport { message: String },
    /// The endpoint answered with a non-success status code.
    HttpStatus { code: u16 },
    /// The body was not a JSON document of the expected shape.
    ShapeMismatch,
}

/// The URL of the settings endpoint under a base URL: the base joined with
/// the well-known path `settings`, without doubling a trailing slash.
pub open spec fn spec_settings_url(base: Seq<char>) -> Seq<char> {
    if base.len() > 0 && base[base.len() - 1] == '/' {
        base + "settings"@
    } else {
        base + "/settings"@
    }
}

/// Builds the settings endpoint URL for a base URL.
pub fn settings_url(base: &str) -> (r: String)
    ensures
        r@ == spec_settings_url(base@),
{
    let n = base.unicode_len();
    let mut out = String::from_str(base);
    if n > 0 && base.get_char(n - 1) == '/' {
        out.append("settings");
    } else {
        out.append("/settings");
    }
    out
}

/// Judges one settings response.  A non-success status is rejected as
/// such; a success status has its body read as the settings document, and
/// exactly a body of the documented shape yields the version and the
/// canonical base URL (see [`crate::json::spec_settings_of`]).  The
/// transport-failure case never reaches this function: the caller builds
/// [`SettingsError::Transport`] itself when the request could not be made.
pub fn evaluate_response(status: u16, body: &str) -> (r: Result<SettingsData, SettingsError>)
    ensures
        !(200 <= status < 300) ==> r == Err::<SettingsData, SettingsError>(
            SettingsError::HttpStatus { code: status },
        ),
        200 <= status < 300 && crate::json::spec_settings_of(body@) is None ==> r == Err::<
            SettingsData,
            SettingsError,
        >(SettingsError::ShapeMismatch),
        200 <= status < 300 ==> (crate::json::spec_settings_of(body@) matches Some(p) ==> (
        r matches Ok(d) && d.version@ == p.0 && d.base_url@ == p.1)),
{
    if !(200 <= status && status < 300) {
        return Err(SettingsError::HttpStatus { code: status });
    }
    match crate::json::settings_fields(body) {
        Some(p) => {
            let (version, base_url) = p;
            Ok(SettingsData { version, base_url })
        },
        None => Err(SettingsError::ShapeMismatch),
    }
}

} // verus!
