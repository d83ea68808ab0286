//! Run configuration: what the command line and the environment resolve to.

use vstd::prelude::*;

verus! {

/// Page limit used when the command line gives none.
pub const DEFAULT_PAGE_LIMIT: u32 = 50;

/// A configuration problem that is fatal before any network activity.
#[derive(Debug, Clone, Copy, PartialEq, Eq, Structural)]
pub enum ConfigError {
    /// The API key came neither from the flag nor from the environment.
    MissingApiKey,
    /// The target URL does not parse.
    MalformedUrl,
    /// The target URL parses but has no host to derive a file name from.
    MissingDomain,
}

/// Everything one run needs, resolved once and read-only thereafter.
#[derive(Debug, Clone)]
pub struct RunConfig {
    /// The URL to crawl.
    pub url: String,
    /// An explicit output file path, if the user gave one.
    pub output: Option<String>,
    /// The maximum number of pages to crawl.
    pub limit: u32,
    /// The service credential.
    pub api_key: String,
    /// When set, no file is written; only the clipboard is filled.
    pub clipboard_only: bool,
}

/// Builds the run configuration from the resolved command-line values.
///
/// The API key may come from the explicit flag or, failing that, from the
/// environment; when both are absent the run is refused before any network
/// call can happen.
pub fn build_config(
    url: String,
    output: Option<String>,
    limit: u32,
    api_key_flag: Option<String>,
    api_key_env: Option<String>,
    clipboard_only: bool,
) -> (r: Result<RunConfig, ConfigError>)
    ensures
        r is Err <==> api_key_flag is None && api_key_env is None,
        r is Err ==> r == Err::<RunConfig, ConfigError>(ConfigError::MissingApiKey),
        r matches Ok(c) ==> c.url == url && c.output == output && c.limit == limit
            && c.clipboard_only == clipboard_only,
        api_key_flag matches Some(k) ==> r matches Ok(c) && c.api_key == k,
        api_key_flag is None ==> (api_key_env matches Some(k) ==> r matches Ok(c) && c.api_key
            == k),
{
    let api_key = match api_key_flag {
        Some(k) => k,
        None => match api_key_env {
            Some(k) => k,
            None => {
                return Err(ConfigError::MissingApiKey);
            },
        },
    };
    Ok(RunConfig { url, output, limit, api_key, clipboard_only })
}

} // verus!
