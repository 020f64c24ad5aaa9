//! The token-resolution policy shared by the fetch engines: try the local
//! CLI's token subcommand first; only on failure fall back to the persisted
//! credential-store entry; if both fail, the caller must ask the user to
//! authenticate.

use vstd::prelude::*;
use vstd::string::StringExecFns;
use crate::strutil::has_non_space;
use crate::strutil::is_trimmed_of;
use crate::strutil::trim_ascii;

verus! {

/// Where token resolution stands. `NeedStore` is reached only after the CLI
/// probe came back empty; a resolved token is final.
#[derive(Debug, Clone, PartialEq)]
pub enum TokenResolution {
    /// Ask the CLI's token subcommand.
    NeedCli,
    /// The CLI had nothing; ask the credential store.
    NeedStore,
    /// This token is used exclusively; nothing else is consulted.
    Resolved(String),
    /// Neither source had a token.
    Missing,
}

/// What resolution does with the CLI probe's result.
pub open spec fn spec_after_cli(probe: Option<String>) -> TokenResolution {
    match probe {
        Some(t) => TokenResolution::Resolved(t),
        None => TokenResolution::NeedStore,
    }
}

/// What resolution does with the credential store's result.
pub open spec fn spec_after_store(lookup: Option<String>) -> TokenResolution {
    match lookup {
        Some(t) => TokenResolution::Resolved(t),
        None => TokenResolution::Missing,
    }
}

/// Resolution starts with the CLI probe.
pub fn token_probe_start() -> (r: TokenResolution)
    ensures
        r is NeedCli,
{
    TokenResolution::NeedCli
}

/// Continues after the CLI probe.
pub fn token_after_cli(probe: Option<String>) -> (r: TokenResolution)
    ensures
        r == spec_after_cli(probe),
{
    match probe {
        Some(t) => TokenResolution::Resolved(t),
        None => TokenResolution::NeedStore,
    }
}

/// Continues after the credential-store lookup.
pub fn token_after_store(lookup: Option<String>) -> (r: TokenResolution)
    ensures
        r == spec_after_store(lookup),
{
    match lookup {
        Some(t) => TokenResolution::Resolved(t),
        None => TokenResolution::Missing,
    }
}

/// A CLI token takes precedence unconditionally: when the probe yields a
/// token, resolution is final with exactly that token, and the store step
/// (`NeedStore`) is never reached — whatever the store would have said.
pub proof fn lemma_cli_token_precedence(probe: Option<String>)
    ensures
        probe matches Some(t) ==> spec_after_cli(probe) == TokenResolution::Resolved(t),
        spec_after_cli(probe) is NeedStore <==> probe is None,
{
}

/// Resolves a token from both sources' simulated results: the CLI's, and
/// the store's. The store's value is read only when the CLI has none.
pub fn resolve_token(cli: Option<String>, store: Option<String>) -> (r: Option<String>)
    ensures
        cli matches Some(t) ==> r == Some(t),
        cli is None ==> r == store,
{
    match token_after_cli(cli) {
        TokenResolution::Resolved(t) => Some(t),
        _ => match token_after_store(store) {
            TokenResolution::Resolved(t) => Some(t),
            _ => None,
        },
    }
}

/// Distils the CLI token subcommand's output: a zero exit status and a
/// non-blank stdout yield the trimmed token; anything else is a failure
/// carrying the trimmed stderr.
pub fn cli_token_from_output(success: bool, stdout: &str, stderr: &str) -> (r: Result<
    String,
    String,
>)
    ensures
        r is Ok <==> success && has_non_space(stdout@),
        r matches Ok(t) ==> is_trimmed_of(t@, stdout@),
        r matches Err(m) ==> {
            exists|t: Seq<char>|
                {
                    &&& is_trimmed_of(t, stderr@)
                    &&& m@ == "gh auth token failed: "@ + t + ". Run 'gh auth login' first."@
                }
        },
{
    if success {
        let token = trim_ascii(stdout);
        if !token.as_str().is_empty() {
            proof {
                assert(token@.len() > 0);
            }
            return Ok(token);
        }
    }
    let tail = trim_ascii(stderr);
    let mut m = String::from_str("gh auth token failed: ");
    m.append(tail.as_str());
    m.append(". Run 'gh auth login' first.");
    proof {
        assert(m@ == "gh auth token failed: "@ + tail@ + ". Run 'gh auth login' first."@);
    }
    Err(m)
}

} // verus!
