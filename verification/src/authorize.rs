//! Starting a login: the redirect to the provider's authorization endpoint.

use crate::encoding::{build_uri, encode_query, pair, query_string, uri_text};
use crate::error::AuthError;
use crate::registry::{registered, StateRegistry};
use crate::token::{is_identifier, random_alphanum};
use vstd::prelude::*;
use vstd::string::StringExecFns;

verus! {

/// The number of characters of a state token.
pub const STATE_LENGTH: usize = 16;

/// What a deployment is configured with: its registration at the provider
/// and what it asks for.
#[derive(Debug, Clone, PartialEq, Eq)]
pub struct ProviderConfig {
    /// The client identifier that the provider issued.
    pub client_id: String,
    /// The client secret that the provider issued.
    pub client_secret: String,
    /// Where the provider sends the browser back to.
    pub redirect_uri: String,
    /// The scopes asked for, separated by spaces.
    pub scope: String,
}

/// Where to send the browser to start a login.
#[derive(Debug, Clone, PartialEq, Eq)]
pub struct RedirectTarget {
    /// The provider's authorization URL, query included.
    pub url: String,
    /// The state token that the URL carries.
    pub state: String,
}

/// The parameters of an authorization request, in the order in which they are
/// handed to the encoder.
pub open spec fn authorization_pairs(config: ProviderConfig, state: Seq<char>) -> Seq<
    (Seq<char>, Seq<char>),
> {
    seq![
        ("response_type"@, "code"@),
        ("client_id"@, config.client_id@),
        ("scope"@, config.scope@),
        ("redirect_uri"@, config.redirect_uri@),
        ("state"@, state),
    ]
}

/// The authorization URL for `state`: the provider's endpoint with the
/// encoded parameters as its query. `None` where the configured values cannot
/// be encoded or make no URI.
pub open spec fn authorization_url_text(config: ProviderConfig, state: Seq<char>) -> Option<
    Seq<char>,
> {
    match query_string(authorization_pairs(config, state)) {
        Some(query) => uri_text("https"@, "accounts.spotify.com"@, "/authorize/?"@ + query),
        None => None,
    }
}

/// The provider's authorization URL for a login that carries `state`.
///
/// Fails with `ConfigurationFailure` exactly where the parameters cannot be
/// encoded or the result is no URI.
pub fn authorization_url(config: &ProviderConfig, state: &str) -> (outcome: Result<
    String,
    AuthError,
>)
    ensures
        outcome is Ok <==> authorization_url_text(*config, state@) is Some,
        outcome matches Ok(url) ==> authorization_url_text(*config, state@) == Some(url@),
        outcome matches Err(error) ==> error == AuthError::ConfigurationFailure,
{
    let mut pairs: Vec<(String, String)> = Vec::new();
    pairs.push(pair("response_type", "code"));
    pairs.push(pair("client_id", config.client_id.as_str()));
    pairs.push(pair("scope", config.scope.as_str()));
    pairs.push(pair("redirect_uri", config.redirect_uri.as_str()));
    pairs.push(pair("state", state));
    assert(pairs.deep_view() =~= authorization_pairs(*config, state@));
    match encode_query(&pairs) {
        Ok(query) => {
            let mut path_and_query = String::from_str("/authorize/?");
            path_and_query.append(query.as_str());
            match build_uri("https", "accounts.spotify.com", path_and_query.as_str()) {
                Ok(url) => Ok(url),
                Err(_) => Err(AuthError::ConfigurationFailure),
            }
        },
        Err(_) => Err(AuthError::ConfigurationFailure),
    }
}

/// Starts a login: mints a state token, builds the authorization URL that
/// carries it, and registers the token.
///
/// On success the token is new random text of `STATE_LENGTH` letters and
/// digits, it is outstanding in the registry, and the URL is the one that
/// `authorization_url` gives for it. It fails only where the URL for the
/// minted token cannot be built, and then the registry is unchanged.
pub fn start_login(registry: &mut StateRegistry, config: &ProviderConfig) -> (outcome: Result<
    RedirectTarget,
    AuthError,
>)
    ensures
        match outcome {
            Ok(target) => {
                &&& is_identifier(target.state@, STATE_LENGTH as nat)
                &&& authorization_url_text(*config, target.state@) == Some(target.url@)
                &&& final(registry)@ == registered(old(registry)@, target.state@)
            },
            Err(error) => {
                &&& error == AuthError::ConfigurationFailure
                &&& final(registry)@ == old(registry)@
                &&& exists|state: Seq<char>|
                    is_identifier(state, STATE_LENGTH as nat) && #[trigger] authorization_url_text(
                        *config,
                        state,
                    ) is None
            },
        },
{
    let state = random_alphanum(STATE_LENGTH);
    match authorization_url(config, state.as_str()) {
        Ok(url) => {
            registry.register(state.clone());
            Ok(RedirectTarget { url, state })
        },
        Err(error) => Err(error),
    }
}

} // verus!
