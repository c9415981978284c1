//! The callback from the provider: checking the state token, asking for the
//! code exchange, and turning the provider's reply into a session.
//!
//! The exchange itself is a network call and is left to the caller. One
//! callback therefore takes two steps here: `begin_callback` says what to
//! send, `finish_callback` judges what came back. No lock is held in between.

use crate::authorize::ProviderConfig;
use crate::cookie::{session_cookie, session_cookie_text};
use crate::encoding::{base64_input_limit, base64_text, encode_base64, pair};
use crate::error::AuthError;
use crate::json::{json_member, json_members, json_parsed, json_text, json_unsigned, parse_json};
use crate::registry::{consume_succeeds, consumed, StateRegistry};
use crate::session::{SessionStore, TokenRecord, TokenRecordView};
use crate::token::{is_identifier, random_alphanum};
use vstd::prelude::*;
use vstd::string::StringExecFns;
use vstd::string::StringSliceAdditionalSpecFns;
use vstd::utf8::encode_utf8;

verus! {

/// The number of characters of a session identifier.
pub const SESSION_ID_LENGTH: usize = 32;

/// How many candidates for a session identifier are tried before the login
/// is given up.
pub const SESSION_ID_ATTEMPTS: usize = 64;

/// The request that exchanges an authorization code for a token record: a
/// POST of `form`, URL-encoded, to `url`, with `authorization` as the value of
/// the `Authorization` header.
#[derive(Debug, Clone, PartialEq, Eq)]
pub struct TokenRequest {
    pub url: String,
    pub form: Vec<(String, String)>,
    pub authorization: String,
}

/// What became of the exchange request.
#[derive(Debug, Clone, PartialEq, Eq)]
pub enum ExchangeReply {
    /// No reply arrived: the connection failed or timed out.
    Unreachable,
    /// The provider replied with this status and body.
    Answered { status: u16, body: String },
}

/// What a successful callback hands to the browser.
#[derive(Debug, Clone, PartialEq, Eq)]
pub struct SessionGrant {
    /// The identifier of the new session.
    pub session_id: String,
    /// The value of the `Set-Cookie` header.
    pub set_cookie: String,
    /// Where the browser is sent next.
    pub redirect_to: String,
}

/// The credentials as the Basic scheme joins them.
pub open spec fn credentials(config: ProviderConfig) -> Seq<char> {
    config.client_id@ + ":"@ + config.client_secret@
}

/// The value of the `Authorization` header of the exchange request.
pub open spec fn basic_authorization_text(config: ProviderConfig) -> Seq<char> {
    "Basic "@ + base64_text(credentials(config))
}

/// Whether the credentials are short enough to be encoded.
pub open spec fn credentials_fit(config: ProviderConfig) -> bool {
    encode_utf8(credentials(config)).len() <= base64_input_limit()
}

/// The form of the exchange request for `code`.
pub open spec fn exchange_form(config: ProviderConfig, code: Seq<char>) -> Seq<
    (Seq<char>, Seq<char>),
> {
    seq![
        ("code"@, code),
        ("grant_type"@, "authorization_code"@),
        ("redirect_uri"@, config.redirect_uri@),
    ]
}

/// Whether `request` is the exchange request for `code`.
pub open spec fn is_exchange_request(
    request: TokenRequest,
    config: ProviderConfig,
    code: Seq<char>,
) -> bool {
    &&& request.url@ == "https://accounts.spotify.com/api/token"@
    &&& request.form.deep_view() == exchange_form(config, code)
    &&& request.authorization@ == basic_authorization_text(config)
}

/// The value of the `Authorization` header for the configured credentials:
/// `Basic`, a space, and the Base64 text of `client_id:client_secret`.
///
/// Fails with `ConfigurationFailure` exactly where the credentials are too
/// long to be encoded.
pub fn basic_authorization(config: &ProviderConfig) -> (outcome: Result<String, AuthError>)
    ensures
        outcome is Ok <==> credentials_fit(*config),
        outcome matches Ok(header) ==> header@ == basic_authorization_text(*config),
        outcome matches Err(error) ==> error == AuthError::ConfigurationFailure,
{
    let mut joined = config.client_id.clone();
    joined.append(":");
    joined.append(config.client_secret.as_str());
    let limit: usize = (isize::MAX as usize - 3) / 4 * 3;
    if joined.as_str().as_bytes().len() > limit {
        return Err(AuthError::ConfigurationFailure);
    }
    let mut header = String::from_str("Basic ");
    header.append(encode_base64(joined.as_str()).as_str());
    Ok(header)
}

/// The first step of a callback: consumes `state` and says what to send to
/// the provider.
///
/// - Where `state` is not outstanding, the callback is refused with
///   `ProtocolViolation` and the registry stays as it is.
/// - Otherwise `state` is consumed for good, whatever follows. The result is
///   the exchange request for `code`, or `ConfigurationFailure` where the
///   credentials cannot be encoded.
pub fn begin_callback(
    registry: &mut StateRegistry,
    config: &ProviderConfig,
    code: &str,
    state: &str,
) -> (outcome: Result<TokenRequest, AuthError>)
    ensures
        final(registry)@ == consumed(old(registry)@, state@),
        !consume_succeeds(old(registry)@, state@) ==> outcome == Err::<TokenRequest, AuthError>(
            AuthError::ProtocolViolation,
        ) && final(registry)@ == old(registry)@,
        consume_succeeds(old(registry)@, state@) && !credentials_fit(*config) ==> outcome == Err::<
            TokenRequest,
            AuthError,
        >(AuthError::ConfigurationFailure),
        consume_succeeds(old(registry)@, state@) && credentials_fit(*config) ==> outcome is Ok
            && is_exchange_request(outcome->Ok_0, *config, code@),
{
    if !registry.consume(state) {
        assert(old(registry)@.remove(state@) =~= old(registry)@);
        return Err(AuthError::ProtocolViolation);
    }
    match basic_authorization(config) {
        Ok(authorization) => {
            let mut form: Vec<(String, String)> = Vec::new();
            form.push(pair("code", code));
            form.push(pair("grant_type", "authorization_code"));
            form.push(pair("redirect_uri", config.redirect_uri.as_str()));
            assert(form.deep_view() =~= exchange_form(*config, code@));
            Ok(
                TokenRequest {
                    url: String::from_str("https://accounts.spotify.com/api/token"),
                    form,
                    authorization,
                },
            )
        },
        Err(error) => Err(error),
    }
}

/// The member `key` of `value`, where it is a JSON string.
pub open spec fn text_member(value: serde_json::Value, key: Seq<char>) -> Option<Seq<char>> {
    if json_members(value).contains_key(key) {
        json_text(json_members(value)[key])
    } else {
        None
    }
}

/// The member `key` of `value`, where it is an integer that fits `u64`.
pub open spec fn unsigned_member(value: serde_json::Value, key: Seq<char>) -> Option<u64> {
    if json_members(value).contains_key(key) {
        json_unsigned(json_members(value)[key])
    } else {
        None
    }
}

/// The token record that a JSON value holds: an object with the strings
/// `access_token` and `token_type`, the number `expires_in`, and, if it has a
/// member `refresh_token` at all, a string there. Other members are ignored.
/// `None` where a member is missing or of another type.
pub open spec fn token_of_json(value: serde_json::Value) -> Option<TokenRecordView> {
    let access_token = text_member(value, "access_token"@);
    let expires_in = unsigned_member(value, "expires_in"@);
    let token_type = text_member(value, "token_type"@);
    let refresh_token = text_member(value, "refresh_token"@);
    if access_token is Some && expires_in is Some && token_type is Some && (refresh_token is Some
        || !json_members(value).contains_key("refresh_token"@)) {
        Some(
            TokenRecordView {
                access_token: access_token->0,
                refresh_token,
                expires_in: expires_in->0,
                token_type: token_type->0,
            },
        )
    } else {
        None
    }
}

/// The token record that the text of a reply holds.
pub open spec fn token_of_body(body: Seq<char>) -> Option<TokenRecordView> {
    match json_parsed(body) {
        Some(value) => token_of_json(value),
        None => None,
    }
}

/// Whether `status` reports success.
pub open spec fn is_success(status: u16) -> bool {
    200 <= status <= 299
}

/// The token record that the exchange produced, if it produced one: the
/// provider answered, with a status from 200 to 299, and a body that holds a
/// token record.
pub open spec fn token_of_reply(reply: ExchangeReply) -> Option<TokenRecordView> {
    match reply {
        ExchangeReply::Unreachable => None,
        ExchangeReply::Answered { status, body } => if is_success(status) {
            token_of_body(body@)
        } else {
            None
        },
    }
}

/// The member `key` of `value` as text, if it is a JSON string.
fn read_text(value: &serde_json::Value, key: &str) -> (found: Option<String>)
    ensures
        found is Some <==> text_member(*value, key@) is Some,
        found matches Some(text) ==> text_member(*value, key@) == Some(text@),
{
    match json_member(value, key) {
        Some(member) => match member.as_str() {
            Some(text) => Some(String::from_str(text)),
            None => None,
        },
        None => None,
    }
}

/// Reads a token record from a parsed JSON value.
///
/// Succeeds exactly where the value is an object with the members of a token
/// record, each of its type; `refresh_token` may be missing.
pub fn token_from_json(value: &serde_json::Value) -> (found: Option<TokenRecord>)
    ensures
        found is Some <==> token_of_json(*value) is Some,
        found matches Some(record) ==> token_of_json(*value) == Some(record@),
{
    let access_token = match read_text(value, "access_token") {
        Some(text) => text,
        None => {
            return None;
        },
    };
    let expires_in = match json_member(value, "expires_in") {
        Some(member) => match member.as_u64() {
            Some(number) => number,
            None => {
                return None;
            },
        },
        None => {
            return None;
        },
    };
    let token_type = match read_text(value, "token_type") {
        Some(text) => text,
        None => {
            return None;
        },
    };
    let refresh_token = read_text(value, "refresh_token");
    if refresh_token.is_none() && json_member(value, "refresh_token").is_some() {
        return None;
    }
    Some(TokenRecord { access_token, refresh_token, expires_in, token_type })
}

/// Reads a token record from the body of a reply.
///
/// Succeeds exactly where the body is JSON text that holds a token record.
pub fn parse_token(body: &str) -> (found: Option<TokenRecord>)
    ensures
        found is Some <==> token_of_body(body@) is Some,
        found matches Some(record) ==> token_of_body(body@) == Some(record@),
{
    match parse_json(body) {
        Ok(value) => token_from_json(&value),
        Err(_) => None,
    }
}

/// Reads the token record that an exchange produced.
///
/// Succeeds exactly where the provider answered with a status from 200 to
/// 299 and a body that holds a token record.
pub fn token_from_reply(reply: &ExchangeReply) -> (found: Option<TokenRecord>)
    ensures
        found is Some <==> token_of_reply(*reply) is Some,
        found matches Some(record) ==> token_of_reply(*reply) == Some(record@),
{
    match reply {
        ExchangeReply::Unreachable => None,
        ExchangeReply::Answered { status, body } => {
            if 200 <= *status && *status <= 299 {
                parse_token(body.as_str())
            } else {
                None
            }
        },
    }
}

/// Whether `grant` is what the browser gets for a new session `id` whose
/// record lives `max_age` seconds.
pub open spec fn is_grant(grant: SessionGrant, id: Seq<char>, max_age: u64) -> bool {
    &&& grant.session_id@ == id
    &&& grant.set_cookie@ == session_cookie_text(id, max_age)
    &&& grant.redirect_to@ == "/"@
}

/// The second step of a callback, with the source of session identifiers
/// left to the caller: judges the provider's reply and opens a session.
///
/// - Where the reply holds no token record, the outcome is `UpstreamFailure`
///   and the store stays as it is. Nothing is retried: the code is spent.
/// - Otherwise `generate` is asked for identifiers, at most `attempts` times.
///   The first that names no session gets the record, and the grant carries
///   it in its cookie, with the record's lifetime as `Max-Age`. If all are
///   taken, the outcome is `IdentifierExhausted` and the store stays as it is.
pub fn complete_callback<F: Fn() -> String>(
    store: &mut SessionStore,
    reply: &ExchangeReply,
    generate: F,
    attempts: usize,
) -> (outcome: Result<SessionGrant, AuthError>)
    requires
        generate.requires(()),
    ensures
        token_of_reply(*reply) is None ==> outcome == Err::<SessionGrant, AuthError>(
            AuthError::UpstreamFailure,
        ),
        token_of_reply(*reply) is Some ==> outcome is Ok || outcome == Err::<
            SessionGrant,
            AuthError,
        >(AuthError::IdentifierExhausted),
        token_of_reply(*reply) is Some && attempts > 0 && (forall|id: String| #[trigger]
            generate.ensures((), id) ==> !old(store)@.contains_key(id@)) ==> outcome is Ok,
        (forall|id: String| #[trigger]
            generate.ensures((), id) ==> old(store)@.contains_key(id@)) ==> outcome is Err,
        outcome is Err ==> final(store)@ == old(store)@,
        outcome matches Ok(grant) ==> {
            let record = token_of_reply(*reply)->0;
            &&& generate.ensures((), grant.session_id)
            &&& !old(store)@.contains_key(grant.session_id@)
            &&& final(store)@ == old(store)@.insert(grant.session_id@, record)
            &&& is_grant(grant, grant.session_id@, record.expires_in)
        },
{
    let record = match token_from_reply(reply) {
        Some(record) => record,
        None => {
            return Err(AuthError::UpstreamFailure);
        },
    };
    let max_age = record.expires_in;
    match store.insert_unique(generate, record, attempts) {
        Ok(session_id) => {
            let set_cookie = session_cookie(session_id.as_str(), max_age);
            Ok(SessionGrant { session_id, set_cookie, redirect_to: String::from_str("/") })
        },
        Err(_) => Err(AuthError::IdentifierExhausted),
    }
}

/// The second step of a callback: judges the provider's reply and opens a
/// session under a fresh random identifier of `SESSION_ID_LENGTH` letters and
/// digits.
///
/// - Where the reply holds no token record, the outcome is `UpstreamFailure`
///   and the store stays as it is.
/// - Otherwise the outcome is a grant whose identifier named no session
///   before and now names the reply's record, or, where `SESSION_ID_ATTEMPTS`
///   random identifiers in a row were all taken, `IdentifierExhausted` with
///   the store as it was. A store that holds no identifier of that shape
///   cannot take one away, so there the grant is certain.
pub fn finish_callback(store: &mut SessionStore, reply: &ExchangeReply) -> (outcome: Result<
    SessionGrant,
    AuthError,
>)
    ensures
        token_of_reply(*reply) is None ==> outcome == Err::<SessionGrant, AuthError>(
            AuthError::UpstreamFailure,
        ),
        token_of_reply(*reply) is Some ==> outcome is Ok || outcome == Err::<
            SessionGrant,
            AuthError,
        >(AuthError::IdentifierExhausted),
        token_of_reply(*reply) is Some && (forall|id: Seq<char>|
            is_identifier(id, SESSION_ID_LENGTH as nat) ==> !#[trigger] old(store)@.contains_key(id))
            ==> outcome is Ok,
        outcome is Err ==> final(store)@ == old(store)@,
        outcome matches Ok(grant) ==> {
            let record = token_of_reply(*reply)->0;
            &&& is_identifier(grant.session_id@, SESSION_ID_LENGTH as nat)
            &&& !old(store)@.contains_key(grant.session_id@)
            &&& final(store)@ == old(store)@.insert(grant.session_id@, record)
            &&& is_grant(grant, grant.session_id@, record.expires_in)
        },
{
    let generate = || -> (id: String)
        ensures
            is_identifier(id@, SESSION_ID_LENGTH as nat),
        { random_alphanum(SESSION_ID_LENGTH) };
    complete_callback(store, reply, generate, SESSION_ID_ATTEMPTS)
}

} // verus!
