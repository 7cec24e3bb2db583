//! Token acquisition: the credentials and their Basic-auth rendering, the
//! token-endpoint request, the decoding of the token response, and the
//! expiry-aware cache that shares one bearer token across calls.
//!
//! The cache itself is a plain value. A process that serves concurrent callers
//! wraps one instance in a mutual-exclusion lock and holds the lock across the
//! whole check-refresh-install sequence; the contracts here then give the
//! serialization its meaning: a refresh installs exactly the response's token,
//! and every caller that arrives while that token is fresh reads it back and
//! triggers no further refresh.

use vstd::prelude::*;
use crate::error::OpsError;
use crate::json::{
    json_str_field, json_str_field_of, json_str_field_or_empty, json_str_field_or_empty_of,
};
use crate::request::{header_is, HttpRequest, Method};
use crate::text::{dec_val, is_u64_text, parse_u64, push_char};

verus! {

/// What the base64 crate's standard-alphabet encoding returns for a string's
/// bytes: a function of the characters alone.
pub uninterp spec fn base64_of(s: Seq<char>) -> Seq<char>;

/// Relies on base64's `Engine::encode` with the standard engine: the result
/// depends on the input bytes alone. The length bound keeps the input well
/// clear of the size at which the encoder's buffer arithmetic aborts.
#[verifier::external_body]
fn base64_encode(s: &str) -> (r: String)
    requires
        s@.len() <= usize::MAX / 8,
    ensures
        r@ == base64_of(s@),
{
    base64::Engine::encode(&base64::prelude::BASE64_STANDARD, s)
}

/// The key pair that identifies this client to the token endpoint.
#[derive(Clone, Debug)]
pub struct EpoOpsCredentials {
    pub consumer_key: String,
    pub secret_key: String,
}

impl EpoOpsCredentials {
    /// The Basic-auth value: base64 of `consumer_key:secret_key`.
    pub fn format_credentials(&self) -> (r: String)
        requires
            self.consumer_key@.len() + self.secret_key@.len() < usize::MAX / 8,
        ensures
            r@ == base64_of(self.consumer_key@ + seq![':'] + self.secret_key@),
    {
        let mut joined = String::new();
        joined.append(self.consumer_key.as_str());
        push_char(&mut joined, ':');
        joined.append(self.secret_key.as_str());
        assert(joined@ =~= self.consumer_key@ + seq![':'] + self.secret_key@);
        base64_encode(joined.as_str())
    }
}

/// Builds the token-endpoint request: an unauthenticated POST carrying the
/// client-credentials grant and the Basic authorization header.
pub fn token_request(credentials: &EpoOpsCredentials) -> (r: HttpRequest)
    requires
        credentials.consumer_key@.len() + credentials.secret_key@.len() < usize::MAX / 8,
    ensures
        r.method == Method::Post,
        r.url@ == "https://ops.epo.org/3.2/auth/accesstoken"@,
        r.body matches Some(b) && b@ == "grant_type=client_credentials"@,
        r.needs_auth == false,
        r.headers@.len() == 2,
        header_is(
            r.headers@[0],
            "Authorization"@,
            "Basic "@ + base64_of(
                credentials.consumer_key@ + seq![':'] + credentials.secret_key@,
            ),
        ),
        header_is(r.headers@[1], "Content-Type"@, "application/x-www-form-urlencoded"@),
{
    let basic = credentials.format_credentials();
    let mut auth_value = String::from_str("Basic ");
    auth_value.append(basic.as_str());
    let mut headers: Vec<(String, String)> = Vec::new();
    headers.push((String::from_str("Authorization"), auth_value));
    headers.push((
        String::from_str("Content-Type"),
        String::from_str("application/x-www-form-urlencoded"),
    ));
    HttpRequest {
        method: Method::Post,
        url: String::from_str("https://ops.epo.org/3.2/auth/accesstoken"),
        headers,
        body: Some(String::from_str("grant_type=client_credentials")),
        needs_auth: false,
    }
}

/// A token-endpoint response. The cache consumes `access_token`, `expires_in`
/// and `issued_at` (the numbers travel as decimal strings); the remaining
/// fields are carried for the caller and are empty when the service omits
/// them.
#[derive(Debug, Clone)]
pub struct TokenResponse {
    pub access_token: String,
    pub api_product_list: String,
    pub api_product_list_json: Vec<String>,
    pub application_name: String,
    pub client_id: String,
    pub developer_email: String,
    pub expires_in: String,
    pub issued_at: String,
    pub organization_name: String,
    pub refresh_count: String,
    pub refresh_token_expires_in: String,
    pub scope: String,
    pub status: String,
    pub token_type: String,
}

/// Decodes a token-endpoint body. Succeeds exactly when the body is a JSON
/// object carrying the three consumed fields as strings; the record then
/// holds precisely those strings, with every other field read when present
/// and empty otherwise. Any other body is a decode error carrying the raw
/// body — never a made-up token.
pub fn parse_token_response(body: &str) -> (r: Result<TokenResponse, OpsError>)
    ensures
        r is Ok <==> json_str_field_of(body@, "access_token"@) is Some && json_str_field_of(
            body@,
            "expires_in"@,
        ) is Some && json_str_field_of(body@, "issued_at"@) is Some,
        r matches Ok(t) ==> {
            &&& json_str_field_of(body@, "access_token"@) == Some(t.access_token@)
            &&& json_str_field_of(body@, "expires_in"@) == Some(t.expires_in@)
            &&& json_str_field_of(body@, "issued_at"@) == Some(t.issued_at@)
            &&& t.api_product_list@ == json_str_field_or_empty_of(body@, "api_product_list"@)
            &&& t.api_product_list_json@ == Seq::<String>::empty()
            &&& t.application_name@ == json_str_field_or_empty_of(body@, "application_name"@)
            &&& t.client_id@ == json_str_field_or_empty_of(body@, "client_id"@)
            &&& t.developer_email@ == json_str_field_or_empty_of(body@, "developer.email"@)
            &&& t.organization_name@ == json_str_field_or_empty_of(body@, "organization_name"@)
            &&& t.refresh_count@ == json_str_field_or_empty_of(body@, "refresh_count"@)
            &&& t.refresh_token_expires_in@ == json_str_field_or_empty_of(
                body@,
                "refresh_token_expires_in"@,
            )
            &&& t.scope@ == json_str_field_or_empty_of(body@, "scope"@)
            &&& t.status@ == json_str_field_or_empty_of(body@, "status"@)
            &&& t.token_type@ == json_str_field_or_empty_of(body@, "token_type"@)
        },
        r matches Err(e) ==> e matches OpsError::Decode { raw_body } && raw_body@ == body@,
{
    let access_token = match json_str_field(body, "access_token") {
        Some(s) => s,
        None => {
            return Err(OpsError::Decode { raw_body: String::from_str(body) });
        },
    };
    let expires_in = match json_str_field(body, "expires_in") {
        Some(s) => s,
        None => {
            return Err(OpsError::Decode { raw_body: String::from_str(body) });
        },
    };
    let issued_at = match json_str_field(body, "issued_at") {
        Some(s) => s,
        None => {
            return Err(OpsError::Decode { raw_body: String::from_str(body) });
        },
    };
    Ok(TokenResponse {
        access_token,
        api_product_list: json_str_field_or_empty(body, "api_product_list"),
        api_product_list_json: Vec::new(),
        application_name: json_str_field_or_empty(body, "application_name"),
        client_id: json_str_field_or_empty(body, "client_id"),
        developer_email: json_str_field_or_empty(body, "developer.email"),
        expires_in,
        issued_at,
        organization_name: json_str_field_or_empty(body, "organization_name"),
        refresh_count: json_str_field_or_empty(body, "refresh_count"),
        refresh_token_expires_in: json_str_field_or_empty(body, "refresh_token_expires_in"),
        scope: json_str_field_or_empty(body, "scope"),
        status: json_str_field_or_empty(body, "status"),
        token_type: json_str_field_or_empty(body, "token_type"),
    })
}

/// The shared token cache: the current bearer token with its issue time and
/// lifetime, both in seconds. A process starts with [`TokenCache::empty`] and
/// mutates the value only under its own mutual exclusion.
#[derive(Debug, Clone)]
pub struct TokenCache {
    pub access_token: String,
    pub issued_at: u64,
    pub expires_in: u64,
}

impl TokenCache {
    /// The startup state: no token, issued at the epoch with no lifetime, so
    /// the first check always refreshes.
    pub fn empty() -> (r: TokenCache)
        ensures
            r.access_token@ == Seq::<char>::empty(),
            r.issued_at == 0,
            r.expires_in == 0,
    {
        TokenCache { access_token: String::new(), issued_at: 0, expires_in: 0 }
    }

    /// The token is stale at `now`: the current time, less a sixty-second
    /// safety margin, has passed the issue time plus the advertised lifetime.
    /// This is a deliberate correction: an earlier form of this check compared
    /// the margin against the issue time added to itself, ignoring the
    /// lifetime — under epoch-second issue times that bound is never passed,
    /// so a token would never refresh. The lifetime, not a second copy of the
    /// issue time, is what the margin is measured against.
    pub open spec fn expired_spec(self, now: u64) -> bool {
        now - 60 > self.issued_at + self.expires_in
    }

    /// What a caller holding the lock at `now` is owed: the cached token while
    /// it is fresh, and nothing — meaning a refresh must happen first — once
    /// it is stale.
    pub open spec fn decision_spec(self, now: u64) -> Option<Seq<char>> {
        if self.expired_spec(now) {
            None
        } else {
            Some(self.access_token@)
        }
    }

    /// Whether the cached token is stale at `now`.
    pub fn is_expired(&self, now: u64) -> (r: bool)
        ensures
            r == self.expired_spec(now),
    {
        let margin = if now >= 60 {
            now - 60
        } else {
            0
        };
        let limit = if self.issued_at <= u64::MAX - self.expires_in {
            self.issued_at + self.expires_in
        } else {
            u64::MAX
        };
        margin > limit
    }

    /// Returns the cached token exactly when it is still fresh at `now`; a
    /// fresh cache therefore costs zero token-endpoint requests.
    pub fn get_if_fresh(&self, now: u64) -> (r: Option<String>)
        ensures
            r is Some <==> !self.expired_spec(now),
            r matches Some(t) ==> t@ == self.access_token@,
    {
        if self.is_expired(now) {
            None
        } else {
            Some(self.access_token.clone())
        }
    }

    /// Installs a refreshed token. Succeeds exactly when the response's two
    /// numeric strings are decimal and fit; the cache then holds precisely the
    /// response's token and times, and the token is handed back. On failure
    /// the cache is left as it was and the offending field is reported.
    pub fn install(&mut self, resp: &TokenResponse) -> (r: Result<String, OpsError>)
        ensures
            r is Ok <==> is_u64_text(resp.expires_in@) && is_u64_text(resp.issued_at@),
            r matches Ok(t) ==> {
                &&& final(self).access_token@ == resp.access_token@
                &&& final(self).issued_at == dec_val(resp.issued_at@)
                &&& final(self).expires_in == dec_val(resp.expires_in@)
                &&& t@ == resp.access_token@
            },
            r is Err ==> *final(self) == *old(self),
            !is_u64_text(resp.expires_in@) ==> r == Err::<String, OpsError>(
                OpsError::Decode { raw_body: resp.expires_in },
            ),
            is_u64_text(resp.expires_in@) && !is_u64_text(resp.issued_at@) ==> r == Err::<
                String,
                OpsError,
            >(OpsError::Decode { raw_body: resp.issued_at }),
    {
        let expires_in = match parse_u64(resp.expires_in.as_str()) {
            Some(v) => v,
            None => {
                return Err(OpsError::Decode { raw_body: resp.expires_in.clone() });
            },
        };
        let issued_at = match parse_u64(resp.issued_at.as_str()) {
            Some(v) => v,
            None => {
                return Err(OpsError::Decode { raw_body: resp.issued_at.clone() });
            },
        };
        self.access_token = resp.access_token.clone();
        self.issued_at = issued_at;
        self.expires_in = expires_in;
        Ok(self.access_token.clone())
    }

    /// Law: one refresh serves every caller that follows while its token is
    /// fresh. Once a refresh has installed a response whose numeric fields are
    /// decimal (the condition under which [`TokenCache::install`] succeeds),
    /// a check at any time at which that token is not yet stale yields exactly
    /// the response's token and asks for no second refresh. That the two
    /// callers amount to one network request rests on the caller holding its
    /// lock across the whole check-refresh-install sequence, outside this
    /// crate.
    pub proof fn lemma_single_refresh(self, resp: TokenResponse, now: u64)
        requires
            is_u64_text(resp.expires_in@),
            is_u64_text(resp.issued_at@),
            self.access_token@ == resp.access_token@,
            self.issued_at == dec_val(resp.issued_at@),
            self.expires_in == dec_val(resp.expires_in@),
            now - 60 <= dec_val(resp.issued_at@) + dec_val(resp.expires_in@),
        ensures
            self.decision_spec(now) == Some(resp.access_token@),
    {
    }
}

} // verus!
