use epo_ops::error::OpsError;
use epo_ops::token::{parse_token_response, token_request, EpoOpsCredentials, TokenCache};

const TOKEN_BODY: &str =
    "{\"access_token\":\"T1\",\"expires_in\":\"3600\",\"issued_at\":\"1700000000\"}";

#[test]
fn format_credentials_is_base64_of_key_colon_secret() {
    let creds = EpoOpsCredentials {
        consumer_key: "key".to_string(),
        secret_key: "secret".to_string(),
    };
    assert_eq!("a2V5OnNlY3JldA==", creds.format_credentials());
}

#[test]
fn token_request_carries_basic_auth_and_grant() {
    let creds = EpoOpsCredentials {
        consumer_key: "key".to_string(),
        secret_key: "secret".to_string(),
    };
    let req = token_request(&creds);
    assert_eq!("https://ops.epo.org/3.2/auth/accesstoken", req.url);
    assert_eq!(Some("grant_type=client_credentials".to_string()), req.body);
    assert!(!req.needs_auth);
    assert_eq!(
        ("Authorization".to_string(), "Basic a2V5OnNlY3JldA==".to_string()),
        req.headers[0]
    );
    assert_eq!(
        (
            "Content-Type".to_string(),
            "application/x-www-form-urlencoded".to_string()
        ),
        req.headers[1]
    );
}

#[test]
fn parse_token_response_reads_the_consumed_fields() {
    let resp = parse_token_response(TOKEN_BODY).unwrap();
    assert_eq!("T1", resp.access_token);
    assert_eq!("3600", resp.expires_in);
    assert_eq!("1700000000", resp.issued_at);
}

#[test]
fn parse_token_response_reads_absent_optional_fields_as_empty() {
    let resp = parse_token_response(TOKEN_BODY).unwrap();
    assert_eq!("", resp.scope);
    assert_eq!("", resp.token_type);
    assert!(resp.api_product_list_json.is_empty());
    let body = "{\"access_token\":\"T1\",\"expires_in\":\"1\",\"issued_at\":\"2\",\"scope\":\"s1\"}";
    let resp = parse_token_response(body).unwrap();
    assert_eq!("s1", resp.scope);
}

#[test]
fn parse_token_response_rejects_non_string_consumed_fields() {
    // the numbers travel as strings; a bare JSON number is a decode error
    let body = "{\"access_token\":\"T1\",\"expires_in\":3600,\"issued_at\":\"2\"}";
    assert_eq!(
        OpsError::Decode { raw_body: body.to_string() },
        parse_token_response(body).unwrap_err()
    );
}

#[test]
fn parse_token_response_rejects_bodies_without_the_fields() {
    let err = parse_token_response("{\"access_token\":\"T1\"}").unwrap_err();
    assert_eq!(
        OpsError::Decode { raw_body: "{\"access_token\":\"T1\"}".to_string() },
        err
    );
    assert!(parse_token_response("not json at all").is_err());
}

#[test]
fn install_requires_numeric_strings_and_keeps_cache_on_failure() {
    let mut cache = TokenCache::empty();
    let mut resp = parse_token_response(TOKEN_BODY).unwrap();
    resp.expires_in = "soon".to_string();
    let err = cache.install(&resp).unwrap_err();
    assert_eq!(OpsError::Decode { raw_body: "soon".to_string() }, err);
    assert_eq!("", cache.access_token);
    assert_eq!(0, cache.issued_at);
    assert_eq!(0, cache.expires_in);
}

#[test]
fn install_reports_the_issue_time_when_only_it_is_bad() {
    let mut cache = TokenCache::empty();
    let mut resp = parse_token_response(TOKEN_BODY).unwrap();
    resp.issued_at = "yesterday".to_string();
    let err = cache.install(&resp).unwrap_err();
    assert_eq!(OpsError::Decode { raw_body: "yesterday".to_string() }, err);
    assert_eq!("", cache.access_token);
}

#[test]
fn fresh_cache_answers_without_any_refresh() {
    let cache = TokenCache {
        access_token: "T9".to_string(),
        issued_at: 1_700_000_000,
        expires_in: 3600,
    };
    // inside the lifetime, minus the safety margin
    assert_eq!(Some("T9".to_string()), cache.get_if_fresh(1_700_003_660));
    // one second past it: stale, a refresh is owed
    assert_eq!(None, cache.get_if_fresh(1_700_003_661));
}

#[test]
fn single_refresh_serves_both_callers() {
    let mut cache = TokenCache::empty();
    let now: u64 = 1_700_000_100;

    // First caller takes the lock: the cache is expired, so it refreshes.
    assert_eq!(None, cache.get_if_fresh(now));
    let resp = parse_token_response(TOKEN_BODY).unwrap();
    let token = cache.install(&resp).unwrap();
    assert_eq!("T1", token);

    // Second caller, blocked meanwhile, now takes the lock: it observes the
    // same token and issues no second token-endpoint request.
    assert_eq!(Some("T1".to_string()), cache.get_if_fresh(now));
}
