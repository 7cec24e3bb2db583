use epo_ops::endpoints::{
    get_publication, get_publication_bulk, get_register_info, get_usage_data, read_total_count,
    search_first_request, search_followups,
};
use epo_ops::error::OpsError;
use epo_ops::ident::{
    Date, PatentDetails, PatentReferenceType, PublicationConstituents, RegisterConstituents,
};
use epo_ops::request::classify_response;
use epo_ops::token::{parse_token_response, token_request, EpoOpsCredentials, TokenCache};

fn details(number: &str, reference_type: PatentReferenceType) -> PatentDetails {
    PatentDetails {
        country_code: "EP".to_string(),
        number: number.to_string(),
        kind_code: None,
        date: None,
        reference_type,
    }
}

fn first_page_body(total: &str) -> String {
    format!(
        "{{\"ops:world-patent-data\":{{\"ops:register-search\":{{\"@total-result-count\":\"{}\"}}}}}}",
        total
    )
}

#[test]
fn register_info_builds_the_documented_post() {
    let req = get_register_info(
        &details("4451611", PatentReferenceType::Publication),
        &vec![RegisterConstituents::Biblio, RegisterConstituents::Events],
    )
    .unwrap();
    assert_eq!(
        "https://ops.epo.org/rest-services/register/publication/epodoc/biblio,events",
        req.url
    );
    assert_eq!(Some("EP4451611".to_string()), req.body);
    assert!(req.needs_auth);
    assert_eq!(("Content-Type".to_string(), "text/plain".to_string()), req.headers[0]);
    assert_eq!(("Accept".to_string(), "application/json".to_string()), req.headers[1]);
}

#[test]
fn register_info_application_path_and_default_constituent() {
    let req = get_register_info(
        &details("24198419.1", PatentReferenceType::Application),
        &Vec::new(),
    )
    .unwrap();
    assert_eq!(
        "https://ops.epo.org/rest-services/register/application/epodoc/biblio",
        req.url
    );
}

#[test]
fn register_info_rejects_unsupported_reference_types() {
    let err = get_register_info(&details("1", PatentReferenceType::Priority), &Vec::new())
        .unwrap_err();
    assert_eq!(OpsError::Validation, err);
    let err = get_register_info(&details("1", PatentReferenceType::Unknown), &Vec::new())
        .unwrap_err();
    assert_eq!(OpsError::Validation, err);
}

#[test]
fn publication_builds_the_documented_post() {
    let req = get_publication(
        &details("21176905", PatentReferenceType::Application),
        &vec![PublicationConstituents::Abstract],
    )
    .unwrap();
    assert_eq!(
        "http://ops.epo.org/rest-services/published-data/application/epodoc/abstract",
        req.url
    );
    assert_eq!(Some("EP21176905".to_string()), req.body);
}

#[test]
fn bulk_with_a_single_identifier_is_a_validation_error() {
    let err = get_publication_bulk(
        &vec![details("1", PatentReferenceType::Publication)],
        &Vec::new(),
    )
    .unwrap_err();
    assert_eq!(OpsError::Validation, err);
}

#[test]
fn bulk_with_mixed_reference_types_is_a_validation_error() {
    let err = get_publication_bulk(
        &vec![
            details("1", PatentReferenceType::Publication),
            details("2", PatentReferenceType::Application),
        ],
        &Vec::new(),
    )
    .unwrap_err();
    assert_eq!(OpsError::Validation, err);
}

#[test]
fn bulk_joins_identifiers_one_per_line() {
    let req = get_publication_bulk(
        &vec![
            details("1", PatentReferenceType::Publication),
            details("2", PatentReferenceType::Publication),
        ],
        &Vec::new(),
    )
    .unwrap();
    assert_eq!(
        "http://ops.epo.org/rest-services/published-data/publication/epodoc/biblio",
        req.url
    );
    assert_eq!(Some("EP1\nEP2\n".to_string()), req.body);
}

#[test]
fn search_first_request_encodes_the_query_and_asks_for_the_first_page() {
    let req = search_first_request("pa=ibm");
    assert_eq!("http://ops.epo.org/rest-services/register/search", req.url);
    assert_eq!(Some("q=pa%3Dibm".to_string()), req.body);
    assert!(req.needs_auth);
    assert_eq!(("Range".to_string(), "1-100".to_string()), req.headers[0]);
}

#[test]
fn read_total_count_reads_the_two_keys() {
    assert_eq!(Ok(250), read_total_count(&first_page_body("250")));
}

#[test]
fn read_total_count_rejects_malformed_bodies() {
    let body = "{\"ops:world-patent-data\":{}}";
    assert_eq!(
        Err(OpsError::Decode { raw_body: body.to_string() }),
        read_total_count(body)
    );
    assert!(read_total_count("{}").is_err());
    assert!(read_total_count("not json").is_err());
    // a non-numeric count is malformed, not zero results
    assert!(read_total_count(&first_page_body("many")).is_err());
    // so is a count sent as a bare JSON number instead of a string
    let body =
        "{\"ops:world-patent-data\":{\"ops:register-search\":{\"@total-result-count\":250}}}";
    assert_eq!(
        Err(OpsError::Decode { raw_body: body.to_string() }),
        read_total_count(body)
    );
}

#[test]
fn a_total_of_250_needs_exactly_two_more_pages() {
    let followups = search_followups("pa=ibm", 250);
    assert_eq!(2, followups.len());
    assert_eq!(("Range".to_string(), "101-200".to_string()), followups[0].headers[2]);
    assert_eq!(("Range".to_string(), "201-300".to_string()), followups[1].headers[2]);
    assert_eq!(Some("q=pa%3Dibm".to_string()), followups[0].body);
    assert_eq!("http://ops.epo.org/rest-services/register/search", followups[0].url);
}

#[test]
fn a_total_that_fits_the_first_page_needs_no_more_requests() {
    assert_eq!(0, search_followups("pa=ibm", 50).len());
    assert_eq!(0, search_followups("pa=ibm", 100).len());
}

#[test]
fn a_total_just_over_one_page_needs_one_more() {
    let followups = search_followups("pa=ibm", 101);
    assert_eq!(1, followups.len());
    assert_eq!(("Range".to_string(), "101-200".to_string()), followups[0].headers[2]);
}

#[test]
fn usage_request_renders_the_date_range() {
    let req = get_usage_data(
        Date { year: 2025, month: 10, day: 10 },
        Date { year: 2025, month: 10, day: 20 },
    );
    assert_eq!(
        "https://ops.epo.org/3.2/developers/me/stats/usage?timeRange=10/10/2025~20/10/2025",
        req.url
    );
    assert_eq!(("Accept".to_string(), "application/json".to_string()), req.headers[0]);
    assert!(req.body.is_none());
}

#[test]
fn classify_response_hands_a_200_body_through_unchanged() {
    assert_eq!(Ok("{\"a\":1}".to_string()), classify_response(200, "{\"a\":1}".to_string()));
}

#[test]
fn classify_response_turns_other_statuses_into_upstream_errors() {
    assert_eq!(
        Err(OpsError::Upstream { status: 404, body: "missing".to_string() }),
        classify_response(404, "missing".to_string())
    );
}

#[test]
fn end_to_end_with_mocked_endpoints() {
    let creds = EpoOpsCredentials {
        consumer_key: "k".to_string(),
        secret_key: "s".to_string(),
    };
    let treq = token_request(&creds);
    assert_eq!("https://ops.epo.org/3.2/auth/accesstoken", treq.url);

    // The mocked token endpoint answers 200 with the token body.
    let token_body = classify_response(
        200,
        "{\"access_token\":\"T1\",\"expires_in\":\"3600\",\"issued_at\":\"1700000000\"}"
            .to_string(),
    )
    .unwrap();
    let resp = parse_token_response(&token_body).unwrap();
    let mut cache = TokenCache::empty();
    let now: u64 = 1_700_000_010;
    let token = match cache.get_if_fresh(now) {
        Some(t) => t,
        None => cache.install(&resp).unwrap(),
    };
    assert_eq!("T1", token);

    // The register-info request goes out bearing that token.
    let req = get_register_info(
        &details("4451611", PatentReferenceType::Publication),
        &Vec::new(),
    )
    .unwrap();
    let authed = req.with_bearer(&token);
    // the caller's own headers are kept, in order, ahead of the new one
    assert_eq!(("Content-Type".to_string(), "text/plain".to_string()), authed.headers[0]);
    assert_eq!(("Accept".to_string(), "application/json".to_string()), authed.headers[1]);
    let bearer = authed.headers.last().unwrap();
    assert_eq!(("Authorization".to_string(), "Bearer T1".to_string()), *bearer);

    // The mocked register endpoint answers 200: the body comes back unchanged.
    let body = classify_response(200, "{\"...\":\"...\"}".to_string()).unwrap();
    assert_eq!("{\"...\":\"...\"}", body);
}
