//! The endpoint operations: building the exact request each retrieval makes,
//! validating what the caller hands in, and turning a first search page's
//! result count into the remaining ranged requests.

use vstd::prelude::*;
use crate::encode::{encode_input, encode_seq};
use crate::error::OpsError;
use crate::ident::{
    ddmmyyyy, epodoc_of, publication_segment, publication_segment_string, register_segment,
    register_segment_string, Date, PatentDetails, PatentReferenceType, PublicationConstituents,
    RegisterConstituents,
};
use crate::json::{json_nested_str, json_nested_str_of};
use crate::request::{header_is, standard_headers, HttpRequest, Method};
use crate::text::{dec_rep, dec_val, fmt_u64, is_u32_text, parse_u32, push_char};

verus! {

/// The register retrieval base path for a supported reference type.
pub open spec fn register_base(t: PatentReferenceType) -> Seq<char> {
    match t {
        PatentReferenceType::Publication => "https://ops.epo.org/rest-services/register/publication/epodoc/"@,
        PatentReferenceType::Application => "https://ops.epo.org/rest-services/register/application/epodoc/"@,
        _ => Seq::empty(),
    }
}

/// The published-data base path for a supported reference type.
pub open spec fn publication_base(t: PatentReferenceType) -> Seq<char> {
    match t {
        PatentReferenceType::Publication => "http://ops.epo.org/rest-services/published-data/publication/epodoc/"@,
        PatentReferenceType::Application => "http://ops.epo.org/rest-services/published-data/application/epodoc/"@,
        _ => Seq::empty(),
    }
}

/// A reference type the retrieval endpoints accept.
pub open spec fn supported(t: PatentReferenceType) -> bool {
    t == PatentReferenceType::Publication || t == PatentReferenceType::Application
}

/// The bulk request body: each identifier's rendering followed by a newline.
pub open spec fn bulk_body(ds: Seq<PatentDetails>) -> Seq<char>
    decreases ds.len(),
{
    if ds.len() == 0 {
        Seq::empty()
    } else {
        bulk_body(ds.drop_last()) + epodoc_of(ds.last()) + seq!['\n']
    }
}

/// An authenticated POST whose body is plain text and whose answer is asked
/// for as JSON.
pub open spec fn is_text_post(req: HttpRequest, url: Seq<char>, body: Seq<char>) -> bool {
    &&& req.method == Method::Post
    &&& req.url@ == url
    &&& req.body matches Some(b) && b@ == body
    &&& req.needs_auth
    &&& req.headers@.len() == 2
    &&& header_is(req.headers@[0], "Content-Type"@, "text/plain"@)
    &&& header_is(req.headers@[1], "Accept"@, "application/json"@)
}

/// Builds the register-info request for one identifier: a POST to the path
/// the reference type selects, extended by the constituent segment, whose body
/// is the rendered identifier. Only publication and application references are
/// supported; anything else is a validation error, never a request.
pub fn get_register_info(
    patent_details: &PatentDetails,
    constituents: &Vec<RegisterConstituents>,
) -> (r: Result<HttpRequest, OpsError>)
    ensures
        r is Ok <==> supported(patent_details.reference_type),
        r matches Err(e) ==> e == OpsError::Validation,
        r matches Ok(req) ==> is_text_post(
            req,
            register_base(patent_details.reference_type) + register_segment(constituents@),
            epodoc_of(*patent_details),
        ),
{
    let mut url = match patent_details.reference_type {
        PatentReferenceType::Publication => String::from_str(
            "https://ops.epo.org/rest-services/register/publication/epodoc/",
        ),
        PatentReferenceType::Application => String::from_str(
            "https://ops.epo.org/rest-services/register/application/epodoc/",
        ),
        _ => {
            return Err(OpsError::Validation);
        },
    };
    let segment = register_segment_string(constituents);
    url.append(segment.as_str());
    Ok(
        HttpRequest {
            method: Method::Post,
            url,
            headers: standard_headers(),
            body: Some(patent_details.to_epodoc()),
            needs_auth: true,
        },
    )
}

/// Builds the published-data request for one identifier, with the same path
/// selection and validation rule as the register retrieval.
pub fn get_publication(
    patent_details: &PatentDetails,
    constituents: &Vec<PublicationConstituents>,
) -> (r: Result<HttpRequest, OpsError>)
    ensures
        r is Ok <==> supported(patent_details.reference_type),
        r matches Err(e) ==> e == OpsError::Validation,
        r matches Ok(req) ==> is_text_post(
            req,
            publication_base(patent_details.reference_type) + publication_segment(constituents@),
            epodoc_of(*patent_details),
        ),
{
    let mut url = match patent_details.reference_type {
        PatentReferenceType::Publication => String::from_str(
            "http://ops.epo.org/rest-services/published-data/publication/epodoc/",
        ),
        PatentReferenceType::Application => String::from_str(
            "http://ops.epo.org/rest-services/published-data/application/epodoc/",
        ),
        _ => {
            return Err(OpsError::Validation);
        },
    };
    let segment = publication_segment_string(constituents);
    url.append(segment.as_str());
    Ok(
        HttpRequest {
            method: Method::Post,
            url,
            headers: standard_headers(),
            body: Some(patent_details.to_epodoc()),
            needs_auth: true,
        },
    )
}

/// Builds the bulk published-data request: at least two identifiers, all with
/// one supported reference type, rendered one per line. A single identifier,
/// mixed reference types, or an unsupported type is a validation error, never
/// a request.
pub fn get_publication_bulk(
    patents_details: &Vec<PatentDetails>,
    constituents: &Vec<PublicationConstituents>,
) -> (r: Result<HttpRequest, OpsError>)
    ensures
        r is Ok <==> {
            &&& patents_details@.len() >= 2
            &&& forall|i: int|
                0 <= i < patents_details@.len() ==> #[trigger] patents_details@[i].reference_type
                    == patents_details@[0].reference_type
            &&& supported(patents_details@[0].reference_type)
        },
        r matches Err(e) ==> e == OpsError::Validation,
        r matches Ok(req) ==> is_text_post(
            req,
            publication_base(patents_details@[0].reference_type) + publication_segment(
                constituents@,
            ),
            bulk_body(patents_details@),
        ),
{
    if patents_details.len() < 2 {
        return Err(OpsError::Validation);
    }
    let first_type = patents_details[0].reference_type;
    let mut i: usize = 1;
    while i < patents_details.len()
        invariant
            1 <= i <= patents_details@.len(),
            first_type == patents_details@[0].reference_type,
            forall|j: int|
                0 <= j < i ==> #[trigger] patents_details@[j].reference_type
                    == patents_details@[0].reference_type,
        decreases patents_details@.len() - i,
    {
        if patents_details[i].reference_type != first_type {
            return Err(OpsError::Validation);
        }
        i += 1;
    }
    let mut url = match first_type {
        PatentReferenceType::Publication => String::from_str(
            "http://ops.epo.org/rest-services/published-data/publication/epodoc/",
        ),
        PatentReferenceType::Application => String::from_str(
            "http://ops.epo.org/rest-services/published-data/application/epodoc/",
        ),
        _ => {
            return Err(OpsError::Validation);
        },
    };
    let segment = publication_segment_string(constituents);
    url.append(segment.as_str());
    let mut data = String::new();
    let mut k: usize = 0;
    assert(data@ =~= bulk_body(patents_details@.subrange(0, 0)));
    while k < patents_details.len()
        invariant
            0 <= k <= patents_details@.len(),
            data@ == bulk_body(patents_details@.subrange(0, k as int)),
        decreases patents_details@.len() - k,
    {
        let line = patents_details[k].to_epodoc();
        data.append(line.as_str());
        push_char(&mut data, '\n');
        proof {
            let p = patents_details@.subrange(0, k as int);
            let q = patents_details@.subrange(0, k as int + 1);
            assert(q.drop_last() =~= p);
            assert(q.last() == patents_details@[k as int]);
            assert(data@ =~= bulk_body(q));
        }
        k += 1;
    }
    assert(patents_details@.subrange(0, k as int) =~= patents_details@);
    Ok(
        HttpRequest {
            method: Method::Post,
            url,
            headers: standard_headers(),
            body: Some(data),
            needs_auth: true,
        },
    )
}

/// The search endpoint's URL.
pub open spec fn search_url() -> Seq<char> {
    "http://ops.epo.org/rest-services/register/search"@
}

/// How many ranged requests follow the first search page, at one hundred
/// results a page: none when the total fits the first page, and otherwise
/// enough pages for the remainder, the last one partial.
pub open spec fn extra_pages(total: int) -> int {
    if total <= 100 {
        0
    } else {
        (total - 100 + 99) / 100
    }
}

/// Law: pagination is complete and unpadded. With a hundred results a page,
/// the first page together with the followup pages reaches at least `total`,
/// and one followup fewer would fall short — so every result is asked for and
/// no followup page is wasted.
pub proof fn lemma_pagination_complete(total: int)
    requires
        total >= 0,
    ensures
        100 + extra_pages(total) * 100 >= total,
        total > 100 ==> 100 + (extra_pages(total) - 1) * 100 < total,
{
    if total > 100 {
        let x = total - 1;
        vstd::arithmetic::div_mod::lemma_fundamental_div_mod(x, 100);
        assert(extra_pages(total) == x / 100);
    }
}

/// The `Range` header of followup page `k` (counted from zero): results
/// `(k+1)*100+1` through `(k+2)*100`.
pub open spec fn range_text(k: int) -> Seq<char> {
    dec_rep((k + 1) * 100 + 1) + seq!['-'] + dec_rep((k + 2) * 100)
}

/// Followup search request `k` for the encoded query: the same POST as the
/// first page but with its own range.
pub open spec fn is_followup_request(req: HttpRequest, query: Seq<char>, k: int) -> bool {
    &&& req.method == Method::Post
    &&& req.url@ == search_url()
    &&& req.body matches Some(b) && b@ == "q="@ + encode_seq(query)
    &&& req.needs_auth
    &&& req.headers@.len() == 3
    &&& header_is(req.headers@[0], "Content-Type"@, "text/plain"@)
    &&& header_is(req.headers@[1], "Accept"@, "application/json"@)
    &&& header_is(req.headers@[2], "Range"@, range_text(k))
}

/// Builds the first search request: the percent-encoded query as the body and
/// the first hundred results asked for by range.
pub fn search_first_request(query_string: &str) -> (r: HttpRequest)
    ensures
        r.method == Method::Post,
        r.url@ == search_url(),
        r.body matches Some(b) && b@ == "q="@ + encode_seq(query_string@),
        r.needs_auth,
        r.headers@.len() == 3,
        header_is(r.headers@[0], "Range"@, "1-100"@),
        header_is(r.headers@[1], "Content-Type"@, "text/plain"@),
        header_is(r.headers@[2], "Accept"@, "application/json"@),
{
    let mut headers: Vec<(String, String)> = Vec::new();
    headers.push((String::from_str("Range"), String::from_str("1-100")));
    headers.push((String::from_str("Content-Type"), String::from_str("text/plain")));
    headers.push((String::from_str("Accept"), String::from_str("application/json")));
    let mut data = String::from_str("q=");
    let encoded = encode_input(query_string);
    data.append(encoded.as_str());
    HttpRequest {
        method: Method::Post,
        url: String::from_str("http://ops.epo.org/rest-services/register/search"),
        headers,
        body: Some(data),
        needs_auth: true,
    }
}

/// The total-result-count text of a first search page: the string member of
/// the body under `ops:world-patent-data`, then `ops:register-search`, then
/// `@total-result-count`.
pub open spec fn count_text_of(body: Seq<char>) -> Option<Seq<char>> {
    json_nested_str_of(
        body,
        "ops:world-patent-data"@,
        "ops:register-search"@,
        "@total-result-count"@,
    )
}

/// Reads the total result count out of a first search page. Succeeds exactly
/// when the body carries the count text at its documented path and that text
/// is a decimal number fitting the count's width; the result is then that
/// number. Any other body is a decode error carrying the raw body — never a
/// zero-result success.
pub fn read_total_count(body: &str) -> (r: Result<u32, OpsError>)
    ensures
        r is Ok <==> (count_text_of(body@) matches Some(t) && is_u32_text(t)),
        r matches Ok(n) ==> (count_text_of(body@) matches Some(t) && n as int == dec_val(t)),
        r matches Err(e) ==> e matches OpsError::Decode { raw_body } && raw_body@ == body@,
{
    let text = match json_nested_str(
        body,
        "ops:world-patent-data",
        "ops:register-search",
        "@total-result-count",
    ) {
        Some(t) => t,
        None => {
            return Err(OpsError::Decode { raw_body: String::from_str(body) });
        },
    };
    match parse_u32(text.as_str()) {
        Some(total) => Ok(total),
        None => Err(OpsError::Decode { raw_body: String::from_str(body) }),
    }
}

/// Builds the ranged requests that follow the first search page. A total that
/// fits the first page yields no requests at all; otherwise followup `k` asks
/// for results `(k+1)*100+1` through `(k+2)*100`, enough pages to cover the
/// whole total.
pub fn search_followups(query_string: &str, total: u32) -> (r: Vec<HttpRequest>)
    ensures
        r@.len() == extra_pages(total as int),
        forall|k: int| 0 <= k < r@.len() ==> is_followup_request(r@[k], query_string@, k),
{
    let extra: u32 = if total <= 100 {
        0
    } else {
        (total - 100 + 99) / 100
    };
    let mut out: Vec<HttpRequest> = Vec::new();
    let mut k: u32 = 0;
    while k < extra
        invariant
            0 <= k <= extra,
            extra as int == extra_pages(total as int),
            out@.len() == k as int,
            forall|j: int| 0 <= j < k as int ==> is_followup_request(out@[j], query_string@, j),
        decreases extra - k,
    {
        let start: u64 = (k as u64 + 1) * 100 + 1;
        let end: u64 = (k as u64 + 2) * 100;
        let mut range = fmt_u64(start);
        push_char(&mut range, '-');
        let end_text = fmt_u64(end);
        range.append(end_text.as_str());
        assert(range@ =~= range_text(k as int));
        let mut headers = standard_headers();
        headers.push((String::from_str("Range"), range));
        let mut data = String::from_str("q=");
        let encoded = encode_input(query_string);
        data.append(encoded.as_str());
        out.push(
            HttpRequest {
                method: Method::Post,
                url: String::from_str("http://ops.epo.org/rest-services/register/search"),
                headers,
                body: Some(data),
                needs_auth: true,
            },
        );
        k += 1;
    }
    out
}

/// Builds the usage-statistics request: an authenticated GET over the date
/// range, both ends rendered `DD/MM/YYYY` and joined by `~`.
pub fn get_usage_data(from: Date, to: Date) -> (r: HttpRequest)
    ensures
        r.method == Method::Get,
        r.url@ == "https://ops.epo.org/3.2/developers/me/stats/usage?timeRange="@ + ddmmyyyy(from)
            + seq!['~'] + ddmmyyyy(to),
        r.body is None,
        r.needs_auth,
        r.headers@.len() == 1,
        header_is(r.headers@[0], "Accept"@, "application/json"@),
{
    let mut url = String::from_str("https://ops.epo.org/3.2/developers/me/stats/usage?timeRange=");
    let from_text = date_ddmmyyyy(from);
    url.append(from_text.as_str());
    push_char(&mut url, '~');
    let to_text = date_ddmmyyyy(to);
    url.append(to_text.as_str());
    let mut headers: Vec<(String, String)> = Vec::new();
    headers.push((String::from_str("Accept"), String::from_str("application/json")));
    HttpRequest { method: Method::Get, url, headers, body: None, needs_auth: true }
}

/// Renders a date as `DD/MM/YYYY`, zero padded.
fn date_ddmmyyyy(d: Date) -> (r: String)
    ensures
        r@ == ddmmyyyy(d),
{
    let mut s = String::new();
    crate::ident::push_dec2(&mut s, d.day);
    push_char(&mut s, '/');
    crate::ident::push_dec2(&mut s, d.month);
    push_char(&mut s, '/');
    crate::ident::push_dec4(&mut s, d.year);
    assert(s@ =~= ddmmyyyy(d));
    s
}

} // verus!
