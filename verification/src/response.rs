//! The response envelope and its rendering to the wire shape.

use crate::json::{fail_body, fail_body_of};
use vstd::prelude::*;

verus! {

/// The response envelope an operation produces: a status code and an
/// optional JSON body, not yet carrying headers.
pub struct CustomApiResponse {
    pub status_code: i64,
    pub body: Option<String>,
}

/// The wire shape handed back to the invoking gateway layer: status,
/// headers (single- and multi-valued alike), and an optional body that is
/// never base64-encoded.
pub struct ApigwResponse {
    pub status_code: i64,
    pub headers: Vec<(String, String)>,
    pub multi_value_headers: Vec<(String, String)>,
    pub is_base64_encoded: bool,
    pub body: Option<String>,
}

/// The fixed header set every response carries: a JSON content type and
/// the permissive CORS headers.
pub open spec fn fixed_headers(h: Seq<(String, String)>) -> bool {
    &&& h.len() == 4
    &&& h[0].0@ == "content-type"@ && h[0].1@ == "application/json"@
    &&& h[1].0@ == "access-control-allow-headers"@ && h[1].1@ == "Content-Type"@
    &&& h[2].0@ == "access-control-allow-origin"@ && h[2].1@ == "*"@
    &&& h[3].0@ == "access-control-allow-methods"@ && h[3].1@ == "OPTIONS,POST,GET"@
}

impl CustomApiResponse {
    /// Creates a standard successful response: the given status code and
    /// the body exactly as supplied.
    pub fn success(status_code: i64, body: Option<String>) -> (r: CustomApiResponse)
        ensures
            r.status_code == status_code,
            r.body == body,
    {
        CustomApiResponse { status_code, body }
    }

    /// Creates a standard failure response: the given status code and the
    /// body `{"message": <text>}`.
    pub fn fail(status_code: i64, message: String) -> (r: CustomApiResponse)
        ensures
            r.status_code == status_code,
            r.body matches Some(b) && b@ == fail_body_of(message@),
    {
        CustomApiResponse { status_code, body: Some(fail_body(message.as_str())) }
    }

    /// Renders the envelope to the wire shape: the status code and body
    /// are kept, the fixed header set is attached (to the single- and the
    /// multi-valued map alike), and the body is never base64-encoded.
    /// Every response, success or failure, goes out through here.
    pub fn to_apigw_response(&self) -> (r: ApigwResponse)
        ensures
            r.status_code == self.status_code,
            r.body == self.body,
            !r.is_base64_encoded,
            fixed_headers(r.headers@),
            r.multi_value_headers@ == r.headers@,
    {
        let mut headers: Vec<(String, String)> = Vec::new();
        headers.push((String::from_str("content-type"), String::from_str("application/json")));
        headers.push(
            (String::from_str("access-control-allow-headers"), String::from_str("Content-Type")),
        );
        headers.push((String::from_str("access-control-allow-origin"), String::from_str("*")));
        headers.push(
            (String::from_str("access-control-allow-methods"), String::from_str("OPTIONS,POST,GET")),
        );
        let multi_value_headers = clone_headers(&headers);
        ApigwResponse {
            status_code: self.status_code,
            headers,
            multi_value_headers,
            is_base64_encoded: false,
            body: clone_body(&self.body),
        }
    }
}

fn clone_headers(h: &Vec<(String, String)>) -> (r: Vec<(String, String)>)
    ensures
        r@ == h@,
{
    let mut r: Vec<(String, String)> = Vec::new();
    let mut i: usize = 0;
    while i < h.len()
        invariant
            i <= h@.len(),
            r@ == h@.subrange(0, i as int),
        decreases h@.len() - i,
    {
        r.push((h[i].0.clone(), h[i].1.clone()));
        proof {
            assert(r@ =~= h@.subrange(0, i + 1));
        }
        i = i + 1;
    }
    proof {
        assert(r@ =~= h@);
    }
    r
}

fn clone_body(b: &Option<String>) -> (r: Option<String>)
    ensures
        r == b,
{
    match b {
        Some(s) => Some(s.clone()),
        None => None,
    }
}

} // verus!
