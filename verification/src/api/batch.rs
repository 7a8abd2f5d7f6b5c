//! Problem details (RFC 7807 style) errors and per-item batch results.
use vstd::prelude::*;

verus! {

/// The body of an error response.
#[derive(Debug)]
pub struct ProblemDetails {
    pub problem_type: String,
    pub title: String,
    pub status: u16,
    pub detail: String,
    pub instance: Option<String>,
}

impl ProblemDetails {
    pub fn new(status: u16, title: String, detail: String) -> (r: Self)
        ensures
            r.problem_type@ == "about:blank"@,
            r.title@ == title@,
            r.status == status,
            r.detail@ == detail@,
            r.instance is None,
    {
        ProblemDetails {
            problem_type: String::from_str("about:blank"),
            title,
            status,
            detail,
            instance: None,
        }
    }
}

/// An error answered with an HTTP status and a problem-details body.
#[derive(Debug)]
pub struct ApiError {
    pub status: u16,
    pub problem: ProblemDetails,
}

/// `e` carries `status` both as its response status and in its body, with the
/// given title and detail.
pub open spec fn is_api_error(e: ApiError, status: u16, title: Seq<char>, detail: Seq<char>) -> bool {
    &&& e.status == status
    &&& e.problem.status == status
    &&& e.problem.problem_type@ == "about:blank"@
    &&& e.problem.title@ == title
    &&& e.problem.detail@ == detail
    &&& e.problem.instance is None
}

impl ApiError {
    fn with_status(status: u16, title: &str, detail: String) -> (r: Self)
        ensures
            is_api_error(r, status, title@, detail@),
    {
        ApiError { status, problem: ProblemDetails::new(status, String::from_str(title), detail) }
    }

    pub fn bad_request(detail: String) -> (r: Self)
        ensures
            is_api_error(r, 400, "Bad Request"@, detail@),
    {
        Self::with_status(400, "Bad Request", detail)
    }

    pub fn not_found(detail: String) -> (r: Self)
        ensures
            is_api_error(r, 404, "Not Found"@, detail@),
    {
        Self::with_status(404, "Not Found", detail)
    }

    pub fn internal(detail: String) -> (r: Self)
        ensures
            is_api_error(r, 500, "Internal Server Error"@, detail@),
    {
        Self::with_status(500, "Internal Server Error", detail)
    }

    pub fn unauthorized(detail: String) -> (r: Self)
        ensures
            is_api_error(r, 401, "Unauthorized"@, detail@),
    {
        Self::with_status(401, "Unauthorized", detail)
    }

    pub fn forbidden(detail: String) -> (r: Self)
        ensures
            is_api_error(r, 403, "Forbidden"@, detail@),
    {
        Self::with_status(403, "Forbidden", detail)
    }
}

/// The outcome of one item of a batch request.
#[derive(Debug)]
pub struct BatchItemResult<T> {
    pub index: usize,
    pub status: u16,
    pub result: Option<T>,
    pub error: Option<ProblemDetails>,
}

/// The reason phrase `http` gives status `code`, if it knows one.
pub uninterp spec fn http_canonical_reason(code: u16) -> Option<Seq<char>>;

/// `StatusCode::from_u16(code)` and then `canonical_reason()`. Trusted: every
/// code from 100 to 999 is a status code, and its phrase is the one named
/// above, a function of the code alone.
#[verifier::external_body]
fn canonical_reason(code: u16) -> (r: Option<&'static str>)
    requires
        100 <= code <= 999,
    ensures
        match r {
            Some(x) => http_canonical_reason(code) == Some(x@),
            None => http_canonical_reason(code) is None,
        },
{
    http::StatusCode::from_u16(code).ok().and_then(|s| s.canonical_reason())
}

impl<T> BatchItemResult<T> {
    /// A failed item: the status and a problem-details body titled with the
    /// status's reason phrase (or `Error` where there is none).
    pub fn err(index: usize, status: u16, detail: String) -> (r: Self)
        requires
            100 <= status <= 999,
        ensures
            r.index == index,
            r.status == status,
            r.result is None,
            r.error matches Some(p) && p.status == status && p.problem_type@ == "about:blank"@ && p.detail@ == detail@
                && p.instance is None && p.title@ == match http_canonical_reason(status) {
                Some(t) => t,
                None => "Error"@,
            },
    {
        let title = match canonical_reason(status) {
            Some(t) => t,
            None => "Error",
        };
        BatchItemResult { index, status, result: None, error: Some(ProblemDetails::new(status, String::from_str(title), detail)) }
    }

    pub fn ok(index: usize, result: T) -> (r: Self)
        ensures
            r.index == index,
            r.status == 200,
            r.result == Some(result),
            r.error is None,
    {
        BatchItemResult { index, status: 200, result: Some(result), error: None }
    }
}

/// Every item succeeded (2xx).
pub open spec fn all_items_ok<T>(items: Seq<BatchItemResult<T>>) -> bool {
    forall|i: int| 0 <= i < items.len() ==> 200 <= #[trigger] items[i].status < 300
}

/// Every item failed (4xx or 5xx).
pub open spec fn all_items_failed<T>(items: Seq<BatchItemResult<T>>) -> bool {
    forall|i: int| 0 <= i < items.len() ==> #[trigger] items[i].status >= 400
}

/// The status of a whole batch: 200 when every item succeeded, 400 when every
/// item failed, 207 (multi-status) otherwise.
pub open spec fn batch_status<T>(items: Seq<BatchItemResult<T>>) -> u16 {
    if all_items_ok(items) {
        200
    } else if all_items_failed(items) {
        400
    } else {
        207
    }
}

/// Computes `batch_status` of `items`.
pub fn batch_http_status<T>(items: &Vec<BatchItemResult<T>>) -> (r: u16)
    ensures
        r == batch_status(items@),
{
    let mut all_ok = true;
    let mut all_failed = true;
    for i in 0..items.len()
        invariant
            all_ok == (forall|j: int| 0 <= j < i ==> 200 <= #[trigger] items@[j].status < 300),
            all_failed == (forall|j: int| 0 <= j < i ==> #[trigger] items@[j].status >= 400),
    {
        let s = items[i].status;
        if !(200 <= s && s < 300) {
            all_ok = false;
        }
        if s < 400 {
            all_failed = false;
        }
    }
    if all_ok {
        200
    } else if all_failed {
        400
    } else {
        207
    }
}

/// The items of a batch request, answered together.
#[derive(Debug)]
pub struct BatchResponse<T> {
    pub items: Vec<BatchItemResult<T>>,
}

impl<T> BatchResponse<T> {
    pub fn http_status(&self) -> (r: u16)
        ensures
            r == batch_status(self.items@),
    {
        batch_http_status(&self.items)
    }
}

} // verus!
