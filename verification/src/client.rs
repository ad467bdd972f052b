use vstd::prelude::*;
use vstd::string::StringExecFns;

verus! {

/// Root of the remote price service's versioned API.
pub const BASE_API_URL: &'static str = "https://api.coingecko.com/api/v3";

/// Tri-state classification of an HTTP response status code.
#[derive(Debug, Copy, Clone, PartialEq, Eq, Structural)]
pub enum CryptoClientStatus {
    Success,
    Error,
    Unknown,
}

/// The classification rule: 2xx is a success, 3xx through 5xx is a
/// remote-reported error, anything else (including the 1xx range and
/// out-of-range values) is unknown.
pub open spec fn classify_spec(code: u16) -> CryptoClientStatus {
    if 200 <= code && code <= 299 {
        CryptoClientStatus::Success
    } else if 300 <= code && code <= 599 {
        CryptoClientStatus::Error
    } else {
        CryptoClientStatus::Unknown
    }
}

/// Maps a numeric HTTP status code to its classification.
pub fn classify_status(code: u16) -> (r: CryptoClientStatus)
    ensures
        r == classify_spec(code),
{
    if 200 <= code && code <= 299 {
        CryptoClientStatus::Success
    } else if 300 <= code && code <= 599 {
        CryptoClientStatus::Error
    } else {
        CryptoClientStatus::Unknown
    }
}

/// Every status code falls in exactly one classification band:
/// codes in [200, 299] are `Success`, codes in [300, 599] are `Error`,
/// and every other code is `Unknown`.
pub proof fn lemma_classification_bands(code: u16)
    ensures
        200 <= code <= 299 ==> classify_spec(code) == CryptoClientStatus::Success,
        300 <= code <= 599 ==> classify_spec(code) == CryptoClientStatus::Error,
        code < 200 || code > 599 ==> classify_spec(code) == CryptoClientStatus::Unknown,
{
}

/// An immutable pair of the classified outcome and the raw response body.
pub struct CryptoClientRes {
    status: CryptoClientStatus,
    body: String,
}

impl CryptoClientRes {
    pub closed spec fn spec_status(&self) -> CryptoClientStatus {
        self.status
    }

    pub closed spec fn spec_body(&self) -> Seq<char> {
        self.body@
    }

    /// Builds the response for a received status code and body: the outcome
    /// is the classification of the code and the body is kept unaltered.
    pub fn new(code: u16, body: String) -> (r: CryptoClientRes)
        ensures
            r.spec_status() == classify_spec(code),
            r.spec_body() == body@,
    {
        let status = classify_status(code);
        CryptoClientRes { status, body }
    }

    pub fn get_status(&self) -> (r: CryptoClientStatus)
        ensures
            r == self.spec_status(),
    {
        self.status
    }

    pub fn get_body(&self) -> (r: &String)
        ensures
            r@ == self.spec_body(),
    {
        &self.body
    }
}

/// A response is a deterministic function of the received status code and
/// body: two responses built from the same code and the same body text agree
/// in both outcome and body, so repeating a request against an unchanged
/// remote yields an identical result.
pub proof fn lemma_response_deterministic(
    r1: CryptoClientRes,
    r2: CryptoClientRes,
    code: u16,
    body: Seq<char>,
)
    requires
        r1.spec_status() == classify_spec(code),
        r1.spec_body() == body,
        r2.spec_status() == classify_spec(code),
        r2.spec_body() == body,
    ensures
        r1.spec_status() == r2.spec_status(),
        r1.spec_body() == r2.spec_body(),
{
}

/// Joins the base URL and an endpoint path with exactly one separating
/// slash: no slash is collapsed and none is stripped.
pub fn build_url(base: &str, endpoint: &str) -> (r: String)
    ensures
        r@ == base@ + "/"@ + endpoint@,
{
    let mut url: String = base.to_owned();
    url.append("/");
    url.append(endpoint);
    url
}

/// The full URL of the liveness-check endpoint.
pub fn ping_url() -> (r: String)
    ensures
        r@ == BASE_API_URL@ + "/"@ + "ping"@,
{
    build_url(BASE_API_URL, "ping")
}

/// The full URL of the supported-quote-currencies endpoint.
pub fn supported_vs_currencies_url() -> (r: String)
    ensures
        r@ == BASE_API_URL@ + "/"@ + "simple/supported_vs_currencies"@,
{
    build_url(BASE_API_URL, "simple/supported_vs_currencies")
}

/// A transport-level failure: the request could not be sent, the connection
/// was refused or reset, it timed out, or the body could not be decoded as
/// text. No response is constructed when one of these occurs.
#[derive(Debug)]
pub struct TransportError {
    message: String,
}

impl TransportError {
    pub closed spec fn spec_message(&self) -> Seq<char> {
        self.message@
    }

    pub fn new(message: String) -> (r: TransportError)
        ensures
            r.spec_message() == message@,
    {
        TransportError { message }
    }

    pub fn message(&self) -> (r: &String)
        ensures
            r@ == self.spec_message(),
    {
        &self.message
    }
}

/// The capability consumed by callers: a liveness check and a lookup of the
/// currencies the remote service can quote against. The network-backed
/// provider lives outside the verified library; a test double may stand in
/// for it. A transport failure is surfaced as `Err`; a response received
/// with an error status is a successful call whose outcome is `Error`.
pub trait CryptoClient {
    fn ping(&self) -> Result<CryptoClientRes, TransportError>;

    fn simple_supported_vs_currencies(&self) -> Result<CryptoClientRes, TransportError>;
}

} // verus!
