//! The configured entry point of the service.
use vstd::prelude::*;
use vstd::string::*;

use crate::header::{check_header_value, lemma_line_break_invalid, valid_header_text};
use crate::json::{encode_license_body, json_string_of, key_of_body, lemma_key_body_round_trip, license_body};
use crate::request::{ClientError, Header, Method, Request, RequestView};

verus! {

/// Where the service lives and who calls it. A handle holds no transport
/// and no mutable state: it can be cloned and used from anywhere.
#[derive(Clone, Debug)]
pub struct Client {
    base_url: String,
    api_key: String,
    user_id: String,
}

/// The configuration held by a [`Client`].
pub struct ClientView {
    pub base_url: Seq<char>,
    pub api_key: Seq<char>,
    pub user_id: Seq<char>,
}

impl View for Client {
    type V = ClientView;

    closed spec fn view(&self) -> ClientView {
        ClientView { base_url: self.base_url@, api_key: self.api_key@, user_id: self.user_id@ }
    }
}

/// The value of the content type header of every request.
pub open spec fn content_type() -> Seq<char> {
    "application/json"@
}

/// The three headers that every request carries, in this order.
pub open spec fn expected_headers(c: ClientView) -> Seq<(Seq<char>, Seq<char>)> {
    seq![
        ("Content-Type"@, content_type()),
        ("X-API-Key"@, c.api_key),
        ("X-User-ID"@, c.user_id),
    ]
}

/// Whether the configured credentials can be sent as header values.
pub open spec fn credentials_valid(c: ClientView) -> bool {
    valid_header_text(c.api_key) && valid_header_text(c.user_id)
}

/// The request that a dispatch of `method` on `endpoint` produces. A body
/// is sent with a POST only.
pub open spec fn request_for(
    c: ClientView,
    method: Method,
    endpoint: Seq<char>,
    body: Option<Seq<char>>,
) -> RequestView {
    RequestView {
        method,
        url: c.base_url + endpoint,
        headers: expected_headers(c),
        body: if method == Method::Post {
            body
        } else {
            None
        },
    }
}

pub open spec fn license_path() -> Seq<char> {
    "/api/v1/license/validate"@
}

pub open spec fn tiers_path() -> Seq<char> {
    "/api/v1/tiers"@
}

pub open spec fn system_status_path() -> Seq<char> {
    "/api/v1/system/status"@
}

pub open spec fn security_check_path() -> Seq<char> {
    "/api/v1/security/check"@
}

/// The outcome of dispatching `method` on `endpoint` with `body`: the
/// request, where the credentials can be sent, and otherwise an invalid
/// header error.
pub open spec fn dispatch_outcome(
    c: ClientView,
    method: Method,
    endpoint: Seq<char>,
    body: Option<Seq<char>>,
    r: Result<Request, ClientError>,
) -> bool {
    &&& credentials_valid(c) ==> (r matches Ok(q) && q@ == request_for(c, method, endpoint, body))
    &&& !credentials_valid(c) ==> r == Err::<Request, ClientError>(ClientError::InvalidHeader)
}

/// The body of a license validation request is the object whose single
/// member `key` holds the key's JSON string, and nothing else: reading the
/// member back gives exactly that string.
pub proof fn lemma_license_request_carries_key(c: ClientView, key: Seq<char>)
    ensures
        request_for(c, Method::Post, license_path(), Some(license_body(key))).body matches Some(b)
            && key_of_body(b) == Some(json_string_of(key)),
{
    lemma_key_body_round_trip(json_string_of(key));
}

/// A line break in the API key or in the user ID makes every dispatch fail
/// with an invalid header error, before any request exists.
pub proof fn lemma_line_break_in_credentials_fails(
    c: ClientView,
    method: Method,
    endpoint: Seq<char>,
    body: Option<Seq<char>>,
    r: Result<Request, ClientError>,
    i: int,
)
    requires
        (0 <= i < c.api_key.len() && (c.api_key[i] == '\n' || c.api_key[i] == '\r')) || (0 <= i
            < c.user_id.len() && (c.user_id[i] == '\n' || c.user_id[i] == '\r')),
        dispatch_outcome(c, method, endpoint, body, r),
    ensures
        r == Err::<Request, ClientError>(ClientError::InvalidHeader),
{
    if 0 <= i < c.api_key.len() && (c.api_key[i] == '\n' || c.api_key[i] == '\r') {
        lemma_line_break_invalid(c.api_key, i);
    } else {
        lemma_line_break_invalid(c.user_id, i);
    }
}

impl Client {
    /// A handle on the service at `base_url`, calling as `user_id` with
    /// `api_key`. Nothing is checked or sent here.
    pub fn new(base_url: String, api_key: String, user_id: String) -> (r: Client)
        ensures
            r@.base_url == base_url@,
            r@.api_key == api_key@,
            r@.user_id == user_id@,
    {
        Client { base_url, api_key, user_id }
    }

    /// The three headers of every request, or an invalid header error.
    fn headers(&self) -> (r: Result<Vec<Header>, ClientError>)
        ensures
            credentials_valid(self@) ==> (r matches Ok(h) && h@.map_values(|x: Header| x@)
                == expected_headers(self@)),
            !credentials_valid(self@) ==> r == Err::<Vec<Header>, ClientError>(
                ClientError::InvalidHeader,
            ),
    {
        let type_ok = check_header_value("application/json");
        proof {
            reveal_strlit("application/json");
            assert(valid_header_text(content_type()));
        }
        if !type_ok || !check_header_value(self.api_key.as_str()) || !check_header_value(
            self.user_id.as_str(),
        ) {
            return Err(ClientError::InvalidHeader);
        }
        let mut h: Vec<Header> = Vec::new();
        h.push(
            Header {
                name: String::from_str("Content-Type"),
                value: String::from_str("application/json"),
            },
        );
        h.push(Header { name: String::from_str("X-API-Key"), value: self.api_key.clone() });
        h.push(Header { name: String::from_str("X-User-ID"), value: self.user_id.clone() });
        assert(h@.map_values(|x: Header| x@) =~= expected_headers(self@));
        Ok(h)
    }

    /// A request with the given headers, sent to `endpoint` under the base URL.
    fn assemble(
        &self,
        method: Method,
        endpoint: &str,
        headers: Vec<Header>,
        body: Option<String>,
    ) -> (r: Request)
        requires
            headers@.map_values(|x: Header| x@) == expected_headers(self@),
        ensures
            r@ == request_for(self@, method, endpoint@, crate::request::opt_view(body)),
    {
        let mut url = self.base_url.clone();
        url.append(endpoint);
        let body = match method {
            Method::Post => body,
            Method::Get => None,
        };
        Request { method, url, headers, body }
    }

    /// Prepares a call of `method` on `endpoint`, carrying `body` (JSON
    /// text) where the method is POST.
    pub fn do_request(&self, method: Method, endpoint: &str, body: Option<String>) -> (r: Result<
        Request,
        ClientError,
    >)
        ensures
            dispatch_outcome(self@, method, endpoint@, crate::request::opt_view(body), r),
    {
        let headers = match self.headers() {
            Ok(h) => h,
            Err(e) => return Err(e),
        };
        Ok(self.assemble(method, endpoint, headers, body))
    }

    /// Prepares the validation of the license `key`: a POST whose body is
    /// the JSON object `{"key": key}`, for every key. Fails exactly where
    /// the credentials cannot be sent.
    pub fn validate_license(&self, key: &str) -> (r: Result<Request, ClientError>)
        ensures
            !credentials_valid(self@) ==> r == Err::<Request, ClientError>(
                ClientError::InvalidHeader,
            ),
            credentials_valid(self@) ==> r is Ok,
            r matches Ok(q) ==> q@ == request_for(
                self@,
                Method::Post,
                license_path(),
                Some(license_body(key@)),
            ),
    {
        let headers = match self.headers() {
            Ok(h) => h,
            Err(e) => return Err(e),
        };
        let body = match encode_license_body(key) {
            Some(b) => b,
            None => return Err(ClientError::Serialization),
        };
        Ok(self.assemble(Method::Post, "/api/v1/license/validate", headers, Some(body)))
    }

    /// Prepares the listing of the license tiers: a GET without a body.
    pub fn get_tiers(&self) -> (r: Result<Request, ClientError>)
        ensures
            dispatch_outcome(self@, Method::Get, tiers_path(), None, r),
    {
        self.do_request(Method::Get, "/api/v1/tiers", None)
    }

    /// Prepares the query of the system status: a GET without a body.
    pub fn get_system_status(&self) -> (r: Result<Request, ClientError>)
        ensures
            dispatch_outcome(self@, Method::Get, system_status_path(), None, r),
    {
        self.do_request(Method::Get, "/api/v1/system/status", None)
    }

    /// Prepares the security check: a GET without a body.
    pub fn get_security_check(&self) -> (r: Result<Request, ClientError>)
        ensures
            dispatch_outcome(self@, Method::Get, security_check_path(), None, r),
    {
        self.do_request(Method::Get, "/api/v1/security/check", None)
    }
}

} // verus!
