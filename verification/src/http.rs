//! HTTP requests routed through the registry's local SOCKS proxy.
//!
//! The network transport itself is the embedding's job: this module checks
//! the preconditions in their documented order, builds the request the
//! transport is to perform (proxy target `127.0.0.1:<socks_port>`), and
//! turns the transport's reply into the result callers see.  A status code
//! of 0 always means transport or setup failure, never a real HTTP status.

use vstd::prelude::*;

use crate::registry::ServiceRegistry;

verus! {

/// The request methods the client issues.
#[derive(Clone, Copy, Debug, PartialEq, Eq, Structural)]
pub enum HttpMethod {
    Get,
    Post,
    Put,
    Delete,
}

/// What a request returns: status code 0 with a non-empty error for any
/// setup or transport failure, the transport's own status and body
/// otherwise.
#[derive(Clone, Debug)]
pub struct HttpResponse {
    pub status_code: u16,
    pub body: String,
    pub error: String,
}

/// A request ready for the transport: everything it needs, including the
/// local proxy port of the service the request is to be routed through.
/// The proxy target is `127.0.0.1:<proxy_port>`.
#[derive(Clone, Debug)]
pub struct PreparedHttpRequest {
    pub url: String,
    pub method: HttpMethod,
    pub headers: Option<Vec<(String, String)>>,
    pub body: Option<String>,
    pub timeout_ms: u64,
    pub proxy_port: u16,
}

/// What the transport reported back for a performed request.
#[derive(Clone, Debug)]
pub struct TransportReply {
    pub status_code: u16,
    pub body: String,
    pub error: Option<String>,
}

/// Whether a string parses as a flat JSON object mapping strings to
/// strings; parsing depends on the string alone.
pub uninterp spec fn json_string_map_ok(s: Seq<char>) -> bool;

/// The mapping such a string parses as; a function of the string alone
/// (meaningful only where `json_string_map_ok` holds).
pub uninterp spec fn json_string_map_of(s: Seq<char>) -> Map<Seq<char>, Seq<char>>;

/// The mapping a list of header pairs amounts to; the pair order is left
/// open, the mapping is not.
pub open spec fn pairs_to_map(ps: Seq<(String, String)>) -> Map<Seq<char>, Seq<char>>
    decreases ps.len(),
{
    if ps.len() == 0 {
        Map::empty()
    } else {
        pairs_to_map(ps.drop_last()).insert(ps.last().0@, ps.last().1@)
    }
}

/// Relies on serde_json::from_str for `HashMap<String, String>`: a string
/// is accepted exactly when it is a JSON object of string values, and the
/// mapping those pairs amount to is a function of the string (their order
/// is hash iteration and stays unstated).
#[verifier::external_body]
fn parse_header_pairs(s: &str) -> (r: Option<Vec<(String, String)>>)
    ensures
        r is Some <==> json_string_map_ok(s@),
        r matches Some(pairs) ==> pairs_to_map(pairs@) == json_string_map_of(s@),
{
    match serde_json::from_str::<std::collections::HashMap<String, String>>(s) {
        Ok(m) => Some(m.into_iter().collect()),
        Err(_) => None,
    }
}

/// The contract every preparation path meets, with the checks in their
/// documented order: library setup first, then header syntax, then a live
/// service; each failure yields status code 0 and its own message, and a
/// fully checked request carries the current service's proxy port.
pub open spec fn http_prepare_post(
    s: ServiceRegistry,
    url: String,
    method: HttpMethod,
    headers_json: String,
    body: Option<String>,
    timeout_ms: u64,
    r: Result<PreparedHttpRequest, HttpResponse>,
) -> bool {
    &&& (!s.initialized ==> (r matches Err(e) && e.status_code == 0 && e.body@ == Seq::<
        char,
    >::empty() && e.error@ == "Tor library not initialized"@))
    &&& (s.initialized && headers_json@.len() > 0 && !json_string_map_ok(headers_json@) ==> (
    r matches Err(e) && e.status_code == 0 && e.body@ == Seq::<char>::empty() && e.error@
        == "Invalid headers JSON"@))
    &&& (s.initialized && (headers_json@.len() == 0 || json_string_map_ok(headers_json@))
        && s.current_service is None ==> (r matches Err(e) && e.status_code == 0 && e.body@
        == Seq::<char>::empty() && e.error@ == "Tor service not running"@))
    &&& (s.initialized && (headers_json@.len() == 0 || json_string_map_ok(headers_json@)) ==> (
    s.current_service matches Some(h) ==> (r matches Ok(p) && p.url == url && p.method == method
        && p.timeout_ms == timeout_ms && p.proxy_port == h.socks_port && (p.headers is Some
        <==> headers_json@.len() > 0) && (headers_json@.len() > 0 ==> (p.headers matches Some(hp)
        && pairs_to_map(hp@) == json_string_map_of(headers_json@))) && p.body == body)))
}

/// The body an issued request carries: none when the given body string is
/// empty.
pub open spec fn body_opt(body: String) -> Option<String> {
    if body@.len() == 0 {
        Option::<String>::None
    } else {
        Some(body)
    }
}

impl ServiceRegistry {
    /// Checks the preconditions for a proxied HTTP request in order and
    /// builds the request for the transport to perform.
    pub fn prepare_http_request(
        &self,
        url: String,
        method: HttpMethod,
        headers_json: String,
        body: String,
        timeout_ms: u64,
    ) -> (r: Result<PreparedHttpRequest, HttpResponse>)
        ensures
            http_prepare_post(*self, url, method, headers_json, body_opt(body), timeout_ms, r),
    {
        if !self.initialized {
            return Err(HttpResponse {
                status_code: 0,
                body: String::new(),
                error: String::from_str("Tor library not initialized"),
            });
        }
        let headers: Option<Vec<(String, String)>> = if headers_json.as_str().unicode_len() > 0 {
            match parse_header_pairs(headers_json.as_str()) {
                Some(pairs) => Some(pairs),
                None => {
                    return Err(HttpResponse {
                        status_code: 0,
                        body: String::new(),
                        error: String::from_str("Invalid headers JSON"),
                    });
                },
            }
        } else {
            None
        };
        match &self.current_service {
            Some(h) => Ok(PreparedHttpRequest {
                url,
                method,
                headers,
                body: if body.as_str().unicode_len() == 0 {
                    None
                } else {
                    Some(body)
                },
                timeout_ms,
                proxy_port: h.socks_port,
            }),
            None => Err(HttpResponse {
                status_code: 0,
                body: String::new(),
                error: String::from_str("Tor service not running"),
            }),
        }
    }

    /// Prepares a GET request; GET carries no body by convention.
    pub fn http_get(&self, url: String, headers_json: String, timeout_ms: u64) -> (r: Result<
        PreparedHttpRequest,
        HttpResponse,
    >)
        ensures
            http_prepare_post(
                *self,
                url,
                HttpMethod::Get,
                headers_json,
                Option::<String>::None,
                timeout_ms,
                r,
            ),
    {
        self.prepare_http_request(url, HttpMethod::Get, headers_json, String::new(), timeout_ms)
    }

    /// Prepares a POST request carrying `body` (none when empty).
    pub fn http_post(
        &self,
        url: String,
        body: String,
        headers_json: String,
        timeout_ms: u64,
    ) -> (r: Result<PreparedHttpRequest, HttpResponse>)
        ensures
            http_prepare_post(
                *self,
                url,
                HttpMethod::Post,
                headers_json,
                body_opt(body),
                timeout_ms,
                r,
            ),
    {
        self.prepare_http_request(url, HttpMethod::Post, headers_json, body, timeout_ms)
    }

    /// Prepares a PUT request carrying `body` (none when empty).
    pub fn http_put(
        &self,
        url: String,
        body: String,
        headers_json: String,
        timeout_ms: u64,
    ) -> (r: Result<PreparedHttpRequest, HttpResponse>)
        ensures
            http_prepare_post(
                *self,
                url,
                HttpMethod::Put,
                headers_json,
                body_opt(body),
                timeout_ms,
                r,
            ),
    {
        self.prepare_http_request(url, HttpMethod::Put, headers_json, body, timeout_ms)
    }

    /// Prepares a DELETE request; DELETE carries no body by convention.
    pub fn http_delete(&self, url: String, headers_json: String, timeout_ms: u64) -> (r: Result<
        PreparedHttpRequest,
        HttpResponse,
    >)
        ensures
            http_prepare_post(
                *self,
                url,
                HttpMethod::Delete,
                headers_json,
                Option::<String>::None,
                timeout_ms,
                r,
            ),
    {
        self.prepare_http_request(url, HttpMethod::Delete, headers_json, String::new(), timeout_ms)
    }
}

/// Turns the transport's reply into the response callers see: the
/// transport's status and body verbatim on success (an absent error becomes
/// the empty string), status code 0 with a descriptive, never-empty error
/// on a transport-layer failure.
pub fn finish_http_request(reply: Result<TransportReply, String>) -> (r: HttpResponse)
    ensures
        reply matches Ok(t) ==> r.status_code == t.status_code && r.body == t.body && r.error@
            == (match t.error {
            Some(e) => e@,
            None => Seq::<char>::empty(),
        }),
        reply matches Err(m) ==> r.status_code == 0 && r.body@ == Seq::<char>::empty() && r.error@
            == "Error making HTTP request: "@ + m@ && r.error@.len() > 0,
{
    match reply {
        Ok(t) => HttpResponse {
            status_code: t.status_code,
            body: t.body,
            error: match t.error {
                Some(e) => e,
                None => String::new(),
            },
        },
        Err(m) => {
            proof {
                reveal_strlit("Error making HTTP request: ");
            }
            let mut error = String::from_str("Error making HTTP request: ");
            error.append(m.as_str());
            HttpResponse { status_code: 0, body: String::new(), error }
        },
    }
}

} // verus!
