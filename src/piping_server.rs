//! How the server answers a request: routing by method and path, the checks
//! made before a transfer, the pages of the reserved paths, and the
//! cross-origin preflight.

use vstd::prelude::*;
use base64::Engine;
use vstd::string::StringExecFns;
use crate::dynamic_resources::{self, index_page, help_page, no_script_page};
use crate::headers::{HeaderList, HeaderModel, first_named, values_named, opt_view};
use crate::query::{QueryParams, query_model, query_param_to_hash_map, get_n_receivers_result, param_value, decimal_u32};
use crate::reserved_paths::{self, is_reserved};
use crate::pipe::{Pipe, SenderEntry, ReceiverEntry, sender_step, receiver_step};
use crate::text::{push_text, text_eq, contains_text, contains_seq, occurs_at};

verus! {

/// The method of a request.
pub enum Method {
    Get,
    Head,
    Post,
    Put,
    Options,
    /// Any other method, by its name.
    Other(String),
}

/// The name of a method as it stands in a request line.
pub open spec fn method_name(m: Method) -> Seq<char> {
    match m {
        Method::Get => "GET"@,
        Method::Head => "HEAD"@,
        Method::Post => "POST"@,
        Method::Put => "PUT"@,
        Method::Options => "OPTIONS"@,
        Method::Other(s) => s@,
    }
}

impl Method {
    /// The method that `name` names in a request line: one of the methods the
    /// server tells apart, else any other.
    pub fn from_name(name: &str) -> (r: Method)
        ensures
            method_name(r) == name@,
            name@ == "GET"@ ==> r is Get,
            name@ == "HEAD"@ ==> r is Head,
            name@ == "POST"@ ==> r is Post,
            name@ == "PUT"@ ==> r is Put,
            name@ == "OPTIONS"@ ==> r is Options,
    {
        proof {
            reveal_strlit("GET");
            reveal_strlit("HEAD");
            reveal_strlit("POST");
            reveal_strlit("PUT");
            reveal_strlit("OPTIONS");
            assert("POST"@[0] != "HEAD"@[0]);
            assert("PUT"@[0] != "GET"@[0]);
        }
        if text_eq(name, "GET") {
            Method::Get
        } else if text_eq(name, "HEAD") {
            Method::Head
        } else if text_eq(name, "POST") {
            Method::Post
        } else if text_eq(name, "PUT") {
            Method::Put
        } else if text_eq(name, "OPTIONS") {
            Method::Options
        } else {
            Method::Other(String::from_str(name))
        }
    }

    /// The name of the method as it stands in a request line.
    pub fn name(&self) -> (r: String)
        ensures
            r@ == method_name(*self),
    {
        match self {
            Method::Get => String::from_str("GET"),
            Method::Head => String::from_str("HEAD"),
            Method::Post => String::from_str("POST"),
            Method::Put => String::from_str("PUT"),
            Method::Options => String::from_str("OPTIONS"),
            Method::Other(s) => s.clone(),
        }
    }
}

/// What the server reads of a request before it decides how to answer.
pub struct RequestInfo {
    pub method: Method,
    /// The path of the request target, the key of the rendezvous.
    pub path: String,
    /// The query of the request target, if it has one.
    pub query: Option<String>,
    pub headers: HeaderList,
}

/// A response whose body, if any, is known in full.
pub struct Response {
    pub status: u16,
    pub headers: HeaderList,
    /// `None` for an empty body.
    pub body: Option<String>,
}

/// What a response holds.
pub struct ResponseModel {
    pub status: u16,
    pub headers: HeaderModel,
    pub body: Option<Seq<char>>,
}

impl View for Response {
    type V = ResponseModel;

    open spec fn view(&self) -> ResponseModel {
        ResponseModel { status: self.status, headers: self.headers@, body: opt_view(self.body) }
    }
}

/// How a request is to be answered.
pub enum Decision {
    /// With this response, at once.
    Respond(Response),
    /// The request receives: it enters the pipe of its path as a receiver.
    Receive,
    /// The request sends: it enters the pipe of its path as a sender.
    Send,
}

/// What a decision holds.
pub enum DecisionModel {
    Respond(ResponseModel),
    Receive,
    Send,
}

impl View for Decision {
    type V = DecisionModel;

    open spec fn view(&self) -> DecisionModel {
        match self {
            Decision::Respond(r) => DecisionModel::Respond(r@),
            Decision::Receive => DecisionModel::Receive,
            Decision::Send => DecisionModel::Send,
        }
    }
}

pub const SERVICE_WORKER_MESSAGE: &'static str = "[ERROR] Service Worker registration is rejected.\n";
pub const INVALID_N_MESSAGE: &'static str = "[ERROR] Invalid \"n\" query parameter\n";
pub const ZERO_N_MESSAGE: &'static str = "[ERROR] n should > 0, but n = 0.\n";
pub const MANY_N_MESSAGE: &'static str = "[ERROR] n > 1 not supported yet.\n";

/// The headers of a text response: plain text, readable from any origin.
pub open spec fn plain_headers() -> HeaderModel {
    seq![("Content-Type"@, "text/plain"@), ("Access-Control-Allow-Origin"@, "*"@)]
}

/// The headers of an HTML page, readable from any origin.
pub open spec fn html_headers() -> HeaderModel {
    seq![("Content-Type"@, "text/html"@), ("Access-Control-Allow-Origin"@, "*"@)]
}

/// The answer to a request that breaks the protocol.
pub open spec fn rejection(message: Seq<char>) -> ResponseModel {
    ResponseModel { status: 400, headers: plain_headers(), body: Some(message) }
}

/// Why a sender may not use `path`.
pub open spec fn reserved_path_message(path: Seq<char>) -> Seq<char> {
    "[ERROR] Cannot send to the reserved path '"@ + path + "'. (e.g. '/mypath123')\n"@
}

/// Why a request of `method` with a `Content-Range` is turned away.
pub open spec fn content_range_message(method: Seq<char>) -> Seq<char> {
    "[ERROR] Content-Range is not supported for now in "@ + method + "\n"@
}

/// Why a second sender on `path` is turned away.
pub open spec fn another_sender_message(path: Seq<char>) -> Seq<char> {
    "[ERROR] Another sender has been connected on '"@ + path + "'.\n"@
}

/// Why a second receiver on `path` is turned away.
pub open spec fn another_receiver_message(path: Seq<char>) -> Seq<char> {
    "[ERROR] Another receiver has been connected on '"@ + path + "'.\n"@
}

/// The answer to a method that the server does not take.
pub open spec fn unsupported(method: Seq<char>) -> ResponseModel {
    ResponseModel {
        status: 405,
        headers: plain_headers(),
        body: Some("[ERROR] Unsupported method: "@ + method + ".\n"@),
    }
}

/// Why the parameter `n` of the query `ps` is refused, if it is: only one
/// receiver per transfer is supported.
pub open spec fn n_rejection(ps: HeaderModel) -> Option<Seq<char>> {
    let n = match param_value(ps, "n"@) {
        None => Some(1u32),
        Some(v) => decimal_u32(v),
    };
    match n {
        None => Some(INVALID_N_MESSAGE@),
        Some(x) => if x == 0 {
            Some(ZERO_N_MESSAGE@)
        } else if x > 1 {
            Some(MANY_N_MESSAGE@)
        } else {
            None
        },
    }
}

/// The answer to a cross-origin preflight; `private_network` is whether it
/// asks for access to a private network.
pub open spec fn preflight(private_network: bool) -> ResponseModel {
    ResponseModel {
        status: 200,
        headers: seq![
            ("Access-Control-Allow-Origin"@, "*"@),
            ("Access-Control-Allow-Methods"@, "GET, HEAD, POST, PUT, OPTIONS"@),
            ("Access-Control-Allow-Headers"@, "Content-Type, Content-Disposition, X-Piping"@),
            ("Access-Control-Expose-Headers"@, "Access-Control-Allow-Headers"@),
        ] + (if private_network {
            seq![("Access-Control-Allow-Private-Network"@, "true"@)]
        } else {
            HeaderModel::empty()
        }) + seq![("Access-Control-Max-Age"@, "86400"@), ("Content-Length"@, "0"@)],
        body: None,
    }
}

/// The address that `reference` names relative to the address `base`, as the
/// WHATWG URL standard resolves it, or `None` where `base` is no absolute
/// address or the result is none.
pub uninterp spec fn url_joined(base: Seq<char>, reference: Seq<char>) -> Option<Seq<char>>;

/// Relies on `url::Url::parse` and `url::Url::join`: `base` parsed as an
/// absolute address, `reference` resolved against it, serialised; the outcome
/// depends on the two texts alone.
#[verifier::external_body]
fn join_url(base: &str, reference: &str) -> (r: Option<String>)
    ensures
        opt_view(r) == url_joined(base@, reference@),
{
    match url::Url::parse(base) {
        Ok(b) => match b.join(reference) {
            Ok(u) => Some(u.to_string()),
            Err(_) => None,
        },
        Err(_) => None,
    }
}

/// The scheme of the help page's examples: `https` where the server listens
/// with TLS or a proxy in front says that it does.
pub open spec fn help_scheme(uses_https: bool, forwarded_proto: Option<Seq<char>>) -> Seq<char> {
    if uses_https || (match forwarded_proto {
        Some(p) => contains_seq(p, "https"@),
        None => false,
    }) {
        "https"@
    } else {
        "http"@
    }
}

/// The address of the help page's examples: path `mypath` on the host that the
/// request names, or on `hostname` where the host makes no address.
pub open spec fn help_url_of(
    uses_https: bool,
    host: Option<Seq<char>>,
    forwarded_proto: Option<Seq<char>>,
) -> Seq<char> {
    let h = match host {
        Some(h) => h,
        None => "hostname"@,
    };
    match url_joined(help_scheme(uses_https, forwarded_proto) + "://"@ + h, "mypath"@) {
        Some(u) => u,
        None => "http://hostname/mypath"@,
    }
}

/// The `Content-Security-Policy` of the page without script: no source but
/// the style block tagged with `nonce`.
pub open spec fn no_script_policy(nonce: Seq<char>) -> Seq<char> {
    "default-src 'none'; style-src 'nonce-"@ + nonce + "'"@
}

/// The answer to a GET or HEAD on `path`, where `path` is reserved; `hs` are
/// the request's headers and `ps` its query parameters.
pub open spec fn reserved_response(
    path: Seq<char>,
    hs: HeaderModel,
    ps: HeaderModel,
    uses_https: bool,
    nonce: Seq<char>,
) -> Option<ResponseModel> {
    if path == reserved_paths::INDEX@ {
        Some(ResponseModel { status: 200, headers: html_headers(), body: Some(index_page()) })
    } else if path == reserved_paths::NO_SCRIPT@ {
        Some(
            ResponseModel {
                status: 200,
                headers: html_headers().push(("Content-Security-Policy"@, no_script_policy(nonce))),
                body: Some(no_script_page(ps, nonce)),
            },
        )
    } else if path == reserved_paths::VERSION@ {
        Some(
            ResponseModel {
                status: 200,
                headers: plain_headers(),
                body: Some(dynamic_resources::VERSION@ + " (Rust)\n"@),
            },
        )
    } else if path == reserved_paths::HELP@ {
        Some(
            ResponseModel {
                status: 200,
                headers: plain_headers(),
                body: Some(
                    help_page(
                        help_url_of(
                            uses_https,
                            first_named(hs, "host"@),
                            first_named(hs, "x-forwarded-proto"@),
                        ),
                    ),
                ),
            },
        )
    } else if path == reserved_paths::FAVICON_ICO@ {
        Some(ResponseModel { status: 204, headers: HeaderModel::empty(), body: None })
    } else if path == reserved_paths::ROBOTS_TXT@ {
        Some(
            ResponseModel {
                status: 404,
                headers: seq![("Content-Length"@, "0"@)],
                body: None,
            },
        )
    } else {
        None
    }
}

/// How the server answers `req`; `uses_https` is whether it listens with TLS,
/// `nonce` tags the style of the page without script.
pub open spec fn decision(req: RequestInfo, uses_https: bool, nonce: Seq<char>) -> DecisionModel {
    let path = req.path@;
    let hs = req.headers@;
    let ps = query_model(opt_view(req.query));
    let reserved = reserved_response(path, hs, ps, uses_https, nonce);
    if (req.method is Get || req.method is Head) && reserved is Some {
        DecisionModel::Respond(reserved->0)
    } else {
        match req.method {
            Method::Get => if first_named(hs, "service-worker"@) == Some("script"@) {
                DecisionModel::Respond(rejection(SERVICE_WORKER_MESSAGE@))
            } else {
                match n_rejection(ps) {
                    Some(m) => DecisionModel::Respond(rejection(m)),
                    None => DecisionModel::Receive,
                }
            },
            Method::Post | Method::Put => if is_reserved(path) {
                DecisionModel::Respond(rejection(reserved_path_message(path)))
            } else if values_named(hs, "content-range"@).len() > 0 {
                DecisionModel::Respond(rejection(content_range_message(method_name(req.method))))
            } else {
                match n_rejection(ps) {
                    Some(m) => DecisionModel::Respond(rejection(m)),
                    None => DecisionModel::Send,
                }
            },
            Method::Options => DecisionModel::Respond(
                preflight(
                    first_named(hs, "access-control-request-private-network"@) == Some("true"@),
                ),
            ),
            _ => DecisionModel::Respond(unsupported(method_name(req.method))),
        }
    }
}

fn text_headers(content_type: &str) -> (r: HeaderList)
    ensures
        r@ == seq![("Content-Type"@, content_type@), ("Access-Control-Allow-Origin"@, "*"@)],
{
    let mut h = HeaderList::new();
    h.push("Content-Type", String::from_str(content_type));
    h.push("Access-Control-Allow-Origin", String::from_str("*"));
    assert(h@ =~= seq![("Content-Type"@, content_type@), ("Access-Control-Allow-Origin"@, "*"@)]);
    h
}

/// The headers of the response that a sender gets: the progress of the
/// transfer, in plain text.
pub fn sender_response_headers() -> (r: HeaderList)
    ensures
        r@ == plain_headers(),
{
    text_headers("text/plain")
}

/// `a`, `b` and `c` one after the other.
fn concat3(a: &str, b: &str, c: &str) -> (r: String)
    ensures
        r@ == a@ + b@ + c@,
{
    let mut out = String::from_str(a);
    push_text(&mut out, b);
    push_text(&mut out, c);
    out
}

/// The answer to a request that breaks the protocol, with `message` as body.
pub fn rejection_response(message: String) -> (r: Response)
    ensures
        r@ == rejection(message@),
{
    Response { status: 400, headers: text_headers("text/plain"), body: Some(message) }
}

/// The answer to a second sender on `path`.
pub fn another_sender_response(path: &str) -> (r: Response)
    ensures
        r@ == rejection(another_sender_message(path@)),
{
    rejection_response(concat3("[ERROR] Another sender has been connected on '", path, "'.\n"))
}

/// The answer to a second receiver on `path`.
pub fn another_receiver_response(path: &str) -> (r: Response)
    ensures
        r@ == rejection(another_receiver_message(path@)),
{
    rejection_response(concat3("[ERROR] Another receiver has been connected on '", path, "'.\n"))
}

/// Why the parameter `n` of `query_params` is refused, if it is.
pub fn n_receivers_rejection(query_params: &QueryParams) -> (r: Option<String>)
    ensures
        opt_view(r) == n_rejection(query_params@),
{
    match get_n_receivers_result(query_params) {
        Err(_) => Some(String::from_str(INVALID_N_MESSAGE)),
        Ok(n) => if n == 0 {
            Some(String::from_str(ZERO_N_MESSAGE))
        } else if n > 1 {
            Some(String::from_str(MANY_N_MESSAGE))
        } else {
            None
        },
    }
}

/// The answer to a cross-origin preflight; `private_network` is whether it
/// asks for access to a private network.
pub fn preflight_response(private_network: bool) -> (r: Response)
    ensures
        r@ == preflight(private_network),
{
    let mut h = HeaderList::new();
    h.push("Access-Control-Allow-Origin", String::from_str("*"));
    h.push("Access-Control-Allow-Methods", String::from_str("GET, HEAD, POST, PUT, OPTIONS"));
    h.push(
        "Access-Control-Allow-Headers",
        String::from_str("Content-Type, Content-Disposition, X-Piping"),
    );
    h.push("Access-Control-Expose-Headers", String::from_str("Access-Control-Allow-Headers"));
    if private_network {
        h.push("Access-Control-Allow-Private-Network", String::from_str("true"));
    }
    h.push("Access-Control-Max-Age", String::from_str("86400"));
    h.push("Content-Length", String::from_str("0"));
    let r = Response { status: 200, headers: h, body: None };
    assert(r@.headers =~= preflight(private_network).headers);
    r
}

/// The address of the help page's examples, for a server that listens with
/// TLS or not, and the request's `Host` and `X-Forwarded-Proto`.
pub fn help_url(uses_https: bool, host: Option<String>, forwarded_proto: Option<String>) -> (r:
    String)
    ensures
        r@ == help_url_of(uses_https, opt_view(host), opt_view(forwarded_proto)),
{
    let secure = uses_https || match &forwarded_proto {
        Some(p) => contains_text(p.as_str(), "https"),
        None => false,
    };
    let mut base = String::from_str(if secure { "https" } else { "http" });
    push_text(&mut base, "://");
    match &host {
        Some(h) => push_text(&mut base, h.as_str()),
        None => push_text(&mut base, "hostname"),
    }
    match join_url(base.as_str(), "mypath") {
        Some(u) => u,
        None => String::from_str("http://hostname/mypath"),
    }
}

/// The answer to a GET or HEAD on `path` where it is reserved.
fn reserved_answer(
    path: &str,
    headers: &HeaderList,
    query: &Option<String>,
    uses_https: bool,
    nonce: &str,
) -> (r: Option<Response>)
    ensures
        match r {
            Some(x) => reserved_response(
                path@,
                headers@,
                query_model(opt_view(*query)),
                uses_https,
                nonce@,
            ) == Some(x@),
            None => reserved_response(
                path@,
                headers@,
                query_model(opt_view(*query)),
                uses_https,
                nonce@,
            ) is None,
        },
{
    if text_eq(path, reserved_paths::INDEX) {
        Some(
            Response {
                status: 200,
                headers: text_headers("text/html"),
                body: Some(dynamic_resources::index()),
            },
        )
    } else if text_eq(path, reserved_paths::NO_SCRIPT) {
        let query_params = query_param_to_hash_map(
            match query {
                Some(q) => Some(q.as_str()),
                None => None,
            },
        );
        let html = dynamic_resources::no_script_html(&query_params, nonce);
        let mut h = text_headers("text/html");
        h.push(
            "Content-Security-Policy",
            concat3("default-src 'none'; style-src 'nonce-", nonce, "'"),
        );
        Some(Response { status: 200, headers: h, body: Some(html) })
    } else if text_eq(path, reserved_paths::VERSION) {
        let mut body = String::from_str(dynamic_resources::VERSION);
        push_text(&mut body, " (Rust)\n");
        Some(Response { status: 200, headers: text_headers("text/plain"), body: Some(body) })
    } else if text_eq(path, reserved_paths::HELP) {
        let url = help_url(uses_https, headers.get("host"), headers.get("x-forwarded-proto"));
        Some(
            Response {
                status: 200,
                headers: text_headers("text/plain"),
                body: Some(dynamic_resources::help(url.as_str())),
            },
        )
    } else if text_eq(path, reserved_paths::FAVICON_ICO) {
        Some(Response { status: 204, headers: HeaderList::new(), body: None })
    } else if text_eq(path, reserved_paths::ROBOTS_TXT) {
        let mut h = HeaderList::new();
        h.push("Content-Length", String::from_str("0"));
        assert(h@ =~= seq![("Content-Length"@, "0"@)]);
        Some(Response { status: 404, headers: h, body: None })
    } else {
        None
    }
}

/// Whether the first header `name` of `headers` is `value`.
fn header_is(headers: &HeaderList, name: &str, value: &str) -> (r: bool)
    ensures
        r == (first_named(headers@, name@) == Some(value@)),
{
    match headers.get(name) {
        Some(v) => text_eq(v.as_str(), value),
        None => false,
    }
}

/// How the server answers `req`; `uses_https` is whether it listens with TLS,
/// `nonce` tags the style of the page without script.
pub fn decide(req: &RequestInfo, uses_https: bool, nonce: &str) -> (r: Decision)
    ensures
        r@ == decision(*req, uses_https, nonce@),
{
    let path = req.path.as_str();
    let get_or_head = match req.method {
        Method::Get | Method::Head => true,
        _ => false,
    };
    if get_or_head {
        match reserved_answer(path, &req.headers, &req.query, uses_https, nonce) {
            Some(r) => {
                return Decision::Respond(r);
            },
            None => {},
        }
    }
    let query_params = query_param_to_hash_map(
        match &req.query {
            Some(q) => Some(q.as_str()),
            None => None,
        },
    );
    match &req.method {
        Method::Get => {
            if header_is(&req.headers, "service-worker", "script") {
                return Decision::Respond(
                    rejection_response(String::from_str(SERVICE_WORKER_MESSAGE)),
                );
            }
            match n_receivers_rejection(&query_params) {
                Some(m) => Decision::Respond(rejection_response(m)),
                None => Decision::Receive,
            }
        },
        Method::Post | Method::Put => {
            if reserved_paths::contains(path) {
                return Decision::Respond(
                    rejection_response(
                        concat3(
                            "[ERROR] Cannot send to the reserved path '",
                            path,
                            "'. (e.g. '/mypath123')\n",
                        ),
                    ),
                );
            }
            if req.headers.contains("content-range") {
                let name = req.method.name();
                return Decision::Respond(
                    rejection_response(
                        concat3(
                            "[ERROR] Content-Range is not supported for now in ",
                            name.as_str(),
                            "\n",
                        ),
                    ),
                );
            }
            match n_receivers_rejection(&query_params) {
                Some(m) => Decision::Respond(rejection_response(m)),
                None => Decision::Send,
            }
        },
        Method::Options => Decision::Respond(
            preflight_response(
                header_is(&req.headers, "access-control-request-private-network", "true"),
            ),
        ),
        _ => {
            let name = req.method.name();
            Decision::Respond(
                Response {
                    status: 405,
                    headers: text_headers("text/plain"),
                    body: Some(concat3("[ERROR] Unsupported method: ", name.as_str(), ".\n")),
                },
            )
        },
    }
}

/// The standard Base64 text, padded, of the bytes `b`.
pub uninterp spec fn base64_standard(b: Seq<u8>) -> Seq<char>;

/// Relies on base64's `STANDARD` engine, `Engine::encode`: the padded
/// standard Base64 text of the bytes, which depends on them alone.
#[verifier::external_body]
fn encode_base64(bytes: &Vec<u8>) -> (r: String)
    ensures
        r@ == base64_standard(bytes@),
{
    base64::engine::general_purpose::STANDARD.encode(bytes)
}

/// Relies on `getrandom::getrandom`: where it succeeds it has filled the
/// whole buffer with random bytes.
#[verifier::external_body]
fn random_bytes(len: usize) -> (r: Option<Vec<u8>>)
    ensures
        r matches Some(b) ==> b@.len() == len,
{
    let mut b = vec![0u8; len];
    match getrandom::getrandom(&mut b) {
        Ok(()) => Some(b),
        Err(_) => None,
    }
}

/// Whether `n` can be a style nonce: 16 bytes in Base64.
pub open spec fn is_style_nonce(n: Seq<char>) -> bool {
    exists|b: Seq<u8>| b.len() == 16 && n == base64_standard(b)
}

/// A fresh nonce for a style block: 16 random bytes in Base64, or `None` where
/// no random bytes could be had.
pub fn style_nonce() -> (r: Option<String>)
    ensures
        r matches Some(n) ==> is_style_nonce(n@),
{
    match random_bytes(16) {
        Some(b) => {
            let n = encode_base64(&b);
            assert(b@.len() == 16 && n@ == base64_standard(b@));
            Some(n)
        },
        None => None,
    }
}

/// The answer to a request that needs a fresh nonce where none could be made.
pub open spec fn nonce_failure() -> ResponseModel {
    ResponseModel {
        status: 500,
        headers: plain_headers(),
        body: Some("[ERROR] No random nonce could be made.\n"@),
    }
}

/// Whether the answer to `req` is the page without script, which needs a
/// fresh nonce.
pub open spec fn needs_nonce(req: RequestInfo) -> bool {
    (req.method is Get || req.method is Head) && req.path@ == reserved_paths::NO_SCRIPT@
}

/// How the server answers `req`; `uses_https` is whether it listens with TLS.
/// The page without script gets a fresh nonce.
pub fn handle_request(req: &RequestInfo, uses_https: bool) -> (r: Decision)
    ensures
        !needs_nonce(*req) ==> r@ == decision(*req, uses_https, ""@),
        needs_nonce(*req) ==> (r@ == DecisionModel::Respond(nonce_failure()) || exists|
            n: Seq<char>,
        | is_style_nonce(n) && r@ == decision(*req, uses_https, n)),
{
    let get_or_head = match req.method {
        Method::Get | Method::Head => true,
        _ => false,
    };
    if get_or_head && text_eq(req.path.as_str(), reserved_paths::NO_SCRIPT) {
        match style_nonce() {
            Some(n) => decide(req, uses_https, n.as_str()),
            None => Decision::Respond(
                Response {
                    status: 500,
                    headers: text_headers("text/plain"),
                    body: Some(String::from_str("[ERROR] No random nonce could be made.\n")),
                },
            ),
        }
    } else {
        let r = decide(req, uses_https, "");
        proof {
            reveal_strlit("");
        }
        r
    }
}

/// A HEAD on a reserved path is answered as a GET on it: the same status and
/// the same headers, in the same order, but for the value of a
/// `Content-Security-Policy`, which carries each answer's own nonce.
pub proof fn lemma_head_answers_as_get(
    get: RequestInfo,
    head: RequestInfo,
    uses_https: bool,
    nonce_get: Seq<char>,
    nonce_head: Seq<char>,
)
    requires
        get.method is Get,
        head.method is Head,
        get.path@ == head.path@,
        is_reserved(get.path@),
        get.headers@ == head.headers@,
        opt_view(get.query) == opt_view(head.query),
    ensures
        decision(get, uses_https, nonce_get) is Respond,
        decision(head, uses_https, nonce_head) is Respond,
        ({
            let a = decision(get, uses_https, nonce_get)->Respond_0;
            let b = decision(head, uses_https, nonce_head)->Respond_0;
            &&& a.status == b.status
            &&& a.headers.len() == b.headers.len()
            &&& forall|i: int|
                0 <= i < a.headers.len() ==> a.headers[i].0 == b.headers[i].0 && (a.headers[i].0
                    != "Content-Security-Policy"@ ==> a.headers[i] == b.headers[i])
        }),
{
}

/// What a party that arrives at a pipe is to do next.
pub enum Arrival<S, R> {
    /// Wait in the pipe for the other party.
    Wait,
    /// Start the transfer between this sender and this receiver.
    Transfer(S, R),
    /// Answer at once with this response: the party is turned away.
    Reject(Response),
}

/// A sender `s` arrives at the pipe of `path`.
pub fn sender_arrives<S, R>(pipe: &mut Pipe<S, R>, path: &str, s: S) -> (r: Arrival<S, R>)
    ensures
        *final(pipe) == sender_step(*old(pipe), s).0,
        match sender_step(*old(pipe), s).1 {
            SenderEntry::Waiting => r is Wait,
            SenderEntry::Matched(a, b) => r == Arrival::<S, R>::Transfer(a, b),
            SenderEntry::Rejected(_) => r is Reject && r->Reject_0@ == rejection(
                another_sender_message(path@),
            ),
        },
{
    match pipe.enter_sender(s) {
        SenderEntry::Waiting => Arrival::Wait,
        SenderEntry::Matched(a, b) => Arrival::Transfer(a, b),
        SenderEntry::Rejected(_) => Arrival::Reject(another_sender_response(path)),
    }
}

/// A receiver `r` arrives at the pipe of `path`.
pub fn receiver_arrives<S, R>(pipe: &mut Pipe<S, R>, path: &str, r: R) -> (out: Arrival<S, R>)
    ensures
        *final(pipe) == receiver_step(*old(pipe), r).0,
        match receiver_step(*old(pipe), r).1 {
            ReceiverEntry::Waiting => out is Wait,
            ReceiverEntry::Matched(a, b) => out == Arrival::<S, R>::Transfer(a, b),
            ReceiverEntry::Rejected(_) => out is Reject && out->Reject_0@ == rejection(
                another_receiver_message(path@),
            ),
        },
{
    match pipe.enter_receiver(r) {
        ReceiverEntry::Waiting => Arrival::Wait,
        ReceiverEntry::Matched(a, b) => Arrival::Transfer(a, b),
        ReceiverEntry::Rejected(_) => Arrival::Reject(another_receiver_response(path)),
    }
}

/// `p` occurs in `pre + p + post`.
proof fn lemma_occurs_in_middle(pre: Seq<char>, p: Seq<char>, post: Seq<char>)
    ensures
        contains_seq(pre + p + post, p),
{
    assert((pre + p + post).subrange(pre.len() as int, (pre.len() + p.len()) as int) =~= p);
    assert(occurs_at(pre + p + post, p, pre.len() as int));
}

/// Of two senders on a path where nobody waits, whichever comes first waits
/// for a receiver and the other is turned away with a 400 whose body names the
/// path; the pipe keeps the first.
pub proof fn lemma_one_of_two_senders<S, R>(pipe: Pipe<S, R>, path: Seq<char>, s1: S, s2: S)
    requires
        pipe.is_empty(),
    ensures
        sender_step(pipe, s1).1 is Waiting,
        sender_step(sender_step(pipe, s1).0, s2).1 is Rejected,
        sender_step(sender_step(pipe, s1).0, s2).0.data_sender == Some(s1),
        rejection(another_sender_message(path)).status == 400,
        contains_seq(rejection(another_sender_message(path)).body->0, path),
{
    lemma_occurs_in_middle("[ERROR] Another sender has been connected on '"@, path, "'.\n"@);
}

/// Of two receivers on a path where nobody waits, whichever comes first waits
/// and the other is turned away with a 400 whose body names the path; the
/// sender that comes next is matched with the first.
pub proof fn lemma_one_of_two_receivers<S, R>(
    pipe: Pipe<S, R>,
    path: Seq<char>,
    r1: R,
    r2: R,
    s: S,
)
    requires
        pipe.is_empty(),
    ensures
        receiver_step(pipe, r1).1 is Waiting,
        receiver_step(receiver_step(pipe, r1).0, r2).1 is Rejected,
        sender_step(receiver_step(receiver_step(pipe, r1).0, r2).0, s).1 == SenderEntry::<
            S,
            R,
        >::Matched(s, r1),
        rejection(another_receiver_message(path)).status == 400,
        contains_seq(rejection(another_receiver_message(path)).body->0, path),
{
    lemma_occurs_in_middle("[ERROR] Another receiver has been connected on '"@, path, "'.\n"@);
}

} // verus!
