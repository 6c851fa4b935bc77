use vstd::prelude::*;
use vstd::string::*;

use std::sync::Arc;

use crate::config::ServerId;
use crate::registry::ServerStore;
use crate::server::ActiveServer;

verus! {

/// Why the gateway rejected a request before forwarding anything.
#[derive(Debug, Clone, Copy, PartialEq, Eq, Structural)]
pub enum GatewayError {
    /// The first path segment is not a deployment UUID.
    InvalidServerId,
    /// The path has no tenant segment.
    MissingTenant,
    /// The path has no environment segment.
    MissingEnv,
    /// No session is loaded for the addressed deployment.
    UnknownServer,
}

/// The value a deployment UUID string denotes, or `None` when the string is
/// not one.
pub uninterp spec fn uuid_of(s: Seq<char>) -> Option<u128>;

/// Relies on uuid's string parser: which strings parse, and the value
/// parsed, depend on the characters alone.
#[verifier::external_body]
fn parse_uuid(s: &str) -> (r: Option<u128>)
    ensures
        r == uuid_of(s@),
{
    match uuid::Uuid::try_parse(s) {
        Ok(u) => Some(u.as_u128()),
        Err(_) => None,
    }
}

/// First index at or after `from` holding `c`, or the length when none does.
pub open spec fn spec_find(s: Seq<char>, c: char, from: int) -> int
    decreases s.len() - from,
{
    if from < 0 || from >= s.len() {
        s.len() as int
    } else if s[from] == c {
        from
    } else {
        spec_find(s, c, from + 1)
    }
}

proof fn lemma_spec_find(s: Seq<char>, c: char, from: int)
    requires
        0 <= from <= s.len(),
    ensures
        from <= spec_find(s, c, from) <= s.len(),
        spec_find(s, c, from) < s.len() ==> s[spec_find(s, c, from)] == c,
        forall|j: int| from <= j < spec_find(s, c, from) ==> s[j] != c,
    decreases s.len() - from,
{
    if from < s.len() && s[from] != c {
        lemma_spec_find(s, c, from + 1);
    }
}

/// First index at or after `from` holding `c`, or `n` when none does.
fn find_char(s: &str, n: usize, c: char, from: usize) -> (r: usize)
    requires
        n == s@.len(),
        from <= n,
    ensures
        r == spec_find(s@, c, from as int),
{
    let mut i: usize = from;
    while i < n
        invariant
            from <= i <= n,
            n == s@.len(),
            spec_find(s@, c, from as int) == spec_find(s@, c, i as int),
        decreases n - i,
    {
        if s.get_char(i) == c {
            return i;
        }
        proof {
            assert(spec_find(s@, c, i as int) == spec_find(s@, c, i + 1));
        }
        i = i + 1;
    }
    i
}

/// A parsed gateway target: which deployment, tenant and environment the
/// request addresses, the path to forward, and the untouched query string.
#[derive(Debug, Clone)]
pub struct GatewayTarget {
    pub server_id: ServerId,
    pub tenant_id: String,
    pub env: String,
    pub remaining: String,
    pub query: Option<String>,
}

/// Mathematical model of `GatewayTarget`.
pub struct GatewayTargetView {
    pub server_id: ServerId,
    pub tenant_id: Seq<char>,
    pub env: Seq<char>,
    pub remaining: Seq<char>,
    pub query: Option<Seq<char>>,
}

impl View for GatewayTarget {
    type V = GatewayTargetView;

    open spec fn view(&self) -> GatewayTargetView {
        GatewayTargetView {
            server_id: self.server_id,
            tenant_id: self.tenant_id@,
            env: self.env@,
            remaining: self.remaining@,
            query: match self.query {
                Some(q) => Some(q@),
                None => None,
            },
        }
    }
}

/// The path-and-query split at the first `?`; the query keeps everything
/// after it, unchanged.
pub open spec fn spec_split_query(s: Seq<char>) -> (Seq<char>, Option<Seq<char>>) {
    let q = spec_find(s, '?', 0);
    if q == s.len() {
        (s, None)
    } else {
        (s.take(q), Some(s.skip(q + 1)))
    }
}

/// The path without its single leading slash, if it has one.
pub open spec fn spec_strip_slash(s: Seq<char>) -> Seq<char> {
    if s.len() > 0 && s[0] == '/' {
        s.skip(1)
    } else {
        s
    }
}

/// How a request target parses: `/{uuid}/{tenant}/{env}/{remaining}?{query}`.
/// The first segment must be a deployment UUID; tenant and environment
/// segments must be present; everything after the third slash is the path to
/// forward, empty when there is none.
pub open spec fn spec_parse_target(target: Seq<char>) -> Result<GatewayTargetView, GatewayError> {
    let pq = spec_split_query(target);
    let path = spec_strip_slash(pq.0);
    let i1 = spec_find(path, '/', 0);
    if uuid_of(path.take(i1)) is None {
        Err(GatewayError::InvalidServerId)
    } else if i1 == path.len() {
        Err(GatewayError::MissingTenant)
    } else {
        let i2 = spec_find(path, '/', i1 + 1);
        if i2 == path.len() {
            Err(GatewayError::MissingEnv)
        } else {
            let i3 = spec_find(path, '/', i2 + 1);
            Ok(
                GatewayTargetView {
                    server_id: uuid_of(path.take(i1))->Some_0,
                    tenant_id: path.subrange(i1 + 1, i2),
                    env: path.subrange(i2 + 1, i3),
                    remaining: if i3 == path.len() {
                        Seq::empty()
                    } else {
                        path.skip(i3 + 1)
                    },
                    query: pq.1,
                },
            )
        }
    }
}

/// Parse a request target into deployment id, tenant, environment, remaining
/// path and query string.
pub fn parse_gateway_target(target: &str) -> (r: Result<GatewayTarget, GatewayError>)
    ensures
        match r {
            Ok(t) => spec_parse_target(target@) == Ok::<GatewayTargetView, GatewayError>(t@),
            Err(e) => spec_parse_target(target@) == Err::<GatewayTargetView, GatewayError>(e),
        },
{
    let n = target.unicode_len();
    proof {
        lemma_spec_find(target@, '?', 0);
    }
    let qpos = find_char(target, n, '?', 0);
    let path_str: &str;
    let query: Option<String>;
    if qpos == n {
        path_str = target;
        query = None;
    } else {
        path_str = target.substring_char(0, qpos);
        query = Some(String::from_str(target.substring_char(qpos + 1, n)));
    }
    let m = path_str.unicode_len();
    let path: &str;
    if m > 0 && path_str.get_char(0) == '/' {
        path = path_str.substring_char(1, m);
    } else {
        path = path_str;
    }
    let pn = path.unicode_len();
    proof {
        lemma_spec_find(path@, '/', 0);
    }
    let i1 = find_char(path, pn, '/', 0);
    let seg0 = path.substring_char(0, i1);
    let server_id = match parse_uuid(seg0) {
        Some(v) => v,
        None => {
            return Err(GatewayError::InvalidServerId);
        },
    };
    if i1 == pn {
        return Err(GatewayError::MissingTenant);
    }
    proof {
        lemma_spec_find(path@, '/', i1 + 1);
    }
    let i2 = find_char(path, pn, '/', i1 + 1);
    let tenant_id = String::from_str(path.substring_char(i1 + 1, i2));
    if i2 == pn {
        return Err(GatewayError::MissingEnv);
    }
    proof {
        lemma_spec_find(path@, '/', i2 + 1);
    }
    let i3 = find_char(path, pn, '/', i2 + 1);
    let remaining = if i3 == pn {
        String::new()
    } else {
        String::from_str(path.substring_char(i3 + 1, pn))
    };
    let env = String::from_str(path.substring_char(i2 + 1, i3));
    Ok(GatewayTarget { server_id, tenant_id, env, remaining, query })
}


/// A request verb. `Options` is the one the gateway answers itself.
#[derive(Debug, Clone, Copy, PartialEq, Eq, Structural)]
pub enum HttpMethod {
    Get,
    Post,
    Put,
    Patch,
    Delete,
    Options,
    Head,
}

/// An inbound proxy request, reduced to plain values: verb, the target as
/// received (path and query), headers with lower-case names, and the body.
#[derive(Debug, Clone)]
pub struct GatewayRequest {
    pub method: HttpMethod,
    pub target: String,
    pub headers: Vec<(String, String)>,
    pub body: Vec<u8>,
}

/// A response the gateway hands back.
#[derive(Debug, Clone)]
pub struct GatewayResponse {
    pub status: u16,
    pub headers: Vec<(String, String)>,
    pub body: Vec<u8>,
}

/// Mathematical model of `GatewayResponse`.
pub struct GatewayResponseView {
    pub status: u16,
    pub headers: Seq<(Seq<char>, Seq<char>)>,
    pub body: Seq<u8>,
}

impl View for GatewayResponse {
    type V = GatewayResponseView;

    open spec fn view(&self) -> GatewayResponseView {
        GatewayResponseView {
            status: self.status,
            headers: header_views(self.headers@),
            body: self.body@,
        }
    }
}

/// The request to send upstream: verb, full URL, headers and body.
#[derive(Debug, Clone)]
pub struct OutboundRequest {
    pub method: HttpMethod,
    pub url: String,
    pub headers: Vec<(String, String)>,
    pub body: Vec<u8>,
}

/// Mathematical model of `OutboundRequest`.
pub struct OutboundRequestView {
    pub method: HttpMethod,
    pub url: Seq<char>,
    pub headers: Seq<(Seq<char>, Seq<char>)>,
    pub body: Seq<u8>,
}

impl View for OutboundRequest {
    type V = OutboundRequestView;

    open spec fn view(&self) -> OutboundRequestView {
        OutboundRequestView {
            method: self.method,
            url: self.url@,
            headers: header_views(self.headers@),
            body: self.body@,
        }
    }
}

/// What the gateway decided for a request: answer it here, or forward it.
pub enum GatewayPlan {
    /// Answer immediately with this response; no upstream is contacted.
    Preflight(GatewayResponse),
    /// Send this request to the deployment's remote API.
    Forward(OutboundRequest),
}

/// The character-level content of a header list.
pub open spec fn header_views(h: Seq<(String, String)>) -> Seq<(Seq<char>, Seq<char>)> {
    h.map_values(|p: (String, String)| (p.0@, p.1@))
}

/// The value of the first header with the given name, if any.
pub open spec fn spec_find_header(h: Seq<(Seq<char>, Seq<char>)>, name: Seq<char>) -> Option<
    Seq<char>,
>
    decreases h.len(),
{
    if h.len() == 0 {
        None
    } else if h[0].0 == name {
        Some(h[0].1)
    } else {
        spec_find_header(h.skip(1), name)
    }
}

/// The single entry that forwarding copies for one allow-listed name:
/// present exactly when the inbound request carries that header.
pub open spec fn spec_header_entry(h: Seq<(Seq<char>, Seq<char>)>, name: Seq<char>) -> Seq<
    (Seq<char>, Seq<char>),
> {
    match spec_find_header(h, name) {
        Some(v) => seq![(name, v)],
        None => Seq::empty(),
    }
}

/// The headers a forwarded request carries: the allow-listed inbound
/// `accept`, `content-type` and `content-length` headers, in that order,
/// then the two synthetic routing headers with the parsed tenant and
/// environment.
pub open spec fn spec_forward_headers(
    h: Seq<(Seq<char>, Seq<char>)>,
    tenant: Seq<char>,
    env: Seq<char>,
) -> Seq<(Seq<char>, Seq<char>)> {
    spec_header_entry(h, "accept"@) + spec_header_entry(h, "content-type"@) + spec_header_entry(
        h,
        "content-length"@,
    ) + seq![("x-tenant-id"@, tenant), ("x-tenant-env"@, env)]
}

/// The three permissive CORS headers the gateway applies to every response
/// it produces.
pub open spec fn spec_cors_headers() -> Seq<(Seq<char>, Seq<char>)> {
    seq![
        ("access-control-allow-origin"@, "*"@),
        ("access-control-allow-methods"@, "GET, POST, PUT, PATCH, DELETE, OPTIONS"@),
        ("access-control-allow-headers"@, "*"@),
    ]
}

/// The URL a forwarded request is sent to: the deployment's API base, a
/// slash, the remaining path, and the original query string if any.
pub open spec fn spec_forward_url(
    api_url: Seq<char>,
    remaining: Seq<char>,
    query: Option<Seq<char>>,
) -> Seq<char> {
    api_url + "/"@ + remaining + (match query {
        Some(q) => "?"@ + q,
        None => Seq::empty(),
    })
}

/// The value of the first header with the given name, if any.
fn find_header(headers: &Vec<(String, String)>, name: &String) -> (r: Option<String>)
    ensures
        match r {
            Some(v) => spec_find_header(header_views(headers@), name@) == Some(v@),
            None => spec_find_header(header_views(headers@), name@) is None,
        },
{
    let n = headers.len();
    let mut i: usize = 0;
    proof {
        assert(header_views(headers@).skip(0) =~= header_views(headers@));
    }
    while i < n
        invariant
            i <= n,
            n == headers@.len(),
            spec_find_header(header_views(headers@), name@) == spec_find_header(
                header_views(headers@).skip(i as int),
                name@,
            ),
        decreases n - i,
    {
        let p = &headers[i];
        proof {
            assert(header_views(headers@).skip(i as int)[0] == header_views(headers@)[i as int]);
            assert(header_views(headers@).skip(i as int).skip(1) =~= header_views(
                headers@,
            ).skip(i + 1));
        }
        if p.0 == *name {
            return Some(p.1.clone());
        }
        i = i + 1;
    }
    None
}

/// Append the allow-listed entry for one inbound header name, if present.
fn push_header_entry(out: &mut Vec<(String, String)>, headers: &Vec<(String, String)>, name: &String)
    ensures
        header_views(final(out)@) == header_views(old(out)@) + spec_header_entry(
            header_views(headers@),
            name@,
        ),
{
    match find_header(headers, name) {
        Some(v) => {
            out.push((name.clone(), v));
            proof {
                assert(header_views(out@) =~= header_views(old(out)@) + spec_header_entry(
                    header_views(headers@),
                    name@,
                ));
            }
        },
        None => {
            proof {
                assert(header_views(out@) =~= header_views(old(out)@) + spec_header_entry(
                    header_views(headers@),
                    name@,
                ));
            }
        },
    }
}

/// The headers for a forwarded request; see `spec_forward_headers`.
fn build_forward_headers(headers: &Vec<(String, String)>, tenant: &String, env: &String) -> (r: Vec<
    (String, String),
>)
    ensures
        header_views(r@) == spec_forward_headers(header_views(headers@), tenant@, env@),
{
    let mut out: Vec<(String, String)> = Vec::new();
    push_header_entry(&mut out, headers, &String::from_str("accept"));
    push_header_entry(&mut out, headers, &String::from_str("content-type"));
    push_header_entry(&mut out, headers, &String::from_str("content-length"));
    out.push((String::from_str("x-tenant-id"), tenant.clone()));
    out.push((String::from_str("x-tenant-env"), env.clone()));
    proof {
        assert(header_views(out@) =~= spec_forward_headers(header_views(headers@), tenant@, env@));
    }
    out
}

/// The three permissive CORS headers as concrete values.
fn cors_headers() -> (r: Vec<(String, String)>)
    ensures
        header_views(r@) == spec_cors_headers(),
{
    let mut out: Vec<(String, String)> = Vec::new();
    out.push((String::from_str("access-control-allow-origin"), String::from_str("*")));
    out.push((
        String::from_str("access-control-allow-methods"),
        String::from_str("GET, POST, PUT, PATCH, DELETE, OPTIONS"),
    ));
    out.push((String::from_str("access-control-allow-headers"), String::from_str("*")));
    proof {
        assert(header_views(out@) =~= spec_cors_headers());
    }
    out
}

/// The response to a CORS preflight: status 200, exactly the three
/// permissive CORS headers, and an empty body.
pub fn cors_preflight_response() -> (r: GatewayResponse)
    ensures
        r@.status == 200,
        r@.headers == spec_cors_headers(),
        r@.body == Seq::<u8>::empty(),
{
    let r = GatewayResponse { status: 200, headers: cors_headers(), body: Vec::new() };
    proof {
        assert(r.body@ =~= Seq::<u8>::empty());
    }
    r
}

/// Decide a request: an `OPTIONS` request is answered here with the
/// permissive CORS response and never forwarded; any other verb has its
/// target parsed, its session looked up, and becomes an upstream request
/// carrying the allow-listed headers, the two routing headers, and the body,
/// addressed to the session's API base URL.
pub fn plan_gateway_request(store: &ServerStore, request: GatewayRequest) -> (r: Result<
    GatewayPlan,
    GatewayError,
>)
    requires
        store.wf(),
    ensures
        request.method == HttpMethod::Options ==> (r matches Ok(GatewayPlan::Preflight(resp))
            && resp@.status == 200 && resp@.headers == spec_cors_headers() && resp@.body
            == Seq::<u8>::empty()),
        request.method != HttpMethod::Options ==> match spec_parse_target(request.target@) {
            Err(e) => r == Err::<GatewayPlan, GatewayError>(e),
            Ok(t) => {
                if !store@.contains_key(t.server_id) {
                    r == Err::<GatewayPlan, GatewayError>(GatewayError::UnknownServer)
                } else {
                    r matches Ok(GatewayPlan::Forward(ob)) && ob@.method == request.method
                        && ob@.body == request.body@ && ob@.url == spec_forward_url(
                        store@[t.server_id].config.api_url,
                        t.remaining,
                        t.query,
                    ) && ob@.headers == spec_forward_headers(
                        header_views(request.headers@),
                        t.tenant_id,
                        t.env,
                    )
                }
            },
        },
{
    if request.method == HttpMethod::Options {
        return Ok(GatewayPlan::Preflight(cors_preflight_response()));
    }
    let target = match parse_gateway_target(request.target.as_str()) {
        Ok(t) => t,
        Err(e) => {
            return Err(e);
        },
    };
    let server: Arc<ActiveServer> = match store.get_server(target.server_id) {
        Some(s) => s,
        None => {
            return Err(GatewayError::UnknownServer);
        },
    };
    let headers = build_forward_headers(&request.headers, &target.tenant_id, &target.env);
    let mut url = String::new();
    url.append(server.config.api_url.as_str());
    url.append("/");
    url.append(target.remaining.as_str());
    match &target.query {
        Some(q) => {
            url.append("?");
            url.append(q.as_str());
        },
        None => {
        },
    }
    proof {
        assert(url@ =~= spec_forward_url(server.config.api_url@, target.remaining@, target@.query));
    }
    Ok(
        GatewayPlan::Forward(
            OutboundRequest { method: request.method, url, headers, body: request.body },
        ),
    )
}

/// Rebuild the caller-facing response from what the upstream returned: same
/// status, the three CORS headers followed by every upstream header, and the
/// body verbatim.
pub fn build_gateway_response(status: u16, headers: Vec<(String, String)>, body: Vec<u8>) -> (r:
    GatewayResponse)
    ensures
        r@.status == status,
        r@.headers == spec_cors_headers() + header_views(headers@),
        r@.body == body@,
{
    let mut out = cors_headers();
    let n = headers.len();
    let mut i: usize = 0;
    while i < n
        invariant
            i <= n,
            n == headers@.len(),
            header_views(out@) =~= spec_cors_headers() + header_views(headers@).take(i as int),
        decreases n - i,
    {
        let p = &headers[i];
        let ghost prev = out@;
        out.push((p.0.clone(), p.1.clone()));
        proof {
            assert(header_views(out@) =~= header_views(prev).push((p.0@, p.1@)));
            assert(header_views(headers@).take(i + 1) =~= header_views(headers@).take(i as int)
                .push(header_views(headers@)[i as int]));
            assert(header_views(out@) =~= spec_cors_headers() + header_views(headers@).take(
                i + 1,
            ));
        }
        i = i + 1;
    }
    proof {
        assert(header_views(headers@).take(n as int) =~= header_views(headers@));
    }
    GatewayResponse { status, headers: out, body }
}

} // verus!
