//! Requests to the server, built from a configuration.

use crate::config::{Config, ConfigView};
use crate::header::{
    header_fields, insert_header, is_header_name, is_value_chars, is_value_text, is_visible_text,
    lemma_value_chars_of_parts, lemma_value_text, lemma_visible_text, new_header_map, no_headers,
    parse_header_value, static_header_value, with_header,
};
use crate::text::{decimal, u64_to_decimal};
use reqwest::header::HeaderMap;
use vstd::prelude::*;
use vstd::string::*;
use vstd::utf8::*;

verus! {

/// The name of the header that says who asks.
pub const HEADER_USER_AGENT: &'static str = "user-agent";

/// The name of the header that says what answers are understood.
pub const HEADER_ACCEPT: &'static str = "accept";

/// The name of the header that says how the request was made.
pub const HEADER_REQUESTED_WITH: &'static str = "x-requested-with";

/// The name of the header that carries the credential.
pub const HEADER_AUTHORIZATION: &'static str = "authorization";

/// The name under which the client announces itself.
pub const CLIENT_NAME: &'static str = "eloquentlog-cli";

/// The kind of answer that the client understands.
pub const MEDIA_TYPE: &'static str = "application/json";

/// What the client says of how the request was made.
pub const REQUESTER: &'static str = "XMLHttpRequest";

/// The resource under which the server keeps messages.
pub const MESSAGE_RESOURCE: &'static str = "message";

/// The scheme that stands before the secret in the Authorization header.
pub const AUTH_SCHEME: &'static str = "Token";

/// The text of the Authorization header for `secret`.
pub open spec fn token_text(secret: Seq<char>) -> Seq<char> {
    AUTH_SCHEME@ + " "@ + secret
}

/// The bytes of the Authorization header for `secret`: the token text, or
/// nothing where a header value cannot hold that text.
pub open spec fn authorization_value(secret: Seq<char>) -> Seq<u8> {
    let bytes = encode_utf8(token_text(secret));
    if is_value_text(bytes) {
        bytes
    } else {
        Seq::empty()
    }
}

/// The headers that every request carries.
pub open spec fn default_headers() -> Map<Seq<char>, Seq<Seq<u8>>> {
    let first = with_header(no_headers(), HEADER_USER_AGENT@, encode_utf8(CLIENT_NAME@));
    let second = with_header(first, HEADER_ACCEPT@, encode_utf8(MEDIA_TYPE@));
    with_header(second, HEADER_REQUESTED_WITH@, encode_utf8(REQUESTER@))
}

/// The headers of a request made with `secret`: the default ones, and an
/// Authorization header exactly when the secret is not empty.
pub open spec fn request_headers(secret: Seq<char>) -> Map<Seq<char>, Seq<Seq<u8>>> {
    if secret.len() == 0 {
        default_headers()
    } else {
        with_header(default_headers(), HEADER_AUTHORIZATION@, authorization_value(secret))
    }
}

/// The names of the headers that every request carries.
pub open spec fn default_header_names() -> Set<Seq<char>> {
    set![HEADER_USER_AGENT@, HEADER_ACCEPT@, HEADER_REQUESTED_WITH@]
}

/// The query of a request made with `api_key`: nothing without a key, else the
/// key as it stands, behind `api_key=`.
pub open spec fn query_text(api_key: Seq<char>) -> Seq<char> {
    if api_key.len() == 0 {
        Seq::empty()
    } else {
        "api_key="@ + api_key
    }
}

/// The address of `resource` on the server at `base`: the path suffix follows
/// behind a `/` and the query behind a `?`, each only if it is not empty.
pub open spec fn url_text(
    base: Seq<char>,
    resource: Seq<char>,
    suffix: Seq<char>,
    query: Seq<char>,
) -> Seq<char> {
    base + "/_api/"@ + resource + (if suffix.len() > 0 {
        "/"@ + suffix
    } else {
        Seq::empty()
    }) + (if query.len() > 0 {
        "?"@ + query
    } else {
        Seq::empty()
    })
}

/// The path that asks for the entries `start` to `stop` of the list `namespace`.
pub open spec fn lrange_path_text(namespace: Seq<char>, start: nat, stop: nat) -> Seq<char> {
    "lrange/"@ + namespace + "/"@ + decimal(start) + "/"@ + decimal(stop)
}

/// The address that asks the server at `base` for the entries `start` to `stop`
/// of the message list `namespace`.
pub open spec fn lrange_url_text(
    base: Seq<char>,
    api_key: Seq<char>,
    namespace: Seq<char>,
    start: nat,
    stop: nat,
) -> Seq<char> {
    url_text(base, MESSAGE_RESOURCE@, lrange_path_text(namespace, start, stop), query_text(api_key))
}

/// The path that asks for the entries `start` to `stop` of the list `namespace`.
pub fn lrange_path(namespace: &str, start: u64, stop: u64) -> (path: String)
    ensures
        path@ == lrange_path_text(namespace@, start as nat, stop as nat),
{
    let mut path = String::from_str("lrange/");
    path.append(namespace);
    path.append("/");
    path.append(u64_to_decimal(start).as_str());
    path.append("/");
    path.append(u64_to_decimal(stop).as_str());
    path
}

/// How a request is made. Every request of this client reads.
#[derive(Debug, Clone, Copy, PartialEq, Eq, Structural)]
pub enum Method {
    Get,
}

/// A request that is ready to be sent.
#[derive(Debug)]
pub struct OutboundRequest {
    pub method: Method,
    pub url: String,
    pub headers: HeaderMap,
}

/// What an `OutboundRequest` holds: the address and, by name, the headers.
pub struct OutboundRequestView {
    pub url: Seq<char>,
    pub headers: Map<Seq<char>, Seq<Seq<u8>>>,
}

impl View for OutboundRequest {
    type V = OutboundRequestView;

    open spec fn view(&self) -> OutboundRequestView {
        OutboundRequestView { url: self.url@, headers: header_fields(self.headers) }
    }
}

/// The request that asks, with the settings `config`, for the entries `start`
/// to `stop` of the message list `namespace`.
pub open spec fn lrange_request_view(
    config: ConfigView,
    namespace: Seq<char>,
    start: nat,
    stop: nat,
) -> OutboundRequestView {
    OutboundRequestView {
        url: lrange_url_text(config.url, config.api_key, namespace, start, stop),
        headers: request_headers(config.secret),
    }
}

/// A client of the server, for one configuration.
pub struct Client {
    pub config: Config,
}

impl Client {
    /// A client that works with `config`.
    pub fn new(config: Config) -> (client: Client)
        ensures
            client.config == config,
    {
        Client { config }
    }

    /// The headers of every request of this client. A secret that a header
    /// value cannot hold does not stop the other headers: the Authorization
    /// header is then sent empty.
    pub fn build_headers(&self) -> (headers: HeaderMap)
        ensures
            header_fields(headers) == request_headers(self.config@.secret),
    {
        proof {
            lemma_header_texts();
        }
        let mut m = new_header_map();
        insert_header(&mut m, HEADER_USER_AGENT, static_header_value(CLIENT_NAME));
        insert_header(&mut m, HEADER_ACCEPT, static_header_value(MEDIA_TYPE));
        insert_header(&mut m, HEADER_REQUESTED_WITH, static_header_value(REQUESTER));
        if self.config.credential.secret.as_str().is_empty() {
            return m;
        }
        let token = String::from_str(AUTH_SCHEME).concat(" ").concat(
            self.config.credential.secret.as_str(),
        );
        let value = match parse_header_value(token.as_str()) {
            Ok(v) => v,
            Err(_) => static_header_value(""),
        };
        insert_header(&mut m, HEADER_AUTHORIZATION, value);
        m
    }

    /// The query that carries the API key, if one is configured. The key is
    /// written as it stands.
    pub fn build_params(&self) -> (query: String)
        ensures
            query@ == query_text(self.config@.api_key),
    {
        if self.config.credential.api_key.as_str().is_empty() {
            return String::new();
        }
        String::from_str("api_key=").concat(self.config.credential.api_key.as_str())
    }

    /// The address of `resource` on the configured server, with `path_suffix`
    /// behind it if that is not empty, and with the query of this client.
    pub fn build_url(&self, resource: &str, path_suffix: &str) -> (url: String)
        ensures
            url@ == url_text(
                self.config@.url,
                resource@,
                path_suffix@,
                query_text(self.config@.api_key),
            ),
    {
        let mut url = self.config.server.url.clone();
        url.append("/_api/");
        url.append(resource);
        if !path_suffix.is_empty() {
            url.append("/");
            url.append(path_suffix);
        }
        let query = self.build_params();
        if !query.as_str().is_empty() {
            url.append("?");
            url.append(query.as_str());
        }
        assert(url@ =~= url_text(
            self.config@.url,
            resource@,
            path_suffix@,
            query_text(self.config@.api_key),
        ));
        url
    }

    /// The request for the entries `start` to `stop` of the message list
    /// `namespace`.
    pub fn lrange_request(&self, namespace: String, start: u64, stop: u64) -> (out: OutboundRequest)
        ensures
            out.method == Method::Get,
            out@ == lrange_request_view(self.config@, namespace@, start as nat, stop as nat),
    {
        let path = lrange_path(namespace.as_str(), start, stop);
        OutboundRequest {
            method: Method::Get,
            url: self.build_url(MESSAGE_RESOURCE, path.as_str()),
            headers: self.build_headers(),
        }
    }
}

/// The four header names are header names, and differ from each other; the
/// fixed header values are visible ASCII.
proof fn lemma_header_texts()
    ensures
        is_header_name(HEADER_USER_AGENT@),
        is_header_name(HEADER_ACCEPT@),
        is_header_name(HEADER_REQUESTED_WITH@),
        is_header_name(HEADER_AUTHORIZATION@),
        HEADER_USER_AGENT@.len() == 10,
        HEADER_ACCEPT@.len() == 6,
        HEADER_REQUESTED_WITH@.len() == 16,
        HEADER_AUTHORIZATION@.len() == 13,
        is_visible_text(encode_utf8(CLIENT_NAME@)),
        is_visible_text(encode_utf8(MEDIA_TYPE@)),
        is_visible_text(encode_utf8(REQUESTER@)),
        is_visible_text(encode_utf8(""@)),
        encode_utf8(""@).len() == 0,
{
    reveal_strlit("user-agent");
    reveal_strlit("accept");
    reveal_strlit("x-requested-with");
    reveal_strlit("authorization");
    reveal_strlit("eloquentlog-cli");
    reveal_strlit("application/json");
    reveal_strlit("XMLHttpRequest");
    reveal_strlit("");
    lemma_visible_text(CLIENT_NAME@);
    lemma_visible_text(MEDIA_TYPE@);
    lemma_visible_text(REQUESTER@);
}

/// Every request carries the three default headers with their fixed values,
/// and besides them at most the Authorization header; no header has a second
/// value.
pub proof fn lemma_default_headers_sent(config: ConfigView)
    ensures
        request_headers(config.secret)[HEADER_USER_AGENT@] == seq![encode_utf8(CLIENT_NAME@)],
        request_headers(config.secret)[HEADER_ACCEPT@] == seq![encode_utf8(MEDIA_TYPE@)],
        request_headers(config.secret)[HEADER_REQUESTED_WITH@] == seq![
            encode_utf8(REQUESTER@),
        ],
        default_header_names().subset_of(request_headers(config.secret).dom()),
        request_headers(config.secret).dom().subset_of(
            default_header_names().insert(HEADER_AUTHORIZATION@),
        ),
        forall|name: Seq<char>| #[trigger]
            request_headers(config.secret).contains_key(name) ==> request_headers(
                config.secret,
            )[name].len() == 1,
{
    lemma_header_texts();
}

/// A request made without a secret carries no Authorization header.
pub proof fn lemma_no_secret_no_authorization(config: ConfigView)
    requires
        config.secret.len() == 0,
    ensures
        !request_headers(config.secret).contains_key(HEADER_AUTHORIZATION@),
{
    lemma_header_texts();
}

/// A request made with a secret carries an Authorization header with exactly
/// one value: the scheme, a space and the secret, or nothing at all where the
/// secret holds a character that no header value can hold.
pub proof fn lemma_secret_sends_authorization(config: ConfigView)
    requires
        config.secret.len() > 0,
    ensures
        request_headers(config.secret).contains_key(HEADER_AUTHORIZATION@),
        request_headers(config.secret)[HEADER_AUTHORIZATION@] == seq![
            authorization_value(config.secret),
        ],
        is_value_chars(config.secret) ==> authorization_value(config.secret) == encode_utf8(
            AUTH_SCHEME@ + " "@ + config.secret,
        ),
        !is_value_chars(config.secret) ==> authorization_value(config.secret) == Seq::<u8>::empty(),
        is_value_chars(config.secret) <==> authorization_value(config.secret).len() > 0,
{
    reveal_strlit("Token");
    reveal_strlit(" ");
    lemma_value_chars_of_parts(AUTH_SCHEME@ + " "@, config.secret);
    lemma_value_text(token_text(config.secret));
}

} // verus!
