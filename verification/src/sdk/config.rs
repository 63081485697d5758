//! The configuration of the SDK, and the addresses of its servers.

use vstd::prelude::*;
use crate::client;
use crate::error::{ErrorModel, PrivchatSDKError};
use crate::json;
use crate::storage::entities::clone_text;
use crate::text;
use crate::text::{chars_of, find_first, find_last, parse_unsigned, text_begins_with, text_of, u64_text};

verus! {

/// The port of a server whose address names none.
pub const DEFAULT_PORT: u16 = 9001;

/// How the SDK talks to a server.
#[derive(Debug, Clone, Copy, PartialEq, Eq, Structural)]
pub enum TransportProtocol {
    Quic,
    Tcp,
    WebSocket,
}

/// A server.
#[derive(Debug)]
pub struct ServerEndpoint {
    pub protocol: TransportProtocol,
    /// Name or address of the server.
    pub host: String,
    pub port: u16,
    /// The path of a WebSocket address.
    pub path: Option<String>,
    /// Whether the connection is encrypted. QUIC always is, TCP is not.
    pub use_tls: bool,
}

/// What a [`ServerEndpoint`] holds.
pub struct ServerEndpointModel {
    pub protocol: TransportProtocol,
    pub host: Seq<char>,
    pub port: u16,
    pub path: Option<Seq<char>>,
    pub use_tls: bool,
}

impl View for ServerEndpoint {
    type V = ServerEndpointModel;

    open spec fn view(&self) -> ServerEndpointModel {
        ServerEndpointModel {
            protocol: self.protocol,
            host: self.host@,
            port: self.port,
            path: json::opt_view(self.path),
            use_tls: self.use_tls,
        }
    }
}

impl Clone for ServerEndpoint {
    fn clone(&self) -> (r: Self)
        ensures
            r == *self,
    {
        ServerEndpoint {
            protocol: self.protocol,
            host: self.host.clone(),
            port: self.port,
            path: clone_text(&self.path),
            use_tls: self.use_tls,
        }
    }
}

/// The servers, the most preferred first.
#[derive(Debug)]
pub struct ServerConfig {
    pub endpoints: Vec<ServerEndpoint>,
}

/// What the endpoints hold.
pub open spec fn endpoint_views(endpoints: Seq<ServerEndpoint>) -> Seq<ServerEndpointModel> {
    endpoints.map_values(|e: ServerEndpoint| e@)
}

/// How files are fetched and sent.
#[derive(Debug, Clone, Copy, PartialEq, Eq, Structural)]
pub struct HttpClientConfig {
    pub connect_timeout_secs: Option<u64>,
    pub request_timeout_secs: Option<u64>,
    pub enable_retry: bool,
    pub max_retries: u32,
}

/// How often and how patiently an operation is tried again.
#[derive(Debug, Clone, Copy, PartialEq, Eq, Structural)]
pub struct RetryConfig {
    pub max_retries: u32,
    pub base_delay_ms: u64,
    pub max_delay_ms: u64,
    /// The factor by which delays grow, as the bits of a double.
    pub backoff_factor_bits: u64,
}

/// The sizes of the queues.
#[derive(Debug, Clone, Copy, PartialEq, Eq, Structural)]
pub struct QueueConfig {
    pub send_queue_size: usize,
    pub receive_queue_size: usize,
    pub batch_size: usize,
    pub worker_threads: usize,
}

/// Which events are reported.
#[derive(Debug)]
pub struct EventFilter {
    pub event_type: String,
}

/// How events are reported.
#[derive(Debug)]
pub struct EventConfig {
    pub buffer_size: usize,
    pub filters: Vec<EventFilter>,
}

/// The configuration of the SDK.
#[derive(Debug)]
pub struct PrivchatConfig {
    /// Where the SDK keeps its data.
    pub data_dir: String,
    /// Where scripts for the database are found.
    pub assets_dir: Option<String>,
    pub server_config: ServerConfig,
    /// For how many seconds one attempt to connect may take.
    pub connection_timeout: u64,
    /// Seconds between two heartbeats.
    pub heartbeat_interval: u64,
    pub retry_config: RetryConfig,
    pub queue_config: QueueConfig,
    pub event_config: EventConfig,
    /// Offset of the time zone in seconds; the machine's own where there is none.
    pub timezone_offset_seconds: Option<i32>,
    pub debug_mode: bool,
    /// Base address of the file service.
    pub file_api_base_url: Option<String>,
    pub http_client_config: HttpClientConfig,
    /// The longest edge of an image that is sent; the image as it is where there is none.
    pub image_send_max_edge: Option<u32>,
}

impl Default for HttpClientConfig {
    fn default() -> (r: Self)
        ensures
            r == (HttpClientConfig {
                connect_timeout_secs: Some(30),
                request_timeout_secs: Some(300),
                enable_retry: true,
                max_retries: 3,
            }),
    {
        HttpClientConfig {
            connect_timeout_secs: Some(30),
            request_timeout_secs: Some(300),
            enable_retry: true,
            max_retries: 3,
        }
    }
}

impl Default for RetryConfig {
    /// Three retries, from one to thirty seconds apart, each twice as long as the one before.
    fn default() -> (r: Self)
        ensures
            r == (RetryConfig {
                max_retries: 3,
                base_delay_ms: 1000,
                max_delay_ms: 30000,
                backoff_factor_bits: 0x4000_0000_0000_0000,
            }),
    {
        RetryConfig {
            max_retries: 3,
            base_delay_ms: 1000,
            max_delay_ms: 30000,
            backoff_factor_bits: 0x4000_0000_0000_0000,
        }
    }
}

impl Default for QueueConfig {
    fn default() -> (r: Self)
        ensures
            r == (QueueConfig {
                send_queue_size: 1000,
                receive_queue_size: 1000,
                batch_size: 10,
                worker_threads: 2,
            }),
    {
        QueueConfig {
            send_queue_size: 1000,
            receive_queue_size: 1000,
            batch_size: 10,
            worker_threads: 2,
        }
    }
}

impl Default for EventConfig {
    fn default() -> (r: Self)
        ensures
            r.buffer_size == 1000,
            r.filters@.len() == 0,
    {
        EventConfig { buffer_size: 1000, filters: Vec::new() }
    }
}

impl Default for ServerEndpoint {
    fn default() -> (r: Self)
        ensures
            r@ == (ServerEndpointModel {
                protocol: TransportProtocol::Tcp,
                host: "localhost"@,
                port: 9001,
                path: None,
                use_tls: false,
            }),
    {
        ServerEndpoint {
            protocol: TransportProtocol::Tcp,
            host: "localhost".to_owned(),
            port: 9001,
            path: None,
            use_tls: false,
        }
    }
}

/// The servers that are used where none are configured: QUIC, TCP and WebSocket on this machine.
pub open spec fn default_endpoints() -> Seq<ServerEndpointModel> {
    seq![
        ServerEndpointModel {
            protocol: TransportProtocol::Quic,
            host: "localhost"@,
            port: 9001,
            path: None,
            use_tls: true,
        },
        ServerEndpointModel {
            protocol: TransportProtocol::Tcp,
            host: "localhost"@,
            port: 9001,
            path: None,
            use_tls: false,
        },
        ServerEndpointModel {
            protocol: TransportProtocol::WebSocket,
            host: "localhost"@,
            port: 9080,
            path: Some("/"@),
            use_tls: true,
        },
    ]
}

impl Default for ServerConfig {
    fn default() -> (r: Self)
        ensures
            endpoint_views(r.endpoints@) == default_endpoints(),
    {
        let mut endpoints: Vec<ServerEndpoint> = Vec::new();
        endpoints.push(
            ServerEndpoint {
                protocol: TransportProtocol::Quic,
                host: "localhost".to_owned(),
                port: 9001,
                path: None,
                use_tls: true,
            },
        );
        endpoints.push(
            ServerEndpoint {
                protocol: TransportProtocol::Tcp,
                host: "localhost".to_owned(),
                port: 9001,
                path: None,
                use_tls: false,
            },
        );
        endpoints.push(
            ServerEndpoint {
                protocol: TransportProtocol::WebSocket,
                host: "localhost".to_owned(),
                port: 9080,
                path: Some("/".to_owned()),
                use_tls: true,
            },
        );
        proof {
            assert(endpoint_views(endpoints@) =~= default_endpoints());
        }
        ServerConfig { endpoints }
    }
}

/// The protocol as the transport client names it.
pub open spec fn client_protocol(p: TransportProtocol) -> client::TransportProtocol {
    match p {
        TransportProtocol::Quic => client::TransportProtocol::Quic,
        TransportProtocol::Tcp => client::TransportProtocol::Tcp,
        TransportProtocol::WebSocket => client::TransportProtocol::WebSocket,
    }
}

impl ServerEndpoint {
    /// The server as the transport client takes it.
    pub fn to_client_endpoint(&self) -> (r: client::ServerEndpoint)
        ensures
            r == (client::ServerEndpoint {
                protocol: client_protocol(self.protocol),
                host: self.host,
                port: self.port,
                path: self.path,
                use_tls: self.use_tls,
            }),
    {
        client::ServerEndpoint {
            protocol: match self.protocol {
                TransportProtocol::Quic => client::TransportProtocol::Quic,
                TransportProtocol::Tcp => client::TransportProtocol::Tcp,
                TransportProtocol::WebSocket => client::TransportProtocol::WebSocket,
            },
            host: self.host.clone(),
            port: self.port,
            path: clone_text(&self.path),
            use_tls: self.use_tls,
        }
    }
}

/// The host and the port of an address. What follows the last colon counts as the port only where
/// it is one; else the whole is the host, at the default port.
pub open spec fn host_and_port(s: Seq<char>) -> (Seq<char>, u16) {
    match text::last_index_of(s, ':') {
        Some(i) => match text::unsigned_value(s.skip(i + 1), u16::MAX as nat) {
            Some(port) => (s.take(i), port as u16),
            None => (s, DEFAULT_PORT),
        },
        None => (s, DEFAULT_PORT),
    }
}

/// The server that an address names, after its scheme was taken off.
pub open spec fn endpoint_of_rest(
    rest: Seq<char>,
    protocol: TransportProtocol,
    use_tls: bool,
) -> ServerEndpointModel {
    let (address, path) = match text::first_index_of(rest, '/') {
        Some(i) => (rest.take(i), Some(rest.skip(i))),
        None => (rest, None),
    };
    let (host, port) = host_and_port(address);
    ServerEndpointModel { protocol, host, port, path, use_tls }
}

/// The server that an address names; none where the scheme is not known.
pub open spec fn endpoint_of_url(url: Seq<char>) -> Option<ServerEndpointModel> {
    if text::begins_with(url, "quic://"@) {
        Some(endpoint_of_rest(url.skip(7), TransportProtocol::Quic, true))
    } else if text::begins_with(url, "tcp://"@) {
        Some(endpoint_of_rest(url.skip(6), TransportProtocol::Tcp, false))
    } else if text::begins_with(url, "ws://"@) {
        Some(endpoint_of_rest(url.skip(5), TransportProtocol::WebSocket, false))
    } else if text::begins_with(url, "wss://"@) {
        Some(endpoint_of_rest(url.skip(6), TransportProtocol::WebSocket, true))
    } else {
        None
    }
}

/// The scheme of a server's address.
pub open spec fn scheme_of(protocol: TransportProtocol, use_tls: bool) -> Seq<char> {
    match protocol {
        TransportProtocol::Quic => "quic://"@,
        TransportProtocol::Tcp => "tcp://"@,
        TransportProtocol::WebSocket => if use_tls {
            "wss://"@
        } else {
            "ws://"@
        },
    }
}

/// The address of a server. Only WebSocket addresses have a path.
pub open spec fn url_of_endpoint(e: ServerEndpointModel) -> Seq<char> {
    let base = scheme_of(e.protocol, e.use_tls) + e.host + ":"@ + text::decimal(e.port as nat);
    match e.protocol {
        TransportProtocol::WebSocket => match e.path {
            Some(p) => base + p,
            None => base,
        },
        _ => base,
    }
}

/// Reads the host and the port of an address.
pub fn parse_host_port(host_port: &str) -> (r: (String, u16))
    ensures
        (r.0@, r.1) == host_and_port(host_port@),
{
    let chars = chars_of(host_port);
    let length: usize = chars.len();
    match find_last(&chars, ':') {
        Some(i) => {
            let port_text = text_of(&chars, i + 1, length);
            proof {
                assert(port_text@ =~= host_port@.skip(i + 1));
            }
            match parse_unsigned(port_text.as_str(), 65535) {
                Some(port) => {
                    let host = text_of(&chars, 0, i);
                    proof {
                        assert(host@ =~= host_port@.take(i as int));
                    }
                    (host, port as u16)
                },
                None => (host_port.to_owned(), DEFAULT_PORT),
            }
        },
        None => (host_port.to_owned(), DEFAULT_PORT),
    }
}

/// Reads an address whose scheme has `scheme_length` characters.
fn parse_url_parts(
    url: &str,
    scheme_length: usize,
    protocol: TransportProtocol,
    use_tls: bool,
) -> (r: ServerEndpoint)
    requires
        scheme_length <= url@.len(),
    ensures
        r@ == endpoint_of_rest(url@.skip(scheme_length as int), protocol, use_tls),
{
    let all = chars_of(url);
    let rest_text = text_of(&all, scheme_length, all.len());
    proof {
        assert(rest_text@ =~= url@.skip(scheme_length as int));
    }
    let rest = chars_of(rest_text.as_str());
    let (address, path) = match find_first(&rest, '/') {
        Some(i) => {
            let address = text_of(&rest, 0, i);
            let path = text_of(&rest, i, rest.len());
            proof {
                assert(address@ =~= rest@.take(i as int));
                assert(path@ =~= rest@.skip(i as int));
            }
            (address, Some(path))
        },
        None => (rest_text, None),
    };
    let (host, port) = parse_host_port(address.as_str());
    ServerEndpoint { protocol, host, port, path, use_tls }
}

/// Reads the address of a server; none where the scheme is not known.
pub fn parse_server_url(url: &str) -> (r: Option<ServerEndpoint>)
    ensures
        match r {
            Some(e) => endpoint_of_url(url@) == Some(e@),
            None => endpoint_of_url(url@) is None,
        },
{
    proof {
        reveal_strlit("quic://");
        reveal_strlit("tcp://");
        reveal_strlit("ws://");
        reveal_strlit("wss://");
    }
    if text_begins_with(url, "quic://") {
        Some(parse_url_parts(url, 7, TransportProtocol::Quic, true))
    } else if text_begins_with(url, "tcp://") {
        Some(parse_url_parts(url, 6, TransportProtocol::Tcp, false))
    } else if text_begins_with(url, "ws://") {
        Some(parse_url_parts(url, 5, TransportProtocol::WebSocket, false))
    } else if text_begins_with(url, "wss://") {
        Some(parse_url_parts(url, 6, TransportProtocol::WebSocket, true))
    } else {
        None
    }
}

/// The address of a server.
pub fn build_server_url_from_endpoint(endpoint: &ServerEndpoint) -> (r: String)
    ensures
        r@ == url_of_endpoint(endpoint@),
{
    let scheme = match endpoint.protocol {
        TransportProtocol::Quic => "quic://",
        TransportProtocol::Tcp => "tcp://",
        TransportProtocol::WebSocket => if endpoint.use_tls {
            "wss://"
        } else {
            "ws://"
        },
    };
    let mut url = scheme.to_owned();
    url.append(endpoint.host.as_str());
    url.append(":");
    url.append(u64_text(endpoint.port as u64).as_str());
    match endpoint.protocol {
        TransportProtocol::WebSocket => {
            if let Some(path) = &endpoint.path {
                url.append(path.as_str());
            }
        },
        _ => {},
    }
    url
}

/// Whether an address can say all there is to say of a server: the host holds no slash, the path
/// begins with one and belongs to a WebSocket, and encryption is what the protocol makes it.
pub open spec fn expressible(e: ServerEndpointModel) -> bool {
    &&& !e.host.contains('/')
    &&& match e.protocol {
        TransportProtocol::Quic => e.use_tls && e.path is None,
        TransportProtocol::Tcp => !e.use_tls && e.path is None,
        TransportProtocol::WebSocket => e.path matches Some(p) ==> p.len() > 0 && p[0] == '/',
    }
}

proof fn lemma_read_rest(e: ServerEndpointModel, rest: Seq<char>)
    requires
        !e.host.contains('/'),
        e.path matches Some(p) ==> p.len() > 0 && p[0] == '/',
        rest == e.host + ":"@ + text::decimal(e.port as nat) + match e.path {
            Some(p) => p,
            None => Seq::empty(),
        },
    ensures
        endpoint_of_rest(rest, e.protocol, e.use_tls) == e,
{
    reveal_strlit(":");
    let digits = text::decimal(e.port as nat);
    let address = e.host + ":"@ + digits;
    let n = address.len() as int;
    text::lemma_decimal_digits(e.port as nat);
    text::law_decimal_round_trip(e.port as nat, u16::MAX as nat);
    assert forall|i: int| 0 <= i < n implies address[i] != '/' by {
        if i < e.host.len() {
            assert(e.host.contains(e.host[i]));
            assert(address[i] == e.host[i]);
        } else if i == e.host.len() {
            assert(address[i] == ':');
        } else {
            assert(address[i] == digits[i - e.host.len() - 1]);
            assert(text::is_digit(digits[i - e.host.len() - 1]));
        }
    }
    match e.path {
        Some(p) => {
            assert(forall|i: int| 0 <= i < n ==> rest[i] == address[i]);
            assert(rest[n] == p[0]);
            text::lemma_first_index_is(rest, '/', n);
            assert(rest.take(n) =~= address);
            assert(rest.skip(n) =~= p);
        },
        None => {
            assert(rest =~= address);
            text::lemma_first_index_of(rest, '/');
        },
    }
    let colon = e.host.len() as int;
    assert forall|j: int| colon < j < n implies address[j] != ':' by {
        assert(address[j] == digits[j - colon - 1]);
        assert(text::is_digit(digits[j - colon - 1]));
    }
    assert(address[colon] == ':');
    text::lemma_last_index_is(address, ':', colon);
    assert(address.skip(colon + 1) =~= digits);
    assert(address.take(colon) =~= e.host);
}

proof fn lemma_prefix_character(url: Seq<char>, prefix: Seq<char>, i: int)
    requires
        text::begins_with(url, prefix),
        0 <= i < prefix.len(),
    ensures
        url[i] == prefix[i],
{
    assert(url.take(prefix.len() as int)[i] == url[i]);
}

proof fn lemma_read_scheme(
    protocol: TransportProtocol,
    use_tls: bool,
    rest: Seq<char>,
    url: Seq<char>,
)
    requires
        url == scheme_of(protocol, use_tls) + rest,
        protocol is Quic ==> use_tls,
        protocol is Tcp ==> !use_tls,
    ensures
        endpoint_of_url(url) == Some(endpoint_of_rest(rest, protocol, use_tls)),
{
    reveal_strlit("quic://");
    reveal_strlit("tcp://");
    reveal_strlit("ws://");
    reveal_strlit("wss://");
    let scheme = scheme_of(protocol, use_tls);
    assert(url.skip(scheme.len() as int) =~= rest);
    assert(url.take(scheme.len() as int) =~= scheme);
    assert(url[0] == scheme[0] && url[2] == scheme[2]);
    if text::begins_with(url, "quic://"@) {
        lemma_prefix_character(url, "quic://"@, 0);
    }
    if text::begins_with(url, "tcp://"@) {
        lemma_prefix_character(url, "tcp://"@, 0);
    }
    if text::begins_with(url, "ws://"@) {
        lemma_prefix_character(url, "ws://"@, 0);
        lemma_prefix_character(url, "ws://"@, 2);
    }
}

/// The address of a server, read again, gives the server back.
pub proof fn law_server_url_round_trip(e: ServerEndpointModel)
    requires
        expressible(e),
    ensures
        endpoint_of_url(url_of_endpoint(e)) == Some(e),
{
    let url = url_of_endpoint(e);
    let rest = e.host + ":"@ + text::decimal(e.port as nat) + match e.path {
        Some(p) => p,
        None => Seq::empty(),
    };
    assert(url =~= scheme_of(e.protocol, e.use_tls) + rest);
    lemma_read_scheme(e.protocol, e.use_tls, rest, url);
    lemma_read_rest(e, rest);
}

/// Every address with a known scheme names a server, and no other address does.
pub proof fn law_known_schemes(url: Seq<char>)
    ensures
        endpoint_of_url(url) is Some <==> (text::begins_with(url, "quic://"@) || text::begins_with(
            url,
            "tcp://"@,
        ) || text::begins_with(url, "ws://"@) || text::begins_with(url, "wss://"@)),
{
}

/// The servers that a list of addresses names, in order; addresses with an unknown scheme are left
/// out.
pub open spec fn endpoints_of_urls(urls: Seq<&str>) -> Seq<ServerEndpointModel>
    decreases urls.len(),
{
    if urls.len() == 0 {
        Seq::empty()
    } else {
        match endpoint_of_url(urls.last()@) {
            Some(e) => endpoints_of_urls(urls.drop_last()).push(e),
            None => endpoints_of_urls(urls.drop_last()),
        }
    }
}

/// Where the SDK keeps its data where the environment names no home directory.
pub open spec fn fallback_data_dir() -> Seq<char> {
    "./privchat_data"@
}

/// The directory below a home directory in which the SDK keeps its data.
pub open spec fn data_dir_below(home: Seq<char>) -> Seq<char> {
    if home.len() == 0 || home.last() == '/' {
        home + ".privchat"@
    } else {
        home + "/.privchat"@
    }
}

/// Whether a configuration keeps the data in a directory, and all else is as it is by default.
pub open spec fn is_default(c: PrivchatConfig, data_dir: Seq<char>) -> bool {
    &&& c.data_dir@ == data_dir
    &&& c.assets_dir is None
    &&& endpoint_views(c.server_config.endpoints@) == default_endpoints()
    &&& c.connection_timeout == 15
    &&& c.heartbeat_interval == 30
    &&& c.timezone_offset_seconds is None
    &&& !c.debug_mode
    &&& c.file_api_base_url is None
    &&& c.image_send_max_edge == Some(1080u32)
    &&& c.retry_config == (RetryConfig {
        max_retries: 3,
        base_delay_ms: 1000,
        max_delay_ms: 30000,
        backoff_factor_bits: 0x4000_0000_0000_0000,
    })
    &&& c.queue_config == (QueueConfig {
        send_queue_size: 1000,
        receive_queue_size: 1000,
        batch_size: 10,
        worker_threads: 2,
    })
    &&& c.event_config.buffer_size == 1000
    &&& c.event_config.filters@.len() == 0
    &&& c.http_client_config == (HttpClientConfig {
        connect_timeout_secs: Some(30),
        request_timeout_secs: Some(300),
        enable_retry: true,
        max_retries: 3,
    })
}

/// The directory in which the SDK keeps its data by default, by the home directory and the user
/// profile that the environment names.
pub open spec fn default_data_dir(home: Option<String>, user_profile: Option<String>) -> Seq<char> {
    match (home, user_profile) {
        (Some(dir), _) => data_dir_below(dir@),
        (None, Some(dir)) => data_dir_below(dir@),
        (None, None) => fallback_data_dir(),
    }
}

/// Where the SDK keeps its data, by the home directory and the user profile that the environment
/// names.
pub fn get_default_data_dir(home: Option<String>, user_profile: Option<String>) -> (r: String)
    ensures
        r@ == default_data_dir(home, user_profile),
{
    let base = match home {
        Some(dir) => Some(dir),
        None => user_profile,
    };
    match base {
        Some(dir) => {
            let chars = chars_of(dir.as_str());
            let mut path = dir;
            if chars.len() == 0 || chars[chars.len() - 1] == '/' {
                path.append(".privchat");
            } else {
                path.append("/.privchat");
            }
            path
        },
        None => "./privchat_data".to_owned(),
    }
}

/// Builds a configuration.
#[derive(Debug)]
pub struct PrivchatConfigBuilder {
    config: PrivchatConfig,
}

impl PrivchatConfig {
    /// The configuration of an SDK that keeps its data in a directory, all else as it is by default.
    pub fn in_directory(data_dir: &str) -> (r: Self)
        ensures
            is_default(r, data_dir@),
    {
        PrivchatConfig {
            data_dir: data_dir.to_owned(),
            assets_dir: None,
            server_config: ServerConfig::default(),
            connection_timeout: 15,
            heartbeat_interval: 30,
            retry_config: RetryConfig::default(),
            queue_config: QueueConfig::default(),
            event_config: EventConfig::default(),
            timezone_offset_seconds: None,
            debug_mode: false,
            file_api_base_url: None,
            http_client_config: HttpClientConfig::default(),
            image_send_max_edge: Some(1080),
        }
    }

    /// The default configuration, by the home directory and the user profile that the environment
    /// names.
    pub fn for_environment(home: Option<String>, user_profile: Option<String>) -> (r: Self)
        ensures
            is_default(r, default_data_dir(home, user_profile)),
    {
        PrivchatConfig::in_directory(get_default_data_dir(home, user_profile).as_str())
    }

    /// A builder that starts from the default configuration, by the home directory and the user
    /// profile that the environment names.
    pub fn builder(home: Option<String>, user_profile: Option<String>) -> (r: PrivchatConfigBuilder)
        ensures
            is_default(r.config(), default_data_dir(home, user_profile)),
    {
        PrivchatConfigBuilder::new(home, user_profile)
    }
}

impl PrivchatConfigBuilder {
    /// The configuration as it stands.
    pub closed spec fn config(self) -> PrivchatConfig {
        self.config
    }

    /// A builder that starts from the default configuration, by the home directory and the user
    /// profile that the environment names.
    pub fn new(home: Option<String>, user_profile: Option<String>) -> (r: Self)
        ensures
            is_default(r.config(), default_data_dir(home, user_profile)),
    {
        PrivchatConfigBuilder { config: PrivchatConfig::for_environment(home, user_profile) }
    }

    /// A builder that starts from a configuration.
    pub fn from_config(config: PrivchatConfig) -> (r: Self)
        ensures
            r.config() == config,
    {
        PrivchatConfigBuilder { config }
    }

    pub fn data_dir(self, path: &str) -> (r: Self)
        ensures
            r.config() == (PrivchatConfig { data_dir: r.config().data_dir, ..self.config() }),
            r.config().data_dir@ == path@,
    {
        let mut b = self;
        b.config.data_dir = path.to_owned();
        b
    }

    pub fn assets_dir(self, path: &str) -> (r: Self)
        ensures
            r.config() == (PrivchatConfig { assets_dir: r.config().assets_dir, ..self.config() }),
            json::opt_view(r.config().assets_dir) == Some(path@),
    {
        let mut b = self;
        b.config.assets_dir = Some(path.to_owned());
        b
    }

    /// Adds a server, where its address has a known scheme.
    pub fn add_server(self, url: &str) -> (r: Self)
        ensures
            r.config() == (PrivchatConfig {
                server_config: r.config().server_config,
                ..self.config()
            }),
            endpoint_views(r.config().server_config.endpoints@) == match endpoint_of_url(url@) {
                Some(e) => endpoint_views(self.config().server_config.endpoints@).push(e),
                None => endpoint_views(self.config().server_config.endpoints@),
            },
    {
        let mut b = self;
        let ghost before = b.config.server_config.endpoints@;
        if let Some(endpoint) = parse_server_url(url) {
            b.config.server_config.endpoints.push(endpoint);
            proof {
                assert(endpoint_views(b.config.server_config.endpoints@) =~= endpoint_views(
                    before,
                ).push(endpoint@));
            }
        }
        b
    }

    /// Sets the servers, the most preferred first. Addresses with an unknown scheme are left out.
    pub fn servers(self, urls: Vec<&str>) -> (r: Self)
        ensures
            r.config() == (PrivchatConfig {
                server_config: r.config().server_config,
                ..self.config()
            }),
            endpoint_views(r.config().server_config.endpoints@) == endpoints_of_urls(urls@),
    {
        let mut endpoints: Vec<ServerEndpoint> = Vec::new();
        let mut i: usize = 0;
        proof {
            assert(endpoint_views(endpoints@) =~= Seq::<ServerEndpointModel>::empty());
        }
        while i < urls.len()
            invariant
                i <= urls@.len(),
                endpoint_views(endpoints@) == endpoints_of_urls(urls@.take(i as int)),
            decreases urls@.len() - i,
        {
            let ghost before = endpoints@;
            proof {
                assert(urls@.take(i + 1).drop_last() =~= urls@.take(i as int));
            }
            if let Some(endpoint) = parse_server_url(urls[i]) {
                endpoints.push(endpoint);
                proof {
                    assert(endpoint_views(endpoints@) =~= endpoint_views(before).push(endpoint@));
                }
            }
            i = i + 1;
        }
        proof {
            assert(urls@.take(i as int) =~= urls@);
        }
        let mut b = self;
        b.config.server_config = ServerConfig { endpoints };
        b
    }

    pub fn server_config(self, config: ServerConfig) -> (r: Self)
        ensures
            r.config() == (PrivchatConfig { server_config: config, ..self.config() }),
    {
        let mut b = self;
        b.config.server_config = config;
        b
    }

    pub fn connection_timeout(self, timeout: u64) -> (r: Self)
        ensures
            r.config() == (PrivchatConfig { connection_timeout: timeout, ..self.config() }),
    {
        let mut b = self;
        b.config.connection_timeout = timeout;
        b
    }

    pub fn heartbeat_interval(self, interval: u64) -> (r: Self)
        ensures
            r.config() == (PrivchatConfig { heartbeat_interval: interval, ..self.config() }),
    {
        let mut b = self;
        b.config.heartbeat_interval = interval;
        b
    }

    pub fn retry_config(self, config: RetryConfig) -> (r: Self)
        ensures
            r.config() == (PrivchatConfig { retry_config: config, ..self.config() }),
    {
        let mut b = self;
        b.config.retry_config = config;
        b
    }

    pub fn queue_config(self, config: QueueConfig) -> (r: Self)
        ensures
            r.config() == (PrivchatConfig { queue_config: config, ..self.config() }),
    {
        let mut b = self;
        b.config.queue_config = config;
        b
    }

    pub fn event_config(self, config: EventConfig) -> (r: Self)
        ensures
            r.config() == (PrivchatConfig { event_config: config, ..self.config() }),
    {
        let mut b = self;
        b.config.event_config = config;
        b
    }

    pub fn debug_mode(self, enabled: bool) -> (r: Self)
        ensures
            r.config() == (PrivchatConfig { debug_mode: enabled, ..self.config() }),
    {
        let mut b = self;
        b.config.debug_mode = enabled;
        b
    }

    /// Sets the time zone by its offset in hours.
    pub fn timezone_hours(self, hours: i32) -> (r: Self)
        requires
            i32::MIN <= hours * 3600 <= i32::MAX,
        ensures
            r.config() == (PrivchatConfig {
                timezone_offset_seconds: Some((hours * 3600) as i32),
                ..self.config()
            }),
    {
        let mut b = self;
        b.config.timezone_offset_seconds = Some(hours * 3600);
        b
    }

    /// Sets the time zone by its offset in minutes.
    pub fn timezone_minutes(self, minutes: i32) -> (r: Self)
        requires
            i32::MIN <= minutes * 60 <= i32::MAX,
        ensures
            r.config() == (PrivchatConfig {
                timezone_offset_seconds: Some((minutes * 60) as i32),
                ..self.config()
            }),
    {
        let mut b = self;
        b.config.timezone_offset_seconds = Some(minutes * 60);
        b
    }

    /// Sets the time zone by its offset in seconds.
    pub fn timezone_seconds(self, seconds: i32) -> (r: Self)
        ensures
            r.config() == (PrivchatConfig {
                timezone_offset_seconds: Some(seconds),
                ..self.config()
            }),
    {
        let mut b = self;
        b.config.timezone_offset_seconds = Some(seconds);
        b
    }

    /// Takes the machine's own time zone.
    pub fn timezone_local(self) -> (r: Self)
        ensures
            r.config() == (PrivchatConfig { timezone_offset_seconds: None, ..self.config() }),
    {
        let mut b = self;
        b.config.timezone_offset_seconds = None;
        b
    }

    /// Sets the base address of the file service.
    pub fn file_api_base_url(self, url: &str) -> (r: Self)
        ensures
            r.config() == (PrivchatConfig {
                file_api_base_url: r.config().file_api_base_url,
                ..self.config()
            }),
            json::opt_view(r.config().file_api_base_url) == Some(url@),
    {
        let mut b = self;
        b.config.file_api_base_url = Some(url.to_owned());
        b
    }

    pub fn http_client_config(self, config: HttpClientConfig) -> (r: Self)
        ensures
            r.config() == (PrivchatConfig { http_client_config: config, ..self.config() }),
    {
        let mut b = self;
        b.config.http_client_config = config;
        b
    }

    /// Sets the longest edge of an image that is sent.
    pub fn image_send_max_edge(self, max_edge: Option<u32>) -> (r: Self)
        ensures
            r.config() == (PrivchatConfig { image_send_max_edge: max_edge, ..self.config() }),
    {
        let mut b = self;
        b.config.image_send_max_edge = max_edge;
        b
    }

    /// The configuration.
    pub fn build(self) -> (r: PrivchatConfig)
        ensures
            r == self.config(),
    {
        self.config
    }
}

/// What is wrong with the first unusable server, if any is.
pub open spec fn endpoint_fault(endpoints: Seq<ServerEndpointModel>) -> Option<Seq<char>>
    decreases endpoints.len(),
{
    if endpoints.len() == 0 {
        None
    } else if endpoints[0].host.len() == 0 {
        Some("服务器主机名不能为空"@)
    } else if endpoints[0].port == 0 {
        Some("服务器端口不能为0"@)
    } else {
        endpoint_fault(endpoints.skip(1))
    }
}

/// What is wrong with a configuration, if anything is: no servers, an unusable server, or no
/// directory.
pub open spec fn config_fault(config: PrivchatConfig) -> Option<Seq<char>> {
    if config.server_config.endpoints@.len() == 0 {
        Some("至少需要配置一个服务器端点"@)
    } else {
        match endpoint_fault(endpoint_views(config.server_config.endpoints@)) {
            Some(m) => Some(m),
            None => if config.data_dir@.len() == 0 {
                Some("数据目录不能为空"@)
            } else {
                None
            },
        }
    }
}

/// Whether a configuration can be used.
pub fn validate_config(config: &PrivchatConfig) -> (r: Result<(), PrivchatSDKError>)
    ensures
        match r {
            Ok(_) => config_fault(*config) is None,
            Err(e) => config_fault(*config) matches Some(m) && e@ == ErrorModel::Config(m),
        },
{
    let endpoints = &config.server_config.endpoints;
    if endpoints.len() == 0 {
        return Err(PrivchatSDKError::Config("至少需要配置一个服务器端点".to_owned()));
    }
    let mut i: usize = 0;
    let ghost views = endpoint_views(endpoints@);
    proof {
        assert(views.skip(0) =~= views);
    }
    while i < endpoints.len()
        invariant
            i <= endpoints@.len(),
            endpoints@.len() > 0,
            *endpoints == config.server_config.endpoints,
            views == endpoint_views(endpoints@),
            endpoint_fault(views) == endpoint_fault(views.skip(i as int)),
        decreases endpoints@.len() - i,
    {
        proof {
            assert(views.skip(i as int)[0] == endpoints@[i as int]@);
            assert(views.skip(i as int).skip(1) =~= views.skip(i + 1));
        }
        if endpoints[i].host.as_str().is_empty() {
            return Err(PrivchatSDKError::Config("服务器主机名不能为空".to_owned()));
        }
        if endpoints[i].port == 0 {
            return Err(PrivchatSDKError::Config("服务器端口不能为0".to_owned()));
        }
        i = i + 1;
    }
    proof {
        assert(views.skip(i as int) =~= Seq::<ServerEndpointModel>::empty());
    }
    if config.data_dir.as_str().is_empty() {
        return Err(PrivchatSDKError::Config("数据目录不能为空".to_owned()));
    }
    Ok(())
}

/// Endpoints are in order just where each has a host and a port; else the fault of the first one that
/// has not is told, its host before its port.
pub proof fn law_every_endpoint_needs_host_and_port(endpoints: Seq<ServerEndpointModel>)
    ensures
        endpoint_fault(endpoints) is None <==> forall|i: int|
            0 <= i < endpoints.len() ==> (#[trigger] endpoints[i]).host.len() > 0 && endpoints[i].port
                != 0,
        endpoints.len() > 0 && endpoints[0].host.len() == 0 ==> endpoint_fault(endpoints) == Some(
            "服务器主机名不能为空"@,
        ),
        endpoints.len() > 0 && endpoints[0].host.len() > 0 && endpoints[0].port == 0 ==> endpoint_fault(
            endpoints,
        ) == Some("服务器端口不能为0"@),
        endpoints.len() > 0 && endpoints[0].host.len() > 0 && endpoints[0].port != 0 ==> endpoint_fault(
            endpoints,
        ) == endpoint_fault(endpoints.skip(1)),
    decreases endpoints.len(),
{
    if endpoints.len() > 0 {
        let rest = endpoints.skip(1);
        law_every_endpoint_needs_host_and_port(rest);
        assert(forall|i: int| 0 <= i < rest.len() ==> rest[i] == endpoints[i + 1]);
        if endpoints[0].host.len() > 0 && endpoints[0].port != 0 {
            if endpoint_fault(rest) is None {
                assert forall|i: int| 0 <= i < endpoints.len() implies (#[trigger] endpoints[i]).host.len()
                    > 0 && endpoints[i].port != 0 by {
                    if i > 0 {
                        assert(rest[i - 1] == endpoints[i]);
                    }
                }
            } else if forall|i: int|
                0 <= i < endpoints.len() ==> (#[trigger] endpoints[i]).host.len() > 0
                    && endpoints[i].port != 0 {
                assert forall|i: int| 0 <= i < rest.len() implies (#[trigger] rest[i]).host.len() > 0
                    && rest[i].port != 0 by {
                    assert(endpoints[i + 1] == rest[i]);
                }
            }
        }
    }
}

/// A configuration is in order just where it has endpoints, each with a host and a port, and a data
/// directory.
pub proof fn law_a_configuration_needs_servers_and_a_directory(config: PrivchatConfig)
    ensures
        config_fault(config) is None <==> config.server_config.endpoints@.len() > 0 && config.data_dir@.len()
            > 0 && forall|i: int|
            0 <= i < config.server_config.endpoints@.len() ==> (
            #[trigger] config.server_config.endpoints@[i]).host@.len() > 0
                && config.server_config.endpoints@[i].port != 0,
        config.server_config.endpoints@.len() == 0 ==> config_fault(config) == Some(
            "至少需要配置一个服务器端点"@,
        ),
        config.server_config.endpoints@.len() > 0 && endpoint_fault(
            endpoint_views(config.server_config.endpoints@),
        ) is Some ==> config_fault(config) == endpoint_fault(
            endpoint_views(config.server_config.endpoints@),
        ),
        config.server_config.endpoints@.len() > 0 && endpoint_fault(
            endpoint_views(config.server_config.endpoints@),
        ) is None && config.data_dir@.len() == 0 ==> config_fault(config) == Some("数据目录不能为空"@),
{
    let endpoints = config.server_config.endpoints@;
    let views = endpoint_views(endpoints);
    law_every_endpoint_needs_host_and_port(views);
    assert(views.len() == endpoints.len());
    assert(forall|i: int| 0 <= i < views.len() ==> #[trigger] views[i] == endpoints[i]@);
    if endpoint_fault(views) is None {
        assert forall|i: int| 0 <= i < endpoints.len() implies (#[trigger] endpoints[i]).host@.len() > 0
            && endpoints[i].port != 0 by {
            assert(views[i].host.len() > 0 && views[i].port != 0);
        }
    }
}

/// The data goes into `.privchat` below the home directory, with one slash between; the home comes
/// before the profile, and without either the data goes below the working directory.
pub proof fn law_data_goes_below_the_home(home: String, profile: Option<String>)
    ensures
        home@.len() > 0 && home@.last() != '/' ==> default_data_dir(Some(home), profile) == home@
            + "/.privchat"@,
        home@.len() > 0 && home@.last() == '/' ==> default_data_dir(Some(home), profile) == home@
            + ".privchat"@,
        home@.len() == 0 ==> default_data_dir(Some(home), profile) == ".privchat"@,
        default_data_dir(None, Some(home)) == default_data_dir(Some(home), profile),
        default_data_dir(None, None) == "./privchat_data"@,
{
    if home@.len() == 0 {
        assert(home@ + ".privchat"@ =~= ".privchat"@);
    }
}

/// Addresses that are no server's are left out; the others keep their order.
pub proof fn law_known_addresses_keep_their_order(urls: Seq<&str>, url: &str)
    ensures
        endpoint_of_url(url@) matches Some(e) ==> endpoints_of_urls(urls.push(url)) == endpoints_of_urls(
            urls,
        ).push(e),
        endpoint_of_url(url@) is None ==> endpoints_of_urls(urls.push(url)) == endpoints_of_urls(urls),
        endpoints_of_urls(Seq::empty()).len() == 0,
{
    assert(urls.push(url).drop_last() =~= urls);
}

/// The port of an address is the number behind its last colon; an address without one has the default
/// port and is all host.
pub proof fn law_a_port_follows_the_last_colon(host: Seq<char>, port: u16)
    ensures
        host_and_port(host + seq![':'] + text::decimal(port as nat)) == (host, port),
        !host.contains(':') ==> host_and_port(host) == (host, DEFAULT_PORT),
        DEFAULT_PORT == 9001,
{
    let digits = text::decimal(port as nat);
    let s = host + seq![':'] + digits;
    let n = host.len() as int;
    text::law_decimal_round_trip(port as nat, u16::MAX as nat);
    text::lemma_decimal_digits(port as nat);
    assert(s[n] == ':');
    assert forall|j: int| n < j < s.len() implies s[j] != ':' by {
        assert(s[j] == digits[j - n - 1]);
        assert(text::is_digit(digits[j - n - 1]));
    }
    text::lemma_last_index_is(s, ':', n);
    assert(s.skip(n + 1) =~= digits);
    assert(s.take(n) =~= host);
    text::lemma_last_index_of(host, ':');
}

/// The servers that are tried by default are all on this machine: QUIC first, then TCP at the same
/// port, then a web socket; the first and the last are secured.
pub proof fn law_default_servers_are_local()
    ensures
        ({
            let d = default_endpoints();
            &&& d.len() == 3
            &&& d[0].protocol == TransportProtocol::Quic && d[1].protocol == TransportProtocol::Tcp
                && d[2].protocol == TransportProtocol::WebSocket
            &&& forall|i: int| 0 <= i < 3 ==> (#[trigger] d[i]).host == "localhost"@ && expressible(d[i])
            &&& d[0].port == d[1].port && d[0].port == 9001 && d[2].port == 9080
            &&& d[2].use_tls && d[2].path == Some("/"@)
        }),
{
    reveal_strlit("localhost");
    reveal_strlit("/");
    assert(!"localhost"@.contains('/'));
}

/// The client speaks the protocol that the endpoint names.
pub proof fn law_the_client_speaks_the_endpoints_protocol(p: TransportProtocol)
    ensures
        client_protocol(p) is Quic <==> p is Quic,
        client_protocol(p) is Tcp <==> p is Tcp,
        client_protocol(p) is WebSocket <==> p is WebSocket,
{
}

/// By default a connection is given up after fifteen seconds and kept alive every thirty; three retries
/// wait from one second up to thirty, twice as long each time; images are sent with an edge of at most
/// 1080; and a request may take five minutes.
pub proof fn law_default_limits(c: PrivchatConfig, data_dir: Seq<char>)
    requires
        is_default(c, data_dir),
    ensures
        c.data_dir@ == data_dir,
        c.connection_timeout == 15,
        c.heartbeat_interval == 2 * c.connection_timeout,
        c.retry_config.max_retries == 3 && c.retry_config.base_delay_ms == 1000
            && c.retry_config.max_delay_ms == 30 * c.retry_config.base_delay_ms,
        c.queue_config.send_queue_size == 1000 && c.queue_config.receive_queue_size
            == c.queue_config.send_queue_size,
        c.queue_config.batch_size == 10 && c.queue_config.worker_threads == 2,
        c.image_send_max_edge == Some(1080u32),
        c.http_client_config.connect_timeout_secs == Some(30u64)
            && c.http_client_config.request_timeout_secs == Some(300u64),
        c.http_client_config.enable_retry && c.http_client_config.max_retries == c.retry_config.max_retries,
        !c.debug_mode && c.assets_dir is None && c.file_api_base_url is None,
        c.event_config.buffer_size == 1000 && c.event_config.filters@.len() == 0,
        endpoint_views(c.server_config.endpoints@) == default_endpoints(),
{
}

} // verus!
