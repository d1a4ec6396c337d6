//! The connection pool: at most one live transport channel per target
//! address. A cache hit refreshes the last-used stamp and returns the
//! cached handle without touching the network; a miss normalizes the
//! address scheme, builds a lazily-connecting channel (TLS with a
//! supplied CA certificate or the system roots for a secure scheme), and
//! caches it.

use vstd::prelude::*;

use tonic::transport::Channel;

use crate::errors::{YdbError, YdbResult};
use crate::text::str_eq;

verus! {

/// The transport channel type of the underlying RPC library; opaque
/// here, cheaply cloned, safe for concurrent multiplexed use.
#[verifier::external_type_specification]
#[verifier::external_body]
pub struct ExChannel(Channel);

/// Relies on tonic's Channel::clone: the clone is a handle to the same
/// multiplexed transport.
#[verifier::external_body]
pub(crate) fn channel_clone(v: &Channel) -> (res: Channel)
    ensures
        res == *v,
{
    v.clone()
}

/// Relies on tonic's Endpoint::from_shared, http2_keep_alive_interval
/// and connect_lazy: a lazily-connecting plaintext channel for the URI,
/// with a fixed keep-alive interval and no handshake at creation time.
#[verifier::external_body]
fn build_channel_plain(uri: &str) -> (r: Result<Channel, String>) {
    let endpoint = match tonic::transport::Endpoint::from_shared(uri.to_owned()) {
        Ok(e) => e,
        Err(e) => return Err(e.to_string()),
    };
    let endpoint = endpoint.http2_keep_alive_interval(std::time::Duration::from_secs(10));
    Ok(endpoint.connect_lazy())
}

/// Relies on tonic's ClientTlsConfig with a CA certificate from the
/// given PEM text, plus Endpoint::from_shared, tls_config,
/// http2_keep_alive_interval and connect_lazy, as the plaintext builder.
#[verifier::external_body]
fn build_channel_tls_ca(uri: &str, ca_pem: &str) -> (r: Result<Channel, String>) {
    let cert = tonic::transport::Certificate::from_pem(ca_pem);
    let tls = tonic::transport::ClientTlsConfig::new().ca_certificate(cert);
    let endpoint = match tonic::transport::Endpoint::from_shared(uri.to_owned()) {
        Ok(e) => e,
        Err(e) => return Err(e.to_string()),
    };
    let endpoint = match endpoint.tls_config(tls) {
        Ok(e) => e,
        Err(e) => return Err(e.to_string()),
    };
    Ok(endpoint.http2_keep_alive_interval(std::time::Duration::from_secs(10)).connect_lazy())
}

/// Relies on tonic's ClientTlsConfig::with_native_roots for the given
/// domain, plus Endpoint::from_shared, tls_config,
/// http2_keep_alive_interval and connect_lazy, as the plaintext builder.
#[verifier::external_body]
fn build_channel_tls_native(uri: &str, domain: &str) -> (r: Result<Channel, String>) {
    let tls = tonic::transport::ClientTlsConfig::new().domain_name(domain.to_string())
        .with_native_roots();
    let endpoint = match tonic::transport::Endpoint::from_shared(uri.to_owned()) {
        Ok(e) => e,
        Err(e) => return Err(e.to_string()),
    };
    let endpoint = match endpoint.tls_config(tls) {
        Ok(e) => e,
        Err(e) => return Err(e.to_string()),
    };
    Ok(endpoint.http2_keep_alive_interval(std::time::Duration::from_secs(10)).connect_lazy())
}

/// A target address, split into the parts the client reads: scheme
/// (empty when absent), host, port and path.
#[derive(Debug)]
pub struct EndpointUri {
    pub scheme: String,
    pub host: Option<String>,
    pub port: Option<u16>,
    pub path: String,
}

impl Clone for EndpointUri {
    fn clone(&self) -> (res: Self)
        ensures
            res == *self,
    {
        EndpointUri {
            scheme: self.scheme.clone(),
            host: match &self.host {
                Some(h) => Some(h.clone()),
                None => None,
            },
            port: self.port,
            path: self.path.clone(),
        }
    }
}

/// Whether two addresses name the same endpoint.
pub open spec fn spec_uri_eq(a: EndpointUri, b: EndpointUri) -> bool {
    &&& a.scheme@ == b.scheme@
    &&& match (a.host, b.host) {
        (Some(x), Some(y)) => x@ == y@,
        (None, None) => true,
        _ => false,
    }
    &&& a.port == b.port
    &&& a.path@ == b.path@
}

/// Equality of two addresses.
pub fn uri_eq(a: &EndpointUri, b: &EndpointUri) -> (r: bool)
    ensures
        r == spec_uri_eq(*a, *b),
{
    let hosts_eq = match (&a.host, &b.host) {
        (Some(x), Some(y)) => str_eq(x.as_str(), y.as_str()),
        (None, None) => true,
        _ => false,
    };
    let ports_eq = match (a.port, b.port) {
        (Some(x), Some(y)) => x == y,
        (None, None) => true,
        _ => false,
    };
    str_eq(a.scheme.as_str(), b.scheme.as_str()) && hosts_eq && ports_eq && str_eq(
        a.path.as_str(),
        b.path.as_str(),
    )
}

/// Scheme normalization is total and exact: the client's custom scheme
/// maps to the standard insecure scheme, its secure variant to the
/// standard secure scheme, and any other scheme passes through
/// unchanged.
pub open spec fn spec_normalize_scheme(s: Seq<char>) -> Seq<char> {
    if s == "grpc"@ {
        "http"@
    } else if s == "grpcs"@ {
        "https"@
    } else {
        s
    }
}

/// Normalizes an address's scheme, preserving host, port and path
/// exactly.
pub fn normalize_uri_scheme(uri: EndpointUri) -> (r: YdbResult<EndpointUri>)
    ensures
        r matches Ok(u) && u.scheme@ == spec_normalize_scheme(uri.scheme@) && u.host == uri.host
            && u.port == uri.port && u.path == uri.path,
{
    let EndpointUri { scheme, host, port, path } = uri;
    let scheme = if str_eq(scheme.as_str(), "grpc") {
        String::from_str("http")
    } else if str_eq(scheme.as_str(), "grpcs") {
        String::from_str("https")
    } else {
        scheme
    };
    Ok(EndpointUri { scheme, host, port, path })
}

/// The decimal digit characters of a number, most significant first.
pub open spec fn spec_dec_digits(n: nat) -> Seq<char>
    decreases n,
{
    if n < 10 {
        seq![spec_digit_char(n)]
    } else {
        spec_dec_digits(n / 10) + seq![spec_digit_char(n % 10)]
    }
}

/// The character of one decimal digit.
pub open spec fn spec_digit_char(d: nat) -> char {
    if d == 0 {
        '0'
    } else if d == 1 {
        '1'
    } else if d == 2 {
        '2'
    } else if d == 3 {
        '3'
    } else if d == 4 {
        '4'
    } else if d == 5 {
        '5'
    } else if d == 6 {
        '6'
    } else if d == 7 {
        '7'
    } else if d == 8 {
        '8'
    } else {
        '9'
    }
}

/// The text of one decimal digit.
fn digit_str(d: u16) -> (r: &'static str)
    requires
        d < 10,
    ensures
        r@ =~= seq![spec_digit_char(d as nat)],
{
    proof {
        reveal_strlit("0");
        reveal_strlit("1");
        reveal_strlit("2");
        reveal_strlit("3");
        reveal_strlit("4");
        reveal_strlit("5");
        reveal_strlit("6");
        reveal_strlit("7");
        reveal_strlit("8");
        reveal_strlit("9");
    }
    if d == 0 {
        "0"
    } else if d == 1 {
        "1"
    } else if d == 2 {
        "2"
    } else if d == 3 {
        "3"
    } else if d == 4 {
        "4"
    } else if d == 5 {
        "5"
    } else if d == 6 {
        "6"
    } else if d == 7 {
        "7"
    } else if d == 8 {
        "8"
    } else {
        "9"
    }
}

/// The decimal text of a port number.
fn u16_to_string(n: u16) -> (r: String)
    ensures
        r@ == spec_dec_digits(n as nat),
    decreases n,
{
    if n < 10 {
        String::from_str(digit_str(n))
    } else {
        let mut s = u16_to_string(n / 10);
        s.append(digit_str(n % 10));
        proof {
            assert(s@ =~= spec_dec_digits(n as nat));
        }
        s
    }
}

/// The text form of an address: scheme, "://", host if any, ":" and the
/// port if any, then the path.
pub open spec fn spec_uri_string(u: EndpointUri) -> Seq<char> {
    u.scheme@ + "://"@ + (match u.host {
        Some(h) => h@,
        None => Seq::<char>::empty(),
    }) + (match u.port {
        Some(p) => ":"@ + spec_dec_digits(p as nat),
        None => Seq::<char>::empty(),
    }) + u.path@
}

/// Renders an address as text, exactly as `spec_uri_string` says.
fn uri_to_string(uri: &EndpointUri) -> (r: String)
    ensures
        r@ == spec_uri_string(*uri),
{
    let mut s = uri.scheme.clone();
    s.append("://");
    match &uri.host {
        Some(h) => s.append(h.as_str()),
        None => {},
    }
    match uri.port {
        Some(p) => {
            s.append(":");
            let ps = u16_to_string(p);
            s.append(ps.as_str());
        },
        None => {},
    }
    s.append(uri.path.as_str());
    proof {
        assert(s@ =~= spec_uri_string(*uri));
    }
    s
}

/// Builds a lazily-connecting channel for an address. The scheme is
/// normalized first; a secure scheme without an extractable host for
/// certificate validation is a configuration error, raised before any
/// transport construction. TLS uses the supplied CA certificate when
/// one is configured, else the system root trust.
pub fn connect_lazy(uri: EndpointUri, tls_ca_pem: &Option<String>) -> (r: YdbResult<Channel>)
    ensures
        spec_normalize_scheme(uri.scheme@) == "https"@ && uri.host is None ==> (r matches Err(e)
            && e matches YdbError::Custom(m) && m@ == "URI must have a host for TLS connections"@),
        !(spec_normalize_scheme(uri.scheme@) == "https"@ && uri.host is None) ==> (r matches Err(
            e,
        ) ==> e is TransportDial),
{
    let uri = match normalize_uri_scheme(uri) {
        Ok(u) => u,
        Err(e) => {
            return Err(e);
        },
    };
    let tls = str_eq(uri.scheme.as_str(), "https");
    if tls {
        match &uri.host {
            None => Err(YdbError::from_str("URI must have a host for TLS connections")),
            Some(domain) => {
                let text = uri_to_string(&uri);
                let built = match tls_ca_pem {
                    Some(pem) => build_channel_tls_ca(text.as_str(), pem.as_str()),
                    None => build_channel_tls_native(text.as_str(), domain.as_str()),
                };
                match built {
                    Ok(c) => Ok(c),
                    Err(m) => Err(YdbError::TransportDial(m)),
                }
            },
        }
    } else {
        let text = uri_to_string(&uri);
        match build_channel_plain(text.as_str()) {
            Ok(c) => Ok(c),
            Err(m) => Err(YdbError::TransportDial(m)),
        }
    }
}

/// One cached connection: the address it serves, the shared channel
/// handle, and when it was last used.
pub struct ConnectionInfo {
    pub key: EndpointUri,
    pub channel: Channel,
    pub last_usage_ms: u64,
}

/// Whether `i` is the cache entry for this address.
pub open spec fn spec_first_conn_match(
    entries: Seq<ConnectionInfo>,
    uri: EndpointUri,
    i: int,
) -> bool {
    &&& 0 <= i < entries.len()
    &&& spec_uri_eq(entries[i].key, uri)
    &&& forall|j: int| 0 <= j < i ==> !spec_uri_eq((#[trigger] entries[j]).key, uri)
}

/// The connection pool's state: the cached connections (at most one per
/// address) and the optional CA certificate for TLS endpoints.
pub struct ConnectionPool {
    entries: Vec<ConnectionInfo>,
    tls_ca_pem: Option<String>,
}

impl ConnectionPool {
    pub closed spec fn spec_entries(&self) -> Seq<ConnectionInfo> {
        self.entries@
    }

    pub closed spec fn spec_tls_ca_pem(&self) -> Option<String> {
        self.tls_ca_pem
    }

    /// An empty pool trusting the system roots.
    pub fn new() -> (r: Self)
        ensures
            r.spec_entries() == Seq::<ConnectionInfo>::empty(),
            r.spec_tls_ca_pem() is None,
    {
        Self { entries: Vec::new(), tls_ca_pem: None }
    }

    /// How many connections are cached.
    pub fn connection_count(&self) -> (r: usize)
        ensures
            r == self.spec_entries().len(),
    {
        self.entries.len()
    }

    /// This pool with a CA certificate, in PEM text, for TLS endpoints.
    pub fn with_ca_certificate(self, pem: String) -> (r: Self)
        ensures
            r.spec_entries() == self.spec_entries(),
            r.spec_tls_ca_pem() == Some(pem),
    {
        let mut p = self;
        p.tls_ca_pem = Some(pem);
        p
    }

    /// The channel for an address. A cache hit refreshes the last-used
    /// stamp and returns the cached handle, building nothing; a miss
    /// builds a lazily-connecting channel, caches it under the address,
    /// and returns it. Repeated calls for one address thus return
    /// handles to one underlying channel.
    #[verifier::loop_isolation(false)]
    pub fn connection(&mut self, uri: &EndpointUri, now_ms: u64) -> (r: YdbResult<Channel>)
        requires
            forall|i: int|
                0 <= i < old(self).spec_entries().len()
                    ==> (#[trigger] old(self).spec_entries()[i]).last_usage_ms <= now_ms,
        ensures
            final(self).spec_tls_ca_pem() == old(self).spec_tls_ca_pem(),
            forall|i: int|
                0 <= i < old(self).spec_entries().len()
                    ==> (#[trigger] final(self).spec_entries()[i]).last_usage_ms >= old(
                    self).spec_entries()[i].last_usage_ms,
            forall|i: int|
                spec_first_conn_match(old(self).spec_entries(), *uri, i) ==> (r == Ok::<
                    Channel,
                    YdbError,
                >(old(self).spec_entries()[i].channel) && final(self).spec_entries() == old(
                    self,
                ).spec_entries().update(
                    i,
                    ConnectionInfo {
                        key: old(self).spec_entries()[i].key,
                        channel: old(self).spec_entries()[i].channel,
                        last_usage_ms: now_ms,
                    },
                )),
            (forall|j: int|
                0 <= j < old(self).spec_entries().len() ==> !spec_uri_eq(
                    (#[trigger] old(self).spec_entries()[j]).key,
                    *uri,
                )) ==> ({
                &&& r matches Ok(c) ==> final(self).spec_entries() == old(
                    self,
                ).spec_entries().push(
                    ConnectionInfo { key: *uri, channel: c, last_usage_ms: now_ms },
                )
                &&& r is Err ==> final(self).spec_entries() == old(self).spec_entries()
                &&& spec_normalize_scheme(uri.scheme@) == "https"@ && uri.host is None ==> (
                r matches Err(e) && e matches YdbError::Custom(m) && m@
                    == "URI must have a host for TLS connections"@)
            }),
    {
        let n = self.entries.len();
        let mut i: usize = 0;
        while i < n
            invariant
                n == self.entries@.len(),
                0 <= i <= n,
                *self == *old(self),
                forall|j: int|
                    0 <= j < i ==> !spec_uri_eq((#[trigger] self.entries@[j]).key, *uri),
            decreases n - i,
        {
            if uri_eq(&self.entries[i].key, uri) {
                proof {
                    assert(spec_first_conn_match(old(self).spec_entries(), *uri, i as int));
                }
                let entry = self.entries.remove(i);
                let ch = channel_clone(&entry.channel);
                self.entries.insert(
                    i,
                    ConnectionInfo {
                        key: entry.key,
                        channel: entry.channel,
                        last_usage_ms: now_ms,
                    },
                );
                proof {
                    assert(self.entries@ =~= old(self).spec_entries().update(
                        i as int,
                        ConnectionInfo {
                            key: old(self).spec_entries()[i as int].key,
                            channel: old(self).spec_entries()[i as int].channel,
                            last_usage_ms: now_ms,
                        },
                    ));
                }
                return Ok(ch);
            }
            i = i + 1;
        }
        let channel = match connect_lazy(uri.clone(), &self.tls_ca_pem) {
            Ok(c) => c,
            Err(e) => {
                return Err(e);
            },
        };
        let stored = channel_clone(&channel);
        self.entries.push(ConnectionInfo { key: uri.clone(), channel: stored, last_usage_ms: now_ms });
        Ok(channel)
    }
}

} // verus!
