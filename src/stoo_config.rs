use vstd::prelude::*;
use vstd::string::StringExecFns;

verus! {

/// The error returned when a default namespace or profile is asked for and
/// none was configured.
pub const DEFAULT_NOT_SET: &'static str = "default_namespace is empty";

/// Milliseconds allowed to open the connection, unless configured otherwise.
pub const DEFAULT_CONNECT_TIMEOUT_MS: u64 = 10000;

/// Milliseconds allowed to wait for a reply, unless configured otherwise.
pub const DEFAULT_RESPONSE_TIMEOUT_MS: u64 = 30000;

/// The settings used to reach a stoo server.
///
/// Timeouts are held as whole milliseconds. An empty default namespace or
/// profile means that none was set.
#[derive(Clone, Copy, Debug)]
pub struct StooConfig {
    /// Endpoint of the gRPC service, e.g. `http://localhost:50051`.
    url: &'static str,
    /// Namespace used by the default operations.
    default_namespace: &'static str,
    /// Profile used by the default operations.
    default_profile: &'static str,
    /// Longest time allowed to open the connection.
    connect_timeout_ms: u64,
    /// Longest time allowed to wait for a reply.
    response_timeout_ms: u64,
    /// Server name expected during TLS verification.
    domain: &'static str,
    /// Path to the PEM file of the CA that signed the server's certificate.
    ca_certificate: &'static str,
}

/// The mathematical content of a `StooConfig`.
pub struct ConfigView {
    pub url: Seq<char>,
    pub default_namespace: Seq<char>,
    pub default_profile: Seq<char>,
    pub connect_timeout_ms: u64,
    pub response_timeout_ms: u64,
    pub domain: Seq<char>,
    pub ca_certificate: Seq<char>,
}

impl ConfigView {
    /// The configuration that `StooConfig::from(url)` builds.
    pub open spec fn from_url(url: Seq<char>) -> ConfigView {
        ConfigView {
            url,
            default_namespace: Seq::empty(),
            default_profile: Seq::empty(),
            connect_timeout_ms: DEFAULT_CONNECT_TIMEOUT_MS,
            response_timeout_ms: DEFAULT_RESPONSE_TIMEOUT_MS,
            domain: Seq::empty(),
            ca_certificate: Seq::empty(),
        }
    }

    pub open spec fn with_connect_timeout(self, ms: u64) -> ConfigView {
        ConfigView { connect_timeout_ms: ms, ..self }
    }

    pub open spec fn with_response_timeout(self, ms: u64) -> ConfigView {
        ConfigView { response_timeout_ms: ms, ..self }
    }

    pub open spec fn with_default_namespace(self, ns: Seq<char>) -> ConfigView {
        ConfigView { default_namespace: ns, ..self }
    }

    pub open spec fn with_default_profile(self, profile: Seq<char>) -> ConfigView {
        ConfigView { default_profile: profile, ..self }
    }

    pub open spec fn with_domain(self, domain: Seq<char>) -> ConfigView {
        ConfigView { domain, ..self }
    }

    pub open spec fn with_ca_certificate(self, path: Seq<char>) -> ConfigView {
        ConfigView { ca_certificate: path, ..self }
    }
}

impl View for StooConfig {
    type V = ConfigView;

    closed spec fn view(&self) -> ConfigView {
        ConfigView {
            url: self.url@,
            default_namespace: self.default_namespace@,
            default_profile: self.default_profile@,
            connect_timeout_ms: self.connect_timeout_ms,
            response_timeout_ms: self.response_timeout_ms,
            domain: self.domain@,
            ca_certificate: self.ca_certificate@,
        }
    }
}

impl StooConfig {
    /// Set the connect timeout, in milliseconds.
    pub fn connect_timeout(self, duration_ms: u64) -> (r: Self)
        ensures
            r@ == self@.with_connect_timeout(duration_ms),
    {
        StooConfig { connect_timeout_ms: duration_ms, ..self }
    }

    /// Set the response timeout, in milliseconds.
    pub fn response_timeout(self, duration_ms: u64) -> (r: Self)
        ensures
            r@ == self@.with_response_timeout(duration_ms),
    {
        StooConfig { response_timeout_ms: duration_ms, ..self }
    }

    /// Set the default namespace.
    pub fn default_namespace(self, default_namespace: &'static str) -> (r: Self)
        ensures
            r@ == self@.with_default_namespace(default_namespace@),
    {
        StooConfig { default_namespace, ..self }
    }

    /// Set the default profile.
    pub fn default_profile(self, default_profile: &'static str) -> (r: Self)
        ensures
            r@ == self@.with_default_profile(default_profile@),
    {
        StooConfig { default_profile, ..self }
    }

    /// Set the server name checked during TLS verification.
    pub fn domain(self, domain: &'static str) -> (r: Self)
        ensures
            r@ == self@.with_domain(domain@),
    {
        StooConfig { domain, ..self }
    }

    /// Set the path of the CA certificate that the server's certificate must
    /// chain to.
    pub fn ca_certificate(self, ca_certificate: &'static str) -> (r: Self)
        ensures
            r@ == self@.with_ca_certificate(ca_certificate@),
    {
        StooConfig { ca_certificate, ..self }
    }

    /// The default namespace, or an error when none was set.
    pub fn get_default_namespace(self) -> (r: Result<&'static str, String>)
        ensures
            match r {
                Ok(ns) => self@.default_namespace.len() != 0 && ns@ == self@.default_namespace,
                Err(e) => self@.default_namespace.len() == 0 && e@ == DEFAULT_NOT_SET@,
            },
    {
        if self.default_namespace.is_empty() {
            return Err(String::from_str(DEFAULT_NOT_SET));
        }
        Ok(self.default_namespace)
    }

    /// The default profile, or an error when none was set.
    pub fn get_default_profile(self) -> (r: Result<&'static str, String>)
        ensures
            match r {
                Ok(p) => self@.default_profile.len() != 0 && p@ == self@.default_profile,
                Err(e) => self@.default_profile.len() == 0 && e@ == DEFAULT_NOT_SET@,
            },
    {
        if self.default_profile.is_empty() {
            return Err(String::from_str(DEFAULT_NOT_SET));
        }
        Ok(self.default_profile)
    }

    /// The endpoint URL.
    pub fn url(&self) -> (r: &'static str)
        ensures
            r@ == self@.url,
    {
        self.url
    }

    /// The connect timeout, in milliseconds.
    pub fn connect_timeout_ms(&self) -> (r: u64)
        ensures
            r == self@.connect_timeout_ms,
    {
        self.connect_timeout_ms
    }

    /// The response timeout, in milliseconds.
    pub fn response_timeout_ms(&self) -> (r: u64)
        ensures
            r == self@.response_timeout_ms,
    {
        self.response_timeout_ms
    }

    /// The server name checked during TLS verification; empty when unset.
    pub fn domain_name(&self) -> (r: &'static str)
        ensures
            r@ == self@.domain,
    {
        self.domain
    }

    /// The path of the CA certificate; empty when unset.
    pub fn ca_certificate_path(&self) -> (r: &'static str)
        ensures
            r@ == self@.ca_certificate,
    {
        self.ca_certificate
    }
}

impl From<&'static str> for StooConfig {
    /// A configuration for the endpoint `url`, with default timeouts and no
    /// defaults or TLS settings.
    fn from(url: &'static str) -> (r: Self)
        ensures
            r@ == ConfigView::from_url(url@),
    {
        proof {
            reveal_strlit("");
            assert(""@ =~= Seq::<char>::empty());
        }
        StooConfig {
            url,
            default_namespace: "",
            default_profile: "",
            connect_timeout_ms: DEFAULT_CONNECT_TIMEOUT_MS,
            response_timeout_ms: DEFAULT_RESPONSE_TIMEOUT_MS,
            domain: "",
            ca_certificate: "",
        }
    }
}

impl Default for StooConfig {
    /// A configuration with every text empty and both timeouts zero.
    fn default() -> (r: Self)
        ensures
            r@ == (ConfigView {
                url: Seq::empty(),
                default_namespace: Seq::empty(),
                default_profile: Seq::empty(),
                connect_timeout_ms: 0,
                response_timeout_ms: 0,
                domain: Seq::empty(),
                ca_certificate: Seq::empty(),
            }),
    {
        proof {
            reveal_strlit("");
            assert(""@ =~= Seq::<char>::empty());
        }
        StooConfig {
            url: "",
            default_namespace: "",
            default_profile: "",
            connect_timeout_ms: 0,
            response_timeout_ms: 0,
            domain: "",
            ca_certificate: "",
        }
    }
}

impl vstd::std_specs::convert::FromSpecImpl<&'static str> for StooConfig {
    open spec fn obeys_from_spec() -> bool {
        true
    }

    closed spec fn from_spec(url: &'static str) -> StooConfig {
        StooConfig {
            url,
            default_namespace: "",
            default_profile: "",
            connect_timeout_ms: DEFAULT_CONNECT_TIMEOUT_MS,
            response_timeout_ms: DEFAULT_RESPONSE_TIMEOUT_MS,
            domain: "",
            ca_certificate: "",
        }
    }
}

/// A configuration built from an endpoint URL allows ten seconds to connect
/// and thirty seconds for each reply, and setting the defaults or the TLS
/// settings leaves both timeouts as they are.
pub proof fn lemma_from_url_timeouts(url: Seq<char>, ns: Seq<char>, profile: Seq<char>, domain: Seq<char>, ca: Seq<char>)
    ensures
        ConfigView::from_url(url).connect_timeout_ms == 10000,
        ConfigView::from_url(url).response_timeout_ms == 30000,
        ({
            let c = ConfigView::from_url(url).with_default_namespace(ns).with_default_profile(
                profile,
            ).with_domain(domain).with_ca_certificate(ca);
            c.connect_timeout_ms == 10000 && c.response_timeout_ms == 30000
        }),
{
}

/// Setters of distinct fields commute: applying them in either order gives
/// the same configuration.
pub proof fn lemma_setters_commute(cfg: ConfigView, domain: Seq<char>, ca: Seq<char>, ns: Seq<char>, profile: Seq<char>, connect_ms: u64, response_ms: u64)
    ensures
        cfg.with_domain(domain).with_ca_certificate(ca) == cfg.with_ca_certificate(ca).with_domain(domain),
        cfg.with_default_namespace(ns).with_default_profile(profile)
            == cfg.with_default_profile(profile).with_default_namespace(ns),
        cfg.with_connect_timeout(connect_ms).with_response_timeout(response_ms)
            == cfg.with_response_timeout(response_ms).with_connect_timeout(connect_ms),
{
}

} // verus!
