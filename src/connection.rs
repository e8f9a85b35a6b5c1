use crate::stoo_config::StooConfig;
use vstd::prelude::*;

verus! {

/// Whether `url` names a secure endpoint: it starts with `https`.
pub open spec fn is_secure_url(url: Seq<char>) -> bool {
    url.len() >= 5 && url.subrange(0, 5) == seq!['h', 't', 't', 'p', 's']
}

/// How to set up TLS for a secure endpoint.
#[derive(Clone, Copy, Debug, PartialEq, Eq)]
pub struct TlsPlan {
    /// Path of the PEM file holding the CA certificate to trust.
    pub ca_certificate: &'static str,
    /// Server name to verify instead of the one in the URL, if any.
    pub domain: Option<&'static str>,
}

/// Everything needed to open the connection that a `StooConfig` describes.
#[derive(Clone, Copy, Debug, PartialEq, Eq)]
pub struct ConnectionPlan {
    pub url: &'static str,
    pub connect_timeout_ms: u64,
    pub response_timeout_ms: u64,
    /// TLS settings; `None` for a plain-text connection.
    pub tls: Option<TlsPlan>,
}

/// Whether `url` starts with `https`, which selects a TLS connection.
pub fn uses_tls(url: &str) -> (r: bool)
    ensures
        r == is_secure_url(url@),
{
    let scheme = "https";
    proof {
        reveal_strlit("https");
        assert(scheme@ =~= seq!['h', 't', 't', 'p', 's']);
    }
    let n = url.unicode_len();
    if n < 5 {
        return false;
    }
    let mut i: usize = 0;
    while i < 5
        invariant
            0 <= i <= 5,
            n == url@.len(),
            n >= 5,
            scheme@ == seq!['h', 't', 't', 'p', 's'],
            forall|j: int| 0 <= j < i ==> url@[j] == scheme@[j],
        decreases 5 - i,
    {
        if url.get_char(i) != scheme.get_char(i) {
            assert(url@.subrange(0, 5)[i as int] != scheme@[i as int]);
            return false;
        }
        i = i + 1;
    }
    assert(url@.subrange(0, 5) =~= scheme@);
    true
}

/// The connection that `config` describes. TLS is set up exactly for a URL
/// that starts with `https`, trusting the configured CA certificate, and the
/// server name is overridden only when a domain was configured.
pub fn connection_plan(config: &StooConfig) -> (r: ConnectionPlan)
    ensures
        r.url@ == config@.url,
        r.connect_timeout_ms == config@.connect_timeout_ms,
        r.response_timeout_ms == config@.response_timeout_ms,
        r.tls.is_some() == is_secure_url(config@.url),
        r.tls matches Some(t) ==> t.ca_certificate@ == config@.ca_certificate,
        r.tls matches Some(t) ==> match t.domain {
            Some(d) => config@.domain.len() != 0 && d@ == config@.domain,
            None => config@.domain.len() == 0,
        },
{
    let url = config.url();
    let tls = if uses_tls(url) {
        let domain = config.domain_name();
        let override_name = if domain.is_empty() {
            None
        } else {
            Some(domain)
        };
        Some(TlsPlan { ca_certificate: config.ca_certificate_path(), domain: override_name })
    } else {
        None
    };
    ConnectionPlan {
        url,
        connect_timeout_ms: config.connect_timeout_ms(),
        response_timeout_ms: config.response_timeout_ms(),
        tls,
    }
}

} // verus!
