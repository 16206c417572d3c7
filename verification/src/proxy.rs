//! Data structures for the transparent proxy that intercepts traffic to
//! large-language-model endpoints, and the decision of which hosts to
//! intercept.
//!
//! Running the listener itself (TLS, sockets, an async runtime) is I/O
//! and lives outside this library; what is modelled here is the
//! configuration and the host-matching rule.

use vstd::prelude::*;

use crate::text::{bytes_contain, str_contains};
use vstd::string::StringExecFns;
use vstd::utf8::encode_utf8;

verus! {

/// Proxy operation mode.
#[derive(Debug, Clone, Copy, PartialEq, Eq, Structural)]
pub enum ProxyMode {
    /// Log only, never block.
    Observe,
    /// Log and alert, but don't block.
    Advisory,
    /// Log, alert, and enforce policies (block if denied).
    Enforce,
}

/// Configuration for the proxy server.  The listen address is carried as
/// its textual form; the layer that opens the socket parses it.
#[derive(Debug, Clone)]
pub struct ProxyConfig {
    /// Listen address, e.g. "0.0.0.0:8443".
    pub listen_addr: String,
    /// Path to the TLS certificate.
    pub tls_cert_path: String,
    /// Path to the TLS private key.
    pub tls_key_path: String,
    /// The LLM endpoints to intercept.
    pub endpoints: Vec<String>,
    /// Policy evaluation mode.
    pub mode: ProxyMode,
}

impl Default for ProxyConfig {
    /// The stock configuration: listen on every interface at port 8443,
    /// certificates under the installation prefix, the four well-known
    /// LLM endpoints, observe-only mode.
    fn default() -> (r: ProxyConfig)
        ensures
            r.listen_addr@ == "0.0.0.0:8443"@,
            r.tls_cert_path@ == "/usr/local/etc/yori/certs/yori.crt"@,
            r.tls_key_path@ == "/usr/local/etc/yori/certs/yori.key"@,
            r.endpoints@.len() == 4,
            r.endpoints@[0]@ == "api.openai.com"@,
            r.endpoints@[1]@ == "api.anthropic.com"@,
            r.endpoints@[2]@ == "gemini.google.com"@,
            r.endpoints@[3]@ == "api.mistral.ai"@,
            r.mode == ProxyMode::Observe,
    {
        let mut endpoints: Vec<String> = Vec::new();
        endpoints.push(String::from_str("api.openai.com"));
        endpoints.push(String::from_str("api.anthropic.com"));
        endpoints.push(String::from_str("gemini.google.com"));
        endpoints.push(String::from_str("api.mistral.ai"));
        ProxyConfig {
            listen_addr: String::from_str("0.0.0.0:8443"),
            tls_cert_path: String::from_str("/usr/local/etc/yori/certs/yori.crt"),
            tls_key_path: String::from_str("/usr/local/etc/yori/certs/yori.key"),
            endpoints,
            mode: ProxyMode::Observe,
        }
    }
}

/// `host` matches some endpoint of the list: the endpoint's bytes occur
/// inside the host's, the byte-level containment test `str::contains`
/// performs.  Matching is case-sensitive, and a subdomain or a
/// host:port form therefore matches too.
pub open spec fn intercepts(endpoints: Seq<String>, host: Seq<char>) -> bool {
    exists|i: int|
        0 <= i < endpoints.len() && #[trigger] bytes_contain(
            encode_utf8(host),
            encode_utf8(endpoints[i]@),
        )
}

/// The transparent proxy server: its configuration, and the rule saying
/// which hosts it intercepts.
pub struct ProxyServer {
    config: ProxyConfig,
}

impl ProxyServer {
    /// The configuration the server was created with.
    pub closed spec fn spec_config(&self) -> ProxyConfig {
        self.config
    }

    /// Creates a proxy server with the given configuration.
    pub fn new(config: ProxyConfig) -> (r: ProxyServer)
        ensures
            r.spec_config() == config,
    {
        ProxyServer { config }
    }

    /// Read access to the configuration.
    pub fn config(&self) -> (r: &ProxyConfig)
        ensures
            *r == self.spec_config(),
    {
        &self.config
    }

    /// Whether traffic for `host` should be intercepted: true exactly
    /// when one of the configured endpoints occurs inside `host`.
    pub fn should_intercept(&self, host: &str) -> (r: bool)
        ensures
            r == intercepts(self.spec_config().endpoints@, host@),
    {
        let endpoints = &self.config.endpoints;
        let n = endpoints.len();
        let mut i: usize = 0;
        while i < n
            invariant
                i <= n,
                n == endpoints@.len(),
                endpoints@ == self.spec_config().endpoints@,
                forall|s: int|
                    0 <= s < i ==> !bytes_contain(
                        encode_utf8(host@),
                        encode_utf8(#[trigger] endpoints@[s]@),
                    ),
            decreases n - i,
        {
            if str_contains(host, endpoints[i].as_str()) {
                return true;
            }
            i += 1;
        }
        false
    }
}

/// Request context for policy evaluation and auditing.  The timestamp is
/// carried as milliseconds since the Unix epoch.
#[derive(Debug, Clone)]
pub struct RequestContext {
    /// Client IP address.
    pub client_ip: String,
    /// Target endpoint (e.g., "api.openai.com").
    pub endpoint: String,
    /// HTTP method.
    pub method: String,
    /// Request path.
    pub path: String,
    /// User agent.
    pub user_agent: Option<String>,
    /// Prompt preview (first 200 bytes, if applicable).
    pub prompt_preview: Option<String>,
    /// Request timestamp, Unix milliseconds.
    pub timestamp: i64,
}

/// Response context for auditing.
#[derive(Debug, Clone)]
pub struct ResponseContext {
    /// HTTP status code.
    pub status: u16,
    /// Response duration in milliseconds.
    pub duration_ms: u64,
    /// Estimated token count (if applicable).
    pub tokens: Option<usize>,
}

} // verus!
