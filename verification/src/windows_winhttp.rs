//! Native-record mapper: turns the delimited strings of the current user's
//! native proxy record into the normalized model.
//!
//! The proxy-server string carries one `host:port` pair that applies to all
//! three protocol slots alike; the bypass string carries the exception
//! patterns separated by semicolons. Unlike the other platforms, an absent
//! proxy-server or bypass string fails the whole query instead of yielding
//! an empty result.

use vstd::prelude::*;

use crate::text::{parse_u16, spec_parse_u16, spec_split, split_str};
use crate::{
    clone_proxies, config_result_view, opt_string_view, proxies_result_view, ConfigV, Error,
    Proxies, ProxiesV, Proxy, ProxyConfig, ProxyV, Scope, ScopeV,
};

verus! {

/// The per-protocol set that one proxy-server string yields: the first two
/// colon-delimited tokens are host and port, and the same endpoint fills
/// every protocol slot. This platform is strict: an empty host token, a
/// missing second token, or a port that is not an unsigned 16-bit decimal
/// number fails the whole query, so a present endpoint always has a
/// non-empty host.
pub open spec fn spec_native_proxies(value: Seq<char>) -> Result<ProxiesV, Error> {
    let toks = spec_split(value, ':');
    if toks[0].len() == 0 {
        Err(Error::NoHost)
    } else if toks.len() < 2 {
        Err(Error::NoPort)
    } else {
        match spec_parse_u16(toks[1]) {
            None => Err(Error::MalformedPort),
            Some(port) => {
                let p = ProxyV { host: toks[0], port, auth: None, enabled: true };
                Ok(
                    ProxiesV {
                        http_proxy: Some(p),
                        https_proxy: Some(p),
                        socks_proxy: Some(p),
                        exclude_simple_host_names: true,
                    },
                )
            },
        }
    }
}

/// The single scope that one bypass string yields: no interface identity,
/// the already-computed global proxies, and the semicolon-separated
/// exception patterns in source order.
pub open spec fn spec_native_scope(value: Seq<char>, proxies: ProxiesV) -> ScopeV {
    ScopeV { interface: Seq::empty(), proxies, exceptions: spec_split(value, ';') }
}

impl Proxies {
    /// Reads one `host:port` proxy-server string; the same endpoint is
    /// applied to all three protocol slots, enabled, without credentials.
    /// An empty host token is a hard failure, never an endpoint with an
    /// empty host.
    pub fn from_str(value: &str) -> (r: Result<Proxies, Error>)
        ensures
            proxies_result_view(r) == spec_native_proxies(value@),
    {
        let toks = split_str(value, ':');
        proof {
            assert(toks.deep_view()[0] == toks@[0]@);
        }
        if toks[0].as_str().is_empty() {
            return Err(Error::NoHost);
        }
        if toks.len() < 2 {
            return Err(Error::NoPort);
        }
        proof {
            assert(toks.deep_view()[1] == toks@[1]@);
        }
        let port = match parse_u16(toks[1].as_str()) {
            Some(p) => p,
            None => {
                return Err(Error::MalformedPort);
            },
        };
        let http = Proxy { host: toks[0].clone(), port, auth: None, enabled: true };
        let https = Proxy { host: toks[0].clone(), port, auth: None, enabled: true };
        let socks = Proxy { host: toks[0].clone(), port, auth: None, enabled: true };
        Ok(
            Proxies {
                http_proxy: Some(http),
                https_proxy: Some(https),
                socks_proxy: Some(socks),
                exclude_simple_host_names: true,
            },
        )
    }
}

impl Scope {
    /// Reads one bypass string into the single scope of this platform: an
    /// empty interface label and the `;`-separated exception patterns.
    pub fn from_str(value: &str, proxies: Proxies) -> (r: Result<Scope, Error>)
        ensures
            r matches Ok(s) && s@ == spec_native_scope(value@, proxies@),
    {
        let exceptions = split_str(value, ';');
        let r = Ok(Scope { interface: String::new(), proxies, exceptions });
        proof {
            assert(r matches Ok(s) ==> s@.interface =~= Seq::<char>::empty());
        }
        r
    }
}

/// The configuration that one native record yields. The proxy-server string
/// is required first, then the bypass string; only then is either parsed.
pub open spec fn spec_native_config(
    proxy_server: Option<Seq<char>>,
    bypass: Option<Seq<char>>,
) -> Result<ConfigV, Error> {
    match proxy_server {
        None => Err(Error::NoProxies),
        Some(ps) => match bypass {
            None => Err(Error::NoScopes),
            Some(bp) => match spec_native_proxies(ps) {
                Err(e) => Err(e),
                Ok(proxies) => Ok(
                    ConfigV { proxies, scopes: seq![spec_native_scope(bp, proxies)] },
                ),
            },
        },
    }
}

impl ProxyConfig {
    /// Maps the two strings already copied out of the native proxy record:
    /// the proxy-server string and the bypass string, either of which may
    /// have been absent.
    pub fn from_native_strings(proxy_server: Option<String>, bypass: Option<String>) -> (r: Result<
        ProxyConfig,
        Error,
    >)
        ensures
            config_result_view(r) == spec_native_config(
                opt_string_view(proxy_server),
                opt_string_view(bypass),
            ),
    {
        let ps = match proxy_server {
            Some(s) => s,
            None => {
                return Err(Error::NoProxies);
            },
        };
        let bp = match bypass {
            Some(s) => s,
            None => {
                return Err(Error::NoScopes);
            },
        };
        let proxies = match Proxies::from_str(ps.as_str()) {
            Ok(p) => p,
            Err(e) => {
                return Err(e);
            },
        };
        let for_scope = clone_proxies(&proxies);
        let scope = match Scope::from_str(bp.as_str(), for_scope) {
            Ok(s) => s,
            Err(e) => {
                return Err(e);
            },
        };
        let mut scopes: Vec<Scope> = Vec::new();
        scopes.push(scope);
        let r = Ok(ProxyConfig { proxies, scopes });
        proof {
            assert(config_result_view(r) matches Ok(c) ==> c.scopes =~= seq![
                spec_native_scope(bp@, proxies@),
            ]);
        }
        r
    }
}

/// Law: the native record owes a configuration exactly when both strings
/// are present, the proxy-server string opens with a non-empty host token
/// and has a second colon-delimited token, and that token is an unsigned
/// 16-bit decimal number. An absent proxy-server string always fails with
/// the missing-proxies error, an absent bypass string with the
/// missing-scopes error, and an empty host token with the missing-host
/// error; a configuration with defaulted proxies is never returned.
pub proof fn lemma_native_success_condition(
    proxy_server: Option<Seq<char>>,
    bypass: Option<Seq<char>>,
)
    ensures
        proxy_server is None ==> spec_native_config(proxy_server, bypass) == Err::<
            ConfigV,
            Error,
        >(Error::NoProxies),
        proxy_server is Some && bypass is None ==> spec_native_config(proxy_server, bypass)
            == Err::<ConfigV, Error>(Error::NoScopes),
        proxy_server matches Some(ps) && bypass is Some && spec_split(ps, ':')[0].len() == 0
            ==> spec_native_config(proxy_server, bypass) == Err::<ConfigV, Error>(Error::NoHost),
        spec_native_config(proxy_server, bypass) is Ok <==> (proxy_server matches Some(ps)
            && bypass is Some && spec_split(ps, ':')[0].len() > 0 && spec_split(ps, ':').len() >= 2
            && spec_parse_u16(spec_split(ps, ':')[1]) is Some),
{
}

/// Law: the data model's invariant holds of every configuration this
/// mapper returns -- each present endpoint, global or scoped, has a
/// non-empty host.
pub proof fn lemma_native_well_formed(proxy_server: Option<Seq<char>>, bypass: Option<Seq<char>>)
    ensures
        spec_native_config(proxy_server, bypass) matches Ok(c) ==> crate::config_well_formed(c),
{
}

/// Law: whenever the proxy-server string yields a proxy set, one enabled,
/// credential-free endpoint fills all three protocol slots alike.
pub proof fn lemma_native_slots_alike(value: Seq<char>)
    ensures
        spec_native_proxies(value) matches Ok(p) ==> {
            &&& p.http_proxy matches Some(e)
            &&& e.enabled
            &&& e.auth is None
            &&& p.https_proxy == p.http_proxy
            &&& p.socks_proxy == p.http_proxy
            &&& p.exclude_simple_host_names
        },
{
}

/// Law: the native-record mapping is a pure function of the copied strings.
/// Two queries over one unchanged record yield structurally equal results.
pub proof fn lemma_native_mapping_idempotent(
    proxy_server: Option<Seq<char>>,
    bypass: Option<Seq<char>>,
    r1: Result<ProxyConfig, Error>,
    r2: Result<ProxyConfig, Error>,
)
    requires
        config_result_view(r1) == spec_native_config(proxy_server, bypass),
        config_result_view(r2) == spec_native_config(proxy_server, bypass),
    ensures
        config_result_view(r1) == config_result_view(r2),
{
}

} // verus!
