//! Reads the operating system's proxy configuration and normalizes it into a
//! single platform-independent model.
//!
//! Each platform exposes proxy settings through a different native mechanism:
//! a nested settings dictionary (macOS), a desktop settings store queried over
//! a subprocess (Linux), or a flat native record of delimited strings
//! (Windows). The mappers in this crate take the raw data of each source --
//! already copied into plain strings by the thin platform shims around the
//! library -- and build the common [`ProxyConfig`] value, field by field, with
//! the absence and tie-break rules of each platform stated in the contracts.

use vstd::prelude::*;

pub mod linux_desktop;
pub mod macos_cfnetwork;
pub mod text;
pub mod windows_winhttp;

verus! {

/// Credentials attached to one proxy endpoint. The password may be absent
/// even when authentication is on: that is a valid state, not an error.
#[derive(Debug, Clone, PartialEq)]
pub struct Auth {
    pub user: String,
    pub password: Option<String>,
}

/// One protocol-specific proxy endpoint.
#[derive(Debug, Default, Clone, PartialEq)]
pub struct Proxy {
    pub host: String,
    pub port: u16,
    pub auth: Option<Auth>,
    pub enabled: bool,
}

/// The per-protocol proxy set of one scope. The three protocol slots are
/// independent; any subset may be absent.
#[derive(Debug, Default, Clone, PartialEq)]
pub struct Proxies {
    pub http_proxy: Option<Proxy>,
    pub https_proxy: Option<Proxy>,
    pub socks_proxy: Option<Proxy>,
    pub exclude_simple_host_names: bool,
}

/// A network-interface-specific override of the global proxy set, with its
/// bypass patterns in source order.
#[derive(Debug, Clone, PartialEq)]
pub struct Scope {
    pub interface: String,
    pub proxies: Proxies,
    pub exceptions: Vec<String>,
}

/// The root result: one global proxy set plus zero or more scoped overrides.
#[derive(Debug, Clone, PartialEq)]
pub struct ProxyConfig {
    pub proxies: Proxies,
    pub scopes: Vec<Scope>,
}

/// Mathematical image of [`Auth`].
pub struct AuthV {
    pub user: Seq<char>,
    pub password: Option<Seq<char>>,
}

/// Mathematical image of [`Proxy`].
pub struct ProxyV {
    pub host: Seq<char>,
    pub port: u16,
    pub auth: Option<AuthV>,
    pub enabled: bool,
}

/// Mathematical image of [`Proxies`].
pub struct ProxiesV {
    pub http_proxy: Option<ProxyV>,
    pub https_proxy: Option<ProxyV>,
    pub socks_proxy: Option<ProxyV>,
    pub exclude_simple_host_names: bool,
}

/// Mathematical image of [`Scope`].
pub struct ScopeV {
    pub interface: Seq<char>,
    pub proxies: ProxiesV,
    pub exceptions: Seq<Seq<char>>,
}

/// Mathematical image of [`ProxyConfig`].
pub struct ConfigV {
    pub proxies: ProxiesV,
    pub scopes: Seq<ScopeV>,
}

pub open spec fn opt_string_view(o: Option<String>) -> Option<Seq<char>> {
    match o {
        Some(s) => Some(s@),
        None => None,
    }
}

pub open spec fn opt_auth_view(o: Option<Auth>) -> Option<AuthV> {
    match o {
        Some(a) => Some(a@),
        None => None,
    }
}

pub open spec fn opt_proxy_view(o: Option<Proxy>) -> Option<ProxyV> {
    match o {
        Some(p) => Some(p@),
        None => None,
    }
}

impl View for Auth {
    type V = AuthV;

    open spec fn view(&self) -> AuthV {
        AuthV { user: self.user@, password: opt_string_view(self.password) }
    }
}

impl View for Proxy {
    type V = ProxyV;

    open spec fn view(&self) -> ProxyV {
        ProxyV {
            host: self.host@,
            port: self.port,
            auth: opt_auth_view(self.auth),
            enabled: self.enabled,
        }
    }
}

impl View for Proxies {
    type V = ProxiesV;

    open spec fn view(&self) -> ProxiesV {
        ProxiesV {
            http_proxy: opt_proxy_view(self.http_proxy),
            https_proxy: opt_proxy_view(self.https_proxy),
            socks_proxy: opt_proxy_view(self.socks_proxy),
            exclude_simple_host_names: self.exclude_simple_host_names,
        }
    }
}

impl View for Scope {
    type V = ScopeV;

    open spec fn view(&self) -> ScopeV {
        ScopeV {
            interface: self.interface@,
            proxies: self.proxies@,
            exceptions: self.exceptions.deep_view(),
        }
    }
}

impl View for ProxyConfig {
    type V = ConfigV;

    open spec fn view(&self) -> ConfigV {
        ConfigV {
            proxies: self.proxies@,
            scopes: Seq::new(
                self.scopes@.len(),
                |i: int|
                    if 0 <= i < self.scopes@.len() {
                        self.scopes@[i]@
                    } else {
                        arbitrary()
                    },
            ),
        }
    }
}

pub open spec fn opt_proxy_result_view(r: Result<Option<Proxy>, Error>) -> Result<
    Option<ProxyV>,
    Error,
> {
    match r {
        Ok(Some(p)) => Ok(Some(p@)),
        Ok(None) => Ok(None),
        Err(e) => Err(e),
    }
}

pub open spec fn proxies_result_view(r: Result<Proxies, Error>) -> Result<ProxiesV, Error> {
    match r {
        Ok(p) => Ok(p@),
        Err(e) => Err(e),
    }
}

/// A query result with the configuration replaced by its mathematical image.
pub open spec fn config_result_view(r: Result<ProxyConfig, Error>) -> Result<ConfigV, Error> {
    match r {
        Ok(c) => Ok(c@),
        Err(e) => Err(e),
    }
}

/// The data model's invariant on one endpoint: a proxy that is present has
/// a non-empty host. A proxy missing a field is represented as absent,
/// never as a partially-filled value.
pub open spec fn proxy_well_formed(p: ProxyV) -> bool {
    p.host.len() > 0
}

pub open spec fn opt_proxy_well_formed(o: Option<ProxyV>) -> bool {
    match o {
        Some(p) => proxy_well_formed(p),
        None => true,
    }
}

pub open spec fn proxies_well_formed(p: ProxiesV) -> bool {
    opt_proxy_well_formed(p.http_proxy) && opt_proxy_well_formed(p.https_proxy)
        && opt_proxy_well_formed(p.socks_proxy)
}

pub open spec fn scope_well_formed(s: ScopeV) -> bool {
    proxies_well_formed(s.proxies)
}

/// The data model's invariant on a whole configuration: every present
/// endpoint, global or scoped, has a non-empty host.
pub open spec fn config_well_formed(c: ConfigV) -> bool {
    proxies_well_formed(c.proxies) && forall|i: int|
        0 <= i < c.scopes.len() ==> scope_well_formed(#[trigger] c.scopes[i])
}

/// Why a query for the system proxy configuration failed. Every variant
/// carries, through [`Error::message`], a fixed human-readable text.
#[derive(Debug, Clone, PartialEq)]
pub enum Error {
    /// The running desktop environment is not in the supported family.
    UnsupportedDesktop,
    /// A desktop settings line did not have the `path key value` shape.
    MalformedSetting,
    /// A port value was present but not an unsigned 16-bit decimal number.
    MalformedPort,
    /// The serialized system settings document could not be decoded.
    InvalidDocument,
    /// The native record carried no proxy server string.
    NoProxies,
    /// The native record carried no bypass string.
    NoScopes,
    /// The native proxy-server string began with an empty host token.
    NoHost,
    /// The native record lacked a port token after the host.
    NoPort,
    /// The native call itself reported the given error code.
    NativeApi(u32),
    /// An external collaborator (environment or subprocess) failed; the
    /// captured diagnostic text is kept verbatim.
    External(String),
}

/// The text for a native error code: a small fixed taxonomy plus a catch-all
/// that carries the code in decimal.
pub open spec fn spec_native_api_message(code: u32) -> Seq<char> {
    if code == 1 {
        "No Internet Explorer proxy settings can be found."@
    } else if code == 12004 {
        "An internal error has occurred."@
    } else if code == 8 {
        "Not enough memory was available to complete the requested operation."@
    } else {
        "Unknown error: "@ + text::spec_decimal_digits(code as nat) + "."@
    }
}

impl Error {
    /// The human-readable description of this failure.
    pub open spec fn spec_message(&self) -> Seq<char> {
        match self {
            Error::UnsupportedDesktop => "Unsupported desktop environment"@,
            Error::MalformedSetting => "Malformed settings line"@,
            Error::MalformedPort => "Invalid port number"@,
            Error::InvalidDocument => "The system proxy settings could not be decoded."@,
            Error::NoProxies => "No proxies found."@,
            Error::NoScopes => "No scopes found."@,
            Error::NoHost => "No host found."@,
            Error::NoPort => "No port found."@,
            Error::NativeApi(code) => spec_native_api_message(*code),
            Error::External(detail) => detail@,
        }
    }

    /// Writes the human-readable description of this failure.
    pub fn message(&self) -> (r: String)
        ensures
            r@ == self.spec_message(),
    {
        match self {
            Error::UnsupportedDesktop => String::from_str("Unsupported desktop environment"),
            Error::MalformedSetting => String::from_str("Malformed settings line"),
            Error::MalformedPort => String::from_str("Invalid port number"),
            Error::InvalidDocument => String::from_str(
                "The system proxy settings could not be decoded.",
            ),
            Error::NoProxies => String::from_str("No proxies found."),
            Error::NoScopes => String::from_str("No scopes found."),
            Error::NoHost => String::from_str("No host found."),
            Error::NoPort => String::from_str("No port found."),
            Error::NativeApi(code) => {
                if *code == 1 {
                    String::from_str("No Internet Explorer proxy settings can be found.")
                } else if *code == 12004 {
                    String::from_str("An internal error has occurred.")
                } else if *code == 8 {
                    String::from_str(
                        "Not enough memory was available to complete the requested operation.",
                    )
                } else {
                    let mut m = String::from_str("Unknown error: ");
                    let digits = text::u32_to_decimal(*code);
                    m.append(digits.as_str());
                    m.append(".");
                    m
                }
            },
            Error::External(detail) => detail.clone(),
        }
    }
}

fn clone_opt_string(o: &Option<String>) -> (r: Option<String>)
    ensures
        opt_string_view(r) == opt_string_view(*o),
{
    match o {
        Some(s) => Some(s.clone()),
        None => None,
    }
}

fn clone_proxy(p: &Proxy) -> (r: Proxy)
    ensures
        r@ == p@,
{
    Proxy {
        host: p.host.clone(),
        port: p.port,
        auth: match &p.auth {
            Some(a) => Some(Auth { user: a.user.clone(), password: clone_opt_string(&a.password) }),
            None => None,
        },
        enabled: p.enabled,
    }
}

pub(crate) fn clone_proxies(p: &Proxies) -> (r: Proxies)
    ensures
        r@ == p@,
{
    Proxies {
        http_proxy: match &p.http_proxy {
            Some(x) => Some(clone_proxy(x)),
            None => None,
        },
        https_proxy: match &p.https_proxy {
            Some(x) => Some(clone_proxy(x)),
            None => None,
        },
        socks_proxy: match &p.socks_proxy {
            Some(x) => Some(clone_proxy(x)),
            None => None,
        },
        exclude_simple_host_names: p.exclude_simple_host_names,
    }
}

} // verus!
