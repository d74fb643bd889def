//! Desktop-settings mapper: turns line-oriented `path key value` triples, as
//! a desktop settings store lists them, into the normalized proxy model.
//!
//! The desktop environment identifier must belong to the supported family
//! (its lowercased form must contain `"gnome"`); anything else fails the
//! whole query. A malformed port value is likewise fatal, while a protocol
//! with no port, no host or an empty host simply yields an absent slot.
//! Authentication is
//! detected globally: once a `use-authentication true` triple has been seen,
//! later `user` and `password` keys feed the pending credentials of every
//! protocol scan.

use vstd::prelude::*;

use crate::text::{
    spec_contains, spec_ends_with, spec_lines, spec_parse_u16, spec_remove_char, spec_split,
    split_lines, split_str, str_contains, str_ends_with, str_equal, parse_u16, remove_char,
};
use crate::{
    opt_proxy_result_view, opt_string_view, proxies_result_view, AuthV, ConfigV, Error, Proxies,
    ProxiesV, Proxy, ProxyConfig, ProxyV,
};

verus! {

/// The lowercased form of a character sequence.
///
/// The name stands for what `str::to_lowercase` returns: the result depends
/// on the input characters alone.
pub uninterp spec fn lower_of(s: Seq<char>) -> Seq<char>;

/// Relies on `str::to_lowercase`: the result is a function of the input
/// characters alone, here named `lower_of`.
#[verifier::external_body]
fn to_lowercase(s: &str) -> (r: String)
    ensures
        r@ == lower_of(s@),
{
    s.to_lowercase()
}

/// Whether the desktop identifier names a supported desktop family.
pub open spec fn spec_supported_desktop(desktop: Seq<char>) -> bool {
    spec_contains(lower_of(desktop), "gnome"@)
}

/// Whether the desktop identifier names a supported desktop family; only
/// those whose lowercased identifier contains `"gnome"` are.
pub fn is_supported_desktop(desktop: &str) -> (r: bool)
    ensures
        r == spec_supported_desktop(desktop@),
{
    let lower = to_lowercase(desktop);
    str_contains(lower.as_str(), "gnome")
}

/// The pending fields of one protocol scan over the settings triples.
pub struct GnomeScanState {
    pub host: Option<Seq<char>>,
    pub port: Option<u16>,
    pub user: Option<Seq<char>>,
    pub password: Option<Seq<char>>,
    pub use_auth: bool,
}

pub open spec fn gnome_scan_init() -> GnomeScanState {
    GnomeScanState { host: None, port: None, user: None, password: None, use_auth: false }
}

/// One settings line applied to the scan state. A line that does not split
/// into at least `path key value` is malformed; so is a port value for the
/// scanned protocol that is not an unsigned 16-bit decimal number.
pub open spec fn gnome_line_step(prefix: Seq<char>, st: GnomeScanState, line: Seq<char>) -> Result<
    GnomeScanState,
    Error,
> {
    let toks = spec_split(line, ' ');
    if toks.len() < 3 {
        Err(Error::MalformedSetting)
    } else {
        let path = toks[0];
        let key = toks[1];
        let value = toks[2];
        if spec_ends_with(path, prefix) && key == "port"@ && spec_parse_u16(value) is None {
            Err(Error::MalformedPort)
        } else {
            let host = if spec_ends_with(path, prefix) && key == "host"@ {
                Some(spec_remove_char(value, '\''))
            } else {
                st.host
            };
            let port = if spec_ends_with(path, prefix) && key == "port"@ {
                spec_parse_u16(value)
            } else {
                st.port
            };
            let use_auth = st.use_auth || (key == "use-authentication"@ && value == "true"@);
            let user = if use_auth && spec_ends_with(key, "user"@) {
                Some(value)
            } else {
                st.user
            };
            let password = if use_auth && spec_ends_with(key, "password"@) {
                Some(value)
            } else {
                st.password
            };
            Ok(GnomeScanState { host, port, user, password, use_auth })
        }
    }
}

/// The scan state after the first `i` settings lines, or the first error.
pub open spec fn gnome_scan(prefix: Seq<char>, lines: Seq<Seq<char>>, i: int) -> Result<
    GnomeScanState,
    Error,
>
    decreases i,
{
    if i <= 0 {
        Ok(gnome_scan_init())
    } else {
        match gnome_scan(prefix, lines, i - 1) {
            Ok(st) => gnome_line_step(prefix, st, lines[i - 1]),
            Err(e) => Err(e),
        }
    }
}

/// An error in the scan persists to every later point of it.
proof fn lemma_gnome_scan_err(prefix: Seq<char>, lines: Seq<Seq<char>>, i: int, j: int)
    requires
        0 <= i <= j,
        gnome_scan(prefix, lines, i) is Err,
    ensures
        gnome_scan(prefix, lines, j) == gnome_scan(prefix, lines, i),
    decreases j - i,
{
    if i < j {
        lemma_gnome_scan_err(prefix, lines, i, j - 1);
    }
}

/// The proxy endpoint that a full scan of `lines` yields for `prefix`: a
/// non-empty host and a port make an enabled endpoint, credentials only
/// when authentication was switched on and a user was seen. An endpoint
/// missing either field -- an empty host counts as missing -- is absent,
/// never partially filled.
pub open spec fn spec_gnome_proxy(prefix: Seq<char>, lines: Seq<Seq<char>>) -> Result<
    Option<ProxyV>,
    Error,
> {
    match gnome_scan(prefix, lines, lines.len() as int) {
        Err(e) => Err(e),
        Ok(st) => {
            let auth = match (st.use_auth, st.user) {
                (true, Some(u)) => Some(AuthV { user: u, password: st.password }),
                _ => None,
            };
            match (st.host, st.port) {
                (Some(h), Some(p)) => if h.len() > 0 {
                    Ok(Some(ProxyV { host: h, port: p, auth, enabled: true }))
                } else {
                    Ok(None)
                },
                _ => Ok(None),
            }
        },
    }
}

/// The full per-protocol set that the settings triples yield: one scan per
/// protocol, simple host names always excluded.
pub open spec fn spec_gnome_proxies(lines: Seq<Seq<char>>) -> Result<ProxiesV, Error> {
    match spec_gnome_proxy("http"@, lines) {
        Err(e) => Err(e),
        Ok(http_proxy) => match spec_gnome_proxy("https"@, lines) {
            Err(e) => Err(e),
            Ok(https_proxy) => match spec_gnome_proxy("socks"@, lines) {
                Err(e) => Err(e),
                Ok(socks_proxy) => Ok(
                    ProxiesV {
                        http_proxy,
                        https_proxy,
                        socks_proxy,
                        exclude_simple_host_names: true,
                    },
                ),
            },
        },
    }
}

impl Proxy {
    /// Scans the settings triples once for the protocol named by `prefix`
    /// and builds its endpoint, if a non-empty host and a port are both
    /// set.
    pub fn from_gnome_settings(prefix: &str, settings: &Vec<String>) -> (r: Result<
        Option<Proxy>,
        Error,
    >)
        ensures
            opt_proxy_result_view(r) == spec_gnome_proxy(prefix@, settings.deep_view()),
    {
        let ghost lines = settings.deep_view();
        let mut host: Option<String> = None;
        let mut port: Option<u16> = None;
        let mut user: Option<String> = None;
        let mut password: Option<String> = None;
        let mut use_auth: bool = false;
        let mut i: usize = 0;
        while i < settings.len()
            invariant
                lines == settings.deep_view(),
                0 <= i <= settings.len(),
                gnome_scan(prefix@, lines, i as int) == Ok::<GnomeScanState, Error>(
                    GnomeScanState {
                        host: opt_string_view(host),
                        port,
                        user: opt_string_view(user),
                        password: opt_string_view(password),
                        use_auth,
                    },
                ),
            decreases settings.len() - i,
        {
            let ghost st_old = GnomeScanState {
                host: opt_string_view(host),
                port,
                user: opt_string_view(user),
                password: opt_string_view(password),
                use_auth,
            };
            let line = &settings[i];
            proof {
                assert(lines[i as int] == line@);
            }
            let toks = split_str(line.as_str(), ' ');
            if toks.len() < 3 {
                proof {
                    lemma_gnome_scan_err(prefix@, lines, i as int + 1, lines.len() as int);
                }
                return Err(Error::MalformedSetting);
            }
            let path_matches = str_ends_with(toks[0].as_str(), prefix);
            proof {
                assert(toks.deep_view()[0] == toks@[0]@);
                assert(toks.deep_view()[1] == toks@[1]@);
                assert(toks.deep_view()[2] == toks@[2]@);
            }
            if path_matches && str_equal(toks[1].as_str(), "host") {
                host = Some(remove_char(toks[2].as_str(), '\''));
            }
            if path_matches && str_equal(toks[1].as_str(), "port") {
                match parse_u16(toks[2].as_str()) {
                    Some(p) => {
                        port = Some(p);
                    },
                    None => {
                        proof {
                            lemma_gnome_scan_err(prefix@, lines, i as int + 1, lines.len() as int);
                        }
                        return Err(Error::MalformedPort);
                    },
                }
            }
            if str_equal(toks[1].as_str(), "use-authentication") && str_equal(
                toks[2].as_str(),
                "true",
            ) {
                use_auth = true;
            }
            if use_auth && str_ends_with(toks[1].as_str(), "user") {
                user = Some(toks[2].clone());
            }
            if use_auth && str_ends_with(toks[1].as_str(), "password") {
                password = Some(toks[2].clone());
            }
            proof {
                assert(gnome_line_step(prefix@, st_old, lines[i as int]) == Ok::<
                    GnomeScanState,
                    Error,
                >(
                    GnomeScanState {
                        host: opt_string_view(host),
                        port,
                        user: opt_string_view(user),
                        password: opt_string_view(password),
                        use_auth,
                    },
                ));
            }
            i = i + 1;
        }
        let auth: Option<crate::Auth> = if use_auth {
            match user {
                Some(u) => Some(crate::Auth { user: u, password }),
                None => None,
            }
        } else {
            None
        };
        match (host, port) {
            (Some(h), Some(p)) => {
                if h.as_str().is_empty() {
                    Ok(None)
                } else {
                    Ok(Some(Proxy { host: h, port: p, auth, enabled: true }))
                }
            },
            _ => Ok(None),
        }
    }
}

/// Conversion from one full listing of the desktop settings store.
pub trait FromGnomeSettings: Sized {
    type This;

    /// What holds of the finished conversion.
    spec fn from_gnome_post(settings: Seq<Seq<char>>, r: Result<Self::This, Error>) -> bool;

    /// Builds `This` from the settings triples, one line per entry.
    fn from_gnome_settings(settings: &Vec<String>) -> (r: Result<Self::This, Error>)
        ensures
            Self::from_gnome_post(settings.deep_view(), r),
    ;
}

impl FromGnomeSettings for Proxies {
    type This = Proxies;

    open spec fn from_gnome_post(settings: Seq<Seq<char>>, r: Result<Proxies, Error>) -> bool {
        proxies_result_view(r) == spec_gnome_proxies(settings)
    }

    /// One scan per protocol; simple host names are always excluded, since
    /// the settings store exposes no switch for them.
    fn from_gnome_settings(settings: &Vec<String>) -> (r: Result<Proxies, Error>) {
        let http_proxy = match Proxy::from_gnome_settings("http", settings) {
            Ok(p) => p,
            Err(e) => {
                return Err(e);
            },
        };
        let https_proxy = match Proxy::from_gnome_settings("https", settings) {
            Ok(p) => p,
            Err(e) => {
                return Err(e);
            },
        };
        let socks_proxy = match Proxy::from_gnome_settings("socks", settings) {
            Ok(p) => p,
            Err(e) => {
                return Err(e);
            },
        };
        Ok(Proxies { http_proxy, https_proxy, socks_proxy, exclude_simple_host_names: true })
    }
}

/// The configuration that one desktop snapshot yields: an unsupported
/// desktop identifier fails before any triple is read, and this platform
/// never produces scoped overrides.
pub open spec fn spec_desktop_config(desktop: Seq<char>, settings: Seq<char>) -> Result<
    ConfigV,
    Error,
> {
    if !spec_supported_desktop(desktop) {
        Err(Error::UnsupportedDesktop)
    } else {
        match spec_gnome_proxies(spec_lines(settings)) {
            Err(e) => Err(e),
            Ok(proxies) => Ok(ConfigV { proxies, scopes: Seq::empty() }),
        }
    }
}

impl ProxyConfig {
    /// Maps one desktop-settings snapshot: `desktop` identifies the running
    /// desktop session, `settings` is the store's line-oriented listing.
    pub fn from_desktop_settings(desktop: &str, settings: &str) -> (r: Result<ProxyConfig, Error>)
        ensures
            crate::config_result_view(r) == spec_desktop_config(desktop@, settings@),
    {
        if !is_supported_desktop(desktop) {
            return Err(Error::UnsupportedDesktop);
        }
        let lines = split_lines(settings);
        match Proxies::from_gnome_settings(&lines) {
            Err(e) => Err(e),
            Ok(proxies) => {
                let r = Ok(ProxyConfig { proxies, scopes: Vec::new() });
                proof {
                    assert(crate::config_result_view(r) matches Ok(c) ==> c.scopes
                        =~= Seq::<crate::ScopeV>::empty());
                }
                r
            },
        }
    }
}

/// The scan can only fail for a malformed triple or a malformed port.
proof fn lemma_gnome_scan_errors(prefix: Seq<char>, lines: Seq<Seq<char>>, i: int)
    ensures
        gnome_scan(prefix, lines, i) matches Err(e) ==> e == Error::MalformedSetting || e
            == Error::MalformedPort,
    decreases i,
{
    if i > 0 {
        lemma_gnome_scan_errors(prefix, lines, i - 1);
    }
}

/// Law: an unsupported desktop identifier fails the whole query with the
/// unsupported-environment error, whatever the settings listing holds --
/// no triple is ever read for it. A supported one fails only for a
/// malformed triple or port value, never for missing settings.
pub proof fn lemma_desktop_gate(desktop: Seq<char>, settings: Seq<char>)
    ensures
        !spec_supported_desktop(desktop) ==> spec_desktop_config(desktop, settings) == Err::<
            ConfigV,
            Error,
        >(Error::UnsupportedDesktop),
        spec_supported_desktop(desktop) ==> spec_desktop_config(desktop, settings) != Err::<
            ConfigV,
            Error,
        >(Error::UnsupportedDesktop),
        spec_desktop_config(desktop, settings) is Ok <==> (spec_supported_desktop(desktop)
            && spec_gnome_proxies(spec_lines(settings)) is Ok),
{
    let lines = spec_lines(settings);
    lemma_gnome_scan_errors("http"@, lines, lines.len() as int);
    lemma_gnome_scan_errors("https"@, lines, lines.len() as int);
    lemma_gnome_scan_errors("socks"@, lines, lines.len() as int);
}

/// Law: a desktop configuration never carries scoped overrides, and its
/// proxy set always excludes simple host names.
pub proof fn lemma_desktop_shape(desktop: Seq<char>, settings: Seq<char>)
    ensures
        spec_desktop_config(desktop, settings) matches Ok(c) ==> c.scopes.len() == 0
            && c.proxies.exclude_simple_host_names,
{
}

/// One protocol scan never yields a present endpoint with an empty host.
proof fn lemma_gnome_proxy_well_formed(prefix: Seq<char>, lines: Seq<Seq<char>>)
    ensures
        spec_gnome_proxy(prefix, lines) matches Ok(op) ==> crate::opt_proxy_well_formed(op),
{
}

/// Law: the data model's invariant holds of every configuration this
/// mapper returns -- each present endpoint has a non-empty host.
pub proof fn lemma_desktop_well_formed(desktop: Seq<char>, settings: Seq<char>)
    ensures
        spec_desktop_config(desktop, settings) matches Ok(c) ==> crate::config_well_formed(c),
{
    let lines = spec_lines(settings);
    lemma_gnome_proxy_well_formed("http"@, lines);
    lemma_gnome_proxy_well_formed("https"@, lines);
    lemma_gnome_proxy_well_formed("socks"@, lines);
}

/// Law: the desktop mapping is a pure function of its snapshot. Two queries
/// over one unchanged desktop identifier and settings listing yield
/// structurally equal results.
pub proof fn lemma_desktop_mapping_idempotent(
    desktop: Seq<char>,
    settings: Seq<char>,
    r1: Result<ProxyConfig, Error>,
    r2: Result<ProxyConfig, Error>,
)
    requires
        crate::config_result_view(r1) == spec_desktop_config(desktop, settings),
        crate::config_result_view(r2) == spec_desktop_config(desktop, settings),
    ensures
        crate::config_result_view(r1) == crate::config_result_view(r2),
{
}

} // verus!
