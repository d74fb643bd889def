//! Structured-document mapper: turns the system's nested proxy-settings
//! dictionary, serialized to JSON text, into the normalized model.
//!
//! Top-level keys are matched by a prefix-and-suffix convention: for a
//! protocol prefix such as `HTTP`, the keys `HTTPProxy`, `HTTPPort`,
//! `HTTPUser`, `HTTPPassword` and `HTTPEnable` feed that protocol's slot. A
//! slot is filled only when a non-empty host, a port within the unsigned
//! 16-bit range and the enable flag were all present; partial data is
//! dropped silently, never reported. A special `__SCOPED__`
//! map holds one nested document per network interface, each mapped to one
//! scope with its `ExceptionsList` bypass patterns.

use vstd::prelude::*;

use crate::text::{spec_ends_with, str_ends_with, str_equal};
use crate::{
    config_result_view, opt_proxy_view, opt_string_view, AuthV, ConfigV, Error, Proxies, ProxiesV,
    Proxy, ProxyConfig, ProxyV, Scope, ScopeV,
};

verus! {

/// One node of the structured settings document: a string, an unsigned
/// integer, an array, a string-keyed map, or anything else the mapping
/// never reads (null, boolean, negative or fractional numbers).
pub enum Doc {
    Other,
    Int(u64),
    Str(String),
    Arr(Vec<Doc>),
    Obj(Vec<DocEntry>),
}

/// One keyed entry of a document map.
pub struct DocEntry {
    pub key: String,
    pub value: Doc,
}

/// Mathematical image of [`Doc`].
pub enum DocV {
    Other,
    Int(u64),
    Str(Seq<char>),
    Arr(Seq<DocV>),
    Obj(Seq<(Seq<char>, DocV)>),
}

pub open spec fn doc_view(d: Doc) -> DocV
    decreases d,
{
    match d {
        Doc::Other => DocV::Other,
        Doc::Int(n) => DocV::Int(n),
        Doc::Str(s) => DocV::Str(s@),
        Doc::Arr(items) => DocV::Arr(
            Seq::new(
                items@.len(),
                |i: int|
                    if 0 <= i < items@.len() {
                        doc_view(items@[i])
                    } else {
                        DocV::Other
                    },
            ),
        ),
        Doc::Obj(entries) => DocV::Obj(
            Seq::new(
                entries@.len(),
                |i: int|
                    if 0 <= i < entries@.len() {
                        (entries@[i].key@, doc_view(entries@[i].value))
                    } else {
                        (Seq::empty(), DocV::Other)
                    },
            ),
        ),
    }
}

impl View for Doc {
    type V = DocV;

    open spec fn view(&self) -> DocV {
        doc_view(*self)
    }
}

pub open spec fn docv_as_str(d: DocV) -> Option<Seq<char>> {
    match d {
        DocV::Str(s) => Some(s),
        _ => None,
    }
}

pub open spec fn docv_as_u64(d: DocV) -> Option<u64> {
    match d {
        DocV::Int(n) => Some(n),
        _ => None,
    }
}

pub open spec fn docv_entries(d: DocV) -> Option<Seq<(Seq<char>, DocV)>> {
    match d {
        DocV::Obj(es) => Some(es),
        _ => None,
    }
}

/// The first value under `key`, scanning the entries from position `i` on.
pub open spec fn docv_lookup_from(
    entries: Seq<(Seq<char>, DocV)>,
    key: Seq<char>,
    i: int,
) -> Option<DocV>
    decreases entries.len() - i,
{
    if i < 0 || i >= entries.len() {
        None
    } else if entries[i].0 == key {
        Some(entries[i].1)
    } else {
        docv_lookup_from(entries, key, i + 1)
    }
}

/// The value under `key` if `d` is a map holding one; `None` otherwise,
/// so indexing anything but a map yields nothing.
pub open spec fn docv_lookup(d: DocV, key: Seq<char>) -> Option<DocV> {
    match docv_entries(d) {
        Some(es) => docv_lookup_from(es, key, 0),
        None => None,
    }
}

proof fn lemma_lookup_skip(entries: Seq<(Seq<char>, DocV)>, key: Seq<char>, j: int)
    requires
        0 <= j <= entries.len(),
        forall|k: int| 0 <= k < j ==> (#[trigger] entries[k]).0 != key,
    ensures
        docv_lookup_from(entries, key, 0) == docv_lookup_from(entries, key, j),
    decreases j,
{
    if j > 0 {
        lemma_lookup_skip(entries, key, j - 1);
    }
}

/// Whether `key` is `prefix` followed by `suffix`.
pub open spec fn key_with_suffix(key: Seq<char>, suffix: Seq<char>, prefix: Seq<char>) -> bool {
    spec_ends_with(key, suffix) && key.subrange(0, key.len() - suffix.len()) == prefix
}

/// Whether `key` is `prefix` followed by `suffix`, by characters.
fn key_matches(key: &str, suffix: &str, prefix: &str) -> (r: bool)
    ensures
        r == key_with_suffix(key@, suffix@, prefix@),
{
    if !str_ends_with(key, suffix) {
        return false;
    }
    let kn = key.unicode_len();
    let sn = suffix.unicode_len();
    str_equal(key.substring_char(0, kn - sn), prefix)
}

/// The pending fields of one protocol scan over a document's entries.
pub struct MacScanState {
    pub host: Option<Seq<char>>,
    pub port: Option<u16>,
    pub user: Option<Seq<char>>,
    pub password: Option<Seq<char>>,
    pub enabled: Option<bool>,
}

pub open spec fn mac_scan_init() -> MacScanState {
    MacScanState { host: None, port: None, user: None, password: None, enabled: None }
}

/// One entry applied to the scan state: a key of the right shape replaces
/// its field with the permissive reading of the value, so a wrong-typed
/// value -- or a port outside the unsigned 16-bit range -- clears the
/// field rather than failing.
pub open spec fn mac_entry_step(
    prefix: Seq<char>,
    st: MacScanState,
    key: Seq<char>,
    v: DocV,
) -> MacScanState {
    MacScanState {
        host: if key_with_suffix(key, "Proxy"@, prefix) {
            docv_as_str(v)
        } else {
            st.host
        },
        port: if key_with_suffix(key, "Port"@, prefix) {
            match docv_as_u64(v) {
                Some(n) => if n <= 0xffff {
                    Some(n as u16)
                } else {
                    None
                },
                None => None,
            }
        } else {
            st.port
        },
        user: if key_with_suffix(key, "User"@, prefix) {
            docv_as_str(v)
        } else {
            st.user
        },
        password: if key_with_suffix(key, "Password"@, prefix) {
            docv_as_str(v)
        } else {
            st.password
        },
        enabled: if key_with_suffix(key, "Enable"@, prefix) {
            match docv_as_u64(v) {
                Some(n) => Some(n == 1),
                None => None,
            }
        } else {
            st.enabled
        },
    }
}

/// The scan state after the first `i` entries.
pub open spec fn mac_scan(prefix: Seq<char>, entries: Seq<(Seq<char>, DocV)>, i: int) -> MacScanState
    decreases i,
{
    if i <= 0 {
        mac_scan_init()
    } else {
        mac_entry_step(
            prefix,
            mac_scan(prefix, entries, i - 1),
            entries[i - 1].0,
            entries[i - 1].1,
        )
    }
}

/// The proxy endpoint a document yields for `prefix`: only a document that
/// is a map and carries a non-empty host, a port and an enable flag yields
/// one; partial data -- an empty host counts as missing -- yields an
/// absent slot, never a partially-filled endpoint.
pub open spec fn spec_mac_proxy(prefix: Seq<char>, d: DocV) -> Option<ProxyV> {
    match docv_entries(d) {
        None => None,
        Some(entries) => {
            let st = mac_scan(prefix, entries, entries.len() as int);
            let auth = match st.user {
                Some(u) => Some(AuthV { user: u, password: st.password }),
                None => None,
            };
            match (st.host, st.port, st.enabled) {
                (Some(h), Some(p), Some(en)) => if h.len() > 0 {
                    Some(ProxyV { host: h, port: p, auth, enabled: en })
                } else {
                    None
                },
                _ => None,
            }
        },
    }
}

/// The full per-protocol set of one document level: one scan per protocol
/// prefix, and simple host names excluded exactly when the key
/// `ExcludeSimpleHostnames` holds the integer one.
pub open spec fn spec_mac_proxies(d: DocV) -> ProxiesV {
    ProxiesV {
        http_proxy: spec_mac_proxy("HTTP"@, d),
        https_proxy: spec_mac_proxy("HTTPS"@, d),
        socks_proxy: spec_mac_proxy("SOCKS"@, d),
        exclude_simple_host_names: docv_lookup(d, "ExcludeSimpleHostnames"@) == Some(
            DocV::Int(1),
        ),
    }
}

/// The string elements of an array's first `i` entries, in order; other
/// element kinds are passed over.
pub open spec fn exceptions_scan(items: Seq<DocV>, i: int) -> Seq<Seq<char>>
    decreases i,
{
    if i <= 0 {
        Seq::empty()
    } else {
        let prev = exceptions_scan(items, i - 1);
        match items[i - 1] {
            DocV::Str(s) => prev.push(s),
            _ => prev,
        }
    }
}

/// The bypass patterns of one interface document: the strings under its
/// `ExceptionsList` array, or none when the list is absent or not an array.
pub open spec fn spec_scope_exceptions(d: DocV) -> Seq<Seq<char>> {
    match docv_lookup(d, "ExceptionsList"@) {
        Some(DocV::Arr(items)) => exceptions_scan(items, items.len() as int),
        _ => Seq::empty(),
    }
}

/// One scope: the interface name, the proxies of its nested document, and
/// its bypass patterns.
pub open spec fn spec_mac_scope(interface: Seq<char>, d: DocV) -> ScopeV {
    ScopeV { interface, proxies: spec_mac_proxies(d), exceptions: spec_scope_exceptions(d) }
}

/// The scopes of the first `i` entries of the `__SCOPED__` map, in order.
pub open spec fn scopes_scan(entries: Seq<(Seq<char>, DocV)>, i: int) -> Seq<ScopeV>
    decreases i,
{
    if i <= 0 {
        Seq::empty()
    } else {
        scopes_scan(entries, i - 1).push(spec_mac_scope(entries[i - 1].0, entries[i - 1].1))
    }
}

/// The whole configuration of one settings document: the global proxies of
/// its top level, plus one scope per entry of its `__SCOPED__` map.
pub open spec fn spec_mac_config(d: DocV) -> ConfigV {
    ConfigV {
        proxies: spec_mac_proxies(d),
        scopes: match docv_lookup(d, "__SCOPED__"@) {
            Some(DocV::Obj(entries)) => scopes_scan(entries, entries.len() as int),
            _ => Seq::empty(),
        },
    }
}

/// Relies on `serde_json::Value` as the parsed form of the serialized
/// settings; the type is opaque here and only carried into
/// `doc_from_value`.
#[verifier::external_type_specification]
#[verifier::external_body]
pub struct ExValue(serde_json::Value);

/// Relies on `serde_json::Value`'s shape: each node's variant and contents
/// are copied one-for-one into the document model -- strings and unsigned
/// integers as themselves, arrays element by element in order, object
/// entries in the order the backing map iterates them (ascending by key),
/// and every other kind of node as an unreadable leaf. Its behaviour is
/// stated only through the contract of `parse_json_document`.
#[verifier::external_body]
fn doc_from_value(v: &serde_json::Value) -> Doc {
    match v {
        serde_json::Value::String(s) => Doc::Str(s.clone()),
        serde_json::Value::Number(n) => match n.as_u64() {
            Some(u) => Doc::Int(u),
            None => Doc::Other,
        },
        serde_json::Value::Array(items) => Doc::Arr(items.iter().map(doc_from_value).collect()),
        serde_json::Value::Object(map) => Doc::Obj(
            map.iter().map(
                |(k, x)| DocEntry { key: k.clone(), value: doc_from_value(x) },
            ).collect(),
        ),
        _ => Doc::Other,
    }
}

/// The document that the given text parses to, or `None` when it is not
/// well-formed. The name stands for what `serde_json::from_str` followed by
/// the one-for-one copy of `doc_from_value` returns: a function of the text
/// alone.
pub uninterp spec fn parsed_doc(s: Seq<char>) -> Option<DocV>;

/// Relies on `serde_json::from_str`: whether the text parses, and the
/// document it parses to, depend on the text alone, here named
/// `parsed_doc`.
#[verifier::external_body]
fn parse_json_document(s: &str) -> (r: Option<Doc>)
    ensures
        r matches Some(d) ==> parsed_doc(s@) == Some(d@),
        r is Some <==> parsed_doc(s@) is Some,
{
    match serde_json::from_str::<serde_json::Value>(s) {
        Ok(v) => Some(doc_from_value(&v)),
        Err(_) => None,
    }
}

/// The first value under `key` of a map document, by reference.
fn doc_lookup<'a>(value: &'a Doc, key: &str) -> (r: Option<&'a Doc>)
    ensures
        match r {
            Some(f) => docv_lookup(value@, key@) == Some(f@),
            None => docv_lookup(value@, key@) is None,
        },
{
    let entries: &Vec<DocEntry> = match value {
        Doc::Obj(es) => es,
        _ => {
            return None;
        },
    };
    let ghost ev = docv_entries(doc_view(*value))->0;
    let mut j: usize = 0;
    while j < entries.len()
        invariant
            value@ == doc_view(*value),
            docv_entries(doc_view(*value)) == Some(ev),
            ev == docv_entries(doc_view(*value))->0,
            ev.len() == entries@.len(),
            forall|k: int|
                0 <= k < entries@.len() ==> #[trigger] ev[k] == (
                    entries@[k].key@,
                    doc_view(entries@[k].value),
                ),
            0 <= j <= entries@.len(),
            forall|k: int| 0 <= k < j ==> (#[trigger] ev[k]).0 != key@,
        decreases entries@.len() - j,
    {
        if str_equal(entries[j].key.as_str(), key) {
            proof {
                lemma_lookup_skip(ev, key@, j as int);
            }
            return Some(&entries[j].value);
        }
        j = j + 1;
    }
    proof {
        lemma_lookup_skip(ev, key@, entries@.len() as int);
    }
    None
}

impl Proxy {
    /// Scans one document level for the protocol named by `prefix` and
    /// builds its endpoint, if a non-empty host, a port and the enable
    /// flag are all present.
    pub fn from_value(prefix: &str, value: &Doc) -> (r: Option<Proxy>)
        ensures
            opt_proxy_view(r) == spec_mac_proxy(prefix@, value@),
    {
        let entries: &Vec<DocEntry> = match value {
            Doc::Obj(es) => es,
            _ => {
                return None;
            },
        };
        let ghost ev = docv_entries(doc_view(*value))->0;
        let mut host: Option<String> = None;
        let mut port: Option<u16> = None;
        let mut user: Option<String> = None;
        let mut password: Option<String> = None;
        let mut enabled: Option<bool> = None;
        let mut j: usize = 0;
        while j < entries.len()
            invariant
                value@ == doc_view(*value),
                docv_entries(doc_view(*value)) == Some(ev),
                ev.len() == entries@.len(),
                forall|k: int|
                    0 <= k < entries@.len() ==> #[trigger] ev[k] == (
                        entries@[k].key@,
                        doc_view(entries@[k].value),
                    ),
                0 <= j <= entries@.len(),
                mac_scan(prefix@, ev, j as int) == (MacScanState {
                    host: opt_string_view(host),
                    port,
                    user: opt_string_view(user),
                    password: opt_string_view(password),
                    enabled,
                }),
            decreases entries@.len() - j,
        {
            let key = &entries[j].key;
            let v = &entries[j].value;
            if key_matches(key.as_str(), "Proxy", prefix) {
                host = match v {
                    Doc::Str(s) => Some(s.clone()),
                    _ => None,
                };
            }
            if key_matches(key.as_str(), "Port", prefix) {
                port = match v {
                    Doc::Int(n) => {
                        if *n <= 0xffff {
                            Some(*n as u16)
                        } else {
                            None
                        }
                    },
                    _ => None,
                };
            }
            if key_matches(key.as_str(), "User", prefix) {
                user = match v {
                    Doc::Str(s) => Some(s.clone()),
                    _ => None,
                };
            }
            if key_matches(key.as_str(), "Password", prefix) {
                password = match v {
                    Doc::Str(s) => Some(s.clone()),
                    _ => None,
                };
            }
            if key_matches(key.as_str(), "Enable", prefix) {
                enabled = match v {
                    Doc::Int(n) => Some(*n == 1),
                    _ => None,
                };
            }
            proof {
                assert(ev[j as int] == (
                    entries@[j as int].key@,
                    doc_view(entries@[j as int].value),
                ));
                assert(mac_scan(prefix@, ev, j as int + 1) == (MacScanState {
                    host: opt_string_view(host),
                    port,
                    user: opt_string_view(user),
                    password: opt_string_view(password),
                    enabled,
                }));
            }
            j = j + 1;
        }
        let auth: Option<crate::Auth> = match user {
            Some(u) => Some(crate::Auth { user: u, password }),
            None => None,
        };
        match (host, port, enabled) {
            (Some(h), Some(p), Some(en)) => {
                if h.as_str().is_empty() {
                    None
                } else {
                    Some(Proxy { host: h, port: p, auth, enabled: en })
                }
            },
            _ => None,
        }
    }
}

impl Proxies {
    /// Reads the per-protocol set of one document level.
    pub fn from_value(value: &Doc) -> (r: Proxies)
        ensures
            r@ == spec_mac_proxies(value@),
    {
        let exclude: bool = match doc_lookup(value, "ExcludeSimpleHostnames") {
            Some(f) => match f {
                Doc::Int(n) => *n == 1,
                _ => false,
            },
            None => false,
        };
        Proxies {
            http_proxy: Proxy::from_value("HTTP", value),
            https_proxy: Proxy::from_value("HTTPS", value),
            socks_proxy: Proxy::from_value("SOCKS", value),
            exclude_simple_host_names: exclude,
        }
    }
}

impl Scope {
    /// Reads one interface's nested document into a scope; a missing or
    /// wrong-typed `ExceptionsList` yields an empty pattern list, and its
    /// entries that are not strings are passed over.
    pub fn from_value(interface: &str, value: &Doc) -> (r: Scope)
        ensures
            r@ == spec_mac_scope(interface@, value@),
    {
        let proxies = Proxies::from_value(value);
        let mut exceptions: Vec<String> = Vec::new();
        match doc_lookup(value, "ExceptionsList") {
            Some(f) => {
                match f {
                    Doc::Arr(items) => {
                        let ghost iv = match doc_view(*f) {
                            DocV::Arr(s) => s,
                            _ => Seq::empty(),
                        };
                        let mut j: usize = 0;
                        while j < items.len()
                            invariant
                                doc_view(*f) == DocV::Arr(iv),
                                iv.len() == items@.len(),
                                forall|k: int|
                                    0 <= k < items@.len() ==> #[trigger] iv[k] == doc_view(
                                        items@[k],
                                    ),
                                0 <= j <= items@.len(),
                                exceptions@.len() == exceptions_scan(iv, j as int).len(),
                                forall|k: int|
                                    0 <= k < exceptions@.len()
                                        ==> #[trigger] exceptions@[k]@ == exceptions_scan(
                                        iv,
                                        j as int,
                                    )[k],
                            decreases items@.len() - j,
                        {
                            match &items[j] {
                                Doc::Str(s) => {
                                    exceptions.push(s.clone());
                                },
                                _ => {},
                            }
                            j = j + 1;
                        }
                    },
                    _ => {},
                }
            },
            None => {},
        }
        let r = Scope { interface: String::from_str(interface), proxies, exceptions };
        proof {
            assert(r@.exceptions =~= spec_scope_exceptions(doc_view(*value)));
        }
        r
    }
}

/// The configuration of the whole settings document.
impl ProxyConfig {
    /// Reads the whole settings document: global proxies from the top
    /// level, one scope per entry of the `__SCOPED__` map.
    pub fn from_value(value: &Doc) -> (r: ProxyConfig)
        ensures
            r@ == spec_mac_config(value@),
    {
        let proxies = Proxies::from_value(value);
        let mut scopes: Vec<Scope> = Vec::new();
        match doc_lookup(value, "__SCOPED__") {
            Some(f) => {
                match f {
                    Doc::Obj(entries) => {
                        let ghost sev = docv_entries(doc_view(*f))->0;
                        let mut j: usize = 0;
                        while j < entries.len()
                            invariant
                                docv_entries(doc_view(*f)) == Some(sev),
                                sev.len() == entries@.len(),
                                forall|k: int|
                                    0 <= k < entries@.len() ==> #[trigger] sev[k] == (
                                        entries@[k].key@,
                                        doc_view(entries@[k].value),
                                    ),
                                0 <= j <= entries@.len(),
                                scopes@.len() == j,
                                scopes_scan(sev, j as int).len() == j,
                                forall|k: int|
                                    0 <= k < j ==> #[trigger] scopes@[k]@ == scopes_scan(
                                        sev,
                                        j as int,
                                    )[k],
                            decreases entries@.len() - j,
                        {
                            let scope = Scope::from_value(
                                entries[j].key.as_str(),
                                &entries[j].value,
                            );
                            scopes.push(scope);
                            proof {
                                assert(sev[j as int] == (
                                    entries@[j as int].key@,
                                    doc_view(entries@[j as int].value),
                                ));
                            }
                            j = j + 1;
                        }
                    },
                    _ => {},
                }
            },
            None => {},
        }
        let r = ProxyConfig { proxies, scopes };
        proof {
            assert(r@.scopes =~= spec_mac_config(doc_view(*value)).scopes);
        }
        r
    }
}

/// The configuration that one serialized settings snapshot yields: only a
/// text that fails to decode fails the query; everything else is read
/// permissively.
pub open spec fn spec_system_config(s: Seq<char>) -> Result<ConfigV, Error> {
    match parsed_doc(s) {
        None => Err(Error::InvalidDocument),
        Some(d) => Ok(spec_mac_config(d)),
    }
}

impl ProxyConfig {
    /// Maps one serialized settings snapshot, as the system's JSON-producing
    /// facility writes it.
    pub fn from_system_json(text: &str) -> (r: Result<ProxyConfig, Error>)
        ensures
            config_result_view(r) == spec_system_config(text@),
    {
        match parse_json_document(text) {
            None => Err(Error::InvalidDocument),
            Some(doc) => Ok(ProxyConfig::from_value(&doc)),
        }
    }
}

/// One protocol scan never yields a present endpoint with an empty host.
proof fn lemma_mac_proxies_well_formed(d: DocV)
    ensures
        crate::proxies_well_formed(spec_mac_proxies(d)),
{
}

/// Every scope of the `__SCOPED__` map carries a well-formed proxy set.
proof fn lemma_scopes_scan_well_formed(entries: Seq<(Seq<char>, DocV)>, i: int)
    ensures
        forall|k: int|
            0 <= k < scopes_scan(entries, i).len() ==> crate::scope_well_formed(
                #[trigger] scopes_scan(entries, i)[k],
            ),
    decreases i,
{
    if i > 0 {
        lemma_scopes_scan_well_formed(entries, i - 1);
        lemma_mac_proxies_well_formed(entries[i - 1].1);
        let prev = scopes_scan(entries, i - 1);
        let cur = scopes_scan(entries, i);
        assert forall|k: int| 0 <= k < cur.len() implies crate::scope_well_formed(cur[k]) by {
            if k < prev.len() {
                assert(cur[k] == prev[k]);
            } else {
                assert(cur[k] == spec_mac_scope(entries[i - 1].0, entries[i - 1].1));
            }
        }
    }
}

/// Law: the data model's invariant holds of every configuration this
/// mapper returns -- each present endpoint, global or scoped, has a
/// non-empty host.
pub proof fn lemma_system_well_formed(text: Seq<char>)
    ensures
        spec_system_config(text) matches Ok(c) ==> crate::config_well_formed(c),
{
    match parsed_doc(text) {
        Some(d) => {
            lemma_mac_proxies_well_formed(d);
            match docv_lookup(d, "__SCOPED__"@) {
                Some(DocV::Obj(entries)) => {
                    lemma_scopes_scan_well_formed(entries, entries.len() as int);
                },
                _ => {},
            }
        },
        None => {},
    }
}

/// Law: only a snapshot that fails to decode fails the query; every decoded
/// document yields a configuration, however partial its fields, and the
/// failure is always the decode error.
pub proof fn lemma_system_success_condition(text: Seq<char>)
    ensures
        spec_system_config(text) is Ok <==> parsed_doc(text) is Some,
        spec_system_config(text) is Err ==> spec_system_config(text) == Err::<ConfigV, Error>(
            Error::InvalidDocument,
        ),
{
}

/// Law: the document mapping is a pure function of the serialized snapshot.
/// Two queries over one unchanged snapshot yield structurally equal results.
pub proof fn lemma_system_mapping_idempotent(
    text: Seq<char>,
    r1: Result<ProxyConfig, Error>,
    r2: Result<ProxyConfig, Error>,
)
    requires
        config_result_view(r1) == spec_system_config(text),
        config_result_view(r2) == spec_system_config(text),
    ensures
        config_result_view(r1) == config_result_view(r2),
{
}

} // verus!
