use proxycfg::linux_desktop::{is_supported_desktop, FromGnomeSettings};
use proxycfg::macos_cfnetwork::{Doc, DocEntry};
use proxycfg::{Error, Proxies, Proxy, ProxyConfig};

fn entry(key: &str, value: Doc) -> DocEntry {
    DocEntry { key: key.to_string(), value }
}

fn str_doc(s: &str) -> Doc {
    Doc::Str(s.to_string())
}

#[test]
fn mac_http_only_document() {
    let doc = Doc::Obj(vec![
        entry("HTTPProxy", str_doc("h")),
        entry("HTTPPort", Doc::Int(8080)),
        entry("HTTPEnable", Doc::Int(1)),
    ]);
    let proxies = Proxies::from_value(&doc);
    let http = proxies.http_proxy.expect("http slot should be filled");
    assert_eq!(http.host, "h");
    assert_eq!(http.port, 8080);
    assert!(http.auth.is_none());
    assert!(http.enabled);
    assert!(proxies.https_proxy.is_none());
    assert!(proxies.socks_proxy.is_none());
    assert!(!proxies.exclude_simple_host_names);
}

#[test]
fn mac_missing_enable_drops_protocol() {
    let doc = Doc::Obj(vec![
        entry("HTTPProxy", str_doc("h")),
        entry("HTTPPort", Doc::Int(8080)),
    ]);
    let proxies = Proxies::from_value(&doc);
    assert!(proxies.http_proxy.is_none());
}

#[test]
fn mac_enable_zero_keeps_disabled_endpoint() {
    let doc = Doc::Obj(vec![
        entry("HTTPSProxy", str_doc("s")),
        entry("HTTPSPort", Doc::Int(443)),
        entry("HTTPSEnable", Doc::Int(0)),
    ]);
    let proxies = Proxies::from_value(&doc);
    let https = proxies.https_proxy.expect("https slot should be filled");
    assert!(!https.enabled);
    assert!(proxies.http_proxy.is_none());
}

#[test]
fn mac_credentials_become_auth() {
    let doc = Doc::Obj(vec![
        entry("SOCKSProxy", str_doc("sock")),
        entry("SOCKSPort", Doc::Int(1080)),
        entry("SOCKSEnable", Doc::Int(1)),
        entry("SOCKSUser", str_doc("u")),
        entry("SOCKSPassword", str_doc("pw")),
    ]);
    let proxies = Proxies::from_value(&doc);
    let socks = proxies.socks_proxy.expect("socks slot should be filled");
    let auth = socks.auth.expect("credentials should be kept");
    assert_eq!(auth.user, "u");
    assert_eq!(auth.password.as_deref(), Some("pw"));
}

#[test]
fn mac_prefix_must_match_exactly() {
    // HTTPSProxy must not feed the HTTP slot, nor HTTPProxy the HTTPS one.
    let doc = Doc::Obj(vec![
        entry("HTTPSProxy", str_doc("s")),
        entry("HTTPSPort", Doc::Int(443)),
        entry("HTTPSEnable", Doc::Int(1)),
    ]);
    let proxies = Proxies::from_value(&doc);
    assert!(proxies.http_proxy.is_none());
    assert!(proxies.https_proxy.is_some());
}

#[test]
fn mac_wrong_typed_port_drops_protocol() {
    let doc = Doc::Obj(vec![
        entry("HTTPProxy", str_doc("h")),
        entry("HTTPPort", str_doc("8080")),
        entry("HTTPEnable", Doc::Int(1)),
    ]);
    let proxies = Proxies::from_value(&doc);
    assert!(proxies.http_proxy.is_none());
}

#[test]
fn mac_out_of_range_port_drops_protocol() {
    // A port is kept only when it parses as an unsigned 16-bit integer;
    // a document integer beyond that range counts as missing.
    let doc = Doc::Obj(vec![
        entry("HTTPProxy", str_doc("h")),
        entry("HTTPPort", Doc::Int(70000)),
        entry("HTTPEnable", Doc::Int(1)),
    ]);
    assert!(Proxies::from_value(&doc).http_proxy.is_none());
    let doc2 = Doc::Obj(vec![
        entry("HTTPProxy", str_doc("h")),
        entry("HTTPPort", Doc::Int(65535)),
        entry("HTTPEnable", Doc::Int(1)),
    ]);
    assert_eq!(Proxies::from_value(&doc2).http_proxy.expect("slot filled").port, 65535);
}

#[test]
fn mac_empty_host_drops_protocol() {
    // A present proxy always has a non-empty host; an empty host string
    // counts as missing.
    let doc = Doc::Obj(vec![
        entry("HTTPProxy", str_doc("")),
        entry("HTTPPort", Doc::Int(8080)),
        entry("HTTPEnable", Doc::Int(1)),
    ]);
    assert!(Proxies::from_value(&doc).http_proxy.is_none());
}

#[test]
fn mac_exclude_simple_hostnames_needs_exact_one() {
    let doc = Doc::Obj(vec![entry("ExcludeSimpleHostnames", Doc::Int(1))]);
    assert!(Proxies::from_value(&doc).exclude_simple_host_names);
    let doc2 = Doc::Obj(vec![entry("ExcludeSimpleHostnames", Doc::Int(2))]);
    assert!(!Proxies::from_value(&doc2).exclude_simple_host_names);
    let doc3 = Doc::Obj(vec![entry("ExcludeSimpleHostnames", str_doc("1"))]);
    assert!(!Proxies::from_value(&doc3).exclude_simple_host_names);
}

#[test]
fn mac_full_json_snapshot() {
    let text = "{\"HTTPProxy\":\"h\",\"HTTPPort\":8080,\"HTTPEnable\":1,\
                \"ExcludeSimpleHostnames\":1,\
                \"__SCOPED__\":{\"en0\":{\
                \"HTTPProxy\":\"sh\",\"HTTPPort\":9090,\"HTTPEnable\":1,\
                \"ExceptionsList\":[\"*.local\",\"169.254/16\"]}}}";
    let config = ProxyConfig::from_system_json(text).expect("snapshot should map");
    let http = config.proxies.http_proxy.expect("http slot should be filled");
    assert_eq!(http.host, "h");
    assert_eq!(http.port, 8080);
    assert!(config.proxies.exclude_simple_host_names);
    assert_eq!(config.scopes.len(), 1);
    let scope = &config.scopes[0];
    assert_eq!(scope.interface, "en0");
    let scoped_http = scope.proxies.http_proxy.as_ref().expect("scoped http");
    assert_eq!(scoped_http.host, "sh");
    assert_eq!(scoped_http.port, 9090);
    assert_eq!(scope.exceptions, vec!["*.local".to_string(), "169.254/16".to_string()]);
}

#[test]
fn mac_scope_without_exceptions_list_is_kept_empty() {
    let text = "{\"__SCOPED__\":{\"en1\":{\"HTTPEnable\":0}}}";
    let config = ProxyConfig::from_system_json(text).expect("snapshot should map");
    assert_eq!(config.scopes.len(), 1);
    assert_eq!(config.scopes[0].interface, "en1");
    assert!(config.scopes[0].exceptions.is_empty());
}

#[test]
fn mac_undecodable_text_fails() {
    let r = ProxyConfig::from_system_json("{not json");
    assert_eq!(r, Err(Error::InvalidDocument));
    assert_eq!(
        Error::InvalidDocument.message(),
        "The system proxy settings could not be decoded."
    );
}

#[test]
fn mac_mapping_is_idempotent() {
    let text = "{\"HTTPProxy\":\"h\",\"HTTPPort\":8080,\"HTTPEnable\":1}";
    let first = ProxyConfig::from_system_json(text);
    let second = ProxyConfig::from_system_json(text);
    assert_eq!(first, second);
}

#[test]
fn gnome_host_and_port_make_a_proxy() {
    let lines: Vec<String> = vec![
        "/org/gnome/system/proxy/http host 'proxy.local'".to_string(),
        "/org/gnome/system/proxy/http port 3128".to_string(),
    ];
    let r = Proxy::from_gnome_settings("http", &lines).expect("scan should succeed");
    let p = r.expect("http slot should be filled");
    assert_eq!(p.host, "proxy.local");
    assert_eq!(p.port, 3128);
    assert!(p.auth.is_none());
    assert!(p.enabled);
}

#[test]
fn gnome_non_numeric_port_fails_the_call() {
    let lines: Vec<String> = vec![
        "/org/gnome/system/proxy/http host 'proxy.local'".to_string(),
        "/org/gnome/system/proxy/http port abc".to_string(),
    ];
    assert_eq!(Proxy::from_gnome_settings("http", &lines), Err(Error::MalformedPort));
    let text = "/org/gnome/system/proxy/http host 'proxy.local'\n\
                /org/gnome/system/proxy/http port abc\n";
    assert_eq!(
        ProxyConfig::from_desktop_settings("GNOME", text),
        Err(Error::MalformedPort)
    );
}

#[test]
fn gnome_missing_host_leaves_slot_empty() {
    let lines: Vec<String> = vec!["/org/gnome/system/proxy/http port 3128".to_string()];
    assert_eq!(Proxy::from_gnome_settings("http", &lines), Ok(None));
}

#[test]
fn gnome_empty_host_leaves_slot_empty() {
    // A host of '' strips to nothing, and a present proxy always has a
    // non-empty host.
    let lines: Vec<String> = vec![
        "/org/gnome/system/proxy/http host ''".to_string(),
        "/org/gnome/system/proxy/http port 3128".to_string(),
    ];
    assert_eq!(Proxy::from_gnome_settings("http", &lines), Ok(None));
}

#[test]
fn gnome_proxies_scan_all_protocols() {
    let lines: Vec<String> = vec![
        "/org/gnome/system/proxy/http host 'h'".to_string(),
        "/org/gnome/system/proxy/http port 81".to_string(),
        "/org/gnome/system/proxy/https host 'hs'".to_string(),
        "/org/gnome/system/proxy/https port 444".to_string(),
        "/org/gnome/system/proxy/socks host 'sk'".to_string(),
        "/org/gnome/system/proxy/socks port 1081".to_string(),
    ];
    let proxies = Proxies::from_gnome_settings(&lines).expect("scan should succeed");
    assert_eq!(proxies.http_proxy.expect("http").host, "h");
    assert_eq!(proxies.https_proxy.expect("https").host, "hs");
    assert_eq!(proxies.socks_proxy.expect("socks").port, 1081);
    assert!(proxies.exclude_simple_host_names);
}

#[test]
fn gnome_authentication_is_global_and_latching() {
    let lines: Vec<String> = vec![
        "/org/gnome/system/proxy/http early-user ignored".to_string(),
        "/org/gnome/system/proxy/http use-authentication true".to_string(),
        "/org/gnome/system/proxy/http proxy-user 'u'".to_string(),
        "/org/gnome/system/proxy/http proxy-password 'p'".to_string(),
        "/org/gnome/system/proxy/http host 'h'".to_string(),
        "/org/gnome/system/proxy/http port 80".to_string(),
    ];
    let p = Proxy::from_gnome_settings("http", &lines)
        .expect("scan should succeed")
        .expect("slot filled");
    let auth = p.auth.expect("credentials seen after the switch");
    assert_eq!(auth.user, "'u'");
    assert_eq!(auth.password.as_deref(), Some("'p'"));
}

#[test]
fn gnome_line_without_three_tokens_fails() {
    let lines: Vec<String> = vec!["justtwo tokens".to_string()];
    assert_eq!(Proxy::from_gnome_settings("http", &lines), Err(Error::MalformedSetting));
}

#[test]
fn desktop_must_be_supported_before_any_settings_are_read() {
    assert_eq!(
        ProxyConfig::from_desktop_settings("KDE", ""),
        Err(Error::UnsupportedDesktop)
    );
    // Even settings that would otherwise fail are never reached.
    assert_eq!(
        ProxyConfig::from_desktop_settings("KDE", "/p/http port abc"),
        Err(Error::UnsupportedDesktop)
    );
    assert!(!is_supported_desktop("KDE"));
    assert!(is_supported_desktop("ubuntu:GNOME"));
    assert!(is_supported_desktop("gnome"));
    assert_eq!(
        Error::UnsupportedDesktop.message(),
        "Unsupported desktop environment"
    );
}

#[test]
fn desktop_snapshot_maps_and_has_no_scopes() {
    let text = "/org/gnome/system/proxy/http host 'proxy.local'\r\n\
                /org/gnome/system/proxy/http port 3128\r\n";
    let config = ProxyConfig::from_desktop_settings("ubuntu:GNOME", text).expect("should map");
    let http = config.proxies.http_proxy.expect("http slot should be filled");
    assert_eq!(http.host, "proxy.local");
    assert_eq!(http.port, 3128);
    assert!(config.scopes.is_empty());
    assert!(config.proxies.exclude_simple_host_names);
}

#[test]
fn desktop_empty_listing_yields_empty_proxies() {
    let config = ProxyConfig::from_desktop_settings("GNOME", "").expect("should map");
    assert!(config.proxies.http_proxy.is_none());
    assert!(config.proxies.https_proxy.is_none());
    assert!(config.proxies.socks_proxy.is_none());
}

#[test]
fn desktop_mapping_is_idempotent() {
    let text = "/org/gnome/system/proxy/http host 'h'\n/org/gnome/system/proxy/http port 80\n";
    assert_eq!(
        ProxyConfig::from_desktop_settings("GNOME", text),
        ProxyConfig::from_desktop_settings("GNOME", text)
    );
}

#[test]
fn native_record_fills_all_slots_alike() {
    let config = ProxyConfig::from_native_strings(
        Some("proxy.example.com:8888".to_string()),
        Some("*.local;10.0.0.0/8".to_string()),
    )
    .expect("record should map");
    for slot in [
        &config.proxies.http_proxy,
        &config.proxies.https_proxy,
        &config.proxies.socks_proxy,
    ] {
        let p = slot.as_ref().expect("slot should be filled");
        assert_eq!(p.host, "proxy.example.com");
        assert_eq!(p.port, 8888);
        assert!(p.auth.is_none());
        assert!(p.enabled);
    }
    assert!(config.proxies.exclude_simple_host_names);
    assert_eq!(config.scopes.len(), 1);
    assert_eq!(config.scopes[0].interface, "");
    assert_eq!(
        config.scopes[0].exceptions,
        vec!["*.local".to_string(), "10.0.0.0/8".to_string()]
    );
    assert_eq!(config.scopes[0].proxies, config.proxies);
}

#[test]
fn native_absent_proxy_string_is_a_hard_failure() {
    let r = ProxyConfig::from_native_strings(None, Some("*.local".to_string()));
    assert_eq!(r, Err(Error::NoProxies));
    assert_eq!(Error::NoProxies.message(), "No proxies found.");
    let r2 = ProxyConfig::from_native_strings(Some("h:1".to_string()), None);
    assert_eq!(r2, Err(Error::NoScopes));
    assert_eq!(Error::NoScopes.message(), "No scopes found.");
}

#[test]
fn native_proxy_string_needs_a_port_token() {
    assert_eq!(Proxies::from_str("proxyonly"), Err(Error::NoPort));
    assert_eq!(Error::NoPort.message(), "No port found.");
}

#[test]
fn native_empty_host_token_is_a_hard_failure() {
    // A present proxy always has a non-empty host; this strict platform
    // fails outright rather than dropping the slot.
    assert_eq!(Proxies::from_str(":8888"), Err(Error::NoHost));
    assert_eq!(Proxies::from_str(""), Err(Error::NoHost));
    assert_eq!(
        ProxyConfig::from_native_strings(Some(":8888".to_string()), Some("*.local".to_string())),
        Err(Error::NoHost)
    );
    assert_eq!(Error::NoHost.message(), "No host found.");
}

#[test]
fn native_port_bounds_follow_sixteen_bits() {
    let ok = Proxies::from_str("h:65535").expect("largest port should parse");
    assert_eq!(ok.http_proxy.expect("slot filled").port, 65535);
    assert_eq!(Proxies::from_str("h:65536"), Err(Error::MalformedPort));
    assert_eq!(Proxies::from_str("h:12a"), Err(Error::MalformedPort));
    assert_eq!(Error::MalformedPort.message(), "Invalid port number");
    // Only the first two colon-delimited tokens are read.
    let extra = Proxies::from_str("h:80:ignored").expect("extra tokens are ignored");
    assert_eq!(extra.https_proxy.expect("slot filled").port, 80);
}

#[test]
fn native_mapping_is_idempotent() {
    let a = ProxyConfig::from_native_strings(
        Some("h:80".to_string()),
        Some("a;b".to_string()),
    );
    let b = ProxyConfig::from_native_strings(
        Some("h:80".to_string()),
        Some("a;b".to_string()),
    );
    assert_eq!(a, b);
}

#[test]
fn native_error_codes_have_fixed_messages() {
    assert_eq!(
        Error::NativeApi(1).message(),
        "No Internet Explorer proxy settings can be found."
    );
    assert_eq!(Error::NativeApi(12004).message(), "An internal error has occurred.");
    assert_eq!(
        Error::NativeApi(8).message(),
        "Not enough memory was available to complete the requested operation."
    );
    assert_eq!(Error::NativeApi(12345).message(), "Unknown error: 12345.");
    assert_eq!(Error::NativeApi(0).message(), "Unknown error: 0.");
}

#[test]
fn external_detail_is_kept_verbatim() {
    let e = Error::External("gsettings failed: no schema".to_string());
    assert_eq!(e.message(), "gsettings failed: no schema");
    assert_eq!(Error::MalformedSetting.message(), "Malformed settings line");
}
