use localsend_core::discovery::{DecodeError, DeviceType};
use localsend_core::url::{ApiVersion, ProtocolType, TargetUrl};

fn target(protocol: ProtocolType, host: &str, port: u16, path: &'static str) -> TargetUrl {
    TargetUrl {
        version: ApiVersion::V3,
        protocol,
        host: host.to_string(),
        port,
        path,
    }
}

#[test]
fn plain_ipv4_host_empty_path() {
    let u = target(ProtocolType::Http, "192.168.1.5", 53317, "");
    assert_eq!(u.render(), "http://192.168.1.5:53317/api/localsend/v3");
}

#[test]
fn plain_hostname_with_path() {
    let u = target(ProtocolType::Http, "myhost", 80, "/send");
    assert_eq!(u.render(), "http://myhost:80/api/localsend/v3/send");
}

#[test]
fn ipv6_host_is_bracketed() {
    let u = target(ProtocolType::Https, "fe80::1", 443, "/info");
    assert_eq!(u.render(), "https://[fe80::1]:443/api/localsend/v3/info");
}

#[test]
fn any_host_holding_a_colon_is_bracketed() {
    let u = target(ProtocolType::Http, "weird:host", 1, "");
    assert_eq!(u.render(), "http://[weird:host]:1/api/localsend/v3");
}

#[test]
fn https_scheme_is_rendered_lowercase() {
    let u = target(ProtocolType::Https, "peer.local", 8080, "/register");
    assert_eq!(u.render(), "https://peer.local:8080/api/localsend/v3/register");
}

#[test]
fn port_extremes() {
    let low = target(ProtocolType::Http, "h", 0, "");
    assert_eq!(low.render(), "http://h:0/api/localsend/v3");
    let high = target(ProtocolType::Http, "h", 65535, "");
    assert_eq!(high.render(), "http://h:65535/api/localsend/v3");
}

#[test]
fn rendering_is_deterministic_and_idempotent() {
    let u = target(ProtocolType::Http, "192.168.1.5", 53317, "/send");
    let first = u.render();
    let second = u.render();
    assert_eq!(first, second);
    let again = target(ProtocolType::Http, "192.168.1.5", 53317, "/send");
    assert_eq!(again.render(), first);
}

#[test]
fn device_tokens_are_canonical() {
    assert_eq!(DeviceType::Mobile.encode(), "mobile");
    assert_eq!(DeviceType::Desktop.encode(), "desktop");
    assert_eq!(DeviceType::Web.encode(), "web");
    assert_eq!(DeviceType::Headless.encode(), "headless");
    assert_eq!(DeviceType::Server.encode(), "server");
}

#[test]
fn device_round_trip_all_variants() {
    let all = [
        DeviceType::Mobile,
        DeviceType::Desktop,
        DeviceType::Web,
        DeviceType::Headless,
        DeviceType::Server,
    ];
    for d in all {
        assert_eq!(DeviceType::decode(d.encode()), Ok(d));
    }
}

#[test]
fn unrecognized_token_fails() {
    assert_eq!(DeviceType::decode("tablet"), Err(DecodeError));
}

#[test]
fn decode_is_case_sensitive() {
    assert_eq!(DeviceType::decode("Mobile"), Err(DecodeError));
    assert_eq!(DeviceType::decode("SERVER"), Err(DecodeError));
}

#[test]
fn empty_and_near_miss_tokens_fail() {
    assert_eq!(DeviceType::decode(""), Err(DecodeError));
    assert_eq!(DeviceType::decode("mobil"), Err(DecodeError));
    assert_eq!(DeviceType::decode("mobiles"), Err(DecodeError));
}
