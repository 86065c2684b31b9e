use espflash_bridge::address::{bridge_port_name, target_host, PORT_PREFIX};
use espflash_bridge::http::{hard_reset, http_post, ResetError, RESET_PATH};
use espflash_bridge::ports::{
    env_port, flash_port, http_port, parse_port, port_text, DEFAULT_FLASH_PORT, DEFAULT_HTTP_PORT,
    FLASH_PORT_VAR, HTTP_PORT_VAR,
};

#[test]
fn bridge_names_select_their_host() {
    assert_eq!(PORT_PREFIX, "bridge://");
    assert_eq!(target_host("bridge://192.168.1.50"), Some("192.168.1.50"));
    assert_eq!(target_host("bridge://"), Some(""));
    assert_eq!(target_host("bridge://bridge://x"), Some("bridge://x"));
    assert_eq!(target_host("bridge://h\u{f6}st\u{1f980}"), Some("h\u{f6}st\u{1f980}"));
}

#[test]
fn other_names_select_no_bridge() {
    for name in [
        "",
        "COM3",
        "/dev/ttyUSB0",
        "bridge:/",
        "bridge:/x/",
        "Bridge://x",
        " bridge://x",
        "bridg\u{e9}://x",
        "http://bridge://",
    ] {
        assert_eq!(target_host(name), None, "{name}");
    }
}

#[test]
fn a_bridge_name_leads_back_to_its_host() {
    for host in ["", "esp.local", "[::1]", "\u{e9}"] {
        let name = bridge_port_name(host);
        assert_eq!(name, format!("bridge://{host}"));
        assert_eq!(target_host(&name), Some(host));
    }
}

#[test]
fn each_port_asks_for_its_variable() {
    assert_eq!(HTTP_PORT_VAR, "ESPBRIDGE_HTTP_PORT");
    assert_eq!(FLASH_PORT_VAR, "ESPBRIDGE_FLASH_PORT");
    assert_eq!((DEFAULT_HTTP_PORT, DEFAULT_FLASH_PORT), (80, 3333));
    let http = http_port();
    assert_eq!((http.variable, http.default), ("ESPBRIDGE_HTTP_PORT", 80));
    let flash = flash_port();
    assert_eq!((flash.variable, flash.default), ("ESPBRIDGE_FLASH_PORT", 3333));
    let other = env_port("OTHER", 7);
    assert_eq!((other.variable, other.default), ("OTHER", 7));
}

#[test]
fn ports_default_without_a_setting() {
    assert_eq!(http_port().answered(None), 80);
    assert_eq!(flash_port().answered(None), 3333);
    assert_eq!(http_port().answered(Some("")), 80);
    assert_eq!(flash_port().answered(Some("serial")), 3333);
    assert_eq!(env_port("OTHER", 7).answered(None), 7);
}

#[test]
fn ports_follow_a_setting() {
    assert_eq!(http_port().answered(Some("8080")), 8080);
    assert_eq!(flash_port().answered(Some("8080")), 8080);
    assert_eq!(http_port().answered(Some("0")), 0);
    assert_eq!(env_port("OTHER", 1).answered(Some("+00065535")), 65535);
    assert_eq!(env_port("OTHER", 1).answered(Some("65536")), 1);
}

#[test]
fn a_setting_leaves_the_other_port_alone() {
    let only = |name: &str, variable: &str| (name == variable).then_some("8080");
    let ports = |name: &str| {
        let (http, flash) = (http_port(), flash_port());
        (
            http.answered(only(name, http.variable)),
            flash.answered(only(name, flash.variable)),
        )
    };
    assert_eq!(ports("ESPBRIDGE_HTTP_PORT"), (8080, 3333));
    assert_eq!(ports("ESPBRIDGE_FLASH_PORT"), (80, 8080));
    assert_eq!(ports("ESPBRIDGE_PORT"), (80, 3333));
}

#[test]
fn port_texts_read_as_std_reads_them() {
    for text in [
        "", "+", "-", "-0", "-1", "0", "00", "+0", "++1", "+-1", "1+", " 1", "1 ", "1_0", "0x10",
        "9", "10", "80", "3333", "65535", "65536", "65540", "70000", "99999", "655350", "100000",
        "0000000000000000000000000065535", "18446744073709551616", "\u{661}", "1\u{e9}", "a", "/",
        ":", "+65535", "+65536",
    ] {
        assert_eq!(parse_port(text), text.parse::<u16>().ok(), "{text:?}");
    }
}

#[test]
fn every_port_is_written_in_decimal_and_read_back() {
    for port in 0..=u16::MAX {
        let text = port_text(port);
        assert_eq!(text, port.to_string());
        assert_eq!(parse_port(&text), Some(port));
        assert_eq!(parse_port(&format!("+{text}")), Some(port));
    }
}

#[test]
fn post_urls_name_host_port_and_path() {
    let post = http_post("192.168.1.50", "/enter-bootloader");
    assert_eq!((post.host.as_str(), post.path), ("192.168.1.50", "/enter-bootloader"));
    assert_eq!(post.port.variable, "ESPBRIDGE_HTTP_PORT");
    assert_eq!(post.answered(None).url, "http://192.168.1.50:80/enter-bootloader");
    assert_eq!(http_post("h", "/x").answered(Some("8080")).url, "http://h:8080/x");
    assert_eq!(http_post("h", "/x").answered(Some("many")).url, "http://h:80/x");
}

#[test]
fn an_overridden_port_is_in_the_url() {
    for port in [0u16, 1, 80, 443, 65535] {
        let url = http_post("esp.local", RESET_PATH).answered(Some(&port.to_string())).url;
        assert_eq!(url, format!("http://esp.local:{port}/reset"));
    }
}

#[test]
fn a_sent_request_succeeds_with_any_response() {
    let request = || http_post("h", "/x").answered(None);
    assert!(request().sent(Ok::<u16, ureq::Error>(200)).is_ok());
    assert!(request().sent(Ok::<&str, ureq::Error>("")).is_ok());
}

#[test]
fn a_failed_request_names_its_url() {
    let error = http_post("h", "/x")
        .answered(None)
        .sent(Err::<(), ureq::Error>(ureq::Error::HostNotFound))
        .unwrap_err();
    assert_eq!(error.url, "http://h:80/x");
    assert!(matches!(error.cause, ureq::Error::HostNotFound));
    assert_eq!(error.message(), "POST http://h:80/x failed");
}

#[test]
fn a_hard_reset_posts_to_the_reset_endpoint() {
    let query = hard_reset("10.0.0.2");
    assert_eq!(query.post.port.variable, "ESPBRIDGE_HTTP_PORT");
    let reset = query.answered(None);
    assert_eq!(reset.request.url, "http://10.0.0.2:80/reset");
    assert!(reset.sent(Ok::<(), ureq::Error>(())).is_ok());
    assert_eq!(hard_reset("h").answered(Some("81")).request.url, "http://h:81/reset");
}

#[test]
fn a_failed_hard_reset_is_a_connection_error() {
    let outcome = hard_reset("h")
        .answered(None)
        .sent(Err::<(), ureq::Error>(ureq::Error::StatusCode(500)));
    match outcome {
        Err(ResetError::Connection(error)) => {
            assert_eq!(error.message(), "POST http://h:80/reset failed");
            assert!(matches!(error.0.cause, ureq::Error::StatusCode(500)));
        }
        Ok(()) => panic!("the reset failed"),
    }
}
