use log_bridge::bootstrap::embed_tag;
use log_bridge::bootstrap::service_url;
use log_bridge::bootstrap::socket_url;

#[test]
fn plain_scheme_upgrades_to_ws() {
    assert_eq!(
        socket_url("http:", "192.168.0.5:9000"),
        Some(String::from("ws://192.168.0.5:9000/ws/"))
    );
}

#[test]
fn secure_scheme_upgrades_to_wss() {
    assert_eq!(
        socket_url("https:", "example.test"),
        Some(String::from("wss://example.test/ws/"))
    );
}

#[test]
fn other_schemes_have_no_upgrade() {
    assert_eq!(socket_url("file:", "host"), None);
    assert_eq!(socket_url("ws:", "host"), None);
    assert_eq!(socket_url("", "host"), None);
    assert_eq!(socket_url("http", "host"), None);
}

#[test]
fn startup_lines_name_address_and_tag() {
    assert_eq!(service_url("127.0.0.1", 9000), "http://127.0.0.1:9000");
    assert_eq!(
        embed_tag("127.0.0.1", 9000),
        "    <script src=\"http://127.0.0.1:9000/log.js\"></script>"
    );
}
