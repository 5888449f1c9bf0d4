use mqtt_logger::config::{Config, ConnectParams};
use mqtt_logger::record::{format_record, make_record};

fn config_with(host: &str, port: u16) -> Config {
    Config {
        host: String::from(host),
        port,
        id: String::from("logger"),
        username: String::from("user"),
        password: String::from("pass"),
        topic: String::from("sensors/#"),
        output_file: String::from("./out.log"),
    }
}

#[test]
fn record_has_the_documented_format() {
    let r = format_record("2020-01-01T00:00:00+00:00", "sensors/1", "10");
    assert_eq!(r, "2020-01-01T00:00:00+00:00;sensors/1;10\n");
}

#[test]
fn record_leaves_delimiters_in_payload_unescaped() {
    let r = format_record("T", "sensors/1", "a;b");
    assert_eq!(r, "T;sensors/1;a;b\n");
}

#[test]
fn record_is_timestamped_with_the_current_instant() {
    let r = make_record("sensors/1", "10");
    let suffix = ";sensors/1;10\n";
    assert!(r.ends_with(suffix));
    let ts = &r[..r.len() - suffix.len()];
    assert!(!ts.is_empty());
    assert!(!ts.contains(';'));
    assert!(!ts.contains('\n'));
    assert!(chrono::DateTime::parse_from_rfc3339(ts).is_ok());
}

#[test]
fn server_uri_joins_host_and_port() {
    let c = config_with("localhost", 1883);
    assert_eq!(c.server_uri(), "tcp://localhost:1883");
}

#[test]
fn server_uri_renders_extreme_ports() {
    assert_eq!(config_with("h", 0).server_uri(), "tcp://h:0");
    assert_eq!(config_with("h", 65535).server_uri(), "tcp://h:65535");
    assert_eq!(config_with("h", 10).server_uri(), "tcp://h:10");
}

#[test]
fn connection_parameters_keep_the_session_persistent() {
    let p = ConnectParams::standard();
    assert_eq!(p.keep_alive_secs, 20);
    assert!(!p.clean_session);
    assert_eq!(p.qos, 1);
}
