use esp_agent::commands::tcp_listener::{find_port_listener, hex_to_ipv4, listening_ports_in};

#[test]
fn test_hex_to_ipv4() {
    assert_eq!(hex_to_ipv4("00000000"), "0.0.0.0");
    assert_eq!(hex_to_ipv4("0100007F"), "127.0.0.1");
    assert_eq!(hex_to_ipv4("0000"), "invalid");
}

const PROC_NET_TCP: &str = "  sl  local_address rem_address   st tx_queue rx_queue tr tm->when retrnsmt   uid  timeout inode
   0: 0100007F:0CEA 00000000:0000 0A 00000000:00000000 00:00000000 00000000   999        0 20906 1 0000000000000000 100 0 0 10 0
   1: 00000000:0016 00000000:0000 0A 00000000:00000000 00:00000000 00000000     0        0 19287 1 0000000000000000 100 0 0 10 0
   2: 0F02000A:0016 0202000A:C35A 01 00000000:00000000 02:0009D1B5 00000000     0        0 29151 2 0000000000000000 20 4 30 10 -1
";

#[test]
fn invalid_port_is_refused() {
    let r = find_port_listener(PROC_NET_TCP, 0, None);
    assert!(!r.listening);
    assert_eq!(r.error, Some("Invalid port: 0".to_string()));
}

#[test]
fn listener_found_and_filtered() {
    let r = find_port_listener(PROC_NET_TCP, 3306, None);
    assert!(r.listening);
    assert_eq!(r.local_address, Some("127.0.0.1:3306".to_string()));
    assert!(r.error.is_none());

    let r = find_port_listener(PROC_NET_TCP, 3306, Some("10.0.0.1"));
    assert!(!r.listening);

    // A listener on 0.0.0.0 matches any host filter.
    let r = find_port_listener(PROC_NET_TCP, 22, Some("10.0.0.1"));
    assert_eq!(r.local_address, Some("0.0.0.0:22".to_string()));

    let r = find_port_listener(PROC_NET_TCP, 65432, None);
    assert!(!r.listening);
    assert!(r.error.is_none());
}

#[test]
fn header_line_is_skipped() {
    let text = "0: 0100007F:0CEA 00000000:0000 0A\n";
    assert!(!find_port_listener(text, 3306, None).listening);
}

#[test]
fn all_listening_ports() {
    let ports = listening_ports_in(PROC_NET_TCP);
    assert_eq!(
        ports,
        vec![("127.0.0.1".to_string(), 3306), ("0.0.0.0".to_string(), 22)]
    );
    assert!(listening_ports_in("").is_empty());
}

#[test]
fn ipv4_edge_cases() {
    assert_eq!(hex_to_ipv4("+1000000"), "0.0.0.1");
    assert_eq!(hex_to_ipv4("0100007G"), "invalid");
    assert_eq!(hex_to_ipv4("0100007F0"), "invalid");
}
