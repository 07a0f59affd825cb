use kaipanla::error::AppError;
use kaipanla::tdx::{check_address, ConnectAction, TdxClient};

fn pool(addrs: &[&str]) -> Vec<String> {
    addrs.iter().map(|a| a.to_string()).collect()
}

fn host_accepts(addr: &str) -> bool {
    !addr.split(':').next().unwrap().contains("invalid")
}

fn connect(client: &mut TdxClient) -> (Result<String, ()>, Vec<String>) {
    let mut probed = vec![];
    let mut action = client.begin_connect();
    loop {
        match action {
            ConnectAction::Probe(addr) => {
                let accepted = host_accepts(&addr);
                probed.push(addr);
                action = client.report_probe(accepted);
            }
            ConnectAction::Connected(addr) => return (Ok(addr), probed),
            ConnectAction::Exhausted => return (Err(()), probed),
        }
    }
}

#[test]
fn test_tdx_client_creation() {
    let servers = vec!["124.71.187.122:7709".to_string(), "122.51.120.217:7709".to_string()];

    let client = TdxClient::new(servers);
    assert_eq!(client.server_count(), 2);
}

#[test]
fn test_server_rotation() {
    let servers = vec!["invalid.host:7709".to_string(), "124.71.187.122:7709".to_string()];

    let accepts: Vec<bool> = servers.iter().map(|s| host_accepts(s)).collect();
    let mut client = TdxClient::new(servers);
    let result = client.test_connection(&accepts);

    assert!(result.is_ok(), "Should successfully connect to backup server");
    assert_eq!(client.current_server(), "124.71.187.122:7709");
}

#[test]
fn test_all_servers_fail() {
    let servers = vec!["invalid1.host:7709".to_string(), "invalid2.host:7709".to_string()];

    let accepts: Vec<bool> = servers.iter().map(|s| host_accepts(s)).collect();
    let mut client = TdxClient::new(servers);
    let result = client.test_connection(&accepts);

    assert!(result.is_err(), "Should fail when all servers are unavailable");
}

#[test]
fn current_server_is_empty_until_a_connection_succeeds() {
    let mut client = TdxClient::new(pool(&["invalid.host:7709", "good.host:7709"]));
    assert_eq!(client.current_server(), "");
    let (result, probed) = connect(&mut client);
    assert_eq!(result, Ok("good.host:7709".to_string()));
    assert_eq!(probed, pool(&["invalid.host:7709", "good.host:7709"]));
    assert_eq!(client.current_server(), "good.host:7709");
}

#[test]
fn exhausted_pool_keeps_the_current_server() {
    let mut client = TdxClient::new(pool(&["a:1", "b:2", "c:3"]));
    assert!(client.test_connection(&vec![false, true, false]).is_ok());
    assert_eq!(client.current_server(), "b:2");
    let r = client.test_connection(&vec![false, false, false]);
    assert!(matches!(r, Err(AppError::Network(_))));
    assert_eq!(r.unwrap_err().message(), "network error: no upstream server could be reached");
    assert_eq!(client.current_server(), "b:2");
}

#[test]
fn scan_starts_at_the_current_server_and_wraps() {
    let mut client = TdxClient::new(pool(&["a:1", "b:2", "c:3"]));
    assert!(client.test_connection(&vec![false, false, true]).is_ok());
    assert_eq!(client.current_server(), "c:3");
    // sticky: c is tried first and stays although a would accept too
    assert!(client.test_connection(&vec![true, false, true]).is_ok());
    assert_eq!(client.current_server(), "c:3");
    // c fails: the scan wraps to a before b
    assert!(client.test_connection(&vec![true, true, false]).is_ok());
    assert_eq!(client.current_server(), "a:1");
}

#[test]
fn probes_follow_rotation_and_try_each_endpoint_once() {
    let mut client = TdxClient::new(pool(&["invalid-a:1", "b:2", "invalid-c:3"]));
    let (first, _) = connect(&mut client);
    assert_eq!(first, Ok("b:2".to_string()));
    let mut action = client.begin_connect();
    let mut probed = vec![];
    while let ConnectAction::Probe(addr) = action {
        probed.push(addr);
        action = client.report_probe(false);
    }
    assert!(matches!(action, ConnectAction::Exhausted));
    assert_eq!(probed, pool(&["b:2", "invalid-c:3", "invalid-a:1"]));
    assert_eq!(client.current_server(), "b:2");
}

#[test]
fn malformed_addresses_count_as_failures() {
    let mut client = TdxClient::new(pool(&["no-port", "host:99999", "a:b:1", "ok.host:7709"]));
    let (result, probed) = connect(&mut client);
    assert_eq!(result, Ok("ok.host:7709".to_string()));
    assert_eq!(probed, pool(&["ok.host:7709"]));
    let mut client = TdxClient::new(pool(&["no-port", "host:port"]));
    assert!(client.test_connection(&vec![true, true]).is_err());
    assert_eq!(client.current_server(), "");
}

#[test]
fn empty_pool_is_exhausted() {
    let mut client = TdxClient::new(vec![]);
    assert!(matches!(client.begin_connect(), ConnectAction::Exhausted));
    assert!(matches!(client.test_connection(&vec![]), Err(AppError::Network(_))));
    assert_eq!(client.current_server(), "");
}

#[test]
fn report_without_a_scan_is_exhausted() {
    let mut client = TdxClient::new(pool(&["a:1"]));
    assert!(matches!(client.report_probe(true), ConnectAction::Exhausted));
    assert_eq!(client.current_server(), "");
}

#[test]
fn check_address_agrees_with_split_and_parse() {
    let cases = [
        "124.71.187.122:7709", "host:0", "host:65535", "host:65536", "host:+80", "host:+", "host:",
        ":80", "host", "a:b:80", "host:80:", "host:-1", "host:8 0", "host:00080", "host:0000065535",
        "host:99999999999999999999", "", ":", "主机:7709", "host:７７０９", "host:+0",
    ];
    for addr in cases {
        let parts: Vec<&str> = addr.split(':').collect();
        let expected = parts.len() == 2 && parts[1].parse::<u16>().is_ok();
        assert_eq!(check_address(addr), expected, "{}", addr);
    }
}
