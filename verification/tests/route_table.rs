use proxynet::config::DomainConfig;
use proxynet::route_table::RouteTable;

fn domain(name: &str, origin: &str, enabled: bool) -> DomainConfig {
    DomainConfig { domain: name.to_string(), origin: origin.to_string(), enabled }
}

#[test]
fn new_table_routes_nothing() {
    let table = RouteTable::new();
    assert_eq!(table.len(), 0);
    assert_eq!(table.resolve("a.test"), None);
    assert_eq!(table.resolve(""), None);
}

#[test]
fn resolve_returns_the_origin_bound_last() {
    let mut table = RouteTable::new();
    table.upsert("a.test".to_string(), "http://127.0.0.1:9001".to_string());
    assert_eq!(table.resolve("a.test"), Some("http://127.0.0.1:9001".to_string()));
    table.upsert("a.test".to_string(), "http://127.0.0.1:9002".to_string());
    assert_eq!(table.resolve("a.test"), Some("http://127.0.0.1:9002".to_string()));
    assert_eq!(table.len(), 1);
}

#[test]
fn remove_makes_the_host_unknown() {
    let mut table = RouteTable::new();
    table.upsert("a.test".to_string(), "http://127.0.0.1:9001".to_string());
    table.upsert("b.test".to_string(), "http://127.0.0.1:9002".to_string());
    table.remove("a.test");
    assert_eq!(table.resolve("a.test"), None);
    assert_eq!(table.resolve("b.test"), Some("http://127.0.0.1:9002".to_string()));
    assert_eq!(table.len(), 1);
}

#[test]
fn remove_of_an_unknown_host_changes_nothing() {
    let mut table = RouteTable::new();
    table.upsert("a.test".to_string(), "http://127.0.0.1:9001".to_string());
    table.remove("missing.test");
    assert_eq!(table.len(), 1);
    assert_eq!(table.resolve("a.test"), Some("http://127.0.0.1:9001".to_string()));
}

#[test]
fn upsert_after_remove_binds_again() {
    let mut table = RouteTable::new();
    table.upsert("a.test".to_string(), "http://old".to_string());
    table.remove("a.test");
    table.upsert("a.test".to_string(), "http://new".to_string());
    assert_eq!(table.resolve("a.test"), Some("http://new".to_string()));
}

#[test]
fn hosts_are_matched_exactly() {
    let mut table = RouteTable::new();
    table.upsert("a.test".to_string(), "http://127.0.0.1:9001".to_string());
    assert_eq!(table.resolve("A.test"), None);
    assert_eq!(table.resolve("a.test:80"), None);
    assert_eq!(table.resolve("a.tes"), None);
}

#[test]
fn from_domains_routes_enabled_domains_only() {
    let domains = vec![
        domain("a.test", "http://127.0.0.1:9001", true),
        domain("b.test", "http://127.0.0.1:9002", false),
        domain("c.test", "http://127.0.0.1:9003", true),
    ];
    let table = RouteTable::from_domains(&domains);
    assert_eq!(table.len(), 2);
    assert_eq!(table.resolve("a.test"), Some("http://127.0.0.1:9001".to_string()));
    assert_eq!(table.resolve("b.test"), None);
    assert_eq!(table.resolve("c.test"), Some("http://127.0.0.1:9003".to_string()));
}

#[test]
fn from_domains_lets_a_later_entry_win() {
    let domains = vec![
        domain("a.test", "http://first", true),
        domain("a.test", "http://second", true),
        domain("a.test", "http://disabled", false),
    ];
    let table = RouteTable::from_domains(&domains);
    assert_eq!(table.len(), 1);
    assert_eq!(table.resolve("a.test"), Some("http://second".to_string()));
}

#[test]
fn from_domains_of_nothing_is_empty() {
    let table = RouteTable::from_domains(&Vec::new());
    assert_eq!(table.len(), 0);
}
