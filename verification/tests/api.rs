use proxynet::api::create_domain;
use proxynet::api::delete_domain;
use proxynet::api::get_all_config_endpoint;
use proxynet::api::get_config_endpoint;
use proxynet::api::get_domain;
use proxynet::api::list_domains;
use proxynet::api::set_config_endpoint;
use proxynet::api::update_config_endpoint;
use proxynet::api::update_domain;
use proxynet::api::ApiResponse;
use proxynet::api::DomainDto;
use proxynet::api::Reply;
use proxynet::api::StoreError;
use proxynet::route_table::RouteTable;

fn dto(id: Option<i64>, domain: &str, origin: &str, enabled: bool) -> DomainDto {
    DomainDto { id, domain: domain.to_string(), origin: origin.to_string(), enabled }
}

fn rows() -> Vec<DomainDto> {
    vec![
        dto(Some(1), "a.test", "http://127.0.0.1:9001", true),
        dto(Some(2), "b.test", "http://127.0.0.1:9002", false),
        dto(None, "draft.test", "http://127.0.0.1:9003", true),
        dto(Some(2), "shadow.test", "http://127.0.0.1:9004", true),
    ]
}

fn routes() -> RouteTable {
    let mut routes = RouteTable::new();
    routes.upsert("a.test".to_string(), "http://127.0.0.1:9001".to_string());
    routes.upsert("b.test".to_string(), "http://127.0.0.1:9002".to_string());
    routes
}

fn failure_of<T>(reply: Reply<T>) -> (u16, String) {
    match reply {
        Reply::Failure { status, error } => {
            assert!(!error.success);
            assert!(error.data.is_none());
            (status, error.error.expect("a failure carries a message"))
        }
        Reply::Success { status, .. } => panic!("succeeded with {status}"),
        Reply::NoContent { status } => panic!("succeeded with {status}"),
    }
}

fn success_of<T>(reply: Reply<T>) -> (u16, T) {
    match reply {
        Reply::Success { status, body } => {
            assert!(body.success);
            assert!(body.error.is_none());
            (status, body.data.expect("a success carries data"))
        }
        Reply::Failure { status, .. } => panic!("failed with {status}"),
        Reply::NoContent { status } => panic!("no content with {status}"),
    }
}

fn pair(key: &str, value: &str) -> (String, String) {
    (key.to_string(), value.to_string())
}

#[test]
fn ok_wraps_data() {
    let response = ApiResponse::ok(7);
    assert!(response.success);
    assert_eq!(response.data, Some(7));
    assert_eq!(response.error, None);
}

#[test]
fn err_wraps_a_message() {
    let response = ApiResponse::<u8>::err("boom".to_string());
    assert!(!response.success);
    assert_eq!(response.data, None);
    assert_eq!(response.error, Some("boom".to_string()));
}

#[test]
fn list_domains_answers_the_rows() {
    let (status, data) = success_of(list_domains(Ok(rows())));
    assert_eq!(status, 200);
    assert_eq!(data.len(), 4);
    assert_eq!(data[0].domain, "a.test");
    assert_eq!(data[3].origin, "http://127.0.0.1:9004");
    let (status, data) = success_of(list_domains(Ok(Vec::new())));
    assert_eq!(status, 200);
    assert!(data.is_empty());
}

#[test]
fn list_domains_reports_a_store_failure() {
    assert_eq!(failure_of(list_domains(Err(StoreError))), (500, "Failed to fetch domains".to_string()));
}

#[test]
fn create_domain_routes_the_new_host() {
    let mut routes = routes();
    let payload = dto(None, "c.test", "http://127.0.0.1:9005", false);
    let (status, created) = success_of(create_domain(&mut routes, payload, Ok(17)));
    assert_eq!(status, 201);
    assert_eq!(created.id, Some(17));
    assert_eq!(created.domain, "c.test");
    assert_eq!(created.origin, "http://127.0.0.1:9005");
    assert!(created.enabled);
    assert_eq!(routes.resolve("c.test"), Some("http://127.0.0.1:9005".to_string()));
    assert_eq!(routes.len(), 3);
}

#[test]
fn create_domain_replaces_the_route_of_a_known_host() {
    let mut routes = routes();
    let payload = dto(Some(99), "a.test", "http://127.0.0.1:9100", true);
    let (_, created) = success_of(create_domain(&mut routes, payload, Ok(3)));
    assert_eq!(created.id, Some(3));
    assert_eq!(routes.resolve("a.test"), Some("http://127.0.0.1:9100".to_string()));
    assert_eq!(routes.len(), 2);
}

#[test]
fn create_domain_leaves_the_routes_when_the_store_failed() {
    let mut routes = routes();
    let payload = dto(None, "c.test", "http://127.0.0.1:9005", true);
    let reply = create_domain(&mut routes, payload, Err(StoreError));
    assert_eq!(failure_of(reply), (500, "Failed to create domain".to_string()));
    assert_eq!(routes.resolve("c.test"), None);
    assert_eq!(routes.len(), 2);
}

#[test]
fn get_domain_finds_the_first_row_with_the_id() {
    let (status, found) = success_of(get_domain(Ok(rows()), 2));
    assert_eq!(status, 200);
    assert_eq!(found.id, Some(2));
    assert_eq!(found.domain, "b.test");
    assert_eq!(found.origin, "http://127.0.0.1:9002");
    assert!(!found.enabled);
}

#[test]
fn get_domain_reports_an_unknown_id() {
    assert_eq!(failure_of(get_domain(Ok(rows()), 3)), (404, "Domain not found".to_string()));
    assert_eq!(failure_of(get_domain(Ok(Vec::new()), 1)), (404, "Domain not found".to_string()));
}

#[test]
fn get_domain_reports_a_store_failure() {
    assert_eq!(failure_of(get_domain(Err(StoreError), 1)), (500, "Failed to fetch domain".to_string()));
}

#[test]
fn update_domain_moves_the_route_to_the_new_host() {
    let mut routes = routes();
    let payload = dto(None, "renamed.test", "http://127.0.0.1:9100", false);
    let (status, updated) = success_of(update_domain(&mut routes, 1, payload, Ok(()), Ok(rows())));
    assert_eq!(status, 200);
    assert_eq!(updated.id, Some(1));
    assert_eq!(updated.domain, "renamed.test");
    assert_eq!(updated.origin, "http://127.0.0.1:9100");
    assert!(updated.enabled);
    assert_eq!(routes.resolve("a.test"), None);
    assert_eq!(routes.resolve("renamed.test"), Some("http://127.0.0.1:9100".to_string()));
    assert_eq!(routes.resolve("b.test"), Some("http://127.0.0.1:9002".to_string()));
}

#[test]
fn update_domain_changes_the_origin_of_a_host_that_keeps_its_name() {
    let mut routes = routes();
    let payload = dto(Some(1), "a.test", "http://127.0.0.1:9100", true);
    success_of(update_domain(&mut routes, 1, payload, Ok(()), Ok(rows())));
    assert_eq!(routes.resolve("a.test"), Some("http://127.0.0.1:9100".to_string()));
    assert_eq!(routes.len(), 2);
}

#[test]
fn update_domain_binds_the_new_host_when_the_rows_are_not_known() {
    let mut routes = routes();
    let payload = dto(None, "renamed.test", "http://127.0.0.1:9100", true);
    success_of(update_domain(&mut routes, 1, payload, Ok(()), Err(StoreError)));
    assert_eq!(routes.resolve("a.test"), Some("http://127.0.0.1:9001".to_string()));
    assert_eq!(routes.resolve("renamed.test"), Some("http://127.0.0.1:9100".to_string()));
    let payload = dto(None, "other.test", "http://127.0.0.1:9200", true);
    success_of(update_domain(&mut routes, 42, payload, Ok(()), Ok(rows())));
    assert_eq!(routes.len(), 4);
}

#[test]
fn update_domain_leaves_the_routes_when_the_store_failed() {
    let mut routes = routes();
    let payload = dto(None, "renamed.test", "http://127.0.0.1:9100", true);
    let reply = update_domain(&mut routes, 1, payload, Err(StoreError), Ok(rows()));
    assert_eq!(failure_of(reply), (500, "Failed to update domain".to_string()));
    assert_eq!(routes.resolve("a.test"), Some("http://127.0.0.1:9001".to_string()));
    assert_eq!(routes.resolve("renamed.test"), None);
}

#[test]
fn delete_domain_takes_the_host_out_of_the_routes() {
    let mut routes = routes();
    match delete_domain(&mut routes, 2, Ok(()), Ok(rows())) {
        Reply::NoContent { status } => assert_eq!(status, 204),
        _ => panic!("a deletion answers with no content"),
    }
    assert_eq!(routes.resolve("b.test"), None);
    assert_eq!(routes.resolve("a.test"), Some("http://127.0.0.1:9001".to_string()));
}

#[test]
fn delete_domain_of_an_unknown_id_changes_no_route() {
    let mut routes = routes();
    match delete_domain(&mut routes, 42, Ok(()), Ok(rows())) {
        Reply::NoContent { status } => assert_eq!(status, 204),
        _ => panic!("a deletion answers with no content"),
    }
    assert_eq!(routes.len(), 2);
    match delete_domain(&mut routes, 1, Ok(()), Err(StoreError)) {
        Reply::NoContent { status } => assert_eq!(status, 204),
        _ => panic!("a deletion answers with no content"),
    }
    assert_eq!(routes.len(), 2);
}

#[test]
fn delete_domain_leaves_the_routes_when_the_store_failed() {
    let mut routes = routes();
    let reply = delete_domain(&mut routes, 1, Err(StoreError), Ok(rows()));
    assert_eq!(failure_of(reply), (500, "Failed to delete domain".to_string()));
    assert_eq!(routes.len(), 2);
}

#[test]
fn get_all_config_answers_the_settings() {
    let settings = vec![pair("host", "0.0.0.0"), pair("port", "8080")];
    let (status, data) = success_of(get_all_config_endpoint(Ok(settings.clone())));
    assert_eq!(status, 200);
    assert_eq!(data, settings);
    let reply = get_all_config_endpoint(Err(StoreError));
    assert_eq!(failure_of(reply), (500, "Failed to fetch config".to_string()));
}

#[test]
fn get_config_answers_the_one_setting() {
    let reply = get_config_endpoint("port".to_string(), Ok(Some("8080".to_string())));
    assert_eq!(success_of(reply), (200, vec![pair("port", "8080")]));
}

#[test]
fn get_config_reports_an_unknown_key_and_a_store_failure() {
    let reply = get_config_endpoint("nope".to_string(), Ok(None));
    assert_eq!(failure_of(reply), (404, "Config key not found".to_string()));
    let reply = get_config_endpoint("port".to_string(), Err(StoreError));
    assert_eq!(failure_of(reply), (500, "Failed to fetch config".to_string()));
}

#[test]
fn update_config_answers_the_new_setting() {
    let reply = update_config_endpoint("port".to_string(), "9090".to_string(), Ok(()));
    assert_eq!(success_of(reply), (200, vec![pair("port", "9090")]));
    let reply = update_config_endpoint("port".to_string(), "9090".to_string(), Err(StoreError));
    assert_eq!(failure_of(reply), (500, "Failed to update config".to_string()));
}

#[test]
fn set_config_answers_the_payload() {
    let payload = vec![pair("host", "127.0.0.1"), pair("rate_limit_per_minute", "10")];
    assert_eq!(success_of(set_config_endpoint(payload.clone(), Ok(()))), (200, payload.clone()));
    let reply = set_config_endpoint(payload, Err(StoreError));
    assert_eq!(failure_of(reply), (500, "Failed to update config".to_string()));
    assert_eq!(success_of(set_config_endpoint(Vec::new(), Ok(()))), (200, Vec::new()));
}
