use hacl::discovery::Discovery;
use hacl::discovery::area_entities_template_body;
use hacl::discovery::areas_template_body;
use hacl::errors::HaclError;

#[test]
fn areas_request_body_is_fixed() {
    assert_eq!(areas_template_body(), "{\"template\": \"{{ areas() }}\"}");
}

#[test]
fn area_entities_request_body_splices_the_id() {
    let body = area_entities_template_body(&"kitchen".to_string());
    assert_eq!(body, "{\"template\": \"{{ area_entities('kitchen') }}\"}");
}

#[test]
fn catalog_preserves_received_area_order() {
    let mut discovery = Discovery::begin("['kitchen', 'office']").unwrap();

    let first = discovery.next_request_body().unwrap();
    assert_eq!(first, "{\"template\": \"{{ area_entities('kitchen') }}\"}");
    discovery.accept_entities("['light.kitchen_ceiling']").unwrap();

    let second = discovery.next_request_body().unwrap();
    assert_eq!(second, "{\"template\": \"{{ area_entities('office') }}\"}");
    discovery.accept_entities("['light.desk', 'switch.fan']").unwrap();

    assert!(discovery.is_complete());
    let catalog = discovery.into_catalog();
    assert_eq!(catalog.len(), 2);
    assert_eq!(catalog[0].id, "kitchen");
    assert_eq!(catalog[0].entities, vec!["light.kitchen_ceiling".to_string()]);
    assert_eq!(catalog[1].id, "office");
    assert_eq!(catalog[1].entities, vec!["light.desk".to_string(), "switch.fan".to_string()]);
}

#[test]
fn discovery_fails_fast_on_a_bad_per_area_response() {
    let mut discovery = Discovery::begin("['a', 'b', 'c']").unwrap();
    discovery.accept_entities("['light.one']").unwrap();

    let result = discovery.accept_entities("oops");
    match result {
        Err(HaclError::HubProtocolError(payload)) => assert_eq!(payload, "oops"),
        _ => panic!("expected a protocol error carrying the raw text"),
    }
    assert!(!discovery.is_complete());
}

#[test]
fn bad_area_list_is_a_protocol_error() {
    let result = Discovery::begin("not a list");
    match result {
        Err(HaclError::HubProtocolError(payload)) => assert_eq!(payload, "not a list"),
        _ => panic!("expected a protocol error carrying the raw text"),
    }
}

#[test]
fn empty_area_list_completes_at_once() {
    let discovery = Discovery::begin("[]").unwrap();
    assert!(discovery.is_complete());
    assert!(discovery.next_request_body().is_none());
    assert!(discovery.into_catalog().is_empty());
}

#[test]
fn template_endpoint_is_fixed() {
    assert_eq!(hacl::discovery::template_endpoint_path(), "api/template");
}
