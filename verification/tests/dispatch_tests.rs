use hacl::discovery::Area;
use hacl::dispatch::ToggleDispatch;
use hacl::dispatch::filter_lights;
use hacl::dispatch::is_light;
use hacl::dispatch::toggle_request_body;
use hacl::errors::HaclError;

fn office() -> Area {
    Area {
        id: "office".to_string(),
        entities: vec![
            "light.desk".to_string(),
            "switch.fan".to_string(),
            "light.ceiling".to_string(),
        ],
    }
}

#[test]
fn light_filter_keeps_exactly_the_lights_in_order() {
    let area = office();
    let lights = filter_lights(&area.entities);
    assert_eq!(lights, vec!["light.desk".to_string(), "light.ceiling".to_string()]);
}

#[test]
fn light_prefix_is_matched_literally() {
    assert!(is_light(&"light.desk".to_string()));
    assert!(is_light(&"light.".to_string()));
    assert!(!is_light(&"switch.fan".to_string()));
    assert!(!is_light(&"lights".to_string()));
    assert!(!is_light(&"Light.desk".to_string()));
    assert!(!is_light(&"".to_string()));
}

#[test]
fn toggle_body_carries_the_entity_id() {
    let body = toggle_request_body(&"light.desk".to_string());
    assert_eq!(body, "{\"entity_id\": \"light.desk\"}");
}

#[test]
fn dispatch_toggles_each_light_once_in_order() {
    let area = office();
    let mut dispatch = ToggleDispatch::new(&area);

    let first = dispatch.next_request_body().unwrap();
    assert_eq!(first, "{\"entity_id\": \"light.desk\"}");
    dispatch.record_success();

    let second = dispatch.next_request_body().unwrap();
    assert_eq!(second, "{\"entity_id\": \"light.ceiling\"}");
    dispatch.record_success();

    assert!(dispatch.next_request_body().is_none());
    assert!(dispatch.outcome().is_ok());
}

#[test]
fn dispatch_stops_at_the_first_failure() {
    let area = office();
    let mut dispatch = ToggleDispatch::new(&area);

    let first = dispatch.next_request_body().unwrap();
    assert_eq!(first, "{\"entity_id\": \"light.desk\"}");
    dispatch.record_failure();

    assert!(dispatch.next_request_body().is_none());
    assert!(matches!(dispatch.outcome(), Err(HaclError::TransportError)));
}

#[test]
fn area_without_lights_dispatches_nothing() {
    let area = Area { id: "closet".to_string(), entities: vec!["switch.heater".to_string()] };
    let dispatch = ToggleDispatch::new(&area);
    assert!(dispatch.next_request_body().is_none());
    assert!(dispatch.outcome().is_ok());
}

#[test]
fn action_endpoint_joins_domain_and_action() {
    assert_eq!(hacl::dispatch::action_endpoint_path("light", "toggle"), "api/services/light/toggle");
}
