use feed_engine::control::ControlRequest;
use feed_engine::engine::Engine;

fn request(action: &str, params: &[&str]) -> ControlRequest {
    ControlRequest {
        action: action.to_string(),
        params: params.iter().map(|p| p.to_string()).collect(),
    }
}

#[test]
fn add_url_with_one_param_is_an_error_and_mutates_nothing() {
    let mut engine = Engine::new();
    let before = engine.list_sources().len();
    let resp = engine.dispatch(&request("add_url", &["OnlyOneArg"]));
    assert!(!resp.error.is_empty());
    assert!(resp.result.is_empty());
    assert_eq!(engine.list_sources().len(), before);
}

#[test]
fn add_url_with_name_and_url_appends_one_source() {
    let mut engine = Engine::new();
    let resp = engine.dispatch(&request("add_url", &["Example", "http://example.com/feed"]));
    assert!(resp.error.is_empty());
    assert_eq!(resp.result, vec!["".to_string()]);
    let sources = engine.list_sources();
    assert_eq!(sources.len(), 1);
    assert_eq!(sources[0].name, "Example");
    assert_eq!(sources[0].url, "http://example.com/feed");
}

#[test]
fn add_url_appends_at_the_end_and_never_dedupes() {
    let mut engine = Engine::new();
    engine.dispatch(&request("add_url", &["A", "http://example.com/a"]));
    engine.dispatch(&request("add_url", &["B", "http://example.com/b"]));
    engine.dispatch(&request("add_url", &["A", "http://example.com/a"]));
    let sources = engine.list_sources();
    assert_eq!(sources.len(), 3);
    assert_eq!(sources[1].name, "B");
    assert_eq!(sources[2].name, "A");
    assert_eq!(sources[2].url, "http://example.com/a");
}

#[test]
fn unknown_action_is_reported_with_its_name() {
    let mut engine = Engine::new();
    let resp = engine.dispatch(&request("delete_url", &[]));
    assert_eq!(resp.error, vec!["Unknown command: delete_url".to_string()]);
    assert!(resp.result.is_empty());
    assert_eq!(engine.list_sources().len(), 0);
}

#[test]
fn extra_params_beyond_two_are_ignored() {
    let mut engine = Engine::new();
    let resp = engine.dispatch(&request("add_url", &["N", "http://example.com/n", "spare"]));
    assert!(resp.error.is_empty());
    let sources = engine.list_sources();
    assert_eq!(sources.len(), 1);
    assert_eq!(sources[0].url, "http://example.com/n");
}
