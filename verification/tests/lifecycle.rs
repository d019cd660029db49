use fetch_core::controller::{FetchController, ResponseOutcome, TransportResult};
use fetch_core::json::JsonValue;
use fetch_core::payload::Payload;
use fetch_core::state::FetchState;

fn title_body(t: &str) -> String {
    format!("{{\"title\":\"{}\"}}", t)
}

#[test]
fn initial_state_is_idle() {
    let c = FetchController::new();
    assert_eq!(*c.current_state(), FetchState::Idle);
    assert_eq!(c.current_epoch(), 0);
}

#[test]
fn start_fetch_moves_to_loading() {
    let mut c = FetchController::new();
    let e = c.start_fetch();
    assert_eq!(e, 1);
    assert_eq!(*c.current_state(), FetchState::Loading(1));
    let e2 = c.start_fetch();
    assert_eq!(e2, 2);
    assert_eq!(*c.current_state(), FetchState::Loading(2));
}

#[test]
fn stale_response_is_discarded() {
    let mut c = FetchController::new();
    let e1 = c.start_fetch();
    let e2 = c.start_fetch();
    assert_ne!(e1, e2);
    c.on_response(e1, TransportResult::Body(title_body("old")));
    assert_eq!(*c.current_state(), FetchState::Loading(e2));
}

#[test]
fn stale_failure_is_discarded_after_success() {
    let mut c = FetchController::new();
    let e1 = c.start_fetch();
    let e2 = c.start_fetch();
    c.on_response(e2, TransportResult::Body(title_body("fresh")));
    c.on_response(e1, TransportResult::Failure);
    assert_eq!(
        *c.current_state(),
        FetchState::Success(Payload::Title("fresh".to_string()))
    );
}

#[test]
fn latest_epoch_wins_out_of_order() {
    let mut c = FetchController::new();
    let e1 = c.start_fetch();
    let e2 = c.start_fetch();
    // Epoch 2's response lands first; epoch 1's slower, different payload
    // arrives afterwards and must be ignored.
    c.on_response(e2, TransportResult::Body(title_body("second")));
    c.on_response(e1, TransportResult::Body(title_body("first")));
    assert_eq!(
        *c.current_state(),
        FetchState::Success(Payload::Title("second".to_string()))
    );
}

#[test]
fn transport_failure_reports_network_failure() {
    let mut c = FetchController::new();
    let e = c.start_fetch();
    c.on_response(e, TransportResult::Failure);
    assert_eq!(
        *c.current_state(),
        FetchState::Error("network failure".to_string())
    );
}

#[test]
fn malformed_body_reports_invalid_response() {
    let mut c = FetchController::new();
    let e = c.start_fetch();
    c.on_response(e, TransportResult::Body("not json at all".to_string()));
    assert_eq!(
        *c.current_state(),
        FetchState::Error("invalid response".to_string())
    );
}

#[test]
fn unvalidated_body_reports_invalid_response() {
    let mut c = FetchController::new();
    let e = c.start_fetch();
    c.on_response(e, TransportResult::Body("[1,2,3]".to_string()));
    assert_eq!(
        *c.current_state(),
        FetchState::Error("invalid response".to_string())
    );
}

#[test]
fn entry_missing_its_price_reports_invalid_response() {
    // Schema-invalid, not a partial success: the bad entry fails the whole
    // body.
    let mut c = FetchController::new();
    let e = c.start_fetch();
    c.on_response(
        e,
        TransportResult::Body(
            "{\"data\":[{\"item_name\":\"A\",\"item_price\":\"100\"},\
             {\"item_name\":\"B\"}],\"sum\":100}"
                .to_string(),
        ),
    );
    assert_eq!(
        *c.current_state(),
        FetchState::Error("invalid response".to_string())
    );
}

#[test]
fn error_state_accepts_retry() {
    let mut c = FetchController::new();
    let e = c.start_fetch();
    c.on_response(e, TransportResult::Failure);
    let e2 = c.start_fetch();
    assert_eq!(*c.current_state(), FetchState::Loading(e2));
    c.on_response(e2, TransportResult::Body(title_body("recovered")));
    assert_eq!(
        *c.current_state(),
        FetchState::Success(Payload::Title("recovered".to_string()))
    );
}

#[test]
fn delivery_to_a_machine_not_waiting_is_a_no_op() {
    // A fresh controller's current epoch is zero, yet no request with that
    // epoch was ever issued: a completion carrying it must change nothing,
    // as the transition table accepts completions only while loading.
    let mut c = FetchController::new();
    c.on_response(0, TransportResult::Body(title_body("ghost")));
    assert_eq!(*c.current_state(), FetchState::Idle);
    c.on_response(0, TransportResult::Failure);
    assert_eq!(*c.current_state(), FetchState::Idle);
}

#[test]
fn duplicate_delivery_keeps_the_resolved_state() {
    let mut c = FetchController::new();
    let e = c.start_fetch();
    c.on_response(e, TransportResult::Body(title_body("first")));
    c.on_response(e, TransportResult::Failure);
    assert_eq!(
        *c.current_state(),
        FetchState::Success(Payload::Title("first".to_string()))
    );
}

#[test]
fn decoded_outcome_applies_like_a_body() {
    let mut c = FetchController::new();
    let e = c.start_fetch();
    let doc = JsonValue::Obj(vec![(
        "title".to_string(),
        JsonValue::Str("direct".to_string()),
    )]);
    c.apply_response(e, ResponseOutcome::Decoded(doc));
    assert_eq!(
        *c.current_state(),
        FetchState::Success(Payload::Title("direct".to_string()))
    );
}
