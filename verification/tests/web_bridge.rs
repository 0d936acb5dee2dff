use zju_connect_gui::backend::proxy::manager::{InputKind, ProxyEvent, ProxyState};
use zju_connect_gui::web::bridge::{PendingEvents, SseEvent, PENDING_CAPACITY};

fn payload(e: &SseEvent) -> serde_json::Value {
    serde_json::from_str(&e.data).unwrap()
}

#[test]
fn first_subscriber_replays_pre_subscriber_events() {
    let mut pending = PendingEvents::new();
    pending.record(SseEvent::from_proxy_event(&ProxyEvent::NeedInput {
        kind: InputKind::Sms,
        prompt: "Please enter the SMS code".into(),
    }));
    let replayed = pending.take_for_subscriber();
    assert_eq!(replayed.len(), 1);
    assert_eq!(replayed[0].event_type, "need_input");
    assert_eq!(payload(&replayed[0])["kind"], "sms");
}

#[test]
fn later_subscribers_do_not_replay_stale_pending_events() {
    let mut pending = PendingEvents::new();
    pending.record(SseEvent::from_proxy_event(&ProxyEvent::NeedInput {
        kind: InputKind::Sms,
        prompt: "stale".into(),
    }));
    let _first = pending.take_for_subscriber();
    pending.record(SseEvent::from_proxy_event(&ProxyEvent::Log("fresh".into())));
    let second = pending.take_for_subscriber();
    assert!(second.is_empty());
}

#[test]
fn replay_keeps_only_the_latest_events() {
    let mut pending = PendingEvents::new();
    for i in 0..(PENDING_CAPACITY + 10) {
        pending.record(SseEvent::from_proxy_event(&ProxyEvent::Log(format!("line {i}"))));
    }
    let replayed = pending.take_for_subscriber();
    assert_eq!(replayed.len(), PENDING_CAPACITY);
    assert_eq!(payload(&replayed[0])["line"], "line 10");
    assert_eq!(
        payload(&replayed[PENDING_CAPACITY - 1])["line"],
        format!("line {}", PENDING_CAPACITY + 9)
    );
}

#[test]
fn events_map_to_sse_types_and_payloads() {
    let state = SseEvent::from_proxy_event(&ProxyEvent::State {
        state: ProxyState::Retrying,
        message: Some("m".into()),
        awaiting: None,
        running: true,
        retry_attempt: 3,
        retry_delay_ms: 4000,
    });
    assert_eq!(state.event_type, "state");
    let p = payload(&state);
    assert_eq!(p["state"], "retrying");
    assert_eq!(p["message"], "m");
    assert!(p["awaiting"].is_null());
    assert_eq!(p["running"], true);
    assert_eq!(p["retry_attempt"], 3);
    assert_eq!(p["retry_delay_ms"], 4000);

    let captcha = SseEvent::from_proxy_event(&ProxyEvent::NeedCaptcha {
        base64: "aGk=".into(),
        updated_at_ms: -5,
    });
    assert_eq!(captcha.event_type, "need_captcha");
    assert_eq!(payload(&captcha)["updated_at_ms"], -5);

    let err = SseEvent::from_proxy_event(&ProxyEvent::Error("bad \"x\"".into()));
    assert_eq!(err.event_type, "error");
    assert_eq!(err.data, "{\"message\":\"bad \\\"x\\\"\"}");

    let log = SseEvent::from_proxy_event(&ProxyEvent::Log("hello".into()));
    assert_eq!(log.data, "{\"line\":\"hello\"}");
}
