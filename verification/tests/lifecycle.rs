use pet_focus::lifecycle::{Delivery, LifecycleError, LifecycleState, WebServerManager};
use pet_focus::message::JsonText;
use pet_focus::notification::{send_websocket, Toast, ToastLevel, WebSocketNotification};
use pet_focus::registry::HandlerRegistry;
use pet_focus::router::{FrameOutcome, SocketFrame};

fn running() -> WebServerManager {
    let mut manager = WebServerManager::new();
    assert_eq!(manager.begin_start(), Ok(()));
    let status = manager.finish_start(Some("127.0.0.1:8787".to_string())).unwrap();
    assert!(status.running);
    manager
}

#[test]
fn new_gateway_is_stopped() {
    let manager = WebServerManager::new();
    let status = manager.status();
    assert!(!status.running);
    assert_eq!(status.connection_count, 0);
    assert_eq!(status.bound_address, None);
    assert!(manager.get_connection_manager().is_none());
}

#[test]
fn start_runs_the_gateway() {
    let mut manager = WebServerManager::new();
    assert_eq!(manager.begin_start(), Ok(()));
    assert!(!manager.is_running());
    let status = manager.finish_start(Some("127.0.0.1:8787".to_string())).unwrap();
    assert!(status.running);
    assert_eq!(status.connection_count, 0);
    assert_eq!(status.bound_address, Some("127.0.0.1:8787".to_string()));
    assert!(manager.is_running());
    assert!(manager.get_connection_manager().is_some());
}

#[test]
fn start_while_running_is_already_running() {
    let mut manager = running();
    assert_eq!(manager.begin_start(), Err(LifecycleError::AlreadyRunning));
    assert!(manager.is_running());
    assert_eq!(manager.status().bound_address, Some("127.0.0.1:8787".to_string()));
}

#[test]
fn start_while_starting_or_stopping_is_already_running() {
    let mut manager = WebServerManager::new();
    assert_eq!(manager.begin_start(), Ok(()));
    assert_eq!(manager.begin_start(), Err(LifecycleError::AlreadyRunning));
    manager.finish_start(Some("a".to_string())).unwrap();
    assert!(manager.begin_stop());
    assert_eq!(manager.begin_start(), Err(LifecycleError::AlreadyRunning));
}

#[test]
fn failed_bind_leaves_the_gateway_stopped() {
    let mut manager = WebServerManager::new();
    assert_eq!(manager.begin_start(), Ok(()));
    assert!(matches!(manager.finish_start(None), Err(LifecycleError::BindError)));
    assert!(!manager.is_running());
    assert_eq!(manager.begin_start(), Ok(()));
}

#[test]
fn finish_start_without_start_is_not_running() {
    let mut manager = WebServerManager::new();
    assert!(matches!(manager.finish_start(Some("a".to_string())), Err(LifecycleError::NotRunning)));
    assert!(!manager.is_running());
    let mut manager = running();
    assert!(matches!(manager.finish_start(Some("b".to_string())), Err(LifecycleError::NotRunning)));
    assert_eq!(manager.status().bound_address, Some("127.0.0.1:8787".to_string()));
}

#[test]
fn stop_is_idempotent() {
    let mut manager = WebServerManager::new();
    assert!(!manager.begin_stop());
    let status = manager.finish_stop();
    assert!(!status.running);
    assert_eq!(status.connection_count, 0);

    let mut manager = running();
    assert!(manager.accept().is_some());
    assert!(manager.begin_stop());
    assert!(!manager.begin_stop());
    let status = manager.finish_stop();
    assert!(!status.running);
    assert_eq!(status.connection_count, 0);
    assert_eq!(status.bound_address, None);
    assert!(!manager.begin_stop());
    let again = manager.finish_stop();
    assert!(!again.running);
    assert_eq!(manager.begin_start(), Ok(()));
}

#[test]
fn lifecycle_goes_round() {
    let mut manager = WebServerManager::new();
    assert_eq!(manager.current_state(), LifecycleState::Stopped);
    assert_eq!(manager.begin_start(), Ok(()));
    assert_eq!(manager.current_state(), LifecycleState::Starting);
    manager.finish_start(Some("127.0.0.1:1".to_string())).unwrap();
    assert_eq!(manager.current_state(), LifecycleState::Running);
    assert!(manager.begin_stop());
    assert_eq!(manager.current_state(), LifecycleState::Stopping);
    let status = manager.finish_stop();
    assert_eq!(manager.current_state(), LifecycleState::Stopped);
    assert!(!status.running);
    let untouched = manager.finish_stop();
    assert_eq!(untouched.bound_address, None);
    assert_eq!(manager.current_state(), LifecycleState::Stopped);
}

#[test]
fn only_a_running_gateway_accepts() {
    let mut manager = WebServerManager::new();
    assert_eq!(manager.accept(), None);
    assert_eq!(manager.begin_start(), Ok(()));
    assert_eq!(manager.accept(), None);
    manager.finish_start(Some("a".to_string())).unwrap();
    assert_eq!(manager.accept(), Some("conn-0".to_string()));
    assert_eq!(manager.accept(), Some("conn-1".to_string()));
    assert_eq!(manager.status().connection_count, 2);
    manager.disconnect("conn-0");
    manager.disconnect("conn-0");
    assert_eq!(manager.status().connection_count, 1);
    assert!(manager.begin_stop());
    assert_eq!(manager.accept(), None);
}

#[test]
fn gateway_answers_frames() {
    let mut registry: HandlerRegistry<u8> = HandlerRegistry::new();
    registry.register_handler("ping".to_string(), 0).unwrap();
    registry.register_event("todo-updated".to_string());
    let mut manager = running();
    let a = manager.accept().unwrap();
    let b = manager.accept().unwrap();
    let outcome = manager.receive(
        &a,
        SocketFrame::Text(r#"{"type":"call","id":"1","method":"ping","params":null}"#.to_string()),
        &registry,
    );
    let call = match outcome {
        FrameOutcome::Invoke { call, .. } => call,
        _ => panic!("ping is registered"),
    };
    assert_eq!(manager.finish_call(call, Ok(JsonText::new(r#"{"pong":true}"#.to_string()))), Ok(()));
    assert!(matches!(
        manager.receive(&b, SocketFrame::Text(r#"{"type":"listen","channel":"todo-updated"}"#.to_string()), &registry),
        FrameOutcome::Subscribed
    ));
    assert_eq!(manager.drain(&b).len(), 1);
    assert_eq!(
        manager.send_event("todo-updated", JsonText::new(r#"{"title":"x"}"#.to_string())),
        Delivery::Broadcast(vec![b.clone()])
    );
    assert_eq!(manager.send_event("nobody-listens", JsonText::null()), Delivery::Broadcast(Vec::new()));
    assert_eq!(
        manager.drain(&a),
        vec![r#"{"type":"reply","id":"1","method":"ping","ok":true,"data":{"pong":true}}"#.to_string()]
    );
    assert_eq!(
        manager.drain(&b),
        vec![r#"{"type":"event","channel":"todo-updated","payload":{"title":"x"}}"#.to_string()]
    );
}

#[test]
fn events_fall_back_when_the_gateway_does_not_run() {
    let mut manager = WebServerManager::new();
    let notification = WebSocketNotification::new("todo-updated".to_string(), None);
    assert_eq!(notification.payload.text, "null");
    assert_eq!(send_websocket(&mut manager, &notification), Delivery::Local);
    assert_eq!(manager.begin_start(), Ok(()));
    assert_eq!(send_websocket(&mut manager, &notification), Delivery::Local);
    manager.finish_start(Some("a".to_string())).unwrap();
    assert_eq!(send_websocket(&mut manager, &notification), Delivery::Broadcast(Vec::new()));
    assert!(manager.begin_stop());
    assert_eq!(send_websocket(&mut manager, &notification), Delivery::Local);
}

#[test]
fn notification_is_broadcast_on_its_own_channel() {
    let mut registry: HandlerRegistry<u8> = HandlerRegistry::new();
    registry.register_event("todo-updated".to_string());
    registry.register_event("other".to_string());
    let mut manager = running();
    let a = manager.accept().unwrap();
    let b = manager.accept().unwrap();
    manager.receive(&a, SocketFrame::Text(r#"{"type":"listen","channel":"todo-updated"}"#.to_string()), &registry);
    manager.receive(&b, SocketFrame::Text(r#"{"type":"listen","channel":"other"}"#.to_string()), &registry);
    manager.drain(&a);
    manager.drain(&b);
    let notification =
        WebSocketNotification::new("todo-updated".to_string(), Some(JsonText::new("[1,2]".to_string())));
    assert_eq!(send_websocket(&mut manager, &notification), Delivery::Broadcast(vec![a.clone()]));
    assert_eq!(
        manager.drain(&a),
        vec![r#"{"type":"event","channel":"todo-updated","payload":[1,2]}"#.to_string()]
    );
    assert!(manager.drain(&b).is_empty());
}

#[test]
fn toast_levels_have_names() {
    assert_eq!(ToastLevel::Info.as_str(), "info");
    assert_eq!(ToastLevel::Success.as_str(), "success");
    assert_eq!(ToastLevel::Warning.as_str(), "warning");
    assert_eq!(ToastLevel::Error.as_str(), "error");
}

#[test]
fn toast_becomes_an_event_for_the_front_end() {
    let toast = Toast { message: "saved \"it\"".to_string(), level: ToastLevel::Success };
    let event = WebSocketNotification::toast(&toast);
    assert_eq!(event.event, "toast-notification");
    assert_eq!(event.payload.text, r#"{"level":"success","message":"saved \"it\""}"#);
    let value: serde_json::Value = serde_json::from_str(&event.payload.text).unwrap();
    assert_eq!(value["message"], "saved \"it\"");
    assert_eq!(value["level"], "success");
}
