use clepsydra::websocket::{status_message, ConnectedClients, StatusMessage, WsMessage};

#[test]
fn clients_are_counted_once() {
    let mut c = ConnectedClients::new();
    assert_eq!(c.client_count(), 0);
    assert_eq!(c.subscribe("a".to_string()), 1);
    assert_eq!(c.subscribe("b".to_string()), 2);
    assert_eq!(c.subscribe("a".to_string()), 2);
    assert_eq!(c.client_count(), 2);
    assert_eq!(c.unsubscribe("a"), 1);
    assert_eq!(c.unsubscribe("a"), 1);
    assert_eq!(c.unsubscribe("zzz"), 1);
    assert_eq!(c.unsubscribe("b"), 0);
}

#[test]
fn connecting_and_disconnecting_restores_the_count() {
    let mut c = ConnectedClients::new();
    c.subscribe("x".to_string());
    let before = c.client_count();
    c.subscribe("y".to_string());
    c.unsubscribe("y");
    assert_eq!(c.client_count(), before);
}

#[test]
fn status_messages_carry_their_text() {
    match status_message("ok", "服务就绪") {
        WsMessage::Status(StatusMessage { status, message }) => {
            assert_eq!(status, "ok");
            assert_eq!(message, "服务就绪");
        }
        _ => panic!("not a status message"),
    }
}
