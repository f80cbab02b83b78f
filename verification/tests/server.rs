use building_blocks::server::messages::{ServerConnectionMessage, ServerMessage, ServerWorldMessage};
use building_blocks::server::{connection_accepted_replies, ClientInfo};

#[test]
fn accepted_connection_gets_acknowledged_then_enters_default_world() {
    let replies = connection_accepted_replies();
    assert_eq!(replies.len(), 2);
    assert!(matches!(replies[0], ServerMessage::Connection(ServerConnectionMessage::Connect {})));
    match &replies[1] {
        ServerMessage::World(ServerWorldMessage::EnterWorld { id }) => assert_eq!(id, "default"),
        other => panic!("unexpected reply {other:?}"),
    }
}

#[test]
fn clients_are_equal_by_id() {
    let a = ClientInfo { id: "mrpedrobraga".to_string() };
    let b = a.clone();
    assert!(a == b);
    assert!(a != ClientInfo { id: "someone".to_string() });
}
