use mech_utilities::{MechCode, Register, RunLoopMessage, RunLoopState, SocketMessage};

type Wire = SocketMessage<String, String, i64, Vec<u32>>;
type Control = RunLoopMessage<String, String, i64, Vec<u32>, &'static str>;

fn promote(m: Wire, origin: u64) -> Result<Control, String> {
    m.promote(origin)
}

#[test]
fn register_new_holds_fields() {
    let r = Register::new(5, 0);
    assert_eq!(r.table, 5);
    assert_eq!(r.column, 0);
}

#[test]
fn connect_needs_a_socket() {
    match promote(SocketMessage::RemoteCoreConnect("10.0.0.1:3012".to_string()), 3) {
        Err(address) => assert_eq!(address, "10.0.0.1:3012"),
        Ok(m) => panic!("promoted without a socket: {:?}", m),
    }
}

#[test]
fn listening_and_producing_carry_origin() {
    let reg = Register::new(5, 0);
    assert!(matches!(promote(SocketMessage::Listening(reg), 3),
        Ok(RunLoopMessage::Listening((3, r))) if r == reg));
    assert!(matches!(promote(SocketMessage::Producing(reg), 8),
        Ok(RunLoopMessage::Producing((8, r))) if r == reg));
}

#[test]
fn other_variants_promote_one_to_one() {
    assert!(matches!(promote(SocketMessage::Ping, 1), Ok(RunLoopMessage::Ping)));
    assert!(matches!(promote(SocketMessage::Pong, 1), Ok(RunLoopMessage::Pong)));
    assert!(matches!(promote(SocketMessage::RemoteCoreDisconnect(9), 1),
        Ok(RunLoopMessage::RemoteCoreDisconnect(9))));
    assert!(matches!(promote(SocketMessage::RemoveBlock(4), 1), Ok(RunLoopMessage::RemoveBlock(4))));
    match promote(SocketMessage::Transaction(vec![1, 2, 3]), 1) {
        Ok(RunLoopMessage::Transaction(t)) => assert_eq!(t, vec![1, 2, 3]),
        other => panic!("unexpected {:?}", other),
    }
    match promote(SocketMessage::Code(MechCode::String("#x = 1".to_string())), 1) {
        Ok(RunLoopMessage::Code(MechCode::String(s))) => assert_eq!(s, "#x = 1"),
        other => panic!("unexpected {:?}", other),
    }
}

#[test]
fn removing_missing_block_changes_nothing() {
    let mut state: RunLoopState<&str, u8> = RunLoopState::new();
    state.add_block("a");
    state.add_block("b");
    assert_eq!(state.remove_block(2), None);
    assert_eq!(state.remove_block(usize::MAX), None);
    assert_eq!(state.block_count(), 2);
    assert_eq!(state.remove_block(0), Some("a"));
    assert_eq!(state.block_count(), 1);
    assert_eq!(state.remove_block(0), Some("b"));
    assert_eq!(state.remove_block(0), None);
}

#[test]
fn disconnecting_unknown_core_changes_nothing() {
    let mut state: RunLoopState<&str, &str> = RunLoopState::new();
    assert_eq!(state.connect(1, "sock1"), None);
    assert_eq!(state.disconnect(2), None);
    assert!(state.is_connected(1));
    assert_eq!(state.connect(1, "sock1b"), Some("sock1"));
    assert_eq!(state.disconnect(1), Some("sock1b"));
    assert!(!state.is_connected(1));
    assert_eq!(state.disconnect(1), None);
}

#[test]
fn subscriptions_outlive_disconnect() {
    let mut state: RunLoopState<u8, u8> = RunLoopState::new();
    state.connect(4, 0);
    state.listen(4, Register::new(5, 0));
    assert_eq!(state.disconnect(4), Some(0));
    assert!(!state.is_connected(4));
}
