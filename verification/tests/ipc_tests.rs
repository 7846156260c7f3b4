use lightos_core::ipc::{
    register_endpoint, receive_message, send_message, Endpoint, IpcError, IpcKind, IpcManager,
    Message, SimpleEndpointMap,
};

fn msg(sender: u64, byte: u8) -> Message {
    Message { sender: Endpoint(sender), kind: IpcKind::Request, payload: [byte; 48] }
}

#[test]
fn init_registers_kernel_log_endpoint() {
    let mut m = IpcManager::init();
    // Endpoint 1 exists with an empty inbox.
    assert_eq!(receive_message(&mut m, Endpoint(1)), Err(IpcError::Timeout));
    // Registering it again collides.
    assert_eq!(register_endpoint(&mut m, Endpoint(1)), Err(IpcError::InternalError));
}

#[test]
fn send_and_receive_round_trip() {
    let mut m = IpcManager::init();
    register_endpoint(&mut m, Endpoint(7)).unwrap();
    let sent = msg(1, 0xAB);
    send_message(&mut m, Endpoint(7), sent).unwrap();
    let got = receive_message(&mut m, Endpoint(7)).unwrap();
    assert_eq!(got, sent);
    // The inbox is empty again.
    assert_eq!(receive_message(&mut m, Endpoint(7)), Err(IpcError::Timeout));
}

#[test]
fn send_to_unknown_endpoint_fails() {
    let mut m = IpcManager::init();
    assert_eq!(
        send_message(&mut m, Endpoint(99), msg(1, 0)),
        Err(IpcError::EndpointNotFound)
    );
    assert_eq!(
        receive_message(&mut m, Endpoint(99)),
        Err(IpcError::EndpointNotFound)
    );
}

#[test]
fn full_inbox_rejects_second_send() {
    let mut m = IpcManager::init();
    register_endpoint(&mut m, Endpoint(7)).unwrap();
    send_message(&mut m, Endpoint(7), msg(1, 1)).unwrap();
    assert_eq!(
        send_message(&mut m, Endpoint(7), msg(1, 2)),
        Err(IpcError::InvalidEndpointState)
    );
    // The first message is still the one delivered.
    assert_eq!(receive_message(&mut m, Endpoint(7)).unwrap(), msg(1, 1));
}

#[test]
fn endpoint_table_capacity_is_bounded() {
    let mut table = SimpleEndpointMap::new();
    for id in 0..16u64 {
        assert!(table.register(Endpoint(id)).is_ok());
    }
    assert_eq!(table.register(Endpoint(100)), Err(IpcError::InternalError));
    // Duplicate registration fails even while there is room.
    let mut small = SimpleEndpointMap::new();
    small.register(Endpoint(3)).unwrap();
    assert_eq!(small.register(Endpoint(3)), Err(IpcError::InternalError));
}

#[test]
fn messages_go_to_the_addressed_inbox_only() {
    let mut m = IpcManager::init();
    register_endpoint(&mut m, Endpoint(2)).unwrap();
    register_endpoint(&mut m, Endpoint(3)).unwrap();
    send_message(&mut m, Endpoint(3), msg(2, 0x33)).unwrap();
    assert_eq!(receive_message(&mut m, Endpoint(2)), Err(IpcError::Timeout));
    assert_eq!(receive_message(&mut m, Endpoint(3)).unwrap(), msg(2, 0x33));
}
