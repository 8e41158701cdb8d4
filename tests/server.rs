use controller_server::actions::{Action, Button, DeltaCoordinates, Key};
use controller_server::commands::{
    ClientList, ClientTerminated, ProcessError, ServerRequest, ServerResponse, ServerStarted,
    ServerStopped, ServerTerminated, VariantOf,
};
use controller_server::control::{CommandListener, CommandProcessor, NO_PROCESSOR};
use controller_server::dispatch::{decode_frame, ConnectionStatus};
use controller_server::input::{Direction, InputMapper, InputOp};
use controller_server::keybinds::{KeyBindings, OsButton, OsKey};
use controller_server::pool::{ClientPool, PoolError, TerminationOutcome, CLIENT_POOL_RESERVED_ID};
use controller_server::sender::CommandSender;
use controller_server::server::{Handshake, ServerConfig, ServerError, ServerState, UNKNOWN_CLIENT};
use controller_server::session::{ExitReason, SessionEvent, SessionState};

#[test]
fn test_server_config_creation() {
    let config = ServerConfig::new(8000, 10);
    assert_eq!(config.starting_port, 8000);
    assert_eq!(config.max_clients, 10);
}

#[test]
fn test_variant_of_server_started() {
    let response = ServerResponse::ServerStarted(ServerStarted {});
    let _extracted = ServerStarted::assert_variant_of(response);
}

#[test]
fn variant_of_extracts_payload() {
    let response = ServerResponse::ClientTerminated(ClientTerminated { client_id: 123 });
    assert_eq!(ClientTerminated::assert_variant_of(response).client_id, 123);
}

#[test]
fn process_error_keeps_message() {
    assert_eq!(ProcessError::new("Test error message".to_string()).message, "Test error message");
}

#[test]
fn key_bindings_translate() {
    let bindings = KeyBindings::new();
    assert_eq!(bindings.translate_to_os_key(&Key::Enter), Some(vec![OsKey::Return]));
    assert_eq!(bindings.translate_to_os_key(&Key::Pause), Some(vec![OsKey::MediaStop]));
    assert_eq!(
        bindings.translate_to_os_key(&Key::PreviousTab),
        Some(vec![OsKey::Control, OsKey::Shift, OsKey::Tab])
    );
    assert_eq!(bindings.translate_to_os_key(&Key::BrightnessDown), None);
    assert_eq!(bindings.translate_to_os_key(&Key::NoOp), None);
    assert_eq!(bindings.translate_to_os_button(&Button::Left), Some(OsButton::Left));
}

#[test]
fn combo_pressed_in_order_released_in_reverse() {
    let mapper = InputMapper::new(1, 1, 1, 1500);
    assert_eq!(
        mapper.plan(&Action::KeyPress(Key::CloseTab)),
        vec![
            InputOp::Key(OsKey::Control, Direction::Press),
            InputOp::Key(OsKey::Unicode('w'), Direction::Press),
            InputOp::Key(OsKey::Unicode('w'), Direction::Release),
            InputOp::Key(OsKey::Control, Direction::Release),
        ]
    );
    assert_eq!(mapper.plan(&Action::KeyPress(Key::BrightnessDown)), vec![]);
}

#[test]
fn motion_is_scaled_by_sensitivity() {
    let mapper = InputMapper::new(3, 2, 1, 1500);
    assert_eq!(
        mapper.plan(&Action::MouseMove(DeltaCoordinates { x: 2, y: -8 })),
        vec![InputOp::MoveMouse { dx: 6, dy: -16 }]
    );
    assert_eq!(mapper.plan(&Action::Scroll(3)), vec![InputOp::Scroll(3)]);
    assert_eq!(mapper.plan(&Action::Text('q')), vec![InputOp::Text('q')]);
    assert_eq!(
        mapper.plan(&Action::MouseClick(Button::Left)),
        vec![InputOp::Button(OsButton::Left, Direction::Click)]
    );
    assert_eq!(
        mapper.plan(&Action::MouseDown(Button::Left)),
        vec![InputOp::Button(OsButton::Left, Direction::Press)]
    );
    assert_eq!(mapper.plan(&Action::Shutdown), vec![]);
}

#[test]
fn sensitivity_stays_between_one_and_255() {
    let mut mapper = InputMapper::new(3, 7, 1, 1500);
    mapper.add_sensitivity(-10);
    assert_eq!(mapper.motion.move_x_sense, 1);
    assert_eq!(mapper.motion.move_y_sense, 1);
    mapper.add_sensitivity(4);
    assert_eq!(mapper.motion.move_x_sense, 5);
    let mut high = InputMapper::new(250, 250, 1, 1500);
    high.add_sensitivity(100);
    assert_eq!(high.motion.move_x_sense, 255);
}

#[test]
fn pool_ids_increase_and_are_not_reused() {
    let mut pool = ClientPool::new(7878, 10);
    let a = pool.add("10.0.0.1:5000".to_string()).unwrap();
    let b = pool.add("10.0.0.2:5000".to_string()).unwrap();
    assert_eq!((a.id, a.port), (1, 7879));
    assert_eq!((b.id, b.port), (2, 7880));
    assert!(matches!(pool.handle_termination(1), TerminationOutcome::Removed(ref c) if c.id == 1));
    pool.clear();
    let c = pool.add("10.0.0.3:5000".to_string()).unwrap();
    assert_eq!(c.id, 3);
    assert_ne!(c.id, 0);
}

#[test]
fn pool_refuses_past_bound() {
    let mut pool = ClientPool::new(7878, 2);
    assert!(pool.add("a".to_string()).is_ok());
    assert!(pool.add("b".to_string()).is_ok());
    assert_eq!(pool.add("c".to_string()), Err(PoolError::PoolFull));
    assert_eq!(pool.len(), 2);
}

#[test]
fn pool_refuses_ports_past_the_last() {
    let mut pool = ClientPool::new(65534, 10);
    assert_eq!(pool.add("a".to_string()).unwrap().port, 65535);
    assert_eq!(pool.add("b".to_string()), Err(PoolError::PortsExhausted));
}

#[test]
fn pool_termination_flow() {
    let mut pool = ClientPool::new(7878, 10);
    let a = pool.add("10.0.0.1:5000".to_string()).unwrap();
    assert!(!pool.exit_requested(a.id));
    assert_eq!(pool.terminate_client(a.id), Ok(()));
    assert!(pool.exit_requested(a.id));
    assert_eq!(pool.terminate_client(42), Err(PoolError::NotFound(42)));
    match pool.handle_termination(a.id) {
        TerminationOutcome::Removed(info) => {
            assert_eq!(info.id, 1);
            assert_eq!(info.address, "10.0.0.1:5000");
            assert_eq!(info.port, 7879);
        }
        other => panic!("unexpected outcome {:?}", other),
    }
    assert_eq!(pool.handle_termination(a.id), TerminationOutcome::Ignored(1));
    assert!(pool.exit_requested(a.id));
    assert_eq!(pool.handle_termination(CLIENT_POOL_RESERVED_ID), TerminationOutcome::Stop);
    assert_eq!(pool.shutdown(), CLIENT_POOL_RESERVED_ID);
}

#[test]
fn pool_lists_clients_by_id() {
    let mut pool = ClientPool::new(100, 10);
    pool.add("x".to_string()).unwrap();
    pool.add("y".to_string()).unwrap();
    let list = pool.client_list();
    assert_eq!(list.len(), 2);
    assert_eq!(list[0].address, "x");
    assert_eq!(list[1].port, 102);
}

#[test]
fn handshake_admits_after_init_server() {
    let mut state = ServerState::new(ServerConfig::new(7878, 10));
    let (outcome, notice) = state.command_parser(&ServerRequest::InitServer);
    assert_eq!(outcome, Ok(ServerResponse::ServerStarted(ServerStarted {})));
    assert_eq!(notice, None);
    match state.handle_new_client("192.168.1.42:5000".to_string(), "linux".to_string()) {
        Handshake::Reply { response, admitted } => {
            assert_eq!(response.port, 7879);
            assert_eq!(response.server_os, "linux");
            assert_eq!(admitted.unwrap().id, 1);
        }
        Handshake::Refused => panic!("client refused"),
    }
    // The client then sends [0x02, 0x03] on its session port.
    let plan = decode_frame(&[0x02, 0x03]);
    assert_eq!(plan.status, Ok(ConnectionStatus::Connected));
    let mapper = InputMapper::new(1, 1, 1, 1500);
    assert_eq!(mapper.plan(&plan.actions[0]), vec![InputOp::Scroll(3)]);
}

#[test]
fn handshake_refused_when_stopped() {
    let mut state = ServerState::new(ServerConfig::new(7878, 10));
    assert_eq!(state.handle_new_client("a".to_string(), "linux".to_string()), Handshake::Refused);
    state.command_parser(&ServerRequest::InitServer);
    let (outcome, _) = state.command_parser(&ServerRequest::StopServer);
    assert_eq!(outcome, Ok(ServerResponse::ServerStopped(ServerStopped {})));
    assert_eq!(state.handle_new_client("a".to_string(), "linux".to_string()), Handshake::Refused);
    assert_eq!(state.pool.len(), 0);
}

#[test]
fn handshake_full_pool_gets_sentinel() {
    let mut state = ServerState::new(ServerConfig::new(7878, 1));
    state.command_parser(&ServerRequest::InitServer);
    assert!(matches!(
        state.handle_new_client("a".to_string(), "linux".to_string()),
        Handshake::Reply { ref response, .. } if response.port == 7879
    ));
    match state.handle_new_client("b".to_string(), "linux".to_string()) {
        Handshake::Reply { response, admitted } => {
            assert_eq!(response.port, -1);
            assert!(admitted.is_none());
        }
        Handshake::Refused => panic!("refused"),
    }
}

#[test]
fn command_parser_terminations() {
    let mut state = ServerState::new(ServerConfig::new(7878, 10));
    state.command_parser(&ServerRequest::InitServer);
    state.handle_new_client("a".to_string(), "linux".to_string());
    let (outcome, notice) = state.command_parser(&ServerRequest::TerminateClient(1));
    assert_eq!(outcome, Ok(ServerResponse::ClientTerminated(ClientTerminated { client_id: 1 })));
    assert_eq!(notice, Some(1));
    let (outcome, notice) = state.command_parser(&ServerRequest::TerminateClient(9));
    assert_eq!(outcome, Err(ProcessError::new(UNKNOWN_CLIENT.to_string())));
    assert_eq!(notice, None);
    let (outcome, _) = state.command_parser(&ServerRequest::GetClients);
    match outcome {
        Ok(ServerResponse::ClientList(ClientList { clients })) => assert_eq!(clients.len(), 1),
        other => panic!("unexpected {:?}", other),
    }
    let (outcome, notice) = state.command_parser(&ServerRequest::TerminateServer);
    assert_eq!(outcome, Ok(ServerResponse::ServerTerminated(ServerTerminated)));
    assert_eq!(notice, Some(0));
    assert!(state.terminate_signal);
    assert_eq!(state.pool.len(), 0);
}

#[test]
fn listener_answers_each_request_in_order() {
    let mut listener: CommandListener<ServerState> = CommandListener::new();
    let (resp, notice) = listener.parse_message(&ServerRequest::InitServer);
    assert_eq!(resp, ServerResponse::Error("No processor set".to_string()));
    assert_eq!(notice, None);
    listener.set_command_processor(ServerState::new(ServerConfig::new(7878, 10)));
    let requests = vec![
        ServerRequest::InitServer,
        ServerRequest::TerminateClient(5),
        ServerRequest::GetClients,
        ServerRequest::StopServer,
        ServerRequest::TerminateServer,
    ];
    let responses = listener.process_all(&requests);
    assert_eq!(responses.len(), 5);
    assert_eq!(responses[0].0, ServerResponse::ServerStarted(ServerStarted {}));
    assert_eq!(responses[1].0, ServerResponse::Error(UNKNOWN_CLIENT.to_string()));
    assert!(matches!(responses[2].0, ServerResponse::ClientList(_)));
    assert_eq!(responses[3].0, ServerResponse::ServerStopped(ServerStopped {}));
    assert_eq!(responses[4], (ServerResponse::ServerTerminated(ServerTerminated), Some(0)));
}

#[test]
fn command_processor_slot() {
    let mut slot: CommandProcessor<ServerState> = CommandProcessor::new();
    assert!(!slot.has_processor());
    let (outcome, _) = slot.process(&ServerRequest::InitServer);
    assert_eq!(outcome, Err(ProcessError::new("No processor set".to_string())));
    slot.set_processor(ServerState::new(ServerConfig::new(7878, 10)));
    assert!(slot.has_processor());
    assert_eq!(slot.process(&ServerRequest::InitServer).0, Ok(ServerResponse::ServerStarted(ServerStarted {})));
}

#[test]
fn session_transitions() {
    let s = SessionState::Listening;
    assert_eq!(s.next(SessionEvent::Accepted), SessionState::Running);
    assert_eq!(s.next(SessionEvent::ListenerFailed), SessionState::Terminating(ExitReason::Unexpected));
    let r = SessionState::Running;
    assert_eq!(r.next(SessionEvent::Dispatched(Ok(ConnectionStatus::Connected))), SessionState::Running);
    assert_eq!(
        r.next(SessionEvent::Dispatched(Ok(ConnectionStatus::Disconnected))),
        SessionState::Terminating(ExitReason::RequestedByClient)
    );
    assert_eq!(
        r.next(SessionEvent::ReadTimeout { exit_requested: true }),
        SessionState::Terminating(ExitReason::RequestedByServer)
    );
    assert_eq!(r.next(SessionEvent::ReadTimeout { exit_requested: false }), SessionState::Running);
    assert_eq!(r.next(SessionEvent::PeerClosed), SessionState::Terminating(ExitReason::Unexpected));
    assert!(!ExitReason::RequestedByServer.notifies_pool());
    assert!(ExitReason::RequestedByClient.notifies_pool());
    assert!(ExitReason::Unexpected.notifies_pool());
}

#[test]
fn terminated_client_session_ends_and_is_removed_once() {
    let mut pool = ClientPool::new(7878, 10);
    let a = pool.add("a".to_string()).unwrap();
    pool.terminate_client(a.id).unwrap();
    let state = SessionState::Running.next(SessionEvent::ReadTimeout { exit_requested: pool.exit_requested(a.id) });
    assert_eq!(state, SessionState::Terminating(ExitReason::RequestedByServer));
    assert!(matches!(pool.handle_termination(a.id), TerminationOutcome::Removed(_)));
    assert_eq!(pool.handle_termination(a.id), TerminationOutcome::Ignored(a.id));
}

#[test]
fn command_sender_round_trip() {
    let (req_tx, req_rx) = std::sync::mpsc::channel();
    let (resp_tx, resp_rx) = std::sync::mpsc::channel();
    let mut sender = CommandSender::new(req_tx, resp_rx);
    sender.send_request(ServerRequest::TerminateClient(42)).unwrap();
    assert_eq!(req_rx.recv().unwrap(), ServerRequest::TerminateClient(42));
    resp_tx.send(ServerResponse::Error("Test error message".to_string())).unwrap();
    assert_eq!(sender.receive_response(), Ok(ServerResponse::Error("Test error message".to_string())));
    drop(resp_tx);
    assert_eq!(sender.receive_response(), Err(ServerError::ChannelClosed));
    drop(req_rx);
    assert_eq!(sender.send_request(ServerRequest::InitServer), Err(ServerError::ChannelClosed));
}

#[test]
fn stop_and_terminate_are_idempotent() {
    let mut state = ServerState::new(ServerConfig::new(7878, 10));
    state.command_parser(&ServerRequest::InitServer);
    state.handle_new_client("a".to_string(), "linux".to_string());
    for _ in 0..2 {
        let (outcome, notice) = state.command_parser(&ServerRequest::StopServer);
        assert_eq!(outcome, Ok(ServerResponse::ServerStopped(ServerStopped {})));
        assert_eq!(notice, None);
        assert!(!state.listening_to_clients);
        assert_eq!(state.pool.len(), 0);
    }
    for _ in 0..2 {
        let (outcome, notice) = state.command_parser(&ServerRequest::TerminateServer);
        assert_eq!(outcome, Ok(ServerResponse::ServerTerminated(ServerTerminated)));
        assert_eq!(notice, Some(CLIENT_POOL_RESERVED_ID));
        assert!(state.terminate_signal);
    }
}

#[test]
fn server_communicator_is_the_command_sender() {
    let (req_tx, req_rx) = std::sync::mpsc::channel();
    let (_resp_tx, resp_rx) = std::sync::mpsc::channel();
    let communicator: controller_server::sender::ServerCommunicator = CommandSender::new(req_tx, resp_rx);
    communicator.send_request(ServerRequest::GetClients).unwrap();
    assert_eq!(req_rx.recv().unwrap(), ServerRequest::GetClients);
}

#[test]
fn listener_without_processor_answers_every_request_with_the_same_error() {
    let mut listener: CommandListener<ServerState> = CommandListener::new();
    let requests = vec![ServerRequest::InitServer, ServerRequest::TerminateClient(3)];
    let responses = listener.process_all(&requests);
    assert_eq!(responses.len(), 2);
    for (resp, notice) in responses {
        assert_eq!(resp, ServerResponse::Error(NO_PROCESSOR.to_string()));
        assert_eq!(notice, None);
    }
}
