use winetd::config::ConfigRecord;
use winetd::dispatch::{subsystem_init_result, DispatchLoop, DispatchState, WakeDecision};
use winetd::error::Error;
use winetd::handoff::{HandoffAction, HandoffBlob, HandoffMachine, HANDOFF_BLOB_SIZE};
use winetd::registry::{ListenerRegistry, RegistryBuilder};

fn registry_of(ports: &[u16]) -> ListenerRegistry {
    let mut b = RegistryBuilder::new();
    for p in ports {
        b.offer_record(ConfigRecord { port: *p, command: "echo".to_owned() })
            .expect("valid record admitted");
        b.bind_succeeded();
    }
    b.finish()
}

#[test]
fn stop_wins_over_simultaneously_ready_listeners() {
    let reg = registry_of(&[9000, 9001, 9002]);
    let mut d = DispatchLoop::new();
    // The control token is ready together with two listeners: the loop
    // stops with success and accepts nothing further.
    let decision = d.on_wake(&reg, &vec![2, 0, 3]);
    assert_eq!(decision, WakeDecision::Stop);
    assert_eq!(d.state, DispatchState::Stopped);
}

#[test]
fn ready_listeners_are_accepted_in_batch_order() {
    let reg = registry_of(&[9000, 9001, 9002]);
    let mut d = DispatchLoop::new();
    let decision = d.on_wake(&reg, &vec![3, 1]);
    assert_eq!(decision, WakeDecision::Accept { tokens: vec![3, 1] });
    assert_eq!(d.state, DispatchState::Running);
}

#[test]
fn empty_batch_accepts_nothing_and_keeps_running() {
    let reg = registry_of(&[9000]);
    let mut d = DispatchLoop::new();
    let decision = d.on_wake(&reg, &Vec::new());
    assert_eq!(decision, WakeDecision::Accept { tokens: Vec::new() });
    assert_eq!(d.state, DispatchState::Running);
}

#[test]
fn unknown_token_is_fatal() {
    let reg = registry_of(&[9000, 9001]);
    let mut d = DispatchLoop::new();
    let decision = d.on_wake(&reg, &vec![1, 7]);
    assert_eq!(
        decision,
        WakeDecision::Fault { err: Error::UnknownEventError { token: 7 } }
    );
    assert_eq!(
        d.state,
        DispatchState::Failed { err: Error::UnknownEventError { token: 7 } }
    );
}

#[test]
fn subsystem_startup_code_zero_is_success() {
    assert_eq!(subsystem_init_result(0), Ok(()));
    assert_eq!(
        subsystem_init_result(10014),
        Err(Error::SubsystemInitError { code: 10014 })
    );
}

/// One listener on port 9000 bound to a trivial echo command: a wake on its
/// token leads to an accept, and the handoff delivers exactly one blob as
/// the first bytes of the worker's standard input.
#[test]
fn echo_listener_end_to_end_decision_path() {
    let reg = registry_of(&[9000]);
    let mut d = DispatchLoop::new();

    let decision = d.on_wake(&reg, &vec![1]);
    let tokens = match decision {
        WakeDecision::Accept { tokens } => tokens,
        other => panic!("expected an accept, got {:?}", other),
    };
    assert_eq!(tokens, vec![1]);

    let entry = reg.lookup(tokens[0]).expect("reported token resolves");
    assert_eq!(entry.port, 9000);
    assert_eq!(entry.command, "echo");

    // The host accepts the connection and runs the handoff; the pipe is
    // simulated by a byte buffer standing for the worker's standard input.
    let mut worker_stdin: Vec<u8> = Vec::new();
    let mut m = HandoffMachine::start();
    loop {
        match m.next_action() {
            HandoffAction::CreatePipe => m.pipe_created(),
            HandoffAction::SpawnWorker => m.worker_spawned(),
            HandoffAction::DuplicateSocket => {
                let blob = HandoffBlob::new(vec![42u8; HANDOFF_BLOB_SIZE]).unwrap();
                m.socket_duplicated(blob);
            }
            HandoffAction::CloseSource => m.source_closed(true),
            HandoffAction::WriteBlob { len } => {
                let bytes = m.blob_to_write().as_bytes().clone();
                worker_stdin.extend_from_slice(&bytes);
                m.blob_written(len);
            }
            HandoffAction::Release { .. } => m.handles_released(),
            HandoffAction::Done => break,
        }
    }
    assert_eq!(m.outcome(), Ok(()));
    // The worker reads exactly one blob before anything else.
    assert_eq!(&worker_stdin[..HANDOFF_BLOB_SIZE], &[42u8; HANDOFF_BLOB_SIZE][..]);
    assert_eq!(worker_stdin.len(), HANDOFF_BLOB_SIZE);

    // The loop keeps running until the stop signal arrives.
    assert_eq!(d.state, DispatchState::Running);
    let decision = d.on_wake(&reg, &vec![0]);
    assert_eq!(decision, WakeDecision::Stop);
    assert_eq!(d.state, DispatchState::Stopped);
}
