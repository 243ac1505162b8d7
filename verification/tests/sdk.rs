use surfpool::keys::Pubkey;
use surfpool::sdk::airdrop::{AirdropAction, AirdropEvent, AirdropWait};
use surfpool::sdk::builder::BlockProductionMode;
use surfpool::sdk::error::SurfnetError;
use surfpool::sdk::event::SimnetEvent;
use surfpool::sdk::startup::{judge_readiness, StartAction, StartEvent, Startup, SurfpoolConfig};
use surfpool::sdk::stop::{StopAction, StopEvent, Stopping};
use surfpool::sdk::surfnet::Surfnet;

fn key(byte: u8) -> Pubkey {
    Pubkey { bytes: [byte; 32] }
}

fn base58(byte: u8) -> String {
    solana_pubkey::Pubkey::from([byte; 32]).to_string()
}

/// Takes a start up to the point where readiness is awaited.
fn to_readiness(begun: (Startup, StartAction)) -> (Startup, SurfpoolConfig) {
    let (startup, action) = begun;
    assert!(matches!(action, StartAction::AllocatePort));
    let (startup, action) = startup.step(StartEvent::Port(Ok(12345)));
    assert!(matches!(action, StartAction::AllocatePort));
    let (startup, action) = startup.step(StartEvent::Port(Ok(12346)));
    assert!(matches!(action, StartAction::InitSvm { .. }));
    let (startup, action) = startup.step(StartEvent::Svm(Ok(())));
    let config = match action {
        StartAction::SpawnRunloop(config) => config,
        other => panic!("unexpected: {:?}", other),
    };
    let (startup, action) = startup.step(StartEvent::Runloop(Ok(())));
    assert!(matches!(action, StartAction::ReceiveEvent));
    (startup, config)
}

/// Answers every balance query of a start with the same balance.
fn fund_all(startup: Startup, lamports: u64) -> (Surfnet, Vec<Pubkey>) {
    let (mut startup, mut action) = startup.step(StartEvent::Simnet(Ok(SimnetEvent::Ready(0))));
    let mut asked: Vec<Pubkey> = Vec::new();
    loop {
        let event = match action {
            StartAction::Airdrop(AirdropAction::CheckDeadline) => AirdropEvent::Checked(true),
            StartAction::Airdrop(AirdropAction::QueryBalance(address)) => {
                asked.push(address);
                AirdropEvent::Balance(Ok(lamports))
            }
            StartAction::Finish(result) => return (result.unwrap(), asked),
            other => panic!("unexpected: {:?}", other),
        };
        (startup, action) = startup.step(StartEvent::Airdrop(event));
    }
}

fn started() -> Surfnet {
    fund_all(to_readiness(Surfnet::start()).0, 10_000_000_000).0
}

fn failure(action: StartAction) -> SurfnetError {
    match action {
        StartAction::Finish(Err(error)) => error,
        other => panic!("unexpected: {:?}", other),
    }
}

#[test]
fn network_starts_with_its_settings() {
    let begun = Surfnet::builder()
        .remote_rpc_url("https://rpc".to_string())
        .slot_time_ms(400)
        .airdrop_sol(77)
        .airdrop_addresses(vec![key(1), key(2)])
        .skip_blockhash_check(true)
        .block_production_mode(BlockProductionMode::Named("clock".to_string()))
        .start();
    let (startup, config) = to_readiness(begun);
    assert!(!config.simnet.offline_mode);
    assert_eq!(config.simnet.remote_rpc_url, Some("https://rpc".to_string()));
    assert_eq!(config.simnet.slot_time, 400);
    assert_eq!(config.simnet.airdrop_token_amount, 77);
    assert!(config.simnet.skip_blockhash_check);
    assert_eq!(config.rpc.bind_host, "127.0.0.1");
    assert_eq!(config.rpc.bind_port, 12345);
    assert_eq!(config.rpc.ws_port, 12346);
    let (surfnet, asked) = fund_all(startup, 77);
    let payer = surfnet.payer().pubkey();
    assert_eq!(config.simnet.airdrop_addresses, vec![payer, key(1), key(2)]);
    assert_eq!(asked, vec![payer, key(1), key(2)]);
    assert_eq!(surfnet.rpc_url(), "http://127.0.0.1:12345");
    assert_eq!(surfnet.ws_url(), "ws://127.0.0.1:12346");
    assert_eq!(surfnet.cheatcodes().rpc_url, "http://127.0.0.1:12345");
    assert!(!surfnet.is_stopped());
    assert!(surfnet.terminate_on_drop());
}

#[test]
fn virtual_machine_gets_its_settings() {
    let begun = Surfnet::builder().slot_time_ms(9).skip_blockhash_check(true).start();
    let (startup, _) = begun.0.step(StartEvent::Port(Ok(1)));
    let (_, action) = startup.step(StartEvent::Port(Ok(2)));
    match action {
        StartAction::InitSvm { slot_time, skip_blockhash_check } => {
            assert_eq!(slot_time, 9);
            assert!(skip_blockhash_check);
        }
        other => panic!("unexpected: {:?}", other),
    }
}

#[test]
fn every_network_has_its_own_identifier_and_payer() {
    let (a, b) = (started(), started());
    for surfnet in [&a, &b] {
        let id = surfnet.instance_id();
        assert_eq!(id.len(), 36);
        assert_eq!(id.as_bytes()[8], b'-');
        assert_eq!(id.as_bytes()[13], b'-');
        assert_eq!(id.as_bytes()[14], b'4');
        assert_eq!(id.as_bytes()[18], b'-');
        assert_eq!(id.as_bytes()[23], b'-');
        let bytes = surfnet.payer().to_bytes();
        assert!(solana_keypair::Keypair::try_from(bytes.as_slice()).is_ok());
    }
    assert_ne!(a.instance_id(), b.instance_id());
    assert_ne!(a.payer().to_bytes(), b.payer().to_bytes());
}

#[test]
fn failures_of_a_start() {
    let (_, action) = Surfnet::start().0.step(StartEvent::Port(Err("no port".to_string())));
    assert!(matches!(failure(action), SurfnetError::PortAllocation(ref e) if e == "no port"));
    let ports = || {
        let (startup, _) = Surfnet::start().0.step(StartEvent::Port(Ok(1)));
        startup.step(StartEvent::Port(Ok(2))).0
    };
    let (_, action) = ports().step(StartEvent::Svm(Err("db".to_string())));
    assert!(
        matches!(failure(action), SurfnetError::Runtime(ref e) if e == "failed to initialize Surfnet SVM: db")
    );
    let svm = || ports().step(StartEvent::Svm(Ok(()))).0;
    let (_, action) = svm().step(StartEvent::Runloop(Err("no threads".to_string())));
    assert!(matches!(failure(action), SurfnetError::Runtime(ref e) if e == "no threads"));
    let ready = || to_readiness(Surfnet::start()).0;
    let (_, action) =
        ready().step(StartEvent::Simnet(Ok(SimnetEvent::Aborted("bad config".to_string()))));
    assert!(matches!(failure(action), SurfnetError::Aborted(ref e) if e == "bad config"));
    let (_, action) = ready().step(StartEvent::Simnet(Ok(SimnetEvent::Shutdown)));
    assert!(
        matches!(failure(action), SurfnetError::Aborted(ref e) if e == "surfnet shut down during startup")
    );
    let (_, action) = ready().step(StartEvent::Simnet(Err("disconnected".to_string())));
    assert!(
        matches!(failure(action), SurfnetError::Startup(ref e) if e == "events channel closed unexpectedly: disconnected")
    );
}

#[test]
fn other_reports_are_waited_out() {
    let (startup, _) = to_readiness(Surfnet::start());
    let (startup, action) =
        startup.step(StartEvent::Simnet(Ok(SimnetEvent::Connected("https://rpc".to_string()))));
    assert!(matches!(action, StartAction::ReceiveEvent));
    let (startup, action) = startup.step(StartEvent::Simnet(Ok(SimnetEvent::BlockHashExpired)));
    assert!(matches!(action, StartAction::ReceiveEvent));
    assert!(!fund_all(startup, 10_000_000_000).0.is_stopped());
    assert!(judge_readiness(Ok(SimnetEvent::BlockHashExpired)).is_none());
    assert!(matches!(judge_readiness(Ok(SimnetEvent::Ready(3))), Some(Ok(()))));
}

#[test]
fn airdrops_are_polled_until_they_match() {
    let (wait, action) = AirdropWait::begin(vec![key(1), key(2)], 10);
    assert!(matches!(action, AirdropAction::CheckDeadline));
    let (wait, action) = wait.step(AirdropEvent::Checked(true));
    assert!(matches!(action, AirdropAction::QueryBalance(k) if k == key(1)));
    let (wait, action) = wait.step(AirdropEvent::Balance(Ok(3)));
    assert!(matches!(action, AirdropAction::QueryBalance(k) if k == key(2)));
    let (wait, action) = wait.step(AirdropEvent::Balance(Ok(10)));
    assert!(matches!(action, AirdropAction::Pause));
    let (wait, action) = wait.step(AirdropEvent::Paused);
    assert!(matches!(action, AirdropAction::CheckDeadline));
    let (wait, _) = wait.step(AirdropEvent::Checked(true));
    let (wait, action) = wait.step(AirdropEvent::Balance(Ok(10)));
    assert!(matches!(action, AirdropAction::QueryBalance(k) if k == key(2)));
    let (_, action) = wait.step(AirdropEvent::Balance(Ok(10)));
    assert!(matches!(action, AirdropAction::Finish(Ok(()))));
}

fn timed_out(wait: AirdropWait) -> String {
    match wait.step(AirdropEvent::Checked(false)).1 {
        AirdropAction::Finish(Err(SurfnetError::Startup(message))) => message,
        other => panic!("unexpected: {:?}", other),
    }
}

#[test]
fn timeout_tells_what_was_seen_last() {
    let (wait, _) = AirdropWait::begin(vec![key(1), key(2)], 10);
    assert_eq!(
        timed_out(wait),
        "startup balances not visible over RPC within timeout (expected 10); last balances: no balances observed; last error: none"
    );
    let (wait, _) = AirdropWait::begin(vec![key(1), key(2)], 10);
    let (wait, _) = wait.step(AirdropEvent::Checked(true));
    let (wait, _) = wait.step(AirdropEvent::Balance(Ok(10)));
    let (wait, _) = wait.step(AirdropEvent::Balance(Ok(4)));
    let (wait, _) = wait.step(AirdropEvent::Paused);
    assert_eq!(
        timed_out(wait),
        format!(
            "startup balances not visible over RPC within timeout (expected 10); last balances: {}=10, {}=4; last error: none",
            base58(1),
            base58(2)
        )
    );
    let (wait, _) = AirdropWait::begin(vec![key(1), key(2)], 10);
    let (wait, _) = wait.step(AirdropEvent::Checked(true));
    let (wait, _) = wait.step(AirdropEvent::Balance(Ok(10)));
    let (wait, action) = wait.step(AirdropEvent::Balance(Err("refused".to_string())));
    assert!(matches!(action, AirdropAction::Pause));
    let (wait, _) = wait.step(AirdropEvent::Paused);
    assert_eq!(
        timed_out(wait),
        format!(
            "startup balances not visible over RPC within timeout (expected 10); last balances: {}=10; last error: refused",
            base58(1)
        )
    );
}

#[test]
fn nothing_to_fund_needs_no_query() {
    let (wait, _) = AirdropWait::begin(vec![], 10);
    let (_, action) = wait.step(AirdropEvent::Checked(true));
    assert!(matches!(action, AirdropAction::Finish(Ok(()))));
}

#[test]
fn shutdown_needs_both_servers() {
    let mut surfnet = started();
    let (state, action) = surfnet.stop();
    assert!(matches!(action, StopAction::Terminate));
    let (state, action) = surfnet.stop_step(state, StopEvent::Terminated(Ok(())));
    assert!(matches!(action, StopAction::Receive));
    let (state, _) = surfnet.stop_step(state, StopEvent::Received(SimnetEvent::Shutdown));
    assert!(!surfnet.is_stopped());
    let (state, action) = surfnet.stop_step(state, StopEvent::Received(SimnetEvent::BlockHashExpired));
    assert!(matches!(action, StopAction::Receive));
    assert_eq!(state, Stopping::Acknowledging(1));
    let (state, action) = surfnet.stop_step(state, StopEvent::Received(SimnetEvent::Shutdown));
    assert!(matches!(action, StopAction::Finish(Ok(()))));
    assert_eq!(state, Stopping::Finished);
    assert!(surfnet.is_stopped());
    assert!(!surfnet.terminate_on_drop());
    let (state, action) = surfnet.stop();
    assert_eq!(state, Stopping::Finished);
    assert!(matches!(action, StopAction::Finish(Ok(()))));
}

#[test]
fn unconfirmed_shutdown_can_be_tried_again() {
    let mut surfnet = started();
    let (state, _) = surfnet.stop();
    let (state, _) = surfnet.stop_step(state, StopEvent::Terminated(Ok(())));
    let (state, _) = surfnet.stop_step(state, StopEvent::Received(SimnetEvent::Shutdown));
    let (_, action) = surfnet.stop_step(state, StopEvent::Silence);
    match action {
        StopAction::Finish(Err(SurfnetError::Runtime(message))) => assert_eq!(
            message,
            "surfnet shutdown not confirmed within 5s: 1 of 2 RPC servers acknowledged. The port may still be bound."
        ),
        other => panic!("unexpected: {:?}", other),
    }
    assert!(!surfnet.is_stopped());
    let (state, action) = surfnet.stop();
    assert!(matches!(action, StopAction::Terminate));
    let (_, action) = surfnet.stop_step(state, StopEvent::Terminated(Err("closed".to_string())));
    match action {
        StopAction::Finish(Err(SurfnetError::Runtime(message))) => {
            assert_eq!(message, "failed to send terminate command: closed");
        }
        other => panic!("unexpected: {:?}", other),
    }
}

#[test]
fn commands_report_whether_they_were_sent() {
    let surfnet = started();
    assert!(surfnet.send_command(Ok(())).is_ok());
    match surfnet.send_command(Err("closed".to_string())) {
        Err(SurfnetError::Runtime(message)) => {
            assert_eq!(message, "failed to send command: closed");
        }
        other => panic!("unexpected: {:?}", other),
    }
}
