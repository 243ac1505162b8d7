use surfpool::keys::{Pubkey, Signature};
use surfpool::node::args::{
    f64_to_u64, parse_keypair, parse_optional_pubkey, parse_pubkey, parse_pubkeys,
    sdk_error_to_napi, Error, Status,
};
use surfpool::node::cheatcode::{
    Authority, Cheatcode, DeployOptions, ResetAccountOptions, SetTokenAccountUpdate,
    SolAccountFunding, StreamAccountOptions,
};
use surfpool::node::config::{configure, SurfnetConfig};
use surfpool::node::surfnet::{finish, finish_with_address, finish_with_epoch_info, Surfnet};
use surfpool::node::value::SimnetEventValue;
use surfpool::number::Number;
use surfpool::sdk::airdrop::{AirdropAction, AirdropEvent};
use surfpool::sdk::builder::BlockProductionMode;
use surfpool::sdk::event::{
    Clock, ClockCommand, EpochInfo, ProfileResult, SimnetEvent, TransactionMetadata,
};
use surfpool::sdk::startup::{StartAction, StartEvent, Startup};
use surfpool::sdk::stop::{StopAction, StopEvent};

const OWNER: u8 = 1;
const MINT: u8 = 2;
const OTHER: u8 = 3;

fn number(value: f64) -> Number {
    Number { bits: value.to_bits() }
}

fn key(byte: u8) -> Pubkey {
    Pubkey { bytes: [byte; 32] }
}

fn address(byte: u8) -> String {
    solana_pubkey::Pubkey::from([byte; 32]).to_string()
}

fn seconds(text: &str) -> String {
    format!("2025-01-01T00:00:0{}+00:00", text)
}

fn run(begun: (Startup, StartAction)) -> Result<surfpool::sdk::surfnet::Surfnet, String> {
    let (mut startup, mut action) = begun;
    let mut port: u16 = 8899;
    let mut lamports: u64 = 0;
    loop {
        let event = match action {
            StartAction::AllocatePort => {
                port += 1;
                StartEvent::Port(Ok(port))
            }
            StartAction::InitSvm { .. } => StartEvent::Svm(Ok(())),
            StartAction::SpawnRunloop(config) => {
                lamports = config.simnet.airdrop_token_amount;
                StartEvent::Runloop(Ok(()))
            }
            StartAction::ReceiveEvent => StartEvent::Simnet(Ok(SimnetEvent::Ready(0))),
            StartAction::Airdrop(AirdropAction::CheckDeadline) => {
                StartEvent::Airdrop(AirdropEvent::Checked(true))
            }
            StartAction::Airdrop(AirdropAction::QueryBalance(_)) => {
                StartEvent::Airdrop(AirdropEvent::Balance(Ok(lamports)))
            }
            StartAction::Airdrop(_) => StartEvent::Airdrop(AirdropEvent::Paused),
            StartAction::Finish(result) => return result.map_err(|e| format!("{:?}", e)),
        };
        (startup, action) = startup.step(event);
    }
}

fn started() -> Surfnet {
    Surfnet::started(run(Surfnet::start())).unwrap()
}

fn nothing_set() -> SurfnetConfig {
    SurfnetConfig {
        offline: None,
        remote_rpc_url: None,
        block_production_mode: None,
        slot_time_ms: None,
        airdrop_sol: None,
        airdrop_addresses: None,
        payer_secret_key: None,
    }
}

fn unchanged() -> SetTokenAccountUpdate {
    SetTokenAccountUpdate {
        amount: None,
        delegate: None,
        clear_delegate: None,
        state: None,
        delegated_amount: None,
        close_authority: None,
        clear_close_authority: None,
    }
}

fn refused<T: std::fmt::Debug>(result: Result<T, Error>) -> String {
    let error = result.unwrap_err();
    assert_eq!(error.status, Status::InvalidArg);
    error.reason
}

#[test]
fn addresses_are_read() {
    assert_eq!(parse_pubkey(&address(7), "owner").unwrap(), key(7));
    assert_eq!(refused(parse_pubkey("0", "owner")), format!(
        "Invalid owner: {}",
        "0".parse::<solana_pubkey::Pubkey>().unwrap_err()
    ));
    assert_eq!(refused(parse_pubkey("abc", "mint")), format!(
        "Invalid mint: {}",
        "abc".parse::<solana_pubkey::Pubkey>().unwrap_err()
    ));
    assert_eq!(parse_optional_pubkey(&None, "tokenProgram").unwrap(), None);
    assert_eq!(
        parse_optional_pubkey(&Some(address(7)), "tokenProgram").unwrap(),
        Some(key(7))
    );
    assert!(parse_optional_pubkey(&Some("?".to_string()), "tokenProgram").is_err());
    assert_eq!(
        parse_pubkeys(&vec![address(1), address(2)], "owner").unwrap(),
        vec![key(1), key(2)]
    );
    assert_eq!(
        refused(parse_pubkeys(&vec![address(1), "0".to_string(), "abc".to_string()], "owner")),
        refused(parse_pubkey("0", "owner"))
    );
}

#[test]
fn keypairs_are_read() {
    let bytes = solana_keypair::Keypair::new().to_bytes();
    let keypair = parse_keypair(&bytes, "payerSecretKey").unwrap();
    assert_eq!(keypair.to_bytes(), bytes.to_vec());
    assert_eq!(keypair.pubkey().bytes.to_vec(), bytes[32..].to_vec());
    assert_eq!(
        refused(parse_keypair(&bytes[..63], "payerSecretKey")),
        "Invalid payerSecretKey: signature error"
    );
    let mut mixed = bytes;
    mixed[0] = mixed[0].wrapping_add(1);
    assert_eq!(
        refused(parse_keypair(&mixed, "payerSecretKey")),
        "Invalid payerSecretKey: signature error"
    );
    let mut no_point = bytes;
    for i in 32..64 {
        no_point[i] = 0xff;
    }
    assert_eq!(
        refused(parse_keypair(&no_point, "x")),
        "Invalid x: signature error"
    );
}

#[test]
fn numbers_are_read() {
    assert_eq!(f64_to_u64(number(42.0), "slot").unwrap(), 42);
    assert_eq!(f64_to_u64(number(-0.0), "slot").unwrap(), 0);
    for bad in [-1.0, 0.5, f64::NAN, f64::INFINITY, 1e20] {
        assert_eq!(
            refused(f64_to_u64(number(bad), "slot")),
            "slot must be a non-negative integer"
        );
    }
}

#[test]
fn network_errors_are_generic_failures() {
    let error = sdk_error_to_napi("boom".to_string());
    assert_eq!(error.status, Status::GenericFailure);
    assert_eq!(error.reason, "boom");
    let error = Surfnet::started(Err("boom".to_string())).unwrap_err();
    assert_eq!(error.status, Status::GenericFailure);
    assert_eq!(error.reason, "boom");
    assert!(finish(Ok(())).is_ok());
    assert_eq!(finish(Err("rpc".to_string())).unwrap_err().reason, "rpc");
}

#[test]
fn configuration_is_applied() {
    let builder = configure(SurfnetConfig {
        offline: Some(true),
        remote_rpc_url: Some("https://rpc".to_string()),
        block_production_mode: Some(Ok(BlockProductionMode::Named("clock".to_string()))),
        slot_time_ms: Some(number(400.0)),
        airdrop_sol: Some(number(5.0)),
        airdrop_addresses: Some(vec![address(4)]),
        payer_secret_key: None,
    })
    .unwrap();
    assert!(!builder.offline_mode);
    assert_eq!(builder.remote_rpc_url, Some("https://rpc".to_string()));
    assert_eq!(builder.slot_time_ms, 400);
    assert_eq!(builder.airdrop_lamports, 5);
    assert_eq!(builder.airdrop_addresses, vec![key(4)]);
    assert!(configure(nothing_set()).unwrap().offline_mode);
    let online = SurfnetConfig { offline: Some(false), ..nothing_set() };
    assert!(!configure(online).unwrap().offline_mode);
}

#[test]
fn configuration_is_complained_of_in_order() {
    let bad = || SurfnetConfig {
        block_production_mode: Some(Err("unknown mode".to_string())),
        slot_time_ms: Some(number(-1.0)),
        airdrop_sol: Some(number(0.5)),
        airdrop_addresses: Some(vec!["?".to_string()]),
        payer_secret_key: Some(vec![1]),
        ..nothing_set()
    };
    assert_eq!(refused(configure(bad())), "Invalid blockProductionMode: unknown mode");
    let mut config = bad();
    config.block_production_mode = None;
    assert_eq!(refused(configure(config)), "slotTimeMs must be a non-negative integer");
    let mut config = bad();
    config.block_production_mode = None;
    config.slot_time_ms = None;
    assert_eq!(refused(configure(config)), "airdropSol must be a non-negative integer");
    let mut config = bad();
    config.block_production_mode = None;
    config.slot_time_ms = None;
    config.airdrop_sol = None;
    assert!(refused(configure(config)).starts_with("Invalid airdropAddresses: "));
    let mut config = bad();
    config.block_production_mode = None;
    config.slot_time_ms = None;
    config.airdrop_sol = None;
    config.airdrop_addresses = None;
    assert!(refused(Surfnet::start_with_config(config)).starts_with("Invalid payerSecretKey: "));
}

#[test]
fn payer_is_kept() {
    let info = Surfnet::new_keypair();
    let config =
        SurfnetConfig { payer_secret_key: Some(info.secret_key.clone()), ..nothing_set() };
    let begun = Surfnet::start_with_config(config).unwrap();
    let surfnet = Surfnet::started(run(begun)).unwrap();
    assert_eq!(surfnet.payer_secret_key(), info.secret_key);
    assert_eq!(surfnet.payer(), info.public_key);
    assert_eq!(surfnet.rpc_url(), "http://127.0.0.1:8900");
    assert_eq!(surfnet.ws_url(), "ws://127.0.0.1:8901");
    assert_eq!(surfnet.instance_id().len(), 36);
}

#[test]
fn generated_keypairs_differ_and_are_valid() {
    let (a, b) = (Surfnet::new_keypair(), Surfnet::new_keypair());
    assert_ne!(a.secret_key, b.secret_key);
    assert_eq!(a.secret_key.len(), 64);
    assert!(parse_keypair(&a.secret_key, "x").is_ok());
    let public = parse_pubkey(&a.public_key, "x").unwrap();
    assert_eq!(public.bytes.to_vec(), a.secret_key[32..].to_vec());
}

#[test]
fn payer_address_is_accepted_as_an_argument() {
    let surfnet = started();
    let call = surfnet.fund_sol(surfnet.payer(), number(5.0)).unwrap();
    assert_eq!(call.rpc_url, surfnet.rpc_url());
    match call.code {
        Cheatcode::FundSol { address, lamports } => {
            assert_eq!(address.bytes.to_vec(), surfnet.payer_secret_key()[32..].to_vec());
            assert_eq!(lamports, 5);
        }
        other => panic!("unexpected: {:?}", other),
    }
}

#[test]
fn accounts_are_funded_one_by_one() {
    let surfnet = started();
    let funding = |byte: u8, lamports: f64| SolAccountFunding {
        address: address(byte),
        lamports: number(lamports),
    };
    match surfnet.fund_sol_many(vec![funding(1, 10.0), funding(2, 20.0)]).unwrap().code {
        Cheatcode::FundSolMany { addresses, lamports } => {
            assert_eq!(addresses, vec![key(1), key(2)]);
            assert_eq!(lamports, vec![10, 20]);
        }
        other => panic!("unexpected: {:?}", other),
    }
    let bad_address = SolAccountFunding { address: "?".to_string(), lamports: number(1.5) };
    assert!(
        refused(surfnet.fund_sol_many(vec![funding(1, 1.0), bad_address, funding(2, -1.0)]))
            .starts_with("Invalid address: ")
    );
    assert_eq!(
        refused(surfnet.fund_sol_many(vec![funding(1, 1.0), funding(2, -1.0)])),
        "lamports must be a non-negative integer"
    );
    assert!(refused(surfnet.fund_sol("?".to_string(), number(-1.0))).starts_with("Invalid address"));
}

#[test]
fn tokens_are_funded() {
    let surfnet = started();
    match surfnet.fund_token(address(OWNER), address(MINT), number(3.0), None).unwrap().code {
        Cheatcode::FundToken { owner, mint, amount, token_program } => {
            assert_eq!((owner, mint, amount, token_program), (key(OWNER), key(MINT), 3, None));
        }
        other => panic!("unexpected: {:?}", other),
    }
    let program = Some(address(OTHER));
    match surfnet
        .set_token_balance(address(OWNER), address(MINT), number(4.0), program)
        .unwrap()
        .code
    {
        Cheatcode::SetTokenBalance { owner, mint, amount, token_program } => {
            assert_eq!(
                (owner, mint, amount, token_program),
                (key(OWNER), key(MINT), 4, Some(key(OTHER)))
            );
        }
        other => panic!("unexpected: {:?}", other),
    }
    match surfnet
        .fund_token_many(vec![address(1), address(3)], address(MINT), number(5.0), None)
        .unwrap()
        .code
    {
        Cheatcode::FundTokenMany { owners, mint, amount, token_program } => {
            assert_eq!(owners, vec![key(1), key(3)]);
            assert_eq!((mint, amount, token_program), (key(MINT), 5, None));
        }
        other => panic!("unexpected: {:?}", other),
    }
}

#[test]
fn token_arguments_are_complained_of_in_order() {
    let surfnet = started();
    let bad = || "?".to_string();
    let order = |owner: String, mint: String, program: Option<String>| {
        refused(surfnet.fund_token(owner, mint, number(0.5), program))
    };
    assert!(order(bad(), bad(), Some(bad())).starts_with("Invalid owner: "));
    assert!(order(address(1), bad(), Some(bad())).starts_with("Invalid mint: "));
    assert!(order(address(1), address(2), Some(bad())).starts_with("Invalid tokenProgram: "));
    assert_eq!(order(address(1), address(2), None), "amount must be a non-negative integer");
    let many = |owners: Vec<String>, mint: String| {
        refused(surfnet.fund_token_many(owners, mint, number(0.5), None))
    };
    assert!(many(vec![address(1), bad()], bad()).starts_with("Invalid owner: "));
    assert!(many(vec![], bad()).starts_with("Invalid mint: "));
    assert_eq!(many(vec![], address(2)), "amount must be a non-negative integer");
}

#[test]
fn token_accounts_are_changed() {
    let surfnet = started();
    let update = SetTokenAccountUpdate {
        amount: Some(number(9.0)),
        delegate: Some(address(OTHER)),
        state: Some("frozen".to_string()),
        clear_close_authority: Some(true),
        ..unchanged()
    };
    match surfnet.set_token_account(address(OWNER), address(MINT), update, None).unwrap().code {
        Cheatcode::SetTokenAccount {
            amount,
            state,
            delegated_amount,
            delegate,
            close_authority,
            ..
        } => {
            assert_eq!(amount, Some(9));
            assert_eq!(state, Some("frozen".to_string()));
            assert_eq!(delegated_amount, None);
            assert!(matches!(delegate, Authority::Replace(k) if k == key(OTHER)));
            assert!(matches!(close_authority, Authority::Clear));
        }
        other => panic!("unexpected: {:?}", other),
    }
    let keep = SetTokenAccountUpdate { clear_delegate: Some(false), ..unchanged() };
    match surfnet.set_token_account(address(OWNER), address(MINT), keep, None).unwrap().code {
        Cheatcode::SetTokenAccount { delegate, close_authority, .. } => {
            assert!(matches!(delegate, Authority::Keep));
            assert!(matches!(close_authority, Authority::Keep));
        }
        other => panic!("unexpected: {:?}", other),
    }
}

#[test]
fn setting_and_clearing_exclude_each_other() {
    let surfnet = started();
    let send = |update: SetTokenAccountUpdate| {
        refused(surfnet.set_token_account(address(OWNER), address(MINT), update, None))
    };
    assert_eq!(
        send(SetTokenAccountUpdate {
            delegate: Some("?".to_string()),
            clear_delegate: Some(true),
            ..unchanged()
        }),
        "delegate and clearDelegate are mutually exclusive"
    );
    assert_eq!(
        send(SetTokenAccountUpdate {
            close_authority: Some(address(1)),
            clear_close_authority: Some(true),
            ..unchanged()
        }),
        "closeAuthority and clearCloseAuthority are mutually exclusive"
    );
    assert!(send(SetTokenAccountUpdate { delegate: Some("?".to_string()), ..unchanged() })
        .starts_with("Invalid delegate: "));
    assert!(send(SetTokenAccountUpdate { close_authority: Some("?".to_string()), ..unchanged() })
        .starts_with("Invalid closeAuthority: "));
    assert_eq!(
        send(SetTokenAccountUpdate {
            amount: Some(number(-1.0)),
            delegated_amount: Some(number(-1.0)),
            ..unchanged()
        }),
        "amount must be a non-negative integer"
    );
    assert_eq!(
        send(SetTokenAccountUpdate { delegated_amount: Some(number(-1.0)), ..unchanged() }),
        "delegatedAmount must be a non-negative integer"
    );
    let result = surfnet.set_token_account(
        address(OWNER),
        address(MINT),
        unchanged(),
        Some("?".to_string()),
    );
    assert!(refused(result).starts_with("Invalid tokenProgram: "));
}

#[test]
fn accounts_are_set_reset_and_streamed() {
    let surfnet = started();
    match surfnet.set_account(address(1), number(7.0), vec![1, 2], address(2)).unwrap().code {
        Cheatcode::SetAccount { address, lamports, data, owner } => {
            assert_eq!((address, lamports, data, owner), (key(1), 7, vec![1, 2], key(2)));
        }
        other => panic!("unexpected: {:?}", other),
    }
    let bad = surfnet.set_account(address(1), number(-7.0), vec![], "?".to_string());
    assert!(refused(bad).starts_with("Invalid owner: "));
    let owned = Some(ResetAccountOptions { include_owned_accounts: Some(true) });
    match surfnet.reset_account(address(1), owned).unwrap().code {
        Cheatcode::ResetAccount { address, include_owned_accounts } => {
            assert_eq!((address, include_owned_accounts), (key(1), Some(true)));
        }
        other => panic!("unexpected: {:?}", other),
    }
    let owned = Some(StreamAccountOptions { include_owned_accounts: Some(false) });
    match surfnet.stream_account(address(1), owned).unwrap().code {
        Cheatcode::StreamAccount { address, include_owned_accounts } => {
            assert_eq!((address, include_owned_accounts), (key(1), Some(false)));
        }
        other => panic!("unexpected: {:?}", other),
    }
    match surfnet.stream_account(address(1), None).unwrap().code {
        Cheatcode::StreamAccount { include_owned_accounts, .. } => {
            assert_eq!(include_owned_accounts, None);
        }
        other => panic!("unexpected: {:?}", other),
    }
    assert!(surfnet.reset_account("?".to_string(), None).is_err());
}

#[test]
fn time_travels_forward() {
    let surfnet = started();
    assert!(matches!(
        surfnet.time_travel_to_epoch(number(5.0)).unwrap().code,
        Cheatcode::TimeTravelToEpoch(5)
    ));
    assert!(matches!(
        surfnet.time_travel_to_slot(number(6.0)).unwrap().code,
        Cheatcode::TimeTravelToSlot(6)
    ));
    assert!(matches!(
        surfnet.time_travel_to_timestamp(number(7.0)).unwrap().code,
        Cheatcode::TimeTravelToTimestamp(7)
    ));
    assert_eq!(
        refused(surfnet.time_travel_to_epoch(number(0.1))),
        "epoch must be a non-negative integer"
    );
    assert_eq!(
        refused(surfnet.time_travel_to_slot(number(0.1))),
        "slot must be a non-negative integer"
    );
    assert_eq!(
        refused(surfnet.time_travel_to_timestamp(number(0.1))),
        "timestamp must be a non-negative integer"
    );
    let info = EpochInfo {
        epoch: 1,
        slot_index: 2,
        slots_in_epoch: 3,
        absolute_slot: 4,
        block_height: 5,
        transaction_count: None,
    };
    let value = finish_with_epoch_info(Ok(info)).unwrap();
    assert_eq!(value.epoch, number(1.0));
    assert_eq!(value.slot_index, number(2.0));
    assert_eq!(value.slots_in_epoch, number(3.0));
    assert_eq!(value.absolute_slot, number(4.0));
    assert_eq!(value.block_height, number(5.0));
    assert_eq!(value.transaction_count, None);
    let failed = finish_with_epoch_info(Err("past".to_string())).unwrap_err();
    assert_eq!((failed.status, failed.reason), (Status::GenericFailure, "past".to_string()));
}

#[test]
fn programs_are_deployed() {
    let surfnet = started();
    let call = surfnet.deploy_program("counter".to_string());
    assert!(
        matches!(call.code, Cheatcode::DeployProgram { ref program_name } if program_name == "counter")
    );
    let options = |path: Option<&str>, bytes: Option<Vec<u8>>| DeployOptions {
        program_id: address(5),
        so_path: path.map(|p| p.to_string()),
        so_bytes: bytes,
        idl_path: Some("counter.json".to_string()),
    };
    match surfnet.deploy(options(Some("counter.so"), Some(vec![1]))).unwrap().code {
        Cheatcode::Deploy { program_id, so_path, so_bytes, idl_path } => {
            assert_eq!(program_id, key(5));
            assert_eq!(so_path, Some("counter.so".to_string()));
            assert_eq!(so_bytes, Some(vec![1]));
            assert_eq!(idl_path, Some("counter.json".to_string()));
        }
        other => panic!("unexpected: {:?}", other),
    }
    assert!(surfnet.deploy(options(None, Some(vec![]))).is_ok());
    assert_eq!(
        refused(surfnet.deploy(options(None, None))),
        "deploy requires either soPath or soBytes"
    );
    let nameless = DeployOptions { program_id: "?".to_string(), ..options(None, None) };
    assert!(refused(surfnet.deploy(nameless)).starts_with("Invalid programId: "));
    assert_eq!(finish_with_address(Ok(key(5))).unwrap(), address(5));
    assert_eq!(finish_with_address(Err("no".to_string())).unwrap_err().reason, "no");
}

#[test]
fn associated_addresses_are_asked_for() {
    let surfnet = started();
    match surfnet.get_ata(address(1), address(2), Some(address(3))).unwrap().code {
        Cheatcode::GetAta { owner, mint, token_program } => {
            assert_eq!((owner, mint, token_program), (key(1), key(2), Some(key(3))));
        }
        other => panic!("unexpected: {:?}", other),
    }
    assert!(refused(surfnet.get_ata(address(1), "?".to_string(), None)).starts_with("Invalid mint"));
}

#[test]
fn network_is_shut_down_once() {
    let mut surfnet = started();
    assert!(surfnet.terminate_on_drop());
    let (state, action) = surfnet.stop();
    assert!(matches!(action, StopAction::Terminate));
    let (state, _) = surfnet.stop_step(state, StopEvent::Terminated(Ok(())));
    let (state, _) = surfnet.stop_step(state, StopEvent::Received(SimnetEvent::Shutdown));
    let (_, action) = surfnet.stop_step(state, StopEvent::Received(SimnetEvent::Shutdown));
    assert!(matches!(action, StopAction::Finish(Ok(()))));
    assert!(!surfnet.terminate_on_drop());
    assert!(matches!(surfnet.stop().1, StopAction::Finish(Ok(()))));
}

fn value(event: SimnetEvent) -> SimnetEventValue {
    SimnetEventValue::from(event)
}

#[test]
fn reports_without_details() {
    assert_eq!(value(SimnetEvent::Shutdown).kind, "shutdown");
    assert_eq!(value(SimnetEvent::BlockHashExpired).kind, "blockHashExpired");
    assert_eq!(value(SimnetEvent::BlockHashExpired).message, None);
    let ready = value(SimnetEvent::Ready(12));
    assert_eq!(ready.kind, "ready");
    assert_eq!(ready.initial_transaction_count, Some(number(12.0)));
    let connected = value(SimnetEvent::Connected("url".to_string()));
    assert_eq!((connected.kind.as_str(), connected.message), ("connected", Some("url".to_string())));
    let aborted = value(SimnetEvent::Aborted("why".to_string()));
    assert_eq!((aborted.kind.as_str(), aborted.message), ("aborted", Some("why".to_string())));
    let plugin = value(SimnetEvent::PluginLoaded("p".to_string()));
    assert_eq!((plugin.kind.as_str(), plugin.message), ("pluginLoaded", Some("p".to_string())));
}

#[test]
fn clock_reports() {
    let clock = value(SimnetEvent::SystemClockUpdated(Clock {
        slot: 1,
        epoch_start_timestamp: -2,
        epoch: 3,
        leader_schedule_epoch: 4,
        unix_timestamp: i64::MIN,
    }));
    assert_eq!(clock.kind, "systemClockUpdated");
    let inner = clock.clock.unwrap();
    assert_eq!(inner.slot, number(1.0));
    assert_eq!(inner.epoch_start_timestamp, number(-2.0));
    assert_eq!(inner.epoch, number(3.0));
    assert_eq!(inner.leader_schedule_epoch, number(4.0));
    assert_eq!(inner.unix_timestamp, number(i64::MIN as f64));
    let commands = vec![
        (ClockCommand::Pause, "pause", None),
        (ClockCommand::PauseWithConfirmation, "pauseWithConfirmation", None),
        (ClockCommand::Resume, "resume", None),
        (ClockCommand::Toggle, "toggle", None),
        (ClockCommand::UpdateSlotInterval(400), "updateSlotInterval", Some(number(400.0))),
    ];
    for (command, name, interval) in commands {
        let update = value(SimnetEvent::ClockUpdate(command));
        assert_eq!(update.kind, "clockUpdate");
        assert_eq!(update.clock_command, Some(name.to_string()));
        assert_eq!(update.slot_interval_ms, interval);
    }
    let info = value(SimnetEvent::EpochInfoUpdate(EpochInfo {
        epoch: 1,
        slot_index: 2,
        slots_in_epoch: 3,
        absolute_slot: 4,
        block_height: 5,
        transaction_count: Some(u64::MAX),
    }));
    assert_eq!(info.kind, "epochInfoUpdate");
    assert_eq!(
        info.epoch_info.unwrap().transaction_count,
        Some(number(18446744073709551616.0))
    );
}

#[test]
fn log_reports() {
    let line = || (seconds("1"), "hello".to_string());
    let cases = vec![
        (SimnetEvent::InfoLog(line().0, line().1), "infoLog"),
        (SimnetEvent::ErrorLog(line().0, line().1), "errorLog"),
        (SimnetEvent::WarnLog(line().0, line().1), "warnLog"),
        (SimnetEvent::DebugLog(line().0, line().1), "debugLog"),
    ];
    for (event, kind) in cases {
        let report = value(event);
        assert_eq!(report.kind, kind);
        assert_eq!(report.timestamp, Some(seconds("1")));
        assert_eq!(report.message, Some("hello".to_string()));
        assert_eq!(report.logs, None);
    }
}

#[test]
fn transaction_reports() {
    let signature = Signature { bytes: [9; 64] };
    let text = solana_signature::Signature::from([9; 64]).to_string();
    let received = value(SimnetEvent::TransactionReceived {
        timestamp: seconds("2"),
        signatures: vec![signature, Signature { bytes: [1; 64] }],
    });
    assert_eq!(received.kind, "transactionReceived");
    assert_eq!(received.transaction_signature, Some(text.clone()));
    let unsigned =
        value(SimnetEvent::TransactionReceived { timestamp: seconds("2"), signatures: vec![] });
    assert_eq!(unsigned.transaction_signature, None);
    let processed = value(SimnetEvent::TransactionProcessed {
        timestamp: seconds("3"),
        metadata: TransactionMetadata {
            signature,
            logs: vec!["one".to_string(), "two".to_string()],
            compute_units_consumed: 150,
            fee: 5000,
        },
        error: Some("failed".to_string()),
    });
    assert_eq!(processed.kind, "transactionProcessed");
    assert_eq!(processed.timestamp, Some(seconds("3")));
    assert_eq!(processed.transaction_signature, Some(text));
    assert_eq!(processed.logs, Some(vec!["one".to_string(), "two".to_string()]));
    assert_eq!(processed.compute_units_consumed, Some(number(150.0)));
    assert_eq!(processed.fee, Some(number(5000.0)));
    assert_eq!(processed.error_message, Some("failed".to_string()));
    let updated = value(SimnetEvent::AccountUpdate { timestamp: seconds("4"), pubkey: key(6) });
    assert_eq!(updated.kind, "accountUpdate");
    assert_eq!(updated.account_pubkey, Some(address(6)));
}

#[test]
fn profile_and_runbook_reports() {
    let profile = value(SimnetEvent::TaggedProfile {
        result: ProfileResult {
            key: "k".to_string(),
            slot: 8,
            log_messages: None,
            compute_units_consumed: 1,
            error_message: Some("e".to_string()),
        },
        tag: "t".to_string(),
        timestamp: seconds("5"),
    });
    assert_eq!(profile.kind, "taggedProfile");
    assert_eq!(profile.tag, Some("t".to_string()));
    assert_eq!(profile.profile_key, Some("k".to_string()));
    assert_eq!(profile.profile_slot, Some(number(8.0)));
    assert_eq!(profile.logs, None);
    assert_eq!(profile.compute_units_consumed, Some(number(1.0)));
    assert_eq!(profile.error_message, Some("e".to_string()));
    let begun = value(SimnetEvent::RunbookStarted("r".to_string()));
    assert_eq!((begun.kind.as_str(), begun.runbook_id), ("runbookStarted", Some("r".to_string())));
    let done = value(SimnetEvent::RunbookCompleted("r".to_string(), Some(vec!["x".to_string()])));
    assert_eq!(done.kind, "runbookCompleted");
    assert_eq!(done.runbook_errors, Some(vec!["x".to_string()]));
}

#[test]
fn buffered_reports_keep_their_order() {
    let surfnet = started();
    let values = surfnet.drain_events(vec![
        SimnetEvent::Ready(1),
        SimnetEvent::BlockHashExpired,
        SimnetEvent::Shutdown,
    ]);
    let kinds: Vec<&str> = values.iter().map(|v| v.kind.as_str()).collect();
    assert_eq!(kinds, vec!["ready", "blockHashExpired", "shutdown"]);
    assert!(surfnet.drain_events(vec![]).is_empty());
}
