use std::collections::BTreeMap;

use sha2::Digest;
use surfpool::jito::bundle::{
    BundleAction, BundleEvent, BundlePhase, Report, RpcError, SendTransactionConfig,
    SurfpoolJitoRpc, TransactionStatus, MAX_BUNDLE_SIZE,
};
use surfpool::jito::encoding::{BinaryEncoding, TransactionEncoding};
use surfpool::jito::id::{bundle_id, bundle_preimage};
use surfpool::keys::Signature;

const LAMPORTS_PER_SOL: u64 = 1_000_000_000;

/// A machine that knows transfers only.
#[derive(Clone, Debug, Default, PartialEq)]
struct Machine {
    balances: BTreeMap<String, u64>,
}

impl Machine {
    fn balance(&self, who: &str) -> u64 {
        self.balances.get(who).copied().unwrap_or(0)
    }

    fn transfer(&mut self, transfer: &Transfer) -> TransactionStatus {
        if self.balance(&transfer.from) < transfer.lamports {
            return TransactionStatus::SimulationFailure("InsufficientFunds".to_string());
        }
        *self.balances.entry(transfer.from.clone()).or_insert(0) -= transfer.lamports;
        *self.balances.entry(transfer.to.clone()).or_insert(0) += transfer.lamports;
        TransactionStatus::Success
    }
}

/// A transfer, written `from to lamports signature`.
#[derive(Clone, Debug)]
struct Transfer {
    from: String,
    to: String,
    lamports: u64,
    signature: u8,
}

fn written(from: &str, to: &str, lamports: u64, signature: u8) -> String {
    format!("{} {} {} {}", from, to, lamports, signature)
}

fn decoded(text: &str) -> Result<Transfer, Report> {
    let parts: Vec<&str> = text.split(' ').collect();
    if parts.len() != 4 {
        return Err(Report {
            code: -32602,
            message: "invalid transaction".to_string(),
            data: Some("\"tx\"".to_string()),
        });
    }
    Ok(Transfer {
        from: parts[0].to_string(),
        to: parts[1].to_string(),
        lamports: parts[2].parse().unwrap(),
        signature: parts[3].parse().unwrap(),
    })
}

fn signature(byte: u8) -> Signature {
    Signature { bytes: [byte; 64] }
}

/// What can go wrong besides the transfers themselves.
#[derive(Clone, Copy, PartialEq)]
enum Trouble {
    Nothing,
    Process(usize),
    Execution(usize),
    Verification(usize),
    NoStatus(usize),
    Reclaim,
    Commit,
}

struct Bench {
    machine: Machine,
    trouble: Trouble,
    processed: usize,
    commits: usize,
}

impl Bench {
    fn new(machine: Machine) -> Bench {
        Bench { machine, trouble: Trouble::Nothing, processed: 0, commits: 0 }
    }

    fn send(
        &mut self,
        healthy: bool,
        transactions: Vec<String>,
        config: Option<SendTransactionConfig>,
    ) -> Result<String, RpcError> {
        let mut transfers: Vec<Transfer> = Vec::new();
        let mut sandbox = Machine::default();
        let mut status = TransactionStatus::Missing;
        let (mut run, mut action) = SurfpoolJitoRpc.send_bundle(healthy, transactions, config);
        loop {
            let event = match action {
                BundleAction::Decode { index, transaction, .. } => {
                    assert_eq!(index, transfers.len());
                    BundleEvent::Decoded(decoded(&transaction).map(|transfer| {
                        transfers.push(transfer.clone());
                        vec![signature(transfer.signature), signature(255)]
                    }))
                }
                BundleAction::OpenSandbox => {
                    sandbox = self.machine.clone();
                    BundleEvent::Opened
                }
                BundleAction::Process { index, skip_preflight, sigverify } => {
                    assert!(skip_preflight);
                    assert!(sigverify);
                    assert!(run.is_signed());
                    self.processed += 1;
                    status = sandbox.transfer(&transfers[index]);
                    if self.trouble == Trouble::Execution(index) {
                        status = TransactionStatus::ExecutionFailure("Custom(1)".to_string());
                    }
                    if self.trouble == Trouble::Verification(index) {
                        status = TransactionStatus::VerificationFailure("bad".to_string());
                    }
                    if self.trouble == Trouble::NoStatus(index) {
                        status = TransactionStatus::Missing;
                    }
                    if self.trouble == Trouble::Process(index) {
                        BundleEvent::Processed(Err("no blockhash".to_string()))
                    } else {
                        BundleEvent::Processed(Ok(()))
                    }
                }
                BundleAction::AwaitStatus { index } => {
                    assert_eq!(index + 1, self.processed);
                    BundleEvent::Settled(std::mem::replace(&mut status, TransactionStatus::Missing))
                }
                BundleAction::ReclaimSandbox => {
                    BundleEvent::Reclaimed(self.trouble != Trouble::Reclaim)
                }
                BundleAction::Commit => {
                    self.commits += 1;
                    if self.trouble == Trouble::Commit {
                        BundleEvent::Committed(Err("disk full".to_string()))
                    } else {
                        self.machine = sandbox.clone();
                        BundleEvent::Committed(Ok(()))
                    }
                }
                BundleAction::Finish(answer) => {
                    assert_eq!(run.phase(), BundlePhase::Finished);
                    return answer;
                }
            };
            (run, action) = run.step(event);
        }
    }
}

fn funded(who: &str, lamports: u64) -> Machine {
    let mut machine = Machine::default();
    machine.balances.insert(who.to_string(), lamports);
    machine
}

fn message(answer: Result<String, RpcError>) -> String {
    match answer {
        Err(RpcError::InvalidParams(message)) => message,
        other => panic!("not a refusal: {:?}", other),
    }
}

fn base58(byte: u8) -> String {
    solana_signature::Signature::from([byte; 64]).to_string()
}

fn hashed(text: &str) -> String {
    let mut hasher = sha2::Sha256::new();
    hasher.update(text.as_bytes());
    hex::encode(hasher.finalize())
}

#[test]
fn test_send_bundle_empty_bundle_rejected() {
    let result = Bench::new(Machine::default()).send(true, vec![], None);
    assert!(result.is_err());
    let message = message(result);
    assert!(message.contains("Bundle cannot be empty"), "got: {}", message);
}

#[test]
fn test_send_bundle_exceeds_max_size_rejected() {
    let transactions = vec!["tx".to_string(); MAX_BUNDLE_SIZE + 1];
    let result = Bench::new(Machine::default()).send(true, transactions, None);
    assert!(result.is_err());
    let message = message(result);
    assert!(message.contains("exceeds maximum size"), "got: {}", message);
    assert_eq!(message, "Bundle exceeds maximum size of 5 transactions");
}

#[test]
fn test_send_bundle_no_context_returns_unhealthy() {
    let result = Bench::new(Machine::default()).send(false, vec!["some_tx".to_string()], None);
    assert!(result.is_err());
    assert!(matches!(result, Err(RpcError::NodeUnhealthy)));
}

#[test]
fn test_send_bundle_single_transaction() {
    let mut bench = Bench::new(funded("payer", 2 * LAMPORTS_PER_SOL));
    let tx = written("payer", "recipient", LAMPORTS_PER_SOL, 7);
    let result = bench.send(true, vec![tx], None);
    assert!(result.is_ok(), "Bundle should succeed: {:?}", result);
    assert_eq!(result.unwrap(), hashed(&base58(7)));
    assert_eq!(bench.machine.balance("recipient"), LAMPORTS_PER_SOL);
    assert_eq!(bench.commits, 1);
}

#[test]
fn test_send_bundle_multiple_transactions() {
    let mut bench = Bench::new(funded("payer", 5 * LAMPORTS_PER_SOL));
    let tx1 = written("payer", "recipient1", LAMPORTS_PER_SOL, 1);
    let tx2 = written("payer", "recipient2", LAMPORTS_PER_SOL, 2);
    let result = bench.send(true, vec![tx1, tx2], None);
    assert!(result.is_ok(), "Bundle should succeed: {:?}", result);
    assert_eq!(bench.machine.balance("recipient1"), LAMPORTS_PER_SOL);
    assert_eq!(bench.machine.balance("recipient2"), LAMPORTS_PER_SOL);
    let concatenated = format!("{},{}", base58(1), base58(2));
    assert_eq!(result.unwrap(), hashed(&concatenated));
    assert_eq!(bench.commits, 1);
}

#[test]
fn test_send_bundle_dependent_transaction_failure_aborts_entire_bundle() {
    let before = funded("payer", 5 * LAMPORTS_PER_SOL);
    let mut bench = Bench::new(before.clone());
    let tx1 = written("payer", "recipient", LAMPORTS_PER_SOL, 1);
    let tx2 = written("recipient", "payer", 2 * LAMPORTS_PER_SOL, 2);
    let result = bench.send(true, vec![tx1, tx2], None);
    assert!(result.is_err(), "Bundle should fail if any sandbox transaction fails");
    let message = message(result);
    assert!(message.contains("Jito bundle couldn't be executed"), "got: {}", message);
    assert_eq!(bench.machine.balance("recipient"), 0);
    assert_eq!(bench.machine, before);
    assert_eq!(bench.processed, 2);
    assert_eq!(bench.commits, 0);
}

#[test]
fn test_send_bundle_simulation_failure_returns_not_atomic_error() {
    let mut bench = Bench::new(Machine::default());
    let tx = written("payer", "recipient", LAMPORTS_PER_SOL, 1);
    let result = bench.send(true, vec![tx], None);
    assert!(result.is_err());
    let message = message(result);
    assert!(message.contains("Jito bundle couldn't be executed"), "got: {}", message);
    assert!(message.contains("Jito bundle couldn't be executed:"), "got: {}", message);
    assert_eq!(
        message,
        "Jito bundle couldn't be executed: simulation failed for transaction 1: InsufficientFunds"
    );
}

fn two_transfers() -> Vec<String> {
    vec![written("payer", "a", 1, 1), written("payer", "b", 1, 2)]
}

#[test]
fn each_failure_leaves_the_machine_alone() {
    let cases: Vec<(Trouble, &str)> = vec![
        (
            Trouble::Process(1),
            "Jito bundle couldn't be executed, failed to process transaction 2: no blockhash",
        ),
        (
            Trouble::Execution(0),
            "Jito bundle couldn't be executed: Execution failed for transaction 1: Custom(1)",
        ),
        (
            Trouble::Verification(1),
            "Jito bundle couldn't be executed: Verification failed for transaction 2: bad",
        ),
        (
            Trouble::Commit,
            "Jito bundle commit failed after successful sandbox execution: disk full",
        ),
    ];
    for (trouble, expected) in cases {
        let before = funded("payer", 10);
        let mut bench = Bench::new(before.clone());
        bench.trouble = trouble;
        assert_eq!(message(bench.send(true, two_transfers(), None)), expected);
        assert_eq!(bench.machine, before);
    }
}

#[test]
fn missing_status_is_unhealthy() {
    let mut bench = Bench::new(funded("payer", 10));
    bench.trouble = Trouble::NoStatus(1);
    let answer = bench.send(true, two_transfers(), None);
    assert!(matches!(answer, Err(RpcError::NodeUnhealthy)));
    assert_eq!(bench.commits, 0);
}

#[test]
fn locked_sandbox_is_an_internal_error() {
    let mut bench = Bench::new(funded("payer", 10));
    bench.trouble = Trouble::Reclaim;
    let answer = bench.send(true, two_transfers(), None);
    assert!(matches!(answer, Err(RpcError::InternalError)));
    assert_eq!(bench.commits, 0);
}

#[test]
fn undecodable_transaction_is_reported_with_its_position() {
    let mut bench = Bench::new(funded("payer", 10));
    let mut transactions = two_transfers();
    transactions.push("garbage".to_string());
    match bench.send(true, transactions, None) {
        Err(RpcError::Reported(Report { code, message, data })) => {
            assert_eq!(code, -32602);
            assert_eq!(message, "Failed to decode bundle transaction 3: invalid transaction");
            assert_eq!(data, Some("\"tx\"".to_string()));
        }
        other => panic!("unexpected: {:?}", other),
    }
    assert_eq!(bench.processed, 0);
}

#[test]
fn full_bundle_is_taken_in() {
    let mut bench = Bench::new(funded("payer", 10));
    let transactions: Vec<String> = (1..6).map(|i: u8| written("payer", "a", 1, i)).collect();
    let answer = bench.send(true, transactions, None).unwrap();
    let texts: Vec<String> = (1..6).map(base58).collect();
    assert_eq!(answer, hashed(&texts.join(",")));
    assert_eq!(bench.machine.balance("a"), 5);
}

fn encoding_of(config: Option<SendTransactionConfig>) -> BinaryEncoding {
    match SurfpoolJitoRpc.send_bundle(true, vec!["tx".to_string()], config).1 {
        BundleAction::Decode { encoding, .. } => encoding,
        other => panic!("unexpected: {:?}", other),
    }
}

fn config(encoding: Option<TransactionEncoding>) -> Option<SendTransactionConfig> {
    Some(SendTransactionConfig { encoding })
}

#[test]
fn encodings_of_bytes_are_accepted() {
    assert_eq!(encoding_of(None), BinaryEncoding::Base58);
    assert_eq!(encoding_of(config(None)), BinaryEncoding::Base58);
    assert_eq!(encoding_of(config(Some(TransactionEncoding::Base58))), BinaryEncoding::Base58);
    assert_eq!(encoding_of(config(Some(TransactionEncoding::Binary))), BinaryEncoding::Base58);
    assert_eq!(encoding_of(config(Some(TransactionEncoding::Base64))), BinaryEncoding::Base64);
}

#[test]
fn other_encodings_are_refused_by_name() {
    let cases = vec![
        (TransactionEncoding::Json, "json"),
        (TransactionEncoding::JsonParsed, "jsonParsed"),
    ];
    for (encoding, name) in cases {
        let mut bench = Bench::new(Machine::default());
        let answer = bench.send(true, vec!["tx".to_string()], config(Some(encoding)));
        assert_eq!(
            message(answer),
            format!("unsupported encoding: {}. Supported encodings: base58, base64", name)
        );
    }
}

#[test]
fn reasons_to_turn_away_have_an_order() {
    let json = || config(Some(TransactionEncoding::Json));
    let mut bench = Bench::new(Machine::default());
    assert_eq!(message(bench.send(false, vec![], json())), "Bundle cannot be empty");
    let six = vec!["tx".to_string(); 6];
    assert_eq!(
        message(bench.send(false, six, json())),
        "Bundle exceeds maximum size of 5 transactions"
    );
    let one = vec!["tx".to_string()];
    assert!(matches!(bench.send(false, one, json()), Err(RpcError::NodeUnhealthy)));
}

#[test]
fn identifier_hashes_comma_separated_signatures() {
    let signatures = vec![signature(0), signature(9)];
    assert_eq!(bundle_preimage(&signatures), format!("{},{}", base58(0), base58(9)));
    assert_eq!(bundle_id(&signatures), hashed(&format!("{},{}", base58(0), base58(9))));
    assert_eq!(bundle_preimage(&vec![]), "");
    assert_eq!(
        bundle_id(&vec![]),
        "e3b0c44298fc1c149afbf4c8996fb92427ae41e4649b934ca495991b7852b855"
    );
    assert_eq!(base58(0), "1".repeat(64));
}
