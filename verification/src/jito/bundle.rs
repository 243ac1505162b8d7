//! The course of a bundle.
//!
//! A bundle is decoded, run transaction by transaction against a sandbox copy of the virtual
//! machine, and committed onto the live one only if every transaction succeeded. Each step takes
//! what came of the last action and says which action is next; the caller performs the actions.

use vstd::prelude::*;
use vstd::string::*;

use crate::jito::encoding::{binary_encoding, encoding_name, BinaryEncoding, TransactionEncoding};
use crate::jito::id::{bundle_id, bundle_id_text, signature_bytes};
use crate::keys::Signature;
use crate::text::{cat2, cat3, cat4, decimal, decimal_text, option_text, texts};

verus! {

/// The largest number of transactions in one bundle.
pub const MAX_BUNDLE_SIZE: usize = 5;

/// How long to wait for the status of a transaction that was run, in milliseconds.
pub const STATUS_TIMEOUT_MS: u64 = 2000;

/// How a request is answered when it fails.
#[derive(Debug)]
pub enum RpcError {
    /// The request cannot be served, for this reason.
    InvalidParams(String),
    /// The node cannot serve requests; how far it is behind is not known.
    NodeUnhealthy,
    /// The node is in a state that should not occur.
    InternalError,
    /// An error with its own code and data.
    Reported(Report),
}

/// An error with its own code, and data in JSON text.
#[derive(Debug)]
pub struct Report {
    pub code: i64,
    pub message: String,
    pub data: Option<String>,
}

/// The options of a request that bear on a bundle.
#[derive(Debug)]
pub struct SendTransactionConfig {
    pub encoding: Option<TransactionEncoding>,
}

/// What became of a transaction in the sandbox, failures with their description.
#[derive(Debug)]
pub enum TransactionStatus {
    Success,
    SimulationFailure(String),
    ExecutionFailure(String),
    VerificationFailure(String),
    /// No status arrived in time.
    Missing,
}

/// What a bundle waits for.
#[derive(Clone, Copy, Debug, PartialEq, Eq, Structural)]
pub enum BundlePhase {
    /// A transaction is being decoded.
    Decoding,
    /// The sandbox is being made.
    Opening,
    /// A transaction is being run.
    Processing,
    /// The status of the transaction that was run last is awaited.
    Awaiting,
    /// The sandbox is being taken back from its lock.
    Reclaiming,
    /// The sandbox is being committed onto the live machine.
    Committing,
    /// Nothing is left to do.
    Finished,
}

/// How far a bundle has come.
#[derive(Debug)]
pub struct BundleRun {
    /// The transactions as they were sent.
    transactions: Vec<String>,
    /// How the transactions are written.
    encoding: BinaryEncoding,
    /// The signatures of each transaction decoded so far.
    decoded: Vec<Vec<Signature>>,
    /// The first signature of each transaction run so far.
    signatures: Vec<Signature>,
    phase: BundlePhase,
}

/// What came of an action.
#[derive(Debug)]
pub enum BundleEvent {
    /// The signatures of the decoded transaction, or why it could not be decoded.
    Decoded(Result<Vec<Signature>, Report>),
    /// The sandbox stands.
    Opened,
    /// Whether the sandbox could process the transaction.
    Processed(Result<(), String>),
    /// What became of the transaction.
    Settled(TransactionStatus),
    /// Whether the sandbox could be taken back from its lock.
    Reclaimed(bool),
    /// Whether the sandbox could be committed.
    Committed(Result<(), String>),
}

/// What to do next.
#[derive(Debug)]
pub enum BundleAction {
    /// Decode the transaction at this position.
    Decode { index: usize, transaction: String, encoding: BinaryEncoding },
    /// Make a sandbox copy of the virtual machine.
    OpenSandbox,
    /// Run the transaction at this position against the sandbox.
    Process { index: usize, skip_preflight: bool, sigverify: bool },
    /// Wait for the status of the transaction at this position, for [`STATUS_TIMEOUT_MS`] at most.
    AwaitStatus { index: usize },
    /// Take the sandbox back from its lock.
    ReclaimSandbox,
    /// Commit the sandbox onto the live machine.
    Commit,
    /// Answer the request: the identifier of the bundle, or an error.
    Finish(Result<String, RpcError>),
}

/// How a request is answered when it fails.
pub enum RpcErrorView {
    InvalidParams(Seq<char>),
    NodeUnhealthy,
    InternalError,
    Reported(ReportView),
}

/// An error with its own code and data.
pub struct ReportView {
    pub code: i64,
    pub message: Seq<char>,
    pub data: Option<Seq<char>>,
}

impl View for Report {
    type V = ReportView;

    open spec fn view(&self) -> ReportView {
        ReportView { code: self.code, message: self.message@, data: option_text(self.data) }
    }
}

impl View for RpcError {
    type V = RpcErrorView;

    open spec fn view(&self) -> RpcErrorView {
        match *self {
            RpcError::InvalidParams(message) => RpcErrorView::InvalidParams(message@),
            RpcError::NodeUnhealthy => RpcErrorView::NodeUnhealthy,
            RpcError::InternalError => RpcErrorView::InternalError,
            RpcError::Reported(report) => RpcErrorView::Reported(report@),
        }
    }
}

/// What became of a transaction in the sandbox.
pub enum StatusView {
    Success,
    SimulationFailure(Seq<char>),
    ExecutionFailure(Seq<char>),
    VerificationFailure(Seq<char>),
    Missing,
}

impl View for TransactionStatus {
    type V = StatusView;

    open spec fn view(&self) -> StatusView {
        match *self {
            TransactionStatus::Success => StatusView::Success,
            TransactionStatus::SimulationFailure(e) => StatusView::SimulationFailure(e@),
            TransactionStatus::ExecutionFailure(e) => StatusView::ExecutionFailure(e@),
            TransactionStatus::VerificationFailure(e) => StatusView::VerificationFailure(e@),
            TransactionStatus::Missing => StatusView::Missing,
        }
    }
}

/// How far a bundle has come.
pub struct BundleView {
    pub transactions: Seq<Seq<char>>,
    pub encoding: BinaryEncoding,
    pub decoded: Seq<Seq<Seq<u8>>>,
    pub signatures: Seq<Seq<u8>>,
    pub phase: BundlePhase,
}

/// The signatures of each decoded transaction.
pub open spec fn decoded_bytes(decoded: Seq<Vec<Signature>>) -> Seq<Seq<Seq<u8>>> {
    Seq::new(decoded.len(), |i: int| signature_bytes(decoded[i]@))
}

impl View for BundleRun {
    type V = BundleView;

    closed spec fn view(&self) -> BundleView {
        BundleView {
            transactions: texts(self.transactions@),
            encoding: self.encoding,
            decoded: decoded_bytes(self.decoded@),
            signatures: signature_bytes(self.signatures@),
            phase: self.phase,
        }
    }
}

/// What came of an action.
pub enum BundleEventView {
    Decoded(Result<Seq<Seq<u8>>, ReportView>),
    Opened,
    Processed(Result<(), Seq<char>>),
    Settled(StatusView),
    Reclaimed(bool),
    Committed(Result<(), Seq<char>>),
}

impl View for BundleEvent {
    type V = BundleEventView;

    open spec fn view(&self) -> BundleEventView {
        match *self {
            BundleEvent::Decoded(Ok(signatures)) => BundleEventView::Decoded(
                Ok(signature_bytes(signatures@)),
            ),
            BundleEvent::Decoded(Err(report)) => BundleEventView::Decoded(Err(report@)),
            BundleEvent::Opened => BundleEventView::Opened,
            BundleEvent::Processed(Ok(())) => BundleEventView::Processed(Ok(())),
            BundleEvent::Processed(Err(e)) => BundleEventView::Processed(Err(e@)),
            BundleEvent::Settled(status) => BundleEventView::Settled(status@),
            BundleEvent::Reclaimed(done) => BundleEventView::Reclaimed(done),
            BundleEvent::Committed(Ok(())) => BundleEventView::Committed(Ok(())),
            BundleEvent::Committed(Err(e)) => BundleEventView::Committed(Err(e@)),
        }
    }
}

/// What to do next.
pub enum BundleActionView {
    Decode { index: int, transaction: Seq<char>, encoding: BinaryEncoding },
    OpenSandbox,
    Process { index: int, skip_preflight: bool, sigverify: bool },
    AwaitStatus { index: int },
    ReclaimSandbox,
    Commit,
    Finish(Result<Seq<char>, RpcErrorView>),
}

impl View for BundleAction {
    type V = BundleActionView;

    open spec fn view(&self) -> BundleActionView {
        match *self {
            BundleAction::Decode { index, transaction, encoding } => BundleActionView::Decode {
                index: index as int,
                transaction: transaction@,
                encoding,
            },
            BundleAction::OpenSandbox => BundleActionView::OpenSandbox,
            BundleAction::Process { index, skip_preflight, sigverify } =>
                BundleActionView::Process { index: index as int, skip_preflight, sigverify },
            BundleAction::AwaitStatus { index } => BundleActionView::AwaitStatus {
                index: index as int,
            },
            BundleAction::ReclaimSandbox => BundleActionView::ReclaimSandbox,
            BundleAction::Commit => BundleActionView::Commit,
            BundleAction::Finish(Ok(id)) => BundleActionView::Finish(Ok(id@)),
            BundleAction::Finish(Err(e)) => BundleActionView::Finish(Err(e@)),
        }
    }
}

/// Whether the parts of a bundle's state fit together: transactions are decoded one after the
/// other, then run one after the other.
pub open spec fn consistent(state: BundleView) -> bool {
    let count = state.transactions.len();
    state.phase != BundlePhase::Finished ==> {
        &&& 1 <= count <= MAX_BUNDLE_SIZE
        &&& state.phase == BundlePhase::Decoding ==> {
            &&& state.decoded.len() < count
            &&& state.signatures.len() == 0
        }
        &&& state.phase != BundlePhase::Decoding ==> state.decoded.len() == count
        &&& state.phase == BundlePhase::Opening ==> state.signatures.len() == 0
        &&& state.phase == BundlePhase::Processing ==> state.signatures.len() < count
        &&& state.phase == BundlePhase::Awaiting ==> 1 <= state.signatures.len() <= count
        &&& (state.phase == BundlePhase::Reclaiming || state.phase == BundlePhase::Committing)
            ==> state.signatures.len() == count
    }
}

/// Whether an event is an answer to the action that the bundle waits for. A transaction that was
/// run carries at least one signature.
pub open spec fn answers(state: BundleView, event: BundleEventView) -> bool {
    match state.phase {
        BundlePhase::Decoding => event is Decoded,
        BundlePhase::Opening => event is Opened,
        BundlePhase::Processing => event is Processed
            && state.decoded[state.signatures.len() as int].len() > 0,
        BundlePhase::Awaiting => event is Settled,
        BundlePhase::Reclaiming => event is Reclaimed,
        BundlePhase::Committing => event is Committed,
        BundlePhase::Finished => false,
    }
}

/// The end of a bundle with an error.
pub open spec fn fail(state: BundleView, error: RpcErrorView) -> (BundleView, BundleActionView) {
    (
        BundleView { phase: BundlePhase::Finished, ..state },
        BundleActionView::Finish(Err(error)),
    )
}

/// The refusal of a transaction at position `index`, which the message counts from one.
pub open spec fn refusal(index: int, before: Seq<char>, reason: Seq<char>) -> RpcErrorView {
    RpcErrorView::InvalidParams(before + decimal_text((index + 1) as nat) + ": "@ + reason)
}

/// Why a bundle ends with the transaction at position `index`, if it does.
pub open spec fn status_error(index: int, status: StatusView) -> Option<RpcErrorView> {
    match status {
        StatusView::Success => None,
        StatusView::SimulationFailure(e) => Some(
            refusal(
                index,
                "Jito bundle couldn't be executed: simulation failed for transaction "@,
                e,
            ),
        ),
        StatusView::ExecutionFailure(e) => Some(
            refusal(
                index,
                "Jito bundle couldn't be executed: Execution failed for transaction "@,
                e,
            ),
        ),
        StatusView::VerificationFailure(e) => Some(
            refusal(
                index,
                "Jito bundle couldn't be executed: Verification failed for transaction "@,
                e,
            ),
        ),
        StatusView::Missing => Some(RpcErrorView::NodeUnhealthy),
    }
}

/// The answer to a transaction at position `index` that could not be decoded: the decoder's
/// report, with the position before its message.
pub open spec fn decode_error(index: int, report: ReportView) -> RpcErrorView {
    RpcErrorView::Reported(
        ReportView {
            message: "Failed to decode bundle transaction "@ + decimal_text((index + 1) as nat)
                + ": "@ + report.message,
            ..report
        },
    )
}

/// The action that decodes the transaction at position `index`.
pub open spec fn decode_action(state: BundleView, index: int) -> BundleActionView {
    BundleActionView::Decode {
        index,
        transaction: state.transactions[index],
        encoding: state.encoding,
    }
}

/// The action that runs the transaction at position `index`: without a preflight check, with
/// signature verification.
pub open spec fn process_action(index: int) -> BundleActionView {
    BundleActionView::Process { index, skip_preflight: true, sigverify: true }
}

/// The next state and the next action, for what came of the last action.
pub open spec fn next_step(state: BundleView, event: BundleEventView) -> (
    BundleView,
    BundleActionView,
) {
    let count = state.transactions.len();
    let ran = state.signatures.len() as int;
    match event {
        BundleEventView::Decoded(Err(report)) => fail(
            state,
            decode_error(state.decoded.len() as int, report),
        ),
        BundleEventView::Decoded(Ok(signatures)) => {
            let decoded = state.decoded.push(signatures);
            if decoded.len() < count {
                (BundleView { decoded, ..state }, decode_action(state, decoded.len() as int))
            } else {
                (
                    BundleView { decoded, phase: BundlePhase::Opening, ..state },
                    BundleActionView::OpenSandbox,
                )
            }
        },
        BundleEventView::Opened => (
            BundleView { phase: BundlePhase::Processing, ..state },
            process_action(0),
        ),
        BundleEventView::Processed(outcome) => {
            let after = BundleView {
                signatures: state.signatures.push(state.decoded[ran][0]),
                phase: BundlePhase::Awaiting,
                ..state
            };
            match outcome {
                Err(e) => fail(
                    after,
                    refusal(
                        ran,
                        "Jito bundle couldn't be executed, failed to process transaction "@,
                        e,
                    ),
                ),
                Ok(_) => (after, BundleActionView::AwaitStatus { index: ran }),
            }
        },
        BundleEventView::Settled(status) => match status_error(ran - 1, status) {
            Some(error) => fail(state, error),
            None => if ran < count {
                (BundleView { phase: BundlePhase::Processing, ..state }, process_action(ran))
            } else {
                (
                    BundleView { phase: BundlePhase::Reclaiming, ..state },
                    BundleActionView::ReclaimSandbox,
                )
            },
        },
        BundleEventView::Reclaimed(done) => if done {
            (BundleView { phase: BundlePhase::Committing, ..state }, BundleActionView::Commit)
        } else {
            fail(state, RpcErrorView::InternalError)
        },
        BundleEventView::Committed(Err(e)) => fail(
            state,
            RpcErrorView::InvalidParams(
                "Jito bundle commit failed after successful sandbox execution: "@ + e,
            ),
        ),
        BundleEventView::Committed(Ok(_)) => (
            BundleView { phase: BundlePhase::Finished, ..state },
            BundleActionView::Finish(Ok(bundle_id_text(state.signatures))),
        ),
    }
}

/// Why a request to run a bundle is turned away before anything is decoded, if it is. The reasons
/// are looked at in this order: the bundle is empty, it is too large, the node cannot serve
/// requests, the encoding is not one for bytes.
pub open spec fn admission_error(
    healthy: bool,
    count: nat,
    encoding: TransactionEncoding,
) -> Option<RpcErrorView> {
    if count == 0 {
        Some(RpcErrorView::InvalidParams("Bundle cannot be empty"@))
    } else if count > MAX_BUNDLE_SIZE {
        Some(
            RpcErrorView::InvalidParams(
                "Bundle exceeds maximum size of "@ + decimal_text(MAX_BUNDLE_SIZE as nat)
                    + " transactions"@,
            ),
        )
    } else if !healthy {
        Some(RpcErrorView::NodeUnhealthy)
    } else if encoding.as_binary() is None {
        Some(
            RpcErrorView::InvalidParams(
                "unsupported encoding: "@ + encoding.name()
                    + ". Supported encodings: base58, base64"@,
            ),
        )
    } else {
        None
    }
}

/// The encoding of a request: the one that it names, or base58.
pub open spec fn requested_encoding(config: Option<SendTransactionConfig>) -> TransactionEncoding {
    match config {
        Some(SendTransactionConfig { encoding: Some(encoding) }) => encoding,
        _ => TransactionEncoding::Base58,
    }
}

/// A bundle none of whose transactions is decoded yet.
pub open spec fn admitted(transactions: Seq<Seq<char>>, encoding: BinaryEncoding) -> BundleView {
    BundleView {
        transactions,
        encoding,
        decoded: Seq::empty(),
        signatures: Seq::empty(),
        phase: BundlePhase::Decoding,
    }
}

/// The bundle service.
#[derive(Clone, Copy, Debug)]
pub struct SurfpoolJitoRpc;

impl SurfpoolJitoRpc {
    /// Takes a bundle in, or turns it away. `healthy` tells whether the node can serve requests.
    pub fn send_bundle(
        &self,
        healthy: bool,
        transactions: Vec<String>,
        config: Option<SendTransactionConfig>,
    ) -> (r: (BundleRun, BundleAction))
        ensures
            consistent(r.0@),
            match admission_error(healthy, transactions@.len(), requested_encoding(config)) {
                Some(error) => {
                    &&& r.0@.phase == BundlePhase::Finished
                    &&& r.1@ == BundleActionView::Finish(Err(error))
                },
                None => {
                    &&& r.0@ == admitted(
                        texts(transactions@),
                        requested_encoding(config).as_binary()->Some_0,
                    )
                    &&& r.1@ == decode_action(r.0@, 0)
                },
            },
    {
        let encoding: TransactionEncoding = match config {
            Some(SendTransactionConfig { encoding: Some(encoding) }) => encoding,
            _ => TransactionEncoding::Base58,
        };
        let count: usize = transactions.len();
        if count == 0 {
            return BundleRun::turn_away(
                transactions,
                RpcError::InvalidParams("Bundle cannot be empty".to_owned()),
            );
        }
        if count > MAX_BUNDLE_SIZE {
            let limit: String = decimal(MAX_BUNDLE_SIZE as u64);
            return BundleRun::turn_away(
                transactions,
                RpcError::InvalidParams(
                    cat3("Bundle exceeds maximum size of ", limit.as_str(), " transactions"),
                ),
            );
        }
        if !healthy {
            return BundleRun::turn_away(transactions, RpcError::NodeUnhealthy);
        }
        match binary_encoding(encoding) {
            None => {
                let name: String = encoding_name(encoding);
                BundleRun::turn_away(
                    transactions,
                    RpcError::InvalidParams(
                        cat3(
                            "unsupported encoding: ",
                            name.as_str(),
                            ". Supported encodings: base58, base64",
                        ),
                    ),
                )
            },
            Some(binary) => {
                let first: String = transactions[0].clone();
                let run = BundleRun {
                    transactions,
                    encoding: binary,
                    decoded: Vec::new(),
                    signatures: Vec::new(),
                    phase: BundlePhase::Decoding,
                };
                assert(run@.decoded =~= Seq::empty());
                assert(run@.signatures =~= Seq::empty());
                (run, BundleAction::Decode { index: 0, transaction: first, encoding: binary })
            },
        }
    }
}

/// A message about the transaction at position `index`, which it counts from one.
fn transaction_message(before: &str, index: usize, reason: &str) -> (r: String)
    requires
        index < u64::MAX,
    ensures
        r@ == before@ + decimal_text((index + 1) as nat) + ": "@ + reason@,
{
    let position: String = decimal(index as u64 + 1);
    cat4(before, position.as_str(), ": ", reason)
}

impl BundleRun {
    fn turn_away(transactions: Vec<String>, error: RpcError) -> (r: (BundleRun, BundleAction))
        ensures
            r.0@.phase == BundlePhase::Finished,
            r.1@ == BundleActionView::Finish(Err(error@)),
    {
        let run = BundleRun {
            transactions,
            encoding: BinaryEncoding::Base58,
            decoded: Vec::new(),
            signatures: Vec::new(),
            phase: BundlePhase::Finished,
        };
        (run, BundleAction::Finish(Err(error)))
    }

    fn fail(self, error: RpcError) -> (r: (BundleRun, BundleAction))
        ensures
            (r.0@, r.1@) == fail(self@, error@),
    {
        (
            BundleRun { phase: BundlePhase::Finished, ..self },
            BundleAction::Finish(Err(error)),
        )
    }

    /// What the bundle waits for.
    pub fn phase(&self) -> (r: BundlePhase)
        ensures
            r == self@.phase,
    {
        self.phase
    }

    /// Whether the transaction that is being run carries a signature.
    pub fn is_signed(&self) -> (r: bool)
        requires
            consistent(self@),
            self@.phase == BundlePhase::Processing,
        ensures
            r == (self@.decoded[self@.signatures.len() as int].len() > 0),
    {
        self.decoded[self.signatures.len()].len() > 0
    }

    fn on_decoded(self, outcome: Result<Vec<Signature>, Report>) -> (r: (BundleRun, BundleAction))
        requires
            consistent(self@),
            self@.phase == BundlePhase::Decoding,
        ensures
            consistent(r.0@),
            (r.0@, r.1@) == next_step(self@, BundleEvent::Decoded(outcome)@),
    {
        let index: usize = self.decoded.len();
        match outcome {
            Err(report) => {
                let message: String = transaction_message(
                    "Failed to decode bundle transaction ",
                    index,
                    report.message.as_str(),
                );
                self.fail(
                    RpcError::Reported(Report { code: report.code, message, data: report.data }),
                )
            },
            Ok(signatures) => {
                let mut run = self;
                run.decoded.push(signatures);
                assert(run@.decoded =~= self@.decoded.push(signature_bytes(signatures@)));
                if index + 1 < run.transactions.len() {
                    let transaction: String = run.transactions[index + 1].clone();
                    let encoding: BinaryEncoding = run.encoding;
                    (run, BundleAction::Decode { index: index + 1, transaction, encoding })
                } else {
                    run.phase = BundlePhase::Opening;
                    (run, BundleAction::OpenSandbox)
                }
            },
        }
    }

    fn on_processed(self, outcome: Result<(), String>) -> (r: (BundleRun, BundleAction))
        requires
            consistent(self@),
            answers(self@, BundleEvent::Processed(outcome)@),
        ensures
            consistent(r.0@),
            (r.0@, r.1@) == next_step(self@, BundleEvent::Processed(outcome)@),
    {
        let index: usize = self.signatures.len();
        let mut run = self;
        let first: Signature = run.decoded[index][0];
        run.signatures.push(first);
        run.phase = BundlePhase::Awaiting;
        assert(first@ == self@.decoded[index as int][0]);
        assert(run@.signatures =~= self@.signatures.push(first@));
        match outcome {
            Err(e) => {
                let message: String = transaction_message(
                    "Jito bundle couldn't be executed, failed to process transaction ",
                    index,
                    e.as_str(),
                );
                run.fail(RpcError::InvalidParams(message))
            },
            Ok(_) => (run, BundleAction::AwaitStatus { index }),
        }
    }

    fn on_settled(self, status: TransactionStatus) -> (r: (BundleRun, BundleAction))
        requires
            consistent(self@),
            self@.phase == BundlePhase::Awaiting,
        ensures
            consistent(r.0@),
            (r.0@, r.1@) == next_step(self@, BundleEvent::Settled(status)@),
    {
        let index: usize = self.signatures.len() - 1;
        match status {
            TransactionStatus::Success => {
                let mut run = self;
                if index + 1 < run.transactions.len() {
                    run.phase = BundlePhase::Processing;
                    (
                        run,
                        BundleAction::Process {
                            index: index + 1,
                            skip_preflight: true,
                            sigverify: true,
                        },
                    )
                } else {
                    run.phase = BundlePhase::Reclaiming;
                    (run, BundleAction::ReclaimSandbox)
                }
            },
            TransactionStatus::SimulationFailure(e) => {
                let message: String = transaction_message(
                    "Jito bundle couldn't be executed: simulation failed for transaction ",
                    index,
                    e.as_str(),
                );
                self.fail(RpcError::InvalidParams(message))
            },
            TransactionStatus::ExecutionFailure(e) => {
                let message: String = transaction_message(
                    "Jito bundle couldn't be executed: Execution failed for transaction ",
                    index,
                    e.as_str(),
                );
                self.fail(RpcError::InvalidParams(message))
            },
            TransactionStatus::VerificationFailure(e) => {
                let message: String = transaction_message(
                    "Jito bundle couldn't be executed: Verification failed for transaction ",
                    index,
                    e.as_str(),
                );
                self.fail(RpcError::InvalidParams(message))
            },
            TransactionStatus::Missing => self.fail(RpcError::NodeUnhealthy),
        }
    }

    /// Takes what came of the last action and says what to do next. An identifier has sixty-four
    /// characters.
    pub fn step(self, event: BundleEvent) -> (r: (BundleRun, BundleAction))
        requires
            consistent(self@),
            answers(self@, event@),
        ensures
            consistent(r.0@),
            (r.0@, r.1@) == next_step(self@, event@),
            r.1 matches BundleAction::Finish(Ok(id)) ==> id@.len() == 64,
    {
        match event {
            BundleEvent::Decoded(outcome) => self.on_decoded(outcome),
            BundleEvent::Opened => {
                let mut run = self;
                run.phase = BundlePhase::Processing;
                (
                    run,
                    BundleAction::Process { index: 0, skip_preflight: true, sigverify: true },
                )
            },
            BundleEvent::Processed(outcome) => self.on_processed(outcome),
            BundleEvent::Settled(status) => self.on_settled(status),
            BundleEvent::Reclaimed(done) => {
                if done {
                    let mut run = self;
                    run.phase = BundlePhase::Committing;
                    (run, BundleAction::Commit)
                } else {
                    self.fail(RpcError::InternalError)
                }
            },
            BundleEvent::Committed(outcome) => match outcome {
                Err(e) => {
                    let message: String = cat2(
                        "Jito bundle commit failed after successful sandbox execution: ",
                        e.as_str(),
                    );
                    self.fail(RpcError::InvalidParams(message))
                },
                Ok(_) => {
                    let id: String = bundle_id(&self.signatures);
                    let mut run = self;
                    run.phase = BundlePhase::Finished;
                    (run, BundleAction::Finish(Ok(id)))
                },
            },
        }
    }
}

} // verus!
