//! What each step of a bundle does, and what follows for the bundle as a whole.
//!
//! The laws on steps speak of whatever a call hands back. The laws on whole bundles speak of the
//! sandbox as each transaction finds it: the live machine after the transactions before it.

use vstd::prelude::*;
use vstd::utf8::*;

use crate::jito::bundle::{
    answers, consistent, next_step, BundleAction, BundleEvent, BundlePhase, BundleRun, Report, ReportView,
    RpcError, RpcErrorView, SendTransactionConfig, StatusView, SurfpoolJitoRpc, TransactionStatus,
    STATUS_TIMEOUT_MS,
};
use crate::jito::digest::{hex_text, sha256};
use crate::jito::encoding::{BinaryEncoding, TransactionEncoding};
use crate::jito::id::{bundle_id, bundle_preimage, signature_bytes};
use crate::jito::laws::{
    decoded_and_executed, driven, executed, law_bundle_outcome, Bundle, Environment, World,
};
use crate::keys::{signature_text, Signature};
use crate::sdk::surfnet::is_hex_digit;
use crate::text::{decimal_text, joined};

verus! {

/// Whether an action ends the bundle with a refusal in these words.
pub open spec fn ends_with_refusal(action: BundleAction, message: Seq<char>) -> bool {
    action matches BundleAction::Finish(Err(RpcError::InvalidParams(text))) && text@ == message
}

/// Whether an action runs the transaction at a position, without a preflight check and with
/// signature verification.
pub open spec fn runs_transaction(action: BundleAction, position: int) -> bool {
    action matches BundleAction::Process { index, skip_preflight, sigverify } && index == position
        && skip_preflight && sigverify
}

/// A transaction counts as successful if and only if its status is success, at every position. Then
/// the next transaction is run, or after the last one the sandbox is taken back; with any other
/// status the bundle is over and answered with an error.
pub proof fn law_only_success_goes_on(
    run: BundleRun,
    status: TransactionStatus,
    r: (BundleRun, BundleAction),
)
    requires
        call_ensures(BundleRun::step, (run, BundleEvent::Settled(status)), r),
    ensures
        status is Success ==> if run@.signatures.len() < run@.transactions.len() {
            runs_transaction(r.1, run@.signatures.len() as int) && r.0@.phase
                == BundlePhase::Processing
        } else {
            r.1 is ReclaimSandbox && r.0@.phase == BundlePhase::Reclaiming
        },
        !(status is Success) ==> (r.1 matches BundleAction::Finish(Err(_))) && r.0@.phase
            == BundlePhase::Finished,
{
}

/// The error for a transaction that did not succeed says how it failed, which transaction it was,
/// counted from one, and why. A missing status says that the node is unhealthy.
pub proof fn law_failure_is_described(
    run: BundleRun,
    status: TransactionStatus,
    r: (BundleRun, BundleAction),
)
    requires
        call_ensures(BundleRun::step, (run, BundleEvent::Settled(status)), r),
    ensures
        ({
            let place = decimal_text(run@.signatures.len());
            match status {
                TransactionStatus::Success => !(r.1 is Finish),
                TransactionStatus::SimulationFailure(e) => ends_with_refusal(
                    r.1,
                    "Jito bundle couldn't be executed: simulation failed for transaction "@ + place
                        + ": "@ + e@,
                ),
                TransactionStatus::ExecutionFailure(e) => ends_with_refusal(
                    r.1,
                    "Jito bundle couldn't be executed: Execution failed for transaction "@ + place
                        + ": "@ + e@,
                ),
                TransactionStatus::VerificationFailure(e) => ends_with_refusal(
                    r.1,
                    "Jito bundle couldn't be executed: Verification failed for transaction "@ + place
                        + ": "@ + e@,
                ),
                TransactionStatus::Missing => r.1 matches BundleAction::Finish(
                    Err(RpcError::NodeUnhealthy),
                ),
            }
        }),
{
}

/// A transaction that was processed has its first signature noted and its status awaited; one that
/// could not be processed ends the bundle, with its place counted from one.
pub proof fn law_processed(
    run: BundleRun,
    outcome: Result<(), String>,
    r: (BundleRun, BundleAction),
)
    requires
        call_ensures(BundleRun::step, (run, BundleEvent::Processed(outcome)), r),
    ensures
        r.0@.signatures.len() == run@.signatures.len() + 1,
        r.0@.signatures.last() == run@.decoded[run@.signatures.len() as int][0],
        r.0@.signatures.drop_last() == run@.signatures,
        outcome is Ok ==> (r.1 matches BundleAction::AwaitStatus { index } && index
            == run@.signatures.len()) && r.0@.phase == BundlePhase::Awaiting,
        outcome matches Err(e) ==> ends_with_refusal(
            r.1,
            "Jito bundle couldn't be executed, failed to process transaction "@ + decimal_text(
                run@.signatures.len() + 1,
            ) + ": "@ + e@,
        ),
{
    assert(r.0@.signatures.drop_last() =~= run@.signatures);
}

/// A decoded transaction is noted with all its signatures, and the next one is decoded in the same
/// encoding, or after the last one the sandbox is opened. One that cannot be decoded ends the bundle
/// with the decoder's code and data, its place before the decoder's message.
pub proof fn law_decoded(
    run: BundleRun,
    outcome: Result<Vec<Signature>, Report>,
    r: (BundleRun, BundleAction),
)
    requires
        call_ensures(BundleRun::step, (run, BundleEvent::Decoded(outcome)), r),
    ensures
        outcome matches Ok(signatures) ==> {
            let next = run@.decoded.len() + 1;
            &&& r.0@.decoded.len() == next
            &&& r.0@.decoded.drop_last() == run@.decoded
            &&& r.0@.decoded.last().len() == signatures@.len()
            &&& forall|i: int|
                0 <= i < signatures@.len() ==> #[trigger] r.0@.decoded.last()[i] == signatures@[i]@
            &&& next < run@.transactions.len() ==> (r.1 matches BundleAction::Decode {
                index,
                transaction,
                encoding,
            } && index == next && transaction@ == run@.transactions[next as int] && encoding
                == run@.encoding)
            &&& next >= run@.transactions.len() ==> r.1 is OpenSandbox
        },
        outcome matches Err(report) ==> (r.1 matches BundleAction::Finish(
            Err(RpcError::Reported(answer)),
        ) && {
            &&& answer.code == report.code
            &&& answer.data is Some <==> report.data is Some
            &&& report.data matches Some(data) ==> answer.data->Some_0@ == data@
            &&& answer.message@ == "Failed to decode bundle transaction "@ + decimal_text(
                run@.decoded.len() + 1,
            ) + ": "@ + report.message@
        }),
{
    if outcome is Ok {
        assert(r.0@.decoded.drop_last() =~= run@.decoded);
    }
}

/// With the sandbox open, the first transaction is run. The sandbox is committed only once it could
/// be taken back; where it could not, the node is in a state that should not occur.
pub proof fn law_opened_and_reclaimed(
    run: BundleRun,
    done: bool,
    opened: (BundleRun, BundleAction),
    reclaimed: (BundleRun, BundleAction),
)
    requires
        call_ensures(BundleRun::step, (run, BundleEvent::Opened), opened),
        call_ensures(BundleRun::step, (run, BundleEvent::Reclaimed(done)), reclaimed),
    ensures
        runs_transaction(opened.1, 0),
        done ==> reclaimed.1 is Commit,
        !done ==> (reclaimed.1 matches BundleAction::Finish(Err(RpcError::InternalError))),
{
}

/// A committed bundle is answered with the hexadecimal hash of the signatures that were noted, in
/// base58 with commas between them; a commit that failed is answered with its reason.
pub proof fn law_committed(
    run: BundleRun,
    outcome: Result<(), String>,
    r: (BundleRun, BundleAction),
)
    requires
        call_ensures(BundleRun::step, (run, BundleEvent::Committed(outcome)), r),
    ensures
        outcome is Ok ==> (r.1 matches BundleAction::Finish(Ok(id)) && id@ == hex_text(
            sha256(
                encode_utf8(
                    joined(
                        Seq::new(
                            run@.signatures.len(),
                            |i: int| signature_text(run@.signatures[i]),
                        ),
                        ","@,
                    ),
                ),
            ),
        )),
        outcome matches Err(e) ==> ends_with_refusal(
            r.1,
            "Jito bundle commit failed after successful sandbox execution: "@ + e@,
        ),
{
}

/// Only a sandbox that could be taken back is committed, and only a commit that succeeded is answered
/// with an identifier. No step changes the transactions or how they are written.
pub proof fn law_commit_and_answer_come_last(
    run: BundleRun,
    event: BundleEvent,
    r: (BundleRun, BundleAction),
)
    requires
        call_ensures(BundleRun::step, (run, event), r),
    ensures
        r.1 is Commit ==> event == BundleEvent::Reclaimed(true),
        (r.1 matches BundleAction::Finish(Ok(_))) ==> (event matches BundleEvent::Committed(
            outcome,
        ) && outcome is Ok),
        answers(run@, event@) ==> (r.1 is Finish <==> r.0@.phase == BundlePhase::Finished),
        r.0@.transactions == run@.transactions,
        r.0@.encoding == run@.encoding,
        (r.0@, r.1@) == next_step(run@, event@),
{
}

/// A bundle is taken in if and only if it holds one to five transactions, the node can serve
/// requests and the encoding is one for bytes, base58 unless another is named. Then its first
/// transaction is decoded, and nothing has been decoded or run before.
pub proof fn law_taken_in(
    service: &SurfpoolJitoRpc,
    healthy: bool,
    transactions: Vec<String>,
    config: Option<SendTransactionConfig>,
    r: (BundleRun, BundleAction),
)
    requires
        call_ensures(SurfpoolJitoRpc::send_bundle, (service, healthy, transactions, config), r),
    ensures
        ({
            let named = match config {
                Some(options) => options.encoding,
                None => None,
            };
            let base64 = named == Some(TransactionEncoding::Base64);
            let base58 = named is None || named == Some(TransactionEncoding::Base58) || named == Some(
                TransactionEncoding::Binary,
            );
            let state = r.0@;
            if 1 <= transactions@.len() <= 5 && healthy && (base58 || base64) {
                &&& consistent(state)
                &&& state.phase == BundlePhase::Decoding
                &&& state.transactions.len() == transactions@.len()
                &&& forall|i: int|
                    0 <= i < transactions@.len() ==> #[trigger] state.transactions[i]
                        == transactions@[i]@
                &&& state.encoding == if base64 {
                    BinaryEncoding::Base64
                } else {
                    BinaryEncoding::Base58
                }
                &&& state.decoded.len() == 0
                &&& state.signatures.len() == 0
                &&& r.1 matches BundleAction::Decode { index, transaction, encoding } && index == 0
                    && transaction@ == transactions@[0]@ && encoding == state.encoding
            } else {
                &&& state.phase == BundlePhase::Finished
                &&& r.1 matches BundleAction::Finish(Err(_))
            }
        }),
{
}

/// A bundle is turned away for the first reason that holds: it is empty, it is too large, the node
/// cannot serve requests, the encoding is not one for bytes.
pub proof fn law_turned_away(
    service: &SurfpoolJitoRpc,
    healthy: bool,
    transactions: Vec<String>,
    config: Option<SendTransactionConfig>,
    r: (BundleRun, BundleAction),
)
    requires
        call_ensures(SurfpoolJitoRpc::send_bundle, (service, healthy, transactions, config), r),
    ensures
        if transactions@.len() == 0 {
            ends_with_refusal(r.1, "Bundle cannot be empty"@)
        } else if transactions@.len() > 5 {
            ends_with_refusal(
                r.1,
                "Bundle exceeds maximum size of "@ + decimal_text(5) + " transactions"@,
            )
        } else if !healthy {
            r.1 matches BundleAction::Finish(Err(RpcError::NodeUnhealthy))
        } else {
            config matches Some(options) ==> {
                &&& options.encoding == Some(TransactionEncoding::Json) ==> ends_with_refusal(
                    r.1,
                    "unsupported encoding: "@ + "json"@ + ". Supported encodings: base58, base64"@,
                )
                &&& options.encoding == Some(TransactionEncoding::JsonParsed) ==> ends_with_refusal(
                    r.1,
                    "unsupported encoding: "@ + "jsonParsed"@
                        + ". Supported encodings: base58, base64"@,
                )
            }
        },
{
}

/// The text whose hash identifies a bundle holds the base58 texts of the signatures, in order, with
/// commas between them, and the identifier is the hexadecimal hash of that text.
pub proof fn law_identifier(signatures: &Vec<Signature>, text: String, id: String)
    requires
        call_ensures(bundle_preimage, (signatures,), text),
        call_ensures(bundle_id, (signatures,), id),
    ensures
        text@ == joined(
            Seq::new(signatures@.len(), |i: int| signature_text(signatures@[i]@)),
            ","@,
        ),
        id@ == hex_text(sha256(encode_utf8(text@))),
        id@.len() == 64,
{
    assert(Seq::new(signatures@.len(), |i: int| signature_text(signatures@[i]@)) =~= Seq::new(
        signature_bytes(signatures@).len(),
        |i: int| signature_text(signature_bytes(signatures@)[i]),
    ));
}

/// The value of a lower-case hexadecimal digit.
pub open spec fn hex_value(c: char) -> int {
    if c <= '9' {
        c as int - '0' as int
    } else {
        c as int - 'a' as int + 10
    }
}

/// Bytes in hexadecimal are twice as many lower-case digits, and each pair of digits reads as its
/// byte.
pub proof fn law_hexadecimal_reads_back(bytes: Seq<u8>, i: int)
    requires
        0 <= i < bytes.len(),
    ensures
        hex_text(bytes).len() == 2 * bytes.len(),
        is_hex_digit(hex_text(bytes)[2 * i]),
        is_hex_digit(hex_text(bytes)[2 * i + 1]),
        16 * hex_value(hex_text(bytes)[2 * i]) + hex_value(hex_text(bytes)[2 * i + 1]) == bytes[i],
{
    assert((2 * i) / 2 == i && (2 * i) % 2 == 0);
    assert((2 * i + 1) / 2 == i && (2 * i + 1) % 2 == 1);
}

/// The sandbox as the transaction at a position finds it: the live machine after the transactions
/// before that one.
pub open spec fn sandbox_before<V>(env: Environment<V>, live: V, position: int) -> V
    decreases position,
{
    if position <= 0 {
        live
    } else {
        (env.process)(
            sandbox_before(env, live, position - 1),
            position - 1,
            true,
            true,
        ).0
    }
}

/// What processing the transaction at a position gives.
pub open spec fn processing<V>(env: Environment<V>, live: V, position: int) -> (
    V,
    Result<(), Seq<char>>,
) {
    (env.process)(sandbox_before(env, live, position), position, true, true)
}

/// The status of the transaction at a position, once it was processed.
pub open spec fn status_of<V>(env: Environment<V>, live: V, position: int) -> StatusView {
    (env.status)(processing(env, live, position).0, position)
}

/// Whether the transaction at a position is processed and its status is success.
pub open spec fn succeeds<V>(env: Environment<V>, live: V, position: int) -> bool {
    processing(env, live, position).1 is Ok && status_of(env, live, position) is Success
}

/// Whether the transaction at a position is the first that does not succeed.
pub open spec fn is_first_failure<V>(env: Environment<V>, live: V, position: int) -> bool {
    &&& 0 <= position
    &&& !succeeds(env, live, position)
    &&& forall|i: int| 0 <= i < position ==> #[trigger] succeeds(env, live, i)
}

/// Whether every transaction of a bundle succeeds.
pub open spec fn all_succeed<V>(bundle: Bundle, env: Environment<V>, live: V) -> bool {
    forall|i: int| 0 <= i < bundle.transactions.len() ==> #[trigger] succeeds(env, live, i)
}

/// Whether every transaction of a bundle can be decoded.
pub open spec fn all_decode<V>(bundle: Bundle, env: Environment<V>) -> bool {
    forall|i: int|
        0 <= i < bundle.transactions.len() ==> (env.decode)(
            #[trigger] bundle.transactions[i],
            bundle.encoding,
        ) is Ok
}

/// Whether an answer describes why the transaction at a position did not succeed.
pub open spec fn describes_failure<V>(
    answer: Result<Seq<char>, RpcErrorView>,
    env: Environment<V>,
    live: V,
    position: int,
) -> bool {
    let place = decimal_text((position + 1) as nat);
    match processing(env, live, position).1 {
        Err(e) => answer == Err::<Seq<char>, RpcErrorView>(
            RpcErrorView::InvalidParams(
                "Jito bundle couldn't be executed, failed to process transaction "@ + place + ": "@
                    + e,
            ),
        ),
        Ok(_) => match status_of(env, live, position) {
            StatusView::Success => false,
            StatusView::SimulationFailure(e) => answer == Err::<Seq<char>, RpcErrorView>(
                RpcErrorView::InvalidParams(
                    "Jito bundle couldn't be executed: simulation failed for transaction "@ + place
                        + ": "@ + e,
                ),
            ),
            StatusView::ExecutionFailure(e) => answer == Err::<Seq<char>, RpcErrorView>(
                RpcErrorView::InvalidParams(
                    "Jito bundle couldn't be executed: Execution failed for transaction "@ + place
                        + ": "@ + e,
                ),
            ),
            StatusView::VerificationFailure(e) => answer == Err::<Seq<char>, RpcErrorView>(
                RpcErrorView::InvalidParams(
                    "Jito bundle couldn't be executed: Verification failed for transaction "@ + place
                        + ": "@ + e,
                ),
            ),
            StatusView::Missing => answer == Err::<Seq<char>, RpcErrorView>(
                RpcErrorView::NodeUnhealthy,
            ),
        },
    }
}

proof fn lemma_executed_from<V>(
    bundle: Bundle,
    env: Environment<V>,
    live: V,
    from: int,
)
    requires
        0 <= from <= bundle.transactions.len(),
        forall|i: int| 0 <= i < from ==> #[trigger] succeeds(env, live, i),
    ensures
        ({
            let outcome = executed(bundle, env, live, sandbox_before(env, live, from), from);
            let count = bundle.transactions.len() as int;
            &&& all_succeed(bundle, env, live) ==> outcome == executed(
                bundle,
                env,
                live,
                sandbox_before(env, live, count),
                count,
            )
            &&& !all_succeed(bundle, env, live) ==> exists|i: int|
                #![trigger is_first_failure(env, live, i)]
                i < count && is_first_failure(env, live, i) && outcome.live == live
                    && describes_failure(outcome.answer, env, live, i)
        }),
    decreases bundle.transactions.len() - from,
{
    if from < bundle.transactions.len() {
        if succeeds(env, live, from) {
            assert(sandbox_before(env, live, from + 1) == processing(env, live, from).0);
            lemma_executed_from(bundle, env, live, from + 1);
        } else {
            assert(is_first_failure(env, live, from));
        }
    }
}

proof fn lemma_one_first_failure<V>(env: Environment<V>, live: V, a: int, b: int)
    requires
        is_first_failure(env, live, a),
        is_first_failure(env, live, b),
    ensures
        a == b,
{
    if a < b {
        assert(succeeds(env, live, a));
    } else if b < a {
        assert(succeeds(env, live, b));
    }
}

proof fn lemma_decoded_from<V>(bundle: Bundle, env: Environment<V>, live: V, from: int)
    requires
        0 <= from <= bundle.transactions.len(),
        forall|i: int|
            0 <= i < from ==> (env.decode)(
                #[trigger] bundle.transactions[i],
                bundle.encoding,
            ) is Ok,
    ensures
        ({
            let outcome = decoded_and_executed(bundle, env, live, from);
            &&& all_decode(bundle, env) ==> outcome == executed(bundle, env, live, live, 0)
            &&& !all_decode(bundle, env) ==> outcome.live == live && outcome.answer is Err
        }),
    decreases bundle.transactions.len() - from,
{
    if from < bundle.transactions.len() {
        let result = (env.decode)(bundle.transactions[from], bundle.encoding);
        assert(bundle.decoded(env, from) == result);
        if result is Ok {
            lemma_decoded_from(bundle, env, live, from + 1);
        }
    }
}

/// A bundle is committed, and answered with its identifier, only if every transaction decodes, is
/// processed and has the status success, each on what the ones before it left. Otherwise the live
/// machine stays as it was and the answer is an error.
pub proof fn law_committed_only_if_all_succeed<V>(
    bundle: Bundle,
    world: World<V>,
    env: Environment<V>,
)
    requires
        1 <= bundle.transactions.len() <= 5,
    ensures
        ({
            let outcome = driven(bundle, world, env);
            let count = bundle.transactions.len();
            let (committed, commit) = (env.commit)(
                world.live,
                sandbox_before(env, world.live, count as int),
            );
            if all_decode(bundle, env) && all_succeed(bundle, env, world.live) && env.reclaim {
                &&& outcome.live == committed
                &&& commit is Ok ==> outcome.answer == Ok::<Seq<char>, RpcErrorView>(
                    hex_text(
                        sha256(
                            encode_utf8(
                                joined(
                                    Seq::new(
                                        count,
                                        |i: int|
                                            signature_text(
                                                (env.decode)(
                                                    bundle.transactions[i],
                                                    bundle.encoding,
                                                )->Ok_0[0],
                                            ),
                                    ),
                                    ","@,
                                ),
                            ),
                        ),
                    ),
                )
                &&& commit matches Err(e) ==> outcome.answer == Err::<Seq<char>, RpcErrorView>(
                    RpcErrorView::InvalidParams(
                        "Jito bundle commit failed after successful sandbox execution: "@ + e,
                    ),
                )
            } else {
                &&& outcome.live == world.live
                &&& outcome.answer is Err
            }
        }),
{
    law_bundle_outcome(bundle, world, env);
    lemma_decoded_from(bundle, env, world.live, 0);
    lemma_executed_from(bundle, env, world.live, 0);
    let count = bundle.transactions.len();
    let signatures = bundle.first_signatures(env, count);
    assert(Seq::new(
        count,
        |i: int|
            signature_text((env.decode)(bundle.transactions[i], bundle.encoding)->Ok_0[0]),
    ) =~= Seq::new(signatures.len(), |i: int| signature_text(signatures[i])));
}

/// A bundle that decodes and has a transaction that does not succeed is answered with a description
/// of the first such transaction, and leaves the live machine as it was.
pub proof fn law_first_failure_is_answered<V>(
    bundle: Bundle,
    world: World<V>,
    env: Environment<V>,
    position: int,
)
    requires
        1 <= bundle.transactions.len() <= 5,
        all_decode(bundle, env),
        position < bundle.transactions.len(),
        is_first_failure(env, world.live, position),
    ensures
        describes_failure(driven(bundle, world, env).answer, env, world.live, position),
        driven(bundle, world, env).live == world.live,
{
    law_bundle_outcome(bundle, world, env);
    lemma_decoded_from(bundle, env, world.live, 0);
    lemma_executed_from(bundle, env, world.live, 0);
    assert(!succeeds(env, world.live, position));
    let outcome = driven(bundle, world, env);
    let i = choose|i: int|
        #![trigger is_first_failure(env, world.live, i)]
        i < bundle.transactions.len() && is_first_failure(env, world.live, i) && outcome.live
            == world.live && describes_failure(outcome.answer, env, world.live, i);
    lemma_one_first_failure(env, world.live, i, position);
}

proof fn lemma_first_undecodable<V>(
    bundle: Bundle,
    env: Environment<V>,
    live: V,
    position: int,
    from: int,
)
    requires
        0 <= from <= position < bundle.transactions.len(),
        (env.decode)(bundle.transactions[position], bundle.encoding) is Err,
        forall|i: int|
            0 <= i < position ==> (env.decode)(
                #[trigger] bundle.transactions[i],
                bundle.encoding,
            ) is Ok,
    ensures
        decoded_and_executed(bundle, env, live, from) == decoded_and_executed(
            bundle,
            env,
            live,
            position,
        ),
    decreases position - from,
{
    if from < position {
        assert((env.decode)(bundle.transactions[from], bundle.encoding) is Ok);
        lemma_first_undecodable(bundle, env, live, position, from + 1);
    }
}

/// A bundle with a transaction that cannot be decoded is answered with the decoder's report on the
/// first such transaction, its place counted from one before the message, and nothing is run.
pub proof fn law_first_undecodable_is_answered<V>(
    bundle: Bundle,
    world: World<V>,
    env: Environment<V>,
    position: int,
    report: ReportView,
)
    requires
        1 <= bundle.transactions.len() <= 5,
        0 <= position < bundle.transactions.len(),
        (env.decode)(bundle.transactions[position], bundle.encoding) == Err::<
            Seq<Seq<u8>>,
            ReportView,
        >(report),
        forall|i: int|
            0 <= i < position ==> (env.decode)(
                #[trigger] bundle.transactions[i],
                bundle.encoding,
            ) is Ok,
    ensures
        driven(bundle, world, env).live == world.live,
        driven(bundle, world, env).answer matches Err(RpcErrorView::Reported(answer)) && {
            &&& answer.code == report.code
            &&& answer.data == report.data
            &&& answer.message == "Failed to decode bundle transaction "@ + decimal_text(
                (position + 1) as nat,
            ) + ": "@ + report.message
        },
{
    law_bundle_outcome(bundle, world, env);
    lemma_first_undecodable(bundle, env, world.live, position, 0);
}

/// A transaction is run only if it carries a signature, and that can be told before it is run.
pub proof fn law_signed_transactions(run: &BundleRun, outcome: Result<(), String>, signed: bool)
    requires
        run@.phase == BundlePhase::Processing,
        call_ensures(BundleRun::is_signed, (run,), signed),
    ensures
        signed <==> run@.decoded[run@.signatures.len() as int].len() > 0,
        signed <==> answers(run@, BundleEvent::Processed(outcome)@),
{
}

/// The status of a transaction is awaited for two seconds at most.
pub proof fn law_status_deadline()
    ensures
        STATUS_TIMEOUT_MS == 2 * 1000,
{
}

} // verus!
