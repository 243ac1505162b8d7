//! What a bundle does as a whole.
//!
//! The course of a bundle is followed here together with the machine that it works on. `V` stands
//! for the state of a virtual machine, with the events that it has sent out, and an
//! [`Environment`] for everything that answers the bundle's actions.

use vstd::prelude::*;

use crate::jito::bundle::{
    admission_error, admitted, answers, consistent, decode_action, decode_error, next_step,
    process_action, refusal, status_error, BundleActionView, BundleEventView, BundlePhase,
    BundleView, ReportView, RpcErrorView, StatusView, MAX_BUNDLE_SIZE,
};
use crate::jito::encoding::{BinaryEncoding, TransactionEncoding};
use crate::jito::id::bundle_id_text;

verus! {

/// What answers a bundle's actions.
#[verifier::reject_recursive_types(V)]
pub struct Environment<V> {
    /// The signatures of a transaction, for its text and how it is written; or why it cannot be
    /// decoded.
    pub decode: spec_fn(Seq<char>, BinaryEncoding) -> Result<Seq<Seq<u8>>, ReportView>,
    /// What running the transaction at a position does to a sandbox, without or with a preflight
    /// check and signature verification.
    pub process: spec_fn(V, int, bool, bool) -> (V, Result<(), Seq<char>>),
    /// The status of the transaction at a position, after it was run.
    pub status: spec_fn(V, int) -> StatusView,
    /// Whether the sandbox can be taken back from its lock.
    pub reclaim: bool,
    /// What committing a sandbox does to the live machine.
    pub commit: spec_fn(V, V) -> (V, Result<(), Seq<char>>),
}

/// The transactions of a bundle and how they are written.
pub struct Bundle {
    pub transactions: Seq<Seq<char>>,
    pub encoding: BinaryEncoding,
}

/// The two machines that a bundle's actions touch.
pub struct World<V> {
    pub live: V,
    pub sandbox: V,
}

/// What a bundle leaves behind: the live machine and the answer to the request.
pub struct Outcome<V> {
    pub live: V,
    pub answer: Result<Seq<char>, RpcErrorView>,
}

impl Bundle {
    /// The number of transactions.
    pub open spec fn count(self) -> nat {
        self.transactions.len()
    }

    /// Whether a bundle of this size is taken in.
    pub open spec fn is_admissible(self) -> bool {
        1 <= self.count() <= MAX_BUNDLE_SIZE
    }

    /// What decoding the transaction at a position gives.
    pub open spec fn decoded<V>(self, env: Environment<V>, index: int) -> Result<
        Seq<Seq<u8>>,
        ReportView,
    > {
        (env.decode)(self.transactions[index], self.encoding)
    }

    /// The first signature of each of the first `count` transactions.
    pub open spec fn first_signatures<V>(self, env: Environment<V>, count: nat) -> Seq<Seq<u8>> {
        Seq::new(count, |i: int| self.decoded(env, i)->Ok_0[0])
    }

    /// Whether all transactions from `from` on decode.
    pub open spec fn all_decode<V>(self, env: Environment<V>, from: int) -> bool {
        forall|i: int| from <= i < self.count() ==> (#[trigger] self.decoded(env, i)) is Ok
    }
}

/// What performing an action does, and the event that it gives. The live machine is read to make
/// the sandbox and written by the commit; every other action leaves it alone.
pub open spec fn perform<V>(
    world: World<V>,
    action: BundleActionView,
    env: Environment<V>,
) -> (World<V>, BundleEventView) {
    match action {
        BundleActionView::Decode { transaction, encoding, .. } => (
            world,
            BundleEventView::Decoded((env.decode)(transaction, encoding)),
        ),
        BundleActionView::OpenSandbox => (
            World { sandbox: world.live, ..world },
            BundleEventView::Opened,
        ),
        BundleActionView::Process { index, skip_preflight, sigverify } => {
            let (sandbox, outcome) = (env.process)(
                world.sandbox,
                index,
                skip_preflight,
                sigverify,
            );
            (World { sandbox, ..world }, BundleEventView::Processed(outcome))
        },
        BundleActionView::AwaitStatus { index } => (
            world,
            BundleEventView::Settled((env.status)(world.sandbox, index)),
        ),
        BundleActionView::ReclaimSandbox => (world, BundleEventView::Reclaimed(env.reclaim)),
        BundleActionView::Commit => {
            let (live, outcome) = (env.commit)(world.live, world.sandbox);
            (World { live, ..world }, BundleEventView::Committed(outcome))
        },
        BundleActionView::Finish(_) => (world, BundleEventView::Opened),
    }
}

/// How many steps a bundle has left at most.
pub open spec fn steps_left(state: BundleView) -> nat {
    let count = state.transactions.len();
    match state.phase {
        BundlePhase::Decoding => (3 * count + 3 - state.decoded.len()) as nat,
        BundlePhase::Opening => 2 * count + 3,
        BundlePhase::Processing => (2 * (count - state.signatures.len()) + 2) as nat,
        BundlePhase::Awaiting => (2 * (count - state.signatures.len()) + 3) as nat,
        BundlePhase::Reclaiming => 2,
        BundlePhase::Committing => 1,
        BundlePhase::Finished => 0,
    }
}

/// Performs actions and feeds what came of them to the bundle until it finishes.
pub open spec fn drive<V>(
    state: BundleView,
    action: BundleActionView,
    world: World<V>,
    env: Environment<V>,
) -> Outcome<V>
    decreases steps_left(state),
{
    match action {
        BundleActionView::Finish(answer) => Outcome { live: world.live, answer },
        _ => {
            let (after, event) = perform(world, action, env);
            let (next, follow) = next_step(state, event);
            if steps_left(next) < steps_left(state) {
                drive(next, follow, after, env)
            } else {
                Outcome { live: after.live, answer: Err(RpcErrorView::InternalError) }
            }
        },
    }
}

/// What comes of a bundle that is taken in, from its first action to its answer.
pub open spec fn driven<V>(bundle: Bundle, world: World<V>, env: Environment<V>) -> Outcome<V> {
    let begun = admitted(bundle.transactions, bundle.encoding);
    drive(begun, decode_action(begun, 0), world, env)
}

/// Runs the transaction at a position: without a preflight check, with signature verification.
pub open spec fn run<V>(env: Environment<V>, sandbox: V, index: int) -> (V, Result<(), Seq<char>>) {
    (env.process)(sandbox, index, true, true)
}

/// Runs the transactions from `from` on, in order, each on what the one before left, and commits
/// if none fails. The first failure ends the bundle with the live machine as it was.
pub open spec fn executed<V>(
    bundle: Bundle,
    env: Environment<V>,
    live: V,
    sandbox: V,
    from: int,
) -> Outcome<V>
    decreases bundle.count() - from,
{
    if from >= bundle.count() {
        if !env.reclaim {
            Outcome { live, answer: Err(RpcErrorView::InternalError) }
        } else {
            let (committed, outcome) = (env.commit)(live, sandbox);
            match outcome {
                Err(e) => Outcome {
                    live: committed,
                    answer: Err(
                        RpcErrorView::InvalidParams(
                            "Jito bundle commit failed after successful sandbox execution: "@ + e,
                        ),
                    ),
                },
                Ok(_) => Outcome {
                    live: committed,
                    answer: Ok(bundle_id_text(bundle.first_signatures(env, bundle.count()))),
                },
            }
        }
    } else {
        let (after, outcome) = run(env, sandbox, from);
        match outcome {
            Err(e) => Outcome {
                live,
                answer: Err(
                    refusal(
                        from,
                        "Jito bundle couldn't be executed, failed to process transaction "@,
                        e,
                    ),
                ),
            },
            Ok(_) => match status_error(from, (env.status)(after, from)) {
                Some(error) => Outcome { live, answer: Err(error) },
                None => executed(bundle, env, live, after, from + 1),
            },
        }
    }
}

/// Decodes the transactions from `from` on, in order, then runs all of them on a copy of the live
/// machine. The first that cannot be decoded ends the bundle.
pub open spec fn decoded_and_executed<V>(
    bundle: Bundle,
    env: Environment<V>,
    live: V,
    from: int,
) -> Outcome<V>
    decreases bundle.count() - from,
{
    if from >= bundle.count() {
        executed(bundle, env, live, live, 0)
    } else {
        match bundle.decoded(env, from) {
            Err(report) => Outcome { live, answer: Err(decode_error(from, report)) },
            Ok(_) => decoded_and_executed(bundle, env, live, from + 1),
        }
    }
}

/// Whether the transactions from `from` on all succeed, each on what the one before left.
pub open spec fn all_succeed<V>(env: Environment<V>, sandbox: V, from: int, count: nat) -> bool
    decreases count - from,
{
    from >= count || {
        let (after, outcome) = run(env, sandbox, from);
        &&& outcome is Ok
        &&& status_error(from, (env.status)(after, from)) is None
        &&& all_succeed(env, after, from + 1, count)
    }
}

/// The sandbox after the transactions from `from` on.
pub open spec fn sandbox_after<V>(env: Environment<V>, sandbox: V, from: int, count: nat) -> V
    decreases count - from,
{
    if from >= count {
        sandbox
    } else {
        sandbox_after(env, run(env, sandbox, from).0, from + 1, count)
    }
}

/// Whether a state holds what decoding the first transactions of a bundle gave.
spec fn has_decoded<V>(state: BundleView, bundle: Bundle, env: Environment<V>) -> bool {
    &&& state.transactions == bundle.transactions
    &&& state.encoding == bundle.encoding
    &&& state.decoded.len() <= bundle.count()
    &&& forall|i: int|
        0 <= i < state.decoded.len() ==> (#[trigger] bundle.decoded(env, i)) == Ok::<
            Seq<Seq<u8>>,
            ReportView,
        >(state.decoded[i])
}

proof fn lemma_execution<V>(
    state: BundleView,
    bundle: Bundle,
    world: World<V>,
    env: Environment<V>,
    from: int,
)
    requires
        bundle.is_admissible(),
        0 <= from <= bundle.count(),
        has_decoded(state, bundle, env),
        state.decoded.len() == bundle.count(),
        state.signatures == bundle.first_signatures(env, from as nat),
        from < bundle.count() ==> state.phase == BundlePhase::Processing,
        from == bundle.count() ==> state.phase == BundlePhase::Reclaiming,
    ensures
        drive(
            state,
            if from < bundle.count() {
                process_action(from)
            } else {
                BundleActionView::ReclaimSandbox
            },
            world,
            env,
        ) == executed(bundle, env, world.live, world.sandbox, from),
    decreases bundle.count() - from,
{
    reveal_with_fuel(drive, 3);
    if from < bundle.count() {
        let (sandbox, outcome) = run(env, world.sandbox, from);
        let after = World { sandbox, ..world };
        let ran = next_step(state, BundleEventView::Processed(outcome)).0;
        assert(bundle.decoded(env, from) == Ok::<Seq<Seq<u8>>, ReportView>(state.decoded[from]));
        assert(state.signatures.push(state.decoded[from][0]) =~= bundle.first_signatures(
            env,
            (from + 1) as nat,
        ));
        if outcome is Ok && status_error(from, (env.status)(sandbox, from)) is None {
            let next = next_step(ran, BundleEventView::Settled((env.status)(sandbox, from))).0;
            lemma_execution(next, bundle, after, env, from + 1);
        }
    }
}

proof fn lemma_decoding<V>(
    state: BundleView,
    bundle: Bundle,
    world: World<V>,
    env: Environment<V>,
    from: int,
)
    requires
        bundle.is_admissible(),
        0 <= from < bundle.count(),
        has_decoded(state, bundle, env),
        state.decoded.len() == from,
        state.signatures.len() == 0,
        state.phase == BundlePhase::Decoding,
    ensures
        drive(state, decode_action(state, from), world, env) == decoded_and_executed(
            bundle,
            env,
            world.live,
            from,
        ),
    decreases bundle.count() - from,
{
    let event = BundleEventView::Decoded(bundle.decoded(env, from));
    reveal_with_fuel(decoded_and_executed, 2);
    reveal_with_fuel(drive, 3);
    if bundle.decoded(env, from) is Ok {
        let next = next_step(state, event).0;
        if from + 1 < bundle.count() {
            lemma_decoding(next, bundle, world, env, from + 1);
        } else {
            let opened = next_step(next, BundleEventView::Opened).0;
            let after = World { sandbox: world.live, ..world };
            assert(opened.signatures =~= bundle.first_signatures(env, 0));
            lemma_execution(opened, bundle, after, env, 0);
        }
    }
}

/// A bundle that is taken in is decoded in order, then run in order, each transaction on what the
/// one before left, on a copy of the live machine; it is committed only if nothing failed, and its
/// answer is the identifier made of the transactions' first signatures, or the first failure.
pub proof fn law_bundle_outcome<V>(bundle: Bundle, world: World<V>, env: Environment<V>)
    requires
        bundle.is_admissible(),
    ensures
        driven(bundle, world, env) == decoded_and_executed(bundle, env, world.live, 0),
{
    lemma_decoding(admitted(bundle.transactions, bundle.encoding), bundle, world, env, 0);
}

proof fn lemma_executed<V>(
    bundle: Bundle,
    env: Environment<V>,
    live: V,
    sandbox: V,
    from: int,
)
    requires
        0 <= from <= bundle.count(),
    ensures
        !all_succeed(env, sandbox, from, bundle.count()) ==> {
            &&& executed(bundle, env, live, sandbox, from).live == live
            &&& executed(bundle, env, live, sandbox, from).answer is Err
        },
        all_succeed(env, sandbox, from, bundle.count()) ==> executed(
            bundle,
            env,
            live,
            sandbox,
            from,
        ) == executed(
            bundle,
            env,
            live,
            sandbox_after(env, sandbox, from, bundle.count()),
            bundle.count() as int,
        ),
    decreases bundle.count() - from,
{
    if from < bundle.count() {
        lemma_executed(bundle, env, live, run(env, sandbox, from).0, from + 1);
    }
}

proof fn lemma_decoded<V>(bundle: Bundle, env: Environment<V>, live: V, from: int)
    requires
        0 <= from <= bundle.count(),
    ensures
        bundle.all_decode(env, from) ==> decoded_and_executed(bundle, env, live, from) == executed(
            bundle,
            env,
            live,
            live,
            0,
        ),
        !bundle.all_decode(env, from) ==> {
            &&& decoded_and_executed(bundle, env, live, from).live == live
            &&& decoded_and_executed(bundle, env, live, from).answer is Err
        },
    decreases bundle.count() - from,
{
    if from < bundle.count() {
        lemma_decoded(bundle, env, live, from + 1);
        if bundle.decoded(env, from) is Ok {
            assert(bundle.all_decode(env, from) <==> bundle.all_decode(env, from + 1));
        }
    }
}

/// All or nothing: if any transaction of the bundle cannot be decoded, cannot be processed or does
/// not succeed, or if the sandbox cannot be taken back, the live machine is left exactly as it was
/// and the answer is an error.
pub proof fn law_failed_bundle_leaves_no_trace<V>(
    bundle: Bundle,
    world: World<V>,
    env: Environment<V>,
)
    requires
        bundle.is_admissible(),
        !bundle.all_decode(env, 0) || !all_succeed(env, world.live, 0, bundle.count())
            || !env.reclaim,
    ensures
        driven(bundle, world, env).live == world.live,
        driven(bundle, world, env).answer is Err,
{
    law_bundle_outcome(bundle, world, env);
    lemma_decoded(bundle, env, world.live, 0);
    lemma_executed(bundle, env, world.live, world.live, 0);
}

/// If every transaction decodes and succeeds, the live machine becomes what committing the sandbox
/// makes of it, where the sandbox is the live machine after all transactions in order. The answer
/// is the bundle's identifier if and only if the commit succeeds.
pub proof fn law_successful_bundle_is_committed<V>(
    bundle: Bundle,
    world: World<V>,
    env: Environment<V>,
)
    requires
        bundle.is_admissible(),
        bundle.all_decode(env, 0),
        all_succeed(env, world.live, 0, bundle.count()),
        env.reclaim,
    ensures
        ({
            let (committed, commit) = (env.commit)(
                world.live,
                sandbox_after(env, world.live, 0, bundle.count()),
            );
            let outcome = driven(bundle, world, env);
            &&& outcome.live == committed
            &&& outcome.answer is Ok <==> commit is Ok
            &&& commit is Ok ==> outcome.answer == Ok::<Seq<char>, RpcErrorView>(
                bundle_id_text(bundle.first_signatures(env, bundle.count())),
            )
        }),
{
    law_bundle_outcome(bundle, world, env);
    lemma_decoded(bundle, env, world.live, 0);
    lemma_executed(bundle, env, world.live, world.live, 0);
}

/// Where the commit puts the sandbox in the place of the live machine, a bundle whose transactions
/// all succeed leaves the live machine as those transactions leave it, run in order, and is
/// answered with its identifier.
pub proof fn law_installed_bundle<V>(bundle: Bundle, world: World<V>, env: Environment<V>)
    requires
        bundle.is_admissible(),
        bundle.all_decode(env, 0),
        all_succeed(env, world.live, 0, bundle.count()),
        env.reclaim,
        (env.commit)(world.live, sandbox_after(env, world.live, 0, bundle.count())) == (
            sandbox_after(env, world.live, 0, bundle.count()),
            Ok::<(), Seq<char>>(()),
        ),
    ensures
        driven(bundle, world, env).live == sandbox_after(env, world.live, 0, bundle.count()),
        driven(bundle, world, env).answer == Ok::<Seq<char>, RpcErrorView>(
            bundle_id_text(bundle.first_signatures(env, bundle.count())),
        ),
{
    law_successful_bundle_is_committed(bundle, world, env);
}

/// The machine after the transactions from `from` on were submitted one by one, in order.
pub open spec fn submitted<V>(submit: spec_fn(V, int) -> V, machine: V, from: int, count: nat) -> V
    decreases count - from,
{
    if from >= count {
        machine
    } else {
        submitted(submit, submit(machine, from), from + 1, count)
    }
}

/// Whether submitting each transaction from `from` on does to a machine what running it does to a
/// sandbox in the same state, along the course of the bundle.
pub open spec fn submits_as_run<V>(
    env: Environment<V>,
    submit: spec_fn(V, int) -> V,
    machine: V,
    from: int,
    count: nat,
) -> bool
    decreases count - from,
{
    from >= count || {
        &&& submit(machine, from) == run(env, machine, from).0
        &&& submits_as_run(env, submit, run(env, machine, from).0, from + 1, count)
    }
}

proof fn lemma_submitted<V>(
    env: Environment<V>,
    submit: spec_fn(V, int) -> V,
    machine: V,
    from: int,
    count: nat,
)
    requires
        submits_as_run(env, submit, machine, from, count),
    ensures
        submitted(submit, machine, from, count) == sandbox_after(env, machine, from, count),
    decreases count - from,
{
    if from < count {
        lemma_submitted(env, submit, run(env, machine, from).0, from + 1, count);
    }
}

/// A bundle whose transactions all succeed leaves the live machine, and the events that it has sent
/// out, exactly as if each transaction had been submitted on its own, one by one and in order. This
/// holds where submitting a transaction does to a machine what running it does to a sandbox in the
/// same state, and where the commit puts the sandbox in the place of the live machine.
pub proof fn law_bundle_equals_submission<V>(
    bundle: Bundle,
    world: World<V>,
    env: Environment<V>,
    submit: spec_fn(V, int) -> V,
)
    requires
        bundle.is_admissible(),
        bundle.all_decode(env, 0),
        all_succeed(env, world.live, 0, bundle.count()),
        env.reclaim,
        submits_as_run(env, submit, world.live, 0, bundle.count()),
        (env.commit)(world.live, sandbox_after(env, world.live, 0, bundle.count())) == (
            sandbox_after(env, world.live, 0, bundle.count()),
            Ok::<(), Seq<char>>(()),
        ),
    ensures
        driven(bundle, world, env).live == submitted(submit, world.live, 0, bundle.count()),
        driven(bundle, world, env).answer is Ok,
{
    law_installed_bundle(bundle, world, env);
    lemma_submitted(env, submit, world.live, 0, bundle.count());
}

/// A bundle is taken in only with one to five transactions, by a node that can serve requests, in
/// an encoding for bytes.
pub proof fn law_admission(healthy: bool, count: nat, encoding: TransactionEncoding)
    ensures
        admission_error(healthy, count, encoding) is None <==> 1 <= count <= 5 && healthy
            && encoding.as_binary() is Some,
{
}

/// Whether an action is the one that a bundle waits for.
pub open spec fn in_step(state: BundleView, action: BundleActionView) -> bool {
    match state.phase {
        BundlePhase::Decoding => action == decode_action(state, state.decoded.len() as int),
        BundlePhase::Opening => action is OpenSandbox,
        BundlePhase::Processing => action == process_action(state.signatures.len() as int),
        BundlePhase::Awaiting => action == (BundleActionView::AwaitStatus {
            index: state.signatures.len() - 1,
        }),
        BundlePhase::Reclaiming => action is ReclaimSandbox,
        BundlePhase::Committing => action is Commit,
        BundlePhase::Finished => action is Finish,
    }
}

/// A bundle always waits for the action that it asked for, and each step brings it closer to its
/// end: what comes of the action is an acceptable event, provided that a transaction which is run
/// carries a signature.
pub proof fn law_bundle_stays_in_step(state: BundleView, event: BundleEventView)
    requires
        consistent(state),
        answers(state, event),
    ensures
        in_step(next_step(state, event).0, next_step(state, event).1),
        steps_left(next_step(state, event).0) < steps_left(state),
{
}

/// Performing the action that a bundle waits for gives an event that it accepts, where a
/// transaction that is run carries a signature.
pub proof fn law_action_is_answered<V>(
    state: BundleView,
    action: BundleActionView,
    world: World<V>,
    env: Environment<V>,
)
    requires
        consistent(state),
        in_step(state, action),
        state.phase != BundlePhase::Finished,
        state.phase == BundlePhase::Processing ==> state.decoded[state.signatures.len() as int].len()
            > 0,
    ensures
        answers(state, perform(world, action, env).1),
{
}

} // verus!
