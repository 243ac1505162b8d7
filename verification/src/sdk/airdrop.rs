//! Waiting until the airdrops of a starting network are visible.
//!
//! The balances of all addresses are asked for, round after round, until one round shows the
//! expected balance for each of them or the deadline has passed.

use vstd::prelude::*;
use vstd::string::*;

use crate::keys::{encode_pubkey, keys_bytes, pubkey_text, Pubkey};
use crate::sdk::error::{outcome, SurfnetError, SurfnetErrorView};
use crate::text::{cat3, decimal, decimal_text, join, joined, option_text, texts};

verus! {

/// How long to wait, in milliseconds.
pub const AIRDROP_TIMEOUT_MS: u64 = 5000;

/// How long to pause between two rounds, in milliseconds.
pub const AIRDROP_PAUSE_MS: u64 = 25;

/// A balance that was seen.
#[derive(Debug)]
pub struct SeenBalance {
    /// The address in base58.
    pub address: String,
    pub lamports: u64,
}

/// What the wait is at.
#[derive(Clone, Copy, Debug, PartialEq, Eq, Structural)]
pub enum AirdropPhase {
    /// The deadline is being checked.
    Checking,
    /// A balance was asked for.
    Querying,
    /// The pause between two rounds.
    Pausing,
    Finished,
}

/// How far the wait has come.
#[derive(Debug)]
pub struct AirdropWait {
    addresses: Vec<Pubkey>,
    expected: u64,
    /// Whether every balance of this round was the expected one.
    all_match: bool,
    /// The balances of this round.
    last_balances: Vec<SeenBalance>,
    /// The last failure of any round.
    last_error: Option<String>,
    phase: AirdropPhase,
}

/// What came of an action.
#[derive(Debug)]
pub enum AirdropEvent {
    /// Whether the deadline still lies ahead.
    Checked(bool),
    /// The balance, or why it could not be read.
    Balance(Result<u64, String>),
    /// The pause is over.
    Paused,
}

/// What to do next.
#[derive(Debug)]
pub enum AirdropAction {
    /// Tell whether the deadline still lies ahead.
    CheckDeadline,
    /// Ask for the balance of an address.
    QueryBalance(Pubkey),
    /// Pause for [`AIRDROP_PAUSE_MS`].
    Pause,
    Finish(Result<(), SurfnetError>),
}

/// A balance that was seen.
pub struct SeenView {
    pub address: Seq<char>,
    pub lamports: u64,
}

impl View for SeenBalance {
    type V = SeenView;

    open spec fn view(&self) -> SeenView {
        SeenView { address: self.address@, lamports: self.lamports }
    }
}

/// The balances that were seen.
pub open spec fn seen(balances: Seq<SeenBalance>) -> Seq<SeenView> {
    Seq::new(balances.len(), |i: int| balances[i]@)
}

/// How far the wait has come.
pub struct AirdropView {
    pub addresses: Seq<Seq<u8>>,
    pub expected: u64,
    pub all_match: bool,
    pub last_balances: Seq<SeenView>,
    pub last_error: Option<Seq<char>>,
    pub phase: AirdropPhase,
}

impl View for AirdropWait {
    type V = AirdropView;

    closed spec fn view(&self) -> AirdropView {
        AirdropView {
            addresses: keys_bytes(self.addresses@),
            expected: self.expected,
            all_match: self.all_match,
            last_balances: seen(self.last_balances@),
            last_error: option_text(self.last_error),
            phase: self.phase,
        }
    }
}

/// What came of an action.
pub enum AirdropEventView {
    Checked(bool),
    Balance(Result<u64, Seq<char>>),
    Paused,
}

impl View for AirdropEvent {
    type V = AirdropEventView;

    open spec fn view(&self) -> AirdropEventView {
        match *self {
            AirdropEvent::Checked(ahead) => AirdropEventView::Checked(ahead),
            AirdropEvent::Balance(Ok(lamports)) => AirdropEventView::Balance(Ok(lamports)),
            AirdropEvent::Balance(Err(e)) => AirdropEventView::Balance(Err(e@)),
            AirdropEvent::Paused => AirdropEventView::Paused,
        }
    }
}

/// What to do next.
pub enum AirdropActionView {
    CheckDeadline,
    QueryBalance(Seq<u8>),
    Pause,
    Finish(Result<(), SurfnetErrorView>),
}

impl View for AirdropAction {
    type V = AirdropActionView;

    open spec fn view(&self) -> AirdropActionView {
        match *self {
            AirdropAction::CheckDeadline => AirdropActionView::CheckDeadline,
            AirdropAction::QueryBalance(address) => AirdropActionView::QueryBalance(address@),
            AirdropAction::Pause => AirdropActionView::Pause,
            AirdropAction::Finish(result) => AirdropActionView::Finish(outcome(result)),
        }
    }
}

/// Whether the parts of the state fit together: while balances are asked for, the round's balances
/// belong to the first addresses, and the round is good so far if all of them are as expected.
pub open spec fn consistent(state: AirdropView) -> bool {
    state.phase == AirdropPhase::Querying ==> {
        &&& state.last_balances.len() < state.addresses.len()
        &&& forall|i: int|
            0 <= i < state.last_balances.len() ==> (#[trigger] state.last_balances[i]).address
                == pubkey_text(state.addresses[i])
        &&& state.all_match <==> forall|i: int|
            0 <= i < state.last_balances.len() ==> (#[trigger] state.last_balances[i]).lamports
                == state.expected
    }
}

/// Whether an event is an answer to the action that the wait is at.
pub open spec fn answers(state: AirdropView, event: AirdropEventView) -> bool {
    match state.phase {
        AirdropPhase::Checking => event is Checked,
        AirdropPhase::Querying => event is Balance,
        AirdropPhase::Pausing => event is Paused,
        AirdropPhase::Finished => false,
    }
}

/// The balances in text.
pub open spec fn balance_summary(balances: Seq<SeenView>) -> Seq<char> {
    if balances.len() == 0 {
        "no balances observed"@
    } else {
        joined(
            Seq::new(
                balances.len(),
                |i: int|
                    balances[i].address + "="@ + decimal_text(balances[i].lamports as nat),
            ),
            ", "@,
        )
    }
}

/// The description of a wait that took too long.
pub open spec fn timeout_message(state: AirdropView) -> Seq<char> {
    "startup balances not visible over RPC within timeout (expected "@ + decimal_text(
        state.expected as nat,
    ) + "); last balances: "@ + balance_summary(state.last_balances) + "; last error: "@ + (
    match state.last_error {
        Some(e) => e,
        None => "none"@,
    })
}

/// The next state and the next action, for what came of the last action.
pub open spec fn next_step(state: AirdropView, event: AirdropEventView) -> (
    AirdropView,
    AirdropActionView,
) {
    match event {
        AirdropEventView::Checked(true) => {
            let fresh = AirdropView { last_balances: Seq::empty(), all_match: true, ..state };
            if state.addresses.len() == 0 {
                (
                    AirdropView { phase: AirdropPhase::Finished, ..fresh },
                    AirdropActionView::Finish(Ok(())),
                )
            } else {
                (
                    AirdropView { phase: AirdropPhase::Querying, ..fresh },
                    AirdropActionView::QueryBalance(state.addresses[0]),
                )
            }
        },
        AirdropEventView::Checked(false) => (
            AirdropView { phase: AirdropPhase::Finished, ..state },
            AirdropActionView::Finish(Err(SurfnetErrorView::Startup(timeout_message(state)))),
        ),
        AirdropEventView::Balance(Err(e)) => (
            AirdropView {
                last_error: Some(e),
                all_match: false,
                phase: AirdropPhase::Pausing,
                ..state
            },
            AirdropActionView::Pause,
        ),
        AirdropEventView::Balance(Ok(lamports)) => {
            let index = state.last_balances.len() as int;
            let address = pubkey_text(state.addresses[index]);
            let updated = AirdropView {
                last_balances: state.last_balances.push(SeenView { address, lamports }),
                all_match: state.all_match && lamports == state.expected,
                ..state
            };
            if index + 1 < state.addresses.len() {
                (updated, AirdropActionView::QueryBalance(state.addresses[index + 1]))
            } else if updated.all_match {
                (
                    AirdropView { phase: AirdropPhase::Finished, ..updated },
                    AirdropActionView::Finish(Ok(())),
                )
            } else {
                (AirdropView { phase: AirdropPhase::Pausing, ..updated }, AirdropActionView::Pause)
            }
        },
        AirdropEventView::Paused => (
            AirdropView { phase: AirdropPhase::Checking, ..state },
            AirdropActionView::CheckDeadline,
        ),
    }
}

fn summarize(balances: &Vec<SeenBalance>) -> (r: String)
    ensures
        r@ == balance_summary(seen(balances@)),
{
    if balances.len() == 0 {
        return "no balances observed".to_owned();
    }
    let mut parts: Vec<String> = Vec::new();
    for i in 0..balances.len()
        invariant
            parts@.len() == i,
            forall|j: int|
                0 <= j < i ==> #[trigger] parts@[j]@ == balances@[j].address@ + "="@ + decimal_text(
                    balances@[j].lamports as nat,
                ),
    {
        let lamports: String = decimal(balances[i].lamports);
        parts.push(cat3(balances[i].address.as_str(), "=", lamports.as_str()));
    }
    assert(texts(parts@) =~= Seq::new(
        seen(balances@).len(),
        |i: int|
            seen(balances@)[i].address + "="@ + decimal_text(
                seen(balances@)[i].lamports as nat,
            ),
    ));
    join(&parts, ", ")
}

impl AirdropWait {
    /// Starts waiting until each address shows the expected balance.
    pub fn begin(addresses: Vec<Pubkey>, expected: u64) -> (r: (AirdropWait, AirdropAction))
        ensures
            consistent(r.0@),
            r.0@ == (AirdropView {
                addresses: keys_bytes(addresses@),
                expected,
                all_match: false,
                last_balances: Seq::empty(),
                last_error: None,
                phase: AirdropPhase::Checking,
            }),
            r.1@ == AirdropActionView::CheckDeadline,
    {
        let wait = AirdropWait {
            addresses,
            expected,
            all_match: false,
            last_balances: Vec::new(),
            last_error: None,
            phase: AirdropPhase::Checking,
        };
        assert(wait@.last_balances =~= Seq::empty());
        (wait, AirdropAction::CheckDeadline)
    }

    fn describe_timeout(&self) -> (r: String)
        ensures
            r@ == timeout_message(self@),
    {
        let expected: String = decimal(self.expected);
        let summary: String = summarize(&self.last_balances);
        let mut message: String =
            "startup balances not visible over RPC within timeout (expected ".to_owned();
        message.append(expected.as_str());
        message.append("); last balances: ");
        message.append(summary.as_str());
        message.append("; last error: ");
        match &self.last_error {
            Some(e) => {
                message.append(e.as_str());
            },
            None => {
                message.append("none");
            },
        }
        message
    }

    fn on_balance(self, lamports: u64) -> (r: (AirdropWait, AirdropAction))
        requires
            consistent(self@),
            self@.phase == AirdropPhase::Querying,
        ensures
            consistent(r.0@),
            (r.0@, r.1@) == next_step(self@, AirdropEventView::Balance(Ok(lamports))),
    {
        let index: usize = self.last_balances.len();
        let count: usize = self.addresses.len();
        assert(index == self@.last_balances.len() && index < count);
        let mut wait = self;
        let address: String = encode_pubkey(&wait.addresses[index]);
        if lamports != wait.expected {
            wait.all_match = false;
        }
        wait.last_balances.push(SeenBalance { address, lamports });
        proof {
            let before = self@.last_balances;
            let last = SeenView { address: address@, lamports };
            assert(wait@.last_balances =~= before.push(last));
            assert(forall|i: int|
                0 <= i < before.len() ==> #[trigger] wait@.last_balances[i] == before[i]);
            assert(wait@.last_balances[before.len() as int] == last);
            if !self@.all_match {
                let i = choose|i: int|
                    0 <= i < before.len() && (#[trigger] before[i]).lamports != self@.expected;
                assert(wait@.last_balances[i].lamports != self@.expected);
            }
        }
        if index + 1 < count {
            let next: Pubkey = wait.addresses[index + 1];
            (wait, AirdropAction::QueryBalance(next))
        } else if wait.all_match {
            wait.phase = AirdropPhase::Finished;
            (wait, AirdropAction::Finish(Ok(())))
        } else {
            wait.phase = AirdropPhase::Pausing;
            (wait, AirdropAction::Pause)
        }
    }

    /// Takes what came of the last action and says what to do next.
    pub fn step(self, event: AirdropEvent) -> (r: (AirdropWait, AirdropAction))
        requires
            consistent(self@),
            answers(self@, event@),
        ensures
            consistent(r.0@),
            (r.0@, r.1@) == next_step(self@, event@),
    {
        match event {
            AirdropEvent::Checked(ahead) => {
                let mut wait = self;
                if ahead {
                    wait.last_balances = Vec::new();
                    wait.all_match = true;
                    assert(wait@.last_balances =~= Seq::empty());
                    if wait.addresses.len() == 0 {
                        wait.phase = AirdropPhase::Finished;
                        (wait, AirdropAction::Finish(Ok(())))
                    } else {
                        wait.phase = AirdropPhase::Querying;
                        let first: Pubkey = wait.addresses[0];
                        (wait, AirdropAction::QueryBalance(first))
                    }
                } else {
                    let message: String = wait.describe_timeout();
                    wait.phase = AirdropPhase::Finished;
                    (wait, AirdropAction::Finish(Err(SurfnetError::Startup(message))))
                }
            },
            AirdropEvent::Balance(Ok(lamports)) => self.on_balance(lamports),
            AirdropEvent::Balance(Err(e)) => {
                let mut wait = self;
                wait.last_error = Some(e);
                wait.all_match = false;
                wait.phase = AirdropPhase::Pausing;
                (wait, AirdropAction::Pause)
            },
            AirdropEvent::Paused => {
                let mut wait = self;
                wait.phase = AirdropPhase::Checking;
                (wait, AirdropAction::CheckDeadline)
            },
        }
    }
}

/// Every step keeps the parts of the state fitting together, and never changes what is waited for.
pub proof fn law_consistency_is_kept(state: AirdropView, event: AirdropEventView)
    requires
        consistent(state),
        answers(state, event),
    ensures
        consistent(next_step(state, event).0),
        next_step(state, event).0.addresses == state.addresses,
        next_step(state, event).0.expected == state.expected,
{
    let after = next_step(state, event).0;
    if let AirdropEventView::Balance(Ok(lamports)) = event {
        let before = state.last_balances;
        assert(forall|i: int| 0 <= i < before.len() ==> #[trigger] after.last_balances[i] == before[i]);
        assert(after.last_balances[before.len() as int].lamports == lamports);
        if !state.all_match {
            let i = choose|i: int|
                0 <= i < before.len() && (#[trigger] before[i]).lamports != state.expected;
            assert(after.last_balances[i].lamports != state.expected);
        }
    }
}

/// The wait ends well only at the end of a round in which every address, in order, showed the
/// expected balance.
pub proof fn law_success_means_funded(state: AirdropView, event: AirdropEventView)
    requires
        consistent(state),
        answers(state, event),
        next_step(state, event).1 == AirdropActionView::Finish(Ok(())),
    ensures
        ({
            let after = next_step(state, event).0;
            &&& after.addresses == state.addresses
            &&& after.last_balances.len() == state.addresses.len()
            &&& forall|i: int|
                0 <= i < state.addresses.len() ==> (#[trigger] after.last_balances[i]) == (
                SeenView { address: pubkey_text(state.addresses[i]), lamports: state.expected })
        }),
{
    if event is Balance {
        let after = next_step(state, event).0;
        assert forall|i: int| 0 <= i < state.addresses.len() implies (
        #[trigger] after.last_balances[i]) == (SeenView {
            address: pubkey_text(state.addresses[i]),
            lamports: state.expected,
        }) by {
            if i < state.last_balances.len() {
                assert(after.last_balances[i] == state.last_balances[i]);
            }
        }
    }
}

/// Whether an action is the one that the wait is at: the deadline is checked, the balance of the
/// next address is asked for, or a pause is made.
pub open spec fn in_step(state: AirdropView, action: AirdropActionView) -> bool {
    match state.phase {
        AirdropPhase::Checking => action is CheckDeadline,
        AirdropPhase::Querying => action == AirdropActionView::QueryBalance(
            state.addresses[state.last_balances.len() as int],
        ),
        AirdropPhase::Pausing => action is Pause,
        AirdropPhase::Finished => action is Finish,
    }
}

/// The wait is always at the action that it asked for: what comes of that action is an acceptable
/// event.
pub proof fn law_wait_stays_in_step(state: AirdropView, event: AirdropEventView)
    requires
        consistent(state),
        answers(state, event),
    ensures
        in_step(next_step(state, event).0, next_step(state, event).1),
{
}

} // verus!
