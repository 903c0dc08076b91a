//! Decisions of the claim orchestrator. The caller performs each external
//! call and reports what came of it; this module decides which wallets are
//! checked and claimed, keeps the pass's tally, and updates the ledger.

use vstd::prelude::*;
use crate::ledger::{
    connected_count, connected_of, connected_wallets, credit_first, is_first_match,
    update_wallet_balance, LedgerError,
};
use crate::wallet::Wallet;

verus! {

/// Seconds between two rounds of the monitoring loop.
pub const CHECK_INTERVAL_SECS: u64 = 300;

/// Milliseconds between two status checks in a round.
pub const STATUS_CHECK_DELAY_MS: u64 = 500;

/// Milliseconds between two wallets of a registration or one-shot claim pass.
pub const REQUEST_DELAY_MS: u64 = 1000;

/// Milliseconds between two claims of a monitoring round.
pub const ROUND_CLAIM_DELAY_MS: u64 = 2000;

/// What one round of the monitoring loop does.
#[derive(Debug)]
pub enum MonitorStep {
    /// No wallet is connected: the loop ends.
    Stop,
    /// Check the accrual status of these connected wallets.
    Check(Vec<Wallet>),
}

/// How one wallet's claim attempt ended.
#[derive(Clone, Copy, Debug, PartialEq, Eq, Structural)]
pub enum ClaimOutcome {
    /// The CAPTCHA could not be solved.
    CaptchaFailed,
    /// The remote service refused the claim.
    ClaimFailed,
    /// The claim succeeded with this amount, in lamports.
    Claimed(u64),
}

/// Counts of a claim pass.
#[derive(Clone, Copy, Debug, PartialEq, Eq, Structural)]
pub struct ClaimTally {
    pub successful: u64,
    /// Attempts that failed, for any reason.
    pub failed: u64,
    /// The failures that came from the CAPTCHA step.
    pub captcha_errors: u64,
    /// Sum of claimed amounts, in lamports.
    pub total_claimed: u128,
}

/// Counts of a registration pass.
#[derive(Clone, Copy, Debug, PartialEq, Eq, Structural)]
pub struct ConnectTally {
    pub connected: u64,
    pub failed: u64,
}

impl ConnectTally {
    /// An empty tally.
    pub fn new() -> (r: ConnectTally)
        ensures
            r.connected == 0 && r.failed == 0,
    {
        ConnectTally { connected: 0, failed: 0 }
    }

    /// Counts one registration attempt, which succeeded or failed.
    pub fn record(&mut self, succeeded: bool)
        requires
            old(self).connected + old(self).failed < u64::MAX,
        ensures
            succeeded ==> final(self).connected == old(self).connected + 1 && final(self).failed
                == old(self).failed,
            !succeeded ==> final(self).failed == old(self).failed + 1 && final(self).connected
                == old(self).connected,
    {
        if succeeded {
            self.connected = self.connected + 1;
        } else {
            self.failed = self.failed + 1;
        }
    }
}

/// The wallets whose status check said "full", in order; a wallet whose
/// check failed (`None`) is skipped this round.
pub open spec fn ready_of(ws: Seq<Wallet>, full: Seq<Option<bool>>) -> Seq<Wallet>
    decreases ws.len(),
{
    if ws.len() == 0 || full.len() == 0 {
        Seq::empty()
    } else if full.last() == Some(true) {
        ready_of(ws.drop_last(), full.drop_last()).push(ws.last())
    } else {
        ready_of(ws.drop_last(), full.drop_last())
    }
}

/// The ledger after one attempt: a successful claim credits the first
/// record with its address; a failed one changes nothing.
pub open spec fn after_outcome(
    ws: Seq<Wallet>,
    address: Seq<char>,
    outcome: ClaimOutcome,
    claimed_at: String,
) -> Seq<Wallet> {
    match outcome {
        ClaimOutcome::Claimed(a) => credit_first(ws, address, a, claimed_at),
        _ => ws,
    }
}

/// The ledger after a pass whose attempts, in order, are `batch`
/// (address and outcome), each recorded at `claimed_at`.
pub open spec fn after_pass(
    ws: Seq<Wallet>,
    batch: Seq<(Seq<char>, ClaimOutcome)>,
    claimed_at: String,
) -> Seq<Wallet>
    decreases batch.len(),
{
    if batch.len() == 0 {
        ws
    } else {
        after_outcome(
            after_pass(ws, batch.drop_last(), claimed_at),
            batch.last().0,
            batch.last().1,
            claimed_at,
        )
    }
}

/// The sum of the amounts that the pass claimed for `address`.
pub open spec fn claimed_for(batch: Seq<(Seq<char>, ClaimOutcome)>, address: Seq<char>) -> nat
    decreases batch.len(),
{
    if batch.len() == 0 {
        0
    } else {
        claimed_for(batch.drop_last(), address) + match batch.last().1 {
            ClaimOutcome::Claimed(a) => if batch.last().0 == address {
                a as nat
            } else {
                0nat
            },
            _ => 0nat,
        }
    }
}

/// Number of successful claims among the outcomes.
pub open spec fn claimed_count(outcomes: Seq<ClaimOutcome>) -> nat
    decreases outcomes.len(),
{
    if outcomes.len() == 0 {
        0
    } else {
        claimed_count(outcomes.drop_last()) + if outcomes.last() is Claimed {
            1nat
        } else {
            0nat
        }
    }
}

impl ClaimTally {
    pub open spec fn zero() -> ClaimTally {
        ClaimTally { successful: 0, failed: 0, captcha_errors: 0, total_claimed: 0 }
    }

    /// The sum stays within what the successes can add up to, and CAPTCHA
    /// failures are among the failures.
    pub open spec fn wf(self) -> bool {
        &&& self.total_claimed <= self.successful * (u64::MAX as nat)
        &&& self.captcha_errors <= self.failed
    }

    /// The tally after one more outcome.
    pub open spec fn step(self, outcome: ClaimOutcome) -> ClaimTally {
        match outcome {
            ClaimOutcome::CaptchaFailed => ClaimTally {
                failed: (self.failed + 1) as u64,
                captcha_errors: (self.captcha_errors + 1) as u64,
                ..self
            },
            ClaimOutcome::ClaimFailed => ClaimTally { failed: (self.failed + 1) as u64, ..self },
            ClaimOutcome::Claimed(a) => ClaimTally {
                successful: (self.successful + 1) as u64,
                total_claimed: (self.total_claimed + a) as u128,
                ..self
            },
        }
    }

    /// The tally of a pass with these outcomes, in order.
    pub open spec fn of(outcomes: Seq<ClaimOutcome>) -> ClaimTally
        decreases outcomes.len(),
    {
        if outcomes.len() == 0 {
            ClaimTally::zero()
        } else {
            ClaimTally::of(outcomes.drop_last()).step(outcomes.last())
        }
    }

    /// An empty tally.
    pub fn new() -> (r: ClaimTally)
        ensures
            r == ClaimTally::zero(),
            r.wf(),
    {
        ClaimTally { successful: 0, failed: 0, captcha_errors: 0, total_claimed: 0 }
    }

    /// Counts one outcome.
    pub fn record(&mut self, outcome: ClaimOutcome)
        requires
            old(self).wf(),
            old(self).successful + old(self).failed < u64::MAX,
        ensures
            *final(self) == old(self).step(outcome),
            final(self).wf(),
    {
        match outcome {
            ClaimOutcome::CaptchaFailed => {
                self.failed = self.failed + 1;
                self.captcha_errors = self.captcha_errors + 1;
            },
            ClaimOutcome::ClaimFailed => {
                self.failed = self.failed + 1;
            },
            ClaimOutcome::Claimed(a) => {
                proof {
                    let s = self.successful as nat;
                    assert((s + 1) * (u64::MAX as nat) == s * (u64::MAX as nat) + u64::MAX)
                        by (nonlinear_arith);
                    assert((s + 1) * (u64::MAX as nat) <= u128::MAX) by (nonlinear_arith)
                        requires
                            s < u64::MAX,
                    ;
                }
                self.successful = self.successful + 1;
                self.total_claimed = self.total_claimed + a as u128;
            },
        }
    }
}

/// One round of the monitoring loop: stop when no wallet is connected,
/// else check the connected ones.
pub fn plan_round(wallets: &Vec<Wallet>) -> (r: MonitorStep)
    ensures
        r is Stop <==> connected_count(wallets@) == 0,
        r matches MonitorStep::Check(c) ==> c@ == connected_of(wallets@),
{
    let connected = connected_wallets(wallets);
    if connected.len() == 0 {
        MonitorStep::Stop
    } else {
        MonitorStep::Check(connected)
    }
}

/// Whether to pause after the status check of wallet `index` of `count`:
/// between checks, not after the last.
pub fn pause_after_check(index: usize, count: usize) -> (r: bool)
    ensures
        r == (index + 1 < count),
{
    index < count && index + 1 < count
}

/// The checked wallets whose accrual is full, in order. `full[i]` is what
/// the status check of `wallets[i]` said, or `None` where it failed.
pub fn select_ready(wallets: &Vec<Wallet>, full: &Vec<Option<bool>>) -> (r: Vec<Wallet>)
    requires
        wallets@.len() == full@.len(),
    ensures
        r@ == ready_of(wallets@, full@),
{
    let mut r: Vec<Wallet> = Vec::new();
    let mut i: usize = 0;
    while i < wallets.len()
        invariant
            i <= wallets@.len(),
            wallets@.len() == full@.len(),
            r@ == ready_of(wallets@.take(i as int), full@.take(i as int)),
        decreases wallets@.len() - i,
    {
        assert(wallets@.take(i + 1).drop_last() =~= wallets@.take(i as int));
        assert(full@.take(i + 1).drop_last() =~= full@.take(i as int));
        if full[i] == Some(true) {
            r.push(wallets[i].duplicate());
        }
        i = i + 1;
    }
    assert(wallets@.take(wallets@.len() as int) =~= wallets@);
    assert(full@.take(full@.len() as int) =~= full@);
    r
}

/// Takes in one wallet's claim attempt: counts it and, on success, credits
/// the claimed amount to that wallet's ledger balance at `claimed_at`. A
/// failed attempt leaves the ledger as it is; the pass goes on either way.
pub fn record_claim(
    tally: &mut ClaimTally,
    wallets: &mut Vec<Wallet>,
    address: &str,
    outcome: ClaimOutcome,
    claimed_at: String,
) -> (r: Result<(), LedgerError>)
    requires
        old(tally).wf(),
        old(tally).successful + old(tally).failed < u64::MAX,
    ensures
        *final(tally) == old(tally).step(outcome),
        final(tally).wf(),
        final(wallets)@.len() == old(wallets)@.len(),
        !(outcome is Claimed) ==> r is Ok && final(wallets)@ == old(wallets)@,
        r is Err ==> final(wallets)@ == old(wallets)@,
        r is Err <==> outcome is Claimed && exists|i: int|
            is_first_match(old(wallets)@, address@, i) && old(wallets)@[i].balance
                + outcome->Claimed_0 > u64::MAX,
        r is Ok ==> final(wallets)@ == after_outcome(old(wallets)@, address@, outcome, claimed_at),
{
    tally.record(outcome);
    match outcome {
        ClaimOutcome::Claimed(amount) => update_wallet_balance(wallets, address, amount, claimed_at),
        _ => Ok(()),
    }
}

/// One wallet's failure never stops a pass: every attempt is counted once,
/// as a success or as a failure, and the successes are exactly the
/// attempts that claimed (for passes whose counts fit in 64 bits).
pub proof fn lemma_failure_isolation(outcomes: Seq<ClaimOutcome>)
    requires
        outcomes.len() < u64::MAX,
    ensures
        ClaimTally::of(outcomes).successful + ClaimTally::of(outcomes).failed == outcomes.len(),
        ClaimTally::of(outcomes).successful == claimed_count(outcomes),
        ClaimTally::of(outcomes).failed == outcomes.len() - claimed_count(outcomes),
    decreases outcomes.len(),
{
    if outcomes.len() > 0 {
        lemma_failure_isolation(outcomes.drop_last());
        assert(ClaimTally::of(outcomes.drop_last()).successful + ClaimTally::of(
            outcomes.drop_last(),
        ).failed == outcomes.len() - 1);
    }
}

/// Failures of other wallets do not touch a wallet's balance: after a
/// pass, each wallet's balance has grown by exactly the sum of its own
/// successful claims, and addresses and statuses are unchanged. (Where an
/// address repeats in the ledger, the first record carries it.)
pub proof fn lemma_pass_credits_each_wallet(
    ws: Seq<Wallet>,
    batch: Seq<(Seq<char>, ClaimOutcome)>,
    claimed_at: String,
)
    requires
        forall|i: int|
            0 <= i < ws.len() ==> ws[i].balance + #[trigger] claimed_for(batch, ws[i].address@)
                <= u64::MAX,
    ensures
        after_pass(ws, batch, claimed_at).len() == ws.len(),
        forall|i: int|
            0 <= i < ws.len() ==> #[trigger] after_pass(ws, batch, claimed_at)[i].address
                == ws[i].address && after_pass(ws, batch, claimed_at)[i].status == ws[i].status,
        forall|i: int|
            0 <= i < ws.len() && is_first_match(ws, ws[i].address@, i) ==> #[trigger] after_pass(
                ws,
                batch,
                claimed_at,
            )[i].balance == ws[i].balance + claimed_for(batch, ws[i].address@),
        forall|i: int|
            0 <= i < ws.len() && !is_first_match(ws, ws[i].address@, i) ==> #[trigger] after_pass(
                ws,
                batch,
                claimed_at,
            )[i].balance == ws[i].balance,
    decreases batch.len(),
{
    if batch.len() > 0 {
        let rest = batch.drop_last();
        assert forall|i: int| 0 <= i < ws.len() implies ws[i].balance + #[trigger] claimed_for(
            rest,
            ws[i].address@,
        ) <= u64::MAX by {
            assert(claimed_for(rest, ws[i].address@) <= claimed_for(batch, ws[i].address@));
        }
        lemma_pass_credits_each_wallet(ws, rest, claimed_at);
        let prev = after_pass(ws, rest, claimed_at);
        let (address, outcome) = batch.last();
        assert forall|i: int| 0 <= i < ws.len() implies #[trigger] is_first_match(prev, address, i)
            == is_first_match(ws, address, i) by {
            assert forall|j: int| 0 <= j < i implies prev[j].address@ == ws[j].address@ by {
                assert(prev[j].address == ws[j].address);
            }
            assert(prev[i].address == ws[i].address);
        }
        let next = after_pass(ws, batch, claimed_at);
        assert forall|i: int| 0 <= i < ws.len() implies #[trigger] next[i].address == ws[i].address
            && next[i].status == ws[i].status by {
            assert(prev[i].address == ws[i].address && prev[i].status == ws[i].status);
        }
        assert forall|i: int|
            0 <= i < ws.len() && is_first_match(ws, ws[i].address@, i) implies #[trigger] next[i].balance
            == ws[i].balance + claimed_for(batch, ws[i].address@) by {
            assert(prev[i].balance == ws[i].balance + claimed_for(rest, ws[i].address@));
            assert(prev[i].address == ws[i].address);
            if is_first_match(ws, address, i) {
                assert(ws[i].address@ == address);
            } else {
                assert(ws[i].address@ != address);
            }
        }
        assert forall|i: int|
            0 <= i < ws.len() && !is_first_match(ws, ws[i].address@, i) implies #[trigger] next[i].balance
            == ws[i].balance by {
            assert(prev[i].balance == ws[i].balance);
            assert(prev[i].address == ws[i].address);
            if is_first_match(ws, address, i) {
                assert(ws[i].address@ == address);
            }
        }
    }
}

} // verus!
