//! The wallet ledger held in memory between a full load and a full save of
//! the record store: status and balance updates by address, selection of
//! connected wallets, and totals.

use vstd::prelude::*;
use crate::wallet::{Wallet, WalletStatus};

verus! {

/// Why a ledger update was refused.
#[derive(Clone, Copy, Debug, PartialEq, Eq, Structural)]
pub enum LedgerError {
    /// The new balance would not fit in 64 bits of lamports.
    BalanceOverflow,
}

/// Counts and total balance over a set of wallets.
#[derive(Clone, Copy, Debug, PartialEq, Eq, Structural)]
pub struct WalletStats {
    pub total: usize,
    pub connected: usize,
    /// Sum of all balances, in lamports.
    pub total_balance: u128,
}

/// Position `i` holds the first record with address `address`.
pub open spec fn is_first_match(ws: Seq<Wallet>, address: Seq<char>, i: int) -> bool {
    &&& 0 <= i < ws.len()
    &&& ws[i].address@ == address
    &&& forall|j: int| 0 <= j < i ==> ws[j].address@ != address
}

/// No record has address `address`.
pub open spec fn has_no_match(ws: Seq<Wallet>, address: Seq<char>) -> bool {
    forall|j: int| 0 <= j < ws.len() ==> ws[j].address@ != address
}

pub open spec fn with_status(w: Wallet, status: WalletStatus) -> Wallet {
    Wallet { status, ..w }
}

/// A record after a claim of `amount`: the amount is added to the balance
/// and the claim time recorded.
pub open spec fn credited(w: Wallet, amount: u64, claimed_at: String) -> Wallet {
    Wallet { balance: (w.balance + amount) as u64, last_claim: Some(claimed_at), ..w }
}

/// The ledger after crediting `amount` to the first record with `address`.
pub open spec fn credit_first(ws: Seq<Wallet>, address: Seq<char>, amount: u64, claimed_at: String) -> Seq<Wallet> {
    Seq::new(
        ws.len(),
        |i: int|
            if is_first_match(ws, address, i) {
                credited(ws[i], amount, claimed_at)
            } else {
                ws[i]
            },
    )
}

/// The connected records, in order.
pub open spec fn connected_of(ws: Seq<Wallet>) -> Seq<Wallet>
    decreases ws.len(),
{
    if ws.len() == 0 {
        Seq::empty()
    } else if ws.last().status == WalletStatus::Connected {
        connected_of(ws.drop_last()).push(ws.last())
    } else {
        connected_of(ws.drop_last())
    }
}

/// Number of connected records.
pub open spec fn connected_count(ws: Seq<Wallet>) -> nat {
    connected_of(ws).len()
}

/// Sum of the balances.
pub open spec fn balance_sum(ws: Seq<Wallet>) -> nat
    decreases ws.len(),
{
    if ws.len() == 0 {
        0
    } else {
        balance_sum(ws.drop_last()) + ws.last().balance as nat
    }
}

/// Finds the first record with the given address.
fn find_first(wallets: &Vec<Wallet>, address: &str) -> (r: Option<usize>)
    ensures
        match r {
            Some(i) => is_first_match(wallets@, address@, i as int),
            None => has_no_match(wallets@, address@),
        },
{
    let target = address.to_owned();
    let mut i: usize = 0;
    while i < wallets.len()
        invariant
            i <= wallets@.len(),
            target@ == address@,
            forall|j: int| 0 <= j < i ==> wallets@[j].address@ != address@,
        decreases wallets@.len() - i,
    {
        if wallets[i].address == target {
            return Some(i);
        }
        i = i + 1;
    }
    None
}

/// Sets the status of the first record with the given address; a ledger
/// without that address is left as it is.
pub fn update_wallet_status(wallets: &mut Vec<Wallet>, address: &str, status: WalletStatus)
    ensures
        final(wallets)@.len() == old(wallets)@.len(),
        forall|i: int|
            0 <= i < old(wallets)@.len() ==> #[trigger] final(wallets)@[i] == if is_first_match(
                old(wallets)@,
                address@,
                i,
            ) {
                with_status(old(wallets)@[i], status)
            } else {
                old(wallets)@[i]
            },
{
    match find_first(wallets, address) {
        Some(i) => {
            let mut w = wallets[i].duplicate();
            w.status = status;
            wallets.set(i, w);
        },
        None => {},
    }
}

/// Adds a claimed amount to the balance of the first record with the given
/// address and records the claim time. Balances only grow by addition: the
/// new balance is the old one plus `amount`. A ledger without that address
/// is left as it is.
pub fn update_wallet_balance(
    wallets: &mut Vec<Wallet>,
    address: &str,
    amount: u64,
    claimed_at: String,
) -> (r: Result<(), LedgerError>)
    ensures
        final(wallets)@.len() == old(wallets)@.len(),
        r is Err <==> exists|i: int|
            is_first_match(old(wallets)@, address@, i) && old(wallets)@[i].balance + amount
                > u64::MAX,
        r is Err ==> final(wallets)@ == old(wallets)@,
        r is Ok ==> final(wallets)@ == credit_first(old(wallets)@, address@, amount, claimed_at),
{
    match find_first(wallets, address) {
        Some(i) => {
            let mut w = wallets[i].duplicate();
            if w.balance > u64::MAX - amount {
                return Err(LedgerError::BalanceOverflow);
            }
            w.balance = w.balance + amount;
            w.last_claim = Some(claimed_at);
            wallets.set(i, w);
            assert(wallets@ =~= credit_first(old(wallets)@, address@, amount, claimed_at));
            Ok(())
        },
        None => {
            assert(wallets@ =~= credit_first(old(wallets)@, address@, amount, claimed_at));
            Ok(())
        },
    }
}

/// The connected records, in ledger order.
pub fn connected_wallets(wallets: &Vec<Wallet>) -> (r: Vec<Wallet>)
    ensures
        r@ == connected_of(wallets@),
{
    let mut r: Vec<Wallet> = Vec::new();
    let mut i: usize = 0;
    while i < wallets.len()
        invariant
            i <= wallets@.len(),
            r@ == connected_of(wallets@.take(i as int)),
        decreases wallets@.len() - i,
    {
        assert(wallets@.take(i + 1).drop_last() =~= wallets@.take(i as int));
        if wallets[i].status == WalletStatus::Connected {
            r.push(wallets[i].duplicate());
        }
        i = i + 1;
    }
    assert(wallets@.take(wallets@.len() as int) =~= wallets@);
    r
}

/// Number of records, number connected, and the sum of balances.
pub fn get_stats(wallets: &Vec<Wallet>) -> (r: WalletStats)
    ensures
        r.total == wallets@.len(),
        r.connected == connected_count(wallets@),
        r.total_balance == balance_sum(wallets@),
{
    let mut connected: usize = 0;
    let mut sum: u128 = 0;
    let mut i: usize = 0;
    while i < wallets.len()
        invariant
            i <= wallets@.len(),
            connected == connected_count(wallets@.take(i as int)),
            connected <= i,
            sum == balance_sum(wallets@.take(i as int)),
            sum <= i * (u64::MAX as nat),
        decreases wallets@.len() - i,
    {
        assert(wallets@.take(i + 1).drop_last() =~= wallets@.take(i as int));
        if wallets[i].status == WalletStatus::Connected {
            connected = connected + 1;
        }
        proof {
            assert(i < usize::MAX);
            assert((i + 1) * (u64::MAX as nat) == i * (u64::MAX as nat) + u64::MAX) by (
            nonlinear_arith);
            assert((i + 1) * (u64::MAX as nat) <= u128::MAX) by (nonlinear_arith)
                requires
                    i < usize::MAX,
                    usize::MAX <= u64::MAX,
            ;
        }
        sum = sum + wallets[i].balance as u128;
        i = i + 1;
    }
    assert(wallets@.take(wallets@.len() as int) =~= wallets@);
    WalletStats { total: wallets.len(), connected, total_balance: sum }
}

} // verus!
