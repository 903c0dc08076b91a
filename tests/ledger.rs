use soldrip::ledger::{connected_wallets, get_stats, update_wallet_balance, update_wallet_status, LedgerError};
use soldrip::orchestrator::{
    pause_after_check, plan_round, record_claim, select_ready, ClaimOutcome, ClaimTally, ConnectTally,
    MonitorStep,
};
use soldrip::wallet::{Wallet, WalletStatus, LAMPORTS_PER_SOL};

fn wallet(address: &str, status: WalletStatus, balance: u64) -> Wallet {
    Wallet {
        address: address.to_string(),
        private_key: String::new(),
        status,
        balance,
        created_at: "2024-01-01T00:00:00+00:00".to_string(),
        last_claim: None,
    }
}

#[test]
fn balance_update_is_additive() {
    let mut ws = vec![wallet("A", WalletStatus::Connected, LAMPORTS_PER_SOL)];
    update_wallet_balance(&mut ws, "A", LAMPORTS_PER_SOL / 4, "t1".to_string()).unwrap();
    assert_eq!(ws[0].balance, 1_250_000_000);
    assert_eq!(ws[0].last_claim.as_deref(), Some("t1"));
}

#[test]
fn balance_update_unknown_address_changes_nothing() {
    let mut ws = vec![wallet("A", WalletStatus::Connected, 5)];
    update_wallet_balance(&mut ws, "B", 7, "t".to_string()).unwrap();
    assert_eq!(ws[0].balance, 5);
    assert!(ws[0].last_claim.is_none());
}

#[test]
fn balance_update_overflow_is_refused() {
    let mut ws = vec![wallet("A", WalletStatus::Connected, u64::MAX)];
    assert_eq!(update_wallet_balance(&mut ws, "A", 1, "t".to_string()), Err(LedgerError::BalanceOverflow));
    assert_eq!(ws[0].balance, u64::MAX);
}

#[test]
fn status_update_touches_only_its_wallet() {
    let mut ws = vec![wallet("A", WalletStatus::Pending, 0), wallet("B", WalletStatus::Pending, 0)];
    update_wallet_status(&mut ws, "B", WalletStatus::Connected);
    assert_eq!(ws[0].status, WalletStatus::Pending);
    assert_eq!(ws[1].status, WalletStatus::Connected);
}

#[test]
fn stats_and_connected_selection() {
    let ws = vec![
        wallet("A", WalletStatus::Connected, 3),
        wallet("B", WalletStatus::Pending, 4),
        wallet("C", WalletStatus::Connected, u64::MAX),
    ];
    let s = get_stats(&ws);
    assert_eq!(s.total, 3);
    assert_eq!(s.connected, 2);
    assert_eq!(s.total_balance, 7 + u64::MAX as u128);
    let c = connected_wallets(&ws);
    assert_eq!(c.iter().map(|w| w.address.as_str()).collect::<Vec<_>>(), vec!["A", "C"]);
}

#[test]
fn claim_pass_isolates_failures() {
    let mut ledger = vec![
        wallet("W1", WalletStatus::Connected, LAMPORTS_PER_SOL),
        wallet("W2", WalletStatus::Connected, LAMPORTS_PER_SOL),
        wallet("W3", WalletStatus::Connected, 0),
    ];
    let outcomes = [
        ("W1", ClaimOutcome::Claimed(250_000_000)),
        ("W2", ClaimOutcome::ClaimFailed),
        ("W3", ClaimOutcome::Claimed(100)),
    ];
    let mut tally = ClaimTally::new();
    for (address, outcome) in outcomes {
        record_claim(&mut tally, &mut ledger, address, outcome, "now".to_string()).unwrap();
    }
    assert_eq!(tally.successful, 2);
    assert_eq!(tally.failed, 1);
    assert_eq!(tally.captcha_errors, 0);
    assert_eq!(tally.total_claimed, 250_000_100);
    assert_eq!(ledger[0].balance, 1_250_000_000);
    assert_eq!(ledger[1].balance, LAMPORTS_PER_SOL);
    assert!(ledger[1].last_claim.is_none());
    assert_eq!(ledger[2].balance, 100);
}

#[test]
fn captcha_failures_are_counted_as_failures() {
    let mut tally = ClaimTally::new();
    tally.record(ClaimOutcome::CaptchaFailed);
    tally.record(ClaimOutcome::ClaimFailed);
    assert_eq!(tally.failed, 2);
    assert_eq!(tally.captcha_errors, 1);
    assert_eq!(tally.successful, 0);
}

#[test]
fn monitoring_stops_without_connected_wallets() {
    let ws = vec![wallet("A", WalletStatus::Pending, 0)];
    assert!(matches!(plan_round(&ws), MonitorStep::Stop));
    assert!(matches!(plan_round(&Vec::new()), MonitorStep::Stop));
    let ws = vec![wallet("A", WalletStatus::Pending, 0), wallet("B", WalletStatus::Connected, 0)];
    match plan_round(&ws) {
        MonitorStep::Check(c) => {
            assert_eq!(c.len(), 1);
            assert_eq!(c[0].address, "B");
        }
        MonitorStep::Stop => panic!("expected a round"),
    }
}

#[test]
fn ready_selection_skips_failed_checks() {
    let ws = vec![
        wallet("A", WalletStatus::Connected, 0),
        wallet("B", WalletStatus::Connected, 0),
        wallet("C", WalletStatus::Connected, 0),
    ];
    let r = select_ready(&ws, &vec![Some(true), None, Some(false)]);
    assert_eq!(r.len(), 1);
    assert_eq!(r[0].address, "A");
    assert!(pause_after_check(0, 3));
    assert!(!pause_after_check(2, 3));
}

#[test]
fn registration_tally_counts_both_ways() {
    let mut t = ConnectTally::new();
    t.record(true);
    t.record(false);
    t.record(true);
    assert_eq!(t.connected, 2);
    assert_eq!(t.failed, 1);
}
