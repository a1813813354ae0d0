use std::time::Duration;

use btc_regtest::generator::GeneratorError;
use btc_regtest::run_loop::{Action, Event, Phase, RunLoop};

fn ms(n: u64) -> Duration {
    Duration::from_millis(n)
}

#[test]
fn new_loop_starts_with_seed_batch() {
    let lp = RunLoop::new(ms(10));
    assert_eq!(lp.phase(), Phase::SeedMining);
    assert!(matches!(lp.pending_action(), Action::MineBlocks(100)));
    assert_eq!(lp.last_balance(), None);
}

#[test]
fn full_run_until_stop_returns_ok() {
    let mut lp = RunLoop::new(ms(10));
    assert!(matches!(lp.step(Event::Mined), Action::CheckBalance));
    assert!(matches!(lp.step(Event::Balance(5_000_000_000)), Action::ReadStopSignal));
    assert_eq!(lp.last_balance(), Some(5_000_000_000));
    assert!(matches!(lp.step(Event::StopSignal(false)), Action::MineBlocks(1)));
    assert!(matches!(lp.step(Event::Mined), Action::CheckBalance));
    assert!(matches!(lp.step(Event::Balance(10_000_000_000)), Action::Sleep(d) if d == ms(10)));
    assert!(lp.last_balance().unwrap() > 0);
    assert!(matches!(lp.step(Event::Slept), Action::ReadStopSignal));
    assert!(matches!(lp.step(Event::StopSignal(true)), Action::CheckBalance));
    assert!(matches!(lp.step(Event::Balance(10_000_000_000)), Action::Return(Ok(()))));
    assert_eq!(lp.phase(), Phase::Finished);
    assert!(matches!(lp.step(Event::Mined), Action::Halt));
}

#[test]
fn stop_signal_skips_further_mining() {
    let mut lp = RunLoop::new(ms(1));
    lp.step(Event::Mined);
    lp.step(Event::Balance(0));
    assert!(matches!(lp.step(Event::StopSignal(true)), Action::CheckBalance));
    assert_eq!(lp.phase(), Phase::FinalBalance);
    assert!(matches!(lp.step(Event::Mined), Action::CheckBalance));
    assert!(matches!(lp.step(Event::Slept), Action::CheckBalance));
    assert!(matches!(lp.step(Event::Balance(1)), Action::Return(Ok(()))));
}

#[test]
fn mining_failure_keeps_loop_running() {
    let mut lp = RunLoop::new(ms(20));
    lp.step(Event::Mined);
    lp.step(Event::Balance(0));
    lp.step(Event::StopSignal(false));
    let a = lp.step(Event::MiningFailed("connection refused".to_string()));
    assert!(matches!(a, Action::Sleep(d) if d == ms(20)));
    assert_eq!(lp.phase(), Phase::Sleeping);
    assert!(matches!(lp.step(Event::Slept), Action::ReadStopSignal));
    assert!(matches!(lp.step(Event::StopSignal(false)), Action::MineBlocks(1)));
}

#[test]
fn balance_failure_ends_run_with_error() {
    let mut lp = RunLoop::new(ms(1));
    lp.step(Event::Mined);
    lp.step(Event::Balance(0));
    lp.step(Event::StopSignal(false));
    lp.step(Event::Mined);
    match lp.step(Event::BalanceFailed("wallet not loaded".to_string())) {
        Action::Return(Err(GeneratorError::Balance(m))) => assert_eq!(m, "wallet not loaded"),
        _ => panic!("expected the balance error"),
    }
    assert_eq!(lp.phase(), Phase::Failed);
    assert!(matches!(lp.step(Event::Slept), Action::Halt));
}

#[test]
fn seed_failure_ends_run_with_error() {
    let mut lp = RunLoop::new(ms(1));
    match lp.step(Event::MiningFailed("no wallet".to_string())) {
        Action::Return(Err(GeneratorError::SeedMining(m))) => assert_eq!(m, "no wallet"),
        _ => panic!("expected the seed error"),
    }
    assert_eq!(lp.phase(), Phase::Failed);
}

#[test]
fn unexpected_event_repeats_pending_action() {
    let mut lp = RunLoop::new(ms(1));
    assert!(matches!(lp.step(Event::Slept), Action::MineBlocks(100)));
    assert_eq!(lp.phase(), Phase::SeedMining);
    assert!(matches!(lp.step(Event::Balance(3)), Action::MineBlocks(100)));
    assert_eq!(lp.last_balance(), None);
}
