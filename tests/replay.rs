use ez_pqcrypto::replay_attack_container::ordered::AntiReplayAttackContainerOrdered;
use ez_pqcrypto::replay_attack_container::unordered::{
    AntiReplayAttackContainerUnordered, ReplayError, ReplayWindow, HISTORY_LEN,
};

#[test]
fn ordered_accepts_in_order_only() {
    let c = AntiReplayAttackContainerOrdered::default();
    assert!(c.on_pid_received(0));
    assert!(!c.on_pid_received(0));
    assert!(!c.on_pid_received(5));
    assert!(c.on_pid_received(1));
    assert!(c.on_pid_received(2));
    assert!(!c.on_pid_received(1));
    assert!(!c.on_pid_received(u64::MAX));
    assert!(c.on_pid_received(3));
}

#[test]
fn ordered_outbound_counts_up() {
    let c = AntiReplayAttackContainerOrdered::default();
    assert_eq!(c.get_next_pid(), 0);
    assert_eq!(c.get_next_pid(), 1);
    assert_eq!(c.get_next_pid(), 2);
}

#[test]
fn ordered_outbound_is_gap_free() {
    let c = AntiReplayAttackContainerOrdered::default();
    let taken: Vec<u64> = (0..1000).map(|_| c.get_next_pid()).collect();
    let expected: Vec<u64> = (0..1000).collect();
    assert_eq!(taken, expected);
}

#[test]
fn unordered_window_scenario() {
    let c = AntiReplayAttackContainerUnordered::default();
    for pid in 1..50u64 {
        assert_eq!(c.try_register(pid), Ok(()));
    }
    assert_eq!(c.try_register(10), Err(ReplayError::AlreadyArrived));
    for pid in 50..=60u64 {
        assert_eq!(c.try_register(pid), Ok(()));
    }
    // 60 accepted: the window keeps 11..=60 and the range starts above 10.
    assert_eq!(c.try_register(5), Err(ReplayError::OutOfWindow));
    assert_eq!(c.try_register(10), Err(ReplayError::OutOfWindow));
    assert_eq!(c.try_register(11), Err(ReplayError::AlreadyArrived));
}

#[test]
fn unordered_rejects_far_ahead() {
    let c = AntiReplayAttackContainerUnordered::default();
    for pid in 1..=10u64 {
        assert_eq!(c.try_register(pid), Ok(()));
    }
    assert_eq!(c.try_register(200), Err(ReplayError::OutOfWindow));
    assert_eq!(c.try_register(60), Err(ReplayError::OutOfWindow));
    assert_eq!(c.try_register(59), Ok(()));
}

#[test]
fn unordered_lower_bound_is_strict() {
    let c = AntiReplayAttackContainerUnordered::default();
    assert_eq!(c.try_register(0), Err(ReplayError::OutOfWindow));
    assert_eq!(c.try_register(1), Ok(()));
}

#[test]
fn unordered_accepts_out_of_order() {
    let c = AntiReplayAttackContainerUnordered::default();
    assert_eq!(c.try_register(3), Ok(()));
    assert_eq!(c.try_register(1), Ok(()));
    assert_eq!(c.try_register(2), Ok(()));
    assert_eq!(c.try_register(3), Err(ReplayError::AlreadyArrived));
    assert_eq!(c.get_next_pid(), 0);
    assert_eq!(c.get_next_pid(), 1);
}

#[test]
fn window_evicts_oldest() {
    let mut w = ReplayWindow::new();
    for pid in 1..=HISTORY_LEN + 1 {
        assert_eq!(w.try_register(pid), Ok(()));
    }
    // 51 accepted: identifier 1 left the window but is now below the range.
    assert_eq!(w.try_register(1), Err(ReplayError::OutOfWindow));
    assert_eq!(w.try_register(2), Err(ReplayError::AlreadyArrived));
    assert_eq!(w.try_register(HISTORY_LEN + 2), Ok(()));
}
