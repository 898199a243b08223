//! The walk over the accounts.

use maily::delivery::render;
use maily::delivery::Action;
use maily::delivery::AggregatedError;
use maily::delivery::Delivery;
use maily::delivery::DeliveryError;
use maily::delivery::NOTICE_SUBJECT;
use maily::rand::Rng;

/// Drives a delivery to its end. The attempt through the account with index
/// `a` ends as `sends(a)`, and every notice as `notice` says.
fn walk(
    accounts: usize,
    seed: u64,
    sends: &dyn Fn(usize) -> Result<(), String>,
    notice: Result<(), String>,
) -> Vec<Action> {
    let mut rng = Rng::with_seed(seed);
    let mut delivery = Delivery::new(accounts, &mut rng).unwrap();
    let mut actions = Vec::new();
    loop {
        let action = delivery.action();
        let outcome = match &action {
            Action::Notify { .. } => notice.clone(),
            Action::Send { account } => sends(*account),
            Action::Delivered | Action::Failed(_) => {
                assert!(delivery.is_finished());
                actions.push(action);
                return actions;
            },
        };
        assert!(!delivery.is_finished());
        actions.push(action);
        delivery = delivery.record(outcome);
    }
}

fn failure(account: usize) -> String {
    format!("failed to send email via host{account}")
}

#[test]
fn the_notice_has_a_fixed_subject() {
    assert_eq!(NOTICE_SUBJECT, "email error");
}

#[test]
fn no_account_is_a_configuration_error() {
    let mut rng = Rng::with_seed(7);
    assert_eq!(Delivery::new(0, &mut rng).unwrap_err(), DeliveryError::NoAccounts);
    // The generator was not touched.
    assert_eq!(rng.draw(), 2118330556);
}

#[test]
fn the_first_account_delivers() {
    // Seed 42 visits five accounts in the order 2, 3, 0, 1, 4.
    let actions = walk(5, 42, &|_| Ok(()), Ok(()));
    assert_eq!(actions, vec![Action::Send { account: 2 }, Action::Delivered]);
}

#[test]
fn a_single_account_that_delivers() {
    let actions = walk(1, 9, &|_| Ok(()), Ok(()));
    assert_eq!(actions, vec![Action::Send { account: 0 }, Action::Delivered]);
}

#[test]
fn a_single_account_that_fails() {
    let actions = walk(1, 9, &|a| Err(failure(a)), Ok(()));
    assert_eq!(
        actions,
        vec![
            Action::Send { account: 0 },
            Action::Failed(AggregatedError { causes: vec![failure(0)] }),
        ]
    );
}

#[test]
fn the_third_account_in_the_order_delivers() {
    // Seed 42 visits five accounts in the order 2, 3, 0, 1, 4: the accounts
    // 2 and 3 fail, account 0 delivers.
    let sends = |account: usize| if account == 0 { Ok(()) } else { Err(failure(account)) };
    let actions = walk(5, 42, &sends, Ok(()));
    assert_eq!(
        actions,
        vec![
            Action::Send { account: 2 },
            Action::Notify { account: 3, body: "failed to send email via host2".to_string() },
            Action::Send { account: 3 },
            Action::Notify {
                account: 0,
                body: "failed to send email via host3\ncaused by: failed to send email via host2"
                    .to_string(),
            },
            Action::Send { account: 0 },
            Action::Delivered,
        ]
    );

    let attempts = actions.iter().filter(|a| matches!(a, Action::Send { .. })).count();
    let notices = actions.iter().filter(|a| matches!(a, Action::Notify { .. })).count();
    assert_eq!(attempts, 3);
    assert_eq!(notices, 2);
}

#[test]
fn every_account_fails() {
    // Seed 42 visits three accounts in the order 2, 1, 0.
    let actions = walk(3, 42, &|a| Err(failure(a)), Ok(()));
    assert_eq!(
        actions,
        vec![
            Action::Send { account: 2 },
            Action::Notify { account: 1, body: failure(2) },
            Action::Send { account: 1 },
            Action::Notify {
                account: 0,
                body: format!("{}\ncaused by: {}", failure(1), failure(2)),
            },
            Action::Send { account: 0 },
            Action::Failed(AggregatedError {
                causes: vec![failure(2), failure(1), failure(0)],
            }),
        ]
    );

    let attempts = actions.iter().filter(|a| matches!(a, Action::Send { .. })).count();
    let notices = actions.iter().filter(|a| matches!(a, Action::Notify { .. })).count();
    assert_eq!(attempts, 3);
    assert_eq!(notices, 2);
}

#[test]
fn a_failed_notice_changes_nothing() {
    let sends = |account: usize| if account == 0 { Ok(()) } else { Err(failure(account)) };
    let with_notices = walk(5, 42, &sends, Ok(()));
    let without_notices = walk(5, 42, &sends, Err("connection refused".to_string()));
    assert_eq!(with_notices, without_notices);

    let all_fail = walk(3, 42, &|a| Err(failure(a)), Err("connection refused".to_string()));
    match all_fail.last().unwrap() {
        Action::Failed(error) => {
            assert_eq!(error.len(), 3);
            assert_eq!(error.causes, vec![failure(2), failure(1), failure(0)]);
        },
        other => panic!("unexpected end: {other:?}"),
    }
}

#[test]
fn a_finished_delivery_stays_finished() {
    let mut rng = Rng::with_seed(1);
    let delivery = Delivery::new(2, &mut rng).unwrap();
    let delivery = delivery.record(Ok(()));
    assert!(delivery.is_finished());
    assert_eq!(delivery.action(), Action::Delivered);

    let delivery = delivery.record(Err("late".to_string()));
    assert!(delivery.is_finished());
    assert_eq!(delivery.action(), Action::Delivered);

    let delivery = Delivery::new(1, &mut rng).unwrap().record(Err("down".to_string()));
    let delivery = delivery.record(Ok(()));
    assert_eq!(
        delivery.action(),
        Action::Failed(AggregatedError { causes: vec!["down".to_string()] })
    );
}

#[test]
fn every_account_is_tried_once_whatever_the_seed() {
    for seed in 0..40u64 {
        for accounts in 1..8usize {
            let actions = walk(accounts, seed, &|a| Err(failure(a)), Ok(()));
            assert_eq!(actions.len(), 2 * accounts);
            let mut tried = vec![0; accounts];
            for action in &actions {
                if let Action::Send { account } = action {
                    tried[*account] += 1;
                }
            }
            assert!(tried.iter().all(|count| *count == 1));
            match actions.last().unwrap() {
                Action::Failed(error) => assert_eq!(error.len(), accounts),
                other => panic!("unexpected end: {other:?}"),
            }
        }
    }
}

#[test]
fn the_text_of_a_failure_puts_the_latest_cause_first() {
    assert_eq!(render(&vec![]), "");
    assert_eq!(render(&vec!["only".to_string()]), "only");
    assert_eq!(
        render(&vec!["first".to_string(), "second".to_string(), "third".to_string()]),
        "third\ncaused by: second\ncaused by: first"
    );

    let error = AggregatedError { causes: vec!["a".to_string(), "b".to_string()] };
    assert_eq!(error.len(), 2);
    assert_eq!(error.message(), "b\ncaused by: a");
}
