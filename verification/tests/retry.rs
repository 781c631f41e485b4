use relayer_fees::escrow::{
    check_escrowed_amount_ics29, check_wallet_amount, Attempt, EscrowError, Failure,
};
use relayer_fees::retry::{
    Action, Outcome, Retry, RetryBudget, VerifyError, DEFAULT_ATTEMPTS, DEFAULT_DELAY_SECS,
};

/// Drives a verification the way a caller does: looks whenever asked to,
/// and reports the outcome, the number of looks and the seconds waited.
fn drive(
    description: &str,
    budget: RetryBudget,
    mut look: impl FnMut(u16) -> Attempt,
) -> (Result<(), VerifyError>, u16, u64) {
    let mut retry = Retry::new(description.to_string(), budget);
    let mut looks: u16 = 0;
    let mut waited: u64 = 0;
    loop {
        match retry.action() {
            Action::Poll { delay_secs } => {
                waited += delay_secs;
                let verdict = look(looks);
                looks += 1;
                retry.record(verdict);
                assert_eq!(retry.attempts_made(), looks);
            }
            Action::Finish(outcome) => {
                let result = retry.result().unwrap();
                match &result {
                    Ok(()) => assert_eq!(outcome, Outcome::Succeeded),
                    Err(e) => assert_eq!(e.outcome, outcome),
                }
                return (result, looks, waited);
            }
        }
    }
}

#[test]
fn standard_budget_is_ninety_attempts_one_second_apart() {
    assert_eq!(DEFAULT_ATTEMPTS, 90);
    assert_eq!(DEFAULT_DELAY_SECS, 1);
    assert_eq!(RetryBudget::standard(), RetryBudget { attempts: 90, delay_secs: 1 });
}

#[test]
fn always_failing_check_is_tried_exactly_three_times() {
    let budget = RetryBudget { attempts: 3, delay_secs: 0 };
    let (result, looks, waited) = drive("never", budget, |_| check_wallet_amount(Some(1), 2));
    assert_eq!(looks, 3);
    assert_eq!(waited, 0);
    assert_eq!(
        result,
        Err(VerifyError {
            description: "never".to_string(),
            outcome: Outcome::Exhausted {
                attempts: 3,
                last_failure: Some(Failure::Mismatch { actual: 1, expected: 2 }),
            },
        })
    );
}

#[test]
fn exhaustion_reports_the_last_failure() {
    let budget = RetryBudget { attempts: 4, delay_secs: 2 };
    let (result, looks, waited) =
        drive("rising", budget, |i| check_wallet_amount(Some(i as u128), 100));
    assert_eq!(looks, 4);
    // no wait before the first look, none after the last
    assert_eq!(waited, 6);
    assert_eq!(
        result.unwrap_err().outcome,
        Outcome::Exhausted {
            attempts: 4,
            last_failure: Some(Failure::Mismatch { actual: 3, expected: 100 }),
        }
    );
}

#[test]
fn no_attempts_means_no_look() {
    let budget = RetryBudget { attempts: 0, delay_secs: 1 };
    let (result, looks, waited) = drive("nothing", budget, |_| Attempt::Succeeded);
    assert_eq!(looks, 0);
    assert_eq!(waited, 0);
    assert_eq!(
        result,
        Err(VerifyError {
            description: "nothing".to_string(),
            outcome: Outcome::Exhausted { attempts: 0, last_failure: None },
        })
    );
}

#[test]
fn first_success_ends_the_verification() {
    let budget = RetryBudget { attempts: 90, delay_secs: 1 };
    let (result, looks, waited) = drive("third", budget, |i| {
        check_wallet_amount(if i == 0 { None } else { Some(i as u128) }, 2)
    });
    assert_eq!(result, Ok(()));
    assert_eq!(looks, 3);
    assert_eq!(waited, 2);
    let (result, looks, waited) = drive("first", budget, |_| Attempt::Succeeded);
    assert_eq!(result, Ok(()));
    assert_eq!(looks, 1);
    assert_eq!(waited, 0);
}

#[test]
fn success_on_the_last_attempt_counts() {
    let budget = RetryBudget { attempts: 3, delay_secs: 1 };
    let (result, looks, _) = drive("last", budget, |i| check_wallet_amount(Some(i as u128), 2));
    assert_eq!(result, Ok(()));
    assert_eq!(looks, 3);
}

#[test]
fn escrow_amount_that_never_matches_exhausts_the_budget() {
    let budget = RetryBudget { attempts: 5, delay_secs: 0 };
    let (result, looks, _) =
        drive("escrow", budget, |_| check_escrowed_amount_ics29(Some(950), 1000, 10, 20, 25));
    assert_eq!(looks, 5);
    assert_eq!(
        result.unwrap_err().outcome,
        Outcome::Exhausted {
            attempts: 5,
            last_failure: Some(Failure::EscrowMismatch { actual: 950, legacy: 945, current: 970 }),
        }
    );
    for observed in [945u128, 970] {
        let (result, looks, _) = drive("escrow", budget, |_| {
            check_escrowed_amount_ics29(Some(observed), 1000, 10, 20, 25)
        });
        assert_eq!(result, Ok(()));
        assert_eq!(looks, 1);
    }
}

#[test]
fn escrow_underflow_is_not_retried() {
    let (result, looks, waited) = drive("underflow", RetryBudget::standard(), |_| {
        check_escrowed_amount_ics29(Some(7), 10, 5, 5, 5)
    });
    assert_eq!(looks, 1);
    assert_eq!(waited, 0);
    assert_eq!(
        result,
        Err(VerifyError {
            description: "underflow".to_string(),
            outcome: Outcome::Aborted(EscrowError::SubtractionUnderflow {
                minuend: 10,
                subtrahend: 15
            }),
        })
    );
}

#[test]
fn finished_verification_takes_no_further_verdict() {
    let mut retry = Retry::new("done".to_string(), RetryBudget { attempts: 2, delay_secs: 1 });
    assert_eq!(retry.result(), None);
    assert_eq!(retry.action(), Action::Poll { delay_secs: 0 });
    retry.record(Attempt::Failed(Failure::QueryFailed));
    assert_eq!(retry.result(), None);
    assert_eq!(retry.action(), Action::Poll { delay_secs: 1 });
    retry.record(Attempt::Succeeded);
    assert_eq!(retry.action(), Action::Finish(Outcome::Succeeded));
    retry.record(Attempt::Failed(Failure::QueryFailed));
    retry.record(Attempt::Aborted(EscrowError::SubtractionUnderflow { minuend: 0, subtrahend: 1 }));
    assert_eq!(retry.action(), Action::Finish(Outcome::Succeeded));
    assert_eq!(retry.attempts_made(), 2);
    assert_eq!(retry.result(), Some(Ok(())));
}
