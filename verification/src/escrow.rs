//! What a wallet is expected to hold, and whether an observed balance
//! meets that expectation.
//!
//! Fee middleware escrows either the sum of the three packet fees or the
//! larger of the receive-plus-acknowledge fee and the timeout fee,
//! depending on its version. Both amounts are computed and an observed
//! balance is accepted if it equals either.

use vstd::prelude::*;

verus! {

/// An amount of one denomination.
#[derive(Debug, PartialEq, Eq)]
pub struct Token {
    pub denom: String,
    pub amount: u128,
}

/// The address of an account on one chain.
#[derive(Debug, PartialEq, Eq)]
pub struct WalletAddress(pub String);

/// An assumption about the fees that cannot hold: nothing observed later
/// can make the expected balance computable.
#[derive(Clone, Copy, Debug, PartialEq, Eq, Structural)]
pub enum EscrowError {
    /// The three fees add up to more than any amount can hold.
    FeeSumOverflow { recv_fee: u128, ack_fee: u128, timeout_fee: u128 },
    /// The fees to deduct exceed the amount they are deducted from.
    SubtractionUnderflow { minuend: u128, subtrahend: u128 },
}

/// The two balances that a wallet may hold after escrowing packet fees.
#[derive(Clone, Copy, Debug, PartialEq, Eq, Structural)]
pub struct EscrowCandidates {
    pub legacy: u128,
    pub current: u128,
}

/// What one look at the chain found.
#[derive(Clone, Copy, Debug, PartialEq, Eq, Structural)]
pub enum Failure {
    /// The balance could not be queried.
    QueryFailed,
    /// The balance differs from the one expected.
    Mismatch { actual: u128, expected: u128 },
    /// The balance equals neither escrow candidate.
    EscrowMismatch { actual: u128, legacy: u128, current: u128 },
}

/// The verdict on one look at the chain.
#[derive(Clone, Copy, Debug, PartialEq, Eq, Structural)]
pub enum Attempt {
    /// The expectation is met.
    Succeeded,
    /// The expectation is not met yet; a later look may meet it.
    Failed(Failure),
    /// The expectation itself is invalid; no later look can meet it.
    Aborted(EscrowError),
}

/// The larger of two amounts.
pub open spec fn larger(a: int, b: int) -> int {
    if a >= b {
        a
    } else {
        b
    }
}

/// The balance left after escrowing all three fees.
pub open spec fn legacy_escrow(gross: int, recv_fee: int, ack_fee: int, timeout_fee: int) -> int {
    gross - (recv_fee + ack_fee + timeout_fee)
}

/// The balance left after escrowing the larger of the receive-plus-
/// acknowledge fee and the timeout fee.
pub open spec fn current_escrow(gross: int, recv_fee: int, ack_fee: int, timeout_fee: int) -> int {
    gross - larger(recv_fee + ack_fee, timeout_fee)
}

/// The result that `escrow_candidates` owes for its arguments.
pub open spec fn escrow_candidates_of(
    gross: u128,
    recv_fee: u128,
    ack_fee: u128,
    timeout_fee: u128,
) -> Result<EscrowCandidates, EscrowError> {
    let sum = recv_fee + ack_fee + timeout_fee;
    if sum > u128::MAX {
        Err(EscrowError::FeeSumOverflow { recv_fee, ack_fee, timeout_fee })
    } else if gross < sum {
        Err(EscrowError::SubtractionUnderflow { minuend: gross, subtrahend: sum as u128 })
    } else {
        Ok(
            EscrowCandidates {
                legacy: legacy_escrow(gross as int, recv_fee as int, ack_fee as int, timeout_fee as int) as u128,
                current: current_escrow(gross as int, recv_fee as int, ack_fee as int, timeout_fee as int) as u128,
            },
        )
    }
}

/// Whenever all three fees can be deducted, so can the larger of the two
/// partial sums, and it leaves no less.
pub proof fn lemma_current_escrow_not_below_legacy(
    gross: int,
    recv_fee: int,
    ack_fee: int,
    timeout_fee: int,
)
    requires
        recv_fee >= 0,
        ack_fee >= 0,
        timeout_fee >= 0,
    ensures
        legacy_escrow(gross, recv_fee, ack_fee, timeout_fee) <= current_escrow(
            gross,
            recv_fee,
            ack_fee,
            timeout_fee,
        ) <= gross,
{
}

/// The two balances that a wallet holding `gross` may be left with after
/// escrowing the given fees. Fails exactly when the fees exceed `gross`,
/// naming the operands of the operation that cannot be carried out.
pub fn escrow_candidates(gross: u128, recv_fee: u128, ack_fee: u128, timeout_fee: u128) -> (r:
    Result<EscrowCandidates, EscrowError>)
    ensures
        r == escrow_candidates_of(gross, recv_fee, ack_fee, timeout_fee),
        r is Ok <==> recv_fee + ack_fee + timeout_fee <= gross,
{
    let delivery: Option<u128> = recv_fee.checked_add(ack_fee);
    let sum: Option<u128> = match delivery {
        Some(d) => d.checked_add(timeout_fee),
        None => None,
    };
    match (delivery, sum) {
        (Some(d), Some(s)) => {
            if gross < s {
                Err(EscrowError::SubtractionUnderflow { minuend: gross, subtrahend: s })
            } else {
                let deducted: u128 = if d >= timeout_fee {
                    d
                } else {
                    timeout_fee
                };
                Ok(EscrowCandidates { legacy: gross - s, current: gross - deducted })
            }
        },
        _ => Err(EscrowError::FeeSumOverflow { recv_fee, ack_fee, timeout_fee }),
    }
}

/// The verdict that `check_wallet_amount` owes for its arguments.
pub open spec fn wallet_amount_verdict(observed: Option<u128>, expected: u128) -> Attempt {
    match observed {
        None => Attempt::Failed(Failure::QueryFailed),
        Some(actual) => if actual == expected {
            Attempt::Succeeded
        } else {
            Attempt::Failed(Failure::Mismatch { actual, expected })
        },
    }
}

/// Judges one look at a wallet that should hold `expected`: `observed` is
/// the balance found, or `None` if the query failed. Succeeds exactly when
/// the balance equals the expected amount; every other look may be
/// repeated.
pub fn check_wallet_amount(observed: Option<u128>, expected: u128) -> (verdict: Attempt)
    ensures
        verdict == wallet_amount_verdict(observed, expected),
        verdict is Succeeded <==> observed == Some(expected),
        !(verdict is Aborted),
{
    match observed {
        None => Attempt::Failed(Failure::QueryFailed),
        Some(actual) => {
            if actual == expected {
                Attempt::Succeeded
            } else {
                Attempt::Failed(Failure::Mismatch { actual, expected })
            }
        },
    }
}

/// The verdict that `check_escrowed_amount_ics29` owes for its arguments.
pub open spec fn escrowed_amount_verdict(
    observed: Option<u128>,
    gross: u128,
    recv_fee: u128,
    ack_fee: u128,
    timeout_fee: u128,
) -> Attempt {
    match escrow_candidates_of(gross, recv_fee, ack_fee, timeout_fee) {
        Err(e) => Attempt::Aborted(e),
        Ok(candidates) => match observed {
            None => Attempt::Failed(Failure::QueryFailed),
            Some(actual) => if actual == candidates.legacy || actual == candidates.current {
                Attempt::Succeeded
            } else {
                Attempt::Failed(
                    Failure::EscrowMismatch {
                        actual,
                        legacy: candidates.legacy,
                        current: candidates.current,
                    },
                )
            },
        },
    }
}

/// Judges one look at a wallet that held `gross` and should have escrowed
/// packet fees: `observed` is the balance found, or `None` if the query
/// failed. Aborts, whatever was observed, exactly when the fees exceed
/// `gross`; otherwise succeeds exactly when the balance equals one of the
/// two escrow candidates.
pub fn check_escrowed_amount_ics29(
    observed: Option<u128>,
    gross: u128,
    recv_fee: u128,
    ack_fee: u128,
    timeout_fee: u128,
) -> (verdict: Attempt)
    ensures
        verdict == escrowed_amount_verdict(observed, gross, recv_fee, ack_fee, timeout_fee),
        verdict is Aborted <==> recv_fee + ack_fee + timeout_fee > gross,
        verdict is Succeeded <==> recv_fee + ack_fee + timeout_fee <= gross && observed is Some
            && (observed->Some_0 == legacy_escrow(
            gross as int,
            recv_fee as int,
            ack_fee as int,
            timeout_fee as int,
        ) || observed->Some_0 == current_escrow(
            gross as int,
            recv_fee as int,
            ack_fee as int,
            timeout_fee as int,
        )),
{
    match escrow_candidates(gross, recv_fee, ack_fee, timeout_fee) {
        Err(e) => Attempt::Aborted(e),
        Ok(candidates) => match observed {
            None => Attempt::Failed(Failure::QueryFailed),
            Some(actual) => {
                if actual == candidates.legacy || actual == candidates.current {
                    Attempt::Succeeded
                } else {
                    Attempt::Failed(
                        Failure::EscrowMismatch {
                            actual,
                            legacy: candidates.legacy,
                            current: candidates.current,
                        },
                    )
                }
            },
        },
    }
}

} // verus!
