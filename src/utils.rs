use vstd::prelude::*;

use crate::account::AccountId;
use crate::errors::ContractError;
use crate::stream::STREAM_MINIMUM_DURATION;

verus! {

/// The end date that a creation request resolves to, or the error it gets:
/// an explicit end date wins over a duration, and either must leave the
/// stream at least the minimum duration.
pub open spec fn resolved_end_date(end_date: Option<u64>, duration: Option<u64>, start_date: u64) -> Result<
    u64,
    ContractError,
> {
    match end_date {
        Some(e) => if e < start_date + STREAM_MINIMUM_DURATION {
            Err(ContractError::StreamEndDateShouldBeLater)
        } else {
            Ok(e)
        },
        None => match duration {
            Some(d) => if d < STREAM_MINIMUM_DURATION {
                Err(ContractError::StreamDurationShouldBeGreater)
            } else {
                Ok((start_date + d) as u64)
            },
            None => Err(ContractError::EndDateAndDurationAreEmpty),
        },
    }
}

/// The date arithmetic of a creation request fits in 64 bits.
pub open spec fn end_date_fits(end_date: Option<u64>, duration: Option<u64>, start_date: u64) -> bool {
    match end_date {
        Some(_) => start_date + STREAM_MINIMUM_DURATION <= u64::MAX,
        None => match duration {
            Some(d) => d < STREAM_MINIMUM_DURATION || start_date + d <= u64::MAX,
            None => true,
        },
    }
}

/// Validates the date parameters of a creation request and gives the end
/// date of the stream.
pub fn validate_and_generate_stream_end_date(
    end_date: Option<u64>,
    duration: Option<u64>,
    start_date: u64,
) -> (r: Result<u64, ContractError>)
    requires
        end_date_fits(end_date, duration, start_date),
    ensures
        r == resolved_end_date(end_date, duration, start_date),
        r matches Ok(e) ==> e >= start_date + STREAM_MINIMUM_DURATION,
{
    match end_date {
        Some(end_date) => {
            validate_stream_end_date(start_date, end_date)?;
            Ok(end_date)
        },
        None => match duration {
            Some(duration) => {
                validate_stream_duration(duration)?;
                Ok(start_date + duration)
            },
            None => Err(ContractError::EndDateAndDurationAreEmpty),
        },
    }
}

/// Succeeds when `end_date` leaves at least the minimum duration after
/// `start_date`.
fn validate_stream_end_date(start_date: u64, end_date: u64) -> (r: Result<(), ContractError>)
    requires
        start_date + STREAM_MINIMUM_DURATION <= u64::MAX,
    ensures
        end_date >= start_date + STREAM_MINIMUM_DURATION ==> r is Ok,
        end_date < start_date + STREAM_MINIMUM_DURATION ==> r == Err::<(), ContractError>(
            ContractError::StreamEndDateShouldBeLater,
        ),
{
    if end_date < start_date + STREAM_MINIMUM_DURATION {
        return Err(ContractError::StreamEndDateShouldBeLater);
    }
    Ok(())
}

/// Succeeds when `duration` is at least the minimum duration.
fn validate_stream_duration(duration: u64) -> (r: Result<(), ContractError>)
    ensures
        duration >= STREAM_MINIMUM_DURATION ==> r is Ok,
        duration < STREAM_MINIMUM_DURATION ==> r == Err::<(), ContractError>(
            ContractError::StreamDurationShouldBeGreater,
        ),
{
    if duration < STREAM_MINIMUM_DURATION {
        return Err(ContractError::StreamDurationShouldBeGreater);
    }
    Ok(())
}

/// The error that the payer, recipient and funds of a creation request get,
/// if any: the payer cannot pay itself, and the funds must not be empty.
pub open spec fn creation_parameters_result(payer: AccountId, recipient: AccountId, funds: u128) -> Result<
    (),
    ContractError,
> {
    if payer == recipient {
        Err(ContractError::RecipientCannotBePayer)
    } else if funds == 0 {
        Err(ContractError::EmptyFunds)
    } else {
        Ok(())
    }
}

/// Validates the payer, the recipient and the funds of a creation request.
pub fn validate_stream_creation_parameters(
    payer: AccountId,
    recipient: AccountId,
    funds: u128,
) -> (r: Result<(), ContractError>)
    ensures
        r == creation_parameters_result(payer, recipient, funds),
{
    if payer == recipient {
        return Err(ContractError::RecipientCannotBePayer);
    }
    if funds == 0 {
        return Err(ContractError::EmptyFunds);
    }
    Ok(())
}

/// Rejects an explicit withdrawal amount of zero; no amount is accepted.
pub fn validate_recipient_withdrawal_amount(withdrawal_amount: Option<u128>) -> (r: Result<
    (),
    ContractError,
>)
    ensures
        withdrawal_amount == Some(0u128) ==> r == Err::<(), ContractError>(
            ContractError::WithdrawalAmountShouldBeGreaterThanZero,
        ),
        withdrawal_amount != Some(0u128) ==> r is Ok,
{
    if let Some(amount) = withdrawal_amount {
        if amount == 0 {
            return Err(ContractError::WithdrawalAmountShouldBeGreaterThanZero);
        }
    }
    Ok(())
}

/// The time in whole seconds of a block timestamp given in milliseconds.
pub fn get_current_time_in_seconds(block_timestamp: u64) -> (r: u64)
    ensures
        r == block_timestamp / 1000,
{
    block_timestamp / 1000
}

} // verus!
