use roloi_streams::account::AccountId;
use roloi_streams::errors::ContractError;
use roloi_streams::utils::{
    get_current_time_in_seconds, validate_and_generate_stream_end_date,
    validate_recipient_withdrawal_amount, validate_stream_creation_parameters,
};

#[test]
fn end_date_is_resolved_from_either_parameter() {
    assert_eq!(validate_and_generate_stream_end_date(Some(1300), None, 1000), Ok(1300));
    assert_eq!(validate_and_generate_stream_end_date(None, Some(300), 1000), Ok(1300));
    assert_eq!(validate_and_generate_stream_end_date(Some(1300), Some(5), 1000), Ok(1300));
}

#[test]
fn end_date_errors() {
    assert_eq!(
        validate_and_generate_stream_end_date(None, None, 1000),
        Err(ContractError::EndDateAndDurationAreEmpty)
    );
    assert_eq!(
        validate_and_generate_stream_end_date(Some(1299), None, 1000),
        Err(ContractError::StreamEndDateShouldBeLater)
    );
    assert_eq!(
        validate_and_generate_stream_end_date(None, Some(299), 1000),
        Err(ContractError::StreamDurationShouldBeGreater)
    );
}

#[test]
fn creation_parameters_are_checked_in_order() {
    let a = AccountId::from_bytes([1u8; 32]);
    let b = AccountId::from_bytes([2u8; 32]);
    assert_eq!(validate_stream_creation_parameters(a, b, 1), Ok(()));
    assert_eq!(
        validate_stream_creation_parameters(a, a, 0),
        Err(ContractError::RecipientCannotBePayer)
    );
    assert_eq!(
        validate_stream_creation_parameters(a, b, 0),
        Err(ContractError::EmptyFunds)
    );
}

#[test]
fn withdrawal_amount_of_zero_is_rejected() {
    assert_eq!(
        validate_recipient_withdrawal_amount(Some(0)),
        Err(ContractError::WithdrawalAmountShouldBeGreaterThanZero)
    );
    assert_eq!(validate_recipient_withdrawal_amount(Some(1)), Ok(()));
    assert_eq!(validate_recipient_withdrawal_amount(None), Ok(()));
}

#[test]
fn block_timestamp_is_truncated_to_seconds() {
    assert_eq!(get_current_time_in_seconds(0), 0);
    assert_eq!(get_current_time_in_seconds(1999), 1);
    assert_eq!(get_current_time_in_seconds(300_000), 300);
}

#[test]
fn account_bytes_round_trip() {
    let bytes = [9u8; 32];
    let account = AccountId::from_bytes(bytes);
    assert_eq!(account.to_bytes(), bytes);
    assert_eq!(account, AccountId::from_bytes([9u8; 32]));
    assert_ne!(account, AccountId::from_bytes([8u8; 32]));
}
