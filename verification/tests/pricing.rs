use aiai_presale::error::PresaleError;
use aiai_presale::pricing::{
    checked_scale, supply_cap_for, tokens_for, MAX_CAP_DECIMALS, SUPPLY_CAP_UNITS,
};

#[test]
fn scale_of_zero_decimals_is_one() {
    assert_eq!(checked_scale(0), Some(1));
}

#[test]
fn scale_of_six_decimals_is_a_million() {
    assert_eq!(checked_scale(6), Some(1_000_000));
}

#[test]
fn scale_grows_up_to_thirty_eight_decimals() {
    assert_eq!(
        checked_scale(38),
        Some(100_000_000_000_000_000_000_000_000_000_000_000_000u128)
    );
}

#[test]
fn scale_of_thirty_nine_decimals_overflows() {
    assert_eq!(checked_scale(39), None);
    assert_eq!(checked_scale(255), None);
}

#[test]
fn supply_cap_units_are_fixed() {
    assert_eq!(SUPPLY_CAP_UNITS, 69_420_000);
}

#[test]
fn supply_cap_without_decimals_is_the_whole_units() {
    assert_eq!(supply_cap_for(0), Ok(69_420_000));
}

#[test]
fn supply_cap_with_six_decimals() {
    assert_eq!(supply_cap_for(6), Ok(69_420_000_000_000));
}

#[test]
fn supply_cap_with_nine_decimals() {
    assert_eq!(supply_cap_for(9), Ok(69_420_000_000_000_000));
}

#[test]
fn supply_cap_fits_up_to_eleven_decimals() {
    assert_eq!(MAX_CAP_DECIMALS, 11);
    assert_eq!(supply_cap_for(11), Ok(6_942_000_000_000_000_000));
    for decimals in 0..=11u8 {
        assert!(supply_cap_for(decimals).is_ok());
    }
}

#[test]
fn supply_cap_overflows_from_twelve_decimals() {
    for decimals in 12..=255u8 {
        assert_eq!(supply_cap_for(decimals), Err(PresaleError::MathOverflow));
    }
}

#[test]
fn tokens_of_the_reference_purchase() {
    assert_eq!(tokens_for(200_000_000, 6, 2_000_000), Ok(100_000_000));
}

#[test]
fn tokens_scale_with_the_precision() {
    assert_eq!(tokens_for(200_000_000, 0, 2_000_000), Ok(100));
    assert_eq!(tokens_for(200_000_000, 9, 2_000_000), Ok(100_000_000_000));
}

#[test]
fn tokens_round_down() {
    assert_eq!(tokens_for(10, 0, 3), Ok(3));
    assert_eq!(tokens_for(5, 1, 3), Ok(16));
    assert_eq!(tokens_for(1, 6, 3), Ok(333_333));
}

#[test]
fn tokens_that_round_to_zero_are_invalid() {
    assert_eq!(tokens_for(1, 0, 2), Err(PresaleError::InvalidLimits));
    assert_eq!(tokens_for(1_999_999, 0, 2_000_000), Err(PresaleError::InvalidLimits));
}

#[test]
fn tokens_of_no_payment_are_invalid() {
    assert_eq!(tokens_for(0, 6, 2_000_000), Err(PresaleError::InvalidLimits));
    assert_eq!(tokens_for(0, 255, 1), Err(PresaleError::InvalidLimits));
}

#[test]
fn tokens_at_price_zero_overflow() {
    assert_eq!(tokens_for(200_000_000, 6, 0), Err(PresaleError::MathOverflow));
    assert_eq!(tokens_for(0, 6, 0), Err(PresaleError::MathOverflow));
}

#[test]
fn tokens_beyond_sixty_four_bits_overflow() {
    assert_eq!(tokens_for(u64::MAX, 1, 1), Err(PresaleError::MathOverflow));
    assert_eq!(tokens_for(u64::MAX, 20, 1), Err(PresaleError::MathOverflow));
    assert_eq!(tokens_for(1, 20, 1), Err(PresaleError::MathOverflow));
    assert_eq!(tokens_for(1, 39, u64::MAX), Err(PresaleError::MathOverflow));
    assert_eq!(tokens_for(u64::MAX, 38, u64::MAX), Err(PresaleError::MathOverflow));
}

#[test]
fn tokens_up_to_sixty_four_bits_are_issued() {
    assert_eq!(tokens_for(u64::MAX, 0, 1), Ok(u64::MAX));
    assert_eq!(tokens_for(u64::MAX, 19, 10_000_000_000_000_000_000), Ok(u64::MAX));
    assert_eq!(tokens_for(1, 19, 1), Ok(10_000_000_000_000_000_000));
}

#[test]
fn tokens_use_a_wide_intermediate() {
    // 10^19 * 10^18 leaves 64 bits, the quotient does not.
    assert_eq!(
        tokens_for(10_000_000_000_000_000_000, 18, 10_000_000_000_000_000_000),
        Ok(1_000_000_000_000_000_000)
    );
}
