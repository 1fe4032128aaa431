use aiai_presale::error::{PresaleError, ERROR_CODE_OFFSET};

fn all_errors() -> Vec<PresaleError> {
    vec![
        PresaleError::MathOverflow,
        PresaleError::Unauthorized,
        PresaleError::InvalidLimits,
        PresaleError::MintAuthorityNotSet,
        PresaleError::FreezeAuthorityNotSet,
        PresaleError::BelowMin,
        PresaleError::AboveMax,
        PresaleError::NotMultiple,
        PresaleError::ExceedsSupplyCap,
    ]
}

#[test]
fn error_codes_count_from_the_offset_in_declaration_order() {
    assert_eq!(ERROR_CODE_OFFSET, 6000);
    for (position, error) in all_errors().iter().enumerate() {
        assert_eq!(error.code(), 6000 + position as u32);
    }
}

#[test]
fn error_codes_are_distinct() {
    let errors = all_errors();
    for a in errors.iter() {
        for b in errors.iter() {
            assert_eq!(a.code() == b.code(), a == b);
        }
    }
}

#[test]
fn error_messages_name_the_condition() {
    assert_eq!(PresaleError::MathOverflow.message(), "Math overflow");
    assert_eq!(PresaleError::Unauthorized.message(), "Unauthorized");
    assert_eq!(PresaleError::InvalidLimits.message(), "Invalid min/max limits");
    assert_eq!(PresaleError::MintAuthorityNotSet.message(), "Mint authority not set to PDA");
    assert_eq!(PresaleError::FreezeAuthorityNotSet.message(), "Freeze authority not set to PDA");
    assert_eq!(PresaleError::BelowMin.message(), "Amount below min");
    assert_eq!(PresaleError::AboveMax.message(), "Amount above max");
    assert_eq!(PresaleError::NotMultiple.message(), "Amount not a multiple of price");
    assert_eq!(PresaleError::ExceedsSupplyCap.message(), "Supply cap exceeded");
}
