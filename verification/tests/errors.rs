use ckb_std::error::SysError;
use nft_scripts::error::{exit_code, Error};

fn all_errors() -> Vec<Error> {
    vec![
        Error::IndexOutOfBound,
        Error::ItemMissing,
        Error::LengthNotEnough,
        Error::Encoding,
        Error::IssuerDataInvalid,
        Error::IssuerCellsCountError,
        Error::TypeArgsInvalid,
        Error::IssuerClassCountError,
        Error::IssuerCellCannotDestroyed,
        Error::VersionInvalid,
        Error::ClassDataInvalid,
        Error::ClassTotalSmallerThanIssued,
        Error::ClassCellsCountError,
        Error::ClassIssuedInvalid,
        Error::ClassImmutableFieldsNotSame,
        Error::ClassCellCannotDestroyed,
        Error::ClassIdIncreaseError,
        Error::NFTDataInvalid,
        Error::NFTCellsCountError,
        Error::NFTDataNotSame,
        Error::GroupInputWitnessNoneError,
        Error::MetadataCellsCountError,
        Error::MetadataImmutableFieldsNotSame,
        Error::MetadataDataInvalid,
        Error::MetadataIdIncreaseError,
        Error::PaymentNotEnough,
        Error::InvalidPaymentLockScript,
        Error::NFTVersionNotSame,
        Error::NFTVersionNotSameWithClass,
        Error::CannotDecrementClassVersion,
    ]
}

#[test]
fn codes_run_from_one_to_thirty() {
    let errors = all_errors();
    assert_eq!(errors.len(), 30);
    for (place, error) in errors.iter().enumerate() {
        assert_eq!(error.code() as usize, place + 1);
    }
}

#[test]
fn named_codes() {
    assert_eq!(Error::IndexOutOfBound.code(), 1);
    assert_eq!(Error::IssuerDataInvalid.code(), 5);
    assert_eq!(Error::VersionInvalid.code(), 10);
    assert_eq!(Error::ClassImmutableFieldsNotSame.code(), 15);
    assert_eq!(Error::NFTDataNotSame.code(), 20);
    assert_eq!(Error::MetadataIdIncreaseError.code(), 25);
    assert_eq!(Error::CannotDecrementClassVersion.code(), 30);
}

#[test]
fn exit_code_is_zero_for_acceptance_only() {
    assert_eq!(exit_code(&Ok(())), 0);
    for error in all_errors() {
        let code = exit_code(&Err(error));
        assert_eq!(code, error.code());
        assert!(code != 0);
    }
}

#[test]
fn host_errors_keep_their_meaning() {
    assert_eq!(Error::from_sys_error(SysError::IndexOutOfBound), Some(Error::IndexOutOfBound));
    assert_eq!(Error::from_sys_error(SysError::ItemMissing), Some(Error::ItemMissing));
    assert_eq!(Error::from_sys_error(SysError::LengthNotEnough(64)), Some(Error::LengthNotEnough));
    assert_eq!(Error::from_sys_error(SysError::Encoding), Some(Error::Encoding));
}

#[test]
fn unknown_host_errors_have_no_code() {
    assert_eq!(Error::from_sys_error(SysError::Unknown(77)), None);
    assert_eq!(Error::from_sys_error(SysError::WaitFailure), None);
    assert_eq!(Error::from_sys_error(SysError::MaxFdsCreated), None);
}
