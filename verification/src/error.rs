//! The fatal conditions of the validators and their exit codes.

use vstd::prelude::*;
use ckb_std::error::SysError;

verus! {

/// The host's own error, as `ckb_std` reports it from a system call.
#[verifier::external_type_specification]
pub struct ExSysError(SysError);

/// A fatal condition. Each one ends the validation of the transaction.
#[derive(Debug, Clone, Copy, PartialEq, Eq, Structural)]
pub enum Error {
    IndexOutOfBound,
    ItemMissing,
    LengthNotEnough,
    Encoding,
    IssuerDataInvalid,
    IssuerCellsCountError,
    TypeArgsInvalid,
    IssuerClassCountError,
    IssuerCellCannotDestroyed,
    VersionInvalid,
    ClassDataInvalid,
    ClassTotalSmallerThanIssued,
    ClassCellsCountError,
    ClassIssuedInvalid,
    ClassImmutableFieldsNotSame,
    ClassCellCannotDestroyed,
    ClassIdIncreaseError,
    NFTDataInvalid,
    NFTCellsCountError,
    NFTDataNotSame,
    GroupInputWitnessNoneError,
    MetadataCellsCountError,
    MetadataImmutableFieldsNotSame,
    MetadataDataInvalid,
    MetadataIdIncreaseError,
    PaymentNotEnough,
    InvalidPaymentLockScript,
    NFTVersionNotSame,
    NFTVersionNotSameWithClass,
    CannotDecrementClassVersion,
}

impl Error {
    /// The exit code that stands for this condition: 1 to 30, one for each.
    pub open spec fn spec_code(self) -> int {
        match self {
            Error::IndexOutOfBound => 1,
            Error::ItemMissing => 2,
            Error::LengthNotEnough => 3,
            Error::Encoding => 4,
            Error::IssuerDataInvalid => 5,
            Error::IssuerCellsCountError => 6,
            Error::TypeArgsInvalid => 7,
            Error::IssuerClassCountError => 8,
            Error::IssuerCellCannotDestroyed => 9,
            Error::VersionInvalid => 10,
            Error::ClassDataInvalid => 11,
            Error::ClassTotalSmallerThanIssued => 12,
            Error::ClassCellsCountError => 13,
            Error::ClassIssuedInvalid => 14,
            Error::ClassImmutableFieldsNotSame => 15,
            Error::ClassCellCannotDestroyed => 16,
            Error::ClassIdIncreaseError => 17,
            Error::NFTDataInvalid => 18,
            Error::NFTCellsCountError => 19,
            Error::NFTDataNotSame => 20,
            Error::GroupInputWitnessNoneError => 21,
            Error::MetadataCellsCountError => 22,
            Error::MetadataImmutableFieldsNotSame => 23,
            Error::MetadataDataInvalid => 24,
            Error::MetadataIdIncreaseError => 25,
            Error::PaymentNotEnough => 26,
            Error::InvalidPaymentLockScript => 27,
            Error::NFTVersionNotSame => 28,
            Error::NFTVersionNotSameWithClass => 29,
            Error::CannotDecrementClassVersion => 30,
        }
    }

    /// The exit code of this condition.
    pub fn code(&self) -> (c: i8)
        ensures
            c == self.spec_code(),
            1 <= c <= 30,
    {
        match self {
            Error::IndexOutOfBound => 1,
            Error::ItemMissing => 2,
            Error::LengthNotEnough => 3,
            Error::Encoding => 4,
            Error::IssuerDataInvalid => 5,
            Error::IssuerCellsCountError => 6,
            Error::TypeArgsInvalid => 7,
            Error::IssuerClassCountError => 8,
            Error::IssuerCellCannotDestroyed => 9,
            Error::VersionInvalid => 10,
            Error::ClassDataInvalid => 11,
            Error::ClassTotalSmallerThanIssued => 12,
            Error::ClassCellsCountError => 13,
            Error::ClassIssuedInvalid => 14,
            Error::ClassImmutableFieldsNotSame => 15,
            Error::ClassCellCannotDestroyed => 16,
            Error::ClassIdIncreaseError => 17,
            Error::NFTDataInvalid => 18,
            Error::NFTCellsCountError => 19,
            Error::NFTDataNotSame => 20,
            Error::GroupInputWitnessNoneError => 21,
            Error::MetadataCellsCountError => 22,
            Error::MetadataImmutableFieldsNotSame => 23,
            Error::MetadataDataInvalid => 24,
            Error::MetadataIdIncreaseError => 25,
            Error::PaymentNotEnough => 26,
            Error::InvalidPaymentLockScript => 27,
            Error::NFTVersionNotSame => 28,
            Error::NFTVersionNotSameWithClass => 29,
            Error::CannotDecrementClassVersion => 30,
        }
    }
}

/// The fatal condition that stands for an error of the host, where the
/// host's error is one of the four that a validator can meet.
pub open spec fn sys_error_condition(err: SysError) -> Option<Error> {
    match err {
        SysError::IndexOutOfBound => Some(Error::IndexOutOfBound),
        SysError::ItemMissing => Some(Error::ItemMissing),
        SysError::LengthNotEnough(_) => Some(Error::LengthNotEnough),
        SysError::Encoding => Some(Error::Encoding),
        _ => None,
    }
}

impl Error {
    /// Maps an error of the host to the fatal condition that stands for it.
    /// `None` for the errors that no load of transaction data gives: a
    /// validator that meets one has no code to report.
    pub fn from_sys_error(err: SysError) -> (e: Option<Error>)
        ensures
            e == sys_error_condition(err),
    {
        match err {
            SysError::IndexOutOfBound => Some(Error::IndexOutOfBound),
            SysError::ItemMissing => Some(Error::ItemMissing),
            SysError::LengthNotEnough(_) => Some(Error::LengthNotEnough),
            SysError::Encoding => Some(Error::Encoding),
            _ => None,
        }
    }
}

/// The exit code of a validator: zero for an accepted transaction, else the
/// code of the fatal condition.
pub open spec fn spec_exit_code(verdict: Result<(), Error>) -> int {
    match verdict {
        Ok(_) => 0,
        Err(e) => e.spec_code(),
    }
}

/// The exit code that a validator hands to the host for its verdict.
pub fn exit_code(verdict: &Result<(), Error>) -> (code: i8)
    ensures
        code == spec_exit_code(*verdict),
        code == 0 <==> *verdict is Ok,
{
    match verdict {
        Ok(_) => 0,
        Err(e) => e.code(),
    }
}

} // verus!
