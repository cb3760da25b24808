//! The rules of the issuer: created with a fresh identity and no class to
//! its name, updated without ever losing count of its classes, and destroyed
//! only when it has none.

use vstd::prelude::*;
use crate::error::Error;
use crate::helper::{
    check_group_input_witness_is_none_with_type, entity_action, group_data,
    group_input_witness_is_none, load_group_data, parse_entity_action, Action,
};
use crate::identity::{
    args_carry_digest, blake2b_256, carries_digest, out_point_digest, out_point_seed,
};
use crate::issuer::{issuer_decode, Issuer, ISSUER_TYPE_ARGS_LEN};
use crate::transaction::{Source, Transaction, TransactionView};

verus! {

/// The issuer record in the entity's cell of a group: invalid data where the
/// group holds no such cell, else what decoding its data gives.
pub open spec fn issuer_record(tx: TransactionView, source: Source) -> Result<Issuer, Error> {
    match group_data(tx, source) {
        Some(data) => issuer_decode(data),
        None => Err(Error::IssuerDataInvalid),
    }
}

/// Loads and decodes the issuer record in the entity's cell of a group.
pub fn load_issuer(tx: &Transaction, source: Source) -> (r: Result<Issuer, Error>)
    ensures
        r == issuer_record(tx@, source),
{
    match load_group_data(tx, source) {
        Some(data) => Issuer::from_data(data.as_slice()),
        None => Err(Error::IssuerDataInvalid),
    }
}

/// The action of the transaction on the issuer.
pub open spec fn issuer_action(tx: TransactionView) -> Result<Action, Error> {
    match entity_action(tx) {
        Some(action) => Ok(action),
        None => Err(Error::IssuerCellsCountError),
    }
}

/// Classifies the transaction as an action on the issuer.
pub fn parse_issuer_action(tx: &Transaction) -> (r: Result<Action, Error>)
    ensures
        r == issuer_action(tx@),
{
    parse_entity_action(tx, Error::IssuerCellsCountError)
}

/// What the digest of a creation is taken of: the out point of the first
/// input.
pub open spec fn issuer_seed(tx: TransactionView) -> Seq<u8>
    recommends
        tx.inputs.len() > 0,
{
    out_point_seed(tx.inputs[0].previous_output)
}

/// Whether a transaction may create the issuer, given the digest that its
/// identity is to come from: the type arguments are the first 20 bytes of
/// the digest, and the new record counts no class.
pub open spec fn creation_outcome(tx: TransactionView, digest: Seq<u8>) -> Result<(), Error> {
    if !carries_digest(tx.script.args, 0, ISSUER_TYPE_ARGS_LEN as int, digest) {
        Err(Error::TypeArgsInvalid)
    } else {
        match issuer_record(tx, Source::Output) {
            Err(e) => Err(e),
            Ok(issuer) => if issuer.class_count != 0 {
                Err(Error::IssuerClassCountError)
            } else {
                Ok(())
            },
        }
    }
}

/// Judges the creation of the issuer against a digest.
pub fn check_creation(tx: &Transaction, digest: &[u8]) -> (r: Result<(), Error>)
    ensures
        r == creation_outcome(tx@, digest@),
{
    if !args_carry_digest(tx.script.args.as_slice(), 0, ISSUER_TYPE_ARGS_LEN, digest) {
        return Err(Error::TypeArgsInvalid);
    }
    let issuer = load_issuer(tx, Source::Output)?;
    if issuer.class_count != 0 {
        return Err(Error::IssuerClassCountError);
    }
    Ok(())
}

/// Judges the creation of the issuer: derives the digest from the first
/// input and holds the transaction against it. Fails where the transaction
/// has no input.
pub fn handle_creation(tx: &Transaction) -> (r: Result<(), Error>)
    ensures
        r == if tx@.inputs.len() == 0 {
            Err::<(), Error>(Error::IndexOutOfBound)
        } else {
            creation_outcome(tx@, blake2b_256(issuer_seed(tx@)))
        },
{
    if tx.inputs.len() == 0 {
        return Err(Error::IndexOutOfBound);
    }
    let digest = out_point_digest(&tx.inputs[0].previous_output);
    check_creation(tx, digest.as_slice())
}

/// What an update may do to the record: anything but lower the count of
/// classes.
pub open spec fn update_rule(input: Issuer, output: Issuer) -> Result<(), Error> {
    if output.class_count < input.class_count {
        Err(Error::IssuerClassCountError)
    } else {
        Ok(())
    }
}

/// Whether a transaction may update the issuer: a proof for the lock
/// accompanies it, both records decode, and the count of classes does not
/// go down.
pub open spec fn update_outcome(tx: TransactionView) -> Result<(), Error> {
    match group_input_witness_is_none(tx, tx.script) {
        Err(e) => Err(e),
        Ok(true) => Err(Error::GroupInputWitnessNoneError),
        Ok(false) => match issuer_record(tx, Source::Input) {
            Err(e) => Err(e),
            Ok(input) => match issuer_record(tx, Source::Output) {
                Err(e) => Err(e),
                Ok(output) => update_rule(input, output),
            },
        },
    }
}

/// Judges an update of the issuer.
pub fn handle_update(tx: &Transaction) -> (r: Result<(), Error>)
    ensures
        r == update_outcome(tx@),
{
    if check_group_input_witness_is_none_with_type(tx, &tx.script)? {
        return Err(Error::GroupInputWitnessNoneError);
    }
    let input_issuer = load_issuer(tx, Source::Input)?;
    let output_issuer = load_issuer(tx, Source::Output)?;
    if output_issuer.class_count < input_issuer.class_count {
        return Err(Error::IssuerClassCountError);
    }
    Ok(())
}

/// Whether a transaction may destroy the issuer: a proof for the lock
/// accompanies it, the record decodes, and it counts no class.
pub open spec fn destroy_outcome(tx: TransactionView) -> Result<(), Error> {
    match group_input_witness_is_none(tx, tx.script) {
        Err(e) => Err(e),
        Ok(true) => Err(Error::GroupInputWitnessNoneError),
        Ok(false) => match issuer_record(tx, Source::Input) {
            Err(e) => Err(e),
            Ok(input) => if input.class_count != 0 {
                Err(Error::IssuerCellCannotDestroyed)
            } else {
                Ok(())
            },
        },
    }
}

/// Judges the destruction of the issuer.
pub fn handle_destroying(tx: &Transaction) -> (r: Result<(), Error>)
    ensures
        r == destroy_outcome(tx@),
{
    if check_group_input_witness_is_none_with_type(tx, &tx.script)? {
        return Err(Error::GroupInputWitnessNoneError);
    }
    let input_issuer = load_issuer(tx, Source::Input)?;
    if input_issuer.class_count != 0 {
        return Err(Error::IssuerCellCannotDestroyed);
    }
    Ok(())
}

/// The verdict on a transaction, given the digest that a creation is held
/// against: the type arguments are 20 bytes long, the transaction is one
/// action on the issuer, and the rule of that action is met.
pub open spec fn verdict(tx: TransactionView, digest: Seq<u8>) -> Result<(), Error> {
    if tx.script.args.len() != ISSUER_TYPE_ARGS_LEN {
        Err(Error::TypeArgsInvalid)
    } else {
        match issuer_action(tx) {
            Err(e) => Err(e),
            Ok(Action::Create) => if tx.inputs.len() == 0 {
                Err(Error::IndexOutOfBound)
            } else {
                creation_outcome(tx, digest)
            },
            Ok(Action::Update) => update_outcome(tx),
            Ok(Action::Destroy) => destroy_outcome(tx),
        }
    }
}

/// Validates a transaction for the issuer whose type script is being run.
pub fn validate(tx: &Transaction) -> (r: Result<(), Error>)
    ensures
        r == verdict(tx@, blake2b_256(issuer_seed(tx@))),
{
    if tx.script.args.len() != ISSUER_TYPE_ARGS_LEN {
        return Err(Error::TypeArgsInvalid);
    }
    match parse_issuer_action(tx)? {
        Action::Create => handle_creation(tx),
        Action::Update => handle_update(tx),
        Action::Destroy => handle_destroying(tx),
    }
}

/// An accepted update never lowers the count of classes: both records
/// decode, and the new count is at least the old one.
pub proof fn update_keeps_count(tx: TransactionView)
    requires
        update_outcome(tx) is Ok,
    ensures
        issuer_record(tx, Source::Input) is Ok,
        issuer_record(tx, Source::Output) is Ok,
        issuer_record(tx, Source::Input)->Ok_0.class_count <= issuer_record(
            tx,
            Source::Output,
        )->Ok_0.class_count,
{
}

/// An update that lowers the count of classes is rejected, whatever else the
/// transaction holds.
pub proof fn update_rejects_lower_count(tx: TransactionView, digest: Seq<u8>)
    requires
        issuer_action(tx) == Ok::<Action, Error>(Action::Update),
        issuer_record(tx, Source::Input) is Ok,
        issuer_record(tx, Source::Output) is Ok,
        issuer_record(tx, Source::Output)->Ok_0.class_count < issuer_record(
            tx,
            Source::Input,
        )->Ok_0.class_count,
    ensures
        update_outcome(tx) is Err,
        verdict(tx, digest) is Err,
{
}

/// An update that leaves the count of classes as it is, or raises it, is
/// accepted where a proof for the lock accompanies it and both records
/// decode.
pub proof fn update_accepts_growing_count(tx: TransactionView, digest: Seq<u8>)
    requires
        tx.script.args.len() == ISSUER_TYPE_ARGS_LEN,
        issuer_action(tx) == Ok::<Action, Error>(Action::Update),
        group_input_witness_is_none(tx, tx.script) == Ok::<bool, Error>(false),
        issuer_record(tx, Source::Input) is Ok,
        issuer_record(tx, Source::Output) is Ok,
        issuer_record(tx, Source::Input)->Ok_0.class_count <= issuer_record(
            tx,
            Source::Output,
        )->Ok_0.class_count,
    ensures
        verdict(tx, digest) == Ok::<(), Error>(()),
{
}

/// An issuer that counts a class cannot be destroyed: a transaction that
/// takes its cell away and puts none back is rejected.
pub proof fn issuer_with_classes_stays(tx: TransactionView, digest: Seq<u8>)
    requires
        issuer_action(tx) == Ok::<Action, Error>(Action::Destroy),
        issuer_record(tx, Source::Input) is Ok,
        issuer_record(tx, Source::Input)->Ok_0.class_count > 0,
    ensures
        destroy_outcome(tx) is Err,
        verdict(tx, digest) is Err,
{
}

/// An accepted destruction found an issuer without classes.
pub proof fn destroyed_issuer_had_no_class(tx: TransactionView)
    requires
        destroy_outcome(tx) is Ok,
    ensures
        issuer_record(tx, Source::Input) is Ok,
        issuer_record(tx, Source::Input)->Ok_0.class_count == 0,
{
}

/// A change without a proof for the lock is rejected for that reason, before
/// any record is read: neither update nor destruction gets further.
pub proof fn change_needs_lock_proof(tx: TransactionView)
    requires
        group_input_witness_is_none(tx, tx.script) == Ok::<bool, Error>(true),
    ensures
        update_outcome(tx) == Err::<(), Error>(Error::GroupInputWitnessNoneError),
        destroy_outcome(tx) == Err::<(), Error>(Error::GroupInputWitnessNoneError),
{
}

} // verus!
