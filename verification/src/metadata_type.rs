//! The rules of a metadata cell: created with a fresh identity and a record
//! that decodes, updated without a change of its name, and destroyed by
//! whoever holds its lock.

use vstd::prelude::*;
use crate::error::Error;
use crate::helper::{
    check_group_input_witness_is_none_with_type, entity_action, group_data,
    group_input_witness_is_none, load_group_data, parse_entity_action, Action,
};
use crate::identity::{
    args_carry_digest, blake2b_256, carries_digest, out_point_digest, out_point_seed,
};
use crate::metadata::{metadata_decode, Metadata, MetadataView, METADATA_TYPE_ARGS_LEN};
use crate::transaction::{Source, Transaction, TransactionView};

verus! {

/// The metadata record in the entity's cell of a group: invalid data where
/// the group holds no such cell, else what decoding its data gives.
pub open spec fn metadata_record(tx: TransactionView, source: Source) -> Result<
    MetadataView,
    Error,
> {
    match group_data(tx, source) {
        Some(data) => metadata_decode(data),
        None => Err(Error::MetadataDataInvalid),
    }
}

/// Loads and decodes the metadata record in the entity's cell of a group.
pub fn load_metadata(tx: &Transaction, source: Source) -> (r: Result<Metadata, Error>)
    ensures
        match r {
            Ok(metadata) => metadata_record(tx@, source) == Ok::<MetadataView, Error>(metadata@),
            Err(e) => metadata_record(tx@, source) == Err::<MetadataView, Error>(e),
        },
{
    match load_group_data(tx, source) {
        Some(data) => Metadata::from_data(data.as_slice()),
        None => Err(Error::MetadataDataInvalid),
    }
}

/// The action of the transaction on the metadata cell.
pub open spec fn metadata_action(tx: TransactionView) -> Result<Action, Error> {
    match entity_action(tx) {
        Some(action) => Ok(action),
        None => Err(Error::MetadataCellsCountError),
    }
}

/// Classifies the transaction as an action on the metadata cell.
pub fn parse_metadata_action(tx: &Transaction) -> (r: Result<Action, Error>)
    ensures
        r == metadata_action(tx@),
{
    parse_entity_action(tx, Error::MetadataCellsCountError)
}

/// What the digest of a creation is taken of: the out point of the first
/// input.
pub open spec fn metadata_seed(tx: TransactionView) -> Seq<u8>
    recommends
        tx.inputs.len() > 0,
{
    out_point_seed(tx.inputs[0].previous_output)
}

/// Whether a transaction may create the metadata cell, given the digest that
/// its identity is to come from: the type arguments are the first 20 bytes
/// of the digest, and the new record decodes.
pub open spec fn creation_outcome(tx: TransactionView, digest: Seq<u8>) -> Result<(), Error> {
    if !carries_digest(tx.script.args, 0, METADATA_TYPE_ARGS_LEN as int, digest) {
        Err(Error::TypeArgsInvalid)
    } else {
        match metadata_record(tx, Source::Output) {
            Err(e) => Err(e),
            Ok(_) => Ok(()),
        }
    }
}

/// Judges the creation of the metadata cell against a digest.
pub fn check_creation(tx: &Transaction, digest: &[u8]) -> (r: Result<(), Error>)
    ensures
        r == creation_outcome(tx@, digest@),
{
    if !args_carry_digest(tx.script.args.as_slice(), 0, METADATA_TYPE_ARGS_LEN, digest) {
        return Err(Error::TypeArgsInvalid);
    }
    let _metadata = load_metadata(tx, Source::Output)?;
    Ok(())
}

/// Judges the creation of the metadata cell: derives the digest from the
/// first input and holds the transaction against it. Fails where the
/// transaction has no input.
pub fn handle_creation(tx: &Transaction) -> (r: Result<(), Error>)
    ensures
        r == if tx@.inputs.len() == 0 {
            Err::<(), Error>(Error::IndexOutOfBound)
        } else {
            creation_outcome(tx@, blake2b_256(metadata_seed(tx@)))
        },
{
    if tx.inputs.len() == 0 {
        return Err(Error::IndexOutOfBound);
    }
    let digest = out_point_digest(&tx.inputs[0].previous_output);
    check_creation(tx, digest.as_slice())
}

/// What an update may do to the record: anything but change its name.
pub open spec fn update_rule(input: MetadataView, output: MetadataView) -> Result<(), Error> {
    if !input.immutable_equal(output) {
        Err(Error::MetadataImmutableFieldsNotSame)
    } else {
        Ok(())
    }
}

/// Whether a transaction may update the metadata cell: a proof for the lock
/// accompanies it, both records decode, and the name stays.
pub open spec fn update_outcome(tx: TransactionView) -> Result<(), Error> {
    match group_input_witness_is_none(tx, tx.script) {
        Err(e) => Err(e),
        Ok(true) => Err(Error::GroupInputWitnessNoneError),
        Ok(false) => match metadata_record(tx, Source::Input) {
            Err(e) => Err(e),
            Ok(input) => match metadata_record(tx, Source::Output) {
                Err(e) => Err(e),
                Ok(output) => update_rule(input, output),
            },
        },
    }
}

/// Judges an update of the metadata cell.
pub fn handle_update(tx: &Transaction) -> (r: Result<(), Error>)
    ensures
        r == update_outcome(tx@),
{
    if check_group_input_witness_is_none_with_type(tx, &tx.script)? {
        return Err(Error::GroupInputWitnessNoneError);
    }
    let input_metadata = load_metadata(tx, Source::Input)?;
    let output_metadata = load_metadata(tx, Source::Output)?;
    if !input_metadata.immutable_equal(&output_metadata) {
        return Err(Error::MetadataImmutableFieldsNotSame);
    }
    Ok(())
}

/// Whether a transaction may destroy the metadata cell: a proof for the lock
/// accompanies it.
pub open spec fn destroy_outcome(tx: TransactionView) -> Result<(), Error> {
    match group_input_witness_is_none(tx, tx.script) {
        Err(e) => Err(e),
        Ok(true) => Err(Error::GroupInputWitnessNoneError),
        Ok(false) => Ok(()),
    }
}

/// Judges the destruction of the metadata cell.
pub fn handle_destroying(tx: &Transaction) -> (r: Result<(), Error>)
    ensures
        r == destroy_outcome(tx@),
{
    if check_group_input_witness_is_none_with_type(tx, &tx.script)? {
        return Err(Error::GroupInputWitnessNoneError);
    }
    Ok(())
}

/// The verdict on a transaction, given the digest that a creation is held
/// against: the type arguments are 20 bytes long, the transaction is one
/// action on the metadata cell, and the rule of that action is met.
pub open spec fn verdict(tx: TransactionView, digest: Seq<u8>) -> Result<(), Error> {
    if tx.script.args.len() != METADATA_TYPE_ARGS_LEN {
        Err(Error::TypeArgsInvalid)
    } else {
        match metadata_action(tx) {
            Err(e) => Err(e),
            Ok(Action::Create) => if tx.inputs.len() == 0 {
                Err(Error::IndexOutOfBound)
            } else {
                creation_outcome(tx, digest)
            },
            Ok(Action::Update) => update_outcome(tx),
            Ok(Action::Destroy) => destroy_outcome(tx),
        }
    }
}

/// Validates a transaction for the metadata cell whose type script is being
/// run.
pub fn validate(tx: &Transaction) -> (r: Result<(), Error>)
    ensures
        r == verdict(tx@, blake2b_256(metadata_seed(tx@))),
{
    if tx.script.args.len() != METADATA_TYPE_ARGS_LEN {
        return Err(Error::TypeArgsInvalid);
    }
    match parse_metadata_action(tx)? {
        Action::Create => handle_creation(tx),
        Action::Update => handle_update(tx),
        Action::Destroy => handle_destroying(tx),
    }
}

/// An update that changes the name is rejected, whatever else the
/// transaction holds.
pub proof fn update_rejects_new_name(tx: TransactionView, digest: Seq<u8>)
    requires
        metadata_action(tx) == Ok::<Action, Error>(Action::Update),
        metadata_record(tx, Source::Input) is Ok,
        metadata_record(tx, Source::Output) is Ok,
        metadata_record(tx, Source::Input)->Ok_0.name != metadata_record(
            tx,
            Source::Output,
        )->Ok_0.name,
    ensures
        update_outcome(tx) is Err,
        verdict(tx, digest) is Err,
{
}

/// An update that keeps the name is accepted, whatever it does to the data,
/// where a proof for the lock accompanies it and both records decode.
pub proof fn update_accepts_new_data(tx: TransactionView, digest: Seq<u8>)
    requires
        tx.script.args.len() == METADATA_TYPE_ARGS_LEN,
        metadata_action(tx) == Ok::<Action, Error>(Action::Update),
        group_input_witness_is_none(tx, tx.script) == Ok::<bool, Error>(false),
        metadata_record(tx, Source::Input) is Ok,
        metadata_record(tx, Source::Output) is Ok,
        metadata_record(tx, Source::Input)->Ok_0.name == metadata_record(
            tx,
            Source::Output,
        )->Ok_0.name,
    ensures
        verdict(tx, digest) == Ok::<(), Error>(()),
{
}

/// A change without a proof for the lock is rejected for that reason, before
/// any record is read: neither update nor destruction gets further.
pub proof fn change_needs_lock_proof(tx: TransactionView)
    requires
        group_input_witness_is_none(tx, tx.script) == Ok::<bool, Error>(true),
    ensures
        update_outcome(tx) == Err::<(), Error>(Error::GroupInputWitnessNoneError),
        destroy_outcome(tx) == Err::<(), Error>(Error::GroupInputWitnessNoneError),
{
}

} // verus!
