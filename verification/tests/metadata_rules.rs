use nft_scripts::error::Error;
use nft_scripts::helper::Action;
use nft_scripts::identity::out_point_digest;
use nft_scripts::metadata_type::{
    check_creation, handle_creation, handle_destroying, handle_update, load_metadata,
    parse_metadata_action, validate,
};
use nft_scripts::transaction::{
    Cell, CellInput, OutPoint, Script, Source, Transaction, WitnessArgs,
};

fn owner() -> Script {
    Script { code_hash: vec![9; 32], hash_type: 1, args: vec![1; 20] }
}

fn funding() -> OutPoint {
    OutPoint { tx_hash: vec![0x42; 32], index: 0x0102_0304 }
}

fn metadata_type() -> Script {
    let digest = out_point_digest(&funding());
    Script { code_hash: vec![3; 32], hash_type: 1, args: digest[0..20].to_vec() }
}

fn metadata_data(name: &[u8], data: &[u8]) -> Vec<u8> {
    let mut out = vec![0, name.len() as u8];
    out.extend_from_slice(name);
    out.extend_from_slice(&[0, data.len() as u8]);
    out.extend_from_slice(data);
    out
}

fn cell(type_script: Option<Script>, data: Vec<u8>) -> Cell {
    Cell {
        capacity: 1000,
        occupied_capacity: 100,
        lock: owner(),
        type_script,
        type_hash: None,
        data,
    }
}

fn signed() -> Option<WitnessArgs> {
    Some(WitnessArgs { lock: Some(vec![0xaa; 65]) })
}

fn input(cell: Cell, witness: Option<WitnessArgs>) -> CellInput {
    CellInput { previous_output: funding(), cell, witness }
}

fn creation(data: Vec<u8>) -> Transaction {
    Transaction {
        script: metadata_type(),
        inputs: vec![input(cell(None, vec![]), signed())],
        outputs: vec![cell(Some(metadata_type()), data)],
        cell_deps: vec![],
    }
}

fn update(before: Vec<u8>, after: Vec<u8>, witness: Option<WitnessArgs>) -> Transaction {
    Transaction {
        script: metadata_type(),
        inputs: vec![input(cell(Some(metadata_type()), before), witness)],
        outputs: vec![cell(Some(metadata_type()), after)],
        cell_deps: vec![],
    }
}

fn destruction(witness: Option<WitnessArgs>) -> Transaction {
    Transaction {
        script: metadata_type(),
        inputs: vec![input(cell(Some(metadata_type()), metadata_data(b"n", b"d")), witness)],
        outputs: vec![],
        cell_deps: vec![],
    }
}

#[test]
fn metadata_is_created_with_a_fresh_identity() {
    let tx = creation(metadata_data(b"name", b"data"));
    assert_eq!(parse_metadata_action(&tx), Ok(Action::Create));
    assert_eq!(handle_creation(&tx), Ok(()));
    assert_eq!(validate(&tx), Ok(()));
    assert_eq!(check_creation(&tx, &out_point_digest(&funding())), Ok(()));
}

#[test]
fn metadata_identity_must_come_from_the_first_input() {
    let mut tx = creation(metadata_data(b"name", b"data"));
    tx.inputs[0].previous_output.index = 0x0403_0201;
    assert_eq!(validate(&tx), Err(Error::TypeArgsInvalid));
    assert_eq!(check_creation(&tx, &[1u8; 32]), Err(Error::TypeArgsInvalid));
}

#[test]
fn metadata_creation_needs_a_record_that_decodes() {
    assert_eq!(validate(&creation(vec![0, 0, 0])), Err(Error::MetadataDataInvalid));
    assert_eq!(validate(&creation(vec![0, 1, 7, 0, 1])), Err(Error::MetadataDataInvalid));
    assert_eq!(validate(&creation(vec![0, 0, 0, 0])), Ok(()));
}

#[test]
fn metadata_creation_needs_an_input() {
    let mut tx = creation(metadata_data(b"name", b"data"));
    tx.inputs.clear();
    assert_eq!(validate(&tx), Err(Error::IndexOutOfBound));
}

#[test]
fn metadata_arguments_are_twenty_bytes() {
    let mut tx = creation(metadata_data(b"name", b"data"));
    tx.script.args.pop();
    assert_eq!(validate(&tx), Err(Error::TypeArgsInvalid));
}

#[test]
fn metadata_cells_are_counted() {
    let mut tx = creation(metadata_data(b"name", b"data"));
    tx.outputs.push(cell(Some(metadata_type()), metadata_data(b"name", b"data")));
    assert_eq!(validate(&tx), Err(Error::MetadataCellsCountError));
    assert_eq!(parse_metadata_action(&tx), Err(Error::MetadataCellsCountError));
}

#[test]
fn metadata_data_may_change() {
    let tx = update(metadata_data(b"name", b"old"), metadata_data(b"name", b"newer"), signed());
    assert_eq!(parse_metadata_action(&tx), Ok(Action::Update));
    assert_eq!(handle_update(&tx), Ok(()));
    assert_eq!(validate(&tx), Ok(()));
}

#[test]
fn metadata_name_may_not_change() {
    let tx = update(metadata_data(b"name", b"data"), metadata_data(b"nome", b"data"), signed());
    assert_eq!(validate(&tx), Err(Error::MetadataImmutableFieldsNotSame));
    let tx = update(metadata_data(b"name", b"data"), metadata_data(b"", b"data"), signed());
    assert_eq!(validate(&tx), Err(Error::MetadataImmutableFieldsNotSame));
}

#[test]
fn metadata_update_needs_a_proof_for_the_lock() {
    let tx = update(metadata_data(b"name", b"old"), metadata_data(b"name", b"new"), None);
    assert_eq!(validate(&tx), Err(Error::GroupInputWitnessNoneError));
    let unsigned = Some(WitnessArgs { lock: None });
    let tx = update(metadata_data(b"name", b"old"), metadata_data(b"name", b"new"), unsigned);
    assert_eq!(validate(&tx), Err(Error::GroupInputWitnessNoneError));
}

#[test]
fn metadata_update_needs_records_that_decode() {
    let tx = update(vec![0, 9], metadata_data(b"name", b"new"), signed());
    assert_eq!(validate(&tx), Err(Error::MetadataDataInvalid));
    let tx = update(metadata_data(b"name", b"old"), vec![], signed());
    assert_eq!(validate(&tx), Err(Error::MetadataDataInvalid));
    assert_eq!(load_metadata(&tx, Source::Input).map(|m| m.name), Ok(b"name".to_vec()));
    assert_eq!(load_metadata(&tx, Source::CellDep).err(), Some(Error::MetadataDataInvalid));
}

#[test]
fn metadata_is_destroyed_by_its_owner() {
    assert_eq!(parse_metadata_action(&destruction(signed())), Ok(Action::Destroy));
    assert_eq!(handle_destroying(&destruction(signed())), Ok(()));
    assert_eq!(validate(&destruction(signed())), Ok(()));
    assert_eq!(validate(&destruction(None)), Err(Error::GroupInputWitnessNoneError));
}

#[test]
fn metadata_change_with_an_empty_proof_is_rejected() {
    let empty = Some(WitnessArgs { lock: Some(vec![]) });
    let tx = update(metadata_data(b"name", b"old"), metadata_data(b"name", b"new"), empty.clone());
    assert_eq!(validate(&tx), Err(Error::GroupInputWitnessNoneError));
    assert_eq!(handle_update(&tx), Err(Error::GroupInputWitnessNoneError));
    assert_eq!(validate(&destruction(empty.clone())), Err(Error::GroupInputWitnessNoneError));
    let tx = update(vec![], vec![], empty);
    assert_eq!(validate(&tx), Err(Error::GroupInputWitnessNoneError));
}
