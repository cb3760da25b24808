use nft_scripts::error::Error;
use nft_scripts::helper::{count_cells_by_type, Action};
use nft_scripts::identity::output_index_digest;
use nft_scripts::nft::Nft;
use nft_scripts::nft_type::{
    check_class_type, check_direct_creation, check_issuer_type, check_nft_type, check_payment,
    get_cell_output_index_by_type, handle_counter_creation, handle_creation,
    handle_destroying, handle_direct_creation,
    handle_update, load_class_counter, load_class_dep, load_nft_data, parse_nft_action,
    read_counter, validate, validate_counter_mint, validate_immutable_nft_fields, Deployment,
    MintPolicy, COUNTED_NFT_TYPE_ARGS_LEN, SHANNONS_PER_COIN,
};
use nft_scripts::transaction::{
    Cell, CellInput, OutPoint, Script, Source, Transaction, WitnessArgs,
};

const NFT_CODE: u8 = 2;
const CLASS_CODE: u8 = 0xef;
const COIN: u64 = 100_000_000;

fn owner() -> Script {
    Script { code_hash: vec![9; 32], hash_type: 1, args: vec![1; 20] }
}

fn payment_lock() -> Script {
    Script { code_hash: vec![0x9b; 32], hash_type: 1, args: vec![0xbe; 20] }
}

fn direct() -> Deployment {
    Deployment {
        class_code_hash: vec![CLASS_CODE; 32],
        class_hash_type: 1,
        policy: MintPolicy::DirectMint { payment_lock: payment_lock() },
    }
}

fn counted(counter_offset: usize) -> Deployment {
    Deployment {
        class_code_hash: vec![CLASS_CODE; 32],
        class_hash_type: 1,
        policy: MintPolicy::CounterMint { counter_offset },
    }
}

fn funding() -> OutPoint {
    OutPoint { tx_hash: (0u8..32).collect(), index: 0 }
}

fn class_args(issuer: u8, class_id: u32) -> Vec<u8> {
    let mut args = vec![issuer; 20];
    args.extend_from_slice(&class_id.to_be_bytes());
    args
}

fn class_type(issuer: u8, class_id: u32) -> Script {
    Script { code_hash: vec![CLASS_CODE; 32], hash_type: 1, args: class_args(issuer, class_id) }
}

fn class_data(cost: u64) -> Vec<u8> {
    let mut data = vec![0u8];
    data.extend_from_slice(&cost.to_be_bytes());
    data.extend_from_slice(&[0, 2, b'n', b'm', 0, 2, b'd', b's', 0, 0]);
    data
}

fn counted_class_data(counter: u32) -> Vec<u8> {
    let mut data = class_data(0);
    data.extend_from_slice(&counter.to_be_bytes());
    data
}

const COUNTER_OFFSET: usize = 19;

fn direct_nft_type(issuer: u8, class_id: u32, output_index: usize) -> Script {
    let mut args = class_args(issuer, class_id);
    args.extend_from_slice(&output_index_digest(&funding(), output_index));
    Script { code_hash: vec![NFT_CODE; 32], hash_type: 1, args }
}

fn counted_nft_type(issuer: u8, class_id: u32, token_id: u32) -> Script {
    let mut args = class_args(issuer, class_id);
    args.extend_from_slice(&token_id.to_be_bytes());
    Script { code_hash: vec![NFT_CODE; 32], hash_type: 1, args }
}

fn nft_data(content: &[u8]) -> Vec<u8> {
    let mut data = vec![0, 0, content.len() as u8];
    data.extend_from_slice(content);
    data
}

fn cell(lock: Script, type_script: Option<Script>, data: Vec<u8>) -> Cell {
    Cell { capacity: 500, occupied_capacity: 0, lock, type_script, type_hash: None, data }
}

fn nft_cell(type_script: Script, occupied_capacity: u64) -> Cell {
    let mut minted = cell(owner(), Some(type_script), nft_data(b"d"));
    minted.occupied_capacity = occupied_capacity;
    minted
}

fn payment_cell(capacity: u64) -> Cell {
    let mut paid = cell(payment_lock(), None, vec![]);
    paid.capacity = capacity;
    paid
}

fn signed() -> Option<WitnessArgs> {
    Some(WitnessArgs { lock: Some(vec![0xb6; 65]) })
}

fn input(cell: Cell, witness: Option<WitnessArgs>) -> CellInput {
    CellInput { previous_output: funding(), cell, witness }
}

fn direct_mint(paid: u64, occupied: u64) -> Transaction {
    Transaction {
        script: direct_nft_type(5, 8, 1),
        inputs: vec![input(cell(owner(), None, vec![]), signed())],
        outputs: vec![
            payment_cell(paid),
            nft_cell(direct_nft_type(5, 8, 1), occupied),
            nft_cell(direct_nft_type(5, 8, 2), occupied),
            nft_cell(direct_nft_type(5, 2, 3), occupied),
        ],
        cell_deps: vec![
            cell(owner(), None, vec![]),
            cell(owner(), Some(class_type(5, 8)), class_data(1000)),
            cell(owner(), Some(class_type(5, 2)), class_data(500)),
        ],
    }
}

fn running(mut tx: Transaction, output: usize) -> Transaction {
    tx.script = tx.outputs[output].type_script.clone().unwrap();
    tx
}

fn counter_mint(before: u32, after: u32, ids: &[u32]) -> Transaction {
    let mut outputs = vec![cell(owner(), Some(class_type(5, 8)), counted_class_data(after))];
    for id in ids {
        outputs.push(nft_cell(counted_nft_type(5, 8, *id), 0));
    }
    Transaction {
        script: counted_nft_type(5, 8, ids[0]),
        inputs: vec![input(cell(owner(), Some(class_type(5, 8)), counted_class_data(before)), signed())],
        outputs,
        cell_deps: vec![],
    }
}

fn update(before: Vec<u8>, after: Vec<u8>, witness: Option<WitnessArgs>) -> Transaction {
    let nft_type = direct_nft_type(5, 8, 0);
    Transaction {
        script: nft_type.clone(),
        inputs: vec![input(cell(owner(), Some(nft_type.clone()), before), witness)],
        outputs: vec![cell(owner(), Some(nft_type), after)],
        cell_deps: vec![],
    }
}

fn destruction(witness: Option<WitnessArgs>) -> Transaction {
    let nft_type = direct_nft_type(5, 8, 0);
    Transaction {
        script: nft_type.clone(),
        inputs: vec![input(cell(owner(), Some(nft_type), nft_data(b"d")), witness)],
        outputs: vec![],
        cell_deps: vec![],
    }
}

#[test]
fn direct_mint_of_three_tokens_is_accepted() {
    let tx = direct_mint(2400 * COIN, 161 * COIN);
    for output in 1..4 {
        let tx = running(tx.clone(), output);
        assert_eq!(parse_nft_action(&tx), Ok(Action::Create));
        assert_eq!(validate(&tx, &direct()), Ok(()), "token at output {}", output);
    }
}

#[test]
fn direct_mint_payment_boundary() {
    assert_eq!(SHANNONS_PER_COIN, COIN);
    let cost = 2500 * COIN;
    let occupied = 3 * 161 * COIN;
    assert_eq!(validate(&direct_mint(cost - occupied, 161 * COIN), &direct()), Ok(()));
    assert_eq!(
        validate(&direct_mint(cost - occupied - 1, 161 * COIN), &direct()),
        Err(Error::PaymentNotEnough)
    );
    assert_eq!(validate(&direct_mint(cost, 0), &direct()), Ok(()));
    assert_eq!(validate(&direct_mint(cost - 1, 0), &direct()), Err(Error::PaymentNotEnough));
    assert_eq!(validate(&direct_mint(0, 0), &direct()), Err(Error::PaymentNotEnough));
}

#[test]
fn direct_mint_is_paid_where_the_cells_occupy_more_than_the_cost() {
    assert_eq!(validate(&direct_mint(0, 1000 * COIN), &direct()), Ok(()));
    assert_eq!(validate(&direct_mint(0, u64::MAX), &direct()), Ok(()));
}

#[test]
fn direct_mint_with_the_dearest_class() {
    let mut tx = direct_mint(u64::MAX, u64::MAX);
    tx.cell_deps[1].data = class_data(u64::MAX);
    assert_eq!(validate(&tx, &direct()), Err(Error::PaymentNotEnough));
}

#[test]
fn direct_mint_needs_the_payment_cell() {
    let mut tx = direct_mint(2400 * COIN, 161 * COIN);
    tx.outputs[0].lock = owner();
    assert_eq!(validate(&tx, &direct()), Err(Error::InvalidPaymentLockScript));
    assert_eq!(check_payment(&tx, &direct(), &payment_lock()), Err(Error::InvalidPaymentLockScript));
}

#[test]
fn direct_mint_identity_comes_from_input_and_output_index() {
    let tx = direct_mint(2400 * COIN, 161 * COIN);
    let mut moved = tx.clone();
    moved.outputs.swap(1, 2);
    assert_eq!(validate(&moved, &direct()), Err(Error::TypeArgsInvalid));
    let mut other_input = tx.clone();
    other_input.inputs[0].previous_output.tx_hash[31] ^= 1;
    assert_eq!(validate(&other_input, &direct()), Err(Error::TypeArgsInvalid));
    let mut other_index = tx.clone();
    other_index.inputs[0].previous_output.index = 1;
    assert_eq!(validate(&other_index, &direct()), Ok(()));
}

#[test]
fn direct_mint_is_held_against_the_given_digest() {
    let tx = direct_mint(2400 * COIN, 161 * COIN);
    let digest = output_index_digest(&funding(), 1);
    assert_eq!(check_direct_creation(&tx, &direct(), &payment_lock(), &digest), Ok(()));
    assert_eq!(
        check_direct_creation(&tx, &direct(), &payment_lock(), &[0u8; 32]),
        Err(Error::TypeArgsInvalid)
    );
    assert_eq!(
        check_direct_creation(&tx, &direct(), &payment_lock(), &digest[0..31]),
        Err(Error::TypeArgsInvalid)
    );
    assert_eq!(get_cell_output_index_by_type(&tx, &tx.script), Ok(1));
    assert_eq!(get_cell_output_index_by_type(&tx, &owner()), Err(Error::Encoding));
}

#[test]
fn direct_mint_needs_an_input() {
    let mut tx = direct_mint(2400 * COIN, 161 * COIN);
    tx.inputs.clear();
    assert_eq!(validate(&tx, &direct()), Err(Error::IndexOutOfBound));
    assert_eq!(handle_creation(&tx, &direct()), Err(Error::IndexOutOfBound));
    assert_eq!(
        handle_direct_creation(&tx, &direct(), &payment_lock()),
        Err(Error::IndexOutOfBound)
    );
}

#[test]
fn direct_mint_needs_each_class_exactly_once() {
    let tx = direct_mint(2400 * COIN, 161 * COIN);
    let mut missing_own = tx.clone();
    missing_own.cell_deps.remove(1);
    assert_eq!(validate(&missing_own, &direct()), Err(Error::ClassCellsCountError));
    let mut missing_other = tx.clone();
    missing_other.cell_deps.remove(2);
    assert_eq!(validate(&missing_other, &direct()), Err(Error::ClassCellsCountError));
    let mut doubled = tx.clone();
    doubled.cell_deps.push(cell(owner(), Some(class_type(5, 2)), class_data(500)));
    assert_eq!(validate(&doubled, &direct()), Err(Error::ClassCellsCountError));
    assert_eq!(load_class_dep(&tx, &direct(), &tx.script.args).map(|class| class.cost), Ok(1000));
    assert_eq!(
        load_class_dep(&missing_own, &direct(), &tx.script.args).err(),
        Some(Error::ClassCellsCountError)
    );
}

#[test]
fn direct_mint_needs_records_that_decode() {
    let tx = direct_mint(2400 * COIN, 161 * COIN);
    let mut bad_nft = tx.clone();
    bad_nft.outputs[1].data = vec![0, 0];
    assert_eq!(validate(&bad_nft, &direct()), Err(Error::NFTDataInvalid));
    let mut versioned_nft = tx.clone();
    versioned_nft.outputs[1].data[0] = 1;
    assert_eq!(validate(&versioned_nft, &direct()), Err(Error::VersionInvalid));
    let mut bad_class = tx.clone();
    bad_class.cell_deps[1].data.truncate(14);
    assert_eq!(validate(&bad_class, &direct()), Err(Error::ClassDataInvalid));
    let mut versioned_class = tx.clone();
    versioned_class.cell_deps[2].data[0] = 1;
    assert_eq!(validate(&versioned_class, &direct()), Err(Error::VersionInvalid));
}

#[test]
fn direct_mint_bills_the_tokens_of_the_issuer_only() {
    let mut tx = direct_mint(1000 * COIN, 0);
    tx.outputs[2] = nft_cell(direct_nft_type(6, 8, 2), 0);
    tx.outputs[3] = nft_cell(direct_nft_type(6, 2, 3), 0);
    assert_eq!(validate(&tx, &direct()), Ok(()));
    tx.outputs[0].capacity = 1000 * COIN - 1;
    assert_eq!(validate(&tx, &direct()), Err(Error::PaymentNotEnough));
}

#[test]
fn token_arguments_have_the_length_of_the_policy() {
    let mut tx = direct_mint(2400 * COIN, 161 * COIN);
    tx.script.args.push(0);
    assert_eq!(validate(&tx, &direct()), Err(Error::TypeArgsInvalid));
    assert_eq!(validate(&direct_mint(2400 * COIN, 161 * COIN), &counted(0)), Err(Error::TypeArgsInvalid));
    assert_eq!(validate(&counter_mint(2, 4, &[2, 3]), &direct()), Err(Error::TypeArgsInvalid));
    assert_eq!(MintPolicy::DirectMint { payment_lock: payment_lock() }.nft_args_len(), 56);
    assert_eq!(MintPolicy::CounterMint { counter_offset: 0 }.nft_args_len(), 28);
    assert_eq!(COUNTED_NFT_TYPE_ARGS_LEN, 28);
}

#[test]
fn token_cells_are_counted_by_identity() {
    let mut tx = direct_mint(2400 * COIN, 161 * COIN);
    tx.outputs.push(nft_cell(direct_nft_type(5, 8, 1), 0));
    assert_eq!(parse_nft_action(&tx), Err(Error::NFTCellsCountError));
    assert_eq!(validate(&tx, &direct()), Err(Error::NFTCellsCountError));
    let mut tx = direct_mint(2400 * COIN, 161 * COIN);
    tx.outputs.remove(1);
    assert_eq!(validate(&tx, &direct()), Err(Error::NFTCellsCountError));
}

#[test]
fn matchers_of_a_token() {
    let tx = direct_mint(2400 * COIN, 161 * COIN);
    let same_class = check_nft_type(&tx.script, 56);
    let same_issuer = check_issuer_type(&tx.script, 56);
    assert_eq!(count_cells_by_type(&tx, Source::Output, &same_class), 2);
    assert_eq!(count_cells_by_type(&tx, Source::Output, &same_issuer), 3);
    assert_eq!(count_cells_by_type(&tx, Source::Output, &check_nft_type(&tx.script, 28)), 0);
    let class = check_class_type(&direct(), &tx.script.args);
    assert_eq!(class, class_type(5, 8));
}

#[test]
fn counter_mint_of_the_passed_numbers_is_accepted() {
    let tx = counter_mint(2, 4, &[2, 3]);
    assert_eq!(validate(&tx, &counted(COUNTER_OFFSET)), Ok(()));
    assert_eq!(validate(&running(tx, 2), &counted(COUNTER_OFFSET)), Ok(()));
    assert_eq!(handle_counter_creation(&counter_mint(0, 1, &[0]), &counted(COUNTER_OFFSET), COUNTER_OFFSET), Ok(()));
}

#[test]
fn counter_mint_of_other_numbers_is_rejected() {
    let tx = counter_mint(2, 4, &[2, 4]);
    assert_eq!(validate(&tx, &counted(COUNTER_OFFSET)), Err(Error::ClassIdIncreaseError));
    assert_eq!(
        validate(&counter_mint(2, 4, &[2]), &counted(COUNTER_OFFSET)),
        Err(Error::ClassIdIncreaseError)
    );
    assert_eq!(
        validate(&counter_mint(2, 4, &[2, 3, 4]), &counted(COUNTER_OFFSET)),
        Err(Error::ClassIdIncreaseError)
    );
    assert_eq!(
        validate(&counter_mint(2, 4, &[1, 2]), &counted(COUNTER_OFFSET)),
        Err(Error::ClassIdIncreaseError)
    );
}

#[test]
fn counter_must_go_up() {
    assert_eq!(
        validate(&counter_mint(2, 2, &[2]), &counted(COUNTER_OFFSET)),
        Err(Error::ClassIssuedInvalid)
    );
    assert_eq!(
        validate(&counter_mint(4, 2, &[2, 3]), &counted(COUNTER_OFFSET)),
        Err(Error::ClassIssuedInvalid)
    );
}

#[test]
fn counter_rule_on_plain_numbers() {
    assert_eq!(validate_counter_mint(2, 4, &vec![2, 3]), Ok(()));
    assert_eq!(validate_counter_mint(2, 4, &vec![3, 2]), Ok(()));
    assert_eq!(validate_counter_mint(2, 4, &vec![2, 4]), Err(Error::ClassIdIncreaseError));
    assert_eq!(validate_counter_mint(2, 4, &vec![2, 2]), Err(Error::ClassIdIncreaseError));
    assert_eq!(validate_counter_mint(2, 4, &vec![2, 3, 3]), Err(Error::ClassIdIncreaseError));
    assert_eq!(validate_counter_mint(2, 4, &vec![]), Err(Error::ClassIdIncreaseError));
    assert_eq!(validate_counter_mint(2, 2, &vec![]), Err(Error::ClassIssuedInvalid));
    assert_eq!(validate_counter_mint(3, 2, &vec![2]), Err(Error::ClassIssuedInvalid));
    assert_eq!(validate_counter_mint(u32::MAX - 1, u32::MAX, &vec![u32::MAX - 1]), Ok(()));
    assert_eq!(validate_counter_mint(0, 5, &vec![4, 0, 3, 1, 2]), Ok(()));
}

#[test]
fn counter_mint_needs_one_class_input() {
    let mut tx = counter_mint(2, 4, &[2, 3]);
    tx.inputs.push(input(cell(owner(), Some(class_type(5, 8)), counted_class_data(2)), signed()));
    assert_eq!(validate(&tx, &counted(COUNTER_OFFSET)), Err(Error::ClassCellsCountError));
    let mut tx = counter_mint(2, 4, &[2, 3]);
    tx.inputs[0].cell.type_script = Some(class_type(5, 9));
    assert_eq!(validate(&tx, &counted(COUNTER_OFFSET)), Err(Error::ClassCellsCountError));
}

#[test]
fn counter_mint_needs_class_data_with_a_counter() {
    let mut tx = counter_mint(2, 4, &[2, 3]);
    tx.outputs[0].type_script = None;
    assert_eq!(validate(&tx, &counted(COUNTER_OFFSET)), Err(Error::ClassDataInvalid));
    let mut tx = counter_mint(2, 4, &[2, 3]);
    tx.inputs[0].cell.data.truncate(22);
    assert_eq!(validate(&tx, &counted(COUNTER_OFFSET)), Err(Error::ClassDataInvalid));
    let mut tx = counter_mint(2, 4, &[2, 3]);
    tx.outputs[0].data[0] = 1;
    assert_eq!(validate(&tx, &counted(COUNTER_OFFSET)), Err(Error::VersionInvalid));
    let tx = counter_mint(2, 4, &[2, 3]);
    assert_eq!(load_class_counter(&tx, &counted(COUNTER_OFFSET), Source::Input, COUNTER_OFFSET), Ok(2));
    assert_eq!(load_class_counter(&tx, &counted(COUNTER_OFFSET), Source::Output, COUNTER_OFFSET), Ok(4));
    assert_eq!(
        load_class_counter(&tx, &counted(COUNTER_OFFSET), Source::Output, 20),
        Err(Error::ClassDataInvalid)
    );
}

#[test]
fn counter_is_read_big_endian() {
    assert_eq!(read_counter(&[9, 0, 0, 1, 2, 9], 1), Some(258));
    assert_eq!(read_counter(&[0x12, 0x34, 0x56, 0x78], 0), Some(0x1234_5678));
    assert_eq!(read_counter(&[0, 0, 0], 0), None);
    assert_eq!(read_counter(&[0, 0, 0, 0], 1), None);
    assert_eq!(read_counter(&[0, 0, 0, 0], usize::MAX), None);
}

#[test]
fn token_update_keeps_the_record() {
    let tx = update(nft_data(b"picture"), nft_data(b"picture"), signed());
    assert_eq!(parse_nft_action(&tx), Ok(Action::Update));
    assert_eq!(handle_update(&tx), Ok(()));
    assert_eq!(validate(&tx, &direct()), Ok(()));
}

#[test]
fn token_data_may_not_change() {
    let tx = update(nft_data(b"picture"), nft_data(b"pictura"), signed());
    assert_eq!(validate(&tx, &direct()), Err(Error::NFTDataNotSame));
    let tx = update(nft_data(b"picture"), nft_data(b""), signed());
    assert_eq!(validate(&tx, &direct()), Err(Error::NFTDataNotSame));
}

#[test]
fn token_version_may_not_change() {
    let mut after = nft_data(b"picture");
    after[0] = 1;
    let tx = update(nft_data(b"picture"), after, signed());
    assert_eq!(validate(&tx, &direct()), Err(Error::VersionInvalid));
}

#[test]
fn immutable_fields_of_two_records() {
    let record = |version: u8, data: &[u8]| Nft { version, data: data.to_vec() };
    assert_eq!(validate_immutable_nft_fields(&(record(0, b"a"), record(0, b"a"))), Ok(()));
    assert_eq!(
        validate_immutable_nft_fields(&(record(0, b"a"), record(0, b"b"))),
        Err(Error::NFTDataNotSame)
    );
    assert_eq!(
        validate_immutable_nft_fields(&(record(0, b"a"), record(1, b"a"))),
        Err(Error::NFTVersionNotSame)
    );
    assert_eq!(
        validate_immutable_nft_fields(&(record(0, b"a"), record(1, b"b"))),
        Err(Error::NFTDataNotSame)
    );
}

#[test]
fn token_update_without_a_proof_for_the_lock_is_rejected() {
    let unsigned = Some(WitnessArgs { lock: None });
    let tx = update(nft_data(b"picture"), nft_data(b"picture"), unsigned);
    assert_eq!(validate(&tx, &direct()), Err(Error::GroupInputWitnessNoneError));
    assert_eq!(Error::GroupInputWitnessNoneError.code(), 21);
    let tx = update(nft_data(b"picture"), nft_data(b"picture"), None);
    assert_eq!(validate(&tx, &direct()), Err(Error::GroupInputWitnessNoneError));
}

#[test]
fn token_update_reads_the_witness_of_the_first_input_under_the_lock() {
    let unsigned = Some(WitnessArgs { lock: None });
    let mut tx = update(nft_data(b"picture"), nft_data(b"picture"), unsigned);
    tx.inputs.insert(0, input(cell(owner(), None, vec![]), signed()));
    assert_eq!(validate(&tx, &direct()), Ok(()));
    let mut tx = update(nft_data(b"picture"), nft_data(b"picture"), signed());
    tx.inputs.insert(0, input(cell(owner(), None, vec![]), None));
    assert_eq!(validate(&tx, &direct()), Err(Error::GroupInputWitnessNoneError));
}

#[test]
fn token_update_needs_records_that_decode() {
    let tx = update(vec![0, 0, 5, 1], nft_data(b"picture"), signed());
    assert_eq!(validate(&tx, &direct()), Err(Error::NFTDataInvalid));
    let tx = update(nft_data(b"picture"), vec![], signed());
    assert_eq!(validate(&tx, &direct()), Err(Error::NFTDataInvalid));
    assert_eq!(load_nft_data(&tx, Source::Input), Ok(nft_data(b"picture")));
    assert_eq!(load_nft_data(&tx, Source::CellDep), Err(Error::NFTDataInvalid));
}

#[test]
fn token_is_destroyed_by_its_owner() {
    assert_eq!(parse_nft_action(&destruction(signed())), Ok(Action::Destroy));
    assert_eq!(handle_destroying(&destruction(signed())), Ok(()));
    assert_eq!(validate(&destruction(signed()), &direct()), Ok(()));
    assert_eq!(validate(&destruction(None), &direct()), Err(Error::GroupInputWitnessNoneError));
}

#[test]
fn update_and_destruction_are_the_same_under_either_policy() {
    let nft_type = counted_nft_type(5, 8, 3);
    let tx = Transaction {
        script: nft_type.clone(),
        inputs: vec![input(cell(owner(), Some(nft_type.clone()), nft_data(b"d")), signed())],
        outputs: vec![cell(owner(), Some(nft_type.clone()), nft_data(b"d"))],
        cell_deps: vec![],
    };
    assert_eq!(validate(&tx, &counted(COUNTER_OFFSET)), Ok(()));
    let mut changed = tx.clone();
    changed.outputs[0].data = nft_data(b"e");
    assert_eq!(validate(&changed, &counted(COUNTER_OFFSET)), Err(Error::NFTDataNotSame));
    let mut unsigned = tx.clone();
    unsigned.inputs[0].witness = None;
    assert_eq!(validate(&unsigned, &counted(COUNTER_OFFSET)), Err(Error::GroupInputWitnessNoneError));
    let mut destroyed = tx.clone();
    destroyed.outputs.clear();
    assert_eq!(validate(&destroyed, &counted(COUNTER_OFFSET)), Ok(()));
}

#[test]
fn token_change_with_an_empty_proof_is_rejected() {
    let empty = Some(WitnessArgs { lock: Some(vec![]) });
    let tx = update(nft_data(b"picture"), nft_data(b"picture"), empty.clone());
    assert_eq!(validate(&tx, &direct()), Err(Error::GroupInputWitnessNoneError));
    assert_eq!(handle_update(&tx), Err(Error::GroupInputWitnessNoneError));
    assert_eq!(validate(&destruction(empty.clone()), &direct()), Err(Error::GroupInputWitnessNoneError));
    let tx = update(vec![1], nft_data(b"other"), empty);
    assert_eq!(validate(&tx, &direct()), Err(Error::GroupInputWitnessNoneError));
}

#[test]
fn creation_goes_by_the_policy() {
    assert_eq!(handle_creation(&direct_mint(2400 * COIN, 161 * COIN), &direct()), Ok(()));
    assert_eq!(
        handle_creation(&direct_mint(0, 0), &direct()),
        Err(Error::PaymentNotEnough)
    );
    assert_eq!(handle_creation(&counter_mint(2, 4, &[2, 3]), &counted(COUNTER_OFFSET)), Ok(()));
    assert_eq!(
        handle_creation(&counter_mint(2, 4, &[2, 4]), &counted(COUNTER_OFFSET)),
        Err(Error::ClassIdIncreaseError)
    );
    assert_eq!(
        handle_creation(&counter_mint(4, 2, &[2, 3]), &counted(COUNTER_OFFSET)),
        Err(Error::ClassIssuedInvalid)
    );
    assert_eq!(
        handle_creation(&counter_mint(2, 4, &[2, 3]), &direct()),
        Err(Error::TypeArgsInvalid)
    );
}
