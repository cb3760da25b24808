//! The rules of a token: created under one of two minting policies, updated
//! without a change of its data or version, and destroyed by whoever holds
//! its lock.

use vstd::prelude::*;
use vstd::slice::slice_subrange;
use crate::bytes::{be_u32, bytes_eq, u32_from_slice};
use crate::class::{class_decode, Class, ClassView, CLASS_TYPE_ARGS_LEN};
use crate::error::Error;
use crate::helper::{
    by_exact_type, check_group_input_witness_is_none_with_type, class_type, count_cells_by_type,
    entity_action, first_match_data, group_data, group_input_witness_is_none,
    load_cell_data_by_type, load_class_type, load_group_data, load_output_index_by_type,
    load_output_type_args_ids, load_payment_cell_capacity, parse_entity_action, payment_capacity,
    type_args_ids, Action, ID_LEN,
};
use crate::identity::{
    args_carry_digest, blake2b_256, carries_digest, output_index_digest, output_index_seed,
    DIGEST_LEN,
};
use crate::issuer::ISSUER_TYPE_ARGS_LEN;
use crate::matcher::{
    count_matching, first_match, CellMatcherView, ScriptMatcher, ScriptMatcherView,
};
use crate::nft::{nft_decode, Nft, NftView, NFT_TYPE_ARGS_LEN};
use crate::transaction::{Script, ScriptView, Source, Transaction, TransactionView};

verus! {

/// The length of a token's type arguments where tokens are minted by the
/// class's counter: 24 bytes that name its class, then its number in four.
pub const COUNTED_NFT_TYPE_ARGS_LEN: usize = 28;

/// How many of the smallest units of capacity make one whole coin.
pub const SHANNONS_PER_COIN: u64 = 100_000_000;

/// How tokens come into being.
#[derive(Debug, Clone, PartialEq, Eq)]
pub enum MintPolicy {
    /// Anyone mints a token by paying the class's cost to the payment lock.
    /// The token's identity is a digest of the first input's out point and
    /// the index of the token's own output.
    DirectMint { payment_lock: Script },
    /// Tokens are minted together with a step of the class's counter, and are
    /// numbered by it. The counter is a big-endian number of four bytes at
    /// `counter_offset` of the class cell's data.
    CounterMint { counter_offset: usize },
}

/// A minting policy as a mathematical value.
pub enum MintPolicyView {
    DirectMint { payment_lock: ScriptView },
    CounterMint { counter_offset: nat },
}

impl View for MintPolicy {
    type V = MintPolicyView;

    open spec fn view(&self) -> MintPolicyView {
        match *self {
            MintPolicy::DirectMint { payment_lock } => MintPolicyView::DirectMint {
                payment_lock: payment_lock@,
            },
            MintPolicy::CounterMint { counter_offset } => MintPolicyView::CounterMint {
                counter_offset: counter_offset as nat,
            },
        }
    }
}

impl MintPolicyView {
    /// The length of a token's type arguments under the policy.
    pub open spec fn nft_args_len(self) -> nat {
        match self {
            MintPolicyView::DirectMint { .. } => NFT_TYPE_ARGS_LEN as nat,
            MintPolicyView::CounterMint { .. } => COUNTED_NFT_TYPE_ARGS_LEN as nat,
        }
    }
}

impl MintPolicy {
    /// The length of a token's type arguments under the policy.
    pub fn nft_args_len(&self) -> (len: usize)
        ensures
            len == self@.nft_args_len(),
    {
        match self {
            MintPolicy::DirectMint { .. } => NFT_TYPE_ARGS_LEN,
            MintPolicy::CounterMint { .. } => COUNTED_NFT_TYPE_ARGS_LEN,
        }
    }
}

/// What a deployment fixes for the token validator: under which code hash
/// and hash type the class cells stand, and the minting policy.
#[derive(Debug, Clone, PartialEq, Eq)]
pub struct Deployment {
    pub class_code_hash: Vec<u8>,
    pub class_hash_type: u8,
    pub policy: MintPolicy,
}

/// A deployment as a mathematical value.
pub struct DeploymentView {
    pub class_code_hash: Seq<u8>,
    pub class_hash_type: u8,
    pub policy: MintPolicyView,
}

impl View for Deployment {
    type V = DeploymentView;

    open spec fn view(&self) -> DeploymentView {
        DeploymentView {
            class_code_hash: self.class_code_hash@,
            class_hash_type: self.class_hash_type,
            policy: self.policy@,
        }
    }
}

/// The token record in the entity's cell of a group: invalid data where the
/// group holds no such cell, else what decoding its data gives.
pub open spec fn nft_record(tx: TransactionView, source: Source) -> Result<NftView, Error> {
    match group_data(tx, source) {
        Some(data) => nft_decode(data),
        None => Err(Error::NFTDataInvalid),
    }
}

/// The data of the token's cell in a group, or invalid data where the group
/// holds no such cell.
pub fn load_nft_data(tx: &Transaction, source: Source) -> (r: Result<Vec<u8>, Error>)
    ensures
        match r {
            Ok(data) => group_data(tx@, source) == Some(data@),
            Err(e) => e == Error::NFTDataInvalid && group_data(tx@, source) is None,
        },
{
    match load_group_data(tx, source) {
        Some(data) => Ok(data),
        None => Err(Error::NFTDataInvalid),
    }
}

/// The action of the transaction on the token.
pub open spec fn nft_action(tx: TransactionView) -> Result<Action, Error> {
    match entity_action(tx) {
        Some(action) => Ok(action),
        None => Err(Error::NFTCellsCountError),
    }
}

/// Classifies the transaction as an action on the token.
pub fn parse_nft_action(tx: &Transaction) -> (r: Result<Action, Error>)
    ensures
        r == nft_action(tx@),
{
    parse_entity_action(tx, Error::NFTCellsCountError)
}

/// What an update may do to the record: nothing. Data and version stay.
pub open spec fn immutable_nft_fields(input: NftView, output: NftView) -> Result<(), Error> {
    if input.data != output.data {
        Err(Error::NFTDataNotSame)
    } else if input.version != output.version {
        Err(Error::NFTVersionNotSame)
    } else {
        Ok(())
    }
}

/// Holds the record of a token after an update against the one before it.
pub fn validate_immutable_nft_fields(nfts: &(Nft, Nft)) -> (r: Result<(), Error>)
    ensures
        r == immutable_nft_fields(nfts.0@, nfts.1@),
        r is Ok <==> nfts.0@ == nfts.1@,
{
    if !bytes_eq(nfts.0.data.as_slice(), nfts.1.data.as_slice()) {
        return Err(Error::NFTDataNotSame);
    }
    if nfts.0.version != nfts.1.version {
        return Err(Error::NFTVersionNotSame);
    }
    Ok(())
}

/// Whether a transaction may update the token: a proof for the lock
/// accompanies it, the cells before and after are there, both records
/// decode, and they are the same.
pub open spec fn update_outcome(tx: TransactionView) -> Result<(), Error> {
    match group_input_witness_is_none(tx, tx.script) {
        Err(e) => Err(e),
        Ok(true) => Err(Error::GroupInputWitnessNoneError),
        Ok(false) => if group_data(tx, Source::Input) is None || group_data(tx, Source::Output)
            is None {
            Err(Error::NFTDataInvalid)
        } else {
            match nft_record(tx, Source::Input) {
                Err(e) => Err(e),
                Ok(input) => match nft_record(tx, Source::Output) {
                    Err(e) => Err(e),
                    Ok(output) => immutable_nft_fields(input, output),
                },
            }
        },
    }
}

/// Judges an update of the token.
pub fn handle_update(tx: &Transaction) -> (r: Result<(), Error>)
    ensures
        r == update_outcome(tx@),
{
    if check_group_input_witness_is_none_with_type(tx, &tx.script)? {
        return Err(Error::GroupInputWitnessNoneError);
    }
    let input_data = load_nft_data(tx, Source::Input)?;
    let output_data = load_nft_data(tx, Source::Output)?;
    let input_nft = Nft::from_data(input_data.as_slice())?;
    let output_nft = Nft::from_data(output_data.as_slice())?;
    let nfts = (input_nft, output_nft);
    validate_immutable_nft_fields(&nfts)
}

/// Whether a transaction may destroy the token: a proof for the lock
/// accompanies it. A token has nothing below it that its end could orphan.
pub open spec fn destroy_outcome(tx: TransactionView) -> Result<(), Error> {
    match group_input_witness_is_none(tx, tx.script) {
        Err(e) => Err(e),
        Ok(true) => Err(Error::GroupInputWitnessNoneError),
        Ok(false) => Ok(()),
    }
}

/// Judges the destruction of the token.
pub fn handle_destroying(tx: &Transaction) -> (r: Result<(), Error>)
    ensures
        r == destroy_outcome(tx@),
{
    if check_group_input_witness_is_none_with_type(tx, &tx.script)? {
        return Err(Error::GroupInputWitnessNoneError);
    }
    Ok(())
}

/// The matcher that a token's type sets for the tokens of its class: the
/// same code and hash type, arguments of the policy's length, and the same
/// 24 bytes at their head.
pub open spec fn same_class(nft_type: ScriptView, args_len: nat) -> ScriptMatcherView
    recommends
        nft_type.args.len() >= CLASS_TYPE_ARGS_LEN,
{
    ScriptMatcherView::ArgRange {
        code_hash: nft_type.code_hash,
        hash_type: nft_type.hash_type,
        args_len,
        start: 0,
        bytes: nft_type.args.subrange(0, CLASS_TYPE_ARGS_LEN as int),
    }
}

/// The matcher for the tokens of a token's class.
pub fn check_nft_type<'a>(nft_type: &'a Script, args_len: usize) -> (predicate: ScriptMatcher<'a>)
    requires
        nft_type@.args.len() >= CLASS_TYPE_ARGS_LEN,
    ensures
        predicate@ == same_class(nft_type@, args_len as nat),
{
    ScriptMatcher::ArgRange {
        code_hash: nft_type.code_hash.as_slice(),
        hash_type: nft_type.hash_type,
        args_len,
        start: 0,
        bytes: slice_subrange(nft_type.args.as_slice(), 0, CLASS_TYPE_ARGS_LEN),
    }
}

/// The matcher that a token's type sets for the tokens of its issuer: the
/// same code and hash type, arguments of the policy's length, and the same
/// 20 bytes at their head.
pub open spec fn same_issuer(nft_type: ScriptView, args_len: nat) -> ScriptMatcherView
    recommends
        nft_type.args.len() >= ISSUER_TYPE_ARGS_LEN,
{
    ScriptMatcherView::ArgRange {
        code_hash: nft_type.code_hash,
        hash_type: nft_type.hash_type,
        args_len,
        start: 0,
        bytes: nft_type.args.subrange(0, ISSUER_TYPE_ARGS_LEN as int),
    }
}

/// The matcher for the tokens of a token's issuer.
pub fn check_issuer_type<'a>(nft_type: &'a Script, args_len: usize) -> (predicate: ScriptMatcher<
    'a,
>)
    requires
        nft_type@.args.len() >= ISSUER_TYPE_ARGS_LEN,
    ensures
        predicate@ == same_issuer(nft_type@, args_len as nat),
{
    ScriptMatcher::ArgRange {
        code_hash: nft_type.code_hash.as_slice(),
        hash_type: nft_type.hash_type,
        args_len,
        start: 0,
        bytes: slice_subrange(nft_type.args.as_slice(), 0, ISSUER_TYPE_ARGS_LEN),
    }
}

/// The matcher for the class cell that a token's type arguments name.
pub open spec fn class_of(deployment: DeploymentView, nft_args: Seq<u8>) -> CellMatcherView
    recommends
        nft_args.len() >= CLASS_TYPE_ARGS_LEN,
{
    by_exact_type(class_type(deployment.class_code_hash, deployment.class_hash_type, nft_args))
}

/// The type script of the class that a token's type arguments name.
pub fn check_class_type(deployment: &Deployment, nft_args: &[u8]) -> (class_script: Script)
    requires
        nft_args@.len() >= CLASS_TYPE_ARGS_LEN,
    ensures
        by_exact_type(class_script@) == class_of(deployment@, nft_args@),
{
    load_class_type(deployment.class_code_hash.as_slice(), deployment.class_hash_type, nft_args)
}

/// The index of the first output whose type is exactly the given script; an
/// encoding error where no output carries it.
pub fn get_cell_output_index_by_type(tx: &Transaction, nft_type: &Script) -> (r: Result<
    usize,
    Error,
>)
    ensures
        match r {
            Ok(index) => first_match(tx@.outputs, by_exact_type(nft_type@)) == Some(index as int),
            Err(e) => e == Error::Encoding && first_match(tx@.outputs, by_exact_type(nft_type@))
                is None,
        },
{
    match load_output_index_by_type(tx, nft_type) {
        Some(index) => Ok(index),
        None => Err(Error::Encoding),
    }
}

/// The class record that a token's type arguments name among the cell
/// dependencies: a count error where no dependency is that class, else what
/// decoding the first one gives.
pub open spec fn class_dep_record(
    tx: TransactionView,
    deployment: DeploymentView,
    nft_args: Seq<u8>,
) -> Result<ClassView, Error>
    recommends
        nft_args.len() >= CLASS_TYPE_ARGS_LEN,
{
    match first_match_data(tx.cell_deps, class_of(deployment, nft_args)) {
        Some(data) => class_decode(data),
        None => Err(Error::ClassCellsCountError),
    }
}

/// Loads and decodes the class record that a token's type arguments name
/// among the cell dependencies.
pub fn load_class_dep(tx: &Transaction, deployment: &Deployment, nft_args: &[u8]) -> (r: Result<
    Class,
    Error,
>)
    requires
        nft_args@.len() >= CLASS_TYPE_ARGS_LEN,
    ensures
        match r {
            Ok(class) => class_dep_record(tx@, deployment@, nft_args@) == Ok::<ClassView, Error>(
                class@,
            ),
            Err(e) => class_dep_record(tx@, deployment@, nft_args@) == Err::<ClassView, Error>(e),
        },
{
    let class_script = check_class_type(deployment, nft_args);
    let data = load_cell_data_by_type(
        tx,
        Source::CellDep,
        &ScriptMatcher::Exact { script: &class_script },
    );
    match data {
        Some(bytes) => Class::from_data(bytes.as_slice()),
        None => Err(Error::ClassCellsCountError),
    }
}

/// What one output adds to the bill of a direct mint: nothing where it is no
/// token of the running token's issuer; else the cost of its class, in the
/// smallest unit, and the capacity that the output itself occupies. The
/// class must stand among the cell dependencies exactly once.
pub open spec fn mint_entry(tx: TransactionView, deployment: DeploymentView, index: int) -> Result<
    (int, int),
    Error,
>
    recommends
        0 <= index < tx.outputs.len(),
        tx.script.args.len() >= ISSUER_TYPE_ARGS_LEN,
{
    let cell = tx.outputs[index];
    if !same_issuer(tx.script, NFT_TYPE_ARGS_LEN as nat).matches_type(cell.type_script) {
        Ok((0int, 0int))
    } else {
        let nft_args = cell.type_script->Some_0.args;
        if count_matching(tx.cell_deps, class_of(deployment, nft_args)) != 1 {
            Err(Error::ClassCellsCountError)
        } else {
            match class_dep_record(tx, deployment, nft_args) {
                Ok(class) => Ok((class.cost * SHANNONS_PER_COIN, cell.occupied_capacity as int)),
                Err(e) => Err(e),
            }
        }
    }
}

/// The bill of a direct mint over the first `count` outputs: the sum of the
/// costs and the sum of the occupied capacities, or the first error met.
pub open spec fn mint_totals(tx: TransactionView, deployment: DeploymentView, count: nat) -> Result<
    (int, int),
    Error,
>
    recommends
        count <= tx.outputs.len(),
        tx.script.args.len() >= ISSUER_TYPE_ARGS_LEN,
    decreases count,
{
    if count == 0 {
        Ok((0int, 0int))
    } else {
        match mint_totals(tx, deployment, (count - 1) as nat) {
            Err(e) => Err(e),
            Ok((cost, occupied)) => match mint_entry(tx, deployment, count - 1) {
                Err(e) => Err(e),
                Ok((cell_cost, cell_occupied)) => Ok((cost + cell_cost, occupied + cell_occupied)),
            },
        }
    }
}

/// Whether the payment of a direct mint suffices: every minted token's class
/// is found and decodes, an output stands under the payment lock, and its
/// capacity is at least the sum of the costs less the sum of what the
/// minted cells occupy.
pub open spec fn payment_outcome(
    tx: TransactionView,
    deployment: DeploymentView,
    payment_lock: ScriptView,
) -> Result<(), Error>
    recommends
        tx.script.args.len() >= ISSUER_TYPE_ARGS_LEN,
{
    match mint_totals(tx, deployment, tx.outputs.len()) {
        Err(e) => Err(e),
        Ok((cost, occupied)) => match payment_capacity(tx, payment_lock) {
            Err(e) => Err(e),
            Ok(paid) => if paid < cost - occupied {
                Err(Error::PaymentNotEnough)
            } else {
                Ok(())
            },
        },
    }
}

/// An error met in the bill stays: more outputs do not mend it.
proof fn mint_totals_error_stays(
    tx: TransactionView,
    deployment: DeploymentView,
    count: nat,
    more: nat,
)
    requires
        count <= more,
        mint_totals(tx, deployment, count) is Err,
    ensures
        mint_totals(tx, deployment, more) == mint_totals(tx, deployment, count),
    decreases more - count,
{
    if count < more {
        mint_totals_error_stays(tx, deployment, count, (more - 1) as nat);
    }
}

/// What one output adds to the bill of a direct mint.
fn mint_cost(tx: &Transaction, deployment: &Deployment, index: usize) -> (r: Result<
    (u128, u64),
    Error,
>)
    requires
        index < tx@.outputs.len(),
        tx@.script.args.len() >= ISSUER_TYPE_ARGS_LEN,
    ensures
        match r {
            Ok((cost, occupied)) => mint_entry(tx@, deployment@, index as int) == Ok::<
                (int, int),
                Error,
            >((cost as int, occupied as int)),
            Err(e) => mint_entry(tx@, deployment@, index as int) == Err::<(int, int), Error>(e),
        },
{
    let cell = &tx.outputs[index];
    let issuer_tokens = check_issuer_type(&tx.script, NFT_TYPE_ARGS_LEN);
    let nft_type: &Script = match &cell.type_script {
        Some(script) => {
            if !issuer_tokens.matches(script) {
                return Ok((0, 0));
            }
            script
        },
        None => {
            return Ok((0, 0));
        },
    };
    let nft_args: &[u8] = nft_type.args.as_slice();
    let class_script = check_class_type(deployment, nft_args);
    let class_cells: usize = count_cells_by_type(
        tx,
        Source::CellDep,
        &ScriptMatcher::Exact { script: &class_script },
    );
    if class_cells != 1 {
        return Err(Error::ClassCellsCountError);
    }
    let class = load_class_dep(tx, deployment, nft_args)?;
    let cost: u128 = class.cost as u128 * SHANNONS_PER_COIN as u128;
    Ok((cost, cell.occupied_capacity))
}

/// Judges the payment of a direct mint.
pub fn check_payment(tx: &Transaction, deployment: &Deployment, payment_lock: &Script) -> (r:
    Result<(), Error>)
    requires
        tx@.script.args.len() >= ISSUER_TYPE_ARGS_LEN,
    ensures
        r == payment_outcome(tx@, deployment@, payment_lock@),
{
    let total: usize = tx.outputs.len();
    let mut cost_sum: u128 = 0;
    let mut cost_overflows: bool = false;
    let mut occupied_sum: u128 = 0;
    let ghost mut cost: int = 0;
    let ghost mut occupied: int = 0;
    let mut index: usize = 0;
    while index < total
        invariant
            total == tx@.outputs.len(),
            tx@.script.args.len() >= ISSUER_TYPE_ARGS_LEN,
            index <= total,
            mint_totals(tx@, deployment@, index as nat) == Ok::<(int, int), Error>(
                (cost, occupied),
            ),
            0 <= occupied <= index * 0xFFFF_FFFF_FFFF_FFFF,
            occupied_sum == occupied,
            cost_overflows ==> cost > u128::MAX,
            !cost_overflows ==> cost_sum == cost,
        decreases total - index,
    {
        match mint_cost(tx, deployment, index) {
            Err(e) => {
                proof {
                    mint_totals_error_stays(tx@, deployment@, (index + 1) as nat, total as nat);
                }
                return Err(e);
            },
            Ok((cell_cost, cell_occupied)) => {
                if cost_overflows || cell_cost > u128::MAX - cost_sum {
                    cost_overflows = true;
                } else {
                    cost_sum = cost_sum + cell_cost;
                }
                occupied_sum = occupied_sum + cell_occupied as u128;
                proof {
                    cost = cost + cell_cost;
                    occupied = occupied + cell_occupied;
                }
            },
        }
        index = index + 1;
    }
    let paid: u64 = load_payment_cell_capacity(tx, payment_lock)?;
    if cost_overflows || paid as u128 + occupied_sum < cost_sum {
        return Err(Error::PaymentNotEnough);
    }
    Ok(())
}

/// Whether a transaction may mint the token directly, given the digest that
/// its identity is to come from: the type arguments end in the digest, the
/// new record decodes, the token's class stands among the cell dependencies
/// with the token's version, and the payment suffices for all the tokens
/// that the transaction mints for the issuer.
pub open spec fn direct_creation_outcome(
    tx: TransactionView,
    deployment: DeploymentView,
    payment_lock: ScriptView,
    digest: Seq<u8>,
) -> Result<(), Error> {
    if !carries_digest(tx.script.args, CLASS_TYPE_ARGS_LEN as int, DIGEST_LEN as int, digest) {
        Err(Error::TypeArgsInvalid)
    } else {
        match nft_record(tx, Source::Output) {
            Err(e) => Err(e),
            Ok(nft) => match class_dep_record(tx, deployment, tx.script.args) {
                Err(e) => Err(e),
                Ok(class) => if class.version != nft.version {
                    Err(Error::NFTVersionNotSameWithClass)
                } else {
                    payment_outcome(tx, deployment, payment_lock)
                },
            },
        }
    }
}

/// Judges a direct mint of the token against a digest.
pub fn check_direct_creation(
    tx: &Transaction,
    deployment: &Deployment,
    payment_lock: &Script,
    digest: &[u8],
) -> (r: Result<(), Error>)
    ensures
        r == direct_creation_outcome(tx@, deployment@, payment_lock@, digest@),
{
    let nft_args: &[u8] = tx.script.args.as_slice();
    if !args_carry_digest(nft_args, CLASS_TYPE_ARGS_LEN, DIGEST_LEN, digest) {
        return Err(Error::TypeArgsInvalid);
    }
    let nft_data = load_nft_data(tx, Source::Output)?;
    let nft = Nft::from_data(nft_data.as_slice())?;
    let class = load_class_dep(tx, deployment, nft_args)?;
    if class.version != nft.version {
        return Err(Error::NFTVersionNotSameWithClass);
    }
    check_payment(tx, deployment, payment_lock)
}

/// What the digest of a direct mint is taken of: the hash of the transaction
/// that the first input spends from, and the index of the token's own
/// output.
pub open spec fn nft_seed(tx: TransactionView) -> Seq<u8>
    recommends
        tx.inputs.len() > 0,
        first_match(tx.outputs, by_exact_type(tx.script)) is Some,
{
    output_index_seed(
        tx.inputs[0].previous_output,
        first_match(tx.outputs, by_exact_type(tx.script))->Some_0,
    )
}

/// Whether a transaction may mint the token directly, the digest taken as
/// given: it has an input and an output for the token, and meets the rule
/// of a direct mint.
pub open spec fn direct_mint_outcome(
    tx: TransactionView,
    deployment: DeploymentView,
    payment_lock: ScriptView,
    digest: Seq<u8>,
) -> Result<(), Error> {
    if tx.inputs.len() == 0 {
        Err(Error::IndexOutOfBound)
    } else if first_match(tx.outputs, by_exact_type(tx.script)) is None {
        Err(Error::Encoding)
    } else {
        direct_creation_outcome(tx, deployment, payment_lock, digest)
    }
}

/// Judges a direct mint of the token: derives the digest from the first
/// input and the token's place among the outputs, and holds the transaction
/// against it.
pub fn handle_direct_creation(
    tx: &Transaction,
    deployment: &Deployment,
    payment_lock: &Script,
) -> (r: Result<(), Error>)
    ensures
        r == direct_mint_outcome(tx@, deployment@, payment_lock@, blake2b_256(nft_seed(tx@))),
{
    if tx.inputs.len() == 0 {
        return Err(Error::IndexOutOfBound);
    }
    let output_index: usize = get_cell_output_index_by_type(tx, &tx.script)?;
    let digest = output_index_digest(&tx.inputs[0].previous_output, output_index);
    check_direct_creation(tx, deployment, payment_lock, digest.as_slice())
}

/// The counter at an offset of a class cell's data: four bytes, big-endian.
pub open spec fn counter_at(data: Seq<u8>, offset: nat) -> Option<u32> {
    if offset + ID_LEN <= data.len() {
        Some(be_u32(data.subrange(offset as int, offset + ID_LEN)) as u32)
    } else {
        None
    }
}

/// Reads the counter at an offset of a class cell's data. `None` where the
/// data ends before the counter does.
pub fn read_counter(data: &[u8], offset: usize) -> (counter: Option<u32>)
    ensures
        counter == counter_at(data@, offset as nat),
{
    if data.len() < ID_LEN || offset > data.len() - ID_LEN {
        return None;
    }
    Some(u32_from_slice(slice_subrange(data, offset, offset + ID_LEN)))
}

/// The mint counter of the running token's class in a group: invalid data
/// where the group holds no cell of that class, where the cell's record does
/// not decode, or where its data ends before the counter does.
pub open spec fn class_counter(
    tx: TransactionView,
    deployment: DeploymentView,
    source: Source,
    counter_offset: nat,
) -> Result<u32, Error>
    recommends
        tx.script.args.len() >= CLASS_TYPE_ARGS_LEN,
{
    match first_match_data(tx.cells(source), class_of(deployment, tx.script.args)) {
        None => Err(Error::ClassDataInvalid),
        Some(data) => match class_decode(data) {
            Err(e) => Err(e),
            Ok(_) => match counter_at(data, counter_offset) {
                Some(counter) => Ok(counter),
                None => Err(Error::ClassDataInvalid),
            },
        },
    }
}

/// Loads the mint counter of the running token's class from a group.
pub fn load_class_counter(
    tx: &Transaction,
    deployment: &Deployment,
    source: Source,
    counter_offset: usize,
) -> (r: Result<u32, Error>)
    requires
        tx@.script.args.len() >= CLASS_TYPE_ARGS_LEN,
    ensures
        r == class_counter(tx@, deployment@, source, counter_offset as nat),
{
    let class_script = check_class_type(deployment, tx.script.args.as_slice());
    let data = match load_cell_data_by_type(
        tx,
        source,
        &ScriptMatcher::Exact { script: &class_script },
    ) {
        Some(bytes) => bytes,
        None => {
            return Err(Error::ClassDataInvalid);
        },
    };
    let _class = Class::from_data(data.as_slice())?;
    match read_counter(data.as_slice(), counter_offset) {
        Some(counter) => Ok(counter),
        None => Err(Error::ClassDataInvalid),
    }
}

/// Whether a list of numbers names each number from `low` up to, but not
/// including, `high` and has as many entries as there are such numbers.
pub open spec fn lists_range(ids: Seq<u32>, low: u32, high: u32) -> bool {
    &&& ids.len() == high - low
    &&& forall|id: u32| low <= id < high ==> ids.contains(id)
}

/// The rule of a mint by counter: the counter goes up, and the numbers of
/// the new tokens are those that it passes.
pub open spec fn counter_mint_rule(counter_in: u32, counter_out: u32, ids: Seq<u32>) -> Result<
    (),
    Error,
> {
    if counter_out <= counter_in {
        Err(Error::ClassIssuedInvalid)
    } else if !lists_range(ids, counter_in, counter_out) {
        Err(Error::ClassIdIncreaseError)
    } else {
        Ok(())
    }
}

/// Whether a list holds a number.
fn holds_id(ids: &Vec<u32>, id: u32) -> (found: bool)
    ensures
        found == ids@.contains(id),
{
    let mut index: usize = 0;
    while index < ids.len()
        invariant
            index <= ids@.len(),
            forall|j: int| 0 <= j < index ==> ids@[j] != id,
        decreases ids@.len() - index,
    {
        if ids[index] == id {
            return true;
        }
        index = index + 1;
    }
    false
}

/// Holds the numbers of the tokens that a transaction mints against the
/// step of the class's counter.
pub fn validate_counter_mint(counter_in: u32, counter_out: u32, ids: &Vec<u32>) -> (r: Result<
    (),
    Error,
>)
    ensures
        r == counter_mint_rule(counter_in, counter_out, ids@),
{
    if counter_out <= counter_in {
        return Err(Error::ClassIssuedInvalid);
    }
    if ids.len() != (counter_out - counter_in) as usize {
        return Err(Error::ClassIdIncreaseError);
    }
    let mut id: u32 = counter_in;
    while id < counter_out
        invariant
            counter_in <= id <= counter_out,
            forall|seen: u32| counter_in <= seen < id ==> ids@.contains(seen),
        decreases counter_out - id,
    {
        if !holds_id(ids, id) {
            return Err(Error::ClassIdIncreaseError);
        }
        id = id + 1;
    }
    Ok(())
}

/// Whether a transaction may mint the token by the class's counter: the
/// type arguments are 28 bytes long, exactly one input is the token's class,
/// the class's counter is read before and after, and the numbers of all the
/// class's tokens among the outputs are those that the counter passes.
pub open spec fn counter_creation_outcome(
    tx: TransactionView,
    deployment: DeploymentView,
    counter_offset: nat,
) -> Result<(), Error> {
    if tx.script.args.len() != COUNTED_NFT_TYPE_ARGS_LEN {
        Err(Error::TypeArgsInvalid)
    } else if count_matching(tx.cells(Source::Input), class_of(deployment, tx.script.args)) != 1 {
        Err(Error::ClassCellsCountError)
    } else {
        match class_counter(tx, deployment, Source::Input, counter_offset) {
            Err(e) => Err(e),
            Ok(counter_in) => match class_counter(tx, deployment, Source::Output, counter_offset) {
                Err(e) => Err(e),
                Ok(counter_out) => counter_mint_rule(
                    counter_in,
                    counter_out,
                    type_args_ids(
                        tx.outputs,
                        CLASS_TYPE_ARGS_LEN as int,
                        same_class(tx.script, COUNTED_NFT_TYPE_ARGS_LEN as nat),
                    ),
                ),
            },
        }
    }
}

/// Judges a mint of the token by the class's counter.
pub fn handle_counter_creation(tx: &Transaction, deployment: &Deployment, counter_offset: usize)
    -> (r: Result<(), Error>)
    ensures
        r == counter_creation_outcome(tx@, deployment@, counter_offset as nat),
{
    if tx.script.args.len() != COUNTED_NFT_TYPE_ARGS_LEN {
        return Err(Error::TypeArgsInvalid);
    }
    let class_script = check_class_type(deployment, tx.script.args.as_slice());
    let class_inputs: usize = count_cells_by_type(
        tx,
        Source::Input,
        &ScriptMatcher::Exact { script: &class_script },
    );
    if class_inputs != 1 {
        return Err(Error::ClassCellsCountError);
    }
    let counter_in: u32 = load_class_counter(tx, deployment, Source::Input, counter_offset)?;
    let counter_out: u32 = load_class_counter(tx, deployment, Source::Output, counter_offset)?;
    let class_tokens = check_nft_type(&tx.script, COUNTED_NFT_TYPE_ARGS_LEN);
    let ids = load_output_type_args_ids(tx, CLASS_TYPE_ARGS_LEN, &class_tokens);
    validate_counter_mint(counter_in, counter_out, &ids)
}

/// Whether a transaction may create the token under the deployment's
/// policy, the digest of a direct mint taken as given.
pub open spec fn creation_outcome(tx: TransactionView, deployment: DeploymentView, digest: Seq<u8>)
    -> Result<(), Error> {
    match deployment.policy {
        MintPolicyView::DirectMint { payment_lock } => direct_mint_outcome(
            tx,
            deployment,
            payment_lock,
            digest,
        ),
        MintPolicyView::CounterMint { counter_offset } => counter_creation_outcome(
            tx,
            deployment,
            counter_offset,
        ),
    }
}

/// Judges the creation of the token under the deployment's policy: a direct
/// mint against payment, or a mint by the class's counter.
pub fn handle_creation(tx: &Transaction, deployment: &Deployment) -> (r: Result<(), Error>)
    ensures
        r == creation_outcome(tx@, deployment@, blake2b_256(nft_seed(tx@))),
{
    match &deployment.policy {
        MintPolicy::DirectMint { payment_lock } => handle_direct_creation(
            tx,
            deployment,
            payment_lock,
        ),
        MintPolicy::CounterMint { counter_offset } => handle_counter_creation(
            tx,
            deployment,
            *counter_offset,
        ),
    }
}

/// The verdict on a transaction, given the digest that a direct mint is held
/// against: the type arguments have the policy's length, the transaction is
/// one action on the token, and the rule of that action is met. Update and
/// destruction go by the same rules under either policy.
pub open spec fn verdict(tx: TransactionView, deployment: DeploymentView, digest: Seq<u8>)
    -> Result<(), Error> {
    if tx.script.args.len() != deployment.policy.nft_args_len() {
        Err(Error::TypeArgsInvalid)
    } else {
        match nft_action(tx) {
            Err(e) => Err(e),
            Ok(Action::Create) => creation_outcome(tx, deployment, digest),
            Ok(Action::Update) => update_outcome(tx),
            Ok(Action::Destroy) => destroy_outcome(tx),
        }
    }
}

/// Validates a transaction for the token whose type script is being run.
pub fn validate(tx: &Transaction, deployment: &Deployment) -> (r: Result<(), Error>)
    ensures
        r == verdict(tx@, deployment@, blake2b_256(nft_seed(tx@))),
{
    if tx.script.args.len() != deployment.policy.nft_args_len() {
        return Err(Error::TypeArgsInvalid);
    }
    match parse_nft_action(tx)? {
        Action::Create => handle_creation(tx, deployment),
        Action::Update => handle_update(tx),
        Action::Destroy => handle_destroying(tx),
    }
}

/// An accepted update left the record as it was: the records before and
/// after decode, and data and version are the same.
pub proof fn update_keeps_record(tx: TransactionView)
    requires
        update_outcome(tx) is Ok,
    ensures
        nft_record(tx, Source::Input) is Ok,
        nft_record(tx, Source::Input) == nft_record(tx, Source::Output),
{
}

/// An update that changes the data or the version of the record is
/// rejected, whatever else the transaction holds.
pub proof fn update_rejects_changed_record(
    tx: TransactionView,
    deployment: DeploymentView,
    digest: Seq<u8>,
)
    requires
        nft_action(tx) == Ok::<Action, Error>(Action::Update),
        nft_record(tx, Source::Input) is Ok,
        nft_record(tx, Source::Output) is Ok,
        nft_record(tx, Source::Input)->Ok_0.data != nft_record(tx, Source::Output)->Ok_0.data
            || nft_record(tx, Source::Input)->Ok_0.version != nft_record(
            tx,
            Source::Output,
        )->Ok_0.version,
    ensures
        update_outcome(tx) is Err,
        verdict(tx, deployment, digest) is Err,
{
}

/// An update that writes a version other than zero is rejected.
pub proof fn update_rejects_new_version(
    tx: TransactionView,
    deployment: DeploymentView,
    digest: Seq<u8>,
)
    requires
        nft_action(tx) == Ok::<Action, Error>(Action::Update),
        group_data(tx, Source::Output) is Some,
        group_data(tx, Source::Output)->Some_0.len() > 0,
        group_data(tx, Source::Output)->Some_0[0] != 0,
    ensures
        update_outcome(tx) is Err,
        verdict(tx, deployment, digest) is Err,
{
}

/// Update and destruction do not look at the minting policy: where the type
/// arguments have the policy's length, the verdict on either is that of the
/// shared rule.
pub proof fn policies_share_update_and_destruction(
    tx: TransactionView,
    deployment: DeploymentView,
    digest: Seq<u8>,
)
    requires
        tx.script.args.len() == deployment.policy.nft_args_len(),
    ensures
        nft_action(tx) == Ok::<Action, Error>(Action::Update) ==> verdict(tx, deployment, digest)
            == update_outcome(tx),
        nft_action(tx) == Ok::<Action, Error>(Action::Destroy) ==> verdict(
            tx,
            deployment,
            digest,
        ) == destroy_outcome(tx),
{
}

/// A mint by counter is accepted only where the counter goes up: one that
/// stays or goes down is rejected, whatever tokens the transaction holds.
pub proof fn counter_never_decreases(counter_in: u32, counter_out: u32, ids: Seq<u32>)
    ensures
        counter_out <= counter_in ==> counter_mint_rule(counter_in, counter_out, ids) == Err::<
            (),
            Error,
        >(Error::ClassIssuedInvalid),
        counter_mint_rule(counter_in, counter_out, ids) is Ok ==> counter_in < counter_out
            && lists_range(ids, counter_in, counter_out),
{
}

/// A mint by counter is accepted exactly where the counter goes up and the
/// numbers of the class's new tokens are those that it passes: where the
/// type arguments have their length, one input is the class, and the counter
/// is read as `counter_in` before and `counter_out` after.
pub proof fn counter_mint_is_exact(
    tx: TransactionView,
    deployment: DeploymentView,
    counter_offset: nat,
    counter_in: u32,
    counter_out: u32,
)
    requires
        tx.script.args.len() == COUNTED_NFT_TYPE_ARGS_LEN,
        deployment.policy == (MintPolicyView::CounterMint { counter_offset }),
        count_matching(tx.cells(Source::Input), class_of(deployment, tx.script.args)) == 1,
        class_counter(tx, deployment, Source::Input, counter_offset) == Ok::<u32, Error>(
            counter_in,
        ),
        class_counter(tx, deployment, Source::Output, counter_offset) == Ok::<u32, Error>(
            counter_out,
        ),
    ensures
        creation_outcome(tx, deployment, Seq::<u8>::empty()) is Ok <==> counter_in < counter_out
            && lists_range(
            type_args_ids(
                tx.outputs,
                CLASS_TYPE_ARGS_LEN as int,
                same_class(tx.script, COUNTED_NFT_TYPE_ARGS_LEN as nat),
            ),
            counter_in,
            counter_out,
        ),
        forall|digest: Seq<u8>|
            #[trigger] creation_outcome(tx, deployment, digest) == counter_mint_rule(
                counter_in,
                counter_out,
                type_args_ids(
                    tx.outputs,
                    CLASS_TYPE_ARGS_LEN as int,
                    same_class(tx.script, COUNTED_NFT_TYPE_ARGS_LEN as nat),
                ),
            ),
{
}

/// The numbers from `low` up to, but not including, `high`.
pub open spec fn id_range(low: u32, high: u32) -> Set<u32> {
    Set::new(|id: u32| low <= id < high)
}

/// A list that names a range names nothing else and nothing twice: the set
/// of its entries is the range, and no two entries are the same.
pub proof fn listed_range_is_exact(ids: Seq<u32>, low: u32, high: u32)
    requires
        low <= high,
        lists_range(ids, low, high),
    ensures
        ids.to_set() == id_range(low, high),
        ids.no_duplicates(),
        forall|index: int| 0 <= index < ids.len() ==> low <= #[trigger] ids[index] < high,
{
    broadcast use vstd::seq_lib::seq_to_set_is_finite;

    let range = id_range(low, high);
    let numbers = vstd::set_lib::set_int_range(low as int, high as int);
    let narrow = |number: int| number as u32;
    vstd::set_lib::lemma_int_range(low as int, high as int);
    assert(numbers.map(narrow) =~= range) by {
        assert forall|id: u32| range.contains(id) implies numbers.map(narrow).contains(id) by {
            assert(numbers.contains(id as int) && narrow(id as int) == id);
        }
    }
    assert(vstd::relations::injective_on(narrow, numbers));
    vstd::set_lib::lemma_map_size(numbers, range, narrow);
    assert(range.subset_of(ids.to_set())) by {
        assert forall|id: u32| range.contains(id) implies ids.to_set().contains(id) by {
            assert(ids.contains(id));
        }
    }
    ids.lemma_cardinality_of_set();
    vstd::set_lib::lemma_len_subset(range, ids.to_set());
    vstd::set_lib::lemma_subset_equality(range, ids.to_set());
    ids.lemma_no_dup_set_cardinality();
    assert forall|index: int| 0 <= index < ids.len() implies low <= #[trigger] ids[index]
        < high by {
        assert(ids.to_set().contains(ids[index]));
    }
}

/// A change without a proof for the lock is rejected for that reason, before
/// any record is read: neither update nor destruction gets further.
pub proof fn change_needs_lock_proof(tx: TransactionView)
    requires
        group_input_witness_is_none(tx, tx.script) == Ok::<bool, Error>(true),
    ensures
        update_outcome(tx) == Err::<(), Error>(Error::GroupInputWitnessNoneError),
        destroy_outcome(tx) == Err::<(), Error>(Error::GroupInputWitnessNoneError),
{
}

} // verus!
