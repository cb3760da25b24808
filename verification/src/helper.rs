//! What the validators share: the classification of a transaction as an
//! action on an entity, and the lookups that find related cells in a group.

use vstd::prelude::*;
use vstd::slice::{slice_subrange, slice_to_vec};
pub use crate::bytes::{parse_dyn_vec_len, u32_from_slice, u64_from_slice, DYN_MIN_LEN};
use crate::bytes::be_u32;
use crate::class::CLASS_TYPE_ARGS_LEN;
use crate::error::Error;
use crate::issuer::ISSUER_TYPE_ARGS_LEN;
use crate::matcher::{
    count_matching, first_match, first_match_is, first_match_none, is_first_match, CellMatcher,
    CellMatcherView, HashMatcher, HashMatcherView, ScriptMatcher, ScriptMatcherView,
};
use crate::transaction::{
    CellView, Script, ScriptView, Source, Transaction, TransactionView, WitnessArgs,
    WitnessArgsView,
};

verus! {

/// The width of the number that ends the type arguments of a counted cell.
pub const ID_LEN: usize = 4;

/// What a transaction does to an entity.
#[derive(Debug, Clone, Copy, PartialEq, Eq, Structural)]
pub enum Action {
    Create,
    Update,
    Destroy,
}

/// The action that a transaction takes on an entity, from the number of
/// cells that carry the entity's type among the inputs and among the outputs.
/// An entity lives in one cell at a time: no input and one output create it,
/// one of each update it, one input and no output destroy it, and nothing
/// else is an action.
pub open spec fn classify(input_count: nat, output_count: nat) -> Option<Action> {
    if input_count == 0 && output_count == 1 {
        Some(Action::Create)
    } else if input_count == 1 && output_count == 1 {
        Some(Action::Update)
    } else if input_count == 1 && output_count == 0 {
        Some(Action::Destroy)
    } else {
        None
    }
}

/// Classifies a pair of cell counts as an action, or fails with the given
/// error where the pair is none of the three that are actions.
pub fn parse_action(input_count: usize, output_count: usize, count_error: Error) -> (r: Result<
    Action,
    Error,
>)
    ensures
        r == match classify(input_count as nat, output_count as nat) {
            Some(action) => Ok::<Action, Error>(action),
            None => Err::<Action, Error>(count_error),
        },
{
    if input_count == 0 && output_count == 1 {
        Ok(Action::Create)
    } else if input_count == 1 && output_count == 1 {
        Ok(Action::Update)
    } else if input_count == 1 && output_count == 0 {
        Ok(Action::Destroy)
    } else {
        Err(count_error)
    }
}

/// Every pair of counts is classified in exactly one way: the three pairs
/// (0, 1), (1, 1) and (1, 0) as creation, update and destruction, and every
/// other pair as no action at all.
pub proof fn classification_total(input_count: nat, output_count: nat)
    ensures
        classify(input_count, output_count) == Some(Action::Create) <==> (input_count == 0
            && output_count == 1),
        classify(input_count, output_count) == Some(Action::Update) <==> (input_count == 1
            && output_count == 1),
        classify(input_count, output_count) == Some(Action::Destroy) <==> (input_count == 1
            && output_count == 0),
        classify(input_count, output_count) is None <==> !((input_count == 0 && output_count == 1)
            || (input_count == 1 && output_count == 1) || (input_count == 1 && output_count
            == 0)),
{
}

/// How many cells of a group answer to a matcher.
pub fn count_cells(tx: &Transaction, source: Source, matcher: &CellMatcher) -> (count: usize)
    ensures
        count == count_matching(tx@.cells(source), matcher@),
{
    let total: usize = tx.cell_count(source);
    let ghost cells = tx@.cells(source);
    let mut count: usize = 0;
    let mut index: usize = 0;
    while index < total
        invariant
            cells == tx@.cells(source),
            total == cells.len(),
            index <= total,
            count <= index,
            count == count_matching(cells.take(index as int), matcher@),
        decreases total - index,
    {
        let cell = tx.cell(source, index);
        proof {
            assert(cells.take(index + 1).drop_last() =~= cells.take(index as int));
            assert(cells.take(index + 1).last() == cells[index as int]);
        }
        if matcher.holds(cell) {
            count = count + 1;
        }
        index = index + 1;
    }
    proof {
        assert(cells.take(total as int) =~= cells);
    }
    count
}

/// The index of the first cell of a group that answers to a matcher.
pub fn find_cell(tx: &Transaction, source: Source, matcher: &CellMatcher) -> (found: Option<usize>)
    ensures
        match found {
            Some(index) => first_match(tx@.cells(source), matcher@) == Some(index as int)
                && is_first_match(tx@.cells(source), matcher@, index as int),
            None => first_match(tx@.cells(source), matcher@) == None::<int>,
        },
{
    let total: usize = tx.cell_count(source);
    let ghost cells = tx@.cells(source);
    let mut index: usize = 0;
    while index < total
        invariant
            cells == tx@.cells(source),
            total == cells.len(),
            index <= total,
            forall|j: int| 0 <= j < index ==> !matcher@.holds(#[trigger] cells[j]),
        decreases total - index,
    {
        if matcher.holds(tx.cell(source, index)) {
            proof {
                first_match_is(cells, matcher@, index as int);
            }
            return Some(index);
        }
        index = index + 1;
    }
    proof {
        first_match_none(cells, matcher@);
    }
    None
}

/// The data of the first cell that answers to a matcher, if any does.
pub open spec fn first_match_data(cells: Seq<CellView>, matcher: CellMatcherView) -> Option<
    Seq<u8>,
> {
    match first_match(cells, matcher) {
        Some(index) => Some(cells[index].data),
        None => None,
    }
}

/// A copy of the data of the first cell of a group that answers to a matcher.
pub fn load_cell_data(tx: &Transaction, source: Source, matcher: &CellMatcher) -> (data: Option<
    Vec<u8>,
>)
    ensures
        match data {
            Some(bytes) => first_match_data(tx@.cells(source), matcher@) == Some(bytes@),
            None => first_match_data(tx@.cells(source), matcher@) == None::<Seq<u8>>,
        },
{
    match find_cell(tx, source, matcher) {
        Some(index) => Some(slice_to_vec(tx.cell(source, index).data.as_slice())),
        None => None,
    }
}

/// The matcher that asks a cell for a type script that answers to `predicate`.
pub open spec fn by_type(predicate: ScriptMatcherView) -> CellMatcherView {
    CellMatcherView::Type { predicate }
}

/// The matcher that asks a cell for exactly this type script.
pub open spec fn by_exact_type(script: ScriptView) -> CellMatcherView {
    CellMatcherView::Type { predicate: ScriptMatcherView::Exact { script } }
}

/// The data of the first cell of a group that carries the running script as
/// its type: the data of the entity that is being judged, before the
/// transaction among the inputs and after it among the outputs.
pub open spec fn group_data(tx: TransactionView, source: Source) -> Option<Seq<u8>> {
    first_match_data(tx.cells(source), by_exact_type(tx.script))
}

/// A copy of the data of the first cell of a group that carries the running
/// script as its type.
pub fn load_group_data(tx: &Transaction, source: Source) -> (data: Option<Vec<u8>>)
    ensures
        match data {
            Some(bytes) => group_data(tx@, source) == Some(bytes@),
            None => group_data(tx@, source) == None::<Seq<u8>>,
        },
{
    load_cell_data(
        tx,
        source,
        &CellMatcher::Type { predicate: ScriptMatcher::Exact { script: &tx.script } },
    )
}

/// How often the running script stands as a type among the inputs and among
/// the outputs, classified as an action.
pub open spec fn entity_action(tx: TransactionView) -> Option<Action> {
    classify(
        count_matching(tx.cells(Source::Input), by_exact_type(tx.script)),
        count_matching(tx.cells(Source::Output), by_exact_type(tx.script)),
    )
}

/// Classifies the transaction as an action on the entity that the running
/// script stands for, or fails with the given error.
pub fn parse_entity_action(tx: &Transaction, count_error: Error) -> (r: Result<Action, Error>)
    ensures
        r == match entity_action(tx@) {
            Some(action) => Ok::<Action, Error>(action),
            None => Err::<Action, Error>(count_error),
        },
{
    let own = ScriptMatcher::Exact { script: &tx.script };
    let input_count: usize = count_cells_by_type(tx, Source::Input, &own);
    let output_count: usize = count_cells_by_type(tx, Source::Output, &own);
    parse_action(input_count, output_count, count_error)
}

/// The matcher that asks a cell for a type hash that answers to `predicate`.
pub open spec fn by_type_hash(hash_predicate: HashMatcherView) -> CellMatcherView {
    CellMatcherView::TypeHash { hash_predicate }
}

/// The matcher that asks a cell for exactly this lock.
pub open spec fn by_lock(script: ScriptView) -> CellMatcherView {
    CellMatcherView::Lock { script }
}

/// How many cells of a group have a type script that answers to a matcher.
pub fn count_cells_by_type(tx: &Transaction, source: Source, predicate: &ScriptMatcher) -> (count:
    usize)
    ensures
        count == count_matching(tx@.cells(source), by_type(predicate@)),
{
    count_cells(tx, source, &CellMatcher::Type { predicate: *predicate })
}

/// How many cells of a group have a type hash that answers to a matcher.
pub fn count_cells_by_type_hash(tx: &Transaction, source: Source, predicate: &HashMatcher) -> (count:
    usize)
    ensures
        count == count_matching(tx@.cells(source), by_type_hash(predicate@)),
{
    count_cells(tx, source, &CellMatcher::TypeHash { hash_predicate: *predicate })
}

/// The index of the first output whose type is exactly the given script.
pub fn load_output_index_by_type(tx: &Transaction, type_script: &Script) -> (found: Option<usize>)
    ensures
        match found {
            Some(index) => first_match(tx@.outputs, by_exact_type(type_script@)) == Some(
                index as int,
            ),
            None => first_match(tx@.outputs, by_exact_type(type_script@)) == None::<int>,
        },
{
    find_cell(
        tx,
        Source::Output,
        &CellMatcher::Type { predicate: ScriptMatcher::Exact { script: type_script } },
    )
}

/// A copy of the data of the first cell of a group whose type script answers
/// to a matcher.
pub fn load_cell_data_by_type(tx: &Transaction, source: Source, predicate: &ScriptMatcher) -> (data:
    Option<Vec<u8>>)
    ensures
        match data {
            Some(bytes) => first_match_data(tx@.cells(source), by_type(predicate@)) == Some(
                bytes@,
            ),
            None => first_match_data(tx@.cells(source), by_type(predicate@)) == None::<Seq<u8>>,
        },
{
    load_cell_data(tx, source, &CellMatcher::Type { predicate: *predicate })
}

/// A copy of the data of the first cell of a group whose type hash answers to
/// a matcher.
pub fn load_cell_data_by_type_hash(
    tx: &Transaction,
    source: Source,
    predicate: &HashMatcher,
) -> (data: Option<Vec<u8>>)
    ensures
        match data {
            Some(bytes) => first_match_data(tx@.cells(source), by_type_hash(predicate@)) == Some(
                bytes@,
            ),
            None => first_match_data(tx@.cells(source), by_type_hash(predicate@)) == None::<
                Seq<u8>,
            >,
        },
{
    load_cell_data(tx, source, &CellMatcher::TypeHash { hash_predicate: *predicate })
}

/// The capacity of the payment cell: the first output under the payment lock.
pub open spec fn payment_capacity(tx: TransactionView, payment_lock: ScriptView) -> Result<
    u64,
    Error,
> {
    match first_match(tx.outputs, by_lock(payment_lock)) {
        Some(index) => Ok(tx.outputs[index].capacity),
        None => Err(Error::InvalidPaymentLockScript),
    }
}

/// The capacity of the first output under the payment lock; an error where no
/// output is under it.
pub fn load_payment_cell_capacity(tx: &Transaction, payment_lock: &Script) -> (r: Result<
    u64,
    Error,
>)
    ensures
        r == payment_capacity(tx@, payment_lock@),
{
    match find_cell(tx, Source::Output, &CellMatcher::Lock { script: payment_lock }) {
        Some(index) => Ok(tx.outputs[index].capacity),
        None => Err(Error::InvalidPaymentLockScript),
    }
}

/// The number that ends a script's arguments: the big-endian value of the
/// bytes from `slice_start` on, where exactly four bytes are left there.
pub open spec fn type_args_id(args: Seq<u8>, slice_start: int) -> Option<u32> {
    if 0 <= slice_start && args.len() == slice_start + ID_LEN {
        Some(be_u32(args.subrange(slice_start, slice_start + ID_LEN)) as u32)
    } else {
        None
    }
}

/// Reads the number that ends a script's arguments. `None` where what is left
/// of the arguments from `slice_start` on is not exactly four bytes.
pub fn parse_type_args_id(type_script: &Script, slice_start: usize) -> (id: Option<u32>)
    ensures
        id == type_args_id(type_script@.args, slice_start as int),
{
    let args: &[u8] = type_script.args.as_slice();
    if slice_start > args.len() || args.len() - slice_start != ID_LEN {
        return None;
    }
    Some(u32_from_slice(slice_subrange(args, slice_start, args.len())))
}

/// The numbers that end the type arguments of the cells that answer to a
/// matcher, in the cells' order. A cell that answers but whose arguments do
/// not end in such a number adds nothing.
pub open spec fn type_args_ids(
    cells: Seq<CellView>,
    slice_start: int,
    predicate: ScriptMatcherView,
) -> Seq<u32>
    decreases cells.len(),
{
    if cells.len() == 0 {
        Seq::<u32>::empty()
    } else {
        let front = type_args_ids(cells.drop_last(), slice_start, predicate);
        match cells.last().type_script {
            Some(script) => if predicate.matches(script) {
                match type_args_id(script.args, slice_start) {
                    Some(id) => front.push(id),
                    None => front,
                }
            } else {
                front
            },
            None => front,
        }
    }
}

/// The numbers that end the type arguments of the outputs whose type script
/// answers to a matcher, in the outputs' order.
pub fn load_output_type_args_ids(
    tx: &Transaction,
    slice_start: usize,
    predicate: &ScriptMatcher,
) -> (ids: Vec<u32>)
    ensures
        ids@ == type_args_ids(tx@.outputs, slice_start as int, predicate@),
{
    let total: usize = tx.outputs.len();
    let ghost cells = tx@.outputs;
    let mut ids: Vec<u32> = Vec::new();
    let mut index: usize = 0;
    while index < total
        invariant
            cells == tx@.outputs,
            total == tx.outputs.len(),
            total == cells.len(),
            index <= total,
            ids@ == type_args_ids(cells.take(index as int), slice_start as int, predicate@),
        decreases total - index,
    {
        proof {
            assert(cells.take(index + 1).drop_last() =~= cells.take(index as int));
            assert(cells.take(index + 1).last() == cells[index as int]);
        }
        match &tx.outputs[index].type_script {
            Some(script) => {
                if predicate.matches(script) {
                    match parse_type_args_id(script, slice_start) {
                        Some(id) => {
                            ids.push(id);
                        },
                        None => {},
                    }
                }
            },
            None => {},
        }
        index = index + 1;
    }
    proof {
        assert(cells.take(total as int) =~= cells);
    }
    ids
}

/// The type script of the class that a token's type arguments name: the
/// class code and hash type of the deployment, with the first 24 bytes of the
/// token's arguments as its own.
pub open spec fn class_type(class_code_hash: Seq<u8>, class_hash_type: u8, nft_args: Seq<u8>)
    -> ScriptView
    recommends
        nft_args.len() >= CLASS_TYPE_ARGS_LEN,
{
    ScriptView {
        code_hash: class_code_hash,
        hash_type: class_hash_type,
        args: nft_args.subrange(0, CLASS_TYPE_ARGS_LEN as int),
    }
}

/// Builds the type script of the class that a token's type arguments name.
pub fn load_class_type(class_code_hash: &[u8], class_hash_type: u8, nft_args: &[u8]) -> (script:
    Script)
    requires
        nft_args@.len() >= CLASS_TYPE_ARGS_LEN,
    ensures
        script@ == class_type(class_code_hash@, class_hash_type, nft_args@),
{
    Script {
        code_hash: slice_to_vec(class_code_hash),
        hash_type: class_hash_type,
        args: slice_to_vec(slice_subrange(nft_args, 0, CLASS_TYPE_ARGS_LEN)),
    }
}

/// Whether the first cell dependency is the token's issuer or class and lies
/// under the lock of the first input. The issuer is known by the first 20
/// bytes of its type hash, the class by its type script.
pub open spec fn issuer_or_class_lock(
    tx: TransactionView,
    class_code_hash: Seq<u8>,
    class_hash_type: u8,
    nft_args: Seq<u8>,
) -> Result<bool, Error>
    recommends
        nft_args.len() >= CLASS_TYPE_ARGS_LEN,
{
    if tx.cell_deps.len() == 0 || tx.inputs.len() == 0 {
        Err(Error::IndexOutOfBound)
    } else if tx.cell_deps[0].lock != tx.inputs[0].cell.lock {
        Ok(false)
    } else {
        Ok(
            by_type_hash(
                HashMatcherView::Prefix {
                    bytes: nft_args.subrange(0, ISSUER_TYPE_ARGS_LEN as int),
                },
            ).holds(tx.cell_deps[0]) || by_exact_type(
                class_type(class_code_hash, class_hash_type, nft_args),
            ).holds(tx.cell_deps[0]),
        )
    }
}

/// Whether the first cell dependency is the token's issuer or class and lies
/// under the lock of the first input. Fails where the transaction has no
/// cell dependency or no input.
pub fn cell_deps_and_inputs_have_issuer_or_class_lock(
    tx: &Transaction,
    class_code_hash: &[u8],
    class_hash_type: u8,
    nft_args: &[u8],
) -> (r: Result<bool, Error>)
    requires
        nft_args@.len() >= CLASS_TYPE_ARGS_LEN,
    ensures
        r == issuer_or_class_lock(tx@, class_code_hash@, class_hash_type, nft_args@),
{
    if tx.cell_deps.len() == 0 || tx.inputs.len() == 0 {
        return Err(Error::IndexOutOfBound);
    }
    let dep = &tx.cell_deps[0];
    if !dep.lock.same_as(&tx.inputs[0].cell.lock) {
        return Ok(false);
    }
    let issuer = CellMatcher::TypeHash {
        hash_predicate: HashMatcher::Prefix {
            bytes: slice_subrange(nft_args, 0, ISSUER_TYPE_ARGS_LEN),
        },
    };
    if issuer.holds(dep) {
        return Ok(true);
    }
    let class_script = load_class_type(class_code_hash, class_hash_type, nft_args);
    let class = CellMatcher::Type { predicate: ScriptMatcher::Exact { script: &class_script } };
    Ok(class.holds(dep))
}

/// Whether a witness carries no proof for the lock: it is missing, its lock
/// field is absent, or its lock field holds no byte. A signature is never
/// empty, so a field of zero bytes proves as little as none.
pub open spec fn witness_has_no_proof(witness: Option<WitnessArgsView>) -> bool {
    match witness {
        Some(args) => match args.lock {
            Some(lock_proof) => lock_proof.len() == 0,
            None => true,
        },
        None => true,
    }
}

/// Tests whether a witness carries no proof for the lock.
pub fn witness_lacks_proof(witness: &Option<WitnessArgs>) -> (lacking: bool)
    ensures
        lacking == witness_has_no_proof(
            match *witness {
                Some(args) => Some(args@),
                None => None,
            },
        ),
{
    match witness {
        Some(args) => match &args.lock {
            Some(lock_proof) => lock_proof.len() == 0,
            None => true,
        },
        None => true,
    }
}

/// Whether the witness that answers for an entity's input carries no proof
/// for the lock. The entity's input is the first input with the given type;
/// the witness looked at is that of the first input under the same lock. It
/// carries no proof where it is missing, where its lock field is absent, or
/// where that field is empty. Fails where no input has the given type.
pub open spec fn group_input_witness_is_none(tx: TransactionView, type_script: ScriptView)
    -> Result<bool, Error> {
    match first_match(tx.cells(Source::Input), by_exact_type(type_script)) {
        None => Err(Error::Encoding),
        Some(entity) => match first_match(
            tx.cells(Source::Input),
            by_lock(tx.inputs[entity].cell.lock),
        ) {
            None => Err(Error::Encoding),
            Some(signer) => Ok(witness_has_no_proof(tx.inputs[signer].witness)),
        },
    }
}

/// Looks for the proof that must accompany a change to an entity: `Ok(true)`
/// says that there is none. A lock that anyone can satisfy by paying needs no
/// proof, so without this test it would be enough to change the entity.
pub fn check_group_input_witness_is_none_with_type(tx: &Transaction, type_script: &Script) -> (r:
    Result<bool, Error>)
    ensures
        r == group_input_witness_is_none(tx@, type_script@),
{
    let entity: usize = match find_cell(
        tx,
        Source::Input,
        &CellMatcher::Type { predicate: ScriptMatcher::Exact { script: type_script } },
    ) {
        Some(index) => index,
        None => {
            return Err(Error::Encoding);
        },
    };
    let lock_script: &Script = &tx.inputs[entity].cell.lock;
    match find_cell(tx, Source::Input, &CellMatcher::Lock { script: lock_script }) {
        Some(signer) => Ok(witness_lacks_proof(&tx.inputs[signer].witness)),
        None => Err(Error::Encoding),
    }
}

/// Where the witness that answers for the entity carries no proof, the lock
/// test says so: the entity's input is `entity`, the first input under its
/// lock is `signer`, and that input's witness is missing or has an absent
/// or empty lock field.
pub proof fn witness_without_proof_is_seen(
    tx: TransactionView,
    type_script: ScriptView,
    entity: int,
    signer: int,
)
    requires
        is_first_match(tx.cells(Source::Input), by_exact_type(type_script), entity),
        is_first_match(tx.cells(Source::Input), by_lock(tx.inputs[entity].cell.lock), signer),
    ensures
        group_input_witness_is_none(tx, type_script) == Ok::<bool, Error>(
            witness_has_no_proof(tx.inputs[signer].witness),
        ),
{
    first_match_is(tx.cells(Source::Input), by_exact_type(type_script), entity);
    first_match_is(tx.cells(Source::Input), by_lock(tx.inputs[entity].cell.lock), signer);
}

/// The lock test never fails for want of a signer: the entity's own input is
/// under its lock, so where an input has the entity's type the test gives an
/// answer.
pub proof fn witness_check_answers(tx: TransactionView, type_script: ScriptView)
    ensures
        group_input_witness_is_none(tx, type_script) is Ok <==> count_matching(
            tx.cells(Source::Input),
            by_exact_type(type_script),
        ) > 0,
{
    let inputs = tx.cells(Source::Input);
    crate::matcher::first_match_facts(inputs, by_exact_type(type_script));
    match first_match(inputs, by_exact_type(type_script)) {
        Some(entity) => {
            let lock = by_lock(tx.inputs[entity].cell.lock);
            crate::matcher::first_match_facts(inputs, lock);
            assert(lock.holds(inputs[entity]));
        },
        None => {},
    }
}

} // verus!
