//! What a validator sees of the transaction it judges.
//!
//! The host hands over the transaction's cells in three groups (inputs,
//! outputs and cell dependencies) and the script that is being run. The
//! types here hold that as plain values; the rules read nothing else.

use vstd::prelude::*;
use crate::bytes::bytes_eq;

verus! {

/// A script: the hash of its code, how that hash is to be read, and its
/// arguments. Attached to a cell as its lock it says who may spend the cell;
/// as its type it names the entity that the cell holds.
#[derive(Debug, Clone, PartialEq, Eq)]
pub struct Script {
    pub code_hash: Vec<u8>,
    pub hash_type: u8,
    pub args: Vec<u8>,
}

/// A script as a mathematical value.
pub struct ScriptView {
    pub code_hash: Seq<u8>,
    pub hash_type: u8,
    pub args: Seq<u8>,
}

impl View for Script {
    type V = ScriptView;

    open spec fn view(&self) -> ScriptView {
        ScriptView { code_hash: self.code_hash@, hash_type: self.hash_type, args: self.args@ }
    }
}

impl Script {
    /// Whether two scripts are equal in code hash, hash type and arguments.
    pub fn same_as(&self, other: &Script) -> (same: bool)
        ensures
            same == (self@ == other@),
    {
        self.hash_type == other.hash_type && bytes_eq(
            self.code_hash.as_slice(),
            other.code_hash.as_slice(),
        ) && bytes_eq(self.args.as_slice(), other.args.as_slice())
    }
}

/// The output of an earlier transaction that an input spends.
#[derive(Debug, Clone, PartialEq, Eq)]
pub struct OutPoint {
    pub tx_hash: Vec<u8>,
    pub index: u32,
}

/// An out point as a mathematical value.
pub struct OutPointView {
    pub tx_hash: Seq<u8>,
    pub index: u32,
}

impl View for OutPoint {
    type V = OutPointView;

    open spec fn view(&self) -> OutPointView {
        OutPointView { tx_hash: self.tx_hash@, index: self.index }
    }
}

/// The part of an input's witness that the rules read: the proof for the
/// lock, where the witness carries one. A proof of no bytes counts as none.
#[derive(Debug, Clone, PartialEq, Eq)]
pub struct WitnessArgs {
    pub lock: Option<Vec<u8>>,
}

/// A witness as a mathematical value.
pub struct WitnessArgsView {
    pub lock: Option<Seq<u8>>,
}

impl View for WitnessArgs {
    type V = WitnessArgsView;

    open spec fn view(&self) -> WitnessArgsView {
        WitnessArgsView {
            lock: match self.lock {
                Some(proof_bytes) => Some(proof_bytes@),
                None => None,
            },
        }
    }
}

/// A cell: a capacity, the capacity that its own content occupies, a lock, a
/// type where it has one, the hash of that type as the host computed it, and
/// a data blob.
#[derive(Debug, Clone, PartialEq, Eq)]
pub struct Cell {
    pub capacity: u64,
    pub occupied_capacity: u64,
    pub lock: Script,
    pub type_script: Option<Script>,
    pub type_hash: Option<Vec<u8>>,
    pub data: Vec<u8>,
}

/// A cell as a mathematical value.
pub struct CellView {
    pub capacity: u64,
    pub occupied_capacity: u64,
    pub lock: ScriptView,
    pub type_script: Option<ScriptView>,
    pub type_hash: Option<Seq<u8>>,
    pub data: Seq<u8>,
}

impl View for Cell {
    type V = CellView;

    open spec fn view(&self) -> CellView {
        CellView {
            capacity: self.capacity,
            occupied_capacity: self.occupied_capacity,
            lock: self.lock@,
            type_script: match self.type_script {
                Some(script) => Some(script@),
                None => None,
            },
            type_hash: match self.type_hash {
                Some(hash) => Some(hash@),
                None => None,
            },
            data: self.data@,
        }
    }
}

/// An input: the out point that it spends, the cell found there, and the
/// witness at the input's index. The witness is `None` where the transaction
/// has none at that index or where it is not well-formed.
#[derive(Debug, Clone, PartialEq, Eq)]
pub struct CellInput {
    pub previous_output: OutPoint,
    pub cell: Cell,
    pub witness: Option<WitnessArgs>,
}

/// An input as a mathematical value.
pub struct CellInputView {
    pub previous_output: OutPointView,
    pub cell: CellView,
    pub witness: Option<WitnessArgsView>,
}

impl View for CellInput {
    type V = CellInputView;

    open spec fn view(&self) -> CellInputView {
        CellInputView {
            previous_output: self.previous_output@,
            cell: self.cell@,
            witness: match self.witness {
                Some(witness) => Some(witness@),
                None => None,
            },
        }
    }
}

/// One of the three groups of cells of a transaction.
#[derive(Debug, Clone, Copy, PartialEq, Eq, Structural)]
pub enum Source {
    Input,
    Output,
    CellDep,
}

/// A transaction as the validator of one entity sees it: the type script that
/// is being run and the cells of the three groups, each in the order in which
/// the transaction lists them.
#[derive(Debug, Clone, PartialEq, Eq)]
pub struct Transaction {
    pub script: Script,
    pub inputs: Vec<CellInput>,
    pub outputs: Vec<Cell>,
    pub cell_deps: Vec<Cell>,
}

/// A transaction as a mathematical value.
pub struct TransactionView {
    pub script: ScriptView,
    pub inputs: Seq<CellInputView>,
    pub outputs: Seq<CellView>,
    pub cell_deps: Seq<CellView>,
}

impl View for Transaction {
    type V = TransactionView;

    open spec fn view(&self) -> TransactionView {
        TransactionView {
            script: self.script@,
            inputs: self.inputs@.map_values(|input: CellInput| input@),
            outputs: self.outputs@.map_values(|cell: Cell| cell@),
            cell_deps: self.cell_deps@.map_values(|cell: Cell| cell@),
        }
    }
}

impl TransactionView {
    /// The cells of one group, in the transaction's order.
    pub open spec fn cells(self, source: Source) -> Seq<CellView> {
        match source {
            Source::Input => self.inputs.map_values(|input: CellInputView| input.cell),
            Source::Output => self.outputs,
            Source::CellDep => self.cell_deps,
        }
    }
}

impl Transaction {
    /// How many cells a group holds.
    pub fn cell_count(&self, source: Source) -> (count: usize)
        ensures
            count == self@.cells(source).len(),
    {
        match source {
            Source::Input => self.inputs.len(),
            Source::Output => self.outputs.len(),
            Source::CellDep => self.cell_deps.len(),
        }
    }

    /// The cell at an index of a group.
    pub fn cell(&self, source: Source, index: usize) -> (cell: &Cell)
        requires
            index < self@.cells(source).len(),
        ensures
            cell@ == self@.cells(source)[index as int],
    {
        match source {
            Source::Input => &self.inputs[index].cell,
            Source::Output => &self.outputs[index],
            Source::CellDep => &self.cell_deps[index],
        }
    }
}

} // verus!
