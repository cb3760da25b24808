//! Matchers: the questions that the rules ask of a cell when they look for
//! related cells in a group.

use vstd::prelude::*;
use vstd::slice::slice_subrange;
use crate::bytes::bytes_eq;
use crate::transaction::{Cell, CellView, Script, ScriptView};

verus! {

/// A question asked of a script.
#[derive(Debug, Clone, Copy)]
pub enum ScriptMatcher<'a> {
    /// The script is this one: the same code hash, hash type and arguments.
    Exact { script: &'a Script },
    /// The script has this code hash and hash type, its arguments are
    /// `args_len` bytes long, and from offset `start` on they hold `bytes`.
    ArgRange { code_hash: &'a [u8], hash_type: u8, args_len: usize, start: usize, bytes: &'a [u8] },
}

/// A script matcher as a mathematical value.
pub enum ScriptMatcherView {
    Exact { script: ScriptView },
    ArgRange { code_hash: Seq<u8>, hash_type: u8, args_len: nat, start: nat, bytes: Seq<u8> },
}

impl<'a> View for ScriptMatcher<'a> {
    type V = ScriptMatcherView;

    open spec fn view(&self) -> ScriptMatcherView {
        match *self {
            ScriptMatcher::Exact { script } => ScriptMatcherView::Exact { script: script@ },
            ScriptMatcher::ArgRange {
                code_hash,
                hash_type,
                args_len,
                start,
                bytes,
            } => ScriptMatcherView::ArgRange {
                code_hash: code_hash@,
                hash_type,
                args_len: args_len as nat,
                start: start as nat,
                bytes: bytes@,
            },
        }
    }
}

impl ScriptMatcherView {
    /// Whether a script answers to the matcher.
    pub open spec fn matches(self, script: ScriptView) -> bool {
        match self {
            ScriptMatcherView::Exact { script: wanted } => script == wanted,
            ScriptMatcherView::ArgRange { code_hash, hash_type, args_len, start, bytes } => {
                &&& script.code_hash == code_hash
                &&& script.hash_type == hash_type
                &&& script.args.len() == args_len
                &&& start + bytes.len() <= script.args.len()
                &&& script.args.subrange(start as int, start + bytes.len() as int) == bytes
            },
        }
    }

    /// Whether a cell has a type script that answers to the matcher.
    pub open spec fn matches_type(self, type_script: Option<ScriptView>) -> bool {
        match type_script {
            Some(script) => self.matches(script),
            None => false,
        }
    }
}

impl<'a> ScriptMatcher<'a> {
    /// Whether a script answers to the matcher.
    pub fn matches(&self, script: &Script) -> (hit: bool)
        ensures
            hit == self@.matches(script@),
    {
        match *self {
            ScriptMatcher::Exact { script: wanted } => script.same_as(wanted),
            ScriptMatcher::ArgRange { code_hash, hash_type, args_len, start, bytes } => {
                let args: &[u8] = script.args.as_slice();
                if script.hash_type != hash_type || args.len() != args_len {
                    return false;
                }
                if start > args.len() || bytes.len() > args.len() - start {
                    return false;
                }
                bytes_eq(script.code_hash.as_slice(), code_hash) && bytes_eq(
                    slice_subrange(args, start, start + bytes.len()),
                    bytes,
                )
            },
        }
    }
}

/// Whether a cell's type, where it has one, answers to the matcher.
pub fn parse_type_opt(type_opt: &Option<Script>, predicate: &ScriptMatcher) -> (hit: bool)
    ensures
        hit == predicate@.matches_type(
            match *type_opt {
                Some(script) => Some(script@),
                None => None,
            },
        ),
{
    match type_opt {
        Some(script) => predicate.matches(script),
        None => false,
    }
}

/// A question asked of the hash of a cell's type script.
#[derive(Debug, Clone, Copy)]
pub enum HashMatcher<'a> {
    /// The hash is this one.
    Exact { hash: &'a [u8] },
    /// The hash starts with these bytes.
    Prefix { bytes: &'a [u8] },
}

/// A hash matcher as a mathematical value.
pub enum HashMatcherView {
    Exact { hash: Seq<u8> },
    Prefix { bytes: Seq<u8> },
}

impl<'a> View for HashMatcher<'a> {
    type V = HashMatcherView;

    open spec fn view(&self) -> HashMatcherView {
        match *self {
            HashMatcher::Exact { hash } => HashMatcherView::Exact { hash: hash@ },
            HashMatcher::Prefix { bytes } => HashMatcherView::Prefix { bytes: bytes@ },
        }
    }
}

impl HashMatcherView {
    /// Whether a hash answers to the matcher.
    pub open spec fn matches(self, hash: Seq<u8>) -> bool {
        match self {
            HashMatcherView::Exact { hash: wanted } => hash == wanted,
            HashMatcherView::Prefix { bytes } => {
                bytes.len() <= hash.len() && hash.subrange(0, bytes.len() as int) == bytes
            },
        }
    }
}

impl<'a> HashMatcher<'a> {
    /// Whether a hash answers to the matcher.
    pub fn matches(&self, hash: &[u8]) -> (hit: bool)
        ensures
            hit == self@.matches(hash@),
    {
        match *self {
            HashMatcher::Exact { hash: wanted } => bytes_eq(hash, wanted),
            HashMatcher::Prefix { bytes } => {
                bytes.len() <= hash.len() && bytes_eq(slice_subrange(hash, 0, bytes.len()), bytes)
            },
        }
    }
}

/// A question asked of a cell: of its type script, of the hash of its type
/// script, or of its lock.
#[derive(Debug, Clone, Copy)]
pub enum CellMatcher<'a> {
    Type { predicate: ScriptMatcher<'a> },
    TypeHash { hash_predicate: HashMatcher<'a> },
    Lock { script: &'a Script },
}

/// A cell matcher as a mathematical value.
pub enum CellMatcherView {
    Type { predicate: ScriptMatcherView },
    TypeHash { hash_predicate: HashMatcherView },
    Lock { script: ScriptView },
}

impl<'a> View for CellMatcher<'a> {
    type V = CellMatcherView;

    open spec fn view(&self) -> CellMatcherView {
        match *self {
            CellMatcher::Type { predicate } => CellMatcherView::Type { predicate: predicate@ },
            CellMatcher::TypeHash { hash_predicate } => CellMatcherView::TypeHash {
                hash_predicate: hash_predicate@,
            },
            CellMatcher::Lock { script } => CellMatcherView::Lock { script: script@ },
        }
    }
}

impl CellMatcherView {
    /// Whether a cell answers to the matcher. A cell without a type answers to
    /// no question about its type.
    pub open spec fn holds(self, cell: CellView) -> bool {
        match self {
            CellMatcherView::Type { predicate } => predicate.matches_type(cell.type_script),
            CellMatcherView::TypeHash { hash_predicate } => match cell.type_hash {
                Some(hash) => hash_predicate.matches(hash),
                None => false,
            },
            CellMatcherView::Lock { script } => cell.lock == script,
        }
    }
}

impl<'a> CellMatcher<'a> {
    /// Whether a cell answers to the matcher.
    pub fn holds(&self, cell: &Cell) -> (hit: bool)
        ensures
            hit == self@.holds(cell@),
    {
        match *self {
            CellMatcher::Type { predicate } => parse_type_opt(&cell.type_script, &predicate),
            CellMatcher::TypeHash { hash_predicate } => match &cell.type_hash {
                Some(hash) => hash_predicate.matches(hash.as_slice()),
                None => false,
            },
            CellMatcher::Lock { script } => cell.lock.same_as(script),
        }
    }
}

/// How many cells of a sequence answer to a matcher.
pub open spec fn count_matching(cells: Seq<CellView>, matcher: CellMatcherView) -> nat
    decreases cells.len(),
{
    if cells.len() == 0 {
        0
    } else {
        count_matching(cells.drop_last(), matcher) + if matcher.holds(cells.last()) {
            1nat
        } else {
            0nat
        }
    }
}

/// Whether `index` is the place of the first cell that answers to a matcher.
pub open spec fn is_first_match(cells: Seq<CellView>, matcher: CellMatcherView, index: int) -> bool {
    &&& 0 <= index < cells.len()
    &&& matcher.holds(cells[index])
    &&& forall|j: int| 0 <= j < index ==> !matcher.holds(#[trigger] cells[j])
}

/// The place of the first cell that answers to a matcher, if any does.
pub open spec fn first_match(cells: Seq<CellView>, matcher: CellMatcherView) -> Option<int> {
    if exists|index: int| is_first_match(cells, matcher, index) {
        Some(choose|index: int| is_first_match(cells, matcher, index))
    } else {
        None
    }
}

/// The first match is the one index that is a first match.
pub proof fn first_match_is(cells: Seq<CellView>, matcher: CellMatcherView, index: int)
    requires
        is_first_match(cells, matcher, index),
    ensures
        first_match(cells, matcher) == Some(index),
{
    let chosen = choose|i: int| is_first_match(cells, matcher, i);
    assert(is_first_match(cells, matcher, chosen));
    if chosen < index {
        assert(!matcher.holds(cells[chosen]));
    }
    if index < chosen {
        assert(!matcher.holds(cells[index]));
    }
}

/// There is no first match where no cell answers.
pub proof fn first_match_none(cells: Seq<CellView>, matcher: CellMatcherView)
    requires
        forall|j: int| 0 <= j < cells.len() ==> !matcher.holds(#[trigger] cells[j]),
    ensures
        first_match(cells, matcher) == None::<int>,
{
}

/// A first match is a cell that answers, and none before it does; where
/// there is none, no cell answers and the count is zero.
pub proof fn first_match_facts(cells: Seq<CellView>, matcher: CellMatcherView)
    ensures
        match first_match(cells, matcher) {
            Some(index) => is_first_match(cells, matcher, index) && count_matching(cells, matcher)
                > 0,
            None => count_matching(cells, matcher) == 0 && forall|j: int|
                0 <= j < cells.len() ==> !matcher.holds(#[trigger] cells[j]),
        },
    decreases cells.len(),
{
    if cells.len() > 0 {
        let front = cells.drop_last();
        first_match_facts(front, matcher);
        match first_match(front, matcher) {
            Some(index) => {
                assert(is_first_match(cells, matcher, index)) by {
                    assert(front[index] == cells[index]);
                    assert forall|j: int| 0 <= j < index implies !matcher.holds(
                        #[trigger] cells[j],
                    ) by {
                        assert(front[j] == cells[j]);
                    }
                }
                first_match_is(cells, matcher, index);
            },
            None => {
                assert forall|j: int| 0 <= j < cells.len() - 1 implies !matcher.holds(
                    #[trigger] cells[j],
                ) by {
                    assert(front[j] == cells[j]);
                }
                if matcher.holds(cells.last()) {
                    first_match_is(cells, matcher, cells.len() - 1);
                } else {
                    first_match_none(cells, matcher);
                }
            },
        }
    }
}

} // verus!
