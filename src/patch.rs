//! JSON Patch operations as plain values.

use vstd::prelude::*;

verus! {

/// The value carried by a patch operation: a string, a flag, or an object of
/// string entries.
#[derive(Clone, Debug, PartialEq, Eq)]
pub enum PatchValue {
    String(String),
    Bool(bool),
    Object(Vec<(String, String)>),
}

/// Mathematical form of a [`PatchValue`].
pub ghost enum ValueModel {
    Text(Seq<char>),
    Flag(bool),
    Entries(Seq<(Seq<char>, Seq<char>)>),
}

/// Mathematical form of a [`PatchOperation`].
pub ghost enum Op {
    Add { path: Seq<char>, value: ValueModel },
    Replace { path: Seq<char>, value: ValueModel },
}

impl Op {
    pub open spec fn path(self) -> Seq<char> {
        match self {
            Op::Add { path, .. } => path,
            Op::Replace { path, .. } => path,
        }
    }

    pub open spec fn value(self) -> ValueModel {
        match self {
            Op::Add { value, .. } => value,
            Op::Replace { value, .. } => value,
        }
    }
}

pub open spec fn entry_view(e: (String, String)) -> (Seq<char>, Seq<char>) {
    (e.0@, e.1@)
}

pub open spec fn entries_view(s: Seq<(String, String)>) -> Seq<(Seq<char>, Seq<char>)> {
    s.map_values(|e: (String, String)| entry_view(e))
}

impl View for PatchValue {
    type V = ValueModel;

    open spec fn view(&self) -> ValueModel {
        match self {
            PatchValue::String(s) => ValueModel::Text(s@),
            PatchValue::Bool(b) => ValueModel::Flag(*b),
            PatchValue::Object(entries) => ValueModel::Entries(entries_view(entries@)),
        }
    }
}

/// A single JSON Patch operation addressed by a JSON Pointer.
#[derive(Clone, Debug, PartialEq, Eq)]
pub enum PatchOperation {
    Add { path: String, value: PatchValue },
    Replace { path: String, value: PatchValue },
}

impl View for PatchOperation {
    type V = Op;

    open spec fn view(&self) -> Op {
        match self {
            PatchOperation::Add { path, value } => Op::Add { path: path@, value: value@ },
            PatchOperation::Replace { path, value } => Op::Replace { path: path@, value: value@ },
        }
    }
}

pub open spec fn ops_view(s: Seq<PatchOperation>) -> Seq<Op> {
    s.map_values(|p: PatchOperation| p@)
}

/// JSON Pointer syntax: empty, or a leading `/` with every `~` escaped as
/// `~0` or `~1`.
pub open spec fn valid_pointer(s: Seq<char>) -> bool {
    s.len() == 0 || (s[0] == '/' && forall|i: int|
        0 <= i < s.len() && #[trigger] s[i] == '~' ==> i + 1 < s.len() && (s[i + 1] == '0' || s[i
            + 1] == '1'))
}

/// Builds an `add` operation.
pub fn add_patch(path: String, value: PatchValue) -> (r: PatchOperation)
    requires
        valid_pointer(path@),
    ensures
        r@ == (Op::Add { path: path@, value: value@ }),
{
    PatchOperation::Add { path, value }
}

/// Builds a `replace` operation.
pub fn replace_patch(path: String, value: PatchValue) -> (r: PatchOperation)
    requires
        valid_pointer(path@),
    ensures
        r@ == (Op::Replace { path: path@, value: value@ }),
{
    PatchOperation::Replace { path, value }
}

} // verus!
