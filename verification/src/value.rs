//! Value types and function signatures.

use vstd::prelude::*;
use vstd::std_specs::cmp::PartialEqSpecImpl;

verus! {

/// The scalar kinds of the machine. They describe a value and carry none.
#[derive(Clone, Copy, Debug, PartialEq, Eq, Hash, Structural)]
pub enum ArbValueType {
    I32,
    I64,
    F32,
    F64,
}

/// What a signature is: the parameter kinds and the result kinds, each in order.
pub struct Signature {
    pub inputs: Seq<ArbValueType>,
    pub outputs: Seq<ArbValueType>,
}

/// The signature of a function.
#[derive(Debug)]
pub struct FunctionType {
    pub inputs: Vec<ArbValueType>,
    pub outputs: Vec<ArbValueType>,
}

impl View for FunctionType {
    type V = Signature;

    open spec fn view(&self) -> Signature {
        Signature { inputs: self.inputs@, outputs: self.outputs@ }
    }
}

/// Whether two lists of value types match position by position.
pub fn same_types(a: &Vec<ArbValueType>, b: &Vec<ArbValueType>) -> (same: bool)
    ensures
        same == (a@ == b@),
{
    if a.len() != b.len() {
        return false;
    }
    let mut i: usize = 0;
    while i < a.len()
        invariant
            a.len() == b.len(),
            i <= a.len(),
            forall|j: int| 0 <= j < i ==> a@[j] == b@[j],
        decreases a.len() - i,
    {
        if a[i] != b[i] {
            return false;
        }
        i += 1;
    }
    assert(a@ =~= b@);
    true
}

impl FunctionType {
    /// The signature with the given parameters and results.
    pub fn new(inputs: Vec<ArbValueType>, outputs: Vec<ArbValueType>) -> (ty: FunctionType)
        ensures
            ty@ == (Signature { inputs: inputs@, outputs: outputs@ }),
    {
        FunctionType { inputs, outputs }
    }
}

impl Default for FunctionType {
    /// The signature without parameters and without results.
    fn default() -> (ty: FunctionType)
        ensures
            ty@ == (Signature { inputs: Seq::empty(), outputs: Seq::empty() }),
    {
        FunctionType { inputs: Vec::new(), outputs: Vec::new() }
    }
}

impl Clone for FunctionType {
    /// A signature with the same lists.
    fn clone(&self) -> (copy: FunctionType)
        ensures
            copy@ == self@,
    {
        let copy = FunctionType { inputs: self.inputs.clone(), outputs: self.outputs.clone() };
        assert(copy@.inputs =~= self@.inputs);
        assert(copy@.outputs =~= self@.outputs);
        copy
    }
}

impl PartialEq for FunctionType {
    /// Two signatures are equal exactly when both lists match position by position.
    fn eq(&self, other: &FunctionType) -> (same: bool) {
        same_types(&self.inputs, &other.inputs) && same_types(&self.outputs, &other.outputs)
    }
}

impl PartialEqSpecImpl for FunctionType {
    open spec fn obeys_eq_spec() -> bool {
        true
    }

    open spec fn eq_spec(&self, other: &FunctionType) -> bool {
        self@ == other@
    }
}

impl Eq for FunctionType {

}

} // verus!
