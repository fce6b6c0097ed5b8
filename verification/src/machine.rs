//! Functions of the machine, and the inboxes it reads.

use crate::value::{FunctionType, Signature};
use crate::wavm::{same_code, Instruction};
use vstd::prelude::*;
use vstd::std_specs::cmp::PartialEqSpecImpl;

verus! {

/// Selects the stream of messages that a read consults.
#[derive(Clone, Copy, Debug, PartialEq, Eq, Hash, Structural)]
pub enum InboxIdentifier {
    Sequencer,
    Delayed,
}

impl InboxIdentifier {
    /// The operand that selects this inbox.
    pub open spec fn spec_index(self) -> u64 {
        match self {
            InboxIdentifier::Sequencer => 0,
            InboxIdentifier::Delayed => 1,
        }
    }

    /// The operand that selects this inbox.
    #[verifier::when_used_as_spec(spec_index)]
    pub fn index(self) -> (n: u64)
        ensures
            n == self.spec_index(),
    {
        match self {
            InboxIdentifier::Sequencer => 0,
            InboxIdentifier::Delayed => 1,
        }
    }
}

/// What a function is: a signature and a sequence of operations.
pub struct Stub {
    pub ty: Signature,
    pub code: Seq<Instruction>,
}

/// A function of the machine. It has no locals but its parameters, and once
/// made it does not change: its parts can be read and not written.
#[derive(Debug)]
pub struct Function {
    code: Vec<Instruction>,
    ty: FunctionType,
}

impl View for Function {
    type V = Stub;

    closed spec fn view(&self) -> Stub {
        Stub { ty: self.ty@, code: self.code@ }
    }
}

impl Function {
    /// The function with the given operations and signature.
    pub fn new_from_wavm(code: Vec<Instruction>, ty: FunctionType) -> (func: Function)
        ensures
            func@ == (Stub { ty: ty@, code: code@ }),
    {
        Function { code, ty }
    }

    /// The operations.
    pub fn code(&self) -> (code: &Vec<Instruction>)
        ensures
            code@ == self@.code,
    {
        &self.code
    }

    /// The signature.
    pub fn ty(&self) -> (ty: &FunctionType)
        ensures
            ty@ == self@.ty,
    {
        &self.ty
    }
}

impl Clone for Function {
    /// A function with the same signature and the same operations.
    fn clone(&self) -> (copy: Function)
        ensures
            copy@ == self@,
    {
        let copy = Function { code: self.code.clone(), ty: self.ty.clone() };
        assert(copy@.code =~= self@.code);
        copy
    }
}

impl PartialEq for Function {
    /// Two functions are equal exactly when their signatures and their
    /// operations are.
    fn eq(&self, other: &Function) -> (same: bool) {
        self.ty == other.ty && same_code(&self.code, &other.code)
    }
}

impl PartialEqSpecImpl for Function {
    open spec fn obeys_eq_spec() -> bool {
        true
    }

    open spec fn eq_spec(&self, other: &Function) -> bool {
        self@ == other@
    }
}

impl Eq for Function {

}

/// A function in the making: its signature is fixed, its operations are
/// added one by one, and sealing it gives the function.
pub struct FunctionBuilder {
    code: Vec<Instruction>,
    ty: FunctionType,
}

impl FunctionBuilder {
    /// The signature that the function will have.
    pub closed spec fn signature(&self) -> Signature {
        self.ty@
    }

    /// The operations added so far.
    pub closed spec fn emitted(&self) -> Seq<Instruction> {
        self.code@
    }

    /// Starts a function of the given signature, without operations.
    pub fn new(ty: FunctionType) -> (builder: FunctionBuilder)
        ensures
            builder.signature() == ty@,
            builder.emitted() == Seq::<Instruction>::empty(),
    {
        FunctionBuilder { code: Vec::new(), ty }
    }

    /// Adds an operation after those added so far.
    pub fn emit(&mut self, inst: Instruction)
        ensures
            final(self).signature() == old(self).signature(),
            final(self).emitted() == old(self).emitted().push(inst),
    {
        self.code.push(inst);
    }

    /// The function made of the operations added, in the order they were added.
    pub fn seal(self) -> (func: Function)
        ensures
            func@ == (Stub { ty: self.signature(), code: self.emitted() }),
    {
        Function { code: self.code, ty: self.ty }
    }
}

} // verus!
