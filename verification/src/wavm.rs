//! The machine's operations, as far as binding and injection emit them.

use crate::value::ArbValueType;
use vstd::prelude::*;

verus! {

/// The kind of an operation.
#[derive(Clone, Copy, Debug, PartialEq, Eq, Hash, Structural)]
pub enum Opcode {
    /// Pushes the local whose index is the operand.
    LocalGet,
    /// Loads `bytes` bytes of memory as a value of type `ty`.
    MemoryLoad { ty: ArbValueType, bytes: u8, signed: bool },
    /// Stores the low `bytes` bytes of a value of type `ty` to memory.
    MemoryStore { ty: ArbValueType, bytes: u8 },
    /// Pushes the module global whose index is the operand.
    GlobalGet,
    /// Pops into the module global whose index is the operand.
    GlobalSet,
    /// Copies a 32-byte slot of the global state into memory.
    GetGlobalStateBytes32,
    /// Copies 32 bytes of memory into a slot of the global state.
    SetGlobalStateBytes32,
    /// Pushes a 64-bit scalar of the global state.
    GetGlobalStateU64,
    /// Pops into a 64-bit scalar of the global state.
    SetGlobalStateU64,
    /// Reads part of a preimage into memory.
    ReadPreImage,
    /// Reads part of a message into memory, from the inbox that the operand selects.
    ReadInboxMessage,
    /// Halts the machine and marks it finished.
    HaltAndSetFinished,
    /// Calls the privileged function whose position in the caller module's
    /// table of internal functions is the operand.
    CallerModuleInternalCall,
    /// Sets up the frame of a call.
    InitFrame,
    /// Returns from a call.
    Return,
}

/// One operation: its kind and a 64-bit operand, which is 0 where the kind takes none.
#[derive(Clone, Copy, Debug, PartialEq, Eq, Hash, Structural)]
pub struct Instruction {
    pub opcode: Opcode,
    pub argument_data: u64,
}

impl Instruction {
    /// An operation without an operand.
    pub fn simple(opcode: Opcode) -> (inst: Instruction)
        ensures
            inst == (Instruction { opcode, argument_data: 0 }),
    {
        Instruction { opcode, argument_data: 0 }
    }

    /// An operation with the given operand.
    pub fn with_data(opcode: Opcode, argument_data: u64) -> (inst: Instruction)
        ensures
            inst == (Instruction { opcode, argument_data }),
    {
        Instruction { opcode, argument_data }
    }
}

/// Whether two sequences of operations match position by position.
pub fn same_code(a: &Vec<Instruction>, b: &Vec<Instruction>) -> (same: bool)
    ensures
        same == (a@ == b@),
{
    if a.len() != b.len() {
        return false;
    }
    let mut i: usize = 0;
    while i < a.len()
        invariant
            a.len() == b.len(),
            i <= a.len(),
            forall|j: int| 0 <= j < i ==> a@[j] == b@[j],
        decreases a.len() - i,
    {
        if a[i] != b[i] {
            return false;
        }
        i += 1;
    }
    assert(a@ =~= b@);
    true
}

/// The operation of the given kind without an operand.
pub open spec fn op(opcode: Opcode) -> Instruction {
    Instruction { opcode, argument_data: 0 }
}

/// The operation that pushes the local of the given index.
pub open spec fn local_get(index: u64) -> Instruction {
    Instruction { opcode: Opcode::LocalGet, argument_data: index }
}

/// The call of the privileged function at the given place.
pub open spec fn internal_call(place: u64) -> Instruction {
    Instruction { opcode: Opcode::CallerModuleInternalCall, argument_data: place }
}

/// The operation that pushes the module global of the given index.
pub open spec fn global_get(index: u64) -> Instruction {
    Instruction { opcode: Opcode::GlobalGet, argument_data: index }
}

/// The operation that pops into the module global of the given index.
pub open spec fn global_set(index: u64) -> Instruction {
    Instruction { opcode: Opcode::GlobalSet, argument_data: index }
}

} // verus!
