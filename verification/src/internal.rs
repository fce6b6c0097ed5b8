//! The privileged functions of a module, and their numbering.
//!
//! A module reaches a privileged function only by a call that carries a
//! number: the place of that function among the privileged functions of the
//! module. [`InternalFunc`] is the one list from which both the numbers and the
//! order of the functions come.

use crate::machine::Stub;
use crate::programs::StylusGlobals;
use crate::value::{ArbValueType, FunctionType, Signature};
use crate::wavm::{global_get, global_set, op, Instruction, Opcode};
use vstd::prelude::*;

verus! {

/// The privileged functions that a module may have, in the order in which
/// they are appended to it. The last three account for gas, and a module has
/// them only together with its gas globals.
#[derive(Clone, Copy, Debug, PartialEq, Eq, Hash, Structural)]
pub enum InternalFunc {
    WavmCallerLoad8,
    WavmCallerLoad32,
    WavmCallerStore8,
    WavmCallerStore32,
    UserGasLeft,
    UserGasStatus,
    UserGasSet,
}

/// The operations of a privileged function around its working part: the frame
/// is set up before it, and the call returns after it.
pub open spec fn framed(work: Seq<Instruction>) -> Seq<Instruction> {
    seq![op(Opcode::InitFrame)] + work + seq![op(Opcode::Return)]
}

impl InternalFunc {
    /// The place of this function among the appended ones, counted from 0.
    pub open spec fn spec_index(self) -> u64 {
        match self {
            InternalFunc::WavmCallerLoad8 => 0,
            InternalFunc::WavmCallerLoad32 => 1,
            InternalFunc::WavmCallerStore8 => 2,
            InternalFunc::WavmCallerStore32 => 3,
            InternalFunc::UserGasLeft => 4,
            InternalFunc::UserGasStatus => 5,
            InternalFunc::UserGasSet => 6,
        }
    }

    /// The place of this function among the appended ones, counted from 0.
    #[verifier::when_used_as_spec(spec_index)]
    pub fn index(self) -> (place: u64)
        ensures
            place == self.spec_index(),
    {
        match self {
            InternalFunc::WavmCallerLoad8 => 0,
            InternalFunc::WavmCallerLoad32 => 1,
            InternalFunc::WavmCallerStore8 => 2,
            InternalFunc::WavmCallerStore32 => 3,
            InternalFunc::UserGasLeft => 4,
            InternalFunc::UserGasStatus => 5,
            InternalFunc::UserGasSet => 6,
        }
    }

    /// Whether this function accounts for gas, and so exists only in a module
    /// with gas globals.
    pub open spec fn needs_gas(self) -> bool {
        match self {
            InternalFunc::UserGasLeft | InternalFunc::UserGasStatus | InternalFunc::UserGasSet => true,
            _ => false,
        }
    }

    /// The signature under which a privileged function is recorded: one 32-bit
    /// parameter and one 32-bit result, the same for all of them.
    pub open spec fn signature(self) -> Signature {
        Signature { inputs: seq![ArbValueType::I32], outputs: seq![ArbValueType::I32] }
    }

    /// The signature under which this function is recorded.
    pub fn ty(&self) -> (ty: FunctionType)
        ensures
            ty@ == self.signature(),
    {
        let ty = FunctionType::new(vec![ArbValueType::I32], vec![ArbValueType::I32]);
        assert(ty@.inputs =~= self.signature().inputs);
        assert(ty@.outputs =~= self.signature().outputs);
        ty
    }

    /// Whether a module with the given gas globals, or with none, has this function.
    pub open spec fn available(self, globals: Option<StylusGlobals>) -> bool {
        globals is Some || !self.needs_gas()
    }

    /// The working part of this function, between setting up the frame and
    /// returning, in a module with the given gas globals. A memory function
    /// does not look at them. A gas function is empty without them: a module
    /// without gas globals has no such function.
    ///
    /// Setting the gas takes the gas left and then the status as arguments, so
    /// the status lies on top of the stack and is stored first.
    pub open spec fn work(self, globals: Option<StylusGlobals>) -> Seq<Instruction>
        recommends
            self.available(globals),
    {
        match (self, globals) {
            (InternalFunc::WavmCallerLoad8, _) => seq![
                op(Opcode::MemoryLoad { ty: ArbValueType::I32, bytes: 1, signed: false }),
            ],
            (InternalFunc::WavmCallerLoad32, _) => seq![
                op(Opcode::MemoryLoad { ty: ArbValueType::I32, bytes: 4, signed: false }),
            ],
            (InternalFunc::WavmCallerStore8, _) => seq![
                op(Opcode::MemoryStore { ty: ArbValueType::I32, bytes: 1 }),
            ],
            (InternalFunc::WavmCallerStore32, _) => seq![
                op(Opcode::MemoryStore { ty: ArbValueType::I32, bytes: 4 }),
            ],
            (InternalFunc::UserGasLeft, Some(g)) => seq![global_get(g.offsets().0)],
            (InternalFunc::UserGasStatus, Some(g)) => seq![global_get(g.offsets().1)],
            (InternalFunc::UserGasSet, Some(g)) => seq![
                global_set(g.offsets().1),
                global_set(g.offsets().0),
            ],
            (_, None) => Seq::empty(),
        }
    }

    /// This function as it is appended to a module with the given gas globals.
    pub open spec fn stub(self, globals: Option<StylusGlobals>) -> Stub
        recommends
            self.available(globals),
    {
        Stub { ty: self.signature(), code: framed(self.work(globals)) }
    }
}

/// The privileged functions of a module with the given gas globals, or with
/// none, in the order in which they are appended: the four memory functions,
/// and after them the three gas functions where the module has gas globals.
pub open spec fn internal_funcs(globals: Option<StylusGlobals>) -> Seq<InternalFunc> {
    let memory = seq![
        InternalFunc::WavmCallerLoad8,
        InternalFunc::WavmCallerLoad32,
        InternalFunc::WavmCallerStore8,
        InternalFunc::WavmCallerStore32,
    ];
    match globals {
        None => memory,
        Some(_) => memory + seq![
            InternalFunc::UserGasLeft,
            InternalFunc::UserGasStatus,
            InternalFunc::UserGasSet,
        ],
    }
}

/// What is appended to the table of functions: each privileged function of
/// [`internal_funcs`], in that order.
pub open spec fn internal_stubs(globals: Option<StylusGlobals>) -> Seq<Stub> {
    internal_funcs(globals).map_values(|func: InternalFunc| func.stub(globals))
}

/// What is appended to the table of signatures: the signature of each
/// privileged function of [`internal_funcs`], in that order.
pub open spec fn internal_signatures(globals: Option<StylusGlobals>) -> Seq<Signature> {
    internal_funcs(globals).map_values(|func: InternalFunc| func.signature())
}

/// The place that [`InternalFunc::index`] gives is the place in the order of
/// appending: a privileged function that the module has stands at its index,
/// and one that the module lacks has an index behind the last place.
pub proof fn lemma_index_is_the_place(func: InternalFunc, globals: Option<StylusGlobals>)
    ensures
        func.available(globals) ==> func.index() < internal_funcs(globals).len()
            && internal_funcs(globals)[func.index() as int] == func,
        !func.available(globals) ==> func.index() >= internal_funcs(globals).len(),
        internal_funcs(globals).len() == if globals is Some { 7nat } else { 4nat },
        forall|place: int|
            0 <= place < internal_funcs(globals).len() ==> (#[trigger] internal_funcs(
                globals,
            )[place]).index() == place,
{
}

} // verus!
