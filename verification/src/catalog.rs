//! The catalog of host imports.
//!
//! Each import is known by a module name and a name, and has one binding: a
//! signature and a short sequence of operations. The catalog is written out
//! import by import, and the functions that build the bindings are proved to
//! give what is written.

use crate::internal::InternalFunc;
use crate::machine::{Function, FunctionBuilder, InboxIdentifier, Stub};
use crate::text::str_eq;
use crate::value::{ArbValueType, FunctionType, Signature};
use crate::wavm::{internal_call, local_get, op, Instruction, Opcode};
use vstd::prelude::*;

verus! {

/// The imports that a guest module can ask for: each is known by a module name
/// and a name, and is bound to a function of its own.
#[derive(Clone, Copy, Debug, PartialEq, Eq, Hash, Structural)]
pub enum HostImport {
    WavmCallerLoad8,
    WavmCallerLoad32,
    WavmCallerStore8,
    WavmCallerStore32,
    WavmGetGlobalStateBytes32,
    WavmSetGlobalStateBytes32,
    WavmGetGlobalStateU64,
    WavmSetGlobalStateU64,
    WavmReadPreImage,
    WavmReadInboxMessage,
    WavmReadDelayedInboxMessage,
    WavmHaltAndSetFinished,
    UserGasLeft,
    UserGasStatus,
    UserSetGas,
}

/// Every import, in the order in which a lookup tries them.
pub open spec fn catalog() -> Seq<HostImport> {
    seq![
        HostImport::WavmCallerLoad8,
        HostImport::WavmCallerLoad32,
        HostImport::WavmCallerStore8,
        HostImport::WavmCallerStore32,
        HostImport::WavmGetGlobalStateBytes32,
        HostImport::WavmSetGlobalStateBytes32,
        HostImport::WavmGetGlobalStateU64,
        HostImport::WavmSetGlobalStateU64,
        HostImport::WavmReadPreImage,
        HostImport::WavmReadInboxMessage,
        HostImport::WavmReadDelayedInboxMessage,
        HostImport::WavmHaltAndSetFinished,
        HostImport::UserGasLeft,
        HostImport::UserGasStatus,
        HostImport::UserSetGas,
    ]
}

/// The first import among `imports` that is known by the given module name
/// and name, if there is one.
pub open spec fn first_known_as(imports: Seq<HostImport>, module: Seq<char>, name: Seq<char>)
    -> Option<HostImport>
    decreases imports.len(),
{
    if imports.len() == 0 {
        None
    } else if imports[0].known_as(module, name) {
        Some(imports[0])
    } else {
        first_known_as(imports.drop_first(), module, name)
    }
}

/// If none of the first `tried` imports is known by the given names, the first
/// import known by them is found among the rest.
proof fn lemma_first_known_as_skips(
    imports: Seq<HostImport>,
    tried: int,
    module: Seq<char>,
    name: Seq<char>,
)
    requires
        0 <= tried <= imports.len(),
        forall|j: int| 0 <= j < tried ==> !(#[trigger] imports[j]).known_as(module, name),
    ensures
        first_known_as(imports, module, name) == first_known_as(
            imports.subrange(tried, imports.len() as int),
            module,
            name,
        ),
    decreases tried,
{
    if tried == 0 {
        assert(imports.subrange(0, imports.len() as int) == imports);
    } else {
        let rest = imports.drop_first();
        assert forall|j: int| 0 <= j < tried - 1 implies !(#[trigger] rest[j]).known_as(
            module,
            name,
        ) by {
        }
        lemma_first_known_as_skips(rest, tried - 1, module, name);
        assert(rest.subrange(tried - 1, rest.len() as int) == imports.subrange(
            tried,
            imports.len() as int,
        ));
    }
}

impl HostImport {
    /// The module name under which a guest asks for this import.
    pub open spec fn module(self) -> Seq<char> {
        match self {
            HostImport::UserGasLeft | HostImport::UserGasStatus | HostImport::UserSetGas => "hostio"@,
            _ => "env"@,
        }
    }

    /// The name under which a guest asks for this import.
    pub open spec fn name(self) -> Seq<char> {
        match self {
            HostImport::WavmCallerLoad8 => "wavm_caller_load8"@,
            HostImport::WavmCallerLoad32 => "wavm_caller_load32"@,
            HostImport::WavmCallerStore8 => "wavm_caller_store8"@,
            HostImport::WavmCallerStore32 => "wavm_caller_store32"@,
            HostImport::WavmGetGlobalStateBytes32 => "wavm_get_globalstate_bytes32"@,
            HostImport::WavmSetGlobalStateBytes32 => "wavm_set_globalstate_bytes32"@,
            HostImport::WavmGetGlobalStateU64 => "wavm_get_globalstate_u64"@,
            HostImport::WavmSetGlobalStateU64 => "wavm_set_globalstate_u64"@,
            HostImport::WavmReadPreImage => "wavm_read_pre_image"@,
            HostImport::WavmReadInboxMessage => "wavm_read_inbox_message"@,
            HostImport::WavmReadDelayedInboxMessage => "wavm_read_delayed_inbox_message"@,
            HostImport::WavmHaltAndSetFinished => "wavm_halt_and_set_finished"@,
            HostImport::UserGasLeft => "user_gas_left"@,
            HostImport::UserGasStatus => "user_gas_status"@,
            HostImport::UserSetGas => "user_set_gas"@,
        }
    }

    /// Whether a guest that gives this module name and this name asks for this import.
    pub open spec fn known_as(self, module: Seq<char>, name: Seq<char>) -> bool {
        self.module() == module && self.name() == name
    }

    /// The import that a guest asks for by the given module name and name, if
    /// there is one.
    pub open spec fn find(module: Seq<char>, name: Seq<char>) -> Option<HostImport> {
        first_known_as(catalog(), module, name)
    }

    /// The privileged function that the binding of this import calls, if it
    /// calls one.
    pub open spec fn spec_internal(self) -> Option<InternalFunc> {
        match self {
            HostImport::WavmCallerLoad8 => Some(InternalFunc::WavmCallerLoad8),
            HostImport::WavmCallerLoad32 => Some(InternalFunc::WavmCallerLoad32),
            HostImport::WavmCallerStore8 => Some(InternalFunc::WavmCallerStore8),
            HostImport::WavmCallerStore32 => Some(InternalFunc::WavmCallerStore32),
            HostImport::UserGasLeft => Some(InternalFunc::UserGasLeft),
            HostImport::UserGasStatus => Some(InternalFunc::UserGasStatus),
            HostImport::UserSetGas => Some(InternalFunc::UserGasSet),
            _ => None,
        }
    }

    /// The signature of the binding of this import.
    pub open spec fn signature(self) -> Signature {
        let i32 = ArbValueType::I32;
        let i64 = ArbValueType::I64;
        match self {
            HostImport::WavmCallerLoad8 => Signature { inputs: seq![i32], outputs: seq![i32] },
            HostImport::WavmCallerLoad32 => Signature { inputs: seq![i32], outputs: seq![i32] },
            HostImport::WavmCallerStore8 => Signature { inputs: seq![i32, i32], outputs: seq![] },
            HostImport::WavmCallerStore32 => Signature { inputs: seq![i32, i32], outputs: seq![] },
            HostImport::WavmGetGlobalStateBytes32 => Signature {
                inputs: seq![i32, i32],
                outputs: seq![],
            },
            HostImport::WavmSetGlobalStateBytes32 => Signature {
                inputs: seq![i32, i32],
                outputs: seq![],
            },
            HostImport::WavmGetGlobalStateU64 => Signature { inputs: seq![i32], outputs: seq![i64] },
            HostImport::WavmSetGlobalStateU64 => Signature {
                inputs: seq![i32, i64],
                outputs: seq![],
            },
            HostImport::WavmReadPreImage => Signature { inputs: seq![i32, i32], outputs: seq![i32] },
            HostImport::WavmReadInboxMessage => Signature {
                inputs: seq![i64, i32, i32],
                outputs: seq![i32],
            },
            HostImport::WavmReadDelayedInboxMessage => Signature {
                inputs: seq![i64, i32, i32],
                outputs: seq![i32],
            },
            HostImport::WavmHaltAndSetFinished => Signature { inputs: seq![], outputs: seq![] },
            HostImport::UserGasLeft => Signature { inputs: seq![], outputs: seq![i64] },
            HostImport::UserGasStatus => Signature { inputs: seq![], outputs: seq![i32] },
            HostImport::UserSetGas => Signature { inputs: seq![i64, i32], outputs: seq![] },
        }
    }

    /// The operations of the binding of this import, written out one by one.
    /// A call of a privileged function carries the place of that function
    /// among the appended ones as a plain number.
    pub open spec fn body(self) -> Seq<Instruction> {
        match self {
            HostImport::WavmCallerLoad8 => seq![local_get(0), internal_call(0)],
            HostImport::WavmCallerLoad32 => seq![local_get(0), internal_call(1)],
            HostImport::WavmCallerStore8 => seq![local_get(0), local_get(1), internal_call(2)],
            HostImport::WavmCallerStore32 => seq![local_get(0), local_get(1), internal_call(3)],
            HostImport::WavmGetGlobalStateBytes32 => seq![
                local_get(0),
                local_get(1),
                op(Opcode::GetGlobalStateBytes32),
            ],
            HostImport::WavmSetGlobalStateBytes32 => seq![
                local_get(0),
                local_get(1),
                op(Opcode::SetGlobalStateBytes32),
            ],
            HostImport::WavmGetGlobalStateU64 => seq![local_get(0), op(Opcode::GetGlobalStateU64)],
            HostImport::WavmSetGlobalStateU64 => seq![
                local_get(0),
                local_get(1),
                op(Opcode::SetGlobalStateU64),
            ],
            HostImport::WavmReadPreImage => seq![
                local_get(0),
                local_get(1),
                op(Opcode::ReadPreImage),
            ],
            HostImport::WavmReadInboxMessage => seq![
                local_get(0),
                local_get(1),
                local_get(2),
                Instruction { opcode: Opcode::ReadInboxMessage, argument_data: 0 },
            ],
            HostImport::WavmReadDelayedInboxMessage => seq![
                local_get(0),
                local_get(1),
                local_get(2),
                Instruction { opcode: Opcode::ReadInboxMessage, argument_data: 1 },
            ],
            HostImport::WavmHaltAndSetFinished => seq![op(Opcode::HaltAndSetFinished)],
            HostImport::UserGasLeft => seq![internal_call(4)],
            HostImport::UserGasStatus => seq![internal_call(5)],
            HostImport::UserSetGas => seq![local_get(0), local_get(1), internal_call(6)],
        }
    }

    /// The binding of this import: its signature and its operations.
    pub open spec fn stub(self) -> Stub {
        Stub { ty: self.signature(), code: self.body() }
    }

    /// Every import, in the order in which a lookup tries them.
    pub fn all() -> (imports: Vec<HostImport>)
        ensures
            imports@ == catalog(),
    {
        let imports = vec![
            HostImport::WavmCallerLoad8,
            HostImport::WavmCallerLoad32,
            HostImport::WavmCallerStore8,
            HostImport::WavmCallerStore32,
            HostImport::WavmGetGlobalStateBytes32,
            HostImport::WavmSetGlobalStateBytes32,
            HostImport::WavmGetGlobalStateU64,
            HostImport::WavmSetGlobalStateU64,
            HostImport::WavmReadPreImage,
            HostImport::WavmReadInboxMessage,
            HostImport::WavmReadDelayedInboxMessage,
            HostImport::WavmHaltAndSetFinished,
            HostImport::UserGasLeft,
            HostImport::UserGasStatus,
            HostImport::UserSetGas,
        ];
        imports
    }

    /// The module name under which a guest asks for this import.
    pub fn module_name(self) -> (text: &'static str)
        ensures
            text@ == self.module(),
    {
        match self {
            HostImport::UserGasLeft | HostImport::UserGasStatus | HostImport::UserSetGas => "hostio",
            _ => "env",
        }
    }

    /// The name under which a guest asks for this import.
    pub fn import_name(self) -> (text: &'static str)
        ensures
            text@ == self.name(),
    {
        match self {
            HostImport::WavmCallerLoad8 => "wavm_caller_load8",
            HostImport::WavmCallerLoad32 => "wavm_caller_load32",
            HostImport::WavmCallerStore8 => "wavm_caller_store8",
            HostImport::WavmCallerStore32 => "wavm_caller_store32",
            HostImport::WavmGetGlobalStateBytes32 => "wavm_get_globalstate_bytes32",
            HostImport::WavmSetGlobalStateBytes32 => "wavm_set_globalstate_bytes32",
            HostImport::WavmGetGlobalStateU64 => "wavm_get_globalstate_u64",
            HostImport::WavmSetGlobalStateU64 => "wavm_set_globalstate_u64",
            HostImport::WavmReadPreImage => "wavm_read_pre_image",
            HostImport::WavmReadInboxMessage => "wavm_read_inbox_message",
            HostImport::WavmReadDelayedInboxMessage => "wavm_read_delayed_inbox_message",
            HostImport::WavmHaltAndSetFinished => "wavm_halt_and_set_finished",
            HostImport::UserGasLeft => "user_gas_left",
            HostImport::UserGasStatus => "user_gas_status",
            HostImport::UserSetGas => "user_set_gas",
        }
    }

    /// The import that a guest asks for by the given module name and name, if
    /// there is one.
    pub fn lookup(module: &str, name: &str) -> (found: Option<HostImport>)
        ensures
            found == HostImport::find(module@, name@),
    {
        let imports = HostImport::all();
        let mut k: usize = 0;
        while k < imports.len()
            invariant
                k <= imports.len(),
                imports@ == catalog(),
                forall|j: int| 0 <= j < k ==> !(#[trigger] imports@[j]).known_as(module@, name@),
            decreases imports.len() - k,
        {
            let import = imports[k];
            if str_eq(module, import.module_name()) && str_eq(name, import.import_name()) {
                proof {
                    lemma_first_known_as_skips(imports@, k as int, module@, name@);
                }
                return Some(import);
            }
            k += 1;
        }
        proof {
            lemma_first_known_as_skips(imports@, k as int, module@, name@);
        }
        None
    }

    /// The privileged function that the binding of this import calls, if it
    /// calls one.
    #[verifier::when_used_as_spec(spec_internal)]
    pub fn internal(self) -> (func: Option<InternalFunc>)
        ensures
            func == self.spec_internal(),
    {
        match self {
            HostImport::WavmCallerLoad8 => Some(InternalFunc::WavmCallerLoad8),
            HostImport::WavmCallerLoad32 => Some(InternalFunc::WavmCallerLoad32),
            HostImport::WavmCallerStore8 => Some(InternalFunc::WavmCallerStore8),
            HostImport::WavmCallerStore32 => Some(InternalFunc::WavmCallerStore32),
            HostImport::UserGasLeft => Some(InternalFunc::UserGasLeft),
            HostImport::UserGasStatus => Some(InternalFunc::UserGasStatus),
            HostImport::UserSetGas => Some(InternalFunc::UserGasSet),
            _ => None,
        }
    }

    /// The signature of the binding of this import.
    pub fn ty(self) -> (ty: FunctionType)
        ensures
            ty@ == self.signature(),
    {
        let i32 = ArbValueType::I32;
        let i64 = ArbValueType::I64;
        let ty = match self {
            HostImport::WavmCallerLoad8 | HostImport::WavmCallerLoad32 => FunctionType::new(
                vec![i32],
                vec![i32],
            ),
            HostImport::WavmCallerStore8
            | HostImport::WavmCallerStore32
            | HostImport::WavmGetGlobalStateBytes32
            | HostImport::WavmSetGlobalStateBytes32 => FunctionType::new(vec![i32, i32], vec![]),
            HostImport::WavmGetGlobalStateU64 => FunctionType::new(vec![i32], vec![i64]),
            HostImport::WavmSetGlobalStateU64 => FunctionType::new(vec![i32, i64], vec![]),
            HostImport::WavmReadPreImage => FunctionType::new(vec![i32, i32], vec![i32]),
            HostImport::WavmReadInboxMessage
            | HostImport::WavmReadDelayedInboxMessage => FunctionType::new(
                vec![i64, i32, i32],
                vec![i32],
            ),
            HostImport::WavmHaltAndSetFinished => FunctionType::default(),
            HostImport::UserGasLeft => FunctionType::new(vec![], vec![i64]),
            HostImport::UserGasStatus => FunctionType::new(vec![], vec![i32]),
            HostImport::UserSetGas => FunctionType::new(vec![i64, i32], vec![]),
        };
        assert(ty@.inputs =~= self.signature().inputs);
        assert(ty@.outputs =~= self.signature().outputs);
        ty
    }

    /// The operation that does the work of this import, once its arguments
    /// are on the stack: the last one of its binding.
    fn operation(self) -> (inst: Instruction)
        ensures
            inst == self.body().last(),
    {
        match self.internal() {
            Some(func) => Instruction::with_data(Opcode::CallerModuleInternalCall, func.index()),
            None => match self {
                HostImport::WavmGetGlobalStateBytes32 => Instruction::simple(
                    Opcode::GetGlobalStateBytes32,
                ),
                HostImport::WavmSetGlobalStateBytes32 => Instruction::simple(
                    Opcode::SetGlobalStateBytes32,
                ),
                HostImport::WavmGetGlobalStateU64 => Instruction::simple(Opcode::GetGlobalStateU64),
                HostImport::WavmSetGlobalStateU64 => Instruction::simple(Opcode::SetGlobalStateU64),
                HostImport::WavmReadPreImage => Instruction::simple(Opcode::ReadPreImage),
                HostImport::WavmReadInboxMessage => Instruction::with_data(
                    Opcode::ReadInboxMessage,
                    InboxIdentifier::Sequencer.index(),
                ),
                HostImport::WavmReadDelayedInboxMessage => Instruction::with_data(
                    Opcode::ReadInboxMessage,
                    InboxIdentifier::Delayed.index(),
                ),
                _ => Instruction::simple(Opcode::HaltAndSetFinished),
            },
        }
    }

    /// The binding of this import: each argument is pushed, in the order of
    /// the parameters, and then the one operation that does the work follows.
    pub fn function(self) -> (func: Function)
        ensures
            func@ == self.stub(),
    {
        let ty = self.ty();
        let params = ty.inputs.len();
        let mut builder = FunctionBuilder::new(ty);
        let mut i: usize = 0;
        while i < params
            invariant
                i <= params,
                builder.signature() == self.signature(),
                builder.emitted() == Seq::new(i as nat, |j: int| local_get(j as u64)),
            decreases params - i,
        {
            builder.emit(Instruction::with_data(Opcode::LocalGet, i as u64));
            i += 1;
        }
        builder.emit(self.operation());
        assert(builder.emitted() =~= self.body());
        builder.seal()
    }
}

/// What [`first_known_as`] finds is known by the names given and stands
/// among the imports it looked through. It finds nothing only where none of
/// them is known by those names.
pub proof fn lemma_first_known_as(imports: Seq<HostImport>, module: Seq<char>, name: Seq<char>)
    ensures
        match first_known_as(imports, module, name) {
            Some(import) => import.known_as(module, name) && imports.contains(import),
            None => forall|j: int|
                0 <= j < imports.len() ==> !(#[trigger] imports[j]).known_as(module, name),
        },
    decreases imports.len(),
{
    if imports.len() > 0 && !imports[0].known_as(module, name) {
        let rest = imports.drop_first();
        lemma_first_known_as(rest, module, name);
        match first_known_as(rest, module, name) {
            Some(import) => {
                let j = choose|j: int| 0 <= j < rest.len() && rest[j] == import;
                assert(imports[j + 1] == import);
            },
            None => {
                assert forall|j: int| 0 <= j < imports.len() implies !(
                #[trigger] imports[j]).known_as(module, name) by {
                    if j > 0 {
                        assert(rest[j - 1] == imports[j]);
                    }
                }
            },
        }
    }
}

/// The catalog holds every import.
pub proof fn lemma_catalog_holds_every_import(import: HostImport)
    ensures
        catalog().contains(import),
{
    let k: int = match import {
        HostImport::WavmCallerLoad8 => 0,
        HostImport::WavmCallerLoad32 => 1,
        HostImport::WavmCallerStore8 => 2,
        HostImport::WavmCallerStore32 => 3,
        HostImport::WavmGetGlobalStateBytes32 => 4,
        HostImport::WavmSetGlobalStateBytes32 => 5,
        HostImport::WavmGetGlobalStateU64 => 6,
        HostImport::WavmSetGlobalStateU64 => 7,
        HostImport::WavmReadPreImage => 8,
        HostImport::WavmReadInboxMessage => 9,
        HostImport::WavmReadDelayedInboxMessage => 10,
        HostImport::WavmHaltAndSetFinished => 11,
        HostImport::UserGasLeft => 12,
        HostImport::UserGasStatus => 13,
        HostImport::UserSetGas => 14,
    };
    assert(catalog()[k] == import);
}

/// No two imports have the same name.
pub proof fn lemma_names_tell_imports_apart(a: HostImport, b: HostImport)
    ensures
        a.name() == b.name() ==> a == b,
{
    reveal_strlit("wavm_caller_load8");
    reveal_strlit("wavm_caller_load32");
    reveal_strlit("wavm_caller_store8");
    reveal_strlit("wavm_caller_store32");
    reveal_strlit("wavm_get_globalstate_bytes32");
    reveal_strlit("wavm_set_globalstate_bytes32");
    reveal_strlit("wavm_get_globalstate_u64");
    reveal_strlit("wavm_set_globalstate_u64");
    reveal_strlit("wavm_read_pre_image");
    reveal_strlit("wavm_read_inbox_message");
    reveal_strlit("wavm_read_delayed_inbox_message");
    reveal_strlit("wavm_halt_and_set_finished");
    reveal_strlit("user_gas_left");
    reveal_strlit("user_gas_status");
    reveal_strlit("user_set_gas");
    if a.name() == b.name() {
        // Names of one length differ in their sixth or in their thirteenth character.
        assert(a.name().len() == b.name().len());
        assert(a.name()[5] == b.name()[5]);
        assert(a.name()[12] == b.name()[12]);
    }
}

/// A lookup finds an import exactly under its own module name and name: the
/// import that [`HostImport::find`] gives for two names is the one known by
/// them, and it gives none only where the catalog has none.
pub proof fn lemma_find_is_the_import(module: Seq<char>, name: Seq<char>, import: HostImport)
    ensures
        HostImport::find(module, name) == Some(import) <==> import.known_as(module, name),
{
    lemma_first_known_as(catalog(), module, name);
    if import.known_as(module, name) {
        lemma_catalog_holds_every_import(import);
        let found = HostImport::find(module, name);
        lemma_names_tell_imports_apart(found.unwrap(), import);
    }
}

} // verus!
