//! Binding of host imports, and injection of the privileged functions behind
//! them.
//!
//! [`get_host_impl`] binds an import of a guest module to a function made of
//! the machine's own operations. [`add_internal_funcs`] appends to a module the
//! privileged functions that some of those bindings call. A binding names a
//! privileged function by a number only, its place among the appended ones,
//! and [`lemma_call_reaches_its_function`] shows that the two sides agree on it.

use crate::catalog::{lemma_find_is_the_import, HostImport};
use crate::internal::{
    framed, internal_funcs, internal_signatures, internal_stubs, lemma_index_is_the_place,
    InternalFunc,
};
use crate::machine::{Function, Stub};
use crate::programs::StylusGlobals;
use crate::value::{ArbValueType, FunctionType, Signature};
use crate::wavm::{global_get, global_set, internal_call, op, Instruction, Opcode};
use vstd::prelude::*;
use vstd::string::StringExecFns;

verus! {

/// The failure of a binding: no import is known by this module name and this
/// name, which are those that the guest gave.
#[derive(Debug, PartialEq, Eq)]
pub struct UnresolvedImport {
    pub module: String,
    pub name: String,
}

impl Clone for UnresolvedImport {
    /// A failure that holds the same two names.
    fn clone(&self) -> (copy: UnresolvedImport)
        ensures
            copy == *self,
    {
        UnresolvedImport { module: self.module.clone(), name: self.name.clone() }
    }
}

impl UnresolvedImport {
    /// The failure in words: which import was asked for, and of which module.
    pub fn message(&self) -> (text: String)
        ensures
            text@ == "no such hostio "@ + self.name@ + " in "@ + self.module@,
    {
        let mut text = String::from_str("no such hostio ");
        text.append(self.name.as_str());
        text.append(" in ");
        text.append(self.module.as_str());
        text
    }
}

/// What binding the import of the given module name and name comes to: for
/// an import of the catalog, the function that the catalog gives for it; for
/// any other, the failure that holds both names as they were given.
pub open spec fn binds(
    module: Seq<char>,
    name: Seq<char>,
    bound: Result<Function, UnresolvedImport>,
) -> bool {
    match HostImport::find(module, name) {
        Some(import) => bound matches Ok(func) && func@ == import.stub(),
        None => bound matches Err(err) && err.module@ == module && err.name@ == name,
    }
}

/// Binds the import that a guest module asks for by `module` and `name` to
/// the function that implements it. An import that the catalog does not hold
/// is refused, with both names as they were given.
pub fn get_host_impl(module: &str, name: &str) -> (bound: Result<Function, UnresolvedImport>)
    ensures
        binds(module@, name@, bound),
{
    match HostImport::lookup(module, name) {
        Some(import) => Ok(import.function()),
        None => Err(UnresolvedImport { module: module.to_owned(), name: name.to_owned() }),
    }
}

/// `after` is `before` with one new item appended for each of `views`, in
/// order: what was there stays as it was, and the new items are those that
/// `views` describes.
pub open spec fn extended_by<T: View>(before: Seq<T>, after: Seq<T>, views: Seq<T::V>) -> bool {
    &&& after.len() == before.len() + views.len()
    &&& after.subrange(0, before.len() as int) == before
    &&& forall|i: int|
        before.len() <= i < after.len() ==> (#[trigger] after[i])@ == views[i - before.len()]
}

/// Appending one item extends a sequence by that item's view.
pub proof fn lemma_extended_by_push<T: View>(before: Seq<T>, item: T)
    ensures
        extended_by(before, before.push(item), seq![item@]),
{
    assert(before.push(item).subrange(0, before.len() as int) == before);
}

/// Extending a sequence twice extends it by what the two steps added, in
/// that order.
pub proof fn lemma_extended_by_twice<T: View>(
    before: Seq<T>,
    between: Seq<T>,
    after: Seq<T>,
    first: Seq<T::V>,
    second: Seq<T::V>,
)
    requires
        extended_by(before, between, first),
        extended_by(between, after, second),
    ensures
        extended_by(before, after, first + second),
{
    assert(after.subrange(0, before.len() as int) == before) by {
        assert(after.subrange(0, between.len() as int).subrange(0, before.len() as int)
            == after.subrange(0, before.len() as int));
    }
    assert forall|i: int| before.len() <= i < after.len() implies (#[trigger] after[i])@ == (first
        + second)[i - before.len()] by {
        if i < between.len() {
            assert(after.subrange(0, between.len() as int)[i] == after[i]);
        }
    }
}

/// The privileged function with the given working part, which is put between
/// setting up the frame and returning.
fn code_func(code: Vec<Instruction>, ty: FunctionType) -> (func: Function)
    ensures
        func@ == (Stub { ty: ty@, code: framed(code@) }),
{
    let mut wavm: Vec<Instruction> = Vec::new();
    wavm.push(Instruction::simple(Opcode::InitFrame));
    let mut i: usize = 0;
    while i < code.len()
        invariant
            i <= code.len(),
            wavm@ == seq![op(Opcode::InitFrame)] + code@.subrange(0, i as int),
        decreases code.len() - i,
    {
        wavm.push(code[i]);
        i += 1;
    }
    wavm.push(Instruction::simple(Opcode::Return));
    assert(wavm@ == framed(code@));
    Function::new_from_wavm(wavm, ty)
}

/// The privileged function whose working part is the one operation `opcode`.
fn op_func(opcode: Opcode, ty: FunctionType) -> (func: Function)
    ensures
        func@ == (Stub { ty: ty@, code: framed(seq![op(opcode)]) }),
{
    let code = vec![Instruction::simple(opcode)];
    assert(code@ == seq![op(opcode)]);
    code_func(code, ty)
}

/// Records the signature of `func` at the end of `func_types`, and returns it.
fn host(func_types: &mut Vec<FunctionType>, func: InternalFunc) -> (ty: FunctionType)
    ensures
        ty@ == func.signature(),
        extended_by(old(func_types)@, final(func_types)@, seq![func.signature()]),
{
    let ty = func.ty();
    let recorded = ty.clone();
    proof {
        lemma_extended_by_push(func_types@, recorded);
    }
    func_types.push(recorded);
    ty
}

/// The privileged function `func` of a module with the given gas globals,
/// under the signature `ty`.
fn internal_func(func: InternalFunc, globals: Option<StylusGlobals>, ty: FunctionType) -> (made:
    Function)
    ensures
        made@ == (Stub { ty: ty@, code: framed(func.work(globals)) }),
{
    match (func, globals) {
        (InternalFunc::WavmCallerLoad8, _) => op_func(
            Opcode::MemoryLoad { ty: ArbValueType::I32, bytes: 1, signed: false },
            ty,
        ),
        (InternalFunc::WavmCallerLoad32, _) => op_func(
            Opcode::MemoryLoad { ty: ArbValueType::I32, bytes: 4, signed: false },
            ty,
        ),
        (InternalFunc::WavmCallerStore8, _) => op_func(
            Opcode::MemoryStore { ty: ArbValueType::I32, bytes: 1 },
            ty,
        ),
        (InternalFunc::WavmCallerStore32, _) => op_func(
            Opcode::MemoryStore { ty: ArbValueType::I32, bytes: 4 },
            ty,
        ),
        (InternalFunc::UserGasLeft, Some(globals)) => {
            let (gas, _) = globals.offsets();
            let code = vec![Instruction::with_data(Opcode::GlobalGet, gas)];
            assert(code@ == seq![global_get(gas)]);
            code_func(code, ty)
        },
        (InternalFunc::UserGasStatus, Some(globals)) => {
            let (_, status) = globals.offsets();
            let code = vec![Instruction::with_data(Opcode::GlobalGet, status)];
            assert(code@ == seq![global_get(status)]);
            code_func(code, ty)
        },
        (InternalFunc::UserGasSet, Some(globals)) => {
            let (gas, status) = globals.offsets();
            let code = vec![
                Instruction::with_data(Opcode::GlobalSet, status),
                Instruction::with_data(Opcode::GlobalSet, gas),
            ];
            assert(code@ == seq![global_set(status), global_set(gas)]);
            code_func(code, ty)
        },
        (_, None) => code_func(Vec::new(), ty),
    }
}

/// The privileged functions of a module with the given gas globals, in the
/// order in which they are appended.
fn internal_order(globals: Option<StylusGlobals>) -> (order: Vec<InternalFunc>)
    ensures
        order@ == internal_funcs(globals),
{
    let mut order = vec![
        InternalFunc::WavmCallerLoad8,
        InternalFunc::WavmCallerLoad32,
        InternalFunc::WavmCallerStore8,
        InternalFunc::WavmCallerStore32,
    ];
    match globals {
        Some(_) => {
            order.push(InternalFunc::UserGasLeft);
            order.push(InternalFunc::UserGasStatus);
            order.push(InternalFunc::UserGasSet);
        },
        None => {},
    }
    order
}

/// Adds internal functions to a module: to `funcs` the privileged functions of
/// a module with the given gas globals, and to `func_types` their signatures,
/// one for one. What the two tables held before stays as it was. The four
/// memory functions are appended in any case, the three gas functions after
/// them where `globals` is given, so that a privileged function ends up as
/// many places behind the old end of `funcs` as [`InternalFunc::index`] says.
pub fn add_internal_funcs(
    funcs: &mut Vec<Function>,
    func_types: &mut Vec<FunctionType>,
    globals: Option<StylusGlobals>,
)
    ensures
        extended_by(old(funcs)@, final(funcs)@, internal_stubs(globals)),
        extended_by(old(func_types)@, final(func_types)@, internal_signatures(globals)),
        old(funcs)@.len() == old(func_types)@.len() ==> final(funcs)@.len() == final(
            func_types
        )@.len(),
        globals is None ==> final(funcs)@.len() == old(funcs)@.len() + 4,
        globals is Some ==> final(funcs)@.len() == old(funcs)@.len() + 7,
{
    let order = internal_order(globals);
    proof {
        assert(internal_stubs(globals).subrange(0, 0) == Seq::<Stub>::empty());
        assert(internal_signatures(globals).subrange(0, 0) == Seq::<Signature>::empty());
        assert(funcs@.subrange(0, funcs@.len() as int) == funcs@);
        assert(func_types@.subrange(0, func_types@.len() as int) == func_types@);
    }
    let mut k: usize = 0;
    while k < order.len()
        invariant
            k <= order.len(),
            order@ == internal_funcs(globals),
            extended_by(old(funcs)@, funcs@, internal_stubs(globals).subrange(0, k as int)),
            extended_by(
                old(func_types)@,
                func_types@,
                internal_signatures(globals).subrange(0, k as int),
            ),
        decreases order.len() - k,
    {
        let func = order[k];
        let ghost funcs_before = funcs@;
        let ghost types_before = func_types@;
        let ty = host(func_types, func);
        let made = internal_func(func, globals, ty);
        proof {
            lemma_extended_by_push(funcs@, made);
        }
        funcs.push(made);
        proof {
            let stubs = internal_stubs(globals);
            let signatures = internal_signatures(globals);
            lemma_extended_by_twice(
                old(funcs)@,
                funcs_before,
                funcs@,
                stubs.subrange(0, k as int),
                seq![made@],
            );
            lemma_extended_by_twice(
                old(func_types)@,
                types_before,
                func_types@,
                signatures.subrange(0, k as int),
                seq![func.signature()],
            );
            assert(stubs.subrange(0, k + 1) == stubs.subrange(0, k as int) + seq![made@]);
            assert(signatures.subrange(0, k + 1) == signatures.subrange(0, k as int) + seq![
                func.signature(),
            ]);
        }
        k += 1;
    }
    proof {
        let stubs = internal_stubs(globals);
        let signatures = internal_signatures(globals);
        assert(stubs.subrange(0, stubs.len() as int) == stubs);
        assert(signatures.subrange(0, signatures.len() as int) == signatures);
    }
}

/// A binding calls a privileged function by the index of that function and
/// in no other way. So, in a module to which the privileged functions were
/// appended behind `before`, giving `after`, the call reaches the function it
/// is meant for, whatever the gas globals are, as long as the module has
/// that function at all. Where it has not, the call points behind the end of
/// what was appended.
pub proof fn lemma_call_reaches_its_function(
    import: HostImport,
    globals: Option<StylusGlobals>,
    before: Seq<Function>,
    after: Seq<Function>,
)
    requires
        extended_by(before, after, internal_stubs(globals)),
    ensures
        forall|j: int|
            0 <= j < import.body().len() && (#[trigger] import.body()[j]).opcode
                == Opcode::CallerModuleInternalCall ==> j == import.body().len() - 1
                && import.internal() is Some,
        match import.internal() {
            Some(func) => {
                &&& import.body().last() == internal_call(func.index())
                &&& func.available(globals) ==> before.len() + func.index() < after.len()
                    && after[before.len() + func.index()]@ == func.stub(globals)
                &&& !func.available(globals) ==> before.len() + func.index() >= after.len()
            },
            None => import.body().last().opcode != Opcode::CallerModuleInternalCall,
        },
{
    match import.internal() {
        Some(func) => {
            lemma_index_is_the_place(func, globals);
            if func.available(globals) {
                assert(internal_stubs(globals)[func.index() as int] == func.stub(globals));
            }
        },
        None => {},
    }
}

/// Binding is a function of the two names: whatever two bindings under the
/// same names come to, they agree in success and failure, in the function
/// bound, and in the names that a failure holds.
pub proof fn lemma_binding_is_determined(
    module: Seq<char>,
    name: Seq<char>,
    first: Result<Function, UnresolvedImport>,
    second: Result<Function, UnresolvedImport>,
)
    requires
        binds(module, name, first),
        binds(module, name, second),
    ensures
        first is Ok <==> second is Ok,
        first matches Ok(f) ==> second matches Ok(g) && f@ == g@,
        first matches Err(e) ==> second matches Err(d) && e.module@ == d.module@ && e.name@
            == d.name@,
{
}

/// Every import of the catalog can be bound: under its own names, binding
/// gives the function that the catalog has for it.
pub proof fn lemma_catalog_import_binds(
    import: HostImport,
    bound: Result<Function, UnresolvedImport>,
)
    requires
        binds(import.module(), import.name(), bound),
    ensures
        bound matches Ok(func) && func@ == import.stub(),
{
    lemma_find_is_the_import(import.module(), import.name(), import);
}

} // verus!
