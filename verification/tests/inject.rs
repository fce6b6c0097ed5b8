use prover::catalog::HostImport;
use prover::host::{add_internal_funcs, get_host_impl};
use prover::internal::InternalFunc;
use prover::machine::Function;
use prover::programs::StylusGlobals;
use prover::value::{ArbValueType, FunctionType};
use prover::wavm::{Instruction, Opcode};

use ArbValueType::{I32, I64};

fn op(opcode: Opcode) -> Instruction {
    Instruction { opcode, argument_data: 0 }
}

fn framed(work: Vec<Instruction>) -> Vec<Instruction> {
    let mut code = vec![op(Opcode::InitFrame)];
    code.extend(work);
    code.push(op(Opcode::Return));
    code
}

fn memory_functions() -> Vec<Vec<Instruction>> {
    vec![
        framed(vec![op(Opcode::MemoryLoad { ty: I32, bytes: 1, signed: false })]),
        framed(vec![op(Opcode::MemoryLoad { ty: I32, bytes: 4, signed: false })]),
        framed(vec![op(Opcode::MemoryStore { ty: I32, bytes: 1 })]),
        framed(vec![op(Opcode::MemoryStore { ty: I32, bytes: 4 })]),
    ]
}

fn recorded() -> FunctionType {
    FunctionType::new(vec![I32], vec![I32])
}

#[test]
fn without_gas_globals_four_are_appended() {
    let mut funcs: Vec<Function> = Vec::new();
    let mut func_types: Vec<FunctionType> = Vec::new();
    add_internal_funcs(&mut funcs, &mut func_types, None);
    assert_eq!(funcs.len(), 4);
    assert_eq!(func_types.len(), 4);
    let expected = memory_functions();
    for i in 0..4 {
        assert_eq!(funcs[i].code(), &expected[i]);
        assert_eq!(funcs[i].ty(), &recorded());
        assert_eq!(func_types[i], recorded());
    }
}

#[test]
fn the_memory_functions_written_out() {
    let mut funcs: Vec<Function> = Vec::new();
    let mut func_types: Vec<FunctionType> = Vec::new();
    add_internal_funcs(&mut funcs, &mut func_types, None);
    assert_eq!(
        funcs[0].code(),
        &vec![
            Instruction { opcode: Opcode::InitFrame, argument_data: 0 },
            Instruction {
                opcode: Opcode::MemoryLoad { ty: I32, bytes: 1, signed: false },
                argument_data: 0
            },
            Instruction { opcode: Opcode::Return, argument_data: 0 },
        ]
    );
    assert_eq!(
        funcs[1].code()[1].opcode,
        Opcode::MemoryLoad { ty: I32, bytes: 4, signed: false }
    );
    assert_eq!(funcs[2].code()[1].opcode, Opcode::MemoryStore { ty: I32, bytes: 1 });
    assert_eq!(funcs[3].code()[1].opcode, Opcode::MemoryStore { ty: I32, bytes: 4 });
}

#[test]
fn with_gas_globals_seven_are_appended() {
    let mut funcs: Vec<Function> = Vec::new();
    let mut func_types: Vec<FunctionType> = Vec::new();
    let globals = StylusGlobals { gas_left: 17, gas_status: 23 };
    add_internal_funcs(&mut funcs, &mut func_types, Some(globals));
    assert_eq!(funcs.len(), 7);
    assert_eq!(func_types.len(), 7);
    let mut expected = memory_functions();
    expected.push(framed(vec![Instruction { opcode: Opcode::GlobalGet, argument_data: 17 }]));
    expected.push(framed(vec![Instruction { opcode: Opcode::GlobalGet, argument_data: 23 }]));
    expected.push(framed(vec![
        Instruction { opcode: Opcode::GlobalSet, argument_data: 23 },
        Instruction { opcode: Opcode::GlobalSet, argument_data: 17 },
    ]));
    for i in 0..7 {
        assert_eq!(funcs[i].code(), &expected[i]);
        assert_eq!(funcs[i].ty(), &recorded());
        assert_eq!(func_types[i], recorded());
    }
}

#[test]
fn setting_the_gas_stores_the_status_first() {
    let mut funcs: Vec<Function> = Vec::new();
    let mut func_types: Vec<FunctionType> = Vec::new();
    let globals = StylusGlobals { gas_left: 1, gas_status: 2 };
    add_internal_funcs(&mut funcs, &mut func_types, Some(globals));
    let code = funcs[6].code();
    assert_eq!(code.len(), 4);
    assert_eq!(code[0], op(Opcode::InitFrame));
    assert_eq!(code[1], Instruction::with_data(Opcode::GlobalSet, 2));
    assert_eq!(code[2], Instruction::with_data(Opcode::GlobalSet, 1));
    assert_eq!(code[3], op(Opcode::Return));
}

#[test]
fn the_largest_global_indices() {
    let mut funcs: Vec<Function> = Vec::new();
    let mut func_types: Vec<FunctionType> = Vec::new();
    let globals = StylusGlobals { gas_left: u32::MAX, gas_status: 0 };
    assert_eq!(globals.offsets(), (4294967295, 0));
    add_internal_funcs(&mut funcs, &mut func_types, Some(globals));
    assert_eq!(funcs[4].code()[1], Instruction::with_data(Opcode::GlobalGet, 4294967295));
    assert_eq!(funcs[5].code()[1], Instruction::with_data(Opcode::GlobalGet, 0));
}

#[test]
fn what_the_tables_held_stays() {
    let earlier = Function::new_from_wavm(
        vec![op(Opcode::HaltAndSetFinished)],
        FunctionType::new(vec![I64], vec![]),
    );
    let mut funcs = vec![earlier.clone(), earlier.clone()];
    let mut func_types = vec![FunctionType::new(vec![I64], vec![])];
    add_internal_funcs(&mut funcs, &mut func_types, None);
    assert_eq!(funcs.len(), 6);
    assert_eq!(func_types.len(), 5);
    assert_eq!(funcs[0], earlier);
    assert_eq!(funcs[1], earlier);
    assert_eq!(func_types[0], FunctionType::new(vec![I64], vec![]));
    let expected = memory_functions();
    for i in 0..4 {
        assert_eq!(funcs[2 + i].code(), &expected[i]);
        assert_eq!(func_types[1 + i], recorded());
    }
}

#[test]
fn both_tables_grow_in_step() {
    for globals in [None, Some(StylusGlobals { gas_left: 3, gas_status: 4 })] {
        let mut funcs: Vec<Function> = Vec::new();
        let mut func_types: Vec<FunctionType> = Vec::new();
        add_internal_funcs(&mut funcs, &mut func_types, globals);
        assert_eq!(funcs.len(), func_types.len());
        assert_eq!(funcs.len(), if globals.is_some() { 7 } else { 4 });
        for i in 0..funcs.len() {
            assert_eq!(funcs[i].ty(), &func_types[i]);
        }
    }
}

#[test]
fn places_of_the_privileged_functions() {
    assert_eq!(InternalFunc::WavmCallerLoad8.index(), 0);
    assert_eq!(InternalFunc::WavmCallerLoad32.index(), 1);
    assert_eq!(InternalFunc::WavmCallerStore8.index(), 2);
    assert_eq!(InternalFunc::WavmCallerStore32.index(), 3);
    assert_eq!(InternalFunc::UserGasLeft.index(), 4);
    assert_eq!(InternalFunc::UserGasStatus.index(), 5);
    assert_eq!(InternalFunc::UserGasSet.index(), 6);
}

#[test]
fn every_privileged_function_is_recorded_alike() {
    for func in [
        InternalFunc::WavmCallerLoad8,
        InternalFunc::WavmCallerLoad32,
        InternalFunc::WavmCallerStore8,
        InternalFunc::WavmCallerStore32,
        InternalFunc::UserGasLeft,
        InternalFunc::UserGasStatus,
        InternalFunc::UserGasSet,
    ] {
        assert_eq!(func.ty(), recorded());
    }
}

#[test]
fn store32_calls_the_fourth_function() {
    let mut funcs: Vec<Function> = Vec::new();
    let mut func_types: Vec<FunctionType> = Vec::new();
    add_internal_funcs(&mut funcs, &mut func_types, None);
    let bound = get_host_impl("env", "wavm_caller_store32").unwrap();
    assert_eq!(bound.ty(), &FunctionType::new(vec![I32, I32], vec![]));
    assert_eq!(
        bound.code(),
        &vec![
            Instruction { opcode: Opcode::LocalGet, argument_data: 0 },
            Instruction { opcode: Opcode::LocalGet, argument_data: 1 },
            Instruction { opcode: Opcode::CallerModuleInternalCall, argument_data: 3 },
        ]
    );
    let target = &funcs[bound.code()[2].argument_data as usize];
    assert_eq!(target.code()[1].opcode, Opcode::MemoryStore { ty: I32, bytes: 4 });
}

#[test]
fn gas_left_calls_the_fifth_function() {
    let mut funcs: Vec<Function> = Vec::new();
    let mut func_types: Vec<FunctionType> = Vec::new();
    let globals = StylusGlobals { gas_left: 40, gas_status: 41 };
    add_internal_funcs(&mut funcs, &mut func_types, Some(globals));
    let bound = get_host_impl("hostio", "user_gas_left").unwrap();
    assert_eq!(bound.ty(), &FunctionType::new(vec![], vec![I64]));
    assert_eq!(
        bound.code(),
        &vec![Instruction { opcode: Opcode::CallerModuleInternalCall, argument_data: 4 }]
    );
    let target = &funcs[bound.code()[0].argument_data as usize];
    assert_eq!(target.code(), &framed(vec![Instruction::with_data(Opcode::GlobalGet, 40)]));
}

#[test]
fn every_call_reaches_its_function() {
    let globals = StylusGlobals { gas_left: 7, gas_status: 9 };
    let mut funcs = vec![Function::new_from_wavm(vec![], FunctionType::default())];
    let mut func_types = vec![FunctionType::default()];
    add_internal_funcs(&mut funcs, &mut func_types, Some(globals));
    let work = |func: InternalFunc| -> Vec<Instruction> {
        match func {
            InternalFunc::WavmCallerLoad8 => {
                vec![op(Opcode::MemoryLoad { ty: I32, bytes: 1, signed: false })]
            }
            InternalFunc::WavmCallerLoad32 => {
                vec![op(Opcode::MemoryLoad { ty: I32, bytes: 4, signed: false })]
            }
            InternalFunc::WavmCallerStore8 => vec![op(Opcode::MemoryStore { ty: I32, bytes: 1 })],
            InternalFunc::WavmCallerStore32 => vec![op(Opcode::MemoryStore { ty: I32, bytes: 4 })],
            InternalFunc::UserGasLeft => vec![Instruction::with_data(Opcode::GlobalGet, 7)],
            InternalFunc::UserGasStatus => vec![Instruction::with_data(Opcode::GlobalGet, 9)],
            InternalFunc::UserGasSet => vec![
                Instruction::with_data(Opcode::GlobalSet, 9),
                Instruction::with_data(Opcode::GlobalSet, 7),
            ],
        }
    };
    let mut calls = 0;
    for import in HostImport::all() {
        let bound = get_host_impl(import.module_name(), import.import_name()).unwrap();
        let last = bound.code()[bound.code().len() - 1];
        if let Some(func) = import.internal() {
            assert_eq!(last.opcode, Opcode::CallerModuleInternalCall);
            let target = &funcs[1 + last.argument_data as usize];
            assert_eq!(target.code(), &framed(work(func)));
            calls += 1;
        } else {
            assert_ne!(last.opcode, Opcode::CallerModuleInternalCall);
        }
    }
    assert_eq!(calls, 7);
}

#[test]
fn without_gas_globals_a_gas_call_points_behind_the_table() {
    let mut funcs: Vec<Function> = Vec::new();
    let mut func_types: Vec<FunctionType> = Vec::new();
    add_internal_funcs(&mut funcs, &mut func_types, None);
    for name in ["user_gas_left", "user_gas_status", "user_set_gas"] {
        let bound = get_host_impl("hostio", name).unwrap();
        let last = bound.code()[bound.code().len() - 1];
        assert_eq!(last.opcode, Opcode::CallerModuleInternalCall);
        assert!(last.argument_data as usize >= funcs.len());
    }
}
