use std::sync::Arc;

use vstd::prelude::*;
use wasmer::wasmparser::Operator;
use wasmer::sys::CompilerConfig;
use wasmer::Value as NativeValue;
use wasmer_middlewares::metering::{get_remaining_points, set_remaining_points, MeteringPoints};

use crate::error::Type;
use crate::metering::{wasm_cost_function, Instruction};

verus! {

#[verifier::external_type_specification]
#[verifier::external_body]
pub struct ExEngine(wasmer::Engine);

#[verifier::external_type_specification]
#[verifier::external_body]
pub struct ExModule(wasmer::Module);

#[verifier::external_type_specification]
#[verifier::external_body]
pub struct ExStore(wasmer::Store);

#[verifier::external_type_specification]
#[verifier::external_body]
pub struct ExInstance(wasmer::Instance);

#[verifier::external_type_specification]
#[verifier::external_body]
pub struct ExNativeValue(NativeValue);

#[verifier::external_type_specification]
#[verifier::external_body]
pub struct ExFunctionType(wasmer::FunctionType);

#[verifier::external_type_specification]
#[verifier::external_body]
pub struct ExOperator<'a>(Operator<'a>);

/// Whether bytecode compiles, with instruction metering, into a module.
pub uninterp spec fn compiles(code: Seq<u8>) -> bool;

/// The exports of the module that bytecode compiles into, in order: each one's name and,
/// for a function, its parameter and result types.
pub uninterp spec fn exports_of(code: Seq<u8>) -> Seq<ExportView>;

/// An export as plain values: its name and, for a function, its parameter and result types.
pub type ExportView = (Seq<char>, Option<(Seq<Type>, Seq<Type>)>);

/// Some export is a function of that name.
pub open spec fn has_function_export(es: Seq<ExportView>, name: Seq<char>) -> bool {
    exists|i: int| 0 <= i < es.len() && (#[trigger] es[i]).0 == name && es[i].1 is Some
}

/// A module compiled with the metering middleware, with the engine that compiled it.
/// Only `compile_metered` makes one, so every instance of it carries the metering
/// globals.
pub struct CompiledModule {
    engine: wasmer::Engine,
    module: wasmer::Module,
    code: Ghost<Seq<u8>>,
}

/// An instance of a metered module in a store of its own. The store and the instance
/// stay together: nothing outside this module reaches either.
pub struct MeteredInstance {
    store: wasmer::Store,
    instance: wasmer::Instance,
    code: Ghost<Seq<u8>>,
    budget: Ghost<u64>,
}

/// An export of a module: its name and, when it is a function, its parameter and result
/// types.
pub struct ModuleExport {
    pub name: String,
    pub func: Option<(Vec<Type>, Vec<Type>)>,
}

pub open spec fn export_view(e: ModuleExport) -> ExportView {
    (
        e.name@,
        match e.func {
            Some((p, q)) => Some((p@, q@)),
            None => None,
        },
    )
}

pub open spec fn export_views(es: Seq<ModuleExport>) -> Seq<ExportView> {
    es.map_values(|e: ModuleExport| export_view(e))
}

/// Converts wasmparser's operator to the class that the cost table prices; one arm per
/// class, everything else is `Other`.
#[verifier::external_body]
fn instruction_of(op: &Operator) -> Instruction {
    match op {
        Operator::LocalGet { .. } => Instruction::LocalGet,
        Operator::LocalSet { .. } => Instruction::LocalSet,
        Operator::LocalTee { .. } => Instruction::LocalTee,
        Operator::GlobalGet { .. } => Instruction::GlobalGet,
        Operator::GlobalSet { .. } => Instruction::GlobalSet,
        Operator::I32Load { .. } => Instruction::I32Load,
        Operator::I64Load { .. } => Instruction::I64Load,
        Operator::F32Load { .. } => Instruction::F32Load,
        Operator::F64Load { .. } => Instruction::F64Load,
        _ => Instruction::Other,
    }
}

/// Converts a wasmer function type to its parameter and result types, variant for
/// variant.
#[verifier::external_body]
fn function_types(f: &wasmer::FunctionType) -> (Vec<Type>, Vec<Type>) {
    let conv = |t: &wasmer::Type| match t {
        wasmer::Type::I32 => Type::I32,
        wasmer::Type::I64 => Type::I64,
        wasmer::Type::F32 => Type::F32,
        wasmer::Type::F64 => Type::F64,
        wasmer::Type::V128 => Type::V128,
        wasmer::Type::ExternRef => Type::ExternRef,
        wasmer::Type::FuncRef => Type::FuncRef,
        wasmer::Type::ExceptionRef => Type::ExceptionRef,
    };
    (f.params().iter().map(conv).collect(), f.results().iter().map(conv).collect())
}

/// Relies on wasmer::Module::from_binary, compiling with
/// wasmer_compiler_cranelift::Cranelift and a fresh wasmer_middlewares::Metering (priced
/// by `wasm_cost_function`) in an engine of its own, since a metering middleware serves
/// one module only. `None` when wasmer rejects the bytecode.
#[verifier::external_body]
fn compile_with_metering(code: &Vec<u8>) -> (r: Option<(wasmer::Engine, wasmer::Module)>)
    ensures
        r is Some <==> compiles(code@),
{
    let mut config = wasmer_compiler_cranelift::Cranelift::default();
    let metering = wasmer_middlewares::Metering::new(10, |op: &Operator| {
        wasm_cost_function(&instruction_of(op))
    });
    config.push_middleware(Arc::new(metering));
    let engine = wasmer::Engine::from(wasmer::sys::EngineBuilder::new(config));
    wasmer::Module::from_binary(&engine, code).ok().map(|m| (engine, m))
}

/// Relies on wasmer::Instance::new with no imports, in a new wasmer::Store over the
/// engine that compiled the module; on failure, the error's text.
#[verifier::external_body]
fn new_instance(m: &CompiledModule) -> Result<(wasmer::Store, wasmer::Instance), String> {
    let mut store = wasmer::Store::new(m.engine.clone());
    let instance = wasmer::Instance::new(&mut store, &m.module, &wasmer::Imports::new());
    instance.map(|i| (store, i)).map_err(|e| e.to_string())
}

/// Relies on wasmer_middlewares::metering::set_remaining_points, which needs an instance
/// of a metered module in its own store (`MeteredInstance` only holds such a pair).
#[verifier::external_body]
fn set_points(inst: &mut MeteredInstance, points: u64)
    ensures
        final(inst).code() == old(inst).code(),
{
    set_remaining_points(&mut inst.store, &inst.instance, points)
}

/// Relies on wasmer_middlewares::metering::get_remaining_points: `None` when the
/// points ran out and execution was stopped, else the points left.
#[verifier::external_body]
fn remaining_points(inst: &mut MeteredInstance) -> Option<u64> {
    match get_remaining_points(&mut inst.store, &inst.instance) {
        MeteringPoints::Remaining(p) => Some(p),
        MeteringPoints::Exhausted => None,
    }
}

/// Relies on wasmer::Exports::get_function and wasmer::Function::call in the instance's
/// own store: the guest's results, or the text of the trap (or of the missing export).
#[verifier::external_body]
fn call_export(inst: &mut MeteredInstance, name: &str, args: &Vec<NativeValue>) -> Result<Vec<NativeValue>, String> {
    let f = inst.instance.exports.get_function(name).map_err(|e| e.to_string())?.clone();
    f.call(&mut inst.store, args).map(|r| r.into_vec()).map_err(|e| e.to_string())
}

/// Relies on wasmer::Module::exports: each export's name and, for a function, its
/// parameter and result types.
#[verifier::external_body]
fn module_exports(m: &CompiledModule) -> (r: Vec<ModuleExport>)
    ensures
        export_views(r@) == exports_of(m.code()),
{
    m.module.exports().map(|e| ModuleExport {
        name: e.name().to_string(),
        func: e.ty().func().map(function_types),
    }).collect()
}

/// Compiles bytecode with instruction metering; `None` when it is not a valid module.
pub fn compile_metered(code: &Vec<u8>) -> (r: Option<CompiledModule>)
    ensures
        r is Some <==> compiles(code@),
        r matches Some(m) ==> m.code() == code@,
{
    match compile_with_metering(code) {
        Some((engine, module)) => Some(CompiledModule { engine, module, code: Ghost(code@) }),
        None => None,
    }
}

impl CompiledModule {
    /// The bytecode this module was compiled from.
    pub closed spec fn code(&self) -> Seq<u8> {
        self.code@
    }

    /// The module's exports.
    pub fn exports(&self) -> (r: Vec<ModuleExport>)
        ensures
            export_views(r@) == exports_of(self.code()),
    {
        module_exports(self)
    }

    /// A new instance in a store of its own, with `budget` metering points; on failure,
    /// the runtime's message.
    pub fn instantiate(&self, budget: u64) -> (r: Result<MeteredInstance, String>)
        ensures
            r matches Ok(i) ==> i.code() == self.code() && i.budget() == budget,
    {
        match new_instance(self) {
            Ok((store, instance)) => {
                let mut inst = MeteredInstance {
                    store,
                    instance,
                    code: Ghost(self.code@),
                    budget: Ghost(budget),
                };
                set_points(&mut inst, budget);
                inst.budget = Ghost(budget);
                Ok(inst)
            },
            Err(msg) => Err(msg),
        }
    }
}

impl MeteredInstance {
    /// The bytecode of the module this is an instance of.
    pub closed spec fn code(&self) -> Seq<u8> {
        self.code@
    }

    /// The metering points the instance was given.
    pub closed spec fn budget(&self) -> u64 {
        self.budget@
    }

    /// Runs the exported function `name` with native arguments: its results, or the
    /// runtime's message when it traps or does not exist.
    pub fn call(&mut self, name: &str, args: &Vec<NativeValue>) -> (r: Result<Vec<NativeValue>, String>) {
        call_export(self, name, args)
    }

    /// The metering points left, or `None` once they ran out.
    pub fn points_left(&mut self) -> Option<u64> {
        remaining_points(self)
    }
}

} // verus!
