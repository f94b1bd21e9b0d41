//! The compile step of loading a plugin: checking and compiling a module's
//! bytes with the component engine.
use vstd::prelude::*;

use wasmtime::component::{Component, ComponentExportIndex};
use wasmtime::{Config, Engine};

use crate::wasm::LoadError;

verus! {

#[verifier::external_type_specification]
#[verifier::external_body]
pub struct ExEngine(Engine);

#[verifier::external_type_specification]
#[verifier::external_body]
pub struct ExComponent(Component);

#[verifier::external_type_specification]
#[verifier::external_body]
pub struct ExError(wasmtime::Error);

#[verifier::external_type_specification]
#[verifier::external_body]
pub struct ExComponentExportIndex(ComponentExportIndex);

/// Relies on `wasmtime::Engine::new`: an engine with the component model
/// switched on, or the error that stopped it.
#[verifier::external_body]
fn component_engine() -> (r: Result<Engine, wasmtime::Error>) {
    Engine::new(Config::new().wasm_component_model(true))
}

/// Relies on `wasmtime::component::Component::new`: the component compiled
/// from its binary or text form, or the error that the bytes gave.
#[verifier::external_body]
fn compile_bytes(engine: &Engine, bytes: &[u8]) -> (r: Result<Component, wasmtime::Error>) {
    Component::new(engine, bytes)
}

/// Relies on the `Display` of `wasmtime::Error`: its text.
#[verifier::external_body]
fn error_text(e: &wasmtime::Error) -> (r: String) {
    format!("{e}")
}

/// Relies on `wasmtime::component::Component::get_export_index`: the export
/// named `name`, at the top level or inside `instance`, if there is one.
#[verifier::external_body]
fn export_index(component: &Component, instance: Option<&ComponentExportIndex>, name: &str) -> (r:
    Option<ComponentExportIndex>) {
    component.get_export_index(instance, name)
}

/// Whether the component exports the `guest` interface with a `run`
/// function in it.
pub fn has_entry_point(component: &Component) -> (r: bool) {
    match export_index(component, None, "guest") {
        Some(guest) => export_index(component, Some(&guest), "run").is_some(),
        None => false,
    }
}

/// A module compiled and ready to be linked.
pub struct CompiledModule {
    pub engine: Engine,
    pub component: Component,
}

/// What a compile attempt gives: the compiled module, or a
/// `LoadError::Compile` with the compiler's message.
pub fn compiled_or_error(engine: Engine, compiled: Result<Component, String>) -> (r: Result<
    CompiledModule,
    LoadError,
>)
    ensures
        compiled is Ok <==> r is Ok,
        compiled matches Ok(c) ==> r == (Ok::<CompiledModule, LoadError>(
            CompiledModule { engine, component: c },
        )),
        compiled matches Err(m) ==> r == Err::<CompiledModule, LoadError>(LoadError::Compile(m)),
{
    match compiled {
        Ok(component) => Ok(CompiledModule { engine, component }),
        Err(m) => Err(LoadError::Compile(m)),
    }
}

/// Admits a compiled module when its entry point was found, and refuses it
/// with `LoadError::MissingExport` otherwise.
pub fn admit_module(compiled: CompiledModule, run_found: bool) -> (r: Result<
    CompiledModule,
    LoadError,
>)
    ensures
        run_found <==> r is Ok,
        run_found ==> r == Ok::<CompiledModule, LoadError>(compiled),
        !run_found ==> r matches Err(LoadError::MissingExport(_)),
{
    if run_found {
        Ok(compiled)
    } else {
        Err(LoadError::MissingExport("the module exports no guest.run".to_owned()))
    }
}

/// Compiles a module from its bytes and checks that it has the entry point.
/// An engine or compile failure is a `LoadError::Compile` carrying the
/// engine's message (see `compiled_or_error`); a compiled module without
/// `guest.run` is a `LoadError::MissingExport` (see `admit_module`).
pub fn compile_module(bytes: &Vec<u8>) -> (r: Result<CompiledModule, LoadError>)
    ensures
        r matches Err(e) ==> e is Compile || e is MissingExport,
{
    let engine = match component_engine() {
        Ok(engine) => engine,
        Err(e) => {
            return Err(LoadError::Compile(error_text(&e)));
        },
    };
    let compiled = match compile_bytes(&engine, bytes.as_slice()) {
        Ok(component) => Ok(component),
        Err(e) => Err(error_text(&e)),
    };
    match compiled_or_error(engine, compiled) {
        Ok(module) => {
            let run_found = has_entry_point(&module.component);
            admit_module(module, run_found)
        },
        Err(e) => Err(e),
    }
}

} // verus!
