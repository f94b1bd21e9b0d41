use pathfinding_playground::loader::{
    admit_module, compile_module, compiled_or_error, has_entry_point, CompiledModule,
};
use pathfinding_playground::wasm::{LoadError, ReloadCoordinator, WasmState};

const WITH_ENTRY: &str = r#"
(component
  (core module $m (func (export "f")))
  (core instance $i (instantiate $m))
  (func $f (canon lift (core func $i "f")))
  (instance $g (export "run" (func $f)))
  (export "guest" (instance $g))
)
"#;

const WRONG_NAME: &str = r#"
(component
  (core module $m (func (export "f")))
  (core instance $i (instantiate $m))
  (func $f (canon lift (core func $i "f")))
  (instance $g (export "walk" (func $f)))
  (export "guest" (instance $g))
)
"#;

#[test]
fn garbage_bytes_do_not_compile() {
    match compile_module(&vec![1, 2, 3, 4, 5]) {
        Err(LoadError::Compile(message)) => assert!(!message.is_empty()),
        _ => panic!("expected a compile error"),
    }
}

#[test]
fn empty_component_has_no_entry_point() {
    let bytes = vec![0x00, 0x61, 0x73, 0x6d, 0x0d, 0x00, 0x01, 0x00];
    assert!(matches!(compile_module(&bytes), Err(LoadError::MissingExport(_))));
}

#[test]
fn component_with_guest_run_compiles() {
    let module = compile_module(&WITH_ENTRY.as_bytes().to_vec()).ok().unwrap();
    assert!(has_entry_point(&module.component));
}

#[test]
fn wrongly_named_export_is_missing_and_keeps_the_old_plugin() {
    let mut coordinator: ReloadCoordinator<u32> = ReloadCoordinator::new();
    assert!(coordinator.install(Ok(3)));
    assert!(coordinator.finish_run(Ok(())));
    let loaded = compile_module(&WRONG_NAME.as_bytes().to_vec()).map(|_| 4u32);
    assert!(matches!(loaded, Err(LoadError::MissingExport(_))));
    assert!(!coordinator.install(loaded));
    assert_eq!(coordinator.handle, Some(3));
    assert!(matches!(coordinator.state, WasmState::Error(_)));
}

#[test]
fn compile_failure_becomes_a_compile_error() {
    let engine = wasmtime::Engine::default();
    let result = compiled_or_error(engine, Err("bad magic".to_string()));
    assert!(matches!(result, Err(LoadError::Compile(m)) if m == "bad magic"));
}

#[test]
fn compiled_component_is_handed_on() {
    let module = compile_module(&WITH_ENTRY.as_bytes().to_vec()).ok().unwrap();
    let CompiledModule { engine, component } = module;
    let handed = compiled_or_error(engine, Ok(component)).ok().unwrap();
    assert!(has_entry_point(&handed.component));
}

#[test]
fn module_without_entry_point_is_refused() {
    let module = compile_module(&WITH_ENTRY.as_bytes().to_vec()).ok().unwrap();
    assert!(matches!(admit_module(module, false), Err(LoadError::MissingExport(_))));
    let module = compile_module(&WITH_ENTRY.as_bytes().to_vec()).ok().unwrap();
    assert!(admit_module(module, true).is_ok());
}
