use wasmtime_cli::compile::{CompileAction, CompileEvent, CompileRequest, CompileSession, CompileStage};
use wasmtime_cli::error::CompileError;
use wasmtime_cli::wasm::ArtifactKind;

fn bytes(s: &str) -> Vec<u8> {
    s.as_bytes().to_vec()
}

fn request(module: &str, output: Option<&str>, emit_clif: Option<&str>) -> CompileRequest {
    CompileRequest {
        module: bytes(module),
        output: output.map(bytes),
        emit_clif: emit_clif.map(bytes),
    }
}

fn expect_finish(a: CompileAction) -> Result<(), CompileError> {
    match a {
        CompileAction::Finish { result } => result,
        other => panic!("expected the end, got {:?}", other),
    }
}

#[test]
fn full_run_with_derived_output() {
    let (mut s, a) = CompileSession::start(request("dir/add.wat", None, None));
    assert!(matches!(a, CompileAction::ResolveConfig));
    let a = s.handle(CompileEvent::ConfigResolved(Ok(())));
    assert!(matches!(a, CompileAction::BuildEngine { clif_dir: None }));
    let a = s.handle(CompileEvent::EngineBuilt(Ok(())));
    match a {
        CompileAction::ReadInput { path } => assert_eq!(path, bytes("dir/add.wat")),
        other => panic!("unexpected {:?}", other),
    }
    let text = "(module (func (export \"f\") (param i32) (result i32) local.get 0))";
    let a = s.handle(CompileEvent::InputRead(Ok(bytes(text))));
    match a {
        CompileAction::Precompile { kind, wasm } => {
            assert_eq!(kind, ArtifactKind::Module);
            assert_eq!(&wasm[..4], b"\0asm");
        }
        other => panic!("unexpected {:?}", other),
    }
    let a = s.handle(CompileEvent::Precompiled(Ok(vec![1, 2, 3, 4])));
    match a {
        CompileAction::WriteOutput { path, artifact } => {
            assert_eq!(path, bytes("add.cwasm"));
            assert_eq!(artifact, vec![1, 2, 3, 4]);
        }
        other => panic!("unexpected {:?}", other),
    }
    let a = s.handle(CompileEvent::OutputWritten(Ok(())));
    assert_eq!(expect_finish(a), Ok(()));
    assert_eq!(s.stage(), CompileStage::Done);
}

#[test]
fn explicit_output_is_verbatim() {
    let (mut s, _) = CompileSession::start(request("m.wasm", Some("out/x.bin"), None));
    s.handle(CompileEvent::ConfigResolved(Ok(())));
    s.handle(CompileEvent::EngineBuilt(Ok(())));
    s.handle(CompileEvent::InputRead(Ok(b"(module)".to_vec())));
    match s.handle(CompileEvent::Precompiled(Ok(vec![9]))) {
        CompileAction::WriteOutput { path, .. } => assert_eq!(path, bytes("out/x.bin")),
        other => panic!("unexpected {:?}", other),
    }
}

#[test]
fn component_input_takes_component_path() {
    let (mut s, _) = CompileSession::start(request("c.wasm", None, None));
    s.handle(CompileEvent::ConfigResolved(Ok(())));
    s.handle(CompileEvent::EngineBuilt(Ok(())));
    let input = vec![0, 0x61, 0x73, 0x6d, 0x0d, 0, 1, 0];
    match s.handle(CompileEvent::InputRead(Ok(input.clone()))) {
        CompileAction::Precompile { kind, wasm } => {
            assert_eq!(kind, ArtifactKind::Component);
            assert_eq!(wasm, input);
        }
        other => panic!("unexpected {:?}", other),
    }
}

#[test]
fn missing_clif_dir_is_created_then_used() {
    let (mut s, _) = CompileSession::start(request("m.wat", None, Some("clif")));
    match s.handle(CompileEvent::ConfigResolved(Ok(()))) {
        CompileAction::InspectClifDir { path } => assert_eq!(path, bytes("clif")),
        other => panic!("unexpected {:?}", other),
    }
    match s.handle(CompileEvent::ClifInspected { exists: false, is_dir: false }) {
        CompileAction::CreateClifDir { path } => assert_eq!(path, bytes("clif")),
        other => panic!("unexpected {:?}", other),
    }
    match s.handle(CompileEvent::ClifCreated(Ok(()))) {
        CompileAction::BuildEngine { clif_dir } => assert_eq!(clif_dir, Some(bytes("clif"))),
        other => panic!("unexpected {:?}", other),
    }
}

#[test]
fn existing_clif_dir_is_used() {
    let (mut s, _) = CompileSession::start(request("m.wat", None, Some("d")));
    s.handle(CompileEvent::ConfigResolved(Ok(())));
    match s.handle(CompileEvent::ClifInspected { exists: true, is_dir: true }) {
        CompileAction::BuildEngine { clif_dir } => assert_eq!(clif_dir, Some(bytes("d"))),
        other => panic!("unexpected {:?}", other),
    }
}

#[test]
fn clif_path_that_is_a_file_is_refused() {
    let (mut s, _) = CompileSession::start(request("m.wat", None, Some("a_file")));
    s.handle(CompileEvent::ConfigResolved(Ok(())));
    let a = s.handle(CompileEvent::ClifInspected { exists: true, is_dir: false });
    assert_eq!(expect_finish(a), Err(CompileError::ClifNotDirectory { path: bytes("a_file") }));
}

#[test]
fn clif_dir_creation_failure_is_io() {
    let (mut s, _) = CompileSession::start(request("m.wat", None, Some("x/y")));
    s.handle(CompileEvent::ConfigResolved(Ok(())));
    s.handle(CompileEvent::ClifInspected { exists: false, is_dir: false });
    let a = s.handle(CompileEvent::ClifCreated(Err("denied".to_string())));
    assert_eq!(
        expect_finish(a),
        Err(CompileError::Io { path: bytes("x/y"), message: "denied".to_string() })
    );
}

#[test]
fn backend_message_passes_verbatim() {
    let (mut s, _) = CompileSession::start(request("m.wat", None, None));
    s.handle(CompileEvent::ConfigResolved(Ok(())));
    let a = s.handle(CompileEvent::EngineBuilt(Err("No existing setting named 'has_lse'".to_string())));
    assert_eq!(
        expect_finish(a),
        Err(CompileError::Config { message: "No existing setting named 'has_lse'".to_string() })
    );
}

#[test]
fn config_failure_ends_the_session() {
    let (mut s, _) = CompileSession::start(request("m.wat", None, Some("d")));
    let a = s.handle(CompileEvent::ConfigResolved(Err("unknown target".to_string())));
    assert_eq!(expect_finish(a), Err(CompileError::Config { message: "unknown target".to_string() }));
    assert!(!s.accepts(&CompileEvent::ClifInspected { exists: true, is_dir: true }));
}

#[test]
fn input_path_without_file_name_fails_first() {
    let (s, a) = CompileSession::start(request("some/dir/", Some("out.cwasm"), Some("clif")));
    assert_eq!(expect_finish(a), Err(CompileError::InvalidModulePath { path: bytes("some/dir/") }));
    assert_eq!(s.stage(), CompileStage::Done);
    assert!(!s.accepts(&CompileEvent::ConfigResolved(Ok(()))));
}

#[test]
fn read_failure_names_input() {
    let (mut s, _) = CompileSession::start(request("gone.wasm", None, None));
    s.handle(CompileEvent::ConfigResolved(Ok(())));
    s.handle(CompileEvent::EngineBuilt(Ok(())));
    let a = s.handle(CompileEvent::InputRead(Err("not found".to_string())));
    assert_eq!(
        expect_finish(a),
        Err(CompileError::Io { path: bytes("gone.wasm"), message: "not found".to_string() })
    );
}

#[test]
fn invalid_text_is_input_error() {
    let (mut s, _) = CompileSession::start(request("bad.wat", None, None));
    s.handle(CompileEvent::ConfigResolved(Ok(())));
    s.handle(CompileEvent::EngineBuilt(Ok(())));
    let a = s.handle(CompileEvent::InputRead(Ok(b"(module (func".to_vec())));
    assert!(matches!(expect_finish(a), Err(CompileError::Input { .. })));
}

#[test]
fn precompile_and_write_failures() {
    let (mut s, _) = CompileSession::start(request("m.wat", None, None));
    s.handle(CompileEvent::ConfigResolved(Ok(())));
    s.handle(CompileEvent::EngineBuilt(Ok(())));
    s.handle(CompileEvent::InputRead(Ok(b"(module)".to_vec())));
    let a = s.handle(CompileEvent::Precompiled(Err("invalid".to_string())));
    assert_eq!(expect_finish(a), Err(CompileError::Precompile { message: "invalid".to_string() }));

    let (mut s, _) = CompileSession::start(request("m.wat", None, None));
    s.handle(CompileEvent::ConfigResolved(Ok(())));
    s.handle(CompileEvent::EngineBuilt(Ok(())));
    s.handle(CompileEvent::InputRead(Ok(b"(module)".to_vec())));
    s.handle(CompileEvent::Precompiled(Ok(vec![0])));
    let a = s.handle(CompileEvent::OutputWritten(Err("disk full".to_string())));
    assert_eq!(
        expect_finish(a),
        Err(CompileError::Io { path: bytes("m.cwasm"), message: "disk full".to_string() })
    );
}

#[test]
fn accepts_only_the_awaited_event() {
    let (s, _) = CompileSession::start(request("m.wat", None, None));
    assert_eq!(s.stage(), CompileStage::Config);
    assert!(s.accepts(&CompileEvent::ConfigResolved(Ok(()))));
    assert!(!s.accepts(&CompileEvent::EngineBuilt(Ok(()))));
}
