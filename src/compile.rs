//! The `compile` command as a session: it decides what to compile, where the
//! artifact goes and in what order the outside work happens; the caller
//! performs each action and reports back what came of it.
use crate::error::{CompileError, CompileErrorView};
use crate::path::{
    artifact_suffix, derived_output, derived_output_of, file_name_of, final_component,
    lemma_derived_output_in_working_dir, stem_of,
};
use crate::wasm::{
    artifact_kind, component_header, kind_of, starts_with, to_binary, wat_output, ArtifactKind,
};
use vstd::prelude::*;

verus! {

/// What the user asked to compile.
pub struct CompileRequest {
    /// The input file.
    pub module: Vec<u8>,
    /// Where the artifact goes; derived from `module` when absent.
    pub output: Option<Vec<u8>>,
    /// A directory for the backend's intermediate code, one file per function.
    pub emit_clif: Option<Vec<u8>>,
}

/// The step a session waits on.
#[derive(Debug, Clone, Copy, PartialEq, Eq, Structural)]
pub enum CompileStage {
    Config,
    ClifInspect,
    ClifCreate,
    Engine,
    Read,
    Precompile,
    Write,
    Done,
}

/// What the caller is to do next.
#[derive(Debug)]
pub enum CompileAction {
    /// Resolve the engine configuration from the common options and target.
    ResolveConfig,
    /// Report whether `path` exists and whether it is a directory.
    InspectClifDir { path: Vec<u8> },
    /// Create the directory `path`.
    CreateClifDir { path: Vec<u8> },
    /// Build the engine, emitting intermediate code into `clif_dir` if given.
    BuildEngine { clif_dir: Option<Vec<u8>> },
    /// Read the file `path`.
    ReadInput { path: Vec<u8> },
    /// Precompile `wasm` through the entry point for `kind`.
    Precompile { kind: ArtifactKind, wasm: Vec<u8> },
    /// Write `artifact` to `path`, replacing any file there.
    WriteOutput { path: Vec<u8>, artifact: Vec<u8> },
    /// The command is over, with this result.
    Finish { result: Result<(), CompileError> },
}

/// What came of the last action.
#[derive(Debug)]
pub enum CompileEvent {
    ConfigResolved(Result<(), String>),
    ClifInspected { exists: bool, is_dir: bool },
    ClifCreated(Result<(), String>),
    EngineBuilt(Result<(), String>),
    InputRead(Result<Vec<u8>, String>),
    Precompiled(Result<Vec<u8>, String>),
    OutputWritten(Result<(), String>),
}

/// The mathematical form of a [`CompileAction`].
pub enum CompileActionView {
    ResolveConfig,
    InspectClifDir { path: Seq<u8> },
    CreateClifDir { path: Seq<u8> },
    BuildEngine { clif_dir: Option<Seq<u8>> },
    ReadInput { path: Seq<u8> },
    Precompile { kind: ArtifactKind, wasm: Seq<u8> },
    WriteOutput { path: Seq<u8>, artifact: Seq<u8> },
    Finish { result: Result<(), CompileErrorView> },
}

/// The mathematical form of a [`CompileEvent`].
pub enum CompileEventView {
    ConfigResolved(Result<(), Seq<char>>),
    ClifInspected { exists: bool, is_dir: bool },
    ClifCreated(Result<(), Seq<char>>),
    EngineBuilt(Result<(), Seq<char>>),
    InputRead(Result<Seq<u8>, Seq<char>>),
    Precompiled(Result<Seq<u8>, Seq<char>>),
    OutputWritten(Result<(), Seq<char>>),
}

/// The view of an optional byte vector.
pub open spec fn bytes_opt_view(o: Option<Vec<u8>>) -> Option<Seq<u8>> {
    match o {
        Some(v) => Some(v@),
        None => None,
    }
}

/// The view of a result that carries a message on failure.
pub open spec fn unit_result_view(r: Result<(), String>) -> Result<(), Seq<char>> {
    match r {
        Ok(()) => Ok(()),
        Err(m) => Err(m@),
    }
}

/// The view of a result that carries bytes, or a message on failure.
pub open spec fn bytes_result_view(r: Result<Vec<u8>, String>) -> Result<Seq<u8>, Seq<char>> {
    match r {
        Ok(b) => Ok(b@),
        Err(m) => Err(m@),
    }
}

impl View for CompileAction {
    type V = CompileActionView;

    open spec fn view(&self) -> CompileActionView {
        match self {
            CompileAction::ResolveConfig => CompileActionView::ResolveConfig,
            CompileAction::InspectClifDir { path } => CompileActionView::InspectClifDir {
                path: path@,
            },
            CompileAction::CreateClifDir { path } => CompileActionView::CreateClifDir {
                path: path@,
            },
            CompileAction::BuildEngine { clif_dir } => CompileActionView::BuildEngine {
                clif_dir: bytes_opt_view(*clif_dir),
            },
            CompileAction::ReadInput { path } => CompileActionView::ReadInput { path: path@ },
            CompileAction::Precompile { kind, wasm } => CompileActionView::Precompile {
                kind: *kind,
                wasm: wasm@,
            },
            CompileAction::WriteOutput { path, artifact } => CompileActionView::WriteOutput {
                path: path@,
                artifact: artifact@,
            },
            CompileAction::Finish { result } => CompileActionView::Finish {
                result: match result {
                    Ok(()) => Ok(()),
                    Err(e) => Err(e@),
                },
            },
        }
    }
}

impl View for CompileEvent {
    type V = CompileEventView;

    open spec fn view(&self) -> CompileEventView {
        match self {
            CompileEvent::ConfigResolved(r) => CompileEventView::ConfigResolved(
                unit_result_view(*r),
            ),
            CompileEvent::ClifInspected { exists, is_dir } => CompileEventView::ClifInspected {
                exists: *exists,
                is_dir: *is_dir,
            },
            CompileEvent::ClifCreated(r) => CompileEventView::ClifCreated(unit_result_view(*r)),
            CompileEvent::EngineBuilt(r) => CompileEventView::EngineBuilt(unit_result_view(*r)),
            CompileEvent::InputRead(r) => CompileEventView::InputRead(bytes_result_view(*r)),
            CompileEvent::Precompiled(r) => CompileEventView::Precompiled(bytes_result_view(*r)),
            CompileEvent::OutputWritten(r) => CompileEventView::OutputWritten(
                unit_result_view(*r),
            ),
        }
    }
}

/// The mathematical form of a session.
pub struct CompileModel {
    pub module: Seq<u8>,
    pub output: Seq<u8>,
    pub emit_clif: Option<Seq<u8>>,
    pub stage: CompileStage,
}

/// Where the artifact of `module` goes: the explicit path verbatim, else the
/// name derived from the input's file name.
pub open spec fn output_path_of(module: Seq<u8>, output: Option<Seq<u8>>) -> Seq<u8> {
    match output {
        Some(o) => o,
        None => derived_output_of(module),
    }
}

/// Ends the session with `result`.
pub open spec fn finish(m: CompileModel, result: Result<(), CompileErrorView>) -> (
    CompileModel,
    CompileActionView,
) {
    (CompileModel { stage: CompileStage::Done, ..m }, CompileActionView::Finish { result })
}

/// Ends the session with the error `e`.
pub open spec fn fail(m: CompileModel, e: CompileErrorView) -> (CompileModel, CompileActionView) {
    finish(m, Err(e))
}

/// Moves the session to `stage`, asking for `a`.
pub open spec fn goto(m: CompileModel, stage: CompileStage, a: CompileActionView) -> (
    CompileModel,
    CompileActionView,
) {
    (CompileModel { stage, ..m }, a)
}

/// How a session opens: an input path that names no file fails at once,
/// before any configuration, engine or file work.
pub open spec fn compile_start(
    module: Seq<u8>,
    output: Option<Seq<u8>>,
    emit_clif: Option<Seq<u8>>,
) -> (CompileModel, CompileActionView) {
    if file_name_of(module) is None {
        (
            CompileModel { module, output: Seq::empty(), emit_clif, stage: CompileStage::Done },
            CompileActionView::Finish {
                result: Err(CompileErrorView::InvalidModulePath { path: module }),
            },
        )
    } else {
        (
            CompileModel {
                module,
                output: output_path_of(module, output),
                emit_clif,
                stage: CompileStage::Config,
            },
            CompileActionView::ResolveConfig,
        )
    }
}

/// A session's invariant: the stages that handle the intermediate-code
/// directory occur only where one was asked for.
pub open spec fn compile_wf(m: CompileModel) -> bool {
    m.stage is ClifInspect || m.stage is ClifCreate ==> m.emit_clif is Some
}

/// The event that each stage waits for.
pub open spec fn compile_accepts(stage: CompileStage, e: CompileEventView) -> bool {
    match stage {
        CompileStage::Config => e is ConfigResolved,
        CompileStage::ClifInspect => e is ClifInspected,
        CompileStage::ClifCreate => e is ClifCreated,
        CompileStage::Engine => e is EngineBuilt,
        CompileStage::Read => e is InputRead,
        CompileStage::Precompile => e is Precompiled,
        CompileStage::Write => e is OutputWritten,
        CompileStage::Done => false,
    }
}

/// The engine is built after the intermediate-code directory is in place.
pub open spec fn build_engine(m: CompileModel) -> (CompileModel, CompileActionView) {
    goto(m, CompileStage::Engine, CompileActionView::BuildEngine { clif_dir: m.emit_clif })
}

/// One step of a session: the next state and action, given what came of the
/// last action.
pub open spec fn compile_step(m: CompileModel, e: CompileEventView) -> (
    CompileModel,
    CompileActionView,
) {
    match e {
        CompileEventView::ConfigResolved(r) => match r {
            Err(message) => fail(m, CompileErrorView::Config { message }),
            Ok(()) => match m.emit_clif {
                Some(path) => goto(
                    m,
                    CompileStage::ClifInspect,
                    CompileActionView::InspectClifDir { path },
                ),
                None => build_engine(m),
            },
        },
        CompileEventView::ClifInspected { exists, is_dir } => {
            let path = m.emit_clif->Some_0;
            if !exists {
                goto(m, CompileStage::ClifCreate, CompileActionView::CreateClifDir { path })
            } else if !is_dir {
                fail(m, CompileErrorView::ClifNotDirectory { path })
            } else {
                build_engine(m)
            }
        },
        CompileEventView::ClifCreated(r) => match r {
            Err(message) => fail(m, CompileErrorView::Io { path: m.emit_clif->Some_0, message }),
            Ok(()) => build_engine(m),
        },
        CompileEventView::EngineBuilt(r) => match r {
            Err(message) => fail(m, CompileErrorView::Config { message }),
            Ok(()) => goto(m, CompileStage::Read, CompileActionView::ReadInput { path: m.module }),
        },
        CompileEventView::InputRead(r) => match r {
            Err(message) => fail(m, CompileErrorView::Io { path: m.module, message }),
            Ok(bytes) => match wat_output(bytes) {
                None => fail(m, CompileErrorView::Input),
                Some(wasm) => goto(
                    m,
                    CompileStage::Precompile,
                    CompileActionView::Precompile { kind: kind_of(wasm), wasm },
                ),
            },
        },
        CompileEventView::Precompiled(r) => match r {
            Err(message) => fail(m, CompileErrorView::Precompile { message }),
            Ok(artifact) => goto(
                m,
                CompileStage::Write,
                CompileActionView::WriteOutput { path: m.output, artifact },
            ),
        },
        CompileEventView::OutputWritten(r) => match r {
            Err(message) => fail(m, CompileErrorView::Io { path: m.output, message }),
            Ok(()) => finish(m, Ok(())),
        },
    }
}

/// An input path that names no file ends the session at its start with an
/// invalid-argument error naming the path, before any configuration, engine
/// or file work; a finished session takes no further event.
pub proof fn lemma_unnamed_input_fails_first(
    module: Seq<u8>,
    output: Option<Seq<u8>>,
    emit_clif: Option<Seq<u8>>,
)
    requires
        file_name_of(module) is None,
    ensures
        compile_start(module, output, emit_clif).0.stage is Done,
        compile_start(module, output, emit_clif).1 == (CompileActionView::Finish {
            result: Err(CompileErrorView::InvalidModulePath { path: module }),
        }),
        forall|e: CompileEventView| !compile_accepts(CompileStage::Done, e),
{
}

/// Without an explicit output path the artifact is written to the input's
/// file-name stem with the `.cwasm` extension, in the working directory; an
/// explicit one is used verbatim.
pub proof fn lemma_output_path(module: Seq<u8>, output: Option<Seq<u8>>, emit_clif: Option<Seq<u8>>)
    requires
        file_name_of(module) is Some,
    ensures
        output is None ==> compile_start(module, output, emit_clif).0.output == stem_of(
            final_component(module),
        ) + artifact_suffix(),
        output is Some ==> compile_start(module, output, emit_clif).0.output == output->Some_0,
{
    lemma_derived_output_in_working_dir(module);
}

/// A component binary goes to the component entry point and a module binary
/// to the module one: the choice follows the binary's header.
pub proof fn lemma_kind_routes_precompile(m: CompileModel, input: Seq<u8>, wasm: Seq<u8>)
    requires
        m.stage is Read,
        wat_output(input) == Some(wasm),
    ensures
        starts_with(wasm, component_header()) ==> compile_step(
            m,
            CompileEventView::InputRead(Ok(input)),
        ).1 == (CompileActionView::Precompile { kind: ArtifactKind::Component, wasm }),
        !starts_with(wasm, component_header()) ==> compile_step(
            m,
            CompileEventView::InputRead(Ok(input)),
        ).1 == (CompileActionView::Precompile { kind: ArtifactKind::Module, wasm }),
{
}

/// The intermediate-code directory is created where it is missing, refused
/// where something else stands at its path, and in every good case handed to
/// the engine when it is built.
pub proof fn lemma_clif_dir(m: CompileModel, path: Seq<u8>)
    requires
        m.stage is ClifInspect,
        m.emit_clif == Some(path),
    ensures
        compile_step(m, CompileEventView::ClifInspected { exists: false, is_dir: false }).1 == (
        CompileActionView::CreateClifDir { path }),
        compile_step(m, CompileEventView::ClifInspected { exists: true, is_dir: false }).1 == (
        CompileActionView::Finish {
            result: Err(CompileErrorView::ClifNotDirectory { path }),
        }),
        compile_step(m, CompileEventView::ClifInspected { exists: true, is_dir: true }).1 == (
        CompileActionView::BuildEngine { clif_dir: Some(path) }),
        compile_step(
            compile_step(m, CompileEventView::ClifInspected { exists: false, is_dir: false }).0,
            CompileEventView::ClifCreated(Ok(())),
        ).1 == (CompileActionView::BuildEngine { clif_dir: Some(path) }),
{
}

/// The backend's diagnostic on a rejected engine comes out word for word.
pub proof fn lemma_backend_message_verbatim(m: CompileModel, message: Seq<char>)
    requires
        m.stage is Engine,
    ensures
        compile_step(m, CompileEventView::EngineBuilt(Err(message))).1 == (
        CompileActionView::Finish { result: Err(CompileErrorView::Config { message }) }),
{
}

/// A `compile` command in progress.
pub struct CompileSession {
    module: Vec<u8>,
    output: Vec<u8>,
    emit_clif: Option<Vec<u8>>,
    stage: CompileStage,
}

impl View for CompileSession {
    type V = CompileModel;

    closed spec fn view(&self) -> CompileModel {
        CompileModel {
            module: self.module@,
            output: self.output@,
            emit_clif: bytes_opt_view(self.emit_clif),
            stage: self.stage,
        }
    }
}

/// A copy of `v`.
fn copy_bytes(v: &Vec<u8>) -> (r: Vec<u8>)
    ensures
        r@ == v@,
{
    v.clone()
}

/// The message of a failed result.
fn unit_error(r: Result<(), String>) -> (m: Option<String>)
    ensures
        match r {
            Ok(()) => m is None,
            Err(e) => m is Some && m->Some_0@ == e@,
        },
{
    match r {
        Ok(()) => None,
        Err(e) => Some(e),
    }
}

impl CompileSession {
    /// Opens a session for `request`, with the first action to perform.
    pub fn start(request: CompileRequest) -> (r: (CompileSession, CompileAction))
        ensures
            (r.0@, r.1@) == compile_start(
                request.module@,
                bytes_opt_view(request.output),
                bytes_opt_view(request.emit_clif),
            ),
            compile_wf(r.0@),
    {
        let CompileRequest { module, output, emit_clif } = request;
        let derived = derived_output(&module);
        match derived {
            None => {
                let path = copy_bytes(&module);
                let s = CompileSession { module, output: Vec::new(), emit_clif, stage: CompileStage::Done };
                let a = CompileAction::Finish {
                    result: Err(CompileError::InvalidModulePath { path }),
                };
                proof {
                    assert(s@.output =~= Seq::<u8>::empty());
                }
                (s, a)
            },
            Some(d) => {
                let out = match output {
                    Some(o) => o,
                    None => d,
                };
                (
                    CompileSession { module, output: out, emit_clif, stage: CompileStage::Config },
                    CompileAction::ResolveConfig,
                )
            },
        }
    }

    /// The step the session waits on.
    pub fn stage(&self) -> (r: CompileStage)
        ensures
            r == self@.stage,
    {
        self.stage
    }

    /// Whether `event` is what the session waits for.
    pub fn accepts(&self, event: &CompileEvent) -> (r: bool)
        ensures
            r == compile_accepts(self@.stage, event@),
    {
        match self.stage {
            CompileStage::Config => matches!(event, CompileEvent::ConfigResolved(_)),
            CompileStage::ClifInspect => matches!(event, CompileEvent::ClifInspected { .. }),
            CompileStage::ClifCreate => matches!(event, CompileEvent::ClifCreated(_)),
            CompileStage::Engine => matches!(event, CompileEvent::EngineBuilt(_)),
            CompileStage::Read => matches!(event, CompileEvent::InputRead(_)),
            CompileStage::Precompile => matches!(event, CompileEvent::Precompiled(_)),
            CompileStage::Write => matches!(event, CompileEvent::OutputWritten(_)),
            CompileStage::Done => false,
        }
    }

    fn build_engine(&mut self) -> (a: CompileAction)
        requires
            old(self).stage == CompileStage::Config || old(self).stage == CompileStage::ClifInspect
                || old(self).stage == CompileStage::ClifCreate,
        ensures
            (final(self)@, a@) == build_engine(old(self)@),
    {
        self.stage = CompileStage::Engine;
        let clif_dir = match &self.emit_clif {
            Some(p) => Some(copy_bytes(p)),
            None => None,
        };
        CompileAction::BuildEngine { clif_dir }
    }

    fn fail(&mut self, e: CompileError) -> (a: CompileAction)
        ensures
            (final(self)@, a@) == fail(old(self)@, e@),
    {
        self.stage = CompileStage::Done;
        CompileAction::Finish { result: Err(e) }
    }

    /// Takes what came of the last action and returns the next one.
    pub fn handle(&mut self, event: CompileEvent) -> (a: CompileAction)
        requires
            compile_wf(old(self)@),
            compile_accepts(old(self)@.stage, event@),
        ensures
            (final(self)@, a@) == compile_step(old(self)@, event@),
            compile_wf(final(self)@),
    {
        match event {
            CompileEvent::ConfigResolved(r) => match unit_error(r) {
                Some(message) => self.fail(CompileError::Config { message }),
                None => match &self.emit_clif {
                    Some(p) => {
                        let path = copy_bytes(p);
                        self.stage = CompileStage::ClifInspect;
                        CompileAction::InspectClifDir { path }
                    },
                    None => self.build_engine(),
                },
            },
            CompileEvent::ClifInspected { exists, is_dir } => {
                let path = match &self.emit_clif {
                    Some(p) => copy_bytes(p),
                    None => Vec::new(),
                };
                if !exists {
                    self.stage = CompileStage::ClifCreate;
                    CompileAction::CreateClifDir { path }
                } else if !is_dir {
                    self.fail(CompileError::ClifNotDirectory { path })
                } else {
                    self.build_engine()
                }
            },
            CompileEvent::ClifCreated(r) => match unit_error(r) {
                Some(message) => {
                    let path = match &self.emit_clif {
                        Some(p) => copy_bytes(p),
                        None => Vec::new(),
                    };
                    self.fail(CompileError::Io { path, message })
                },
                None => self.build_engine(),
            },
            CompileEvent::EngineBuilt(r) => match unit_error(r) {
                Some(message) => self.fail(CompileError::Config { message }),
                None => {
                    self.stage = CompileStage::Read;
                    CompileAction::ReadInput { path: copy_bytes(&self.module) }
                },
            },
            CompileEvent::InputRead(r) => match r {
                Err(message) => {
                    let path = copy_bytes(&self.module);
                    self.fail(CompileError::Io { path, message })
                },
                Ok(bytes) => match to_binary(bytes.as_slice()) {
                    Err(e) => self.fail(e),
                    Ok(wasm) => {
                        let kind = artifact_kind(wasm.as_slice());
                        self.stage = CompileStage::Precompile;
                        CompileAction::Precompile { kind, wasm }
                    },
                },
            },
            CompileEvent::Precompiled(r) => match r {
                Err(message) => self.fail(CompileError::Precompile { message }),
                Ok(artifact) => {
                    self.stage = CompileStage::Write;
                    CompileAction::WriteOutput { path: copy_bytes(&self.output), artifact }
                },
            },
            CompileEvent::OutputWritten(r) => match unit_error(r) {
                Some(message) => {
                    let path = copy_bytes(&self.output);
                    self.fail(CompileError::Io { path, message })
                },
                None => {
                    self.stage = CompileStage::Done;
                    CompileAction::Finish { result: Ok(()) }
                },
            },
        }
    }
}

} // verus!
