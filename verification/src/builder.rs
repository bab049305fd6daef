//! The program-build state machine.
//!
//! Building a program from two source files is a fixed conversation with
//! the outside world: read the vertex source, read the fragment source,
//! create and compile each stage, create and link the program, then release
//! the transient stage objects — on the failure path as well as on the
//! successful one.  The machine here owns every decision in that
//! conversation; a runner performs each requested [`BuildAction`] against
//! the filesystem and the graphics driver and reports a [`BuildEvent`]
//! back.  The machine's whole behaviour is pinned by the spec-level
//! transition function [`step_model`], and the laws at the end of this
//! module are proved against it.

use crate::error::{ErrorModel, ShaderError, StageKind};
use vstd::prelude::*;

verus! {

/// Where a build currently stands.  The phases follow the construction
/// contract in order; `Releasing` covers the cleanup of transient objects
/// on every exit path, and `Finished` is the single terminal phase.
#[derive(Clone, Copy, PartialEq, Eq, Structural, Debug)]
pub enum BuildPhase {
    ReadingVertexSource,
    ReadingFragmentSource,
    CreatingVertexStage,
    CompilingVertexStage,
    CreatingFragmentStage,
    CompilingFragmentStage,
    CreatingProgram,
    Linking,
    Releasing,
    Finished,
}

/// What the runner reports back after performing the requested action.
#[derive(Debug)]
pub enum BuildEvent {
    /// The outcome of reading a source file: its bytes, or `None` when the
    /// path could not be opened or read.
    SourceRead { content: Option<Vec<u8>> },
    /// The driver handed out a new stage object.
    StageCreated { handle: u32 },
    /// The driver answered a compile-status query: the status, and its
    /// diagnostic log.
    CompileFinished { success: bool, log: String },
    /// The driver handed out a new program object.
    ProgramCreated { handle: u32 },
    /// The driver answered the link-status query: the status, and its
    /// diagnostic log.
    LinkFinished { success: bool, log: String },
    /// A requested release completed.
    Released,
}

/// Mathematical model of a [`BuildEvent`].
#[verifier::ext_equal]
pub enum EventModel {
    SourceRead { content: Option<Seq<u8>> },
    StageCreated { handle: u32 },
    CompileFinished { success: bool, log: Seq<char> },
    ProgramCreated { handle: u32 },
    LinkFinished { success: bool, log: Seq<char> },
    Released,
}

impl View for BuildEvent {
    type V = EventModel;

    open spec fn view(&self) -> EventModel {
        match self {
            BuildEvent::SourceRead { content } => EventModel::SourceRead {
                content: match content {
                    Some(bytes) => Some(bytes@),
                    None => None,
                },
            },
            BuildEvent::StageCreated { handle } => EventModel::StageCreated { handle: *handle },
            BuildEvent::CompileFinished { success, log } => EventModel::CompileFinished {
                success: *success,
                log: log@,
            },
            BuildEvent::ProgramCreated { handle } => EventModel::ProgramCreated {
                handle: *handle,
            },
            BuildEvent::LinkFinished { success, log } => EventModel::LinkFinished {
                success: *success,
                log: log@,
            },
            BuildEvent::Released => EventModel::Released,
        }
    }
}

/// What the machine asks the runner to do next.
#[derive(Debug)]
pub enum BuildAction {
    /// Read the whole source file at `path` for the given stage.
    ReadSource { stage: StageKind, path: String },
    /// Ask the driver for a new stage object of the given kind.
    CreateStage { stage: StageKind },
    /// Upload `source` to the stage object as a single fragment, request
    /// compilation, then query the compile status and diagnostic log.
    CompileStage { stage: StageKind, handle: u32, source: Vec<u8> },
    /// Ask the driver for a new program object.
    CreateProgram,
    /// Attach both compiled stages to the program, request linking, then
    /// query the link status and diagnostic log.
    AttachAndLink { program: u32, vertex: u32, fragment: u32 },
    /// Mark the stage object for deletion: it is a build artifact that is
    /// not needed once linking is over.
    ReleaseStage { handle: u32 },
    /// Delete the program object of a failed link.
    ReleaseProgram { handle: u32 },
}

/// Mathematical model of a [`BuildAction`].
#[verifier::ext_equal]
pub enum ActionModel {
    ReadSource { stage: StageKind, path: Seq<char> },
    CreateStage { stage: StageKind },
    CompileStage { stage: StageKind, handle: u32, source: Seq<u8> },
    CreateProgram,
    AttachAndLink { program: u32, vertex: u32, fragment: u32 },
    ReleaseStage { handle: u32 },
    ReleaseProgram { handle: u32 },
}

impl View for BuildAction {
    type V = ActionModel;

    open spec fn view(&self) -> ActionModel {
        match self {
            BuildAction::ReadSource { stage, path } => ActionModel::ReadSource {
                stage: *stage,
                path: path@,
            },
            BuildAction::CreateStage { stage } => ActionModel::CreateStage { stage: *stage },
            BuildAction::CompileStage { stage, handle, source } => ActionModel::CompileStage {
                stage: *stage,
                handle: *handle,
                source: source@,
            },
            BuildAction::CreateProgram => ActionModel::CreateProgram,
            BuildAction::AttachAndLink { program, vertex, fragment } => ActionModel::AttachAndLink {
                program: *program,
                vertex: *vertex,
                fragment: *fragment,
            },
            BuildAction::ReleaseStage { handle } => ActionModel::ReleaseStage { handle: *handle },
            BuildAction::ReleaseProgram { handle } => ActionModel::ReleaseProgram {
                handle: *handle,
            },
        }
    }
}

/// Mathematical model of a [`ProgramBuilder`]: the paths it was started
/// with, the phase, the sources read so far, the handles currently
/// allocated, and the failure recorded so far, if any.
#[verifier::ext_equal]
pub struct BuilderModel {
    pub vertex_path: Seq<char>,
    pub fragment_path: Seq<char>,
    pub phase: BuildPhase,
    pub vertex_source: Option<Seq<u8>>,
    pub fragment_source: Option<Seq<u8>>,
    pub vertex_stage: Option<u32>,
    pub fragment_stage: Option<u32>,
    pub program: Option<u32>,
    pub failure: Option<ErrorModel>,
}

/// The state a build starts in: nothing read, nothing allocated.
pub open spec fn initial_model(vertex_path: Seq<char>, fragment_path: Seq<char>) -> BuilderModel {
    BuilderModel {
        vertex_path: vertex_path,
        fragment_path: fragment_path,
        phase: BuildPhase::ReadingVertexSource,
        vertex_source: None,
        fragment_source: None,
        vertex_stage: None,
        fragment_stage: None,
        program: None,
        failure: None,
    }
}

/// True while something transient still has to be released: a stage
/// object, or — only when the build failed — the program object.
pub open spec fn release_pending(m: BuilderModel) -> bool {
    ||| m.vertex_stage is Some
    ||| m.fragment_stage is Some
    ||| (m.failure is Some && m.program is Some)
}

/// One step of cleanup: drop the vertex stage first, then the fragment
/// stage, then — on the failure path — the program object; once nothing is
/// pending the build is finished.
pub open spec fn release_step(m: BuilderModel) -> BuilderModel {
    let cleared = if m.vertex_stage is Some {
        BuilderModel { vertex_stage: None, ..m }
    } else if m.fragment_stage is Some {
        BuilderModel { fragment_stage: None, ..m }
    } else {
        BuilderModel { program: None, ..m }
    };
    if release_pending(cleared) {
        cleared
    } else {
        BuilderModel { phase: BuildPhase::Finished, ..cleared }
    }
}

/// The transition function of the build: what each runner report does to
/// the state.  An event that does not answer the pending action leaves the
/// state unchanged.
pub open spec fn step_model(m: BuilderModel, e: EventModel) -> BuilderModel {
    match m.phase {
        BuildPhase::ReadingVertexSource => match e {
            EventModel::SourceRead { content } => match content {
                Some(bytes) => BuilderModel {
                    phase: BuildPhase::ReadingFragmentSource,
                    vertex_source: Some(bytes),
                    ..m
                },
                None => BuilderModel {
                    phase: BuildPhase::Finished,
                    failure: Some(
                        ErrorModel::FileRead { stage: StageKind::Vertex, path: m.vertex_path },
                    ),
                    ..m
                },
            },
            _ => m,
        },
        BuildPhase::ReadingFragmentSource => match e {
            EventModel::SourceRead { content } => match content {
                Some(bytes) => BuilderModel {
                    phase: BuildPhase::CreatingVertexStage,
                    fragment_source: Some(bytes),
                    ..m
                },
                None => BuilderModel {
                    phase: BuildPhase::Finished,
                    failure: Some(
                        ErrorModel::FileRead { stage: StageKind::Fragment, path: m.fragment_path },
                    ),
                    ..m
                },
            },
            _ => m,
        },
        BuildPhase::CreatingVertexStage => match e {
            EventModel::StageCreated { handle } => BuilderModel {
                phase: BuildPhase::CompilingVertexStage,
                vertex_stage: Some(handle),
                ..m
            },
            _ => m,
        },
        BuildPhase::CompilingVertexStage => match e {
            EventModel::CompileFinished { success, log } => if success {
                BuilderModel { phase: BuildPhase::CreatingFragmentStage, ..m }
            } else {
                BuilderModel {
                    phase: BuildPhase::Releasing,
                    failure: Some(ErrorModel::Compile { stage: StageKind::Vertex, log: log }),
                    ..m
                }
            },
            _ => m,
        },
        BuildPhase::CreatingFragmentStage => match e {
            EventModel::StageCreated { handle } => BuilderModel {
                phase: BuildPhase::CompilingFragmentStage,
                fragment_stage: Some(handle),
                ..m
            },
            _ => m,
        },
        BuildPhase::CompilingFragmentStage => match e {
            EventModel::CompileFinished { success, log } => if success {
                BuilderModel { phase: BuildPhase::CreatingProgram, ..m }
            } else {
                BuilderModel {
                    phase: BuildPhase::Releasing,
                    failure: Some(ErrorModel::Compile { stage: StageKind::Fragment, log: log }),
                    ..m
                }
            },
            _ => m,
        },
        BuildPhase::CreatingProgram => match e {
            EventModel::ProgramCreated { handle } => BuilderModel {
                phase: BuildPhase::Linking,
                program: Some(handle),
                ..m
            },
            _ => m,
        },
        BuildPhase::Linking => match e {
            EventModel::LinkFinished { success, log } => if success {
                BuilderModel { phase: BuildPhase::Releasing, ..m }
            } else {
                BuilderModel {
                    phase: BuildPhase::Releasing,
                    failure: Some(ErrorModel::Link { log: log }),
                    ..m
                }
            },
            _ => m,
        },
        BuildPhase::Releasing => match e {
            EventModel::Released => release_step(m),
            _ => m,
        },
        BuildPhase::Finished => m,
    }
}

/// Which fields each phase pins down.  Every phase states exactly which
/// sources have been read and which handles are live; in particular a
/// finished build holds no stage object, and holds a program object exactly
/// when no failure was recorded.
pub open spec fn wf_model(m: BuilderModel) -> bool {
    match m.phase {
        BuildPhase::ReadingVertexSource => {
            &&& m.vertex_source is None
            &&& m.fragment_source is None
            &&& m.vertex_stage is None
            &&& m.fragment_stage is None
            &&& m.program is None
            &&& m.failure is None
        },
        BuildPhase::ReadingFragmentSource => {
            &&& m.vertex_source is Some
            &&& m.fragment_source is None
            &&& m.vertex_stage is None
            &&& m.fragment_stage is None
            &&& m.program is None
            &&& m.failure is None
        },
        BuildPhase::CreatingVertexStage => {
            &&& m.vertex_source is Some
            &&& m.fragment_source is Some
            &&& m.vertex_stage is None
            &&& m.fragment_stage is None
            &&& m.program is None
            &&& m.failure is None
        },
        BuildPhase::CompilingVertexStage => {
            &&& m.vertex_source is Some
            &&& m.fragment_source is Some
            &&& m.vertex_stage is Some
            &&& m.fragment_stage is None
            &&& m.program is None
            &&& m.failure is None
        },
        BuildPhase::CreatingFragmentStage => {
            &&& m.vertex_source is Some
            &&& m.fragment_source is Some
            &&& m.vertex_stage is Some
            &&& m.fragment_stage is None
            &&& m.program is None
            &&& m.failure is None
        },
        BuildPhase::CompilingFragmentStage => {
            &&& m.vertex_source is Some
            &&& m.fragment_source is Some
            &&& m.vertex_stage is Some
            &&& m.fragment_stage is Some
            &&& m.program is None
            &&& m.failure is None
        },
        BuildPhase::CreatingProgram => {
            &&& m.vertex_source is Some
            &&& m.fragment_source is Some
            &&& m.vertex_stage is Some
            &&& m.fragment_stage is Some
            &&& m.program is None
            &&& m.failure is None
        },
        BuildPhase::Linking => {
            &&& m.vertex_source is Some
            &&& m.fragment_source is Some
            &&& m.vertex_stage is Some
            &&& m.fragment_stage is Some
            &&& m.program is Some
            &&& m.failure is None
        },
        BuildPhase::Releasing => {
            &&& release_pending(m)
            &&& (m.failure is None ==> m.program is Some)
        },
        BuildPhase::Finished => {
            &&& m.vertex_stage is None
            &&& m.fragment_stage is None
            &&& (m.failure is None <==> m.program is Some)
        },
    }
}

/// What the machine asks for in each phase; `None` once the build is
/// finished.
pub open spec fn next_action_model(m: BuilderModel) -> Option<ActionModel> {
    match m.phase {
        BuildPhase::ReadingVertexSource => Some(
            ActionModel::ReadSource { stage: StageKind::Vertex, path: m.vertex_path },
        ),
        BuildPhase::ReadingFragmentSource => Some(
            ActionModel::ReadSource { stage: StageKind::Fragment, path: m.fragment_path },
        ),
        BuildPhase::CreatingVertexStage => Some(
            ActionModel::CreateStage { stage: StageKind::Vertex },
        ),
        BuildPhase::CompilingVertexStage => Some(
            ActionModel::CompileStage {
                stage: StageKind::Vertex,
                handle: m.vertex_stage.unwrap(),
                source: m.vertex_source.unwrap(),
            },
        ),
        BuildPhase::CreatingFragmentStage => Some(
            ActionModel::CreateStage { stage: StageKind::Fragment },
        ),
        BuildPhase::CompilingFragmentStage => Some(
            ActionModel::CompileStage {
                stage: StageKind::Fragment,
                handle: m.fragment_stage.unwrap(),
                source: m.fragment_source.unwrap(),
            },
        ),
        BuildPhase::CreatingProgram => Some(ActionModel::CreateProgram),
        BuildPhase::Linking => Some(
            ActionModel::AttachAndLink {
                program: m.program.unwrap(),
                vertex: m.vertex_stage.unwrap(),
                fragment: m.fragment_stage.unwrap(),
            },
        ),
        BuildPhase::Releasing => if m.vertex_stage is Some {
            Some(ActionModel::ReleaseStage { handle: m.vertex_stage.unwrap() })
        } else if m.fragment_stage is Some {
            Some(ActionModel::ReleaseStage { handle: m.fragment_stage.unwrap() })
        } else {
            Some(ActionModel::ReleaseProgram { handle: m.program.unwrap() })
        },
        BuildPhase::Finished => None,
    }
}

/// Decides a stage's fate from the driver's compile status: success passes,
/// failure becomes a `CompileError` naming the stage and carrying the
/// driver's log verbatim.
pub fn check_shader_errors(stage: StageKind, success: bool, log: String) -> (r: Result<
    (),
    ShaderError,
>)
    ensures
        success <==> r is Ok,
        !success ==> (r matches Err(e) && e@ == (ErrorModel::Compile { stage: stage, log: log@ })),
{
    if success {
        Ok(())
    } else {
        Err(ShaderError::CompileError { stage: stage, log: log })
    }
}

/// Byte-for-byte copy of a source buffer.
fn copy_bytes(v: &Vec<u8>) -> (r: Vec<u8>)
    ensures
        r@ == v@,
{
    let mut r: Vec<u8> = Vec::new();
    let mut i: usize = 0;
    while i < v.len()
        invariant
            i <= v.len(),
            r@ == v@.subrange(0, i as int),
        decreases v.len() - i,
    {
        r.push(v[i]);
        assert(r@ =~= v@.subrange(0, i + 1 as int));
        i = i + 1;
    }
    assert(r@ =~= v@);
    r
}

/// The build state machine.  Owns the two paths, the sources once read,
/// and the ledger of live driver objects; every transition is pinned by
/// [`step_model`].
pub struct ProgramBuilder {
    vertex_path: String,
    fragment_path: String,
    phase: BuildPhase,
    vertex_source: Option<Vec<u8>>,
    fragment_source: Option<Vec<u8>>,
    vertex_stage: Option<u32>,
    fragment_stage: Option<u32>,
    program: Option<u32>,
    failure: Option<ShaderError>,
}

impl View for ProgramBuilder {
    type V = BuilderModel;

    closed spec fn view(&self) -> BuilderModel {
        BuilderModel {
            vertex_path: self.vertex_path@,
            fragment_path: self.fragment_path@,
            phase: self.phase,
            vertex_source: match self.vertex_source {
                Some(bytes) => Some(bytes@),
                None => None,
            },
            fragment_source: match self.fragment_source {
                Some(bytes) => Some(bytes@),
                None => None,
            },
            vertex_stage: self.vertex_stage,
            fragment_stage: self.fragment_stage,
            program: self.program,
            failure: match self.failure {
                Some(e) => Some(e@),
                None => None,
            },
        }
    }
}

impl ProgramBuilder {
    /// The machine is only handed around in well-formed states.
    pub open spec fn wf(&self) -> bool {
        wf_model(self@)
    }

    /// Starts a build of a program from the two source paths: the vertex
    /// stage's source first, the fragment stage's second.
    pub fn new(vertex_path: String, fragment_path: String) -> (b: Self)
        ensures
            b.wf(),
            b@ == initial_model(vertex_path@, fragment_path@),
    {
        ProgramBuilder {
            vertex_path: vertex_path,
            fragment_path: fragment_path,
            phase: BuildPhase::ReadingVertexSource,
            vertex_source: None,
            fragment_source: None,
            vertex_stage: None,
            fragment_stage: None,
            program: None,
            failure: None,
        }
    }

    /// True once the build has run to completion, on either path.
    pub fn is_finished(&self) -> (b: bool)
        ensures
            b == (self@.phase is Finished),
    {
        self.phase == BuildPhase::Finished
    }

    /// The action the runner must perform next; `None` once the build is
    /// finished and [`Self::finish`] may be called.
    pub fn next_action(&self) -> (a: Option<BuildAction>)
        requires
            self.wf(),
        ensures
            match a {
                Some(act) => Some(act@) == next_action_model(self@),
                None => self@.phase is Finished,
            },
    {
        match self.phase {
            BuildPhase::ReadingVertexSource => Some(
                BuildAction::ReadSource {
                    stage: StageKind::Vertex,
                    path: self.vertex_path.clone(),
                },
            ),
            BuildPhase::ReadingFragmentSource => Some(
                BuildAction::ReadSource {
                    stage: StageKind::Fragment,
                    path: self.fragment_path.clone(),
                },
            ),
            BuildPhase::CreatingVertexStage => Some(
                BuildAction::CreateStage { stage: StageKind::Vertex },
            ),
            BuildPhase::CompilingVertexStage => {
                let source = match &self.vertex_source {
                    Some(bytes) => copy_bytes(bytes),
                    None => {
                        assert(false);
                        Vec::new()
                    },
                };
                Some(
                    BuildAction::CompileStage {
                        stage: StageKind::Vertex,
                        handle: self.vertex_stage.unwrap(),
                        source: source,
                    },
                )
            },
            BuildPhase::CreatingFragmentStage => Some(
                BuildAction::CreateStage { stage: StageKind::Fragment },
            ),
            BuildPhase::CompilingFragmentStage => {
                let source = match &self.fragment_source {
                    Some(bytes) => copy_bytes(bytes),
                    None => {
                        assert(false);
                        Vec::new()
                    },
                };
                Some(
                    BuildAction::CompileStage {
                        stage: StageKind::Fragment,
                        handle: self.fragment_stage.unwrap(),
                        source: source,
                    },
                )
            },
            BuildPhase::CreatingProgram => Some(BuildAction::CreateProgram),
            BuildPhase::Linking => Some(
                BuildAction::AttachAndLink {
                    program: self.program.unwrap(),
                    vertex: self.vertex_stage.unwrap(),
                    fragment: self.fragment_stage.unwrap(),
                },
            ),
            BuildPhase::Releasing => {
                if self.vertex_stage.is_some() {
                    Some(BuildAction::ReleaseStage { handle: self.vertex_stage.unwrap() })
                } else if self.fragment_stage.is_some() {
                    Some(BuildAction::ReleaseStage { handle: self.fragment_stage.unwrap() })
                } else {
                    Some(BuildAction::ReleaseProgram { handle: self.program.unwrap() })
                }
            },
            BuildPhase::Finished => None,
        }
    }

    /// Feeds the runner's report into the machine.  A report that does not
    /// answer the pending action leaves the state unchanged.
    pub fn step(&mut self, event: BuildEvent)
        requires
            old(self).wf(),
        ensures
            final(self).wf(),
            final(self)@ == step_model(old(self)@, event@),
    {
        match event {
            BuildEvent::SourceRead { content } => match self.phase {
                BuildPhase::ReadingVertexSource => match content {
                    Some(bytes) => {
                        self.vertex_source = Some(bytes);
                        self.phase = BuildPhase::ReadingFragmentSource;
                    },
                    None => {
                        self.failure = Some(
                            ShaderError::FileReadError {
                                stage: StageKind::Vertex,
                                path: self.vertex_path.clone(),
                            },
                        );
                        self.phase = BuildPhase::Finished;
                    },
                },
                BuildPhase::ReadingFragmentSource => match content {
                    Some(bytes) => {
                        self.fragment_source = Some(bytes);
                        self.phase = BuildPhase::CreatingVertexStage;
                    },
                    None => {
                        self.failure = Some(
                            ShaderError::FileReadError {
                                stage: StageKind::Fragment,
                                path: self.fragment_path.clone(),
                            },
                        );
                        self.phase = BuildPhase::Finished;
                    },
                },
                _ => {},
            },
            BuildEvent::StageCreated { handle } => match self.phase {
                BuildPhase::CreatingVertexStage => {
                    self.vertex_stage = Some(handle);
                    self.phase = BuildPhase::CompilingVertexStage;
                },
                BuildPhase::CreatingFragmentStage => {
                    self.fragment_stage = Some(handle);
                    self.phase = BuildPhase::CompilingFragmentStage;
                },
                _ => {},
            },
            BuildEvent::CompileFinished { success, log } => match self.phase {
                BuildPhase::CompilingVertexStage => match check_shader_errors(
                    StageKind::Vertex,
                    success,
                    log,
                ) {
                    Ok(()) => {
                        self.phase = BuildPhase::CreatingFragmentStage;
                    },
                    Err(e) => {
                        self.failure = Some(e);
                        self.phase = BuildPhase::Releasing;
                    },
                },
                BuildPhase::CompilingFragmentStage => match check_shader_errors(
                    StageKind::Fragment,
                    success,
                    log,
                ) {
                    Ok(()) => {
                        self.phase = BuildPhase::CreatingProgram;
                    },
                    Err(e) => {
                        self.failure = Some(e);
                        self.phase = BuildPhase::Releasing;
                    },
                },
                _ => {},
            },
            BuildEvent::ProgramCreated { handle } => match self.phase {
                BuildPhase::CreatingProgram => {
                    self.program = Some(handle);
                    self.phase = BuildPhase::Linking;
                },
                _ => {},
            },
            BuildEvent::LinkFinished { success, log } => match self.phase {
                BuildPhase::Linking => {
                    if success {
                        self.phase = BuildPhase::Releasing;
                    } else {
                        self.failure = Some(ShaderError::LinkError { log: log });
                        self.phase = BuildPhase::Releasing;
                    }
                },
                _ => {},
            },
            BuildEvent::Released => match self.phase {
                BuildPhase::Releasing => {
                    if self.vertex_stage.is_some() {
                        self.vertex_stage = None;
                    } else if self.fragment_stage.is_some() {
                        self.fragment_stage = None;
                    } else {
                        self.program = None;
                    }
                    if !(self.vertex_stage.is_some() || self.fragment_stage.is_some() || (
                    self.failure.is_some() && self.program.is_some())) {
                        self.phase = BuildPhase::Finished;
                    }
                },
                _ => {},
            },
        }
    }

    /// The outcome of a finished build: the linked program's handle, or the
    /// failure recorded on the way.  Consumes the machine.
    pub fn finish(self) -> (r: Result<u32, ShaderError>)
        requires
            self.wf(),
            self@.phase is Finished,
        ensures
            r is Ok <==> self@.failure is None,
            r matches Ok(handle) ==> self@.program == Some(handle),
            r matches Err(e) ==> self@.failure == Some(e@),
    {
        match self.failure {
            Some(e) => Err(e),
            None => Ok(self.program.unwrap()),
        }
    }
}

/// Stepping preserves well-formedness: from a well-formed state every
/// event leads to a well-formed state.  In particular, every finished
/// state has both transient stage objects released, and holds a program
/// object exactly when the build succeeded.
pub proof fn lemma_step_preserves_wf(m: BuilderModel, e: EventModel)
    requires
        wf_model(m),
    ensures
        wf_model(step_model(m, e)),
{
}

/// A finished build leaks nothing: no stage object is left allocated, and
/// a program object is held exactly when the build succeeded.
pub proof fn lemma_finished_state_is_clean(m: BuilderModel)
    requires
        wf_model(m),
        m.phase is Finished,
    ensures
        m.vertex_stage is None,
        m.fragment_stage is None,
        m.failure is Some <==> m.program is None,
{
}

/// A build whose file reads, compiles and link all succeed finishes with
/// the linked program's handle, no failure, and both transient stage
/// objects released.
pub proof fn lemma_successful_build(
    vertex_path: Seq<char>,
    fragment_path: Seq<char>,
    vertex_src: Seq<u8>,
    fragment_src: Seq<u8>,
    vertex_stage: u32,
    fragment_stage: u32,
    program: u32,
    vertex_log: Seq<char>,
    fragment_log: Seq<char>,
    link_log: Seq<char>,
)
    ensures
        ({
            let m0 = initial_model(vertex_path, fragment_path);
            let m1 = step_model(m0, (EventModel::SourceRead { content: Some(vertex_src) }));
            let m2 = step_model(m1, (EventModel::SourceRead { content: Some(fragment_src) }));
            let m3 = step_model(m2, (EventModel::StageCreated { handle: vertex_stage }));
            let m4 = step_model(
                m3,
                (EventModel::CompileFinished { success: true, log: vertex_log }),
            );
            let m5 = step_model(m4, (EventModel::StageCreated { handle: fragment_stage }));
            let m6 = step_model(
                m5,
                (EventModel::CompileFinished { success: true, log: fragment_log }),
            );
            let m7 = step_model(m6, (EventModel::ProgramCreated { handle: program }));
            let m8 = step_model(m7, (EventModel::LinkFinished { success: true, log: link_log }));
            let m9 = step_model(m8, EventModel::Released);
            let m10 = step_model(m9, EventModel::Released);
            &&& m10.phase is Finished
            &&& m10.failure is None
            &&& m10.program == Some(program)
            &&& m10.vertex_stage is None
            &&& m10.fragment_stage is None
            &&& m10.vertex_source == Some(vertex_src)
            &&& m10.fragment_source == Some(fragment_src)
        }),
{
}

/// A build whose vertex source cannot be read fails at once with a
/// `FileReadError` naming that exact path, before any stage or program
/// object is requested — so none is left allocated.
pub proof fn lemma_unreadable_vertex_source(vertex_path: Seq<char>, fragment_path: Seq<char>)
    ensures
        ({
            let m = step_model(
                initial_model(vertex_path, fragment_path),
                (EventModel::SourceRead { content: None }),
            );
            &&& m.phase is Finished
            &&& m.failure == Some(
                (ErrorModel::FileRead { stage: StageKind::Vertex, path: vertex_path }),
            )
            &&& m.vertex_stage is None
            &&& m.fragment_stage is None
            &&& m.program is None
        }),
{
}

/// A build whose fragment source cannot be read fails with a
/// `FileReadError` naming that exact path, with nothing left allocated.
pub proof fn lemma_unreadable_fragment_source(
    vertex_path: Seq<char>,
    fragment_path: Seq<char>,
    vertex_src: Seq<u8>,
)
    ensures
        ({
            let m0 = initial_model(vertex_path, fragment_path);
            let m1 = step_model(m0, (EventModel::SourceRead { content: Some(vertex_src) }));
            let m2 = step_model(m1, (EventModel::SourceRead { content: None }));
            &&& m2.phase is Finished
            &&& m2.failure == Some(
                (ErrorModel::FileRead { stage: StageKind::Fragment, path: fragment_path }),
            )
            &&& m2.vertex_stage is None
            &&& m2.fragment_stage is None
            &&& m2.program is None
        }),
{
}

/// A vertex stage that fails to compile ends the build with a
/// `CompileError` naming the vertex stage and carrying the driver's log
/// verbatim; the one allocated stage object is released first.
pub proof fn lemma_vertex_compile_failure(
    vertex_path: Seq<char>,
    fragment_path: Seq<char>,
    vertex_src: Seq<u8>,
    fragment_src: Seq<u8>,
    vertex_stage: u32,
    log: Seq<char>,
)
    ensures
        ({
            let m0 = initial_model(vertex_path, fragment_path);
            let m1 = step_model(m0, (EventModel::SourceRead { content: Some(vertex_src) }));
            let m2 = step_model(m1, (EventModel::SourceRead { content: Some(fragment_src) }));
            let m3 = step_model(m2, (EventModel::StageCreated { handle: vertex_stage }));
            let m4 = step_model(m3, (EventModel::CompileFinished { success: false, log: log }));
            let m5 = step_model(m4, EventModel::Released);
            &&& m5.phase is Finished
            &&& m5.failure == Some((ErrorModel::Compile { stage: StageKind::Vertex, log: log }))
            &&& m5.vertex_stage is None
            &&& m5.fragment_stage is None
            &&& m5.program is None
        }),
{
}

/// A fragment stage that fails to compile ends the build with a
/// `CompileError` naming the fragment stage and carrying the driver's log
/// verbatim; both allocated stage objects are released first.
pub proof fn lemma_fragment_compile_failure(
    vertex_path: Seq<char>,
    fragment_path: Seq<char>,
    vertex_src: Seq<u8>,
    fragment_src: Seq<u8>,
    vertex_stage: u32,
    fragment_stage: u32,
    vertex_log: Seq<char>,
    log: Seq<char>,
)
    ensures
        ({
            let m0 = initial_model(vertex_path, fragment_path);
            let m1 = step_model(m0, (EventModel::SourceRead { content: Some(vertex_src) }));
            let m2 = step_model(m1, (EventModel::SourceRead { content: Some(fragment_src) }));
            let m3 = step_model(m2, (EventModel::StageCreated { handle: vertex_stage }));
            let m4 = step_model(
                m3,
                (EventModel::CompileFinished { success: true, log: vertex_log }),
            );
            let m5 = step_model(m4, (EventModel::StageCreated { handle: fragment_stage }));
            let m6 = step_model(m5, (EventModel::CompileFinished { success: false, log: log }));
            let m7 = step_model(m6, EventModel::Released);
            let m8 = step_model(m7, EventModel::Released);
            &&& m8.phase is Finished
            &&& m8.failure == Some((ErrorModel::Compile { stage: StageKind::Fragment, log: log }))
            &&& m8.vertex_stage is None
            &&& m8.fragment_stage is None
            &&& m8.program is None
        }),
{
}

/// Two individually compiled stages that fail to link end the build with a
/// `LinkError` carrying the driver's log verbatim; both stage objects and
/// the failed program object are all released.
pub proof fn lemma_link_failure(
    vertex_path: Seq<char>,
    fragment_path: Seq<char>,
    vertex_src: Seq<u8>,
    fragment_src: Seq<u8>,
    vertex_stage: u32,
    fragment_stage: u32,
    program: u32,
    vertex_log: Seq<char>,
    fragment_log: Seq<char>,
    log: Seq<char>,
)
    ensures
        ({
            let m0 = initial_model(vertex_path, fragment_path);
            let m1 = step_model(m0, (EventModel::SourceRead { content: Some(vertex_src) }));
            let m2 = step_model(m1, (EventModel::SourceRead { content: Some(fragment_src) }));
            let m3 = step_model(m2, (EventModel::StageCreated { handle: vertex_stage }));
            let m4 = step_model(
                m3,
                (EventModel::CompileFinished { success: true, log: vertex_log }),
            );
            let m5 = step_model(m4, (EventModel::StageCreated { handle: fragment_stage }));
            let m6 = step_model(
                m5,
                (EventModel::CompileFinished { success: true, log: fragment_log }),
            );
            let m7 = step_model(m6, (EventModel::ProgramCreated { handle: program }));
            let m8 = step_model(m7, (EventModel::LinkFinished { success: false, log: log }));
            let m9 = step_model(m8, EventModel::Released);
            let m10 = step_model(m9, EventModel::Released);
            let m11 = step_model(m10, EventModel::Released);
            &&& m11.phase is Finished
            &&& m11.failure == Some((ErrorModel::Link { log: log }))
            &&& m11.vertex_stage is None
            &&& m11.fragment_stage is None
            &&& m11.program is None
        }),
{
}

} // verus!
