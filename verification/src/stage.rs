//! Compiling one shader source into a stage.
//!
//! [`compile`] starts a [`Compilation`]; each [`Compilation::step`] takes the
//! device's reply to the command last issued and either issues the next one or
//! finishes with a [`ShaderStage`] or a [`CompileError`].

use vstd::prelude::*;
use crate::device::{Command, CommandView, Ledger, Reply, ReplyView, StageKind};

verus! {

/// A compiled shader stage, sole owner of its native shader object.
///
/// A stage is neither `Clone` nor `Copy`: it is handed to the linker, or
/// released, once.
#[derive(Debug, PartialEq, Eq)]
pub struct ShaderStage {
    kind: StageKind,
    handle: u32,
}

/// What a [`ShaderStage`] is, as a mathematical value.
pub struct StageView {
    pub kind: StageKind,
    pub handle: u32,
}

impl View for ShaderStage {
    type V = StageView;

    closed spec fn view(&self) -> StageView {
        StageView { kind: self.kind, handle: self.handle }
    }
}

impl ShaderStage {
    #[verifier::type_invariant]
    spec fn inv(self) -> bool {
        self.handle != 0
    }

    /// The pipeline step this stage was compiled for.
    pub fn kind(&self) -> (kind: StageKind)
        ensures
            kind == self@.kind,
    {
        self.kind
    }

    /// The native shader object, never null.
    pub fn handle(&self) -> (handle: u32)
        ensures
            handle == self@.handle,
            handle != 0,
    {
        proof {
            use_type_invariant(self);
        }
        self.handle
    }

    /// Gives the stage up without linking it: the command that releases its
    /// native object.
    pub fn release(self) -> (command: Command)
        ensures
            command@ == (CommandView::DeleteShader { shader: self@.handle }),
    {
        Command::DeleteShader { shader: self.handle }
    }
}

/// The device refused to compile a source.
#[derive(Clone, Debug, PartialEq, Eq)]
pub struct CompileError {
    /// The stage that was being compiled.
    pub stage_kind: StageKind,
    /// The compiler's log, as the device gave it.
    pub log: String,
}

/// What a [`CompileError`] is, as a mathematical value.
pub struct CompileErrorView {
    pub stage_kind: StageKind,
    pub log: Seq<char>,
}

impl View for CompileError {
    type V = CompileErrorView;

    open spec fn view(&self) -> CompileErrorView {
        CompileErrorView { stage_kind: self.stage_kind, log: self.log@ }
    }
}

/// Where a compilation stands: the command whose reply it is waiting for.
#[derive(Clone, Copy, Debug, PartialEq, Eq, Structural)]
pub enum CompilePhase {
    /// Asked for a shader object.
    Creating,
    /// Submitted the source.
    Submitting,
    /// Asked the device to compile.
    Compiling,
    /// Asked whether compilation succeeded.
    CheckingStatus,
    /// Asked for the length of the log.
    MeasuringLog,
    /// Asked for the log.
    FetchingLog,
    /// Asked the device to release the shader object that failed to compile.
    Releasing,
}

/// A compilation in progress.
#[derive(Debug)]
pub struct Compilation {
    kind: StageKind,
    source: String,
    shader: u32,
    log: String,
    phase: CompilePhase,
}

/// What a [`Compilation`] is, as a mathematical value.
pub struct CompilationView {
    /// The stage being compiled.
    pub kind: StageKind,
    /// The source, until it has been submitted; empty afterwards.
    pub source: Seq<char>,
    /// The shader object, once the device has allocated it.
    pub shader: u32,
    /// The compiler's log, once it has been fetched.
    pub log: Seq<char>,
    pub phase: CompilePhase,
}

/// What comes after a reply: the next command, or the outcome.
#[derive(Debug)]
pub enum CompileStep {
    /// Perform the command and feed its reply to the compilation.
    Issue(Compilation, Command),
    /// The compilation is over.
    Finished(Result<ShaderStage, CompileError>),
}

/// What a [`CompileStep`] is, as a mathematical value.
pub enum CompileStepView {
    Issue(CompilationView, CommandView),
    Finished(Result<StageView, CompileErrorView>),
}

impl CompilationView {
    /// Past the first reply, a compilation holds a shader object.
    pub open spec fn wf(self) -> bool {
        self.phase != CompilePhase::Creating ==> self.shader != 0
    }

    /// The step that `reply`, the answer to the command last issued, leads to.
    pub open spec fn next(self, reply: ReplyView) -> CompileStepView {
        let shader = self.shader;
        match self.phase {
            CompilePhase::Creating => if reply.handle() == 0 {
                CompileStepView::Finished(
                    Err(CompileErrorView { stage_kind: self.kind, log: Seq::empty() }),
                )
            } else {
                CompileStepView::Issue(
                    CompilationView {
                        shader: reply.handle(),
                        source: Seq::empty(),
                        phase: CompilePhase::Submitting,
                        ..self
                    },
                    CommandView::ShaderSource { shader: reply.handle(), source: self.source },
                )
            },
            CompilePhase::Submitting => CompileStepView::Issue(
                CompilationView { phase: CompilePhase::Compiling, ..self },
                CommandView::CompileShader { shader },
            ),
            CompilePhase::Compiling => CompileStepView::Issue(
                CompilationView { phase: CompilePhase::CheckingStatus, ..self },
                CommandView::QueryCompileStatus { shader },
            ),
            CompilePhase::CheckingStatus => if reply.succeeded() {
                CompileStepView::Finished(Ok(StageView { kind: self.kind, handle: shader }))
            } else {
                CompileStepView::Issue(
                    CompilationView { phase: CompilePhase::MeasuringLog, ..self },
                    CommandView::QueryShaderLogLength { shader },
                )
            },
            CompilePhase::MeasuringLog => CompileStepView::Issue(
                CompilationView { phase: CompilePhase::FetchingLog, ..self },
                CommandView::FetchShaderLog { shader, capacity: reply.capacity() },
            ),
            CompilePhase::FetchingLog => CompileStepView::Issue(
                CompilationView { log: reply.text(), phase: CompilePhase::Releasing, ..self },
                CommandView::DeleteShader { shader },
            ),
            CompilePhase::Releasing => CompileStepView::Finished(
                Err(CompileErrorView { stage_kind: self.kind, log: self.log }),
            ),
        }
    }
}

impl View for Compilation {
    type V = CompilationView;

    closed spec fn view(&self) -> CompilationView {
        CompilationView {
            kind: self.kind,
            source: self.source@,
            shader: self.shader,
            log: self.log@,
            phase: self.phase,
        }
    }
}

impl View for CompileStep {
    type V = CompileStepView;

    open spec fn view(&self) -> CompileStepView {
        match *self {
            CompileStep::Issue(job, command) => CompileStepView::Issue(job@, command@),
            CompileStep::Finished(Ok(stage)) => CompileStepView::Finished(Ok(stage@)),
            CompileStep::Finished(Err(error)) => CompileStepView::Finished(Err(error@)),
        }
    }
}

/// The first step of compiling `source` as a stage of the given kind.
pub open spec fn compile_start(source: Seq<char>, kind: StageKind) -> CompileStepView {
    CompileStepView::Issue(
        CompilationView {
            kind,
            source,
            shader: 0,
            log: Seq::empty(),
            phase: CompilePhase::Creating,
        },
        CommandView::CreateShader { kind },
    )
}

/// Starts compiling `source` as a stage of the given kind. The source is
/// passed to the device as it is.
pub fn compile(source: String, kind: StageKind) -> (first: CompileStep)
    ensures
        first@ == compile_start(source@, kind),
{
    CompileStep::Issue(
        Compilation { kind, source, shader: 0, log: String::new(), phase: CompilePhase::Creating },
        Command::CreateShader { kind },
    )
}

impl Compilation {
    #[verifier::type_invariant]
    spec fn inv(self) -> bool {
        self@.wf()
    }

    /// Takes the device's reply to the command last issued.
    ///
    /// A null shader object ends the compilation with an empty log. A shader
    /// that failed to compile is released before the error is returned, with
    /// the log the device gave.
    pub fn step(self, reply: Reply) -> (next: CompileStep)
        ensures
            next@ == self@.next(reply@),
    {
        proof {
            use_type_invariant(&self);
        }
        let Compilation { kind, source, shader, log, phase } = self;
        match phase {
            CompilePhase::Creating => {
                let created = reply.handle();
                if created == 0 {
                    CompileStep::Finished(Err(CompileError { stage_kind: kind, log: String::new() }))
                } else {
                    CompileStep::Issue(
                        Compilation {
                            kind,
                            source: String::new(),
                            shader: created,
                            log,
                            phase: CompilePhase::Submitting,
                        },
                        Command::ShaderSource { shader: created, source },
                    )
                }
            },
            CompilePhase::Submitting => CompileStep::Issue(
                Compilation { kind, source, shader, log, phase: CompilePhase::Compiling },
                Command::CompileShader { shader },
            ),
            CompilePhase::Compiling => CompileStep::Issue(
                Compilation { kind, source, shader, log, phase: CompilePhase::CheckingStatus },
                Command::QueryCompileStatus { shader },
            ),
            CompilePhase::CheckingStatus => {
                if reply.succeeded() {
                    CompileStep::Finished(Ok(ShaderStage { kind, handle: shader }))
                } else {
                    CompileStep::Issue(
                        Compilation { kind, source, shader, log, phase: CompilePhase::MeasuringLog },
                        Command::QueryShaderLogLength { shader },
                    )
                }
            },
            CompilePhase::MeasuringLog => CompileStep::Issue(
                Compilation { kind, source, shader, log, phase: CompilePhase::FetchingLog },
                Command::FetchShaderLog { shader, capacity: reply.capacity() },
            ),
            CompilePhase::FetchingLog => CompileStep::Issue(
                Compilation {
                    kind,
                    source,
                    shader,
                    log: reply.into_text(),
                    phase: CompilePhase::Releasing,
                },
                Command::DeleteShader { shader },
            ),
            CompilePhase::Releasing => CompileStep::Finished(
                Err(CompileError { stage_kind: kind, log }),
            ),
        }
    }
}

/// Where a run of exchanges with the device has led.
pub struct CompileRun {
    /// The step reached.
    pub end: CompileStepView,
    /// The device's resources at that point.
    pub ledger: Ledger,
}

/// Runs a compilation against the replies `replies[from..]`: each command
/// issued is performed on the ledger and answered by the next reply, until the
/// compilation finishes or the replies run out.
pub open spec fn compile_run(
    step: CompileStepView,
    replies: Seq<ReplyView>,
    from: int,
    ledger: Ledger,
) -> CompileRun
    decreases replies.len() - from,
{
    match step {
        CompileStepView::Issue(job, command) => if 0 <= from < replies.len() {
            compile_run(
                job.next(replies[from]),
                replies,
                from + 1,
                ledger.after(command, replies[from]),
            )
        } else {
            CompileRun { end: step, ledger }
        },
        CompileStepView::Finished(_) => CompileRun { end: step, ledger },
    }
}

/// The whole run of compiling `source` on a device that answers with
/// `replies`.
pub open spec fn compile_outcome(
    source: Seq<char>,
    kind: StageKind,
    replies: Seq<ReplyView>,
    ledger: Ledger,
) -> CompileRun {
    compile_run(compile_start(source, kind), replies, 0, ledger)
}

/// A step leaves a compilation well-formed, and a stage it ends in owns a
/// shader object that is not null.
pub proof fn compile_step_keeps_wf(job: CompilationView, reply: ReplyView)
    requires
        job.wf(),
    ensures
        job.next(reply) matches CompileStepView::Issue(after, _) ==> after.wf(),
        job.next(reply) matches CompileStepView::Finished(Ok(stage)) ==> stage.handle != 0
            && stage.kind == job.kind,
        job.next(reply) matches CompileStepView::Finished(Err(error)) ==> error.stage_kind
            == job.kind,
{
}

/// The number of exchanges a compilation takes: one if the device has no
/// shader object to give; four, create, submit, compile and query, if the
/// device accepts the source; three more for a source it rejects, for the
/// log's length, the log and the release of the shader object.
pub open spec fn compile_exchanges(replies: Seq<ReplyView>) -> int {
    if replies[0].handle() == 0 {
        1
    } else if replies[3].succeeded() {
        4
    } else {
        7
    }
}

/// The outcome that the device's replies decide: a stage of the requested
/// kind that owns the shader object the device allocated, if it gave one and
/// reported that the compilation succeeded; else an error with the stage kind
/// and the log the device gave, empty if there was no shader object to ask.
pub open spec fn compile_verdict(kind: StageKind, replies: Seq<ReplyView>) -> Result<
    StageView,
    CompileErrorView,
> {
    if replies[0].handle() == 0 {
        Err(CompileErrorView { stage_kind: kind, log: Seq::empty() })
    } else if replies[3].succeeded() {
        Ok(StageView { kind, handle: replies[0].handle() })
    } else {
        Err(CompileErrorView { stage_kind: kind, log: replies[5].text() })
    }
}

/// The commands of a compilation, in order. The log is fetched into a buffer
/// of exactly the length the device reported for it.
pub open spec fn compile_script(
    source: Seq<char>,
    kind: StageKind,
    replies: Seq<ReplyView>,
) -> Seq<CommandView> {
    let shader = replies[0].handle();
    let create = seq![CommandView::CreateShader { kind }];
    let build = seq![
        CommandView::ShaderSource { shader, source },
        CommandView::CompileShader { shader },
        CommandView::QueryCompileStatus { shader },
    ];
    let report = seq![
        CommandView::QueryShaderLogLength { shader },
        CommandView::FetchShaderLog { shader, capacity: replies[4].capacity() },
        CommandView::DeleteShader { shader },
    ];
    if shader == 0 {
        create
    } else if replies[3].succeeded() {
        create + build
    } else {
        create + build + report
    }
}

/// The device's books after a compilation: it has performed the script, and
/// it holds one shader object more if the compilation succeeded, and what it
/// held before if not.
pub open spec fn compile_ledger(
    source: Seq<char>,
    kind: StageKind,
    replies: Seq<ReplyView>,
    ledger: Ledger,
) -> Ledger {
    Ledger {
        shaders: if compile_verdict(kind, replies) is Ok {
            ledger.shaders.insert(replies[0].handle())
        } else {
            ledger.shaders
        },
        history: ledger.history + compile_script(source, kind, replies),
        ..ledger
    }
}

/// A compilation is over after [`compile_exchanges`] exchanges, with the
/// outcome that the replies decide, and has asked of the device exactly the
/// script.
pub proof fn compile_decided(
    source: Seq<char>,
    kind: StageKind,
    replies: Seq<ReplyView>,
    ledger: Ledger,
)
    requires
        ledger.wf(),
        !ledger.shaders.contains(replies[0].handle()),
        replies.len() >= compile_exchanges(replies),
    ensures
        compile_outcome(source, kind, replies, ledger) == (CompileRun {
            end: CompileStepView::Finished(compile_verdict(kind, replies)),
            ledger: compile_ledger(source, kind, replies, ledger),
        }),
{
    reveal_with_fuel(compile_run, 9);
    let run = compile_outcome(source, kind, replies, ledger);
    let shader = replies[0].handle();
    if shader != 0 && !replies[3].succeeded() {
        let created = ledger.after(CommandView::CreateShader { kind }, replies[0]);
        assert(created.shaders.remove(shader) =~= ledger.shaders);
    }
    assert(run.ledger.history =~= ledger.history + compile_script(source, kind, replies));
}

/// However many replies there are, a compilation that is over has ended as
/// the replies decide.
pub proof fn compile_finished_as_decided(
    source: Seq<char>,
    kind: StageKind,
    replies: Seq<ReplyView>,
    ledger: Ledger,
)
    requires
        ledger.wf(),
        replies.len() >= 1 ==> !ledger.shaders.contains(replies[0].handle()),
        compile_outcome(source, kind, replies, ledger).end is Finished,
    ensures
        replies.len() >= compile_exchanges(replies),
        compile_outcome(source, kind, replies, ledger) == (CompileRun {
            end: CompileStepView::Finished(compile_verdict(kind, replies)),
            ledger: compile_ledger(source, kind, replies, ledger),
        }),
{
    reveal_with_fuel(compile_run, 9);
    compile_decided(source, kind, replies, ledger);
}

/// A source that the device rejects yields an error that carries the stage
/// kind and the device's log, character for character, so a log that the
/// device filled is not empty. The shader object that was allocated for the
/// attempt is released before the error is returned: the device holds no
/// native resource that it did not hold before.
pub proof fn compile_rejected_retains_nothing(
    source: Seq<char>,
    kind: StageKind,
    replies: Seq<ReplyView>,
    ledger: Ledger,
)
    requires
        ledger.wf(),
        replies.len() >= 7,
        replies[0].handle() != 0,
        !ledger.shaders.contains(replies[0].handle()),
        !replies[3].succeeded(),
    ensures
        compile_outcome(source, kind, replies, ledger).end == CompileStepView::Finished(
            Err(CompileErrorView { stage_kind: kind, log: replies[5].text() }),
        ),
        replies[5].text().len() > 0 ==> (compile_outcome(source, kind, replies, ledger).end
            matches CompileStepView::Finished(Err(error)) && error.log.len() > 0),
        compile_outcome(source, kind, replies, ledger).ledger.shaders == ledger.shaders,
        compile_outcome(source, kind, replies, ledger).ledger.programs == ledger.programs,
        compile_outcome(source, kind, replies, ledger).ledger.attachments == ledger.attachments,
        compile_outcome(source, kind, replies, ledger).ledger.history.last()
            == (CommandView::DeleteShader { shader: replies[0].handle() }),
{
    compile_decided(source, kind, replies, ledger);
}

/// However the device answers, a compilation that ends in an error retains
/// no native resource, and the error names the stage that was asked for.
pub proof fn compile_error_retains_nothing(
    source: Seq<char>,
    kind: StageKind,
    replies: Seq<ReplyView>,
    ledger: Ledger,
)
    requires
        ledger.wf(),
        replies.len() >= 1 ==> !ledger.shaders.contains(replies[0].handle()),
        compile_outcome(source, kind, replies, ledger).end matches CompileStepView::Finished(
            Err(_),
        ),
    ensures
        compile_outcome(source, kind, replies, ledger).ledger.shaders == ledger.shaders,
        compile_outcome(source, kind, replies, ledger).ledger.programs == ledger.programs,
        compile_outcome(source, kind, replies, ledger).ledger.attachments == ledger.attachments,
        compile_outcome(source, kind, replies, ledger).end matches CompileStepView::Finished(
            Err(error),
        ) && error.stage_kind == kind,
{
    compile_finished_as_decided(source, kind, replies, ledger);
}

/// However the device answers, a compilation that ends in a stage has
/// allocated exactly one shader object, which the stage owns and which is
/// not null.
pub proof fn compile_success_owns_one_shader(
    source: Seq<char>,
    kind: StageKind,
    replies: Seq<ReplyView>,
    ledger: Ledger,
)
    requires
        ledger.wf(),
        replies.len() >= 1 ==> !ledger.shaders.contains(replies[0].handle()),
        compile_outcome(source, kind, replies, ledger).end matches CompileStepView::Finished(
            Ok(_),
        ),
    ensures
        compile_outcome(source, kind, replies, ledger).end matches CompileStepView::Finished(
            Ok(stage),
        ) && stage.kind == kind && stage.handle != 0 && compile_outcome(
            source,
            kind,
            replies,
            ledger,
        ).ledger.shaders == ledger.shaders.insert(stage.handle),
        compile_outcome(source, kind, replies, ledger).ledger.programs == ledger.programs,
        compile_outcome(source, kind, replies, ledger).ledger.attachments == ledger.attachments,
{
    compile_finished_as_decided(source, kind, replies, ledger);
}

} // verus!
