//! Linking compiled stages into a program.
//!
//! [`link`] takes ownership of the stages and starts a [`Linking`]; each
//! [`Linking::step`] takes the device's reply to the command last issued.
//! Whether the link succeeds or not, every stage is detached and released
//! before the outcome is returned, and a program that failed to link is
//! released too.

use vstd::prelude::*;
use crate::device::{Command, CommandView, Ledger, Reply, ReplyView};
use crate::program::{Program, ProgramView};
use crate::stage::{ShaderStage, StageView};

verus! {

/// The device refused to link a set of stages.
#[derive(Clone, Debug, PartialEq, Eq)]
pub struct LinkError {
    /// The linker's log, as the device gave it.
    pub log: String,
}

/// What a [`LinkError`] is, as a mathematical value.
pub struct LinkErrorView {
    pub log: Seq<char>,
}

impl View for LinkError {
    type V = LinkErrorView;

    open spec fn view(&self) -> LinkErrorView {
        LinkErrorView { log: self.log@ }
    }
}

/// Where a link stands: the command whose reply it is waiting for. The
/// number is the position, in the order given, of the stage that the command
/// is about.
#[derive(Clone, Copy, Debug, PartialEq, Eq, Structural)]
pub enum LinkPhase {
    /// Asked for a program object.
    Creating,
    /// Asked to attach a stage.
    Attaching(usize),
    /// Asked the device to link.
    Linking,
    /// Asked whether the link succeeded.
    CheckingStatus,
    /// Asked for the length of the log.
    MeasuringLog,
    /// Asked for the log.
    FetchingLog,
    /// Asked to detach a stage.
    Detaching(usize),
    /// Asked to release a stage.
    Deleting(usize),
    /// Asked to release the program object that failed to link.
    Discarding,
}

/// A link in progress.
#[derive(Debug)]
pub struct Linking {
    stages: Vec<ShaderStage>,
    program: u32,
    linked: bool,
    log: String,
    phase: LinkPhase,
}

/// What a [`Linking`] is, as a mathematical value.
pub struct LinkingView {
    /// The stages being linked, in the order given.
    pub stages: Seq<StageView>,
    /// The program object, once the device has allocated it.
    pub program: u32,
    /// Whether the device has reported that the link succeeded.
    pub linked: bool,
    /// The linker's log, once it has been fetched.
    pub log: Seq<char>,
    pub phase: LinkPhase,
}

/// What comes after a reply: the next command, or the outcome.
#[derive(Debug)]
pub enum LinkStep {
    /// Perform the command and feed its reply to the link.
    Issue(Linking, Command),
    /// The link is over.
    Finished(Result<Program, LinkError>),
}

/// What a [`LinkStep`] is, as a mathematical value.
pub enum LinkStepView {
    Issue(LinkingView, CommandView),
    Finished(Result<ProgramView, LinkErrorView>),
}

/// The views of a list of stages, in order.
pub open spec fn stage_views(stages: Seq<ShaderStage>) -> Seq<StageView> {
    Seq::new(stages.len(), |i: int| stages[i]@)
}

impl LinkingView {
    /// A position named by the phase is that of a stage. The program object
    /// exists from the first reply on, unless the device had none to give and
    /// the stages are merely being released. Only while the stages are being
    /// released can the link have succeeded.
    pub open spec fn wf(self) -> bool {
        match self.phase {
            LinkPhase::Creating => self.program == 0 && !self.linked,
            LinkPhase::Attaching(i) => self.program != 0 && !self.linked && i < self.stages.len(),
            LinkPhase::Detaching(i) => self.program != 0 && i < self.stages.len(),
            LinkPhase::Deleting(i) => (self.linked ==> self.program != 0) && i
                < self.stages.len(),
            _ => self.program != 0 && !self.linked,
        }
    }

    /// Attaches the stage at position `i`, or links once all are attached.
    pub open spec fn attach_from(self, i: int) -> LinkStepView {
        if 0 <= i < self.stages.len() {
            LinkStepView::Issue(
                LinkingView { phase: LinkPhase::Attaching(i as usize), ..self },
                CommandView::AttachShader { program: self.program, shader: self.stages[i].handle },
            )
        } else {
            LinkStepView::Issue(
                LinkingView { phase: LinkPhase::Linking, ..self },
                CommandView::LinkProgram { program: self.program },
            )
        }
    }

    /// Releases the stage at position `i`, detaching it first from a program
    /// object that exists; once all are released, hands out the program that
    /// linked, or discards the program object that did not and reports the
    /// error.
    pub open spec fn release_from(self, i: int) -> LinkStepView {
        if 0 <= i < self.stages.len() {
            if self.program != 0 {
                LinkStepView::Issue(
                    LinkingView { phase: LinkPhase::Detaching(i as usize), ..self },
                    CommandView::DetachShader {
                        program: self.program,
                        shader: self.stages[i].handle,
                    },
                )
            } else {
                LinkStepView::Issue(
                    LinkingView { phase: LinkPhase::Deleting(i as usize), ..self },
                    CommandView::DeleteShader { shader: self.stages[i].handle },
                )
            }
        } else if self.linked {
            LinkStepView::Finished(Ok(ProgramView::linked(self.program)))
        } else if self.program != 0 {
            LinkStepView::Issue(
                LinkingView { phase: LinkPhase::Discarding, ..self },
                CommandView::DeleteProgram { program: self.program },
            )
        } else {
            LinkStepView::Finished(Err(LinkErrorView { log: self.log }))
        }
    }

    /// The step that `reply`, the answer to the command last issued, leads to.
    pub open spec fn next(self, reply: ReplyView) -> LinkStepView {
        let program = self.program;
        match self.phase {
            LinkPhase::Creating => if reply.handle() == 0 {
                self.release_from(0)
            } else {
                LinkingView { program: reply.handle(), ..self }.attach_from(0)
            },
            LinkPhase::Attaching(i) => self.attach_from(i + 1),
            LinkPhase::Linking => LinkStepView::Issue(
                LinkingView { phase: LinkPhase::CheckingStatus, ..self },
                CommandView::QueryLinkStatus { program },
            ),
            LinkPhase::CheckingStatus => if reply.succeeded() {
                LinkingView { linked: true, ..self }.release_from(0)
            } else {
                LinkStepView::Issue(
                    LinkingView { phase: LinkPhase::MeasuringLog, ..self },
                    CommandView::QueryProgramLogLength { program },
                )
            },
            LinkPhase::MeasuringLog => LinkStepView::Issue(
                LinkingView { phase: LinkPhase::FetchingLog, ..self },
                CommandView::FetchProgramLog { program, capacity: reply.capacity() },
            ),
            LinkPhase::FetchingLog => LinkingView { log: reply.text(), ..self }.release_from(0),
            LinkPhase::Detaching(i) => LinkStepView::Issue(
                LinkingView { phase: LinkPhase::Deleting(i), ..self },
                CommandView::DeleteShader { shader: self.stages[i as int].handle },
            ),
            LinkPhase::Deleting(i) => self.release_from(i + 1),
            LinkPhase::Discarding => LinkStepView::Finished(Err(LinkErrorView { log: self.log })),
        }
    }
}

impl View for Linking {
    type V = LinkingView;

    closed spec fn view(&self) -> LinkingView {
        LinkingView {
            stages: stage_views(self.stages@),
            program: self.program,
            linked: self.linked,
            log: self.log@,
            phase: self.phase,
        }
    }
}

impl View for LinkStep {
    type V = LinkStepView;

    open spec fn view(&self) -> LinkStepView {
        match *self {
            LinkStep::Issue(job, command) => LinkStepView::Issue(job@, command@),
            LinkStep::Finished(Ok(program)) => LinkStepView::Finished(Ok(program@)),
            LinkStep::Finished(Err(error)) => LinkStepView::Finished(Err(error@)),
        }
    }
}

/// The first step of linking `stages`.
pub open spec fn link_start(stages: Seq<StageView>) -> LinkStepView {
    LinkStepView::Issue(
        LinkingView {
            stages,
            program: 0,
            linked: false,
            log: Seq::empty(),
            phase: LinkPhase::Creating,
        },
        CommandView::CreateProgram,
    )
}

/// Starts linking `stages`, in the order given, into one program. The stages
/// are consumed: the link releases each of them, whatever its outcome.
pub fn link(stages: Vec<ShaderStage>) -> (first: LinkStep)
    requires
        stages@.len() >= 1,
    ensures
        first@ == link_start(stage_views(stages@)),
{
    LinkStep::Issue(
        Linking {
            stages,
            program: 0,
            linked: false,
            log: String::new(),
            phase: LinkPhase::Creating,
        },
        Command::CreateProgram,
    )
}

impl Linking {
    #[verifier::type_invariant]
    spec fn inv(self) -> bool {
        self@.wf()
    }

    /// Attaches the stage at position `i`, or links once all are attached.
    /// The phase the link comes from plays no part.
    fn attach_from(stages: Vec<ShaderStage>, program: u32, log: String, i: usize) -> (next:
        LinkStep)
        requires
            program != 0,
        ensures
            next@ == (LinkingView {
                stages: stage_views(stages@),
                program,
                linked: false,
                log: log@,
                phase: LinkPhase::Creating,
            }).attach_from(i as int),
    {
        if i < stages.len() {
            let shader = stages[i].handle();
            LinkStep::Issue(
                Linking { stages, program, linked: false, log, phase: LinkPhase::Attaching(i) },
                Command::AttachShader { program, shader },
            )
        } else {
            LinkStep::Issue(
                Linking { stages, program, linked: false, log, phase: LinkPhase::Linking },
                Command::LinkProgram { program },
            )
        }
    }

    /// Releases the stage at position `i`, or ends the link once all are
    /// released. The phase the link comes from plays no part.
    fn release_from(
        stages: Vec<ShaderStage>,
        program: u32,
        linked: bool,
        log: String,
        i: usize,
    ) -> (next: LinkStep)
        requires
            linked ==> program != 0,
        ensures
            next@ == (LinkingView {
                stages: stage_views(stages@),
                program,
                linked,
                log: log@,
                phase: LinkPhase::Creating,
            }).release_from(i as int),
    {
        if i < stages.len() {
            let shader = stages[i].handle();
            if program != 0 {
                LinkStep::Issue(
                    Linking { stages, program, linked, log, phase: LinkPhase::Detaching(i) },
                    Command::DetachShader { program, shader },
                )
            } else {
                LinkStep::Issue(
                    Linking { stages, program, linked, log, phase: LinkPhase::Deleting(i) },
                    Command::DeleteShader { shader },
                )
            }
        } else if linked {
            LinkStep::Finished(Ok(Program::adopt(program)))
        } else if program != 0 {
            LinkStep::Issue(
                Linking { stages, program, linked, log, phase: LinkPhase::Discarding },
                Command::DeleteProgram { program },
            )
        } else {
            LinkStep::Finished(Err(LinkError { log }))
        }
    }

    /// Takes the device's reply to the command last issued.
    ///
    /// A null program object ends the link with an empty log, once the stages
    /// have been released. A program that failed to link is released, after
    /// the stages, before the error is returned with the log the device gave.
    pub fn step(self, reply: Reply) -> (next: LinkStep)
        ensures
            next@ == self@.next(reply@),
    {
        proof {
            use_type_invariant(&self);
            assert(self@.stages.len() == self.stages.len());
        }
        let Linking { stages, program, linked, log, phase } = self;
        match phase {
            LinkPhase::Creating => {
                let created = reply.handle();
                if created == 0 {
                    Self::release_from(stages, 0, linked, log, 0)
                } else {
                    Self::attach_from(stages, created, log, 0)
                }
            },
            LinkPhase::Attaching(i) => Self::attach_from(stages, program, log, i + 1),
            LinkPhase::Linking => LinkStep::Issue(
                Linking { stages, program, linked, log, phase: LinkPhase::CheckingStatus },
                Command::QueryLinkStatus { program },
            ),
            LinkPhase::CheckingStatus => {
                if reply.succeeded() {
                    Self::release_from(stages, program, true, log, 0)
                } else {
                    LinkStep::Issue(
                        Linking { stages, program, linked, log, phase: LinkPhase::MeasuringLog },
                        Command::QueryProgramLogLength { program },
                    )
                }
            },
            LinkPhase::MeasuringLog => LinkStep::Issue(
                Linking { stages, program, linked, log, phase: LinkPhase::FetchingLog },
                Command::FetchProgramLog { program, capacity: reply.capacity() },
            ),
            LinkPhase::FetchingLog => Self::release_from(
                stages,
                program,
                linked,
                reply.into_text(),
                0,
            ),
            LinkPhase::Detaching(i) => {
                let shader = stages[i].handle();
                LinkStep::Issue(
                    Linking { stages, program, linked, log, phase: LinkPhase::Deleting(i) },
                    Command::DeleteShader { shader },
                )
            },
            LinkPhase::Deleting(i) => Self::release_from(stages, program, linked, log, i + 1),
            LinkPhase::Discarding => LinkStep::Finished(Err(LinkError { log })),
        }
    }
}

/// Where a run of exchanges with the device has led.
pub struct LinkRun {
    /// The step reached.
    pub end: LinkStepView,
    /// The device's resources at that point.
    pub ledger: Ledger,
}

/// Runs a link against the replies `replies[from..]`: each command issued is
/// performed on the ledger and answered by the next reply, until the link
/// finishes or the replies run out.
pub open spec fn link_run(
    step: LinkStepView,
    replies: Seq<ReplyView>,
    from: int,
    ledger: Ledger,
) -> LinkRun
    decreases replies.len() - from,
{
    match step {
        LinkStepView::Issue(job, command) => if 0 <= from < replies.len() {
            link_run(
                job.next(replies[from]),
                replies,
                from + 1,
                ledger.after(command, replies[from]),
            )
        } else {
            LinkRun { end: step, ledger }
        },
        LinkStepView::Finished(_) => LinkRun { end: step, ledger },
    }
}

/// The whole run of linking `stages` on a device that answers with `replies`.
pub open spec fn link_outcome(
    stages: Seq<StageView>,
    replies: Seq<ReplyView>,
    ledger: Ledger,
) -> LinkRun {
    link_run(link_start(stages), replies, 0, ledger)
}

} // verus!
