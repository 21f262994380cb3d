//! What a whole link does to the device, whatever the device answers.
//!
//! The statements are about [`link_outcome`], the run of a link against a
//! sequence of replies. With `n` stages, a device that gives a program object
//! answers `n` attachments and the link itself; reply `n + 2` is the link
//! status and, after a failure, reply `n + 4` is the log.

use vstd::prelude::*;
use crate::device::{CommandView, Ledger, ReplyView};
use crate::linker::{
    link_outcome,
    link_run,
    link_start,
    LinkErrorView,
    LinkPhase,
    LinkRun,
    LinkStepView,
    LinkingView,
};
use crate::program::ProgramView;
use crate::stage::StageView;

verus! {

/// Whether `shader` is the native object of one of `stages[lo..hi]`.
pub open spec fn names_stage(stages: Seq<StageView>, shader: u32, lo: int, hi: int) -> bool {
    exists|j: int| lo <= j < hi && 0 <= j < stages.len() && (#[trigger] stages[j]).handle == shader
}

/// The native objects of the stages.
pub open spec fn stage_handles(stages: Seq<StageView>) -> Set<u32> {
    Set::new(|shader: u32| names_stage(stages, shader, 0, stages.len() as int))
}

/// What a link expects of the device it starts on: the stages are distinct
/// live shader objects that no program holds.
pub open spec fn ready_to_link(ledger: Ledger, stages: Seq<StageView>) -> bool {
    &&& ledger.wf()
    &&& stages.len() <= usize::MAX
    &&& forall|i: int, j: int|
        0 <= i < j < stages.len() ==> (#[trigger] stages[i]).handle != (#[trigger] stages[j]).handle
    &&& forall|i: int|
        0 <= i < stages.len() ==> ledger.shaders.contains((#[trigger] stages[i]).handle)
            && !ledger.holds(stages[i].handle)
}

/// A step leaves a link well-formed, and a program it ends in is whole: it
/// owns a program object that is not null, is live and remembers nothing yet.
pub proof fn link_step_keeps_wf(job: LinkingView, reply: ReplyView)
    requires
        job.wf(),
    ensures
        job.next(reply) matches LinkStepView::Issue(after, _) ==> after.wf() && after.stages
            == job.stages,
        job.next(reply) matches LinkStepView::Finished(Ok(program)) ==> program.wf()
            && program.live && program == ProgramView::linked(program.handle),
{
}

/// The number of exchanges a link takes: one for the program object, then
/// one per stage if the device had none to give; else three per stage, the
/// link and its status, and after a failure the log's length, the log and the
/// release of the program object.
pub open spec fn link_exchanges(stages: Seq<StageView>, replies: Seq<ReplyView>) -> int {
    let n = stages.len() as int;
    if replies[0].handle() == 0 {
        n + 1
    } else if replies[n + 2].succeeded() {
        3 * n + 3
    } else {
        3 * n + 6
    }
}

/// The outcome that the device's replies decide: a program that owns the
/// object the device allocated, if it gave one and reported that the link
/// succeeded; else an error with the log the device gave, empty if there was
/// no program object to ask.
pub open spec fn link_verdict(stages: Seq<StageView>, replies: Seq<ReplyView>) -> Result<
    ProgramView,
    LinkErrorView,
> {
    let n = stages.len() as int;
    if replies[0].handle() == 0 {
        Err(LinkErrorView { log: Seq::empty() })
    } else if replies[n + 2].succeeded() {
        Ok(ProgramView::linked(replies[0].handle()))
    } else {
        Err(LinkErrorView { log: replies[n + 4].text() })
    }
}

/// The position in the replies at which the release of the stages begins on
/// a device that gave a program object: after the link status if the link
/// succeeded, after the log if it failed.
pub open spec fn release_start(stages: Seq<StageView>, replies: Seq<ReplyView>) -> int {
    let n = stages.len() as int;
    if replies[n + 2].succeeded() {
        n + 3
    } else {
        n + 5
    }
}

/// The command at position `k` of a link. In order: the program object is
/// created; each stage is attached; the program is linked and its status
/// queried; after a failure the log is fetched into a buffer of exactly the
/// length the device reported for it; each stage in turn is detached and then
/// released; after a failure the program object is released. On a device
/// that had no program object to give, the stages are released right away.
pub open spec fn link_command(stages: Seq<StageView>, replies: Seq<ReplyView>, k: int) -> CommandView {
    let n = stages.len() as int;
    let program = replies[0].handle();
    let failed = !replies[n + 2].succeeded();
    let release = k - release_start(stages, replies);
    if k == 0 {
        CommandView::CreateProgram
    } else if program == 0 {
        CommandView::DeleteShader { shader: stages[k - 1].handle }
    } else if k <= n {
        CommandView::AttachShader { program, shader: stages[k - 1].handle }
    } else if k == n + 1 {
        CommandView::LinkProgram { program }
    } else if k == n + 2 {
        CommandView::QueryLinkStatus { program }
    } else if failed && k == n + 3 {
        CommandView::QueryProgramLogLength { program }
    } else if failed && k == n + 4 {
        CommandView::FetchProgramLog { program, capacity: replies[n + 3].capacity() }
    } else if release < 2 * n {
        if release % 2 == 0 {
            CommandView::DetachShader { program, shader: stages[release / 2].handle }
        } else {
            CommandView::DeleteShader { shader: stages[release / 2].handle }
        }
    } else {
        CommandView::DeleteProgram { program }
    }
}

/// The first `count` commands of a link, in order.
pub open spec fn link_commands(
    stages: Seq<StageView>,
    replies: Seq<ReplyView>,
    count: int,
) -> Seq<CommandView> {
    Seq::new(count as nat, |k: int| link_command(stages, replies, k))
}

/// The commands of a whole link, in order.
pub open spec fn link_script(stages: Seq<StageView>, replies: Seq<ReplyView>) -> Seq<CommandView> {
    link_commands(stages, replies, link_exchanges(stages, replies))
}

/// The device's books after a link: it has performed the script, the stages
/// are gone, a program that linked is there, and nothing is attached that was
/// not attached before.
pub open spec fn link_ledger(
    stages: Seq<StageView>,
    replies: Seq<ReplyView>,
    ledger: Ledger,
) -> Ledger {
    Ledger {
        shaders: ledger.shaders.difference(stage_handles(stages)),
        programs: if link_verdict(stages, replies) is Ok {
            ledger.programs.insert(replies[0].handle())
        } else {
            ledger.programs
        },
        history: ledger.history + link_script(stages, replies),
        ..ledger
    }
}

/// The ledger midway through a link that started on `start`: the first
/// `gone` stages are released, stages `lo..hi` are attached to `program`, and
/// `program` is alive if `live`.
spec fn books(
    ledger: Ledger,
    start: Ledger,
    stages: Seq<StageView>,
    program: u32,
    gone: int,
    lo: int,
    hi: int,
    live: bool,
) -> bool {
    &&& forall|h: u32|
        #![trigger ledger.shaders.contains(h)]
        ledger.shaders.contains(h) <==> (start.shaders.contains(h) && !names_stage(
            stages,
            h,
            0,
            gone,
        ))
    &&& forall|q: u32|
        #![trigger ledger.programs.contains(q)]
        ledger.programs.contains(q) <==> (start.programs.contains(q) || (live && q == program))
    &&& forall|q: u32, h: u32|
        #![trigger ledger.attachments.contains((q, h))]
        ledger.attachments.contains((q, h)) <==> (start.attachments.contains((q, h)) || (q
            == program && names_stage(stages, h, lo, hi)))
}

/// A step of the run of a link is where the replies so far say it should be.
spec fn on_course(
    step: LinkStepView,
    stages: Seq<StageView>,
    replies: Seq<ReplyView>,
    from: int,
    ledger: Ledger,
    start: Ledger,
) -> bool {
    let n = stages.len() as int;
    let p = replies[0].handle();
    let ok = replies[n + 2].succeeded();
    let log = replies[n + 4].text();
    let base = release_start(stages, replies);
    match step {
        LinkStepView::Finished(result) => {
            &&& result == link_verdict(stages, replies)
            &&& books(ledger, start, stages, p, n, n, n, result is Ok)
            &&& ledger.history == start.history + link_script(stages, replies)
            &&& ledger.active == start.active
        },
        LinkStepView::Issue(job, command) => {
            &&& job.stages == stages
            &&& 0 <= from < link_exchanges(stages, replies)
            &&& command == link_command(stages, replies, from)
            &&& ledger.history == start.history + link_commands(stages, replies, from)
            &&& ledger.active == start.active
            &&& match job.phase {
                LinkPhase::Creating => {
                    &&& from == 0
                    &&& job.program == 0
                    &&& !job.linked
                    &&& job.log == Seq::<char>::empty()
                    &&& command == CommandView::CreateProgram
                    &&& books(ledger, start, stages, 0, 0, 0, 0, false)
                },
                LinkPhase::Attaching(i) => {
                    &&& p != 0
                    &&& job.program == p
                    &&& !job.linked
                    &&& job.log == Seq::<char>::empty()
                    &&& i < n
                    &&& from == 1 + i
                    &&& command == (CommandView::AttachShader {
                        program: p,
                        shader: stages[i as int].handle,
                    })
                    &&& books(ledger, start, stages, p, 0, 0, i as int, true)
                },
                LinkPhase::Linking => {
                    &&& p != 0
                    &&& job.program == p
                    &&& !job.linked
                    &&& job.log == Seq::<char>::empty()
                    &&& from == n + 1
                    &&& command == (CommandView::LinkProgram { program: p })
                    &&& books(ledger, start, stages, p, 0, 0, n, true)
                },
                LinkPhase::CheckingStatus => {
                    &&& p != 0
                    &&& job.program == p
                    &&& !job.linked
                    &&& job.log == Seq::<char>::empty()
                    &&& from == n + 2
                    &&& command == (CommandView::QueryLinkStatus { program: p })
                    &&& books(ledger, start, stages, p, 0, 0, n, true)
                },
                LinkPhase::MeasuringLog => {
                    &&& p != 0
                    &&& job.program == p
                    &&& !job.linked
                    &&& !ok
                    &&& from == n + 3
                    &&& command == (CommandView::QueryProgramLogLength { program: p })
                    &&& books(ledger, start, stages, p, 0, 0, n, true)
                },
                LinkPhase::FetchingLog => {
                    &&& p != 0
                    &&& job.program == p
                    &&& !job.linked
                    &&& !ok
                    &&& from == n + 4
                    &&& command == (CommandView::FetchProgramLog {
                        program: p,
                        capacity: replies[n + 3].capacity(),
                    })
                    &&& books(ledger, start, stages, p, 0, 0, n, true)
                },
                LinkPhase::Detaching(i) => {
                    &&& p != 0
                    &&& job.program == p
                    &&& job.linked == ok
                    &&& !ok ==> job.log == log
                    &&& i < n
                    &&& from == base + 2 * i
                    &&& command == (CommandView::DetachShader {
                        program: p,
                        shader: stages[i as int].handle,
                    })
                    &&& books(ledger, start, stages, p, i as int, i as int, n, true)
                },
                LinkPhase::Deleting(i) => {
                    &&& i < n
                    &&& command == (CommandView::DeleteShader { shader: stages[i as int].handle })
                    &&& job.program == p
                    &&& if p == 0 {
                        &&& !job.linked
                        &&& job.log == Seq::<char>::empty()
                        &&& from == 1 + i
                        &&& books(ledger, start, stages, p, i as int, 0, 0, false)
                    } else {
                        &&& job.linked == ok
                        &&& !ok ==> job.log == log
                        &&& from == base + 2 * i + 1
                        &&& books(ledger, start, stages, p, i as int, i + 1, n, true)
                    }
                },
                LinkPhase::Discarding => {
                    &&& p != 0
                    &&& job.program == p
                    &&& !job.linked
                    &&& !ok
                    &&& job.log == log
                    &&& from == 3 * n + 5
                    &&& command == (CommandView::DeleteProgram { program: p })
                    &&& books(ledger, start, stages, p, n, n, n, true)
                },
            }
        },
    }
}

/// Creating the program object brings it to life, if the device gave one.
proof fn books_after_create(
    ledger: Ledger,
    start: Ledger,
    stages: Seq<StageView>,
    reply: ReplyView,
)
    requires
        books(ledger, start, stages, 0, 0, 0, 0, false),
    ensures
        reply.handle() != 0 ==> books(
            ledger.after(CommandView::CreateProgram, reply),
            start,
            stages,
            reply.handle(),
            0,
            0,
            0,
            true,
        ),
        reply.handle() == 0 ==> books(
            ledger.after(CommandView::CreateProgram, reply),
            start,
            stages,
            0,
            0,
            0,
            0,
            false,
        ),
{
}

/// Attaching stage `i` adds it to the stages attached.
proof fn books_after_attach(
    ledger: Ledger,
    start: Ledger,
    stages: Seq<StageView>,
    program: u32,
    i: int,
    reply: ReplyView,
)
    requires
        ready_to_link(start, stages),
        0 <= i < stages.len(),
        books(ledger, start, stages, program, 0, 0, i, true),
    ensures
        books(
            ledger.after(
                CommandView::AttachShader { program, shader: stages[i].handle },
                reply,
            ),
            start,
            stages,
            program,
            0,
            0,
            i + 1,
            true,
        ),
{
}

/// Detaching stage `i` leaves the stages after it attached.
proof fn books_after_detach(
    ledger: Ledger,
    start: Ledger,
    stages: Seq<StageView>,
    program: u32,
    i: int,
    reply: ReplyView,
)
    requires
        ready_to_link(start, stages),
        0 <= i < stages.len(),
        books(ledger, start, stages, program, i, i, stages.len() as int, true),
    ensures
        books(
            ledger.after(
                CommandView::DetachShader { program, shader: stages[i].handle },
                reply,
            ),
            start,
            stages,
            program,
            i,
            i + 1,
            stages.len() as int,
            true,
        ),
{
}

/// Deleting stage `i`, which no program holds any more, releases it.
proof fn books_after_delete(
    ledger: Ledger,
    start: Ledger,
    stages: Seq<StageView>,
    program: u32,
    i: int,
    lo: int,
    hi: int,
    live: bool,
    reply: ReplyView,
)
    requires
        ready_to_link(start, stages),
        0 <= i < stages.len(),
        i < lo || hi <= lo,
        books(ledger, start, stages, program, i, lo, hi, live),
    ensures
        books(
            ledger.after(CommandView::DeleteShader { shader: stages[i].handle }, reply),
            start,
            stages,
            program,
            i + 1,
            lo,
            hi,
            live,
        ),
{
}

/// Deleting the program object, to which nothing is attached any more,
/// releases it.
proof fn books_after_discard(
    ledger: Ledger,
    start: Ledger,
    stages: Seq<StageView>,
    program: u32,
    reply: ReplyView,
)
    requires
        start.wf(),
        !start.programs.contains(program),
        books(
            ledger,
            start,
            stages,
            program,
            stages.len() as int,
            stages.len() as int,
            stages.len() as int,
            true,
        ),
    ensures
        books(
            ledger.after(CommandView::DeleteProgram { program }, reply),
            start,
            stages,
            program,
            stages.len() as int,
            stages.len() as int,
            stages.len() as int,
            false,
        ),
{
}

/// One exchange keeps a run on course.
proof fn step_stays_on_course(
    job: LinkingView,
    command: CommandView,
    stages: Seq<StageView>,
    replies: Seq<ReplyView>,
    from: int,
    ledger: Ledger,
    start: Ledger,
)
    requires
        ready_to_link(start, stages),
        !start.programs.contains(replies[0].handle()),
        on_course(LinkStepView::Issue(job, command), stages, replies, from, ledger, start),
        0 <= from < replies.len(),
    ensures
        on_course(
            job.next(replies[from]),
            stages,
            replies,
            from + 1,
            ledger.after(command, replies[from]),
            start,
        ),
{
    let n = stages.len() as int;
    let p = replies[0].handle();
    let reply = replies[from];
    let after = ledger.after(command, reply);
    assert(after.history =~= start.history + link_commands(stages, replies, from + 1));
    match job.phase {
        LinkPhase::Creating => {
            books_after_create(ledger, start, stages, reply);
        },
        LinkPhase::Attaching(i) => {
            books_after_attach(ledger, start, stages, p, i as int, reply);
        },
        LinkPhase::Detaching(i) => {
            books_after_detach(ledger, start, stages, p, i as int, reply);
        },
        LinkPhase::Deleting(i) => {
            if p == 0 {
                books_after_delete(ledger, start, stages, p, i as int, 0, 0, false, reply);
            } else {
                books_after_delete(ledger, start, stages, p, i as int, i + 1, n, true, reply);
            }
        },
        LinkPhase::Discarding => {
            books_after_discard(ledger, start, stages, p, reply);
        },
        _ => {},
    }
}

/// A run that starts on course ends on course, and ends if the replies last.
proof fn run_stays_on_course(
    step: LinkStepView,
    stages: Seq<StageView>,
    replies: Seq<ReplyView>,
    from: int,
    ledger: Ledger,
    start: Ledger,
)
    requires
        ready_to_link(start, stages),
        !start.programs.contains(replies[0].handle()),
        on_course(step, stages, replies, from, ledger, start),
    ensures
        link_run(step, replies, from, ledger).end is Finished ==> on_course(
            link_run(step, replies, from, ledger).end,
            stages,
            replies,
            from,
            link_run(step, replies, from, ledger).ledger,
            start,
        ),
        replies.len() >= link_exchanges(stages, replies) ==> link_run(
            step,
            replies,
            from,
            ledger,
        ).end is Finished,
    decreases replies.len() - from,
{
    match step {
        LinkStepView::Issue(job, command) => {
            if 0 <= from < replies.len() {
                step_stays_on_course(job, command, stages, replies, from, ledger, start);
                run_stays_on_course(
                    job.next(replies[from]),
                    stages,
                    replies,
                    from + 1,
                    ledger.after(command, replies[from]),
                    start,
                );
            }
        },
        LinkStepView::Finished(_) => {},
    }
}

/// However the device answers, a link that is over has released every stage
/// it was given and left nothing attached. Its outcome is the one the
/// replies decide: the program, if the device gave a program object and
/// reported success, and otherwise an error with the device's log, after the
/// program object that failed to link has been released as well.
pub proof fn link_releases_every_stage(
    stages: Seq<StageView>,
    replies: Seq<ReplyView>,
    ledger: Ledger,
)
    requires
        ready_to_link(ledger, stages),
        replies.len() >= 1 ==> !ledger.programs.contains(replies[0].handle()),
        link_outcome(stages, replies, ledger).end is Finished,
    ensures
        link_outcome(stages, replies, ledger) == (LinkRun {
            end: LinkStepView::Finished(link_verdict(stages, replies)),
            ledger: link_ledger(stages, replies, ledger),
        }),
        forall|i: int|
            0 <= i < stages.len() ==> !link_outcome(stages, replies, ledger).ledger.shaders.contains(
                (#[trigger] stages[i]).handle,
            ),
{
    if replies.len() >= 1 {
        run_stays_on_course(link_start(stages), stages, replies, 0, ledger, ledger);
        let run = link_outcome(stages, replies, ledger);
        let expected = link_ledger(stages, replies, ledger);
        assert(run.ledger.shaders =~= expected.shaders);
        assert(run.ledger.programs =~= expected.programs);
        assert(run.ledger.attachments =~= expected.attachments) by {
            assert forall|q: u32, h: u32|
                run.ledger.attachments.contains((q, h)) == expected.attachments.contains(
                    (q, h),
                ) by {}
            assert forall|pair: (u32, u32)|
                run.ledger.attachments.contains(pair) == expected.attachments.contains(pair) by {
                assert(pair == (pair.0, pair.1));
            }
        }
    }
}

/// The commands that attach each stage to `program`, in the order given.
pub open spec fn attach_script(program: u32, stages: Seq<StageView>) -> Seq<CommandView> {
    Seq::new(
        stages.len(),
        |i: int| CommandView::AttachShader { program, shader: stages[i].handle },
    )
}

/// The commands that release each stage in the order given: detached from
/// `program`, then deleted.
pub open spec fn release_script(program: u32, stages: Seq<StageView>) -> Seq<CommandView> {
    Seq::new(
        2 * stages.len(),
        |k: int|
            if k % 2 == 0 {
                CommandView::DetachShader { program, shader: stages[k / 2].handle }
            } else {
                CommandView::DeleteShader { shader: stages[k / 2].handle }
            },
    )
}

/// The commands that delete each stage in the order given.
pub open spec fn delete_script(stages: Seq<StageView>) -> Seq<CommandView> {
    Seq::new(stages.len(), |i: int| CommandView::DeleteShader { shader: stages[i].handle })
}

/// The script of a link, part by part: create the program object; attach the
/// stages; link and query the status; after a failure, measure and fetch the
/// log; detach and delete the stages; after a failure, delete the program
/// object. Without a program object, the stages are deleted and that is all.
pub proof fn link_script_in_parts(stages: Seq<StageView>, replies: Seq<ReplyView>)
    ensures
        ({
            let n = stages.len() as int;
            let program = replies[0].handle();
            let create = seq![CommandView::CreateProgram];
            let build = seq![
                CommandView::LinkProgram { program },
                CommandView::QueryLinkStatus { program },
            ];
            let report = seq![
                CommandView::QueryProgramLogLength { program },
                CommandView::FetchProgramLog { program, capacity: replies[n + 3].capacity() },
            ];
            let discard = seq![CommandView::DeleteProgram { program }];
            link_script(stages, replies) == if program == 0 {
                create + delete_script(stages)
            } else if replies[n + 2].succeeded() {
                create + attach_script(program, stages) + build + release_script(program, stages)
            } else {
                create + attach_script(program, stages) + build + report + release_script(
                    program,
                    stages,
                ) + discard
            }
        }),
{
}

/// A link releases each stage once, and never before it has detached it: the
/// script holds exactly one command that deletes the stage's shader object,
/// and on a device that gave a program object the command before it detaches
/// that shader from the program.
pub proof fn link_releases_each_stage_once(
    stages: Seq<StageView>,
    replies: Seq<ReplyView>,
    i: int,
)
    requires
        forall|a: int, b: int|
            0 <= a < b < stages.len() ==> (#[trigger] stages[a]).handle != (
            #[trigger] stages[b]).handle,
        0 <= i < stages.len(),
    ensures
        ({
            let script = link_script(stages, replies);
            let program = replies[0].handle();
            let release = CommandView::DeleteShader { shader: stages[i].handle };
            let at = if program == 0 {
                i + 1
            } else {
                release_start(stages, replies) + 2 * i + 1
            };
            &&& 0 < at < script.len()
            &&& script[at] == release
            &&& forall|k: int| 0 <= k < script.len() && script[k] == release ==> k == at
            &&& program != 0 ==> script[at - 1] == (CommandView::DetachShader {
                program,
                shader: stages[i].handle,
            })
        }),
{
}

/// A link is over after [`link_exchanges`] exchanges, with the outcome that
/// the replies decide.
pub proof fn link_decided(stages: Seq<StageView>, replies: Seq<ReplyView>, ledger: Ledger)
    requires
        ready_to_link(ledger, stages),
        !ledger.programs.contains(replies[0].handle()),
        replies.len() >= link_exchanges(stages, replies),
    ensures
        link_outcome(stages, replies, ledger) == (LinkRun {
            end: LinkStepView::Finished(link_verdict(stages, replies)),
            ledger: link_ledger(stages, replies, ledger),
        }),
{
    run_stays_on_course(link_start(stages), stages, replies, 0, ledger, ledger);
    link_releases_every_stage(stages, replies, ledger);
}

} // verus!
