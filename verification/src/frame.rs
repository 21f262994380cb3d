//! The render loop: one call per frame, from the events and the clock to the
//! commands that draw it.

use vstd::prelude::*;
use crate::device::{
    command_views,
    Command,
    CommandView,
    Ledger,
    Reply,
    ReplyView,
    QUAD_VERTICES,
};
use crate::program::{Program, ProgramView, UniformLookup, UniformLookupView};

verus! {

/// Name of the uniform that receives the seconds elapsed since the loop
/// started.
pub const TIME_UNIFORM: &'static str = "fTime";

/// Name of the uniform that receives the viewport's width and height in
/// pixels.
pub const RESOLUTION_UNIFORM: &'static str = "iResolution";

/// What the event source reported, as far as the loop cares.
#[derive(Clone, Copy, Debug, PartialEq, Eq, Structural)]
pub enum InputEvent {
    /// The user asked to quit.
    Quit,
    /// Anything else.
    Other,
}

/// The two states of the loop. `Terminating` is terminal.
#[derive(Clone, Copy, Debug, PartialEq, Eq, Structural)]
pub enum LoopState {
    Running,
    Terminating,
}

/// The per-frame values handed to the shader. Times are in nanoseconds of a
/// monotonic clock.
#[derive(Clone, Copy, Debug, PartialEq, Eq, Structural)]
pub struct FrameState {
    /// The clock's reading when the loop started.
    pub start: u64,
    /// Viewport width in pixels, fixed for the life of the loop.
    pub width: i32,
    /// Viewport height in pixels, fixed for the life of the loop.
    pub height: i32,
    /// Time since `start` as of the last frame drawn.
    pub elapsed: u64,
}

impl FrameState {
    /// The frame state at clock reading `now`: the elapsed time is the time
    /// since the start, and never less than it was.
    pub open spec fn advanced(self, now: u64) -> FrameState {
        let since: u64 = if now >= self.start {
            (now - self.start) as u64
        } else {
            0
        };
        FrameState {
            elapsed: if since > self.elapsed {
                since
            } else {
                self.elapsed
            },
            ..self
        }
    }

    /// Recomputes the elapsed time for a frame drawn at clock reading `now`.
    /// A clock that reads earlier than it did leaves the elapsed time where
    /// it was.
    pub fn advance(self, now: u64) -> (next: FrameState)
        ensures
            next == self.advanced(now),
            next.elapsed >= self.elapsed,
            next.start == self.start,
            next.width == self.width,
            next.height == self.height,
    {
        let since: u64 = if now >= self.start {
            now - self.start
        } else {
            0
        };
        FrameState {
            start: self.start,
            width: self.width,
            height: self.height,
            elapsed: if since > self.elapsed {
                since
            } else {
                self.elapsed
            },
        }
    }
}

/// Whether any of the events asks to quit.
pub open spec fn quit_requested(events: Seq<InputEvent>) -> bool {
    exists|i: int| 0 <= i < events.len() && #[trigger] events[i] == InputEvent::Quit
}

/// Drains the pending events and tells whether any of them asks to quit.
pub fn drain_events(events: &[InputEvent]) -> (quit: bool)
    ensures
        quit == quit_requested(events@),
{
    let mut i: usize = 0;
    while i < events.len()
        invariant
            i <= events.len(),
            forall|k: int| 0 <= k < i ==> #[trigger] events[k] != InputEvent::Quit,
        decreases events.len() - i,
    {
        if events[i] == InputEvent::Quit {
            return true;
        }
        i = i + 1;
    }
    false
}

/// The render loop.
///
/// The loop owns the program it draws with, so the program cannot be released
/// under it; [`RenderLoop::into_program`] gives it back.
#[derive(Debug)]
pub struct RenderLoop {
    state: LoopState,
    frame: FrameState,
    program: Program,
    time_location: i32,
    resolution_location: i32,
    frames: u64,
}

/// What a [`RenderLoop`] is, as a mathematical value.
pub struct LoopView {
    pub state: LoopState,
    pub frame: FrameState,
    /// The program the frames are drawn with.
    pub program: ProgramView,
    /// Where the time uniform lives, -1 if nowhere.
    pub time_location: i32,
    /// Where the resolution uniform lives, -1 if nowhere.
    pub resolution_location: i32,
    /// The number of frames drawn so far.
    pub frames: u64,
}

impl LoopView {
    /// A loop draws with a program that has not been released.
    pub open spec fn wf(self) -> bool {
        self.program.live
    }

    /// The loop as it starts: running, no time elapsed, no frame drawn, the
    /// uniform locations as the program remembers them.
    pub open spec fn starting(program: ProgramView, width: i32, height: i32, start: u64) -> LoopView {
        LoopView {
            state: LoopState::Running,
            frame: FrameState { start, width, height, elapsed: 0 },
            program,
            time_location: program.location(TIME_UNIFORM@),
            resolution_location: program.location(RESOLUTION_UNIFORM@),
            frames: 0,
        }
    }

    /// Whether a frame with these events is drawn: the loop is running and
    /// none of the events asks to quit.
    pub open spec fn draws(self, events: Seq<InputEvent>) -> bool {
        self.state == LoopState::Running && !quit_requested(events)
    }

    /// The loop after a frame with these events at clock reading `now`. A
    /// request to quit moves a running loop to `Terminating`; a frame that is
    /// drawn advances the elapsed time and the frame count.
    pub open spec fn after_frame(self, events: Seq<InputEvent>, now: u64) -> LoopView {
        if self.draws(events) {
            LoopView {
                frame: self.frame.advanced(now),
                frames: if self.frames < u64::MAX {
                    (self.frames + 1) as u64
                } else {
                    self.frames
                },
                ..self
            }
        } else {
            LoopView { state: LoopState::Terminating, ..self }
        }
    }

    /// The commands of a frame with these events at clock reading `now`, in
    /// order: none unless the frame is drawn.
    pub open spec fn frame_commands(self, events: Seq<InputEvent>, now: u64) -> Seq<
        CommandView,
    > {
        if self.draws(events) {
            seq![
                CommandView::ClearColorBuffer,
                CommandView::SetTime {
                    location: self.time_location,
                    elapsed: self.frame.advanced(now).elapsed,
                },
                CommandView::SetResolution {
                    location: self.resolution_location,
                    width: self.frame.width,
                    height: self.frame.height,
                },
                CommandView::UseProgram { program: self.program.handle },
                CommandView::BindGeometry,
                CommandView::DrawTriangles { first: 0, count: QUAD_VERTICES },
                CommandView::Present,
            ]
        } else {
            Seq::empty()
        }
    }
}

impl View for RenderLoop {
    type V = LoopView;

    closed spec fn view(&self) -> LoopView {
        LoopView {
            state: self.state,
            frame: self.frame,
            program: self.program@,
            time_location: self.time_location,
            resolution_location: self.resolution_location,
            frames: self.frames,
        }
    }
}

impl RenderLoop {
    #[verifier::type_invariant]
    spec fn inv(self) -> bool {
        self@.wf()
    }

    /// Sets the loop up around a linked program, for a viewport of the given
    /// size and a clock that reads `start`. The uniform locations are taken
    /// from what the program remembers, once and for all; a uniform that was
    /// never looked up counts as absent, so [`RenderLoop::prepare`] is the way
    /// to start from a program fresh from the linker. A program that has
    /// been released cannot be drawn with.
    pub fn new(program: Program, width: i32, height: i32, start: u64) -> (made: Option<
        RenderLoop,
    >)
        ensures
            made is Some <==> program@.live,
            made matches Some(l) ==> l@ == LoopView::starting(program@, width, height, start),
    {
        if !program.is_live() {
            return None;
        }
        Some(Self::starting(program, width, height, start))
    }

    /// The loop as it starts, around a program that is live.
    fn starting(program: Program, width: i32, height: i32, start: u64) -> (render: RenderLoop)
        requires
            program@.live,
        ensures
            render@ == LoopView::starting(program@, width, height, start),
    {
        let time_location = match program.cached_location(TIME_UNIFORM) {
            Some(location) => location,
            None => -1,
        };
        let resolution_location = match program.cached_location(RESOLUTION_UNIFORM) {
            Some(location) => location,
            None => -1,
        };
        RenderLoop {
            state: LoopState::Running,
            frame: FrameState { start, width, height, elapsed: 0 },
            program,
            time_location,
            resolution_location,
            frames: 0,
        }
    }

    /// Sets the loop up around a linked program, looking up on the way the
    /// two uniforms the frames set: first the time, then the resolution, each
    /// only if the program does not remember it. The program is then made
    /// active, so that the uniforms of the first frame have a program to land
    /// in. A program that has been released cannot be drawn with.
    pub fn prepare(program: Program, width: i32, height: i32, start: u64) -> (first: Option<
        PrepareStep,
    >)
        ensures
            first is Some <==> program@.live,
            first matches Some(step) ==> step@ == locate_time(program@, width, height, start),
    {
        if !program.is_live() {
            return None;
        }
        Some(Preparation::locate_time(program, width, height, start))
    }

    /// The state of the loop.
    pub fn state(&self) -> (state: LoopState)
        ensures
            state == self@.state,
    {
        self.state
    }

    /// The values handed to the shader in the last frame drawn.
    pub fn frame_state(&self) -> (frame: FrameState)
        ensures
            frame == self@.frame,
    {
        self.frame
    }

    /// The number of frames drawn so far.
    pub fn frames(&self) -> (frames: u64)
        ensures
            frames == self@.frames,
    {
        self.frames
    }

    /// The program the loop draws with.
    pub fn program(&self) -> (program: &Program)
        ensures
            program@ == self@.program,
            program@.live,
    {
        proof {
            use_type_invariant(self);
        }
        &self.program
    }

    /// Ends the loop and gives the program back, to be released.
    pub fn into_program(self) -> (program: Program)
        ensures
            program@ == self@.program,
            program@.live,
    {
        proof {
            use_type_invariant(&self);
        }
        self.program
    }

    /// Runs one frame: `events` are the events pending at its start, `now`
    /// is the clock's reading. Returns the commands to perform, in order.
    ///
    /// If any event asks to quit, the loop moves to `Terminating` and the
    /// frame is not drawn; a loop that is terminating stays so. Otherwise the
    /// frame clears the colour buffer, sets the time and resolution uniforms,
    /// activates the program, binds the geometry, draws the quad and presents.
    pub fn frame(&mut self, events: &[InputEvent], now: u64) -> (commands: Vec<Command>)
        ensures
            final(self)@ == old(self)@.after_frame(events@, now),
            command_views(commands@) == old(self)@.frame_commands(events@, now),
            final(self)@.frame.elapsed >= old(self)@.frame.elapsed,
    {
        proof {
            use_type_invariant(&*self);
        }
        let mut commands: Vec<Command> = Vec::new();
        let quit = drain_events(events);
        if quit || self.state == LoopState::Terminating {
            self.state = LoopState::Terminating;
            return commands;
        }
        let frame = self.frame.advance(now);
        self.frame = frame;
        if self.frames < u64::MAX {
            self.frames = self.frames + 1;
        }
        commands.push(Command::ClearColorBuffer);
        commands.push(Command::SetTime { location: self.time_location, elapsed: frame.elapsed });
        commands.push(
            Command::SetResolution {
                location: self.resolution_location,
                width: frame.width,
                height: frame.height,
            },
        );
        match self.program.activate() {
            Some(activation) => {
                commands.push(activation);
            },
            None => {},
        }
        commands.push(Command::BindGeometry);
        commands.push(Command::DrawTriangles { first: 0, count: QUAD_VERTICES });
        commands.push(Command::Present);
        commands
    }
}

/// Where a preparation stands: the command whose reply it is waiting for.
#[derive(Clone, Copy, Debug, PartialEq, Eq, Structural)]
pub enum PreparePhase {
    /// Asked where the time uniform is.
    LocatingTime,
    /// Asked where the resolution uniform is.
    LocatingResolution,
    /// Asked the device to make the program active.
    Activating,
}

/// The setup of a render loop, in progress.
#[derive(Debug)]
pub struct Preparation {
    program: Program,
    width: i32,
    height: i32,
    start: u64,
    phase: PreparePhase,
}

/// What a [`Preparation`] is, as a mathematical value.
pub struct PreparationView {
    pub program: ProgramView,
    pub width: i32,
    pub height: i32,
    pub start: u64,
    pub phase: PreparePhase,
}

/// What comes after a reply: the next command, or the loop.
#[derive(Debug)]
pub enum PrepareStep {
    /// Perform the command and feed its reply to the preparation.
    Issue(Preparation, Command),
    /// Both uniforms are located and the program is active: the loop can run.
    Ready(RenderLoop),
}

/// What a [`PrepareStep`] is, as a mathematical value.
pub enum PrepareStepView {
    Issue(PreparationView, CommandView),
    Ready(LoopView),
}

impl View for Preparation {
    type V = PreparationView;

    closed spec fn view(&self) -> PreparationView {
        PreparationView {
            program: self.program@,
            width: self.width,
            height: self.height,
            start: self.start,
            phase: self.phase,
        }
    }
}

impl View for PrepareStep {
    type V = PrepareStepView;

    open spec fn view(&self) -> PrepareStepView {
        match *self {
            PrepareStep::Issue(preparation, command) => PrepareStepView::Issue(
                preparation@,
                command@,
            ),
            PrepareStep::Ready(render) => PrepareStepView::Ready(render@),
        }
    }
}

/// The step that makes the program active, the last of a preparation.
pub open spec fn make_active(
    program: ProgramView,
    width: i32,
    height: i32,
    start: u64,
) -> PrepareStepView {
    PrepareStepView::Issue(
        PreparationView { program, width, height, start, phase: PreparePhase::Activating },
        CommandView::UseProgram { program: program.handle },
    )
}

/// The step that locates the resolution uniform, the second of the two: the
/// question to the device, or the activation if the program remembers the
/// answer.
pub open spec fn locate_resolution(
    program: ProgramView,
    width: i32,
    height: i32,
    start: u64,
) -> PrepareStepView {
    match program.lookup(RESOLUTION_UNIFORM@) {
        UniformLookupView::Ask(command) => PrepareStepView::Issue(
            PreparationView { program, width, height, start, phase: PreparePhase::LocatingResolution },
            command,
        ),
        UniformLookupView::Known(_) => make_active(program, width, height, start),
    }
}

/// The step that locates the time uniform, the first of the two: the question
/// to the device, or the step for the resolution if the program remembers the
/// answer.
pub open spec fn locate_time(
    program: ProgramView,
    width: i32,
    height: i32,
    start: u64,
) -> PrepareStepView {
    match program.lookup(TIME_UNIFORM@) {
        UniformLookupView::Ask(command) => PrepareStepView::Issue(
            PreparationView { program, width, height, start, phase: PreparePhase::LocatingTime },
            command,
        ),
        UniformLookupView::Known(_) => locate_resolution(program, width, height, start),
    }
}

impl PreparationView {
    /// A preparation holds a program that has not been released.
    pub open spec fn wf(self) -> bool {
        self.program.live
    }

    /// The step that `reply`, the answer to the command last issued, leads
    /// to: the program remembers where a uniform is and the next is located,
    /// and once the program is active the loop is ready.
    pub open spec fn next(self, reply: ReplyView) -> PrepareStepView {
        match self.phase {
            PreparePhase::LocatingTime => locate_resolution(
                self.program.record(TIME_UNIFORM@, reply),
                self.width,
                self.height,
                self.start,
            ),
            PreparePhase::LocatingResolution => make_active(
                self.program.record(RESOLUTION_UNIFORM@, reply),
                self.width,
                self.height,
                self.start,
            ),
            PreparePhase::Activating => PrepareStepView::Ready(
                LoopView::starting(self.program, self.width, self.height, self.start),
            ),
        }
    }
}

impl Preparation {
    #[verifier::type_invariant]
    spec fn inv(self) -> bool {
        self@.wf()
    }

    /// Asks where the time uniform is, unless the program remembers.
    fn locate_time(program: Program, width: i32, height: i32, start: u64) -> (step: PrepareStep)
        requires
            program@.live,
        ensures
            step@ == locate_time(program@, width, height, start),
    {
        match program.uniform_location(TIME_UNIFORM) {
            UniformLookup::Ask(command) => PrepareStep::Issue(
                Preparation { program, width, height, start, phase: PreparePhase::LocatingTime },
                command,
            ),
            UniformLookup::Known(_) => Self::locate_resolution(program, width, height, start),
        }
    }

    /// Asks where the resolution uniform is, unless the program remembers.
    fn locate_resolution(program: Program, width: i32, height: i32, start: u64) -> (step:
        PrepareStep)
        requires
            program@.live,
        ensures
            step@ == locate_resolution(program@, width, height, start),
    {
        match program.uniform_location(RESOLUTION_UNIFORM) {
            UniformLookup::Ask(command) => PrepareStep::Issue(
                Preparation {
                    program,
                    width,
                    height,
                    start,
                    phase: PreparePhase::LocatingResolution,
                },
                command,
            ),
            UniformLookup::Known(_) => Self::make_active(program, width, height, start),
        }
    }

    /// Asks the device to make the program active.
    fn make_active(program: Program, width: i32, height: i32, start: u64) -> (step: PrepareStep)
        requires
            program@.live,
        ensures
            step@ == make_active(program@, width, height, start),
    {
        let command = Command::UseProgram { program: program.handle() };
        PrepareStep::Issue(
            Preparation { program, width, height, start, phase: PreparePhase::Activating },
            command,
        )
    }

    /// Takes the device's reply to the question last asked.
    pub fn step(self, reply: Reply) -> (next: PrepareStep)
        ensures
            next@ == self@.next(reply@),
    {
        proof {
            use_type_invariant(&self);
        }
        let Preparation { program, width, height, start, phase } = self;
        let mut program = program;
        match phase {
            PreparePhase::LocatingTime => {
                program.record_location(TIME_UNIFORM, &reply);
                Self::locate_resolution(program, width, height, start)
            },
            PreparePhase::LocatingResolution => {
                program.record_location(RESOLUTION_UNIFORM, &reply);
                Self::make_active(program, width, height, start)
            },
            PreparePhase::Activating => PrepareStep::Ready(
                RenderLoop::starting(program, width, height, start),
            ),
        }
    }
}

/// Where a preparation stands after the first `count` of the replies.
pub open spec fn prepare_run(step: PrepareStepView, replies: Seq<ReplyView>, count: nat) -> PrepareStepView
    decreases count,
{
    if count == 0 {
        step
    } else {
        match prepare_run(step, replies, (count - 1) as nat) {
            PrepareStepView::Issue(preparation, _) => preparation.next(replies[count - 1]),
            ready => ready,
        }
    }
}

/// Whether a step issues the command that makes `program` active.
pub open spec fn activates(step: PrepareStepView, program: u32) -> bool {
    step matches PrepareStepView::Issue(_, command) && command == (CommandView::UseProgram {
        program,
    })
}

/// A preparation is over within three exchanges. The loop it hands out is
/// running, has drawn nothing, and draws with the program it was given, which
/// is live, remembers where both uniforms are and has forgotten nothing; the
/// loop sets the uniforms where the program says. The last command before the
/// loop is ready makes the program active.
pub proof fn prepared_loop_knows_both_uniforms(
    program: ProgramView,
    width: i32,
    height: i32,
    start: u64,
    replies: Seq<ReplyView>,
)
    requires
        program.live,
    ensures
        ({
            let first = locate_time(program, width, height, start);
            &&& prepare_run(first, replies, 3) matches PrepareStepView::Ready(l)
            &&& l.state == LoopState::Running
            &&& l.frames == 0
            &&& l.frame == (FrameState { start, width, height, elapsed: 0 })
            &&& l.program.live
            &&& l.program.handle == program.handle
            &&& l.program.locations.contains_key(TIME_UNIFORM@)
            &&& l.program.locations.contains_key(RESOLUTION_UNIFORM@)
            &&& l.time_location == l.program.locations[TIME_UNIFORM@]
            &&& l.resolution_location == l.program.locations[RESOLUTION_UNIFORM@]
            &&& forall|name: Seq<char>|
                program.locations.contains_key(name) ==> l.program.locations.contains_key(name)
                    && l.program.locations[name] == program.locations[name]
            &&& exists|last: nat|
                last < 3 && activates(#[trigger] prepare_run(first, replies, last), program.handle)
                    && prepare_run(first, replies, last + 1) is Ready
        }),
{
    reveal_with_fuel(prepare_run, 4);
    let first = locate_time(program, width, height, start);
    // The witness: the step before the loop is ready.
    let last: nat = if activates(prepare_run(first, replies, 0), program.handle) {
        0
    } else if activates(prepare_run(first, replies, 1), program.handle) {
        1
    } else {
        2
    };
    assert(activates(prepare_run(first, replies, last), program.handle));
}

/// The loop after a run of frames, given the events and the clock reading of
/// each.
pub open spec fn after_frames(start: LoopView, inputs: Seq<(Seq<InputEvent>, u64)>) -> LoopView
    decreases inputs.len(),
{
    if inputs.len() == 0 {
        start
    } else {
        after_frames(start, inputs.drop_last()).after_frame(inputs.last().0, inputs.last().1)
    }
}

/// `Terminating` is terminal: whatever the events and the clock, a loop that
/// is terminating stays as it is and draws nothing.
pub proof fn terminating_is_terminal(l: LoopView, events: Seq<InputEvent>, now: u64)
    requires
        l.state == LoopState::Terminating,
    ensures
        l.after_frame(events, now) == l,
        l.frame_commands(events, now).len() == 0,
{
}

/// A request to quit ends a running loop within the frame that sees it: the
/// frame draws nothing, the elapsed time and the frame count stay.
pub proof fn quit_aborts_the_frame(l: LoopView, events: Seq<InputEvent>, now: u64)
    requires
        quit_requested(events),
    ensures
        l.after_frame(events, now) == (LoopView { state: LoopState::Terminating, ..l }),
        l.frame_commands(events, now).len() == 0,
{
}

/// A frame draws with the loop's program and no other: on a device on which
/// the program is alive, it is the active one when the geometry is bound, when
/// the quad is drawn and when the frame is presented. A frame creates and
/// releases nothing.
pub proof fn frame_draws_with_its_program(
    l: LoopView,
    events: Seq<InputEvent>,
    now: u64,
    ledger: Ledger,
)
    requires
        l.draws(events),
        ledger.programs.contains(l.program.handle),
    ensures
        ({
            let commands = l.frame_commands(events, now);
            &&& commands.len() == 7
            &&& commands[3] == (CommandView::UseProgram { program: l.program.handle })
            &&& commands[4] == CommandView::BindGeometry
            &&& commands[5] is DrawTriangles
            &&& commands[6] == CommandView::Present
            &&& forall|done: int|
                4 <= done <= 7 ==> (#[trigger] ledger.replay(commands.take(done))).active
                    == l.program.handle
            &&& ledger.replay(commands).shaders == ledger.shaders
            &&& ledger.replay(commands).programs == ledger.programs
            &&& ledger.replay(commands).attachments == ledger.attachments
        }),
{
    reveal_with_fuel(Ledger::replay, 8);
}

/// The elapsed time handed to the shader never decreases from one frame to
/// the next, however the clock behaves, and the viewport never changes.
pub proof fn elapsed_time_never_decreases(l: LoopView, events: Seq<InputEvent>, now: u64)
    ensures
        l.after_frame(events, now).frame.elapsed >= l.frame.elapsed,
        l.after_frame(events, now).frame.start == l.frame.start,
        l.after_frame(events, now).frame.width == l.frame.width,
        l.after_frame(events, now).frame.height == l.frame.height,
        l.draws(events) && now >= l.frame.start && now - l.frame.start >= l.frame.elapsed
            ==> l.after_frame(events, now).frame.elapsed == now - l.frame.start,
{
}

/// Of two frames drawn one after the other, the second hands the shader a time
/// that is not less than the first's.
pub proof fn reported_time_never_decreases(
    l: LoopView,
    first: (Seq<InputEvent>, u64),
    second: (Seq<InputEvent>, u64),
)
    requires
        l.draws(first.0),
        l.after_frame(first.0, first.1).draws(second.0),
    ensures
        l.frame_commands(first.0, first.1)[1] matches CommandView::SetTime { elapsed: earlier, .. }
            && l.after_frame(first.0, first.1).frame_commands(second.0, second.1)[1]
            matches CommandView::SetTime { elapsed: later, .. } && earlier <= later,
{
}

/// Over any run of frames the elapsed time does not decrease, and the loop
/// keeps the program and the uniform locations it started with.
pub proof fn elapsed_time_is_monotonic(start: LoopView, inputs: Seq<(Seq<InputEvent>, u64)>)
    ensures
        after_frames(start, inputs).frame.elapsed >= start.frame.elapsed,
        after_frames(start, inputs).program == start.program,
        after_frames(start, inputs).time_location == start.time_location,
        after_frames(start, inputs).resolution_location == start.resolution_location,
    decreases inputs.len(),
{
    if inputs.len() > 0 {
        elapsed_time_is_monotonic(start, inputs.drop_last());
    }
}

/// A loop that starts running and sees no request to quit in its first `n`
/// frames, then one in the next, has drawn exactly `n` frames and is
/// terminating; further frames change nothing.
pub proof fn quit_after_n_frames(start: LoopView, inputs: Seq<(Seq<InputEvent>, u64)>, n: int)
    requires
        start.state == LoopState::Running,
        start.frames == 0,
        0 <= n < inputs.len(),
        n < u64::MAX,
        forall|i: int| 0 <= i < n ==> !quit_requested(#[trigger] inputs[i].0),
        quit_requested(inputs[n].0),
    ensures
        after_frames(start, inputs).state == LoopState::Terminating,
        after_frames(start, inputs).frames == n,
    decreases inputs.len(),
{
    let before = inputs.drop_last();
    if inputs.len() == n + 1 {
        frames_without_quit(start, before);
    } else {
        quit_after_n_frames(start, before, n);
    }
}

/// A loop that starts running and sees no request to quit has drawn every
/// frame and is still running.
pub proof fn frames_without_quit(start: LoopView, inputs: Seq<(Seq<InputEvent>, u64)>)
    requires
        start.state == LoopState::Running,
        start.frames == 0,
        inputs.len() <= u64::MAX,
        forall|i: int| 0 <= i < inputs.len() ==> !quit_requested(#[trigger] inputs[i].0),
    ensures
        after_frames(start, inputs).state == LoopState::Running,
        after_frames(start, inputs).frames == inputs.len(),
    decreases inputs.len(),
{
    if inputs.len() > 0 {
        frames_without_quit(start, inputs.drop_last());
    }
}

} // verus!
