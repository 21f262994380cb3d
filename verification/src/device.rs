//! The vocabulary spoken with the graphics device.
//!
//! Nothing in this crate touches the device. Every operation hands back the
//! [`Command`] it wants performed; whoever owns the rendering context performs
//! it on the one thread that may, and feeds the device's [`Reply`] to the next
//! step. The [`Ledger`] is the bookkeeping model against which the crate states
//! which native resources a sequence of commands leaves behind.

use vstd::prelude::*;

verus! {

/// The pipeline step a shader stage is compiled for.
#[derive(Clone, Copy, Debug, PartialEq, Eq, Structural)]
pub enum StageKind {
    Vertex,
    Fragment,
}

/// Number of vertices in the two triangles that cover the viewport.
pub const QUAD_VERTICES: i32 = 6;

/// One request to the device.
#[derive(Clone, Debug, PartialEq, Eq)]
pub enum Command {
    /// Allocate a shader object; answered by [`Reply::Handle`], null on failure.
    CreateShader { kind: StageKind },
    /// Replace the source text of a shader object.
    ShaderSource { shader: u32, source: String },
    /// Compile the source last submitted.
    CompileShader { shader: u32 },
    /// Ask whether the last compilation succeeded; answered by
    /// [`Reply::Value`], zero meaning failure.
    QueryCompileStatus { shader: u32 },
    /// Ask for the length of the compiler's log; answered by [`Reply::Value`].
    QueryShaderLogLength { shader: u32 },
    /// Fetch the compiler's log into a buffer of `capacity` bytes; answered
    /// by [`Reply::Text`].
    FetchShaderLog { shader: u32, capacity: usize },
    /// Release a shader object.
    DeleteShader { shader: u32 },
    /// Allocate a program object; answered by [`Reply::Handle`], null on
    /// failure.
    CreateProgram,
    /// Attach a shader object to a program object.
    AttachShader { program: u32, shader: u32 },
    /// Link the attached stages.
    LinkProgram { program: u32 },
    /// Ask whether the last link succeeded; answered by [`Reply::Value`],
    /// zero meaning failure.
    QueryLinkStatus { program: u32 },
    /// Ask for the length of the linker's log; answered by [`Reply::Value`].
    QueryProgramLogLength { program: u32 },
    /// Fetch the linker's log into a buffer of `capacity` bytes; answered by
    /// [`Reply::Text`].
    FetchProgramLog { program: u32, capacity: usize },
    /// Detach a shader object from a program object.
    DetachShader { program: u32, shader: u32 },
    /// Release a program object.
    DeleteProgram { program: u32 },
    /// Make a program the one that subsequent draws run.
    UseProgram { program: u32 },
    /// Ask where a uniform lives; answered by [`Reply::Value`], negative
    /// meaning that the program has no such active uniform.
    QueryUniformLocation { program: u32, name: String },
    /// Clear the colour buffer.
    ClearColorBuffer,
    /// Set the time uniform to `elapsed` nanoseconds, expressed in seconds.
    SetTime { location: i32, elapsed: u64 },
    /// Set the resolution uniform to the viewport's size in pixels.
    SetResolution { location: i32, width: i32, height: i32 },
    /// Bind the fixed vertex geometry.
    BindGeometry,
    /// Draw `count` vertices as a list of triangles, starting at `first`.
    DrawTriangles { first: i32, count: i32 },
    /// Show the finished frame.
    Present,
    /// Pop one pending error flag; answered by [`Reply::Code`].
    QueryError,
}

/// What a [`Command`] is, as a mathematical value.
pub enum CommandView {
    CreateShader { kind: StageKind },
    ShaderSource { shader: u32, source: Seq<char> },
    CompileShader { shader: u32 },
    QueryCompileStatus { shader: u32 },
    QueryShaderLogLength { shader: u32 },
    FetchShaderLog { shader: u32, capacity: usize },
    DeleteShader { shader: u32 },
    CreateProgram,
    AttachShader { program: u32, shader: u32 },
    LinkProgram { program: u32 },
    QueryLinkStatus { program: u32 },
    QueryProgramLogLength { program: u32 },
    FetchProgramLog { program: u32, capacity: usize },
    DetachShader { program: u32, shader: u32 },
    DeleteProgram { program: u32 },
    UseProgram { program: u32 },
    QueryUniformLocation { program: u32, name: Seq<char> },
    ClearColorBuffer,
    SetTime { location: i32, elapsed: u64 },
    SetResolution { location: i32, width: i32, height: i32 },
    BindGeometry,
    DrawTriangles { first: i32, count: i32 },
    Present,
    QueryError,
}

impl View for Command {
    type V = CommandView;

    open spec fn view(&self) -> CommandView {
        match *self {
            Command::CreateShader { kind } => CommandView::CreateShader { kind },
            Command::ShaderSource { shader, source } => CommandView::ShaderSource {
                shader,
                source: source@,
            },
            Command::CompileShader { shader } => CommandView::CompileShader { shader },
            Command::QueryCompileStatus { shader } => CommandView::QueryCompileStatus { shader },
            Command::QueryShaderLogLength { shader } => CommandView::QueryShaderLogLength {
                shader,
            },
            Command::FetchShaderLog { shader, capacity } => CommandView::FetchShaderLog {
                shader,
                capacity,
            },
            Command::DeleteShader { shader } => CommandView::DeleteShader { shader },
            Command::CreateProgram => CommandView::CreateProgram,
            Command::AttachShader { program, shader } => CommandView::AttachShader {
                program,
                shader,
            },
            Command::LinkProgram { program } => CommandView::LinkProgram { program },
            Command::QueryLinkStatus { program } => CommandView::QueryLinkStatus { program },
            Command::QueryProgramLogLength { program } => CommandView::QueryProgramLogLength {
                program,
            },
            Command::FetchProgramLog { program, capacity } => CommandView::FetchProgramLog {
                program,
                capacity,
            },
            Command::DetachShader { program, shader } => CommandView::DetachShader {
                program,
                shader,
            },
            Command::DeleteProgram { program } => CommandView::DeleteProgram { program },
            Command::UseProgram { program } => CommandView::UseProgram { program },
            Command::QueryUniformLocation { program, name } => CommandView::QueryUniformLocation {
                program,
                name: name@,
            },
            Command::ClearColorBuffer => CommandView::ClearColorBuffer,
            Command::SetTime { location, elapsed } => CommandView::SetTime { location, elapsed },
            Command::SetResolution { location, width, height } => CommandView::SetResolution {
                location,
                width,
                height,
            },
            Command::BindGeometry => CommandView::BindGeometry,
            Command::DrawTriangles { first, count } => CommandView::DrawTriangles { first, count },
            Command::Present => CommandView::Present,
            Command::QueryError => CommandView::QueryError,
        }
    }
}

/// The views of a list of commands, in order.
pub open spec fn command_views(commands: Seq<Command>) -> Seq<CommandView> {
    Seq::new(commands.len(), |i: int| commands[i]@)
}

/// The view of a command that may be absent.
pub open spec fn optional_view(command: Option<Command>) -> Option<CommandView> {
    match command {
        Some(c) => Some(c@),
        None => None,
    }
}

/// What the device answered.
#[derive(Clone, Debug, PartialEq, Eq)]
pub enum Reply {
    /// The command returns nothing.
    Done,
    /// The name of a freshly allocated object, or zero.
    Handle(u32),
    /// The integer a query produced.
    Value(i32),
    /// A diagnostic log.
    Text(String),
    /// An error flag.
    Code(u32),
}

/// What a [`Reply`] is, as a mathematical value.
///
/// Each reading below is total: a reply of another shape reads as the value
/// with which the device itself reports failure or absence.
pub enum ReplyView {
    Done,
    Handle(u32),
    Value(i32),
    Text(Seq<char>),
    Code(u32),
}

impl ReplyView {
    /// The object named by the reply; the null handle if it names none.
    pub open spec fn handle(self) -> u32 {
        match self {
            ReplyView::Handle(h) => h,
            _ => 0,
        }
    }

    /// The integer the reply carries; zero if it carries none.
    pub open spec fn value(self) -> i32 {
        match self {
            ReplyView::Value(v) => v,
            _ => 0,
        }
    }

    /// The reply read as a status flag: set when a non-zero integer came back.
    pub open spec fn succeeded(self) -> bool {
        self.value() != 0
    }

    /// The reply read as the size of the buffer that holds a log of the
    /// reported length.
    pub open spec fn capacity(self) -> usize {
        if self.value() > 0 {
            self.value() as usize
        } else {
            0
        }
    }

    /// The text the reply carries; empty if it carries none.
    pub open spec fn text(self) -> Seq<char> {
        match self {
            ReplyView::Text(t) => t,
            _ => Seq::empty(),
        }
    }

    /// The reply read as a uniform location: the integer if it is not
    /// negative, and -1 otherwise.
    pub open spec fn location(self) -> i32 {
        if self.value() >= 0 && self is Value {
            self.value()
        } else {
            -1i32
        }
    }

    /// The error flag the reply carries; zero, "no error", if it carries none.
    pub open spec fn code(self) -> u32 {
        match self {
            ReplyView::Code(c) => c,
            _ => 0,
        }
    }
}

impl View for Reply {
    type V = ReplyView;

    open spec fn view(&self) -> ReplyView {
        match *self {
            Reply::Done => ReplyView::Done,
            Reply::Handle(h) => ReplyView::Handle(h),
            Reply::Value(v) => ReplyView::Value(v),
            Reply::Text(t) => ReplyView::Text(t@),
            Reply::Code(c) => ReplyView::Code(c),
        }
    }
}

impl Reply {
    /// The object named by the reply; the null handle if it names none.
    pub fn handle(&self) -> (h: u32)
        ensures
            h == self@.handle(),
    {
        match self {
            Reply::Handle(h) => *h,
            _ => 0,
        }
    }

    /// Whether the reply reports success.
    pub fn succeeded(&self) -> (ok: bool)
        ensures
            ok == self@.succeeded(),
    {
        match self {
            Reply::Value(v) => *v != 0,
            _ => false,
        }
    }

    /// The buffer size to fetch a log of the reported length.
    pub fn capacity(&self) -> (n: usize)
        ensures
            n == self@.capacity(),
    {
        match self {
            Reply::Value(v) => if *v > 0 {
                *v as usize
            } else {
                0
            },
            _ => 0,
        }
    }

    /// The text the reply carries; empty if it carries none.
    pub fn into_text(self) -> (t: String)
        ensures
            t@ == self@.text(),
    {
        match self {
            Reply::Text(t) => t,
            _ => String::new(),
        }
    }

    /// The reply read as a uniform location, -1 standing for "absent".
    pub fn location(&self) -> (l: i32)
        ensures
            l == self@.location(),
            l >= -1,
    {
        match self {
            Reply::Value(v) => if *v >= 0 {
                *v
            } else {
                -1
            },
            _ => -1,
        }
    }

    /// The error flag the reply carries; zero if it carries none.
    pub fn code(&self) -> (c: u32)
        ensures
            c == self@.code(),
    {
        match self {
            Reply::Code(c) => *c,
            _ => 0,
        }
    }
}

/// The device's books: the native resources alive on it, and what it has
/// been asked to do.
///
/// A shader that is still attached to a program survives its own deletion, so
/// the ledger keeps it: releasing a stage takes a detach first.
pub struct Ledger {
    /// Names of the live shader objects.
    pub shaders: Set<u32>,
    /// Names of the live program objects.
    pub programs: Set<u32>,
    /// Pairs of a program and a shader attached to it.
    pub attachments: Set<(u32, u32)>,
    /// The one program that draws run; zero if none is active.
    pub active: u32,
    /// Every command performed so far, oldest first.
    pub history: Seq<CommandView>,
}

impl Ledger {
    /// Only live objects are attached to each other, and the null handle
    /// names nothing.
    pub open spec fn wf(self) -> bool {
        &&& !self.shaders.contains(0)
        &&& !self.programs.contains(0)
        &&& forall|program: u32, shader: u32| #[trigger]
            self.attachments.contains((program, shader)) ==> self.programs.contains(program)
                && self.shaders.contains(shader)
    }

    /// Whether some program holds the shader.
    pub open spec fn holds(self, shader: u32) -> bool {
        exists|program: u32| #[trigger] self.attachments.contains((program, shader))
    }

    /// The ledger once the device has performed `command` and answered
    /// `reply`.
    pub open spec fn after(self, command: CommandView, reply: ReplyView) -> Ledger {
        let performed = Ledger { history: self.history.push(command), ..self };
        match command {
            CommandView::CreateShader { .. } => if reply.handle() != 0 {
                Ledger { shaders: self.shaders.insert(reply.handle()), ..performed }
            } else {
                performed
            },
            CommandView::DeleteShader { shader } => if self.holds(shader) {
                performed
            } else {
                Ledger { shaders: self.shaders.remove(shader), ..performed }
            },
            CommandView::CreateProgram => if reply.handle() != 0 {
                Ledger { programs: self.programs.insert(reply.handle()), ..performed }
            } else {
                performed
            },
            CommandView::AttachShader { program, shader } => if self.programs.contains(program)
                && self.shaders.contains(shader) {
                Ledger { attachments: self.attachments.insert((program, shader)), ..performed }
            } else {
                performed
            },
            CommandView::DetachShader { program, shader } => Ledger {
                attachments: self.attachments.remove((program, shader)),
                ..performed
            },
            CommandView::DeleteProgram { program } => Ledger {
                programs: self.programs.remove(program),
                attachments: self.attachments.filter(|pair: (u32, u32)| pair.0 != program),
                ..performed
            },
            CommandView::UseProgram { program } => if program == 0 || self.programs.contains(
                program,
            ) {
                Ledger { active: program, ..performed }
            } else {
                performed
            },
            _ => performed,
        }
    }

    /// The ledger once the device has performed `commands`, in order, none
    /// of which asks for an object.
    pub open spec fn replay(self, commands: Seq<CommandView>) -> Ledger
        decreases commands.len(),
    {
        if commands.len() == 0 {
            self
        } else {
            self.replay(commands.drop_last()).after(commands.last(), ReplyView::Done)
        }
    }
}

/// Whatever the device is asked and whatever it answers, a well-formed
/// ledger stays well-formed.
pub proof fn ledger_stays_well_formed(ledger: Ledger, command: CommandView, reply: ReplyView)
    requires
        ledger.wf(),
    ensures
        ledger.after(command, reply).wf(),
{
}

} // verus!
