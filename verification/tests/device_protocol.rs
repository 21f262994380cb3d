//! The compile, link, program and frame protocols, driven against a small
//! in-memory device that keeps count of its objects.

use std::collections::HashMap;

use shadertoy::device::{Command, Reply, StageKind};
use shadertoy::frame::{
    InputEvent, LoopState, PrepareStep, RenderLoop, RESOLUTION_UNIFORM, TIME_UNIFORM,
};
use shadertoy::linker::{link, LinkError, LinkStep};
use shadertoy::program::{Program, UniformLookup};
use shadertoy::setup::{exit_code, SetupError};
use shadertoy::stage::{compile, CompileError, CompileStep, ShaderStage};

const VERTEX_SOURCE: &str = "#version 410 core\n\
layout (location = 0) in vec3 Position;\n\
void main()\n\
{\n\
    gl_Position = vec4(Position, 1.0);\n\
}\n";

const FRAGMENT_SOURCE: &str = "#version 410 core\n\
uniform float fTime;\n\
uniform ivec2 iResolution;\n\
out vec4 Color;\n\
void main()\n\
{\n\
    vec2 uv = gl_FragCoord.xy / vec2(iResolution);\n\
    Color = vec4(uv, 0.5 + 0.5 * sin(fTime), 1.0);\n\
}\n";

/// A fragment stage that reads an input no vertex stage here writes.
const ORPHAN_FRAGMENT_SOURCE: &str = "#version 410 core\n\
in vec3 Tint;\n\
out vec4 Color;\n\
void main()\n\
{\n\
    Color = vec4(Tint, 1.0);\n\
}\n";

const BROKEN_SOURCE: &str = "#version 410 core\nvoid main( {\n";

struct Shader {
    kind: StageKind,
    source: String,
    compiled: bool,
    log: String,
    doomed: bool,
}

struct Linked {
    attached: Vec<u32>,
    log: String,
    uniforms: Vec<String>,
}

/// The device: hands out names in order, compiles by counting brackets,
/// links a vertex and a fragment stage whose interfaces agree.
struct Device {
    next: u32,
    exhausted: bool,
    shaders: HashMap<u32, Shader>,
    programs: HashMap<u32, Linked>,
    linked: HashMap<u32, bool>,
    active: u32,
    flags: Vec<u32>,
    history: Vec<Command>,
    times: Vec<u64>,
    draws: u32,
    presents: u32,
}

fn words(text: &str) -> Vec<String> {
    text.split(|c: char| !(c.is_alphanumeric() || c == '_'))
        .filter(|w| !w.is_empty())
        .map(|w| w.to_string())
        .collect()
}

/// Names declared with the given qualifier at the start of a line.
fn declared(source: &str, qualifier: &str) -> Vec<String> {
    let mut names = Vec::new();
    for line in source.lines() {
        let w = words(line);
        if w.len() >= 3 && w[0] == qualifier {
            names.push(w[2].clone());
        }
    }
    names
}

fn balanced(source: &str) -> bool {
    let mut depth: i32 = 0;
    for c in source.chars() {
        if c == '(' || c == '{' {
            depth += 1;
        }
        if c == ')' || c == '}' {
            depth -= 1;
        }
        if depth < 0 {
            return false;
        }
    }
    depth == 0 && source.contains("main")
}

impl Device {
    fn new() -> Device {
        Device {
            next: 1,
            exhausted: false,
            shaders: HashMap::new(),
            programs: HashMap::new(),
            linked: HashMap::new(),
            active: 0,
            flags: Vec::new(),
            history: Vec::new(),
            times: Vec::new(),
            draws: 0,
            presents: 0,
        }
    }

    fn objects(&self) -> usize {
        self.shaders.len() + self.programs.len()
    }

    fn fresh(&mut self) -> u32 {
        if self.exhausted {
            return 0;
        }
        let name = self.next;
        self.next += 1;
        name
    }

    fn held(&self, shader: u32) -> bool {
        self.programs.values().any(|p| p.attached.contains(&shader))
    }

    fn clipped(log: &str, capacity: usize) -> String {
        // The buffer holds the text and its terminator.
        log.chars().take(capacity.saturating_sub(1)).collect()
    }

    fn perform(&mut self, command: Command) -> Reply {
        self.history.push(command.clone());
        match command {
            Command::CreateShader { kind } => {
                let name = self.fresh();
                if name != 0 {
                    self.shaders.insert(
                        name,
                        Shader {
                            kind,
                            source: String::new(),
                            compiled: false,
                            log: String::new(),
                            doomed: false,
                        },
                    );
                }
                Reply::Handle(name)
            }
            Command::ShaderSource { shader, source } => {
                self.shaders.get_mut(&shader).expect("live shader").source = source;
                Reply::Done
            }
            Command::CompileShader { shader } => {
                let s = self.shaders.get_mut(&shader).expect("live shader");
                s.compiled = balanced(&s.source);
                s.log = if s.compiled {
                    String::new()
                } else {
                    "0:2(12): error: syntax error, unexpected '{'".to_string()
                };
                Reply::Done
            }
            Command::QueryCompileStatus { shader } => {
                Reply::Value(if self.shaders[&shader].compiled { 1 } else { 0 })
            }
            Command::QueryShaderLogLength { shader } => {
                let log = &self.shaders[&shader].log;
                Reply::Value(if log.is_empty() { 0 } else { log.len() as i32 + 1 })
            }
            Command::FetchShaderLog { shader, capacity } => {
                Reply::Text(Device::clipped(&self.shaders[&shader].log, capacity))
            }
            Command::DeleteShader { shader } => {
                if self.held(shader) {
                    self.shaders.get_mut(&shader).expect("live shader").doomed = true;
                } else {
                    assert!(self.shaders.remove(&shader).is_some(), "shader released twice");
                }
                Reply::Done
            }
            Command::CreateProgram => {
                let name = self.fresh();
                if name != 0 {
                    self.programs.insert(
                        name,
                        Linked { attached: Vec::new(), log: String::new(), uniforms: Vec::new() },
                    );
                    self.linked.insert(name, false);
                }
                Reply::Handle(name)
            }
            Command::AttachShader { program, shader } => {
                assert!(self.shaders.contains_key(&shader));
                self.programs.get_mut(&program).expect("live program").attached.push(shader);
                Reply::Done
            }
            Command::LinkProgram { program } => {
                let attached = self.programs[&program].attached.clone();
                let mut written = Vec::new();
                let mut read = Vec::new();
                let mut uniforms = Vec::new();
                let mut vertex = 0;
                let mut fragment = 0;
                for name in attached.iter() {
                    let s = &self.shaders[name];
                    uniforms.extend(declared(&s.source, "uniform"));
                    match s.kind {
                        StageKind::Vertex => {
                            vertex += 1;
                            written.extend(declared(&s.source, "out"));
                        }
                        StageKind::Fragment => {
                            fragment += 1;
                            read.extend(declared(&s.source, "in"));
                        }
                    }
                }
                let missing: Vec<&String> = read.iter().filter(|n| !written.contains(n)).collect();
                let p = self.programs.get_mut(&program).expect("live program");
                if vertex == 1 && fragment == 1 && missing.is_empty() {
                    p.uniforms = uniforms;
                    p.log = String::new();
                    self.linked.insert(program, true);
                } else {
                    p.log = "error: fragment shader input has no matching output".to_string();
                    self.linked.insert(program, false);
                }
                Reply::Done
            }
            Command::QueryLinkStatus { program } => {
                Reply::Value(if self.linked[&program] { 1 } else { 0 })
            }
            Command::QueryProgramLogLength { program } => {
                let log = &self.programs[&program].log;
                Reply::Value(if log.is_empty() { 0 } else { log.len() as i32 + 1 })
            }
            Command::FetchProgramLog { program, capacity } => {
                Reply::Text(Device::clipped(&self.programs[&program].log, capacity))
            }
            Command::DetachShader { program, shader } => {
                let p = self.programs.get_mut(&program).expect("live program");
                p.attached.retain(|s| *s != shader);
                if self.shaders[&shader].doomed && !self.held(shader) {
                    self.shaders.remove(&shader);
                }
                Reply::Done
            }
            Command::DeleteProgram { program } => {
                assert!(self.programs.remove(&program).is_some(), "program released twice");
                self.linked.remove(&program);
                Reply::Done
            }
            Command::UseProgram { program } => {
                assert!(self.programs.contains_key(&program));
                self.active = program;
                Reply::Done
            }
            Command::QueryUniformLocation { program, name } => {
                let found = self.programs[&program].uniforms.iter().position(|u| *u == name);
                Reply::Value(match found {
                    Some(at) => at as i32,
                    None => -1,
                })
            }
            Command::SetTime { elapsed, .. } => {
                self.times.push(elapsed);
                Reply::Done
            }
            Command::DrawTriangles { .. } => {
                self.draws += 1;
                Reply::Done
            }
            Command::Present => {
                self.presents += 1;
                Reply::Done
            }
            Command::QueryError => {
                if self.flags.is_empty() {
                    Reply::Code(0)
                } else {
                    Reply::Code(self.flags.remove(0))
                }
            }
            Command::ClearColorBuffer
            | Command::SetResolution { .. }
            | Command::BindGeometry => Reply::Done,
        }
    }
}

fn run_compile(device: &mut Device, source: &str, kind: StageKind) -> Result<ShaderStage, CompileError> {
    let mut step = compile(source.to_string(), kind);
    loop {
        match step {
            CompileStep::Issue(job, command) => {
                let reply = device.perform(command);
                step = job.step(reply);
            }
            CompileStep::Finished(outcome) => return outcome,
        }
    }
}

fn run_link(device: &mut Device, stages: Vec<ShaderStage>) -> Result<Program, LinkError> {
    let mut step = link(stages);
    loop {
        match step {
            LinkStep::Issue(job, command) => {
                let reply = device.perform(command);
                step = job.step(reply);
            }
            LinkStep::Finished(outcome) => return outcome,
        }
    }
}

fn locate(device: &mut Device, program: &mut Program, name: &str) -> i32 {
    match program.uniform_location(name) {
        UniformLookup::Known(location) => location,
        UniformLookup::Ask(command) => {
            let reply = device.perform(command);
            program.record_location(name, &reply)
        }
    }
}

fn run_prepare(device: &mut Device, program: Program, width: i32, height: i32, start: u64) -> RenderLoop {
    let mut step = RenderLoop::prepare(program, width, height, start).expect("live program");
    loop {
        match step {
            PrepareStep::Issue(preparation, command) => {
                let reply = device.perform(command);
                step = preparation.step(reply);
            }
            PrepareStep::Ready(render) => return render,
        }
    }
}

fn linked_pair(device: &mut Device) -> Program {
    let vertex = run_compile(device, VERTEX_SOURCE, StageKind::Vertex).expect("vertex stage");
    let fragment = run_compile(device, FRAGMENT_SOURCE, StageKind::Fragment).expect("fragment stage");
    run_link(device, vec![vertex, fragment]).expect("program")
}

#[test]
fn compile_issues_create_submit_compile_query() {
    let mut device = Device::new();
    let stage = run_compile(&mut device, VERTEX_SOURCE, StageKind::Vertex).expect("stage");
    assert_eq!(stage.kind(), StageKind::Vertex);
    assert_eq!(stage.handle(), 1);
    assert_eq!(
        device.history,
        vec![
            Command::CreateShader { kind: StageKind::Vertex },
            Command::ShaderSource { shader: 1, source: VERTEX_SOURCE.to_string() },
            Command::CompileShader { shader: 1 },
            Command::QueryCompileStatus { shader: 1 },
        ]
    );
    assert_eq!(device.shaders.len(), 1);
    assert_eq!(device.shaders[&1].source, VERTEX_SOURCE);
}

#[test]
fn compile_of_invalid_source_reports_log_and_retains_nothing() {
    let mut device = Device::new();
    let before = device.objects();
    let error = run_compile(&mut device, BROKEN_SOURCE, StageKind::Fragment).expect_err("rejected");
    assert_eq!(error.stage_kind, StageKind::Fragment);
    assert_eq!(error.log, "0:2(12): error: syntax error, unexpected '{'");
    assert!(!error.log.is_empty());
    assert_eq!(device.objects(), before);
    let log_bytes = error.log.len() + 1;
    assert_eq!(
        device.history,
        vec![
            Command::CreateShader { kind: StageKind::Fragment },
            Command::ShaderSource { shader: 1, source: BROKEN_SOURCE.to_string() },
            Command::CompileShader { shader: 1 },
            Command::QueryCompileStatus { shader: 1 },
            Command::QueryShaderLogLength { shader: 1 },
            Command::FetchShaderLog { shader: 1, capacity: log_bytes },
            Command::DeleteShader { shader: 1 },
        ]
    );
}

#[test]
fn compile_without_shader_object_fails_with_empty_log() {
    let mut device = Device::new();
    device.exhausted = true;
    let error = run_compile(&mut device, VERTEX_SOURCE, StageKind::Vertex).expect_err("no object");
    assert_eq!(error, CompileError { stage_kind: StageKind::Vertex, log: String::new() });
    assert_eq!(device.history, vec![Command::CreateShader { kind: StageKind::Vertex }]);
    assert_eq!(device.objects(), 0);
}

#[test]
fn compile_reads_a_reply_of_another_shape_as_failure() {
    let first = compile("void main() {}".to_string(), StageKind::Vertex);
    let job = match first {
        CompileStep::Issue(job, _) => job,
        CompileStep::Finished(_) => panic!("finished before it began"),
    };
    // A text where a handle is due names no object.
    match job.step(Reply::Text("7".to_string())) {
        CompileStep::Finished(Err(error)) => assert_eq!(error.log, ""),
        _ => panic!("a compilation without a shader object went on"),
    }
}

#[test]
fn compile_asks_for_no_buffer_when_the_log_is_empty() {
    let mut step = compile("x".to_string(), StageKind::Vertex);
    let replies = vec![
        Reply::Handle(4),
        Reply::Done,
        Reply::Done,
        Reply::Value(0),
        Reply::Value(-3),
        Reply::Text(String::new()),
        Reply::Done,
    ];
    let mut issued = Vec::new();
    for reply in replies {
        step = match step {
            CompileStep::Issue(job, command) => {
                issued.push(command);
                job.step(reply)
            }
            CompileStep::Finished(_) => panic!("finished early"),
        };
    }
    assert_eq!(issued[5], Command::FetchShaderLog { shader: 4, capacity: 0 });
    assert_eq!(issued[6], Command::DeleteShader { shader: 4 });
    match step {
        CompileStep::Finished(Err(error)) => {
            assert_eq!(error, CompileError { stage_kind: StageKind::Vertex, log: String::new() })
        }
        _ => panic!("not finished"),
    }
}

#[test]
fn stage_released_directly_deletes_its_shader() {
    let mut device = Device::new();
    let stage = run_compile(&mut device, VERTEX_SOURCE, StageKind::Vertex).expect("stage");
    let command = stage.release();
    assert_eq!(command, Command::DeleteShader { shader: 1 });
    device.perform(command);
    assert_eq!(device.objects(), 0);
}

#[test]
fn link_of_valid_pair_yields_program_and_releases_stages() {
    let mut device = Device::new();
    let program = linked_pair(&mut device);
    assert_eq!(program.handle(), 3);
    assert!(program.is_live());
    assert!(device.shaders.is_empty());
    assert_eq!(device.programs.len(), 1);
    assert!(device.programs[&3].attached.is_empty());
    let link_commands: Vec<Command> = device.history[8..].to_vec();
    assert_eq!(
        link_commands,
        vec![
            Command::CreateProgram,
            Command::AttachShader { program: 3, shader: 1 },
            Command::AttachShader { program: 3, shader: 2 },
            Command::LinkProgram { program: 3 },
            Command::QueryLinkStatus { program: 3 },
            Command::DetachShader { program: 3, shader: 1 },
            Command::DeleteShader { shader: 1 },
            Command::DetachShader { program: 3, shader: 2 },
            Command::DeleteShader { shader: 2 },
        ]
    );
}

#[test]
fn link_of_mismatched_stages_reports_log_and_releases_everything() {
    let mut device = Device::new();
    let vertex = run_compile(&mut device, VERTEX_SOURCE, StageKind::Vertex).expect("vertex stage");
    let fragment =
        run_compile(&mut device, ORPHAN_FRAGMENT_SOURCE, StageKind::Fragment).expect("fragment stage");
    assert_eq!(device.objects(), 2);
    let error = run_link(&mut device, vec![vertex, fragment]).expect_err("rejected");
    assert_eq!(error.log, "error: fragment shader input has no matching output");
    assert!(device.shaders.is_empty());
    assert!(device.programs.is_empty());
    let log_bytes = error.log.len() + 1;
    let link_commands: Vec<Command> = device.history[8..].to_vec();
    assert_eq!(
        link_commands,
        vec![
            Command::CreateProgram,
            Command::AttachShader { program: 3, shader: 1 },
            Command::AttachShader { program: 3, shader: 2 },
            Command::LinkProgram { program: 3 },
            Command::QueryLinkStatus { program: 3 },
            Command::QueryProgramLogLength { program: 3 },
            Command::FetchProgramLog { program: 3, capacity: log_bytes },
            Command::DetachShader { program: 3, shader: 1 },
            Command::DeleteShader { shader: 1 },
            Command::DetachShader { program: 3, shader: 2 },
            Command::DeleteShader { shader: 2 },
            Command::DeleteProgram { program: 3 },
        ]
    );
}

#[test]
fn link_without_program_object_still_releases_the_stages() {
    let mut device = Device::new();
    let vertex = run_compile(&mut device, VERTEX_SOURCE, StageKind::Vertex).expect("vertex stage");
    let fragment = run_compile(&mut device, FRAGMENT_SOURCE, StageKind::Fragment).expect("fragment stage");
    device.exhausted = true;
    let error = run_link(&mut device, vec![vertex, fragment]).expect_err("no object");
    assert_eq!(error, LinkError { log: String::new() });
    assert_eq!(device.objects(), 0);
    let link_commands: Vec<Command> = device.history[8..].to_vec();
    assert_eq!(
        link_commands,
        vec![
            Command::CreateProgram,
            Command::DeleteShader { shader: 1 },
            Command::DeleteShader { shader: 2 },
        ]
    );
}

#[test]
fn link_of_a_single_stage_goes_through_the_same_steps() {
    let mut device = Device::new();
    let vertex = run_compile(&mut device, VERTEX_SOURCE, StageKind::Vertex).expect("vertex stage");
    let error = run_link(&mut device, vec![vertex]).expect_err("a vertex stage alone");
    assert!(!error.log.is_empty());
    assert_eq!(device.objects(), 0);
    assert_eq!(device.history.len(), 4 + 9);
}

#[test]
fn uniform_locations_of_the_linked_pair() {
    let mut device = Device::new();
    let mut program = linked_pair(&mut device);
    let time = locate(&mut device, &mut program, "fTime");
    let resolution = locate(&mut device, &mut program, "iResolution");
    let absent = locate(&mut device, &mut program, "doesNotExist");
    assert!(time >= 0);
    assert!(resolution >= 0);
    assert_ne!(time, resolution);
    assert_eq!(absent, -1);
}

#[test]
fn uniform_location_is_asked_once_and_then_remembered() {
    let mut device = Device::new();
    let mut program = linked_pair(&mut device);
    assert_eq!(program.cached_location("fTime"), None);
    assert_eq!(
        program.uniform_location("fTime"),
        UniformLookup::Ask(Command::QueryUniformLocation { program: 3, name: "fTime".to_string() })
    );
    let asked = device.history.len();
    let first = locate(&mut device, &mut program, "fTime");
    assert_eq!(device.history.len(), asked + 1);
    assert_eq!(program.uniform_location("fTime"), UniformLookup::Known(first));
    assert_eq!(program.cached_location("fTime"), Some(first));
    let second = locate(&mut device, &mut program, "fTime");
    assert_eq!(second, first);
    assert_eq!(device.history.len(), asked + 1);
    // The first answer stands, whatever is recorded later.
    assert_eq!(program.record_location("fTime", &Reply::Value(41)), first);
    // An absent uniform is remembered as absent.
    assert_eq!(program.record_location("nowhere", &Reply::Value(-7)), -1);
    assert_eq!(program.uniform_location("nowhere"), UniformLookup::Known(-1));
    assert_eq!(program.record_location("shapeless", &Reply::Done), -1);
}

#[test]
fn activate_names_the_program() {
    let mut device = Device::new();
    let program = linked_pair(&mut device);
    assert_eq!(program.activate(), Some(Command::UseProgram { program: 3 }));
    device.perform(program.activate().expect("live program"));
    assert_eq!(device.active, 3);
}

#[test]
fn release_twice_deletes_once() {
    let mut device = Device::new();
    let mut program = linked_pair(&mut device);
    let first = program.release();
    assert_eq!(first, Some(Command::DeleteProgram { program: 3 }));
    device.perform(first.expect("first release"));
    assert!(!program.is_live());
    assert_eq!(program.release(), None);
    assert_eq!(program.release(), None);
    assert_eq!(device.objects(), 0);
    // The handle stays what it was; nothing is issued for a released program.
    assert_eq!(program.handle(), 3);
    assert_eq!(program.activate(), None);
    assert_eq!(program.uniform_location("fTime"), UniformLookup::Known(-1));
    assert_eq!(program.record_location("fTime", &Reply::Value(2)), -1);
}

#[test]
fn release_of_a_program_never_activated() {
    let mut device = Device::new();
    let mut program = linked_pair(&mut device);
    device.perform(program.release().expect("release"));
    assert_eq!(device.active, 0);
    assert_eq!(device.objects(), 0);
}

#[test]
fn render_loop_refuses_a_released_program() {
    let mut device = Device::new();
    let mut program = linked_pair(&mut device);
    program.release();
    assert!(RenderLoop::new(program, 800, 600, 0).is_none());
}

#[test]
fn prepare_looks_both_uniforms_up_once() {
    let mut device = Device::new();
    let program = linked_pair(&mut device);
    let asked = device.history.len();
    let render = run_prepare(&mut device, program, 800, 600, 0);
    assert_eq!(
        device.history[asked..].to_vec(),
        vec![
            Command::QueryUniformLocation { program: 3, name: "fTime".to_string() },
            Command::QueryUniformLocation { program: 3, name: "iResolution".to_string() },
            Command::UseProgram { program: 3 },
        ]
    );
    assert_eq!(device.active, 3);
    assert_eq!(render.state(), LoopState::Running);
    assert_eq!(render.frames(), 0);
    assert_eq!(render.program().cached_location("fTime"), Some(0));
    assert_eq!(render.program().cached_location("iResolution"), Some(1));

    // A program that remembers both is not asked again.
    let program = render.into_program();
    let asked = device.history.len();
    let mut render = run_prepare(&mut device, program, 800, 600, 0);
    assert_eq!(device.history[asked..].to_vec(), vec![Command::UseProgram { program: 3 }]);
    let commands = render.frame(&[], 7);
    assert_eq!(commands[1], Command::SetTime { location: 0, elapsed: 7 });
    assert_eq!(commands[2], Command::SetResolution { location: 1, width: 800, height: 600 });
}

#[test]
fn prepare_asks_only_for_what_the_program_does_not_remember() {
    let mut device = Device::new();
    let mut program = linked_pair(&mut device);
    locate(&mut device, &mut program, TIME_UNIFORM);
    let asked = device.history.len();
    run_prepare(&mut device, program, 800, 600, 0);
    assert_eq!(
        device.history[asked..].to_vec(),
        vec![
            Command::QueryUniformLocation { program: 3, name: "iResolution".to_string() },
            Command::UseProgram { program: 3 },
        ]
    );
}

#[test]
fn prepare_refuses_a_released_program() {
    let mut device = Device::new();
    let mut program = linked_pair(&mut device);
    program.release();
    assert!(RenderLoop::prepare(program, 800, 600, 0).is_none());
}

#[test]
fn frame_issues_the_draw_sequence() {
    let mut device = Device::new();
    let mut program = linked_pair(&mut device);
    let time = locate(&mut device, &mut program, TIME_UNIFORM);
    let resolution = locate(&mut device, &mut program, RESOLUTION_UNIFORM);
    let mut render = RenderLoop::new(program, 800, 600, 1_000).expect("live program");
    let commands = render.frame(&[InputEvent::Other, InputEvent::Other], 3_500);
    assert_eq!(
        commands,
        vec![
            Command::ClearColorBuffer,
            Command::SetTime { location: time, elapsed: 2_500 },
            Command::SetResolution { location: resolution, width: 800, height: 600 },
            Command::UseProgram { program: 3 },
            Command::BindGeometry,
            Command::DrawTriangles { first: 0, count: 6 },
            Command::Present,
        ]
    );
    assert_eq!(render.frames(), 1);
    assert_eq!(render.state(), LoopState::Running);
    assert_eq!(render.frame_state().elapsed, 2_500);
    assert_eq!(render.frame_state().width, 800);
    assert_eq!(render.frame_state().height, 600);
    assert_eq!(render.program().handle(), 3);
}

#[test]
fn frame_without_lookups_sets_absent_uniforms() {
    let mut device = Device::new();
    let program = linked_pair(&mut device);
    let mut render = RenderLoop::new(program, 640, 480, 0).expect("live program");
    let commands = render.frame(&[], 10);
    assert_eq!(commands[1], Command::SetTime { location: -1, elapsed: 10 });
    assert_eq!(commands[2], Command::SetResolution { location: -1, width: 640, height: 480 });
}

#[test]
fn quit_aborts_the_frame_and_is_final() {
    let mut device = Device::new();
    let program = linked_pair(&mut device);
    let mut render = RenderLoop::new(program, 800, 600, 0).expect("live program");
    assert_eq!(render.frame(&[InputEvent::Other], 5).len(), 7);
    let aborted = render.frame(&[InputEvent::Other, InputEvent::Quit, InputEvent::Other], 9);
    assert!(aborted.is_empty());
    assert_eq!(render.state(), LoopState::Terminating);
    assert_eq!(render.frames(), 1);
    assert_eq!(render.frame_state().elapsed, 5);
    // Terminating is terminal.
    assert!(render.frame(&[], 20).is_empty());
    assert_eq!(render.state(), LoopState::Terminating);
    assert_eq!(render.frames(), 1);
    assert_eq!(render.frame_state().elapsed, 5);
}

#[test]
fn elapsed_time_never_goes_back() {
    let mut device = Device::new();
    let program = linked_pair(&mut device);
    let mut render = RenderLoop::new(program, 800, 600, 100).expect("live program");
    let readings: Vec<u64> = vec![100, 150, 140, 90, 150, 4_000, 3_999, 4_001];
    let expected: Vec<u64> = vec![0, 50, 50, 50, 50, 3_900, 3_900, 3_901];
    let mut last = 0;
    for (now, want) in readings.iter().zip(expected.iter()) {
        for command in render.frame(&[], *now) {
            device.perform(command);
        }
        let elapsed = render.frame_state().elapsed;
        assert_eq!(elapsed, *want);
        assert!(elapsed >= last);
        last = elapsed;
    }
    assert_eq!(device.times, expected);
}

#[test]
fn end_to_end_quit_after_n_frames() {
    let frames: u64 = 5;
    let mut device = Device::new();

    let vertex = run_compile(&mut device, VERTEX_SOURCE, StageKind::Vertex);
    let fragment = run_compile(&mut device, FRAGMENT_SOURCE, StageKind::Fragment);
    let (vertex, fragment) = match (vertex, fragment) {
        (Ok(v), Ok(f)) => (v, f),
        _ => panic!("the embedded sources compile without diagnostics"),
    };
    assert_ne!(vertex.handle(), 0);
    assert_ne!(fragment.handle(), 0);

    let program = run_link(&mut device, vec![vertex, fragment]).expect("program");
    assert_ne!(program.handle(), 0);

    let mut render = run_prepare(&mut device, program, 800, 600, 0);
    let mut clock: u64 = 0;
    let mut rounds = 0;
    while render.state() == LoopState::Running {
        let events = if render.frames() == frames {
            vec![InputEvent::Quit]
        } else {
            vec![InputEvent::Other]
        };
        clock += 16_000_000;
        for command in render.frame(&events, clock) {
            device.perform(command);
        }
        rounds += 1;
    }
    assert_eq!(render.state(), LoopState::Terminating);
    assert_eq!(render.frames(), frames);
    assert_eq!(rounds, frames + 1);
    assert_eq!(device.draws, 5);
    assert_eq!(device.presents, 5);
    assert_eq!(device.active, 3);
    assert_eq!(device.times, vec![16_000_000, 32_000_000, 48_000_000, 64_000_000, 80_000_000]);

    let mut program = render.into_program();
    device.perform(program.release().expect("live program"));
    assert_eq!(device.objects(), 0);

    let outcome: Result<(), SetupError> = Ok(());
    assert_eq!(exit_code(&outcome), 0);
}
