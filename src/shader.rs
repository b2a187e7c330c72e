//! Building a program from a vertex and a fragment stage, as a sequence of commands to
//! the graphics context and the reports that come back.

use vstd::prelude::*;
use vstd::string::{StringExecFns, StringSliceAdditionalSpecFns};
use vstd::utf8::{decode_utf8, valid_utf8};
use crate::text::{c_string, has_nul, log_string, log_text, nul_terminated};

verus! {

/// A compiled and linked graphics program, identified by its handle.
#[derive(Debug)]
pub struct Shader {
    id: u32,
}

impl View for Shader {
    type V = u32;

    closed spec fn view(&self) -> u32 {
        self.id
    }
}

impl Shader {
    /// The program handle that the graphics context assigned.
    pub fn id(&self) -> (r: u32)
        ensures
            r == self@,
    {
        self.id
    }
}

/// One of the two programmable stages that a program is built from.
#[derive(Clone, Copy, PartialEq, Eq, Structural, Debug)]
pub enum Stage {
    Vertex,
    Fragment,
}

/// Why a program could not be built.
#[derive(Debug)]
pub enum ShaderError {
    /// The stage's source holds a NUL byte, which the driver cannot take.
    NulInSource { stage: Stage },
    /// The stage failed to compile; `log` is the compiler's own output.
    Compile { stage: Stage, log: String },
    /// The stage failed to compile, and the compiler's output is not UTF-8.
    CompileLogUnreadable { stage: Stage },
    /// The stages failed to link; `log` is the linker's own output.
    Link { log: String },
    /// The stages failed to link, and the linker's output is not UTF-8.
    LinkLogUnreadable,
}

/// A `ShaderError` with its logs as character sequences.
pub enum ErrorView {
    NulInSource { stage: Stage },
    Compile { stage: Stage, log: Seq<char> },
    CompileLogUnreadable { stage: Stage },
    Link { log: Seq<char> },
    LinkLogUnreadable,
}

impl View for ShaderError {
    type V = ErrorView;

    open spec fn view(&self) -> ErrorView {
        match self {
            ShaderError::NulInSource { stage } => ErrorView::NulInSource { stage: *stage },
            ShaderError::Compile { stage, log } => ErrorView::Compile { stage: *stage, log: log@ },
            ShaderError::CompileLogUnreadable { stage } => ErrorView::CompileLogUnreadable {
                stage: *stage,
            },
            ShaderError::Link { log } => ErrorView::Link { log: log@ },
            ShaderError::LinkLogUnreadable => ErrorView::LinkLogUnreadable,
        }
    }
}

/// The word that names a stage in a diagnostic.
pub open spec fn stage_name(stage: Stage) -> Seq<char> {
    match stage {
        Stage::Vertex => "vertex"@,
        Stage::Fragment => "fragment"@,
    }
}

/// The diagnostic text of an error.
pub open spec fn message_of(e: ErrorView) -> Seq<char> {
    match e {
        ErrorView::NulInSource { stage } => stage_name(stage) + " shader source holds a NUL byte"@,
        ErrorView::Compile { stage, log } => stage_name(stage) + " shader failed to compile: "@
            + log,
        ErrorView::CompileLogUnreadable { stage } => stage_name(stage)
            + " shader failed to compile; its log is not UTF-8"@,
        ErrorView::Link { log } => "shader program failed to link: "@ + log,
        ErrorView::LinkLogUnreadable => "shader program failed to link; its log is not UTF-8"@,
    }
}

fn stage_label(stage: Stage) -> (r: String)
    ensures
        r@ == stage_name(stage),
{
    match stage {
        Stage::Vertex => String::from_str("vertex"),
        Stage::Fragment => String::from_str("fragment"),
    }
}

impl ShaderError {
    /// A human-readable diagnostic, carrying the driver's log where there is one.
    pub fn message(&self) -> (r: String)
        ensures
            r@ == message_of(self@),
    {
        match self {
            ShaderError::NulInSource { stage } => {
                let mut s = stage_label(*stage);
                s.append(" shader source holds a NUL byte");
                s
            },
            ShaderError::Compile { stage, log } => {
                let mut s = stage_label(*stage);
                s.append(" shader failed to compile: ");
                s.append(log.as_str());
                s
            },
            ShaderError::CompileLogUnreadable { stage } => {
                let mut s = stage_label(*stage);
                s.append(" shader failed to compile; its log is not UTF-8");
                s
            },
            ShaderError::Link { log } => {
                let mut s = String::from_str("shader program failed to link: ");
                s.append(log.as_str());
                s
            },
            ShaderError::LinkLogUnreadable => String::from_str(
                "shader program failed to link; its log is not UTF-8",
            ),
        }
    }
}

/// What the graphics context is asked to do next while a program is built.
#[derive(Debug)]
pub enum Command {
    /// Hand `source` (NUL-terminated) to shader object `shader` and compile it.
    Compile { shader: u32, source: Vec<u8> },
    /// Attach both shader objects to a new program and link it.
    Link { vertex: u32, fragment: u32 },
    /// The program is linked: release both shader objects and keep `program`.
    Finish { program: Shader, vertex: u32, fragment: u32 },
    /// Building failed; no program is produced.
    Fail { error: ShaderError },
}

/// A `Command` with its source as a byte sequence and its program as a handle.
pub enum CommandView {
    Compile { shader: u32, source: Seq<u8> },
    Link { vertex: u32, fragment: u32 },
    Finish { program: u32, vertex: u32, fragment: u32 },
    Fail { error: ErrorView },
}

impl View for Command {
    type V = CommandView;

    open spec fn view(&self) -> CommandView {
        match self {
            Command::Compile { shader, source } => CommandView::Compile {
                shader: *shader,
                source: source@,
            },
            Command::Link { vertex, fragment } => CommandView::Link {
                vertex: *vertex,
                fragment: *fragment,
            },
            Command::Finish { program, vertex, fragment } => CommandView::Finish {
                program: program@,
                vertex: *vertex,
                fragment: *fragment,
            },
            Command::Fail { error } => CommandView::Fail { error: error@ },
        }
    }
}

/// What the graphics context answered to the last command.
#[derive(Debug)]
pub enum Report {
    /// The compile status of the shader object, and its log buffer as the driver filled it.
    Compiled { success: bool, log: Vec<u8> },
    /// The program handle, its link status, and its log buffer as the driver filled it.
    Linked { program: u32, success: bool, log: Vec<u8> },
}

/// A `Report` with its log buffer as a byte sequence.
pub enum ReportView {
    Compiled { success: bool, log: Seq<u8> },
    Linked { program: u32, success: bool, log: Seq<u8> },
}

impl View for Report {
    type V = ReportView;

    open spec fn view(&self) -> ReportView {
        match self {
            Report::Compiled { success, log } => ReportView::Compiled {
                success: *success,
                log: log@,
            },
            Report::Linked { program, success, log } => ReportView::Linked {
                program: *program,
                success: *success,
                log: log@,
            },
        }
    }
}

/// The progress of building a program from a vertex and a fragment stage.
#[derive(Debug)]
pub enum ShaderBuild {
    /// The vertex stage is being compiled; the fragment source is kept as the
    /// driver will take it, or `None` where it holds a NUL.
    CompilingVertex { vertex: u32, fragment: u32, fragment_source: Option<Vec<u8>> },
    CompilingFragment { vertex: u32, fragment: u32 },
    Linking { vertex: u32, fragment: u32 },
    Over,
}

/// A `ShaderBuild` with the kept fragment source as a byte sequence.
pub enum BuildView {
    CompilingVertex { vertex: u32, fragment: u32, fragment_source: Option<Seq<u8>> },
    CompilingFragment { vertex: u32, fragment: u32 },
    Linking { vertex: u32, fragment: u32 },
    Over,
}

impl View for ShaderBuild {
    type V = BuildView;

    open spec fn view(&self) -> BuildView {
        match self {
            ShaderBuild::CompilingVertex { vertex, fragment, fragment_source } =>
                BuildView::CompilingVertex {
                vertex: *vertex,
                fragment: *fragment,
                fragment_source: match fragment_source {
                    Some(s) => Some(s@),
                    None => None,
                },
            },
            ShaderBuild::CompilingFragment { vertex, fragment } => BuildView::CompilingFragment {
                vertex: *vertex,
                fragment: *fragment,
            },
            ShaderBuild::Linking { vertex, fragment } => BuildView::Linking {
                vertex: *vertex,
                fragment: *fragment,
            },
            ShaderBuild::Over => BuildView::Over,
        }
    }
}

/// A source as the driver takes it, or `None` where it holds a NUL.
pub open spec fn c_source(src: Seq<u8>) -> Option<Seq<u8>> {
    if has_nul(src) {
        None
    } else {
        Some(nul_terminated(src))
    }
}

/// The error for a stage that failed to compile with log buffer `buf`.
pub open spec fn compile_failure(stage: Stage, buf: Seq<u8>) -> ErrorView {
    if valid_utf8(log_text(buf)) {
        ErrorView::Compile { stage, log: decode_utf8(log_text(buf)) }
    } else {
        ErrorView::CompileLogUnreadable { stage }
    }
}

/// The error for a program that failed to link with log buffer `buf`.
pub open spec fn link_failure(buf: Seq<u8>) -> ErrorView {
    if valid_utf8(log_text(buf)) {
        ErrorView::Link { log: decode_utf8(log_text(buf)) }
    } else {
        ErrorView::LinkLogUnreadable
    }
}

/// The first state and command of a build from the two sources and the two
/// shader objects created for them.
pub open spec fn start_spec(vertex_src: Seq<u8>, fragment_src: Seq<u8>, vertex: u32, fragment: u32) -> (
    BuildView,
    CommandView,
) {
    match c_source(vertex_src) {
        None => (
            BuildView::Over,
            CommandView::Fail { error: ErrorView::NulInSource { stage: Stage::Vertex } },
        ),
        Some(source) => (
            BuildView::CompilingVertex { vertex, fragment, fragment_source: c_source(fragment_src) },
            CommandView::Compile { shader: vertex, source },
        ),
    }
}

/// True when `state` waits for a report of the kind of `report`.
pub open spec fn awaits(state: BuildView, report: ReportView) -> bool {
    match state {
        BuildView::CompilingVertex { .. } => report is Compiled,
        BuildView::CompilingFragment { .. } => report is Compiled,
        BuildView::Linking { .. } => report is Linked,
        BuildView::Over => false,
    }
}

/// The next state and command once `report` has come in.
pub open spec fn advance_spec(state: BuildView, report: ReportView) -> (BuildView, CommandView) {
    match (state, report) {
        (
            BuildView::CompilingVertex { vertex, fragment, fragment_source },
            ReportView::Compiled { success, log },
        ) => if !success {
            (BuildView::Over, CommandView::Fail { error: compile_failure(Stage::Vertex, log) })
        } else {
            match fragment_source {
                None => (
                    BuildView::Over,
                    CommandView::Fail { error: ErrorView::NulInSource { stage: Stage::Fragment } },
                ),
                Some(source) => (
                    BuildView::CompilingFragment { vertex, fragment },
                    CommandView::Compile { shader: fragment, source },
                ),
            }
        },
        (BuildView::CompilingFragment { vertex, fragment }, ReportView::Compiled { success, log }) =>
            if !success {
            (BuildView::Over, CommandView::Fail { error: compile_failure(Stage::Fragment, log) })
        } else {
            (BuildView::Linking { vertex, fragment }, CommandView::Link { vertex, fragment })
        },
        (BuildView::Linking { vertex, fragment }, ReportView::Linked { program, success, log }) =>
            if !success {
            (BuildView::Over, CommandView::Fail { error: link_failure(log) })
        } else {
            (BuildView::Over, CommandView::Finish { program, vertex, fragment })
        },
        // A report that the state does not await has no step of its own.
        _ => (state, CommandView::Fail { error: ErrorView::LinkLogUnreadable }),
    }
}

fn compile_fault(stage: Stage, log: &Vec<u8>) -> (r: ShaderError)
    ensures
        r@ == compile_failure(stage, log@),
{
    match log_string(log) {
        Some(text) => ShaderError::Compile { stage, log: text },
        None => ShaderError::CompileLogUnreadable { stage },
    }
}

fn link_fault(log: &Vec<u8>) -> (r: ShaderError)
    ensures
        r@ == link_failure(log@),
{
    match log_string(log) {
        Some(text) => ShaderError::Link { log: text },
        None => ShaderError::LinkLogUnreadable,
    }
}

impl ShaderBuild {
    /// Starts building from the two sources, given the shader objects created for them.
    pub fn start(vertex_src: &str, fragment_src: &str, vertex: u32, fragment: u32) -> (r: (
        ShaderBuild,
        Command,
    ))
        ensures
            (r.0@, r.1@) == start_spec(vertex_src.spec_bytes(), fragment_src.spec_bytes(), vertex, fragment),
    {
        match c_string(vertex_src) {
            None => (
                ShaderBuild::Over,
                Command::Fail { error: ShaderError::NulInSource { stage: Stage::Vertex } },
            ),
            Some(source) => {
                let fragment_source = c_string(fragment_src);
                (
                    ShaderBuild::CompilingVertex { vertex, fragment, fragment_source },
                    Command::Compile { shader: vertex, source },
                )
            },
        }
    }

    /// True when the build waits for a report of the kind of `report`.
    pub fn awaits(&self, report: &Report) -> (r: bool)
        ensures
            r == awaits(self@, report@),
    {
        match self {
            ShaderBuild::CompilingVertex { .. } => matches!(report, Report::Compiled { .. }),
            ShaderBuild::CompilingFragment { .. } => matches!(report, Report::Compiled { .. }),
            ShaderBuild::Linking { .. } => matches!(report, Report::Linked { .. }),
            ShaderBuild::Over => false,
        }
    }

    /// Takes in the answer to the last command and gives the next one.
    pub fn advance(self, report: Report) -> (r: (ShaderBuild, Command))
        requires
            awaits(self@, report@),
        ensures
            (r.0@, r.1@) == advance_spec(self@, report@),
    {
        match self {
            ShaderBuild::CompilingVertex { vertex, fragment, fragment_source } => match report {
                Report::Compiled { success, log } => {
                    if !success {
                        (
                            ShaderBuild::Over,
                            Command::Fail { error: compile_fault(Stage::Vertex, &log) },
                        )
                    } else {
                        match fragment_source {
                            None => (
                                ShaderBuild::Over,
                                Command::Fail {
                                    error: ShaderError::NulInSource { stage: Stage::Fragment },
                                },
                            ),
                            Some(source) => (
                                ShaderBuild::CompilingFragment { vertex, fragment },
                                Command::Compile { shader: fragment, source },
                            ),
                        }
                    }
                },
                Report::Linked { .. } => unreached(),
            },
            ShaderBuild::CompilingFragment { vertex, fragment } => match report {
                Report::Compiled { success, log } => {
                    if !success {
                        (
                            ShaderBuild::Over,
                            Command::Fail { error: compile_fault(Stage::Fragment, &log) },
                        )
                    } else {
                        (ShaderBuild::Linking { vertex, fragment }, Command::Link { vertex, fragment })
                    }
                },
                Report::Linked { .. } => unreached(),
            },
            ShaderBuild::Linking { vertex, fragment } => match report {
                Report::Linked { program, success, log } => {
                    if !success {
                        (ShaderBuild::Over, Command::Fail { error: link_fault(&log) })
                    } else {
                        (
                            ShaderBuild::Over,
                            Command::Finish { program: Shader { id: program }, vertex, fragment },
                        )
                    }
                },
                Report::Compiled { .. } => unreached(),
            },
            ShaderBuild::Over => unreached(),
        }
    }
}

/// Where to upload a uniform, from the location that the program reported for its
/// name: a location below zero means the program has no such uniform, and the upload
/// is skipped.
pub fn uniform_target(location: i32) -> (r: Option<i32>)
    ensures
        r == (if location >= 0 { Some(location) } else { None::<i32> }),
{
    if location >= 0 {
        Some(location)
    } else {
        None
    }
}

/// True when `needle` stands somewhere in `hay` as a contiguous run.
pub open spec fn contains(hay: Seq<char>, needle: Seq<char>) -> bool {
    exists|k: int| 0 <= k && k + needle.len() <= hay.len() && #[trigger] hay.subrange(k, k + needle.len()) == needle
}

/// The diagnostic of a failed compile is never empty, and where the compiler's output
/// is UTF-8 the diagnostic holds it whole.
pub proof fn lemma_compile_diagnostic(stage: Stage, buf: Seq<u8>)
    ensures
        message_of(compile_failure(stage, buf)).len() > 0,
        valid_utf8(log_text(buf)) ==> contains(
            message_of(compile_failure(stage, buf)),
            decode_utf8(log_text(buf)),
        ),
{
    reveal_strlit(" shader failed to compile: ");
    reveal_strlit(" shader failed to compile; its log is not UTF-8");
    if valid_utf8(log_text(buf)) {
        let log = decode_utf8(log_text(buf));
        let m = message_of(compile_failure(stage, buf));
        let k = m.len() - log.len();
        assert(m.subrange(k, k + log.len()) =~= log);
    }
}

/// Sources free of NUL bytes whose stages both compile and which then link give a
/// program: the build compiles the vertex stage, then the fragment stage, then links,
/// and finishes with the program that the linker reported.
pub proof fn lemma_compiled_and_linked_sources_give_a_program(
    vertex_src: Seq<u8>,
    fragment_src: Seq<u8>,
    vertex: u32,
    fragment: u32,
    program: u32,
    vertex_log: Seq<u8>,
    fragment_log: Seq<u8>,
    link_log: Seq<u8>,
)
    requires
        !has_nul(vertex_src),
        !has_nul(fragment_src),
    ensures
        ({
            let first = start_spec(vertex_src, fragment_src, vertex, fragment);
            let r1 = ReportView::Compiled { success: true, log: vertex_log };
            let second = advance_spec(first.0, r1);
            let r2 = ReportView::Compiled { success: true, log: fragment_log };
            let third = advance_spec(second.0, r2);
            let r3 = ReportView::Linked { program, success: true, log: link_log };
            let last = advance_spec(third.0, r3);
            &&& first.1 == CommandView::Compile {
                shader: vertex,
                source: nul_terminated(vertex_src),
            }
            &&& awaits(first.0, r1)
            &&& second.1 == CommandView::Compile {
                shader: fragment,
                source: nul_terminated(fragment_src),
            }
            &&& awaits(second.0, r2)
            &&& third.1 == CommandView::Link { vertex, fragment }
            &&& awaits(third.0, r3)
            &&& last.1 == CommandView::Finish { program, vertex, fragment }
            &&& last.0 == BuildView::Over
        }),
{
}

/// A vertex stage that fails to compile ends the build with the vertex stage's
/// compile error, whose diagnostic is never empty and holds the compiler's output
/// where that is UTF-8.
pub proof fn lemma_vertex_compile_failure(
    vertex_src: Seq<u8>,
    fragment_src: Seq<u8>,
    vertex: u32,
    fragment: u32,
    vertex_log: Seq<u8>,
)
    requires
        !has_nul(vertex_src),
    ensures
        ({
            let first = start_spec(vertex_src, fragment_src, vertex, fragment);
            let r1 = ReportView::Compiled { success: false, log: vertex_log };
            let second = advance_spec(first.0, r1);
            let e = compile_failure(Stage::Vertex, vertex_log);
            &&& awaits(first.0, r1)
            &&& second.0 == BuildView::Over
            &&& second.1 == CommandView::Fail { error: e }
            &&& message_of(e).len() > 0
            &&& valid_utf8(log_text(vertex_log)) ==> contains(
                message_of(e),
                decode_utf8(log_text(vertex_log)),
            )
        }),
{
    lemma_compile_diagnostic(Stage::Vertex, vertex_log);
}

/// A fragment stage that fails to compile, after the vertex stage compiled, ends the
/// build with the fragment stage's compile error, whose diagnostic is never empty and
/// holds the compiler's output where that is UTF-8.
pub proof fn lemma_fragment_compile_failure(
    vertex_src: Seq<u8>,
    fragment_src: Seq<u8>,
    vertex: u32,
    fragment: u32,
    vertex_log: Seq<u8>,
    fragment_log: Seq<u8>,
)
    requires
        !has_nul(vertex_src),
        !has_nul(fragment_src),
    ensures
        ({
            let first = start_spec(vertex_src, fragment_src, vertex, fragment);
            let r1 = ReportView::Compiled { success: true, log: vertex_log };
            let second = advance_spec(first.0, r1);
            let r2 = ReportView::Compiled { success: false, log: fragment_log };
            let third = advance_spec(second.0, r2);
            let e = compile_failure(Stage::Fragment, fragment_log);
            &&& awaits(first.0, r1)
            &&& awaits(second.0, r2)
            &&& third.0 == BuildView::Over
            &&& third.1 == CommandView::Fail { error: e }
            &&& message_of(e).len() > 0
            &&& valid_utf8(log_text(fragment_log)) ==> contains(
                message_of(e),
                decode_utf8(log_text(fragment_log)),
            )
        }),
{
    lemma_compile_diagnostic(Stage::Fragment, fragment_log);
}

} // verus!
