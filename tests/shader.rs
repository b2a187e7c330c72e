use virtual_universe::shader::{uniform_target, Command, Report, ShaderBuild, ShaderError, Stage};

const VERTEX: &str = "#version 410 core\nlayout (location = 0) in vec3 pos;\nvoid main() { gl_Position = vec4(pos, 1.0); }\n";
const FRAGMENT: &str = "#version 410 core\nout vec4 color;\nvoid main() { color = vec4(1.0); }\n";

fn compiled(success: bool, log: &[u8]) -> Report {
    Report::Compiled { success, log: log.to_vec() }
}

fn failure(command: Command) -> ShaderError {
    match command {
        Command::Fail { error } => error,
        other => panic!("expected a failure, got {:?}", other),
    }
}

#[test]
fn sources_that_compile_and_link_give_a_program() {
    let (build, command) = ShaderBuild::start(VERTEX, FRAGMENT, 1, 2);
    match &command {
        Command::Compile { shader, source } => {
            assert_eq!(*shader, 1);
            assert_eq!(source.len(), VERTEX.len() + 1);
            assert_eq!(&source[..VERTEX.len()], VERTEX.as_bytes());
            assert_eq!(source[VERTEX.len()], 0);
        }
        other => panic!("unexpected {:?}", other),
    }
    let report = compiled(true, b"\0");
    assert!(build.awaits(&report));
    let (build, command) = build.advance(report);
    match &command {
        Command::Compile { shader, source } => {
            assert_eq!(*shader, 2);
            assert_eq!(&source[..FRAGMENT.len()], FRAGMENT.as_bytes());
            assert_eq!(source.last(), Some(&0));
        }
        other => panic!("unexpected {:?}", other),
    }
    let (build, command) = build.advance(compiled(true, b""));
    assert!(matches!(command, Command::Link { vertex: 1, fragment: 2 }));
    let report = Report::Linked { program: 3, success: true, log: Vec::new() };
    assert!(build.awaits(&report));
    let (build, command) = build.advance(report);
    match command {
        Command::Finish { program, vertex, fragment } => {
            assert_eq!(program.id(), 3);
            assert_eq!((vertex, fragment), (1, 2));
        }
        other => panic!("unexpected {:?}", other),
    }
    assert!(matches!(build, ShaderBuild::Over));
}

#[test]
fn vertex_syntax_error_reports_the_compiler_log() {
    let (build, _) = ShaderBuild::start("void main( {", FRAGMENT, 1, 2);
    let (build, command) = build.advance(compiled(false, b"0:1(12): error: syntax error\0"));
    assert!(matches!(build, ShaderBuild::Over));
    let error = failure(command);
    assert!(matches!(&error, ShaderError::Compile { stage: Stage::Vertex, log } if log == "0:1(12): error: syntax error"));
    let message = error.message();
    assert_eq!(message, "vertex shader failed to compile: 0:1(12): error: syntax error");
}

#[test]
fn fragment_syntax_error_reports_the_compiler_log() {
    let (build, _) = ShaderBuild::start(VERTEX, "out vec4 c; void main() { c = }", 1, 2);
    let (build, _) = build.advance(compiled(true, b""));
    let (build, command) = build.advance(compiled(false, b"0:1(31): error: syntax error\0"));
    assert!(matches!(build, ShaderBuild::Over));
    let message = failure(command).message();
    assert!(message.contains("0:1(31): error: syntax error"));
    assert!(message.starts_with("fragment"));
}

#[test]
fn failure_with_an_empty_log_still_says_something() {
    let (build, _) = ShaderBuild::start(VERTEX, FRAGMENT, 1, 2);
    let (_, command) = build.advance(compiled(false, b"\0"));
    let message = failure(command).message();
    assert_eq!(message, "vertex shader failed to compile: ");
}

#[test]
fn link_failure_reports_the_linker_log() {
    let (build, _) = ShaderBuild::start(VERTEX, FRAGMENT, 1, 2);
    let (build, _) = build.advance(compiled(true, b""));
    let (build, _) = build.advance(compiled(true, b""));
    assert!(!build.awaits(&compiled(true, b"")));
    let (build, command) = build.advance(Report::Linked {
        program: 3,
        success: false,
        log: b"error: vertex output not read\0".to_vec(),
    });
    assert!(matches!(build, ShaderBuild::Over));
    let error = failure(command);
    assert!(matches!(&error, ShaderError::Link { log } if log == "error: vertex output not read"));
    assert_eq!(error.message(), "shader program failed to link: error: vertex output not read");
}

#[test]
fn unreadable_logs_are_reported_as_such() {
    let (build, _) = ShaderBuild::start(VERTEX, FRAGMENT, 1, 2);
    let (_, command) = build.advance(compiled(false, &[0xFF, 0]));
    let error = failure(command);
    assert!(matches!(error, ShaderError::CompileLogUnreadable { stage: Stage::Vertex }));
    assert_eq!(error.message(), "vertex shader failed to compile; its log is not UTF-8");

    let (build, _) = ShaderBuild::start(VERTEX, FRAGMENT, 1, 2);
    let (build, _) = build.advance(compiled(true, b""));
    let (build, _) = build.advance(compiled(true, b""));
    let (_, command) = build.advance(Report::Linked { program: 3, success: false, log: vec![0xC3] });
    let error = failure(command);
    assert!(matches!(error, ShaderError::LinkLogUnreadable));
    assert_eq!(error.message(), "shader program failed to link; its log is not UTF-8");
}

#[test]
fn nul_in_vertex_source_fails_at_once() {
    let (build, command) = ShaderBuild::start("void main() {}\0", FRAGMENT, 1, 2);
    assert!(matches!(build, ShaderBuild::Over));
    let error = failure(command);
    assert!(matches!(error, ShaderError::NulInSource { stage: Stage::Vertex }));
    assert_eq!(error.message(), "vertex shader source holds a NUL byte");
}

#[test]
fn nul_in_fragment_source_fails_after_the_vertex_stage() {
    let (build, command) = ShaderBuild::start(VERTEX, "a\0b", 1, 2);
    assert!(matches!(command, Command::Compile { shader: 1, .. }));
    let (build, command) = build.advance(compiled(true, b""));
    assert!(matches!(build, ShaderBuild::Over));
    let error = failure(command);
    assert!(matches!(error, ShaderError::NulInSource { stage: Stage::Fragment }));
    assert_eq!(error.message(), "fragment shader source holds a NUL byte");
}

#[test]
fn vertex_failure_is_reported_before_a_bad_fragment_source() {
    let (build, _) = ShaderBuild::start(VERTEX, "a\0b", 1, 2);
    let (_, command) = build.advance(compiled(false, b"bad\0"));
    assert!(matches!(failure(command), ShaderError::Compile { stage: Stage::Vertex, .. }));
}

#[test]
fn build_awaits_reports_in_order() {
    let (build, _) = ShaderBuild::start(VERTEX, FRAGMENT, 1, 2);
    assert!(build.awaits(&compiled(true, b"")));
    assert!(!build.awaits(&Report::Linked { program: 3, success: true, log: Vec::new() }));
    let (over, _) = ShaderBuild::start("\0", FRAGMENT, 1, 2);
    assert!(!over.awaits(&compiled(true, b"")));
}

#[test]
fn missing_uniform_is_skipped() {
    assert_eq!(uniform_target(-1), None);
    assert_eq!(uniform_target(i32::MIN), None);
    assert_eq!(uniform_target(0), Some(0));
    assert_eq!(uniform_target(7), Some(7));
}
