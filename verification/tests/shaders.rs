use gl_objects::command::Command;
use gl_objects::context::Context;
use gl_objects::shaders::{
    Object, Rejected, Shader, ShaderError, ShaderProgram, Uncompiled, Unlinked,
};
use std::marker::PhantomData;

const VERTEX_SOURCE: &str = "#version 420 core\n\
layout (location = 0) in vec3 position;\n\
void main() { gl_Position = vec4(position, 1.0); }\n";

const FRAGMENT_SOURCE: &str = "#version 420 core\n\
out vec4 color;\n\
void main() { color = vec4(1.0, 0.5, 0.2, 1.0); }\n";

const BROKEN_SOURCE: &str = "void main() { invalid syntax }";

const SYNTAX_LOG: &str =
    "0:1(15): error: syntax error, unexpected IDENTIFIER, expecting ';'\n";

const LINK_LOG: &str = "error: program lacks a fragment shader\n";

struct Knows<T>(PhantomData<T>);

trait Unique {
    const COPIES: bool = false;
}

impl<T> Unique for Knows<T> {}

impl<T: Clone> Knows<T> {
    const COPIES: bool = true;
}

fn compiled(id: u32, source: &str, shader_type: u32) -> Shader {
    let (stage, _) = Shader::submit(id, source, shader_type);
    Shader::new(stage, 1).expect("a status of 1 is a compiled stage")
}

fn rejected_stage(id: u32) -> Rejected {
    let (stage, _) = Shader::submit(id, BROKEN_SOURCE, gl::FRAGMENT_SHADER);
    Shader::new(stage, 0).expect_err("a status of 0 is a failed compile")
}

fn rejected_program(id: u32, shaders: &[&Shader]) -> Rejected {
    let (program, _) = ShaderProgram::submit(id, shaders);
    ShaderProgram::new(program, 0).expect_err("a status of 0 is a failed link")
}

#[test]
fn shader_types_cannot_be_duplicated() {
    assert!(!Knows::<Shader>::COPIES);
    assert!(!Knows::<ShaderProgram>::COPIES);
    assert!(!Knows::<Uncompiled>::COPIES);
    assert!(!Knows::<Unlinked>::COPIES);
    assert!(!Knows::<Rejected>::COPIES);
    assert!(Knows::<Object>::COPIES);
}

#[test]
fn submit_hands_the_source_over_and_compiles() {
    let (stage, commands) = Shader::submit(7, VERTEX_SOURCE, gl::VERTEX_SHADER);
    assert_eq!(stage.id(), 7);
    assert_eq!(stage.shader_type(), gl::VERTEX_SHADER);
    assert_eq!(
        commands,
        vec![
            Command::ShaderSource { shader: 7, source: VERTEX_SOURCE.to_string() },
            Command::CompileShader { shader: 7 },
        ]
    );
}

#[test]
fn source_is_passed_through_unchanged() {
    let odd = "// caf\u{e9} \u{2014} \u{1F600}\r\n\tvoid main(){}  \n\n";
    let (_, commands) = Shader::submit(1, odd, gl::FRAGMENT_SHADER);
    assert_eq!(commands[0], Command::ShaderSource { shader: 1, source: odd.to_string() });
    let (_, commands) = Shader::submit(2, "", gl::FRAGMENT_SHADER);
    assert_eq!(commands[0], Command::ShaderSource { shader: 2, source: String::new() });
}

#[test]
fn accepted_source_gives_a_ready_stage() {
    let (stage, _) = Shader::submit(3, VERTEX_SOURCE, gl::VERTEX_SHADER);
    let shader = Shader::new(stage, i32::from(gl::TRUE)).unwrap();
    assert_eq!(shader.id(), 3);
    assert_eq!(shader.shader_type(), gl::VERTEX_SHADER);
    let (stage, _) = Shader::submit(4, FRAGMENT_SOURCE, gl::FRAGMENT_SHADER);
    let shader = Shader::new(stage, 1).unwrap();
    assert_eq!(shader.id(), 4);
    assert_eq!(shader.shader_type(), gl::FRAGMENT_SHADER);
}

#[test]
fn invalid_syntax_gives_a_compilation_error() {
    let (stage, _) = Shader::submit(5, BROKEN_SOURCE, gl::FRAGMENT_SHADER);
    let rejected = Shader::new(stage, i32::from(gl::FALSE)).unwrap_err();
    assert_eq!(rejected.id(), 5);
    assert_eq!(rejected.object(), Object::Stage);
    let (error, cleanup) = rejected.report(SYNTAX_LOG.as_bytes().to_vec());
    match &error {
        ShaderError::CompilationError(message) => {
            assert!(!message.is_empty());
            assert_eq!(message, SYNTAX_LOG);
        }
        other => panic!("not a compilation error: {:?}", other),
    }
    assert_eq!(cleanup, Command::DeleteShader { shader: 5 });
}

#[test]
fn only_status_one_is_success() {
    for status in [0, -1, 2, 35713, i32::MIN, i32::MAX] {
        let (stage, _) = Shader::submit(9, VERTEX_SOURCE, gl::VERTEX_SHADER);
        let rejected = Shader::new(stage, status).unwrap_err();
        assert_eq!(rejected.id(), 9);
        assert_eq!(rejected.object(), Object::Stage);
        let (program, _) = ShaderProgram::submit(10, &[]);
        let rejected = ShaderProgram::new(program, status).unwrap_err();
        assert_eq!(rejected.id(), 10);
        assert_eq!(rejected.object(), Object::Program);
    }
}

#[test]
fn diagnostic_text_is_decoded_character_for_character() {
    let log = "0:3(7): erreur\u{a0}: \u{ab}\u{a0}d\u{e9}j\u{e0} d\u{e9}fini\u{a0}\u{bb} \u{2014} \u{4e2d}\u{6587} \u{1F4A5}\n";
    let bytes = log.as_bytes().to_vec();
    assert!(bytes.len() > log.chars().count());
    let (error, _) = rejected_stage(1).report(bytes);
    assert_eq!(error, ShaderError::CompilationError(log.to_string()));
}

#[test]
fn empty_log_is_an_empty_message() {
    let (error, cleanup) = rejected_stage(6).report(Vec::new());
    assert_eq!(error, ShaderError::CompilationError(String::new()));
    assert_eq!(cleanup, Command::DeleteShader { shader: 6 });
    let (error, cleanup) = rejected_program(7, &[]).report(Vec::new());
    assert_eq!(error, ShaderError::LinkingError(String::new()));
    assert_eq!(cleanup, Command::DeleteProgram { program: 7 });
}

#[test]
fn log_with_a_nul_in_it_is_still_text() {
    let (error, _) = rejected_stage(1).report(b"error\0".to_vec());
    assert_eq!(error, ShaderError::CompilationError("error\0".to_string()));
}

#[test]
fn undecodable_log_is_reported_with_all_its_bytes() {
    let cases: Vec<Vec<u8>> = vec![
        vec![0xff],
        vec![b'e', b'r', b'r', 0xff, 0xfe, b'!'],
        vec![0xe2, 0x82],
        vec![b'o', b'k', 0xc3],
        vec![0xc0, 0xaf],
        vec![0xed, 0xa0, 0x80],
        vec![0xf4, 0x90, 0x80, 0x80],
        vec![0x80],
    ];
    for bytes in cases {
        assert!(std::str::from_utf8(&bytes).is_err());
        let (error, cleanup) = rejected_stage(12).report(bytes.clone());
        assert_eq!(error, ShaderError::Utf8Error(bytes.clone()));
        assert_eq!(cleanup, Command::DeleteShader { shader: 12 });
        let (error, cleanup) = rejected_program(13, &[]).report(bytes.clone());
        assert_eq!(error, ShaderError::Utf8Error(bytes));
        assert_eq!(cleanup, Command::DeleteProgram { program: 13 });
    }
}

#[test]
fn stage_release_frees_its_one_name() {
    let shader = compiled(17, VERTEX_SOURCE, gl::VERTEX_SHADER);
    assert_eq!(shader.release(), Command::DeleteShader { shader: 17 });
}

#[test]
fn link_attaches_every_stage_in_order_then_links() {
    let vertex = compiled(1, VERTEX_SOURCE, gl::VERTEX_SHADER);
    let fragment = compiled(2, FRAGMENT_SOURCE, gl::FRAGMENT_SHADER);
    let (program, commands) = ShaderProgram::submit(3, &[&vertex, &fragment]);
    assert_eq!(program.id(), 3);
    assert_eq!(
        commands,
        vec![
            Command::AttachShader { program: 3, shader: 1 },
            Command::AttachShader { program: 3, shader: 2 },
            Command::LinkProgram { program: 3 },
        ]
    );
}

#[test]
fn link_keeps_the_order_it_is_given() {
    let stages = [
        compiled(9, FRAGMENT_SOURCE, gl::FRAGMENT_SHADER),
        compiled(4, VERTEX_SOURCE, gl::VERTEX_SHADER),
        compiled(6, VERTEX_SOURCE, gl::GEOMETRY_SHADER),
    ];
    let borrowed: Vec<&Shader> = stages.iter().collect();
    let (_, commands) = ShaderProgram::submit(1, &borrowed);
    assert_eq!(
        commands,
        vec![
            Command::AttachShader { program: 1, shader: 9 },
            Command::AttachShader { program: 1, shader: 4 },
            Command::AttachShader { program: 1, shader: 6 },
            Command::LinkProgram { program: 1 },
        ]
    );
}

#[test]
fn link_of_no_stages_only_links() {
    let (_, commands) = ShaderProgram::submit(8, &[]);
    assert_eq!(commands, vec![Command::LinkProgram { program: 8 }]);
}

#[test]
fn matching_pair_gives_a_ready_program() {
    let vertex = compiled(1, VERTEX_SOURCE, gl::VERTEX_SHADER);
    let fragment = compiled(2, FRAGMENT_SOURCE, gl::FRAGMENT_SHADER);
    let (program, _) = ShaderProgram::submit(3, &[&vertex, &fragment]);
    let program = ShaderProgram::new(program, i32::from(gl::TRUE)).unwrap();
    assert_eq!(program.id(), 3);
}

#[test]
fn missing_fragment_stage_gives_a_linking_error() {
    let vertex = compiled(1, VERTEX_SOURCE, gl::VERTEX_SHADER);
    let (program, commands) = ShaderProgram::submit(2, &[&vertex]);
    assert_eq!(
        commands,
        vec![
            Command::AttachShader { program: 2, shader: 1 },
            Command::LinkProgram { program: 2 },
        ]
    );
    let rejected = ShaderProgram::new(program, i32::from(gl::FALSE)).unwrap_err();
    assert_eq!(rejected.id(), 2);
    assert_eq!(rejected.object(), Object::Program);
    let (error, cleanup) = rejected.report(LINK_LOG.as_bytes().to_vec());
    assert_eq!(error, ShaderError::LinkingError(LINK_LOG.to_string()));
    assert_eq!(cleanup, Command::DeleteProgram { program: 2 });
}

#[test]
fn stages_can_be_released_once_linked() {
    let vertex = compiled(1, VERTEX_SOURCE, gl::VERTEX_SHADER);
    let fragment = compiled(2, FRAGMENT_SOURCE, gl::FRAGMENT_SHADER);
    let (program, _) = ShaderProgram::submit(3, &[&vertex, &fragment]);
    let program = ShaderProgram::new(program, 1).unwrap();
    assert_eq!(vertex.release(), Command::DeleteShader { shader: 1 });
    assert_eq!(fragment.release(), Command::DeleteShader { shader: 2 });
    let mut ctx = Context::new();
    assert_eq!(program.apply(&mut ctx), Command::UseProgram { program: 3 });
    assert_eq!(ctx.active_program(), Some(3));
}

#[test]
fn apply_asks_for_the_program_and_records_it() {
    let mut ctx = Context::new();
    let (program, _) = ShaderProgram::submit(5, &[]);
    let program = ShaderProgram::new(program, 1).unwrap();
    let command = program.apply(&mut ctx);
    assert_eq!(command, Command::UseProgram { program: 5 });
    assert_eq!(ctx.active_program(), Some(5));
    assert_eq!(ctx.bound_vertex_array(), None);
    assert_eq!(ctx.bound_buffer(gl::ARRAY_BUFFER), None);
}

#[test]
fn last_applied_program_is_the_active_one() {
    let mut ctx = Context::new();
    let (a, _) = ShaderProgram::submit(1, &[]);
    let (b, _) = ShaderProgram::submit(2, &[]);
    let a = ShaderProgram::new(a, 1).unwrap();
    let b = ShaderProgram::new(b, 1).unwrap();
    let _ = a.apply(&mut ctx);
    let _ = b.apply(&mut ctx);
    assert_eq!(ctx.active_program(), Some(2));
    let _ = a.apply(&mut ctx);
    assert_eq!(ctx.active_program(), Some(1));
}

#[test]
fn program_release_frees_its_one_name() {
    let (program, _) = ShaderProgram::submit(30, &[]);
    let program = ShaderProgram::new(program, 1).unwrap();
    assert_eq!(program.release(), Command::DeleteProgram { program: 30 });
}

#[test]
fn failed_stage_and_failed_program_of_one_name_are_freed_as_what_they_are() {
    let (_, stage_cleanup) = rejected_stage(4).report(SYNTAX_LOG.as_bytes().to_vec());
    let (_, program_cleanup) = rejected_program(4, &[]).report(LINK_LOG.as_bytes().to_vec());
    assert_eq!(stage_cleanup, Command::DeleteShader { shader: 4 });
    assert_eq!(program_cleanup, Command::DeleteProgram { program: 4 });
}
