use ogl::driver::GlCommand;
use ogl::shaders::{
    BuildAction, BuildStep, ProgramBuild, Shader2D, ShaderError, ShaderSource, ShaderSourceError,
    ShaderStage, StatusQuery,
};

const VERTEX_TEXT: &str = "#version 330 core\nlayout(location = 0) in vec4 position;\nvoid main() { gl_Position = position; }\n";
const FRAGMENT_TEXT: &str = "#version 330 core\nout vec4 color;\nvoid main() { color = vec4(1.0, 0.0, 0.0, 1.0); }\n";

fn sources() -> (ShaderSource, ShaderSource) {
    (
        ShaderSource::from_text(FRAGMENT_TEXT).unwrap(),
        ShaderSource::from_text(VERTEX_TEXT).unwrap(),
    )
}

#[test]
fn source_gets_one_terminator() {
    let s = ShaderSource::from_bytes(b"void main() {}".to_vec()).unwrap();
    assert_eq!(s.as_bytes(), b"void main() {}\0");
}

#[test]
fn source_keeps_its_own_terminator() {
    let s = ShaderSource::from_bytes(b"abc\0".to_vec()).unwrap();
    assert_eq!(s.as_bytes(), b"abc\0");
}

#[test]
fn empty_source_is_a_lone_terminator() {
    assert_eq!(ShaderSource::from_bytes(Vec::new()).unwrap().as_bytes(), b"\0");
    assert_eq!(ShaderSource::from_bytes(vec![0]).unwrap().as_bytes(), b"\0");
}

#[test]
fn interior_nul_is_rejected() {
    assert_eq!(
        ShaderSource::from_bytes(b"ab\0cd".to_vec()),
        Err(ShaderSourceError::InteriorNul { position: 2 })
    );
    assert_eq!(
        ShaderSource::from_bytes(b"ab\0\0".to_vec()),
        Err(ShaderSourceError::InteriorNul { position: 2 })
    );
    assert_eq!(
        ShaderSource::from_bytes(b"\0\0".to_vec()),
        Err(ShaderSourceError::InteriorNul { position: 0 })
    );
}

#[test]
fn source_from_text() {
    let s = ShaderSource::from_text("héllo").unwrap();
    assert_eq!(s.as_bytes(), "héllo\0".as_bytes());
    assert_eq!(
        ShaderSource::from_text("a\0b"),
        Err(ShaderSourceError::InteriorNul { position: 1 })
    );
}

#[test]
fn program_builds_when_every_step_succeeds() {
    let (fragment, vertex) = sources();
    let (mut build, action) = ProgramBuild::new(fragment, vertex, 3, 1, 2);
    assert_eq!(
        action,
        BuildAction::Run {
            commands: vec![GlCommand::CompileShader {
                shader: 1,
                source: ShaderSource::from_text(VERTEX_TEXT).unwrap(),
            }],
            query: StatusQuery::CompileStatus { shader: 1 },
        }
    );
    assert_eq!(build.step(), BuildStep::CompileVertex);
    assert_eq!(
        build.advance(true, String::new()),
        BuildAction::Run {
            commands: vec![GlCommand::CompileShader {
                shader: 2,
                source: ShaderSource::from_text(FRAGMENT_TEXT).unwrap(),
            }],
            query: StatusQuery::CompileStatus { shader: 2 },
        }
    );
    assert_eq!(
        build.advance(true, String::new()),
        BuildAction::Run {
            commands: vec![
                GlCommand::AttachShader { program: 3, shader: 1 },
                GlCommand::AttachShader { program: 3, shader: 2 },
                GlCommand::LinkProgram { program: 3 },
            ],
            query: StatusQuery::LinkStatus { program: 3 },
        }
    );
    assert_eq!(
        build.advance(true, String::new()),
        BuildAction::Run {
            commands: vec![GlCommand::ValidateProgram { program: 3 }],
            query: StatusQuery::ValidateStatus { program: 3 },
        }
    );
    let last = build.advance(true, String::new());
    match last {
        BuildAction::Ready { shader, commands } => {
            assert_ne!(shader.id, 0);
            assert_eq!(shader, Shader2D { id: 3, is_bound: true });
            assert_eq!(
                commands,
                vec![
                    GlCommand::DeleteShader { shader: 1 },
                    GlCommand::DeleteShader { shader: 2 },
                    GlCommand::UseProgram { program: 3 },
                ]
            );
        }
        other => panic!("expected a program, got {:?}", other),
    }
    assert_eq!(build.step(), BuildStep::Finished);
}

fn release_all() -> Vec<GlCommand> {
    vec![
        GlCommand::DeleteShader { shader: 1 },
        GlCommand::DeleteShader { shader: 2 },
        GlCommand::DeleteProgram { program: 3 },
    ]
}

#[test]
fn failed_vertex_compile_is_reported() {
    let (fragment, vertex) = sources();
    let (mut build, _) = ProgramBuild::new(fragment, vertex, 3, 1, 2);
    let action = build.advance(false, "0:1: syntax error".to_string());
    assert_eq!(
        action,
        BuildAction::Failed {
            error: ShaderError::Compile {
                stage: ShaderStage::Vertex,
                log: "0:1: syntax error".to_string(),
            },
            commands: release_all(),
        }
    );
    assert_eq!(build.step(), BuildStep::Finished);
}

#[test]
fn failed_fragment_compile_is_reported() {
    let (fragment, vertex) = sources();
    let (mut build, _) = ProgramBuild::new(fragment, vertex, 3, 1, 2);
    build.advance(true, String::new());
    let action = build.advance(false, "bad fragment".to_string());
    assert_eq!(
        action,
        BuildAction::Failed {
            error: ShaderError::Compile {
                stage: ShaderStage::Fragment,
                log: "bad fragment".to_string(),
            },
            commands: release_all(),
        }
    );
}

#[test]
fn failed_link_is_reported() {
    let (fragment, vertex) = sources();
    let (mut build, _) = ProgramBuild::new(fragment, vertex, 3, 1, 2);
    build.advance(true, String::new());
    build.advance(true, String::new());
    let action = build.advance(false, "link failed".to_string());
    assert_eq!(
        action,
        BuildAction::Failed {
            error: ShaderError::Link { log: "link failed".to_string() },
            commands: release_all(),
        }
    );
}

#[test]
fn failed_validation_is_reported() {
    let (fragment, vertex) = sources();
    let (mut build, _) = ProgramBuild::new(fragment, vertex, 3, 1, 2);
    build.advance(true, String::new());
    build.advance(true, String::new());
    build.advance(true, String::new());
    let action = build.advance(false, "invalid".to_string());
    assert_eq!(
        action,
        BuildAction::Failed {
            error: ShaderError::Validate { log: "invalid".to_string() },
            commands: release_all(),
        }
    );
}

#[test]
fn missing_objects_fail_at_once() {
    let (fragment, vertex) = sources();
    let (build, action) = ProgramBuild::new(fragment, vertex, 0, 1, 0);
    assert_eq!(
        action,
        BuildAction::Failed {
            error: ShaderError::CreateFailed,
            commands: vec![GlCommand::DeleteShader { shader: 1 }],
        }
    );
    assert_eq!(build.step(), BuildStep::Finished);
}

#[test]
fn program_bind_is_idempotent() {
    let mut shader = Shader2D { id: 5, is_bound: false };
    assert_eq!(shader.bind(), vec![GlCommand::UseProgram { program: 5 }]);
    assert!(shader.is_bound);
    assert_eq!(shader.bind().len(), 0);
    assert_eq!(shader.release(), vec![GlCommand::DeleteProgram { program: 5 }]);
}
