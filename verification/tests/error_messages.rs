use shaderlink::error::{ShaderError, StageKind};

#[test]
fn file_read_message_names_the_path() {
    let e = ShaderError::FileReadError {
        stage: StageKind::Vertex,
        path: String::from("shaders/vertex.vert"),
    };
    assert_eq!(e.message(), "Could not open vertex shader: shaders/vertex.vert");

    let e = ShaderError::FileReadError {
        stage: StageKind::Fragment,
        path: String::from("shaders/fragment.frag"),
    };
    assert_eq!(e.message(), "Could not open fragment shader: shaders/fragment.frag");
}

#[test]
fn compile_message_names_the_stage_and_log() {
    let e = ShaderError::CompileError {
        stage: StageKind::Vertex,
        log: String::from("0:1: syntax error"),
    };
    assert_eq!(e.message(), "Vertex shader error: 0:1: syntax error");

    let e = ShaderError::CompileError {
        stage: StageKind::Fragment,
        log: String::from("0:2: bad token"),
    };
    assert_eq!(e.message(), "Fragment shader error: 0:2: bad token");
}

#[test]
fn link_message_carries_the_log() {
    let e = ShaderError::LinkError { log: String::from("varying mismatch") };
    assert_eq!(e.message(), "Shader program error: varying mismatch");
}

#[test]
fn missing_uniform_message_names_the_uniform() {
    let e = ShaderError::MissingRequiredUniform { name: String::from("transform") };
    assert_eq!(e.message(), "Required uniform not found: transform");
}
