use shaderlink::context::RenderContext;
use shaderlink::error::ShaderError;
use shaderlink::program::{location_from_raw, Shader, UniformInfo, UniformValue};

fn demo_shader() -> Shader {
    Shader::new(
        7,
        vec![
            UniformInfo { name: String::from("texture1"), location: 3 },
            UniformInfo { name: String::from("transform"), location: 5 },
        ],
    )
    .unwrap()
}

fn active_context(shader: &Shader) -> RenderContext {
    let mut ctx = RenderContext::new();
    shader.use_shader(&mut ctx);
    ctx
}

#[test]
fn new_shader_exposes_handle_and_locations() {
    let s = demo_shader();
    assert_eq!(s.id(), 7);
    assert_eq!(s.uniform_location("texture1"), Some(3));
    assert_eq!(s.uniform_location("transform"), Some(5));
    assert_eq!(s.uniform_location("absent"), None);
}

#[test]
fn new_shader_rejects_duplicate_names() {
    let r = Shader::new(
        1,
        vec![
            UniformInfo { name: String::from("twice"), location: 0 },
            UniformInfo { name: String::from("twice"), location: 1 },
        ],
    );
    assert!(r.is_none());
}

#[test]
fn use_shader_is_idempotent() {
    let s = demo_shader();
    let mut ctx = RenderContext::new();
    assert_eq!(ctx.active(), None);
    let first = s.use_shader(&mut ctx);
    assert_eq!(first, 7);
    assert_eq!(ctx.active(), Some(7));
    let second = s.use_shader(&mut ctx);
    assert_eq!(second, 7);
    assert_eq!(ctx.active(), Some(7));
}

#[test]
fn set_int_uploads_to_the_resolved_location() {
    let mut s = demo_shader();
    let ctx = active_context(&s);
    let cmd = s.set_int(&ctx, "texture1", 0).unwrap();
    assert_eq!(cmd.location, 3);
    assert!(matches!(cmd.value, UniformValue::Int(0)));
    assert!(matches!(s.value("texture1"), Some(UniformValue::Int(0))));
}

#[test]
fn optional_set_of_absent_name_is_a_no_op() {
    let mut s = demo_shader();
    let ctx = active_context(&s);
    s.set_int(&ctx, "texture1", 4);
    let cmd = s.set_int(&ctx, "missing", 9);
    assert!(cmd.is_none());
    assert!(s.value("missing").is_none());
    // no other uniform's value was altered
    assert!(matches!(s.value("texture1"), Some(UniformValue::Int(4))));
    assert!(s.value("transform").is_none());
}

#[test]
fn required_set_of_absent_name_is_an_error() {
    let mut s = demo_shader();
    let ctx = active_context(&s);
    s.set_int(&ctx, "texture1", 4);
    let r = s.set_required(&ctx, "missing", UniformValue::Int(1));
    match r {
        Err(ShaderError::MissingRequiredUniform { name }) => assert_eq!(name, "missing"),
        other => panic!("expected a missing-uniform error, got {:?}", other),
    }
    // nothing proceeded: every value reads back as before
    assert!(matches!(s.value("texture1"), Some(UniformValue::Int(4))));
    assert!(s.value("transform").is_none());
}

#[test]
fn set_mat4_uploads_a_required_matrix() {
    let mut s = demo_shader();
    let ctx = active_context(&s);
    let bits: Vec<u32> = (0..16).map(|i| (i as f32).to_bits()).collect();
    let cmd = s.set_mat4(&ctx, "transform", bits.clone()).unwrap();
    assert_eq!(cmd.location, 5);
    match &cmd.value {
        UniformValue::Mat4Bits(words) => assert_eq!(words, &bits),
        other => panic!("expected a matrix value, got {:?}", other),
    }
    match s.value("transform") {
        Some(UniformValue::Mat4Bits(words)) => assert_eq!(words, &bits),
        other => panic!("expected a matrix value, got {:?}", other),
    }
}

#[test]
fn set_mat4_of_absent_name_is_an_error() {
    let mut s = demo_shader();
    let ctx = active_context(&s);
    let bits: Vec<u32> = vec![0; 16];
    let r = s.set_mat4(&ctx, "offset", bits);
    match r {
        Err(ShaderError::MissingRequiredUniform { name }) => assert_eq!(name, "offset"),
        other => panic!("expected a missing-uniform error, got {:?}", other),
    }
}

#[test]
fn set_float_carries_the_bit_pattern() {
    let mut s = demo_shader();
    let ctx = active_context(&s);
    let bits = 1.5f32.to_bits();
    let cmd = s.set_float(&ctx, "texture1", bits).unwrap();
    assert!(matches!(cmd.value, UniformValue::FloatBits(b) if b == bits));
    match s.value("texture1") {
        Some(UniformValue::FloatBits(b)) => assert_eq!(f32::from_bits(*b), 1.5),
        other => panic!("expected a float value, got {:?}", other),
    }
}

#[test]
fn set_bool_stores_the_flag() {
    let mut s = demo_shader();
    let ctx = active_context(&s);
    let cmd = s.set_bool(&ctx, "texture1", true).unwrap();
    assert!(matches!(cmd.value, UniformValue::Bool(true)));
    assert!(matches!(s.value("texture1"), Some(UniformValue::Bool(true))));
}

#[test]
fn last_write_wins_per_name() {
    let mut s = demo_shader();
    let ctx = active_context(&s);
    s.set_int(&ctx, "texture1", 1);
    s.set_int(&ctx, "texture1", 2);
    assert!(matches!(s.value("texture1"), Some(UniformValue::Int(2))));
}

#[test]
fn release_hands_back_the_handle() {
    let s = demo_shader();
    assert_eq!(s.release(), 7);
}

#[test]
fn raw_driver_locations_are_wrapped() {
    assert_eq!(location_from_raw(-1), None);
    assert_eq!(location_from_raw(-7), None);
    assert_eq!(location_from_raw(0), Some(0));
    assert_eq!(location_from_raw(5), Some(5));
}
