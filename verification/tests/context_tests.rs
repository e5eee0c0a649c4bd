use learn_opengl::context::{Context, Strictness, UniformError};
use learn_opengl::shader::{ProgramBuild, ShaderProgram, StageReport};
use learn_opengl::uniform::{UniformCommand, UniformValue};

fn linked_program(vertex: u32, fragment: u32, program: u32) -> ShaderProgram {
    let mut b = ProgramBuild::new();
    b.report_vertex(StageReport { id: vertex, ok: true, log: String::new() });
    b.report_fragment(StageReport { id: fragment, ok: true, log: String::new() });
    b.report_link(StageReport { id: program, ok: true, log: String::new() });
    b.stages_deleted();
    b.finish().expect("all steps succeeded")
}

#[test]
fn fresh_context_has_no_active_program() {
    let ctx = Context::new(Strictness::Lenient);
    assert_eq!(ctx.active_program(), None);
    assert_eq!(ctx.strictness(), Strictness::Lenient);
}

#[test]
fn activate_makes_program_active() {
    let mut ctx = Context::new(Strictness::Lenient);
    let p = linked_program(1, 2, 33);
    p.activate(&mut ctx);
    assert_eq!(ctx.active_program(), Some(33));
}

#[test]
fn activate_twice_equals_activate_once() {
    let mut once = Context::new(Strictness::Lenient);
    let mut twice = Context::new(Strictness::Lenient);
    let p = linked_program(1, 2, 33);
    p.activate(&mut once);
    p.activate(&mut twice);
    p.activate(&mut twice);
    assert_eq!(once.active_program(), twice.active_program());
    assert_eq!(once.get_uniform(33, 0), twice.get_uniform(33, 0));
}

#[test]
fn activation_deactivates_the_previous_program() {
    let mut ctx = Context::new(Strictness::Lenient);
    let p = linked_program(1, 2, 33);
    let q = linked_program(3, 4, 44);
    p.activate(&mut ctx);
    q.activate(&mut ctx);
    assert_eq!(ctx.active_program(), Some(44));
}

#[test]
fn activation_does_not_alter_other_programs_uniforms() {
    let mut ctx = Context::new(Strictness::Lenient);
    let p = linked_program(1, 2, 33);
    let q = linked_program(3, 4, 44);
    p.activate(&mut ctx);
    p.set_uniform(&mut ctx, "mixValue", 5, UniformValue::Bool(true)).expect("resolved");
    q.activate(&mut ctx);
    assert_eq!(ctx.get_uniform(33, 5), Some(UniformValue::Bool(true)));
}

#[test]
fn bool_uniform_uploads_as_integer_one_or_zero() {
    let mut ctx = Context::new(Strictness::Lenient);
    let p = linked_program(1, 2, 33);
    p.activate(&mut ctx);
    let c = p.set_uniform(&mut ctx, "flag", 3, UniformValue::Bool(true)).expect("resolved");
    assert_eq!(c, Some(UniformCommand::Int1 { location: 3, value: 1 }));
    let c = p.set_uniform(&mut ctx, "flag", 3, UniformValue::Bool(false)).expect("resolved");
    assert_eq!(c, Some(UniformCommand::Int1 { location: 3, value: 0 }));
}

#[test]
fn float_uniform_uploads_its_bits() {
    let mut ctx = Context::new(Strictness::Lenient);
    let p = linked_program(1, 2, 33);
    p.activate(&mut ctx);
    let bits = 0.2f32.to_bits();
    let c = p.set_uniform(&mut ctx, "mixValue", 0, UniformValue::Float(bits)).expect("resolved");
    assert_eq!(c, Some(UniformCommand::Float1 { location: 0, bits }));
}

#[test]
fn vec3_uniform_uploads_three_floats() {
    let mut ctx = Context::new(Strictness::Lenient);
    let p = linked_program(1, 2, 33);
    p.activate(&mut ctx);
    let bits = [1.0f32.to_bits(), 0.5f32.to_bits(), 0.31f32.to_bits()];
    let c = p.set_uniform(&mut ctx, "lightColor", 2, UniformValue::Vec3(bits)).expect("resolved");
    assert_eq!(c, Some(UniformCommand::Float3 { location: 2, bits }));
}

#[test]
fn matrix_uniform_uploads_column_major_without_transpose() {
    let mut ctx = Context::new(Strictness::Lenient);
    let p = linked_program(1, 2, 33);
    p.activate(&mut ctx);
    let mut bits = [0u32; 16];
    for (i, slot) in bits.iter_mut().enumerate() {
        *slot = (i as f32).to_bits();
    }
    let c = p.set_uniform(&mut ctx, "model", 7, UniformValue::Mat4(bits)).expect("resolved");
    assert_eq!(c, Some(UniformCommand::Matrix4 { location: 7, bits, transpose: false }));
}

#[test]
fn upload_is_recorded_for_the_program_and_location() {
    let mut ctx = Context::new(Strictness::Lenient);
    let p = linked_program(1, 2, 33);
    p.activate(&mut ctx);
    let bits = 0.25f32.to_bits();
    p.set_uniform(&mut ctx, "xOffset", 4, UniformValue::Float(bits)).expect("resolved");
    assert_eq!(ctx.get_uniform(33, 4), Some(UniformValue::Float(bits)));
    assert_eq!(ctx.get_uniform(33, 5), None);
    assert_eq!(ctx.get_uniform(34, 4), None);
}

#[test]
fn later_upload_overwrites_earlier_one() {
    let mut ctx = Context::new(Strictness::Lenient);
    let p = linked_program(1, 2, 33);
    p.activate(&mut ctx);
    p.set_uniform(&mut ctx, "flag", 3, UniformValue::Bool(false)).expect("resolved");
    p.set_uniform(&mut ctx, "flag", 3, UniformValue::Bool(true)).expect("resolved");
    assert_eq!(ctx.get_uniform(33, 3), Some(UniformValue::Bool(true)));
}

#[test]
fn unresolved_name_is_a_silent_no_op_when_lenient() {
    let mut ctx = Context::new(Strictness::Lenient);
    let p = linked_program(1, 2, 33);
    p.activate(&mut ctx);
    let c = p.set_uniform(&mut ctx, "uAlpha", -1, UniformValue::Bool(true)).expect("lenient");
    assert_eq!(c, None);
    assert_eq!(ctx.get_uniform(33, -1), None);
}

#[test]
fn unresolved_name_is_an_error_when_strict() {
    let mut ctx = Context::new(Strictness::Strict);
    let p = linked_program(1, 2, 33);
    p.activate(&mut ctx);
    let e = p.set_uniform(&mut ctx, "uAlpha", -1, UniformValue::Bool(true));
    assert_eq!(e, Err(UniformError::UnresolvedName { name: "uAlpha".to_owned() }));
}
