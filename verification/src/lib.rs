//! Verified core of a small OpenGL teaching library.
//!
//! Two independent pieces carry all the invariants worth proving:
//!
//! * the shader-program abstraction: a build state machine that turns the
//!   outcomes of compiling a vertex stage, compiling a fragment stage and
//!   linking them into either a usable [`shader::ShaderProgram`] or an error
//!   naming the stage that failed; a [`context::Context`] that models the
//!   graphics context's "currently active program" and its per-program
//!   uniform store; and a typed uniform dispatch from [`uniform::UniformValue`]
//!   to the concrete upload command;
//! * a free-look camera in fixed-point arithmetic: yaw, pitch and zoom
//!   accumulated from input deltas under their clamps, and the look-at view
//!   matrix derived from position, facing and up.
//!
//! The graphics API itself (an unsafe C interface) never appears here: an
//! unverified front end performs those calls and feeds their results to the
//! state machines of this crate.

pub mod camera;
pub mod context;
pub mod math;
pub mod shader;
pub mod uniform;
