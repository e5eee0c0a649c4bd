//! Typed uniform values and their dispatch to upload commands.
//!
//! A program's uniforms accept a closed set of value kinds. Which underlying
//! upload call serves which kind is the one decision of the upload path, and
//! [`command_for`] pins it down: a boolean goes up as a single integer, a
//! scalar as a single float, and so on. Float payloads are carried as their
//! 32-bit IEEE-754 bit patterns: this crate never does arithmetic on them,
//! it only routes them, and the front end converts at the boundary.

use vstd::prelude::*;

verus! {

/// A value that can be uploaded to a named uniform slot.
#[derive(Clone, Copy, PartialEq, Eq, Debug)]
pub enum UniformValue {
    /// A boolean, uploaded as a single integer: `false` as 0, `true` as 1.
    Bool(bool),
    /// A 32-bit float, carried as its bit pattern.
    Float(u32),
    /// A vector of three 32-bit floats, carried as bit patterns.
    Vec3([u32; 3]),
    /// A 4x4 matrix of 32-bit floats, column-major, carried as bit patterns.
    Mat4([u32; 16]),
}

/// The concrete upload call the front end must make: which of the graphics
/// API's upload entry points, at which resolved location, with what payload.
#[derive(Clone, Copy, PartialEq, Eq, Debug)]
pub enum UniformCommand {
    /// Upload one integer.
    Int1 { location: i32, value: i32 },
    /// Upload one float.
    Float1 { location: i32, bits: u32 },
    /// Upload three floats.
    Float3 { location: i32, bits: [u32; 3] },
    /// Upload a 4x4 float matrix. `transpose` is always `false`: the payload
    /// is already column-major.
    Matrix4 { location: i32, bits: [u32; 16], transpose: bool },
}

/// The upload command for a value of each kind.
pub open spec fn command_for(value: UniformValue, location: i32) -> UniformCommand {
    match value {
        UniformValue::Bool(b) => UniformCommand::Int1 {
            location,
            value: if b {
                1
            } else {
                0
            },
        },
        UniformValue::Float(bits) => UniformCommand::Float1 { location, bits },
        UniformValue::Vec3(bits) => UniformCommand::Float3 { location, bits },
        UniformValue::Mat4(bits) => UniformCommand::Matrix4 { location, bits, transpose: false },
    }
}

/// Dispatch a value to its upload command.
pub fn uniform_command(value: &UniformValue, location: i32) -> (c: UniformCommand)
    ensures
        c == command_for(*value, location),
{
    match value {
        UniformValue::Bool(b) => UniformCommand::Int1 {
            location,
            value: if *b {
                1
            } else {
                0
            },
        },
        UniformValue::Float(bits) => UniformCommand::Float1 { location, bits: *bits },
        UniformValue::Vec3(bits) => UniformCommand::Float3 { location, bits: *bits },
        UniformValue::Mat4(bits) => UniformCommand::Matrix4 {
            location,
            bits: *bits,
            transpose: false,
        },
    }
}

} // verus!
