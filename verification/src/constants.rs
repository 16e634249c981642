//! The OpenGL enumerants this renderer uses, with the values the OpenGL
//! registry assigns to them.

use vstd::prelude::*;

verus! {

/// `GL_NO_ERROR`: no error has been recorded since the last query.
pub const NO_ERROR: u32 = 0;

/// `GL_INVALID_ENUM`: an enumerated argument was not acceptable.
pub const INVALID_ENUM: u32 = 0x0500;

/// `GL_INVALID_VALUE`: a numeric argument was out of range.
pub const INVALID_VALUE: u32 = 0x0501;

/// `GL_INVALID_OPERATION`: the operation is not allowed in the current state.
pub const INVALID_OPERATION: u32 = 0x0502;

/// `GL_OUT_OF_MEMORY`: the driver could not allocate what the command needed.
pub const OUT_OF_MEMORY: u32 = 0x0505;

/// `GL_INVALID_FRAMEBUFFER_OPERATION`: the framebuffer is not complete.
pub const INVALID_FRAMEBUFFER_OPERATION: u32 = 0x0506;

/// `GL_FRAGMENT_SHADER`.
pub const FRAGMENT_SHADER: u32 = 0x8B30;

/// `GL_VERTEX_SHADER`.
pub const VERTEX_SHADER: u32 = 0x8B31;

/// `GL_ARRAY_BUFFER`: the binding point of vertex data.
pub const ARRAY_BUFFER: u32 = 0x8892;

/// `GL_ELEMENT_ARRAY_BUFFER`: the binding point of index data.
pub const ELEMENT_ARRAY_BUFFER: u32 = 0x8893;

/// `GL_STATIC_DRAW`: the data is written once and drawn many times.
pub const STATIC_DRAW: u32 = 0x88E4;

/// `GL_COLOR_BUFFER_BIT`.
pub const COLOR_BUFFER_BIT: u32 = 0x4000;

/// `GL_TRIANGLES`.
pub const TRIANGLES: u32 = 0x0004;

/// `GL_UNSIGNED_INT`: indices are 32-bit words.
pub const UNSIGNED_INT: u32 = 0x1405;

} // verus!
