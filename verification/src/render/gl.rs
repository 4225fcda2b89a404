//! The numbers by which OpenGL knows the kinds of shaders and buffers.

use vstd::prelude::*;

verus! {

/// `GL_VERTEX_SHADER`
pub const VERTEX_SHADER: u32 = 0x8B31;

/// `GL_FRAGMENT_SHADER`
pub const FRAGMENT_SHADER: u32 = 0x8B30;

/// `GL_GEOMETRY_SHADER`
pub const GEOMETRY_SHADER: u32 = 0x8DD9;

/// `GL_COMPUTE_SHADER`
pub const COMPUTE_SHADER: u32 = 0x91B9;

/// `GL_TESS_CONTROL_SHADER`
pub const TESS_CONTROL_SHADER: u32 = 0x8E88;

/// `GL_TESS_EVALUATION_SHADER`
pub const TESS_EVALUATION_SHADER: u32 = 0x8E87;

/// `GL_ARRAY_BUFFER`
pub const ARRAY_BUFFER: u32 = 0x8892;

/// `GL_ELEMENT_ARRAY_BUFFER`
pub const ELEMENT_ARRAY_BUFFER: u32 = 0x8893;

/// The stage of the pipeline that a shader runs in.
#[derive(Clone, Copy, Debug, PartialOrd, PartialEq)]
pub enum ShaderType {
    Vertex,
    Fragment,
    Geometry,
    Compute,
    TessControl,
    TessEvaluation,
}

impl ShaderType {
    /// The number by which OpenGL knows this kind of shader.
    pub open spec fn spec_value(&self) -> u32 {
        match *self {
            ShaderType::Vertex => VERTEX_SHADER,
            ShaderType::Fragment => FRAGMENT_SHADER,
            ShaderType::Geometry => GEOMETRY_SHADER,
            ShaderType::Compute => COMPUTE_SHADER,
            ShaderType::TessControl => TESS_CONTROL_SHADER,
            ShaderType::TessEvaluation => TESS_EVALUATION_SHADER,
        }
    }

    /// The number by which OpenGL knows this kind of shader.
    #[verifier::when_used_as_spec(spec_value)]
    pub fn value(&self) -> (value: u32)
        ensures
            value == self.spec_value(),
    {
        match *self {
            ShaderType::Vertex => VERTEX_SHADER,
            ShaderType::Fragment => FRAGMENT_SHADER,
            ShaderType::Geometry => GEOMETRY_SHADER,
            ShaderType::Compute => COMPUTE_SHADER,
            ShaderType::TessControl => TESS_CONTROL_SHADER,
            ShaderType::TessEvaluation => TESS_EVALUATION_SHADER,
        }
    }
}

/// What a buffer holds: vertex attributes, or indices into them.
#[derive(Clone, Copy, Debug, PartialOrd, PartialEq)]
pub enum BufferType {
    ArrayBuffer,
    ElementArrayBuffer,
}

impl BufferType {
    /// The number by which OpenGL knows this kind of buffer.
    pub open spec fn spec_value(&self) -> u32 {
        match *self {
            BufferType::ArrayBuffer => ARRAY_BUFFER,
            BufferType::ElementArrayBuffer => ELEMENT_ARRAY_BUFFER,
        }
    }

    /// The number by which OpenGL knows this kind of buffer.
    #[verifier::when_used_as_spec(spec_value)]
    pub fn value(&self) -> (value: u32)
        ensures
            value == self.spec_value(),
    {
        match *self {
            BufferType::ArrayBuffer => ARRAY_BUFFER,
            BufferType::ElementArrayBuffer => ELEMENT_ARRAY_BUFFER,
        }
    }
}

/// No two kinds of shader share a number.
pub proof fn lemma_shader_values_differ(a: ShaderType, b: ShaderType)
    ensures
        a.spec_value() == b.spec_value() <==> a == b,
{
}

} // verus!
