//! Shader programs as the scene knows them: three handles of the graphics
//! library.

use vstd::prelude::*;

verus! {

/// Why a shader program could not be used.
#[derive(Clone, Copy, PartialEq, Eq, Structural, Debug)]
pub enum ShaderError {
    /// The two shaders compiled, but the program did not link.
    LinkFailed,
}

/// A shader program and the two shaders it was linked from. The handle 0
/// stands for "none".
#[derive(Clone, Copy, PartialEq, Eq, Structural, Debug)]
pub struct Shader {
    pub shader_program: u32,
    pub vertex_shader: u32,
    pub frag_shader: u32,
}

impl Shader {
    /// A shader with no handles.
    pub open spec fn spec_new() -> Shader {
        Shader { shader_program: 0, vertex_shader: 0, frag_shader: 0 }
    }

    /// A shader with no handles.
    #[verifier::when_used_as_spec(spec_new)]
    pub fn new() -> (s: Shader)
        ensures
            s == Shader::spec_new(),
    {
        Shader { shader_program: 0, vertex_shader: 0, frag_shader: 0 }
    }

    /// Records the handles of two compiled shaders and of the program they
    /// were attached to, and reports whether the program linked. The
    /// handles are kept either way, so that they can be released.
    pub fn load(
        &mut self,
        vertex_shader: u32,
        frag_shader: u32,
        shader_program: u32,
        linked: bool,
    ) -> (r: Result<(), ShaderError>)
        ensures
            *final(self) == (Shader { shader_program, vertex_shader, frag_shader }),
            r == (if linked {
                Ok::<(), ShaderError>(())
            } else {
                Err::<(), ShaderError>(ShaderError::LinkFailed)
            }),
    {
        self.vertex_shader = vertex_shader;
        self.frag_shader = frag_shader;
        self.shader_program = shader_program;
        if linked {
            Ok(())
        } else {
            Err(ShaderError::LinkFailed)
        }
    }

    /// The handles to release, in the order program, vertex shader,
    /// fragment shader.
    pub fn unload(&self) -> (handles: (u32, u32, u32))
        ensures
            handles == (self.shader_program, self.vertex_shader, self.frag_shader),
    {
        (self.shader_program, self.vertex_shader, self.frag_shader)
    }

    pub fn get_shader_program(&self) -> (handle: u32)
        ensures
            handle == self.shader_program,
    {
        self.shader_program
    }
}

} // verus!
