use vstd::prelude::*;

verus! {

/// Capability set of a shader program: built from vertex and fragment
/// source, and bound or unbound on the graphics context.
pub trait Shader {
    fn new(vs: &str, fs: &str) -> Self where Self: Sized;

    fn bind(&self);

    fn unbind(&self);
}

/// Handle to a linked OpenGL shader program. Compiling and linking happen
/// in the graphics collaborator; the core only tracks the id the driver
/// assigned to the linked program.
pub struct OpenGLShader {
    program_id: u32,
}

impl OpenGLShader {
    /// The driver-assigned program id this handle stands for.
    pub closed spec fn id(&self) -> u32 {
        self.program_id
    }

    /// Wraps the id of an already linked program.
    pub fn from_program_id(program_id: u32) -> (s: Self)
        ensures
            s.id() == program_id,
    {
        OpenGLShader { program_id }
    }

    pub fn get_program_id(&self) -> (r: u32)
        ensures
            r == self.id(),
    {
        self.program_id
    }
}

} // verus!
