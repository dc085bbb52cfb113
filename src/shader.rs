use vstd::prelude::*;

use crate::glenum;

verus! {

/// A compiled shader object of the graphics backend, known by its name there.
#[derive(Debug)]
pub struct Shader {
    id: u32,
}

/// A shader of the vertex stage.
#[derive(Debug)]
pub struct VertexShader(pub Shader);

/// A shader of the fragment stage.
#[derive(Debug)]
pub struct FragmentShader(pub Shader);

impl Shader {
    pub closed spec fn spec_id(&self) -> u32 {
        self.id
    }

    /// The outcome of compiling the shader object named `id`: the shader when the
    /// compile status is nonzero, else the compiler's log as the error.
    pub fn from_compile_status(id: u32, status: i32, log: String) -> (r: Result<Shader, String>)
        ensures
            status != 0 ==> (r matches Ok(s) && s.spec_id() == id),
            status == 0 ==> (r matches Err(e) && e@ == log@),
    {
        if status == 0 {
            Err(log)
        } else {
            Ok(Shader { id })
        }
    }

    pub fn id(&self) -> (v: u32)
        ensures
            v == self.spec_id(),
    {
        self.id
    }
}

impl VertexShader {
    /// The shader kind to create for this stage.
    pub fn kind() -> (k: u32)
        ensures
            k == glenum::VERTEX_SHADER,
    {
        glenum::VERTEX_SHADER
    }

    /// The outcome of compiling a vertex shader, as `Shader::from_compile_status`.
    pub fn from_source(id: u32, status: i32, log: String) -> (r: Result<VertexShader, String>)
        ensures
            status != 0 ==> (r matches Ok(s) && s.0.spec_id() == id),
            status == 0 ==> (r matches Err(e) && e@ == log@),
    {
        match Shader::from_compile_status(id, status, log) {
            Ok(s) => Ok(VertexShader(s)),
            Err(e) => Err(e),
        }
    }
}

impl FragmentShader {
    /// The shader kind to create for this stage.
    pub fn kind() -> (k: u32)
        ensures
            k == glenum::FRAGMENT_SHADER,
    {
        glenum::FRAGMENT_SHADER
    }

    /// The outcome of compiling a fragment shader, as `Shader::from_compile_status`.
    pub fn from_source(id: u32, status: i32, log: String) -> (r: Result<FragmentShader, String>)
        ensures
            status != 0 ==> (r matches Ok(s) && s.0.spec_id() == id),
            status == 0 ==> (r matches Err(e) && e@ == log@),
    {
        match Shader::from_compile_status(id, status, log) {
            Ok(s) => Ok(FragmentShader(s)),
            Err(e) => Err(e),
        }
    }
}

/// A linked shader program of the graphics backend, known by its name there.
#[derive(Debug)]
pub struct Program {
    id: u32,
}

impl Program {
    pub closed spec fn spec_id(&self) -> u32 {
        self.id
    }

    /// The outcome of linking the program object named `id`: the program when the
    /// link status is nonzero, else the linker's log as the error.
    pub fn from_link_status(id: u32, status: i32, log: String) -> (r: Result<Program, String>)
        ensures
            status != 0 ==> (r matches Ok(p) && p.spec_id() == id),
            status == 0 ==> (r matches Err(e) && e@ == log@),
    {
        if status == 0 {
            Err(log)
        } else {
            Ok(Program { id })
        }
    }

    pub fn id(&self) -> (v: u32)
        ensures
            v == self.spec_id(),
    {
        self.id
    }
}

} // verus!
