//! Keeping an up-to-date compiled copy of a shader-slang source file.
//!
//! A watcher outside the library recompiles the file with `slangc` whenever
//! it changes and hands the results over; the library decides what the
//! compiler is asked and what its answers mean.
use vstd::prelude::*;

verus! {

/// The arguments with which `slangc` compiles `shader_source_path` to SPIR-V
/// on its standard output, with matrices laid out column-major.
pub fn compiler_args(shader_source_path: &str) -> (r: Vec<String>)
    ensures
        r@.len() == 5,
        r@[0]@ == "-matrix-layout-column-major"@,
        r@[1]@ == "-target"@,
        r@[2]@ == "spirv"@,
        r@[3]@ == "--"@,
        r@[4]@ == shader_source_path@,
{
    let mut r = Vec::new();
    r.push(String::from_str("-matrix-layout-column-major"));
    r.push(String::from_str("-target"));
    r.push(String::from_str("spirv"));
    r.push(String::from_str("--"));
    r.push(String::from_str(shader_source_path));
    r
}

/// The error returned when the compiler rejects the shader, with what the
/// compiler wrote to its error stream.
#[derive(Debug, PartialEq, Eq)]
pub struct CompileError {
    pub message: String,
}

/// The heading of a compile error's message.
pub open spec fn compile_error_heading() -> Seq<char> {
    "Error when compiling shader!\n\n"@
}

/// Reads the compiler's answer: the SPIR-V bytes it wrote to its standard
/// output when it succeeded, otherwise an error that quotes its error stream.
pub fn try_compile_shader_file(success: bool, stdout: Vec<u8>, stderr: &str) -> (r: Result<
    Vec<u8>,
    CompileError,
>)
    ensures
        success ==> (r matches Ok(bytes) && bytes@ == stdout@),
        !success ==> (r matches Err(e) && e.message@ == compile_error_heading() + stderr@),
{
    if !success {
        let mut message = String::from_str("Error when compiling shader!\n\n");
        message.append(stderr);
        return Err(CompileError { message });
    }
    Ok(stdout)
}

/// What a non-blocking look at the compiler's channel found.
#[derive(Debug, PartialEq, Eq)]
pub enum ShaderUpdate {
    /// Freshly compiled SPIR-V bytes.
    Received(Vec<u8>),
    /// Nothing new.
    Empty,
    /// The compiler thread has gone away.
    Disconnected,
}

/// The error returned when the compiler thread has gone away.
#[derive(Debug, Clone, Copy, PartialEq, Eq)]
pub struct CompilerDisconnected;

/// The most recent compiled SPIR-V bytes of a watched shader.
#[derive(Debug)]
pub struct Recompiler {
    compiled_shader_bytes: Vec<u8>,
}

impl Recompiler {
    pub closed spec fn spec_bytes(&self) -> Seq<u8> {
        self.compiled_shader_bytes@
    }

    /// Starts from the outcome of the initial compilation: its bytes when
    /// it succeeded; when it failed, the recompiler refuses to start and
    /// gives back the compiler's error.
    pub fn new(initial_build: Result<Vec<u8>, CompileError>) -> (r: Result<Self, CompileError>)
        ensures
            initial_build is Ok <==> r is Ok,
            r matches Ok(recompiler) ==> (initial_build matches Ok(bytes) && recompiler.spec_bytes()
                == bytes@),
            r matches Err(e) ==> initial_build == Err::<Vec<u8>, CompileError>(e),
    {
        match initial_build {
            Ok(bytes) => Ok(Recompiler { compiled_shader_bytes: bytes }),
            Err(e) => Err(e),
        }
    }

    /// Returns the most up-to-date copy of the shader's compiled SPIR-V bytes.
    pub fn current_shader_bytes(&self) -> (r: &[u8])
        ensures
            r@ == self.spec_bytes(),
    {
        self.compiled_shader_bytes.as_slice()
    }

    /// Takes in what the compiler's channel held: new bytes replace the
    /// current ones and give `true`, nothing new gives `false`, and a
    /// vanished compiler is an error. The bytes change only on new bytes.
    pub fn check_for_update(&mut self, update: ShaderUpdate) -> (r: Result<bool, CompilerDisconnected>)
        ensures
            update matches ShaderUpdate::Received(bytes) ==> (r == Ok::<bool, CompilerDisconnected>(true)
                && final(self).spec_bytes() == bytes@),
            update is Empty ==> r == Ok::<bool, CompilerDisconnected>(false)
                && final(self).spec_bytes() == old(self).spec_bytes(),
            update is Disconnected ==> r == Err::<bool, CompilerDisconnected>(CompilerDisconnected)
                && final(self).spec_bytes() == old(self).spec_bytes(),
    {
        match update {
            ShaderUpdate::Received(new_shader_bytes) => {
                self.compiled_shader_bytes = new_shader_bytes;
                Ok(true)
            },
            ShaderUpdate::Empty => Ok(false),
            ShaderUpdate::Disconnected => Err(CompilerDisconnected),
        }
    }
}

} // verus!
