use vstd::prelude::*;
use vstd::string::*;

verus! {

/// The pipeline stage that a shader is written for.
#[derive(Clone, Copy, Debug, PartialEq, Eq, Structural)]
pub enum Kind {
    Vertex,
    Fragment,
}

/// Why a shader could not be loaded.
#[derive(Debug, PartialEq, Eq)]
pub enum Error {
    /// The compiler refused the source. The text names the shader and holds
    /// the log of the compiler.
    CompileError(String),
}

pub struct Loader {}

/// The text of the error for a shader that did not compile.
pub open spec fn compile_error_message(name: Seq<char>, log: Seq<char>) -> Seq<char> {
    "Failed to compile shader '"@ + name + "':\nLog: "@ + log
}

impl Loader {
    /// What compiling the shader `name` comes to, given what the compiler
    /// made of its source: the binary, or the log of the compiler under the
    /// name of the shader.
    pub fn compiled(name: &str, outcome: Result<Vec<u8>, String>) -> (r: Result<Vec<u8>, Error>)
        ensures
            match outcome {
                Ok(binary) => r == Ok::<Vec<u8>, Error>(binary),
                Err(log) => r matches Err(Error::CompileError(message)) && message@
                    == compile_error_message(name@, log@),
            },
    {
        match outcome {
            Ok(binary) => Ok(binary),
            Err(log) => {
                let mut message = String::new();
                message.append("Failed to compile shader '");
                message.append(name);
                message.append("':\nLog: ");
                message.append(log.as_str());
                Err(Error::CompileError(message))
            },
        }
    }
}

} // verus!
