//! The failures a shader program can report: compilation, linking, and
//! named-slot lookup, each carrying the driver's own account.

use vstd::prelude::*;
use vstd::string::StringExecFns;

verus! {

/// What went wrong while a shader program was being built or queried.
#[derive(Debug)]
pub enum ShaderError {
    /// A shader stage failed to compile; the payload is the info log.
    Compilation(String),
    /// The program failed to link; the payload is the info log.
    Linking(String),
    /// A named attribute or uniform was not found; the payload says
    /// which.
    Lookup(String),
}

impl ShaderError {
    /// The human-readable account of the failure: the kind of error,
    /// then the payload.
    pub fn message(&self) -> (r: String)
        ensures
            self matches ShaderError::Compilation(s) ==> r@ == "Shader compilation error: "@
                + s@,
            self matches ShaderError::Linking(s) ==> r@ == "Shader linking error: "@ + s@,
            self matches ShaderError::Lookup(s) ==> r@ == "Shader lookup error: "@ + s@,
    {
        match self {
            ShaderError::Compilation(s) => String::from_str("Shader compilation error: ").concat(
                s.as_str(),
            ),
            ShaderError::Linking(s) => String::from_str("Shader linking error: ").concat(
                s.as_str(),
            ),
            ShaderError::Lookup(s) => String::from_str("Shader lookup error: ").concat(s.as_str()),
        }
    }
}

/// The decision at the end of a shader-stage compile: a raised success
/// flag passes, a lowered one reports the driver's info log as a
/// compilation error.
pub fn compilation_outcome(success: bool, info_log: String) -> (r: Result<(), ShaderError>)
    ensures
        success ==> r is Ok,
        !success ==> (r matches Err(ShaderError::Compilation(s)) && s@ == info_log@),
{
    if success {
        Ok(())
    } else {
        Err(ShaderError::Compilation(info_log))
    }
}

/// The decision at the end of a program link, under the same protocol as
/// `compilation_outcome`.
pub fn linking_outcome(success: bool, info_log: String) -> (r: Result<(), ShaderError>)
    ensures
        success ==> r is Ok,
        !success ==> (r matches Err(ShaderError::Linking(s)) && s@ == info_log@),
{
    if success {
        Ok(())
    } else {
        Err(ShaderError::Linking(info_log))
    }
}

} // verus!
