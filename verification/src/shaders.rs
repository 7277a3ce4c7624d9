//! The render programs' bookkeeping: each wraps the registry of one
//! shader program.  Compiling, linking and drawing belong to the
//! graphics layer; what is kept here is which named slots each program
//! has registered.

use vstd::prelude::*;
use crate::program_unit::ProgramUnit;

verus! {

/// The program that draws the domain's axis lines.
pub struct LinesRenderProgram {
    pub program: ProgramUnit,
}

impl LinesRenderProgram {
    /// A lines program with nothing registered yet.
    pub fn new() -> (p: LinesRenderProgram)
        ensures
            forall|name: Seq<char>| #[trigger] p.program.spec_uniform(name) is None,
            forall|name: Seq<char>| #[trigger] p.program.spec_attribute(name) is None,
    {
        LinesRenderProgram { program: ProgramUnit::new() }
    }
}

/// The program that draws the spinning triangle.
pub struct TriangleRenderProgram {
    pub program: ProgramUnit,
}

impl TriangleRenderProgram {
    /// A triangle program with nothing registered yet.
    pub fn new() -> (p: TriangleRenderProgram)
        ensures
            forall|name: Seq<char>| #[trigger] p.program.spec_uniform(name) is None,
            forall|name: Seq<char>| #[trigger] p.program.spec_attribute(name) is None,
    {
        TriangleRenderProgram { program: ProgramUnit::new() }
    }
}

} // verus!
