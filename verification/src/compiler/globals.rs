use vstd::prelude::*;

verus! {

/// A global exported by the interpreter runtime module.
#[derive(Copy, Clone, Debug, Eq, PartialEq, Hash, Structural)]
pub enum RuntimeGlobal {
    NullPointer,
}

impl RuntimeGlobal {
    /// The name under which the runtime module exports this global.
    pub fn name(self) -> (result: &'static str)
        ensures
            self == RuntimeGlobal::NullPointer ==> result@ == "NULL"@,
    {
        match self {
            RuntimeGlobal::NullPointer => "NULL",
        }
    }
}

} // verus!
