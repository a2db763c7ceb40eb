//! The target triples that the toolchain can default to.

use vstd::prelude::*;
use vstd::string::StringExecFns;

use crate::text::concat3;
use crate::text::str_equal;

verus! {

/// A default target triple of the built toolchain.
#[derive(Debug, Clone, Copy, PartialEq, Eq, Hash, Structural)]
pub enum TargetTriple {
    /// The EraVM back end.
    EraVM,
    /// The EVM back end.
    EVM,
}

impl TargetTriple {
    /// The text that names the value on the command line and in build flags.
    pub open spec fn name(self) -> Seq<char> {
        match self {
            TargetTriple::EraVM => "eravm"@,
            TargetTriple::EVM => "evm"@,
        }
    }

    /// The value whose name is `s`, if there is one.
    pub open spec fn named(s: Seq<char>) -> Option<TargetTriple> {
        if s == "eravm"@ {
            Some(TargetTriple::EraVM)
        } else if s == "evm"@ {
            Some(TargetTriple::EVM)
        } else {
            None
        }
    }

    /// The error text for a name that stands for no value.
    pub open spec fn unknown_message(s: Seq<char>) -> Seq<char> {
        "Unsupported target triple: `"@ + s + "`"@
    }

    /// The name of the value, as a new string.
    pub fn to_string(&self) -> (r: String)
        ensures
            r@ == self.name(),
    {
        let s: &str = match self {
            TargetTriple::EraVM => "eravm",
            TargetTriple::EVM => "evm",
        };
        String::from_str(s)
    }

    /// Reads a value from its name; any other text is refused with a message
    /// that quotes it.
    pub fn from_str(value: &str) -> (r: Result<TargetTriple, String>)
        ensures
            match Self::named(value@) {
                Some(v) => r == Ok::<TargetTriple, String>(v),
                None => r.is_err() && r->Err_0@ == Self::unknown_message(value@),
            },
    {
        if str_equal(value, "eravm") {
            return Ok(TargetTriple::EraVM);
        }
        if str_equal(value, "evm") {
            return Ok(TargetTriple::EVM);
        }
        Err(concat3("Unsupported target triple: `", value, "`"))
    }
}

} // verus!
