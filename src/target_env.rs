//! The C library flavours the toolchain can be built against.

use vstd::prelude::*;
use vstd::string::StringExecFns;

use crate::text::concat3;
use crate::text::str_equal;

verus! {

/// The C library that the built toolchain targets.
#[derive(Debug, Clone, Copy, PartialEq, Eq, Hash, Structural)]
pub enum TargetEnv {
    /// The GNU C library.
    GNU,
    /// The musl C library.
    MUSL,
}

impl TargetEnv {
    /// The text that names the value on the command line and in build flags.
    pub open spec fn name(self) -> Seq<char> {
        match self {
            TargetEnv::GNU => "gnu"@,
            TargetEnv::MUSL => "musl"@,
        }
    }

    /// The value whose name is `s`, if there is one.
    pub open spec fn named(s: Seq<char>) -> Option<TargetEnv> {
        if s == "gnu"@ {
            Some(TargetEnv::GNU)
        } else if s == "musl"@ {
            Some(TargetEnv::MUSL)
        } else {
            None
        }
    }

    /// The error text for a name that stands for no value.
    pub open spec fn unknown_message(s: Seq<char>) -> Seq<char> {
        "Unsupported target environment: `"@ + s + "`"@
    }

    /// The name of the value, as a new string.
    pub fn to_string(&self) -> (r: String)
        ensures
            r@ == self.name(),
    {
        let s: &str = match self {
            TargetEnv::GNU => "gnu",
            TargetEnv::MUSL => "musl",
        };
        String::from_str(s)
    }

    /// Reads a value from its name; any other text is refused with a message
    /// that quotes it.
    pub fn from_str(value: &str) -> (r: Result<TargetEnv, String>)
        ensures
            match Self::named(value@) {
                Some(v) => r == Ok::<TargetEnv, String>(v),
                None => r.is_err() && r->Err_0@ == Self::unknown_message(value@),
            },
    {
        if str_equal(value, "gnu") {
            return Ok(TargetEnv::GNU);
        }
        if str_equal(value, "musl") {
            return Ok(TargetEnv::MUSL);
        }
        Err(concat3("Unsupported target environment: `", value, "`"))
    }
}

} // verus!
