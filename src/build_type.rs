//! The optimisation profile of a toolchain build.

use vstd::prelude::*;
use vstd::string::StringExecFns;

use crate::text::concat3;
use crate::text::str_equal;

verus! {

/// The build profile handed to the build system.
#[derive(Debug, Clone, Copy, PartialEq, Eq, Hash, Structural)]
pub enum BuildType {
    /// The debug build.
    Debug,
    /// The release build.
    Release,
}

impl BuildType {
    /// The name the build system knows the profile by.
    pub open spec fn name(self) -> Seq<char> {
        match self {
            BuildType::Debug => "Debug"@,
            BuildType::Release => "Release"@,
        }
    }

    /// The profile whose name is `s`, if there is one.
    pub open spec fn named(s: Seq<char>) -> Option<BuildType> {
        if s == "Debug"@ {
            Some(BuildType::Debug)
        } else if s == "Release"@ {
            Some(BuildType::Release)
        } else {
            None
        }
    }

    /// Reads a profile from its name; any other text is refused with a
    /// message that quotes it.
    pub fn from_str(value: &str) -> (r: Result<BuildType, String>)
        ensures
            match Self::named(value@) {
                Some(v) => r == Ok::<BuildType, String>(v),
                None => r.is_err() && r->Err_0@ == "Unsupported build type: `"@ + value@ + "`"@,
            },
    {
        if str_equal(value, "Debug") {
            return Ok(BuildType::Debug);
        }
        if str_equal(value, "Release") {
            return Ok(BuildType::Release);
        }
        Err(concat3("Unsupported build type: `", value, "`"))
    }

    /// The name of the profile, as a new string.
    pub fn to_string(&self) -> (r: String)
        ensures
            r@ == self.name(),
    {
        match self {
            BuildType::Debug => String::from_str("Debug"),
            BuildType::Release => String::from_str("Release"),
        }
    }
}

impl From<bool> for BuildType {
    /// The debug profile when `is_debug` holds, the release profile otherwise.
    fn from(is_debug: bool) -> (r: BuildType)
        ensures
            r == (if is_debug { BuildType::Debug } else { BuildType::Release }),
    {
        if is_debug {
            BuildType::Debug
        } else {
            BuildType::Release
        }
    }
}

impl vstd::std_specs::convert::FromSpecImpl<bool> for BuildType {
    open spec fn obeys_from_spec() -> bool {
        true
    }

    open spec fn from_spec(is_debug: bool) -> BuildType {
        if is_debug {
            BuildType::Debug
        } else {
            BuildType::Release
        }
    }
}

} // verus!
