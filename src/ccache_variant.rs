//! The compiler caches a build can be run through.

use vstd::prelude::*;
use vstd::string::StringExecFns;

use crate::text::concat3;
use crate::text::str_equal;

verus! {

/// A compiler cache used as the compiler launcher.
#[derive(Debug, Clone, Copy, PartialEq, Eq, Hash, Structural)]
pub enum CcacheVariant {
    /// The `ccache` cache.
    Ccache,
    /// The `sccache` cache.
    Sccache,
}

impl CcacheVariant {
    /// The text that names the value on the command line and in build flags.
    pub open spec fn name(self) -> Seq<char> {
        match self {
            CcacheVariant::Ccache => "ccache"@,
            CcacheVariant::Sccache => "sccache"@,
        }
    }

    /// The value whose name is `s`, if there is one.
    pub open spec fn named(s: Seq<char>) -> Option<CcacheVariant> {
        if s == "ccache"@ {
            Some(CcacheVariant::Ccache)
        } else if s == "sccache"@ {
            Some(CcacheVariant::Sccache)
        } else {
            None
        }
    }

    /// The error text for a name that stands for no value.
    pub open spec fn unknown_message(s: Seq<char>) -> Seq<char> {
        "Unsupported ccache variant: `"@ + s + "`"@
    }

    /// The name of the value, as a new string.
    pub fn to_string(&self) -> (r: String)
        ensures
            r@ == self.name(),
    {
        let s: &str = match self {
            CcacheVariant::Ccache => "ccache",
            CcacheVariant::Sccache => "sccache",
        };
        String::from_str(s)
    }

    /// Reads a value from its name; any other text is refused with a message
    /// that quotes it.
    pub fn from_str(value: &str) -> (r: Result<CcacheVariant, String>)
        ensures
            match Self::named(value@) {
                Some(v) => r == Ok::<CcacheVariant, String>(v),
                None => r.is_err() && r->Err_0@ == Self::unknown_message(value@),
            },
    {
        if str_equal(value, "ccache") {
            return Ok(CcacheVariant::Ccache);
        }
        if str_equal(value, "sccache") {
            return Ok(CcacheVariant::Sccache);
        }
        Err(concat3("Unsupported ccache variant: `", value, "`"))
    }
}

} // verus!
