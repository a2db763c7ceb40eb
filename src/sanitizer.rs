//! The sanitizers the toolchain can be instrumented with.

use vstd::prelude::*;
use vstd::string::StringExecFns;

use crate::text::concat3;
use crate::text::str_equal;

verus! {

/// A sanitizer selection, single or composite, as the build system names it.
#[derive(Debug, Clone, Copy, PartialEq, Eq, Hash, Structural)]
pub enum Sanitizer {
    /// The address sanitizer.
    Address,
    /// The memory sanitizer.
    Memory,
    /// The memory sanitizer that tracks origins.
    MemoryWithOrigins,
    /// The undefined behaviour sanitizer.
    Undefined,
    /// The thread sanitizer.
    Thread,
    /// The data flow sanitizer.
    DataFlow,
    /// The address and undefined behaviour sanitizers together.
    AddressUndefined,
}

impl Sanitizer {
    /// The text that names the value on the command line and in build flags.
    pub open spec fn name(self) -> Seq<char> {
        match self {
            Sanitizer::Address => "Address"@,
            Sanitizer::Memory => "Memory"@,
            Sanitizer::MemoryWithOrigins => "MemoryWithOrigins"@,
            Sanitizer::Undefined => "Undefined"@,
            Sanitizer::Thread => "Thread"@,
            Sanitizer::DataFlow => "DataFlow"@,
            Sanitizer::AddressUndefined => "Address;Undefined"@,
        }
    }

    /// The value whose name is `s`, if there is one.
    pub open spec fn named(s: Seq<char>) -> Option<Sanitizer> {
        if s == "Address"@ {
            Some(Sanitizer::Address)
        } else if s == "Memory"@ {
            Some(Sanitizer::Memory)
        } else if s == "MemoryWithOrigins"@ {
            Some(Sanitizer::MemoryWithOrigins)
        } else if s == "Undefined"@ {
            Some(Sanitizer::Undefined)
        } else if s == "Thread"@ {
            Some(Sanitizer::Thread)
        } else if s == "DataFlow"@ {
            Some(Sanitizer::DataFlow)
        } else if s == "Address;Undefined"@ {
            Some(Sanitizer::AddressUndefined)
        } else {
            None
        }
    }

    /// The error text for a name that stands for no value.
    pub open spec fn unknown_message(s: Seq<char>) -> Seq<char> {
        "Unsupported sanitizer: `"@ + s + "`"@
    }

    /// The name of the value, as a new string.
    pub fn to_string(&self) -> (r: String)
        ensures
            r@ == self.name(),
    {
        let s: &str = match self {
            Sanitizer::Address => "Address",
            Sanitizer::Memory => "Memory",
            Sanitizer::MemoryWithOrigins => "MemoryWithOrigins",
            Sanitizer::Undefined => "Undefined",
            Sanitizer::Thread => "Thread",
            Sanitizer::DataFlow => "DataFlow",
            Sanitizer::AddressUndefined => "Address;Undefined",
        };
        String::from_str(s)
    }

    /// Reads a value from its name; any other text is refused with a message
    /// that quotes it.
    pub fn from_str(value: &str) -> (r: Result<Sanitizer, String>)
        ensures
            match Self::named(value@) {
                Some(v) => r == Ok::<Sanitizer, String>(v),
                None => r.is_err() && r->Err_0@ == Self::unknown_message(value@),
            },
    {
        if str_equal(value, "Address") {
            return Ok(Sanitizer::Address);
        }
        if str_equal(value, "Memory") {
            return Ok(Sanitizer::Memory);
        }
        if str_equal(value, "MemoryWithOrigins") {
            return Ok(Sanitizer::MemoryWithOrigins);
        }
        if str_equal(value, "Undefined") {
            return Ok(Sanitizer::Undefined);
        }
        if str_equal(value, "Thread") {
            return Ok(Sanitizer::Thread);
        }
        if str_equal(value, "DataFlow") {
            return Ok(Sanitizer::DataFlow);
        }
        if str_equal(value, "Address;Undefined") {
            return Ok(Sanitizer::AddressUndefined);
        }
        Err(concat3("Unsupported sanitizer: `", value, "`"))
    }
}

} // verus!
