//! What the system status says of the machine: its processor, memory and
//! name, and whether the processor's power limits can be set.

use vstd::prelude::*;

use crate::text::{owned_text, same_text};

verus! {

/// The vendor text of AMD processors, whose power limits the application sets.
pub open spec fn power_limit_vendor(vendor: Seq<char>) -> bool {
    vendor == "AuthenticAMD"@
}

/// Whether the power limits of a processor of this vendor can be set.
pub fn supports_power_limit(vendor: &str) -> (r: bool)
    ensures
        r == power_limit_vendor(vendor@),
{
    same_text(vendor, "AuthenticAMD")
}

/// What identifies the machine.
#[derive(Debug)]
pub struct Identifier {
    pub cpu_vendor: String,
    pub cpu_name: String,
    pub mem_total: u64,
    pub hostname: String,
}

impl Default for Identifier {
    /// Empty names and no memory.
    fn default() -> (i: Self)
        ensures
            i.cpu_vendor@ == Seq::<char>::empty(),
            i.cpu_name@ == Seq::<char>::empty(),
            i.mem_total == 0,
            i.hostname@ == Seq::<char>::empty(),
    {
        Identifier {
            cpu_vendor: String::new(),
            cpu_name: String::new(),
            mem_total: 0,
            hostname: String::new(),
        }
    }
}

/// A text that was read, or "Unknown" where it could not be.
pub open spec fn or_unknown(text: Option<Seq<char>>) -> Seq<char> {
    match text {
        Some(t) => t,
        None => "Unknown"@,
    }
}

fn text_or_unknown(text: Option<String>) -> (s: String)
    ensures
        s@ == or_unknown(match text {
            Some(t) => Some(t@),
            None => None,
        }),
{
    match text {
        Some(t) => t,
        None => owned_text("Unknown"),
    }
}

impl Identifier {
    /// The identifier of a machine from what could be read of it: the
    /// processor's name and vendor and the host name fall back to "Unknown",
    /// the memory size to 0.
    pub fn describe(
        cpu_name: Option<String>,
        cpu_vendor: Option<String>,
        mem_total: Option<u64>,
        hostname: Option<String>,
    ) -> (i: Identifier)
        ensures
            i.cpu_name@ == or_unknown(match cpu_name {
                Some(t) => Some(t@),
                None => None,
            }),
            i.cpu_vendor@ == or_unknown(match cpu_vendor {
                Some(t) => Some(t@),
                None => None,
            }),
            i.mem_total == (match mem_total {
                Some(m) => m,
                None => 0,
            }),
            i.hostname@ == or_unknown(match hostname {
                Some(t) => Some(t@),
                None => None,
            }),
    {
        Identifier {
            cpu_name: text_or_unknown(cpu_name),
            cpu_vendor: text_or_unknown(cpu_vendor),
            mem_total: match mem_total {
                Some(m) => m,
                None => 0,
            },
            hostname: text_or_unknown(hostname),
        }
    }
}

} // verus!
