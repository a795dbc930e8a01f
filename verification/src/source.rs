//! The source registry: an explicit table mapping a registered type name to
//! the way its configuration fragment is interpreted and a source built.

use crate::date::Date;
use crate::ecowatt::{build_ecowatt, ecowatt_config_ok, ecowatt_matches, EcoWatt};
use crate::raw::{has_text, RawTable, RawValueView};
use crate::rte::{build_rte, rte_config_ok, rte_matches, Rte};
use crate::text::str_eq;
use vstd::prelude::*;

verus! {

/// The date bounds every source receives at construction time.
#[derive(Debug, Clone, Copy, PartialEq, Eq, Structural)]
pub struct GlobalConfig {
    pub from_date: Date,
    pub to_date: Date,
}

/// Failure to turn a configuration fragment into a source.
#[derive(Debug, PartialEq, Eq)]
pub enum Error {
    /// No source type of this name is registered.
    Unknown(String),
    /// The fragment did not fit the type's schema; carries the offending
    /// key.
    Toml(String),
}

/// A constructed data source, one variant per registered type.
#[derive(Debug)]
pub enum SourceKind {
    Rte(Rte),
    EcoWatt(EcoWatt),
}

/// Which builder a registration dispatches to.
#[derive(Debug, Clone, Copy, PartialEq, Eq, Structural)]
pub enum SourceTag {
    Rte,
    EcoWatt,
}

pub open spec fn source_known(name: Seq<char>) -> bool {
    name == "rte"@ || name == "rte-ecowatt"@
}

pub open spec fn source_config_ok(name: Seq<char>, m: Map<Seq<char>, RawValueView>) -> bool {
    if name == "rte"@ {
        rte_config_ok(m)
    } else if name == "rte-ecowatt"@ {
        ecowatt_config_ok(m)
    } else {
        false
    }
}

pub open spec fn source_matches(
    name: Seq<char>,
    m: Map<Seq<char>, RawValueView>,
    g: GlobalConfig,
    k: SourceKind,
) -> bool {
    if name == "rte"@ {
        k matches SourceKind::Rte(s) && rte_matches(m, g, s)
    } else if name == "rte-ecowatt"@ {
        k matches SourceKind::EcoWatt(s) && ecowatt_matches(m, g, s)
    } else {
        false
    }
}

pub open spec fn source_err_matches(
    name: Seq<char>,
    m: Map<Seq<char>, RawValueView>,
    e: Error,
) -> bool {
    if !source_known(name) {
        e matches Error::Unknown(n) && n@ == name
    } else if name == "rte"@ {
        e matches Error::Toml(k) && k@ == "download_folder"@
    } else {
        e matches Error::Toml(k) && k@ == if !has_text(m, "token"@) {
            "token"@
        } else {
            "sandbox"@
        }
    }
}

/// One entry of the registry: a type name and the builder it selects.
#[derive(Debug)]
pub struct Registration {
    pub name: String,
    pub tag: SourceTag,
}

impl Registration {
    pub fn new(name: String, tag: SourceTag) -> (r: Registration)
        ensures
            r.name == name,
            r.tag == tag,
    {
        Registration { name, tag }
    }

    /// The registered source types; populated once, before any topology is
    /// built.
    pub fn registrations() -> (r: Vec<Registration>)
        ensures
            r@.len() == 2,
            r@[0].name@ == "rte"@ && r@[0].tag == SourceTag::Rte,
            r@[1].name@ == "rte-ecowatt"@ && r@[1].tag == SourceTag::EcoWatt,
    {
        let mut v: Vec<Registration> = Vec::new();
        v.push(Registration::new("rte".to_owned(), SourceTag::Rte));
        v.push(Registration::new("rte-ecowatt".to_owned(), SourceTag::EcoWatt));
        v
    }

    /// Look `name` up and build the source its fragment describes.
    pub fn build(name: &str, value: &RawTable, global_config: GlobalConfig) -> (r: Result<
        SourceKind,
        Error,
    >)
        ensures
            r is Ok <==> (source_known(name@) && source_config_ok(name@, value@)),
            r matches Ok(k) ==> source_matches(name@, value@, global_config, k),
            r matches Err(e) ==> source_err_matches(name@, value@, e),
    {
        proof {
            reveal_strlit("rte");
            reveal_strlit("rte-ecowatt");
            assert("rte"@.len() == 3);
            assert("rte-ecowatt"@.len() == 11);
        }
        let regs = Self::registrations();
        let n = regs.len();
        let mut idx: usize = n;
        let mut i: usize = 0;
        while i < n
            invariant
                i <= n,
                n == regs@.len(),
                idx == n || (idx < i && regs@[idx as int].name@ == name@),
                idx == n ==> forall|j: int| 0 <= j < i ==> (#[trigger] regs@[j]).name@ != name@,
            decreases n - i,
        {
            if idx == n && str_eq(regs[i].name.as_str(), name) {
                idx = i;
            }
            i += 1;
        }
        if idx >= n {
            return Err(Error::Unknown(name.to_owned()));
        }
        let tag = regs[idx].tag;
        match tag {
            SourceTag::Rte => match build_rte(value, global_config) {
                Ok(s) => Ok(SourceKind::Rte(s)),
                Err(k) => Err(Error::Toml(k)),
            },
            SourceTag::EcoWatt => match build_ecowatt(value, global_config) {
                Ok(s) => Ok(SourceKind::EcoWatt(s)),
                Err(k) => Err(Error::Toml(k)),
            },
        }
    }
}

} // verus!
