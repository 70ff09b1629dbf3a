//! Generator for a classic integer-handle GL binding on top of an
//! object-handle runtime.
//!
//! The crate consumes a [`registry::Registry`] describing the source API in
//! interface/dictionary/typedef terms and emits one deterministic Rust source
//! text implementing the coarser, handle-style calling convention. A failed
//! run reports a descriptive error and emits nothing.

use vstd::prelude::*;

pub mod casing;
pub mod compat;
pub mod dicts;
pub mod error;
pub mod game;
pub mod interfaces;
pub mod laws;
pub mod registry;
pub mod runtime;
pub mod text;
pub mod types;

use vstd::string::StringExecFns;

verus! {

/// The fixed header of the generated module: the banner line and the
/// binding runtime's prelude.
pub open spec fn header_text() -> Seq<char> {
    "// DO NOT CHANGE - THIS FILE IS GENERATED AUTOMATICALLY\n"@ + runtime::PRELUDE@ + "\n"@
}

/// Emit the header of the generated module.
pub fn write_header() -> (r: String)
    ensures
        r@ == header_text(),
{
    let mut out = "// DO NOT CHANGE - THIS FILE IS GENERATED AUTOMATICALLY\n".to_owned();
    out.append(runtime::PRELUDE);
    out.append("\n");
    out
}

/// The whole generated module: header and runtime prelude, type aliases,
/// dictionaries, interfaces, then the trailing constants and hand-written
/// replacements — so every alias precedes its uses and every replacement
/// follows every generically generated binding.
pub open spec fn output_spec(reg: registry::Registry) -> Result<Seq<char>, error::ErrView> {
    match types::write_defs_spec(reg) {
        Err(e) => Err(e),
        Ok(defs) => match interfaces::write_interfaces_spec(reg) {
            Err(e) => Err(e),
            Ok(ifc) => Ok(
                header_text() + defs + dicts::write_dicts_spec(reg) + ifc
                    + compat::spec_compat_text(),
            ),
        },
    }
}

/// The generator: one pass over the catalog into one output text.
pub struct WebSysGen;

impl WebSysGen {
    /// Generate the whole module for `registry` and append it to `dest`.
    /// A failed run appends nothing: no partial output is ever written.
    pub fn write(&self, registry: &registry::Registry, dest: &mut String) -> (r: Result<
        (),
        error::GenError,
    >)
        ensures
            match r {
                Ok(_) => output_spec(*registry) matches Ok(t) && final(dest)@ == old(dest)@ + t,
                Err(e) => output_spec(*registry) == Err::<Seq<char>, _>(e@) && final(dest)@ == old(
                    dest,
                )@,
            },
    {
        let defs = match types::write_defs(registry) {
            Ok(d) => d,
            Err(e) => {
                return Err(e);
            },
        };
        let ifc = match interfaces::write(registry) {
            Ok(t) => t,
            Err(e) => {
                return Err(e);
            },
        };
        let mut out = write_header();
        out.append(defs.as_str());
        let dict_text = dicts::write(registry);
        out.append(dict_text.as_str());
        out.append(ifc.as_str());
        let compat_text = compat::write(registry);
        out.append(compat_text.as_str());
        proof {
            assert(out@ =~= header_text() + defs@ + dicts::write_dicts_spec(*registry) + ifc@
                + compat::spec_compat_text());
        }
        dest.append(out.as_str());
        Ok(())
    }
}

} // verus!
