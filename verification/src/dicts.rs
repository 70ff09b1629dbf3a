//! One binding per dictionary of the catalog.
//!
//! Dictionaries are carried by the object-handle runtime as they are, so each
//! visible dictionary re-exports the runtime's type under the catalog name.

use vstd::prelude::*;
use vstd::string::StringExecFns;

use crate::registry::{Dictionary, NamedType, Registry};
use crate::text::str_eq;

verus! {

/// The binding of one catalog entry: empty unless the entry is a visible
/// dictionary. One runtime type is spelled otherwise than its catalog name
/// and is re-exported under an alias.
pub open spec fn dict_line(e: (String, NamedType)) -> Seq<char> {
    match e.1 {
        NamedType::Dictionary(d) => {
            if d.is_hidden {
                Seq::empty()
            } else if e.0@ == "WebGLContextAttributes"@ {
                "pub use web_sys::WebGlContextAttributes as WebGLContextAttributes;\n"@
            } else {
                "pub use web_sys::"@ + e.0@ + ";\n"@
            }
        },
        _ => Seq::empty(),
    }
}

/// The dictionary lines of `s`, in catalog order.
pub open spec fn dicts_fold(s: Seq<(String, NamedType)>) -> Seq<char>
    decreases s.len(),
{
    if s.len() == 0 {
        Seq::empty()
    } else {
        dicts_fold(s.drop_last()) + dict_line(s.last())
    }
}

/// The whole dictionary section.
pub open spec fn write_dicts_spec(reg: Registry) -> Seq<char> {
    dicts_fold(reg.entries@)
}

fn write_dictionary(name: &String, dictionary: &Dictionary, _registry: &Registry, dest: &mut String)
    ensures
        final(dest)@ == old(dest)@ + dict_line(
            (
                (*name),
                NamedType::Dictionary(
                    Dictionary { is_hidden: dictionary.is_hidden },
                ),
            ),
        ),
{
    if dictionary.is_hidden {
        return ;
    }
    if str_eq(name.as_str(), "WebGLContextAttributes") {
        dest.append("pub use web_sys::WebGlContextAttributes as WebGLContextAttributes;\n");
    } else {
        dest.append("pub use web_sys::");
        dest.append(name.as_str());
        dest.append(";\n");
        assert(dest@ =~= old(dest)@ + ("pub use web_sys::"@ + name@ + ";\n"@));
    }
}

/// Emit the dictionary section for every dictionary of the catalog.
pub fn write(registry: &Registry) -> (r: String)
    ensures
        r@ == write_dicts_spec(*registry),
{
    let ghost s0 = registry.entries@;
    let mut out = String::new();
    proof {
        assert(s0.take(0) =~= Seq::<(String, NamedType)>::empty());
    }
    let mut i: usize = 0;
    while i < registry.entries.len()
        invariant
            s0 == registry.entries@,
            i <= s0.len(),
            out@ == dicts_fold(s0.take(i as int)),
        decreases s0.len() - i,
    {
        proof {
            assert(s0.take(i + 1).drop_last() =~= s0.take(i as int));
            assert(s0.take(i + 1).last() == s0[i as int]);
        }
        match &registry.entries[i].1 {
            NamedType::Dictionary(d) => {
                let name = &registry.entries[i].0;
                write_dictionary(name, d, registry, &mut out);
                assert(NamedType::Dictionary(Dictionary { is_hidden: d.is_hidden }) == s0[
                    i as int].1);
            },
            _ => {
                assert(out@ == dicts_fold(s0.take(i as int)) + Seq::<char>::empty());
            },
        }
        i = i + 1;
    }
    proof {
        assert(s0.take(i as int) =~= s0);
    }
    out
}

} // verus!
