pub mod builder_struct;
pub mod fields;

use vstd::prelude::*;
use vstd::string::StringExecFns;
use crate::types::StructDef;
use builder_struct::{
    builder_struct_text, get_builder_struct, impl_builder, impl_builder_text, init_builder_struct,
    init_builder_text, setters_ok, views_of,
};
use fields::{FieldV, def_view, fields_parse_ok, parse_fields};

verus! {

/// The classification of every field of a struct definition.
pub open spec fn def_views(fs: Seq<crate::types::FieldDef>) -> Seq<FieldV> {
    fs.map_values(|f: crate::types::FieldDef| def_view(f))
}

/// What the builder generator demands of its input: every field parses,
/// and every field with a well-formed `each` attribute carries an element
/// type.
pub open spec fn builder_input_ok(d: StructDef) -> bool {
    &&& fields_parse_ok(d.fields@)
    &&& setters_ok(def_views(d.fields@))
}

/// Everything the builder generator emits for one struct definition: a
/// `builder()` constructor on the struct, the builder struct itself, and
/// the builder's `impl` block.
pub open spec fn builder_derive_text(d: StructDef) -> Seq<char> {
    let vs = def_views(d.fields@);
    let bname = d.name@ + "Builder"@;
    "impl "@ + d.name@ + " {\n    pub fn builder() -> "@ + bname + " {\n        "@
        + init_builder_text(vs, bname) + "\n    }\n}\n"@ + builder_struct_text(vs, bname)
        + impl_builder_text(vs, bname, d.name@)
}

/// Generates the builder companion of a struct definition: the
/// `builder()` constructor, the builder struct whose fields hold the
/// pending values, and the setters and `build` method on it.
pub fn derive(input: &StructDef) -> (r: String)
    requires
        builder_input_ok(*input),
    ensures
        r@ == builder_derive_text(*input),
{
    let fields = parse_fields(input);
    proof {
        let a = views_of(fields@);
        let b = def_views(input.fields@);
        assert forall|i: int| 0 <= i < a.len() implies a[i] == b[i] by {
            assert(fields@[i]@ == def_view(input.fields@[i]));
        }
        assert(a =~= b);
    }
    let mut builder_struct_name: String = input.name.clone();
    builder_struct_name.append("Builder");
    let builder_struct = get_builder_struct(&fields, builder_struct_name.as_str());
    let impl_block = impl_builder(&fields, builder_struct_name.as_str(), input.name.as_str());
    let init_builder = init_builder_struct(&fields, builder_struct_name.as_str());
    let mut out: String = "impl ".to_owned();
    out.append(input.name.as_str());
    out.append(" {\n    pub fn builder() -> ");
    out.append(builder_struct_name.as_str());
    out.append(" {\n        ");
    out.append(init_builder.as_str());
    out.append("\n    }\n}\n");
    out.append(builder_struct.as_str());
    out.append(impl_block.as_str());
    proof {
        assert(out@ =~= builder_derive_text(*input));
    }
    out
}

} // verus!
