pub mod fields;

use vstd::prelude::*;
use vstd::string::StringExecFns;
use crate::types::{FieldDef, StructDef, escape_lit, escaped};
use fields::{FieldInfo, FieldV, def_view, fields_parse_ok, parse_fields};

verus! {

/// The ghost contents of a sequence of parsed fields.
pub open spec fn views_of(fs: Seq<FieldInfo>) -> Seq<FieldV> {
    fs.map_values(|f: FieldInfo| f@)
}

/// The classification of every field of a struct definition.
pub open spec fn def_views(fs: Seq<FieldDef>) -> Seq<FieldV> {
    fs.map_values(|f: FieldDef| def_view(f))
}

/// One `.field(...)` call of the formatted-output implementation.  A field
/// whose attribute carries a format string is rendered through that
/// string; any other field is rendered directly.
pub open spec fn debug_field_item(f: FieldV) -> Seq<char> {
    match f.debug_attr {
        Some(kv) => "            .field(\""@ + f.name + "\", &format_args!(\""@ + escaped(kv.1)
            + "\", &self."@ + f.name + "))\n"@,
        None => "            .field(\""@ + f.name + "\", &self."@ + f.name + ")\n"@,
    }
}

pub open spec fn debug_fields_from(fs: Seq<FieldV>, i: int) -> Seq<char>
    decreases fs.len() - i,
{
    if i < 0 || i >= fs.len() {
        Seq::empty()
    } else {
        debug_field_item(fs[i]) + debug_fields_from(fs, i + 1)
    }
}

/// The whole formatted-output implementation for a struct: a debug
/// builder opened with the struct's name, one `.field(...)` call per
/// field, then `.finish()`.
pub open spec fn impl_debug_text(fs: Seq<FieldV>, name: Seq<char>) -> Seq<char> {
    "impl std::fmt::Debug for "@ + name
        + " {\n    fn fmt(&self, f: &mut std::fmt::Formatter<'_>) -> std::fmt::Result {\n        f.debug_struct(\""@
        + name + "\")\n"@ + debug_fields_from(fs, 0) + "            .finish()\n    }\n}\n"@
}

/// Emits the formatted-output implementation for the named struct.
pub fn impl_debug(fields: Vec<FieldInfo>, name: &str) -> (r: String)
    ensures
        r@ == impl_debug_text(views_of(fields@), name@),
{
    let ghost vs = views_of(fields@);
    let mut out: String = "impl std::fmt::Debug for ".to_owned();
    out.append(name);
    out.append(" {\n    fn fmt(&self, f: &mut std::fmt::Formatter<'_>) -> std::fmt::Result {\n        f.debug_struct(\"");
    out.append(name);
    out.append("\")\n");
    let ghost head = out@;
    let mut i: usize = 0;
    while i < fields.len()
        invariant
            vs == views_of(fields@),
            vs.len() == fields@.len(),
            0 <= i <= fields@.len(),
            out@ + debug_fields_from(vs, i as int) == head + debug_fields_from(vs, 0),
        decreases fields@.len() - i,
    {
        let f = &fields[i];
        let ghost out0 = out@;
        out.append("            .field(\"");
        out.append(f.name.as_str());
        match &f.debug_attr {
            Some(kv) => {
                out.append("\", &format_args!(\"");
                let fmt = escape_lit(kv.1.as_str());
                out.append(fmt.as_str());
                out.append("\", &self.");
                out.append(f.name.as_str());
                out.append("))\n");
            },
            None => {
                out.append("\", &self.");
                out.append(f.name.as_str());
                out.append(")\n");
            },
        }
        proof {
            assert(vs[i as int] == fields@[i as int]@);
            assert(out@ =~= out0 + debug_field_item(vs[i as int]));
            assert(out@ + debug_fields_from(vs, i + 1) =~= out0 + debug_fields_from(vs, i as int));
        }
        i += 1;
    }
    proof {
        assert(out@ =~= head + debug_fields_from(vs, 0));
    }
    out.append("            .finish()\n    }\n}\n");
    proof {
        assert(out@ =~= impl_debug_text(vs, name@));
    }
    out
}

/// What the formatted-output generator demands of its input: the leading
/// attribute of every field walks down to a `key = "value"` pair.
pub open spec fn debug_input_ok(d: StructDef) -> bool {
    fields_parse_ok(d.fields@)
}

/// Everything the formatted-output generator emits for one struct
/// definition.
pub open spec fn debug_derive_text(d: StructDef) -> Seq<char> {
    impl_debug_text(def_views(d.fields@), d.name@)
}

/// Generates the formatted-output implementation of a struct definition:
/// each field is printed under its name, through its attribute's format
/// string when one is given.
pub fn derive(input: &StructDef) -> (r: String)
    requires
        debug_input_ok(*input),
    ensures
        r@ == debug_derive_text(*input),
{
    let fields = parse_fields(input);
    proof {
        let a = views_of(fields@);
        let b = def_views(input.fields@);
        assert forall|i: int| 0 <= i < a.len() implies a[i] == b[i] by {
            assert(fields@[i]@ == def_view(input.fields@[i]));
        }
        assert(a =~= b);
    }
    impl_debug(fields, input.name.as_str())
}

} // verus!
