use vstd::prelude::*;
use vstd::string::StringExecFns;
use crate::types::{TypeArg, TypeRepr};
use super::fields::{FieldInfo, FieldV};

verus! {

/// The ghost contents of a sequence of parsed fields.
pub open spec fn views_of(fs: Seq<FieldInfo>) -> Seq<FieldV> {
    fs.map_values(|f: FieldInfo| f@)
}

/// One field declaration of the builder struct: an optional field keeps
/// its type (already an `Option`), any other field is wrapped in one.
pub open spec fn builder_field_item(f: FieldV) -> Seq<char> {
    "    "@ + f.name + ": "@ + (if f.is_optional {
        f.ty.text
    } else {
        "Option<"@ + f.ty.text + ">"@
    }) + ",\n"@
}

pub open spec fn builder_fields_from(fs: Seq<FieldV>, i: int) -> Seq<char>
    decreases fs.len() - i,
{
    if i < 0 || i >= fs.len() {
        Seq::empty()
    } else {
        builder_field_item(fs[i]) + builder_fields_from(fs, i + 1)
    }
}

/// The declaration of the builder struct, one field per source field.
pub open spec fn builder_struct_text(fs: Seq<FieldV>, name: Seq<char>) -> Seq<char> {
    "pub struct "@ + name + " {\n"@ + builder_fields_from(fs, 0) + "}\n"@
}

/// Emits the declaration of the builder struct named `name`.
pub fn get_builder_struct(fields: &Vec<FieldInfo>, name: &str) -> (r: String)
    ensures
        r@ == builder_struct_text(views_of(fields@), name@),
{
    let ghost vs = views_of(fields@);
    let mut out: String = "pub struct ".to_owned();
    out.append(name);
    out.append(" {\n");
    let ghost head = out@;
    let mut i: usize = 0;
    while i < fields.len()
        invariant
            vs == views_of(fields@),
            vs.len() == fields@.len(),
            0 <= i <= fields@.len(),
            out@ + builder_fields_from(vs, i as int) == head + builder_fields_from(vs, 0),
        decreases fields@.len() - i,
    {
        let f = &fields[i];
        let ghost out0 = out@;
        out.append("    ");
        out.append(f.name.as_str());
        out.append(": ");
        if f.is_optional {
            out.append(f.ty.text.as_str());
        } else {
            out.append("Option<");
            out.append(f.ty.text.as_str());
            out.append(">");
        }
        out.append(",\n");
        proof {
            assert(vs[i as int] == fields@[i as int]@);
            assert(out@ =~= out0 + builder_field_item(vs[i as int]));
            assert(out@ + builder_fields_from(vs, i + 1) =~= out0 + builder_fields_from(vs, i as int));
        }
        i += 1;
    }
    proof {
        assert(out@ =~= head + builder_fields_from(vs, 0));
    }
    out.append("}\n");
    proof {
        assert(out@ =~= builder_struct_text(vs, name@));
    }
    out
}

/// One field initialiser of the fresh builder: a field with an `each`
/// attribute starts as an empty list, every other field starts empty.
pub open spec fn init_field_item(f: FieldV) -> Seq<char> {
    "            "@ + f.name + ": "@ + (if f.each is Some {
        "Some(vec![])"@
    } else {
        "None"@
    }) + ",\n"@
}

pub open spec fn init_fields_from(fs: Seq<FieldV>, i: int) -> Seq<char>
    decreases fs.len() - i,
{
    if i < 0 || i >= fs.len() {
        Seq::empty()
    } else {
        init_field_item(fs[i]) + init_fields_from(fs, i + 1)
    }
}

/// The expression that builds a fresh builder value.
pub open spec fn init_builder_text(fs: Seq<FieldV>, name: Seq<char>) -> Seq<char> {
    name + " {\n"@ + init_fields_from(fs, 0) + "        }"@
}

/// Emits the expression that builds a fresh builder value.
pub fn init_builder_struct(fields: &Vec<FieldInfo>, builder_name: &str) -> (r: String)
    ensures
        r@ == init_builder_text(views_of(fields@), builder_name@),
{
    let ghost vs = views_of(fields@);
    let mut out: String = builder_name.to_owned();
    out.append(" {\n");
    let ghost head = out@;
    let mut i: usize = 0;
    while i < fields.len()
        invariant
            vs == views_of(fields@),
            vs.len() == fields@.len(),
            0 <= i <= fields@.len(),
            out@ + init_fields_from(vs, i as int) == head + init_fields_from(vs, 0),
        decreases fields@.len() - i,
    {
        let f = &fields[i];
        let ghost out0 = out@;
        out.append("            ");
        out.append(f.name.as_str());
        out.append(": ");
        if f.each.is_some() {
            out.append("Some(vec![])");
        } else {
            out.append("None");
        }
        out.append(",\n");
        proof {
            assert(vs[i as int] == fields@[i as int]@);
            assert(out@ =~= out0 + init_field_item(vs[i as int]));
            assert(out@ + init_fields_from(vs, i + 1) =~= out0 + init_fields_from(vs, i as int));
        }
        i += 1;
    }
    proof {
        assert(out@ =~= head + init_fields_from(vs, 0));
    }
    out.append("        }");
    proof {
        assert(out@ =~= init_builder_text(vs, builder_name@));
    }
    out
}

/// The first type argument of a field's type, e.g. the `String` of
/// `Vec<String>`: what the per-element setter of an `each` field takes.
pub fn get_nested_type(ty: &TypeRepr) -> (r: TypeArg)
    requires
        ty.first.args@.len() > 0,
    ensures
        r@ == ty.first.args@[0]@,
{
    ty.first.args[0].duplicate()
}

/// A whole-value setter: takes the given type and stores it.
pub open spec fn plain_setter_text(name: Seq<char>, ty_text: Seq<char>) -> Seq<char> {
    "    pub fn "@ + name + "(&mut self, "@ + name + ": "@ + ty_text
        + ") -> &mut Self {\n        self."@ + name + " = Some("@ + name
        + ");\n        self\n    }\n"@
}

/// A per-element setter: pushes one element onto the field's list.
pub open spec fn each_setter_text(fname: Seq<char>, ename: Seq<char>, elem_ty: Seq<char>) -> Seq<char> {
    "    pub fn "@ + ename + "(&mut self, "@ + ename + ": "@ + elem_ty
        + ") -> &mut Self {\n        if let Some(ref mut v) = self."@ + fname
        + " {\n            v.push("@ + ename + ");\n        }\n        self\n    }\n"@
}

/// The diagnostic emitted in place of the setters of a field whose
/// attribute key is not `each`.
pub open spec fn each_error_text() -> Seq<char> {
    "    compile_error!(\"expected `builder(each = \\\"...\\\")`\");\n"@
}

/// The inner identifier recorded for an optional field, or nothing.
pub open spec fn inner_text(f: FieldV) -> Seq<char> {
    match f.inner {
        Some(s) => s,
        None => Seq::empty(),
    }
}

/// The setters emitted for one field.  An optional field gets a setter
/// taking the inner identifier.  A field with an `each` attribute gets a
/// per-element setter named by the attribute value, plus the whole-value
/// setter when the two names differ; a non-`each` key becomes a
/// diagnostic.  Any other field gets the whole-value setter.
pub open spec fn setter_item(f: FieldV) -> Seq<char> {
    if f.is_optional {
        plain_setter_text(f.name, inner_text(f))
    } else {
        match f.each {
            Some(kv) => if kv.0 != "each"@ {
                each_error_text()
            } else {
                each_setter_text(f.name, kv.1, f.ty.first.args[0].text) + (if kv.1 != f.name {
                    plain_setter_text(f.name, f.ty.text)
                } else {
                    Seq::empty()
                })
            },
            None => plain_setter_text(f.name, f.ty.text),
        }
    }
}

/// What emitting setters demands of a field: a field with a well-formed
/// `each` attribute must have a type argument to name the element type.
pub open spec fn setter_ok(f: FieldV) -> bool {
    (!f.is_optional && (f.each matches Some(kv) && kv.0 == "each"@)) ==> f.ty.first.args.len() > 0
}

pub open spec fn setters_ok(fs: Seq<FieldV>) -> bool {
    forall|i: int| 0 <= i < fs.len() ==> setter_ok(#[trigger] fs[i])
}

pub open spec fn setters_from(fs: Seq<FieldV>, i: int) -> Seq<char>
    decreases fs.len() - i,
{
    if i < 0 || i >= fs.len() {
        Seq::empty()
    } else {
        setter_item(fs[i]) + setters_from(fs, i + 1)
    }
}

pub open spec fn setters_text(fs: Seq<FieldV>) -> Seq<char> {
    setters_from(fs, 0)
}

fn push_plain_setter(out: &mut String, name: &str, ty_text: &str)
    ensures
        final(out)@ == old(out)@ + plain_setter_text(name@, ty_text@),
{
    out.append("    pub fn ");
    out.append(name);
    out.append("(&mut self, ");
    out.append(name);
    out.append(": ");
    out.append(ty_text);
    out.append(") -> &mut Self {\n        self.");
    out.append(name);
    out.append(" = Some(");
    out.append(name);
    out.append(");\n        self\n    }\n");
    proof {
        assert(out@ =~= old(out)@ + plain_setter_text(name@, ty_text@));
    }
}

fn push_each_setter(out: &mut String, fname: &str, ename: &str, elem_ty: &str)
    ensures
        final(out)@ == old(out)@ + each_setter_text(fname@, ename@, elem_ty@),
{
    out.append("    pub fn ");
    out.append(ename);
    out.append("(&mut self, ");
    out.append(ename);
    out.append(": ");
    out.append(elem_ty);
    out.append(") -> &mut Self {\n        if let Some(ref mut v) = self.");
    out.append(fname);
    out.append(" {\n            v.push(");
    out.append(ename);
    out.append(");\n        }\n        self\n    }\n");
    proof {
        assert(out@ =~= old(out)@ + each_setter_text(fname@, ename@, elem_ty@));
    }
}

/// Emits the setters for all fields, in field order.
pub fn gen_setters(fields: &Vec<FieldInfo>) -> (r: String)
    requires
        setters_ok(views_of(fields@)),
    ensures
        r@ == setters_text(views_of(fields@)),
{
    let ghost vs = views_of(fields@);
    let each_key: String = "each".to_owned();
    let mut out = String::new();
    let mut i: usize = 0;
    while i < fields.len()
        invariant
            vs == views_of(fields@),
            vs.len() == fields@.len(),
            setters_ok(vs),
            each_key@ == "each"@,
            0 <= i <= fields@.len(),
            out@ + setters_from(vs, i as int) == setters_from(vs, 0),
        decreases fields@.len() - i,
    {
        let f = &fields[i];
        let ghost out0 = out@;
        proof {
            assert(vs[i as int] == fields@[i as int]@);
            assert(setter_ok(vs[i as int]));
        }
        if f.is_optional {
            match &f.inner {
                Some(s) => push_plain_setter(&mut out, f.name.as_str(), s.as_str()),
                None => {
                    push_plain_setter(&mut out, f.name.as_str(), "");
                    proof {
                        reveal_strlit("");
                        assert(""@ =~= Seq::<char>::empty());
                    }
                },
            }
        } else {
            match &f.each {
                Some(kv) => {
                    if kv.0 == each_key {
                        proof {
                            assert(vs[i as int].ty.first.args.len() > 0);
                            assert(f.ty.first.args@.len() > 0);
                        }
                        let nested = get_nested_type(&f.ty);
                        push_each_setter(&mut out, f.name.as_str(), kv.1.as_str(), nested.text.as_str());
                        if !(kv.1 == f.name) {
                            push_plain_setter(&mut out, f.name.as_str(), f.ty.text.as_str());
                        }
                    } else {
                        out.append("    compile_error!(\"expected `builder(each = \\\"...\\\")`\");\n");
                    }
                },
                None => push_plain_setter(&mut out, f.name.as_str(), f.ty.text.as_str()),
            }
        }
        proof {
            assert(out@ =~= out0 + setter_item(vs[i as int]));
            assert(out@ + setters_from(vs, i + 1) =~= out0 + setters_from(vs, i as int));
        }
        i += 1;
    }
    proof {
        assert(out@ =~= setters_text(vs));
    }
    out
}

/// One field initialiser of the built value: an optional field is copied
/// as it stands, any other field must be present or `build` returns an
/// error naming it.
pub open spec fn build_field_item(f: FieldV) -> Seq<char> {
    if f.is_optional {
        "            "@ + f.name + ": self."@ + f.name + ".as_ref().cloned(),\n"@
    } else {
        "            "@ + f.name + ": match &self."@ + f.name
            + " {\n                Some(v) => v.to_owned(),\n                None => return Err(\""@
            + f.name + " not present\".into())\n            },\n"@
    }
}

pub open spec fn build_fields_from(fs: Seq<FieldV>, i: int) -> Seq<char>
    decreases fs.len() - i,
{
    if i < 0 || i >= fs.len() {
        Seq::empty()
    } else {
        build_field_item(fs[i]) + build_fields_from(fs, i + 1)
    }
}

pub open spec fn build_fields_text(fs: Seq<FieldV>) -> Seq<char> {
    build_fields_from(fs, 0)
}

/// Emits the field initialisers used by the generated `build` method.
pub fn gen_build(fields: &Vec<FieldInfo>) -> (r: String)
    ensures
        r@ == build_fields_text(views_of(fields@)),
{
    let ghost vs = views_of(fields@);
    let mut out = String::new();
    let mut i: usize = 0;
    while i < fields.len()
        invariant
            vs == views_of(fields@),
            vs.len() == fields@.len(),
            0 <= i <= fields@.len(),
            out@ + build_fields_from(vs, i as int) == build_fields_from(vs, 0),
        decreases fields@.len() - i,
    {
        let f = &fields[i];
        let ghost out0 = out@;
        out.append("            ");
        out.append(f.name.as_str());
        if f.is_optional {
            out.append(": self.");
            out.append(f.name.as_str());
            out.append(".as_ref().cloned(),\n");
        } else {
            out.append(": match &self.");
            out.append(f.name.as_str());
            out.append(" {\n                Some(v) => v.to_owned(),\n                None => return Err(\"");
            out.append(f.name.as_str());
            out.append(" not present\".into())\n            },\n");
        }
        proof {
            assert(vs[i as int] == fields@[i as int]@);
            assert(out@ =~= out0 + build_field_item(vs[i as int]));
            assert(out@ + build_fields_from(vs, i + 1) =~= out0 + build_fields_from(vs, i as int));
        }
        i += 1;
    }
    proof {
        assert(out@ =~= build_fields_text(vs));
    }
    out
}

/// The `impl` block of the builder: all setters, then the `build` method
/// that yields the struct or an error naming the first absent field.
pub open spec fn impl_builder_text(fs: Seq<FieldV>, bname: Seq<char>, sname: Seq<char>) -> Seq<char> {
    "impl "@ + bname + " {\n"@ + setters_text(fs)
        + "    pub fn build(&mut self) -> Result<"@ + sname
        + ", Box<dyn std::error::Error>> {\n        let s = "@ + sname + " {\n"@
        + build_fields_text(fs) + "        };\n        Ok(s)\n    }\n}\n"@
}

/// Emits the `impl` block of the builder.
pub fn impl_builder(fields: &Vec<FieldInfo>, builder_name: &str, struct_name: &str) -> (r: String)
    requires
        setters_ok(views_of(fields@)),
    ensures
        r@ == impl_builder_text(views_of(fields@), builder_name@, struct_name@),
{
    let setters = gen_setters(fields);
    let unwrap_build = gen_build(fields);
    let mut out: String = "impl ".to_owned();
    out.append(builder_name);
    out.append(" {\n");
    out.append(setters.as_str());
    out.append("    pub fn build(&mut self) -> Result<");
    out.append(struct_name);
    out.append(", Box<dyn std::error::Error>> {\n        let s = ");
    out.append(struct_name);
    out.append(" {\n");
    out.append(unwrap_build.as_str());
    out.append("        };\n        Ok(s)\n    }\n}\n");
    proof {
        assert(out@ =~= impl_builder_text(views_of(fields@), builder_name@, struct_name@));
    }
    out
}

} // verus!
