use vstd::prelude::*;
use vstd::pervasive::unreached;
use crate::types::{
    FieldDef, MetaModel, Segment, StructDef, TypeArg, TypeRepr, TypeReprV, meta_resolves,
    resolved_key, resolved_value,
};

verus! {

/// What the builder generator records about one field: its name and type,
/// whether the type's first path segment is `Option`, the identifier of
/// the first type argument when it is, and the key and value of the
/// field's leading attribute when there is one.
pub struct FieldInfo {
    pub name: String,
    pub ty: TypeRepr,
    pub is_optional: bool,
    pub inner: Option<String>,
    pub each: Option<(String, String)>,
}

/// The ghost content of a `FieldInfo`: every value the generators read
/// from it.
#[verifier::ext_equal]
pub struct FieldV {
    pub name: Seq<char>,
    pub ty: TypeReprV,
    pub is_optional: bool,
    pub inner: Option<Seq<char>>,
    pub each: Option<(Seq<char>, Seq<char>)>,
}

impl View for FieldInfo {
    type V = FieldV;

    open spec fn view(&self) -> FieldV {
        FieldV {
            name: self.name@,
            ty: self.ty@,
            is_optional: self.is_optional,
            inner: match self.inner {
                Some(s) => Some(s@),
                None => None,
            },
            each: match self.each {
                Some(kv) => Some((kv.0@, kv.1@)),
                None => None,
            },
        }
    }
}

/// Whether a field is classified as optional: its type's first path
/// segment is the identifier `Option`.
pub open spec fn is_option_field(f: FieldDef) -> bool {
    f.ty.first.ident@ == "Option"@
}

/// What parsing a field definition demands.  An optional field must carry
/// a type argument to take the inner type from, and a leading attribute
/// must walk down to a `key = "value"` pair; on anything else the analysis
/// fails.
pub open spec fn field_parse_ok(f: FieldDef) -> bool {
    &&& (is_option_field(f) ==> f.ty.first.args@.len() > 0)
    &&& (f.attrs@.len() > 0 ==> meta_resolves(f.attrs@[0]))
}

pub open spec fn fields_parse_ok(fs: Seq<FieldDef>) -> bool {
    forall|i: int| 0 <= i < fs.len() ==> field_parse_ok(#[trigger] fs[i])
}

/// The classification of one field definition: the `FieldInfo` content
/// that `parse_fields` derives from it.
pub open spec fn def_view(f: FieldDef) -> FieldV {
    FieldV {
        name: f.name@,
        ty: f.ty@,
        is_optional: is_option_field(f),
        inner: if is_option_field(f) {
            Some(f.ty.first.args@[0].head@)
        } else {
            None
        },
        each: if f.attrs@.len() > 0 {
            Some((resolved_key(f.attrs@[0]), resolved_value(f.attrs@[0])))
        } else {
            None
        },
    }
}

/// The first path segment of a field's type.
pub fn first_path_segment<'a>(ty: &'a TypeRepr) -> (r: &'a Segment)
    ensures
        r@ == ty.first@,
{
    &ty.first
}

/// The first angle-bracketed type argument of a path segment, if the
/// segment has any.
pub fn first_generic_arg<'a>(args: &'a Vec<TypeArg>) -> (r: Option<&'a TypeArg>)
    ensures
        match r {
            Some(a) => args@.len() > 0 && a@ == args@[0]@,
            None => args@.len() == 0,
        },
{
    if args.len() > 0 {
        Some(&args[0])
    } else {
        None
    }
}

/// Walks a meta item down through nested lists to its `key = "value"`
/// pair and returns the key and the value.
pub fn match_meta(m: &MetaModel) -> (r: (String, String))
    requires
        meta_resolves(*m),
    ensures
        r.0@ == resolved_key(*m),
        r.1@ == resolved_value(*m),
    decreases *m,
{
    match m {
        MetaModel::Path(_) => unreached(),
        MetaModel::List(_, nested) => match_meta(&nested[0]),
        MetaModel::NameValue(k, v) => (k.clone(), v.clone()),
    }
}

/// Classifies every field of a struct definition for the builder
/// generator: records the field's name and type, marks fields whose type
/// is `Option` and takes the inner identifier, and resolves the leading
/// attribute of a field to its key and value.
pub fn parse_fields(data: &StructDef) -> (r: Vec<FieldInfo>)
    requires
        fields_parse_ok(data.fields@),
    ensures
        r@.len() == data.fields@.len(),
        forall|i: int| 0 <= i < r@.len() ==> (#[trigger] r@[i])@ == def_view(data.fields@[i]),
{
    let mut out: Vec<FieldInfo> = Vec::new();
    let option_ident: String = "Option".to_owned();
    let mut i: usize = 0;
    while i < data.fields.len()
        invariant
            fields_parse_ok(data.fields@),
            option_ident@ == "Option"@,
            0 <= i <= data.fields@.len(),
            out@.len() == i,
            forall|j: int| 0 <= j < i ==> (#[trigger] out@[j])@ == def_view(data.fields@[j]),
        decreases data.fields@.len() - i,
    {
        let f = &data.fields[i];
        proof {
            assert(field_parse_ok(data.fields@[i as int]));
        }
        let seg = first_path_segment(&f.ty);
        let is_optional = seg.ident == option_ident;
        let inner: Option<String> = if is_optional {
            proof {
                assert(is_option_field(data.fields@[i as int]));
                assert(seg@.args =~= f.ty.first@.args);
            }
            match first_generic_arg(&seg.args) {
                Some(a) => {
                    proof {
                        assert(a@ == seg@.args[0]);
                        assert(a.head@ == f.ty.first.args@[0].head@);
                    }
                    Some(a.head.clone())
                },
                None => {
                    proof {
                        assert(seg@.args.len() == f.ty.first@.args.len());
                        assert(seg.args@.len() == f.ty.first.args@.len());
                        assert(false);
                    }
                    unreached()
                },
            }
        } else {
            None
        };
        let each: Option<(String, String)> = if f.attrs.len() > 0 {
            Some(match_meta(&f.attrs[0]))
        } else {
            None
        };
        let info = FieldInfo { name: f.name.clone(), ty: f.ty.duplicate(), is_optional, inner, each };
        proof {
            assert(info@ =~~= def_view(data.fields@[i as int]));
        }
        out.push(info);
        i += 1;
    }
    out
}

} // verus!
