use vstd::prelude::*;
use vstd::pervasive::unreached;
use crate::types::{
    FieldDef, MetaModel, StructDef, TypeRepr, TypeReprV, meta_resolves, resolved_key,
    resolved_value,
};

verus! {

/// What the formatted-output generator records about one field: its name
/// and type, and the key and value of its leading attribute, if any.
pub struct FieldInfo {
    pub name: String,
    pub ty: TypeRepr,
    pub debug_attr: Option<(String, String)>,
}

/// The ghost content of a `FieldInfo`: every value the generator reads
/// from it.
#[verifier::ext_equal]
pub struct FieldV {
    pub name: Seq<char>,
    pub ty: TypeReprV,
    pub debug_attr: Option<(Seq<char>, Seq<char>)>,
}

impl View for FieldInfo {
    type V = FieldV;

    open spec fn view(&self) -> FieldV {
        FieldV {
            name: self.name@,
            ty: self.ty@,
            debug_attr: match self.debug_attr {
                Some(kv) => Some((kv.0@, kv.1@)),
                None => None,
            },
        }
    }
}

/// What parsing a field definition demands: a leading attribute must walk
/// down to a `key = "value"` pair.
pub open spec fn field_parse_ok(f: FieldDef) -> bool {
    f.attrs@.len() > 0 ==> meta_resolves(f.attrs@[0])
}

pub open spec fn fields_parse_ok(fs: Seq<FieldDef>) -> bool {
    forall|i: int| 0 <= i < fs.len() ==> field_parse_ok(#[trigger] fs[i])
}

/// The `FieldInfo` content that `parse_fields` derives from one field
/// definition.
pub open spec fn def_view(f: FieldDef) -> FieldV {
    FieldV {
        name: f.name@,
        ty: f.ty@,
        debug_attr: if f.attrs@.len() > 0 {
            Some((resolved_key(f.attrs@[0]), resolved_value(f.attrs@[0])))
        } else {
            None
        },
    }
}

/// Walks a meta item down through nested lists to its `key = "value"`
/// pair and returns the key and the value.
pub fn match_meta(m: &MetaModel) -> (r: (String, String))
    requires
        meta_resolves(*m),
    ensures
        r.0@ == resolved_key(*m),
        r.1@ == resolved_value(*m),
    decreases *m,
{
    match m {
        MetaModel::Path(_) => unreached(),
        MetaModel::List(_, nested) => match_meta(&nested[0]),
        MetaModel::NameValue(k, v) => (k.clone(), v.clone()),
    }
}

/// Records, for every field of a struct definition, its name and type and
/// the resolved key and value of its leading attribute.
pub fn parse_fields(data: &StructDef) -> (r: Vec<FieldInfo>)
    requires
        fields_parse_ok(data.fields@),
    ensures
        r@.len() == data.fields@.len(),
        forall|i: int| 0 <= i < r@.len() ==> (#[trigger] r@[i])@ == def_view(data.fields@[i]),
{
    let mut out: Vec<FieldInfo> = Vec::new();
    let mut i: usize = 0;
    while i < data.fields.len()
        invariant
            fields_parse_ok(data.fields@),
            0 <= i <= data.fields@.len(),
            out@.len() == i,
            forall|j: int| 0 <= j < i ==> (#[trigger] out@[j])@ == def_view(data.fields@[j]),
        decreases data.fields@.len() - i,
    {
        let f = &data.fields[i];
        proof {
            assert(field_parse_ok(data.fields@[i as int]));
        }
        let debug_attr: Option<(String, String)> = if f.attrs.len() > 0 {
            Some(match_meta(&f.attrs[0]))
        } else {
            None
        };
        let info = FieldInfo { name: f.name.clone(), ty: f.ty.duplicate(), debug_attr };
        proof {
            assert(info@ =~~= def_view(data.fields@[i as int]));
        }
        out.push(info);
        i += 1;
    }
    out
}

} // verus!
