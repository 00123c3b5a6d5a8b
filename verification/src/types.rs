use vstd::prelude::*;
use vstd::string::StrSliceExecFns;

verus! {

// A struct definition is modelled by the plain values that the generators
// read from it: the struct's name and, for each named field, the field's
// name, the shape of its type, and its leading attribute, if any.
//
// A field type is kept in the flattened shape that the analysis inspects:
// its full source text (what generated code splices back in), the
// identifier of its first path segment (what classification compares
// against `Option`), and the type arguments of that first segment, each
// again as source text plus leading identifier.  Type shapes that the
// analysis never looks into (references, tuples, trait objects) are outside
// this model; callers that meet one fail before reaching the library, as
// the analysis itself would.

/// One type argument from the angle brackets of a path segment, e.g. the
/// `String` in `Vec<String>`.
pub struct TypeArg {
    /// Full source text of the argument type.
    pub text: String,
    /// Identifier of the argument type's first path segment.
    pub head: String,
}

/// The first segment of a path type: its identifier and its angle-bracketed
/// type arguments.  A segment without angle brackets has no arguments.
pub struct Segment {
    pub ident: String,
    pub args: Vec<TypeArg>,
}

/// A field's type: its full source text together with its first path
/// segment, which is all the classification step reads.
pub struct TypeRepr {
    /// Full source text of the type, e.g. `Option<String>`.
    pub text: String,
    /// The first path segment of the type.
    pub first: Segment,
}

#[verifier::ext_equal]
pub struct TypeArgV {
    pub text: Seq<char>,
    pub head: Seq<char>,
}

#[verifier::ext_equal]
pub struct SegmentV {
    pub ident: Seq<char>,
    pub args: Seq<TypeArgV>,
}

#[verifier::ext_equal]
pub struct TypeReprV {
    pub text: Seq<char>,
    pub first: SegmentV,
}

impl View for TypeArg {
    type V = TypeArgV;

    open spec fn view(&self) -> TypeArgV {
        TypeArgV { text: self.text@, head: self.head@ }
    }
}

impl View for Segment {
    type V = SegmentV;

    open spec fn view(&self) -> SegmentV {
        SegmentV { ident: self.ident@, args: self.args@.map_values(|a: TypeArg| a@) }
    }
}

impl View for TypeRepr {
    type V = TypeReprV;

    open spec fn view(&self) -> TypeReprV {
        TypeReprV { text: self.text@, first: self.first@ }
    }
}

impl TypeArg {
    /// An owned copy with the same view.
    pub fn duplicate(&self) -> (r: TypeArg)
        ensures
            r@ == self@,
    {
        TypeArg { text: self.text.clone(), head: self.head.clone() }
    }
}

impl Segment {
    /// An owned copy with the same view.
    pub fn duplicate(&self) -> (r: Segment)
        ensures
            r@ == self@,
    {
        let mut args: Vec<TypeArg> = Vec::new();
        let mut i: usize = 0;
        while i < self.args.len()
            invariant
                0 <= i <= self.args.len(),
                args.len() == i,
                forall|j: int| 0 <= j < i ==> args@[j]@ == self.args@[j]@,
            decreases self.args.len() - i,
        {
            args.push(self.args[i].duplicate());
            i += 1;
        }
        let r = Segment { ident: self.ident.clone(), args };
        proof {
            assert(r@ =~~= self@);
        }
        r
    }
}

impl TypeRepr {
    /// An owned copy with the same view.
    pub fn duplicate(&self) -> (r: TypeRepr)
        ensures
            r@ == self@,
    {
        let r = TypeRepr { text: self.text.clone(), first: self.first.duplicate() };
        proof {
            assert(r@ =~~= self@);
        }
        r
    }
}

/// A structured field attribute, in the shapes the field parsers walk: a
/// bare path, a parenthesised list such as `builder(each = "arg")`, or a
/// `key = "value"` pair with a string value.  Paths are kept as the
/// identifier of their first segment, which is all the walk reads.
pub enum MetaModel {
    /// A bare path, e.g. `builder`.  The walk does not accept this shape.
    Path(String),
    /// A list, e.g. `builder(...)`: the path and the nested meta items.
    List(String, Vec<MetaModel>),
    /// A `key = "value"` pair: the key path and the string value.
    NameValue(String, String),
}

/// Whether walking a meta item through the first element of each nested
/// list reaches a `key = "value"` pair.  The walk fails on a bare path and
/// on an empty list.
pub open spec fn meta_resolves(m: MetaModel) -> bool
    decreases m,
{
    match m {
        MetaModel::Path(_) => false,
        MetaModel::NameValue(_, _) => true,
        MetaModel::List(_, nested) => nested@.len() > 0 && meta_resolves(nested@[0]),
    }
}

/// The key of the `key = "value"` pair the walk reaches.
pub open spec fn resolved_key(m: MetaModel) -> Seq<char>
    decreases m,
{
    match m {
        MetaModel::Path(_) => Seq::empty(),
        MetaModel::NameValue(k, _) => k@,
        MetaModel::List(_, nested) => if nested@.len() > 0 {
            resolved_key(nested@[0])
        } else {
            Seq::empty()
        },
    }
}

/// The value of the `key = "value"` pair the walk reaches.
pub open spec fn resolved_value(m: MetaModel) -> Seq<char>
    decreases m,
{
    match m {
        MetaModel::Path(_) => Seq::empty(),
        MetaModel::NameValue(_, v) => v@,
        MetaModel::List(_, nested) => if nested@.len() > 0 {
            resolved_value(nested@[0])
        } else {
            Seq::empty()
        },
    }
}

/// One named field of a struct definition: its name, its type, and its
/// attributes in source order.
pub struct FieldDef {
    pub name: String,
    pub ty: TypeRepr,
    pub attrs: Vec<MetaModel>,
}

/// A struct definition with named fields, the only input shape the
/// generators accept.
pub struct StructDef {
    pub name: String,
    pub fields: Vec<FieldDef>,
}

/// How one character is written inside a double-quoted string literal:
/// quotes and backslashes get a leading backslash, all else stands as is.
pub open spec fn escape_piece(c: char) -> Seq<char> {
    if c == '"' || c == '\\' {
        seq!['\\', c]
    } else {
        seq![c]
    }
}

pub open spec fn escaped_from(s: Seq<char>, i: int) -> Seq<char>
    decreases s.len() - i,
{
    if i < 0 || i >= s.len() {
        Seq::empty()
    } else {
        escape_piece(s[i]) + escaped_from(s, i + 1)
    }
}

/// The body of a double-quoted string literal that denotes `s`.
pub open spec fn escaped(s: Seq<char>) -> Seq<char> {
    escaped_from(s, 0)
}

/// Writes `s` as the body of a double-quoted string literal, escaping
/// quotes and backslashes.
pub fn escape_lit(s: &str) -> (r: String)
    ensures
        r@ == escaped(s@),
{
    let n = s.unicode_len();
    let mut out = String::new();
    let mut i: usize = 0;
    while i < n
        invariant
            n == s@.len(),
            0 <= i <= n,
            out@ + escaped_from(s@, i as int) == escaped_from(s@, 0),
        decreases n - i,
    {
        let ghost out0 = out@;
        let c = s.get_char(i);
        let piece = s.substring_char(i, i + 1);
        if c == '"' || c == '\\' {
            out.append("\\");
        }
        out.append(piece);
        proof {
            reveal_strlit("\\");
            assert(piece@ =~= seq![s@[i as int]]);
            assert(out@ =~= out0 + escape_piece(s@[i as int]));
            assert(out@ + escaped_from(s@, i + 1) =~= out0 + escaped_from(s@, i as int));
        }
        i += 1;
    }
    proof {
        assert(out@ =~= out@ + escaped_from(s@, n as int));
    }
    out
}

} // verus!
