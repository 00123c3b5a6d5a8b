use derive_gen::builder::fields::{first_generic_arg, first_path_segment, match_meta, parse_fields};
use derive_gen::types::{FieldDef, MetaModel, Segment, StructDef, TypeArg, TypeRepr};

fn option_string_ty() -> TypeRepr {
    TypeRepr {
        text: "Option<String>".to_string(),
        first: Segment {
            ident: "Option".to_string(),
            args: vec![TypeArg { text: "String".to_string(), head: "String".to_string() }],
        },
    }
}

#[test]
fn first_path_segment_returns_the_head() {
    let ty = option_string_ty();
    let seg = first_path_segment(&ty);
    assert_eq!(seg.ident, "Option");
    assert_eq!(seg.args.len(), 1);
}

#[test]
fn first_generic_arg_takes_the_first_argument() {
    let ty = option_string_ty();
    let arg = first_generic_arg(&ty.first.args).unwrap();
    assert_eq!(arg.head, "String");
    let no_args: Vec<TypeArg> = vec![];
    assert!(first_generic_arg(&no_args).is_none());
}

#[test]
fn match_meta_reads_a_name_value_pair() {
    let m = MetaModel::NameValue("debug".to_string(), "0b{:08b}".to_string());
    let (k, v) = match_meta(&m);
    assert_eq!(k, "debug");
    assert_eq!(v, "0b{:08b}");
}

#[test]
fn match_meta_walks_nested_lists() {
    let m = MetaModel::List(
        "builder".to_string(),
        vec![MetaModel::List(
            "inner".to_string(),
            vec![MetaModel::NameValue("each".to_string(), "arg".to_string())],
        )],
    );
    let (k, v) = match_meta(&m);
    assert_eq!(k, "each");
    assert_eq!(v, "arg");
}

#[test]
fn parse_fields_classifies_fields() {
    let def = StructDef {
        name: "Command".to_string(),
        fields: vec![
            FieldDef {
                name: "executable".to_string(),
                ty: TypeRepr {
                    text: "String".to_string(),
                    first: Segment { ident: "String".to_string(), args: vec![] },
                },
                attrs: vec![],
            },
            FieldDef {
                name: "args".to_string(),
                ty: TypeRepr {
                    text: "Vec<String>".to_string(),
                    first: Segment {
                        ident: "Vec".to_string(),
                        args: vec![TypeArg {
                            text: "String".to_string(),
                            head: "String".to_string(),
                        }],
                    },
                },
                attrs: vec![MetaModel::List(
                    "builder".to_string(),
                    vec![MetaModel::NameValue("each".to_string(), "arg".to_string())],
                )],
            },
            FieldDef { name: "current_dir".to_string(), ty: option_string_ty(), attrs: vec![] },
        ],
    };
    let infos = parse_fields(&def);
    assert_eq!(infos.len(), 3);

    assert_eq!(infos[0].name, "executable");
    assert!(!infos[0].is_optional);
    assert!(infos[0].inner.is_none());
    assert!(infos[0].each.is_none());

    assert_eq!(infos[1].name, "args");
    assert!(!infos[1].is_optional);
    assert_eq!(infos[1].each, Some(("each".to_string(), "arg".to_string())));

    assert_eq!(infos[2].name, "current_dir");
    assert!(infos[2].is_optional);
    assert_eq!(infos[2].inner, Some("String".to_string()));
    assert!(infos[2].each.is_none());
    assert_eq!(infos[2].ty.text, "Option<String>");
}
