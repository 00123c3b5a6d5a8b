use derive_gen::builder;
use derive_gen::builder::builder_struct::{
    gen_build, gen_setters, get_builder_struct, get_nested_type, impl_builder,
    init_builder_struct,
};
use derive_gen::builder::fields::parse_fields;
use derive_gen::types::{FieldDef, MetaModel, Segment, StructDef, TypeArg, TypeRepr};

fn simple_ty(name: &str) -> TypeRepr {
    TypeRepr {
        text: name.to_string(),
        first: Segment { ident: name.to_string(), args: vec![] },
    }
}

fn generic_ty(text: &str, head: &str, arg_text: &str, arg_head: &str) -> TypeRepr {
    TypeRepr {
        text: text.to_string(),
        first: Segment {
            ident: head.to_string(),
            args: vec![TypeArg { text: arg_text.to_string(), head: arg_head.to_string() }],
        },
    }
}

fn plain_field(name: &str, ty: TypeRepr) -> FieldDef {
    FieldDef { name: name.to_string(), ty, attrs: vec![] }
}

fn attr_field(name: &str, ty: TypeRepr, key: &str, value: &str) -> FieldDef {
    FieldDef {
        name: name.to_string(),
        ty,
        attrs: vec![MetaModel::List(
            "builder".to_string(),
            vec![MetaModel::NameValue(key.to_string(), value.to_string())],
        )],
    }
}

fn command_def() -> StructDef {
    StructDef {
        name: "Command".to_string(),
        fields: vec![
            plain_field("executable", simple_ty("String")),
            attr_field("args", generic_ty("Vec<String>", "Vec", "String", "String"), "each", "arg"),
            plain_field("current_dir", generic_ty("Option<String>", "Option", "String", "String")),
        ],
    }
}

#[test]
fn builder_derive_command() {
    let out = builder::derive(&command_def());
    let expected = r#"impl Command {
    pub fn builder() -> CommandBuilder {
        CommandBuilder {
            executable: None,
            args: Some(vec![]),
            current_dir: None,
        }
    }
}
pub struct CommandBuilder {
    executable: Option<String>,
    args: Option<Vec<String>>,
    current_dir: Option<String>,
}
impl CommandBuilder {
    pub fn executable(&mut self, executable: String) -> &mut Self {
        self.executable = Some(executable);
        self
    }
    pub fn arg(&mut self, arg: String) -> &mut Self {
        if let Some(ref mut v) = self.args {
            v.push(arg);
        }
        self
    }
    pub fn args(&mut self, args: Vec<String>) -> &mut Self {
        self.args = Some(args);
        self
    }
    pub fn current_dir(&mut self, current_dir: String) -> &mut Self {
        self.current_dir = Some(current_dir);
        self
    }
    pub fn build(&mut self) -> Result<Command, Box<dyn std::error::Error>> {
        let s = Command {
            executable: match &self.executable {
                Some(v) => v.to_owned(),
                None => return Err("executable not present".into())
            },
            args: match &self.args {
                Some(v) => v.to_owned(),
                None => return Err("args not present".into())
            },
            current_dir: self.current_dir.as_ref().cloned(),
        };
        Ok(s)
    }
}
"#;
    assert_eq!(out, expected);
}

#[test]
fn builder_derive_output_is_valid_source() {
    let out = builder::derive(&command_def());
    assert!(syn::parse_str::<syn::File>(&out).is_ok());
}

#[test]
fn each_named_like_field_suppresses_whole_value_setter() {
    let def = StructDef {
        name: "Job".to_string(),
        fields: vec![attr_field(
            "args",
            generic_ty("Vec<String>", "Vec", "String", "String"),
            "each",
            "args",
        )],
    };
    let out = gen_setters(&parse_fields(&def));
    let expected = r#"    pub fn args(&mut self, args: String) -> &mut Self {
        if let Some(ref mut v) = self.args {
            v.push(args);
        }
        self
    }
"#;
    assert_eq!(out, expected);
}

#[test]
fn wrong_attribute_key_becomes_diagnostic() {
    let def = StructDef {
        name: "Job".to_string(),
        fields: vec![attr_field(
            "args",
            generic_ty("Vec<String>", "Vec", "String", "String"),
            "eac",
            "arg",
        )],
    };
    let out = gen_setters(&parse_fields(&def));
    let expected = "    compile_error!(\"expected `builder(each = \\\"...\\\")`\");\n";
    assert_eq!(out, expected);
}

#[test]
fn builder_struct_wraps_non_optional_fields() {
    let fields = parse_fields(&command_def());
    let out = get_builder_struct(&fields, "CommandBuilder");
    let expected = r#"pub struct CommandBuilder {
    executable: Option<String>,
    args: Option<Vec<String>>,
    current_dir: Option<String>,
}
"#;
    assert_eq!(out, expected);
}

#[test]
fn init_starts_each_fields_with_empty_list() {
    let fields = parse_fields(&command_def());
    let out = init_builder_struct(&fields, "CommandBuilder");
    let expected = r#"CommandBuilder {
            executable: None,
            args: Some(vec![]),
            current_dir: None,
        }"#;
    assert_eq!(out, expected);
}

#[test]
fn build_initialisers_name_missing_fields() {
    let fields = parse_fields(&command_def());
    let out = gen_build(&fields);
    assert!(out.contains("executable not present"));
    assert!(out.contains("args not present"));
    assert!(out.contains("current_dir: self.current_dir.as_ref().cloned(),\n"));
}

#[test]
fn impl_builder_contains_setters_and_build() {
    let fields = parse_fields(&command_def());
    let out = impl_builder(&fields, "CommandBuilder", "Command");
    assert!(out.starts_with("impl CommandBuilder {\n"));
    assert!(out.contains("pub fn build(&mut self) -> Result<Command, Box<dyn std::error::Error>> {"));
    assert!(out.ends_with("}\n"));
}

#[test]
fn nested_type_is_first_argument() {
    let ty = generic_ty("Vec<String>", "Vec", "String", "String");
    let nested = get_nested_type(&ty);
    assert_eq!(nested.text, "String");
    assert_eq!(nested.head, "String");
}

#[test]
fn empty_struct_builder_is_valid_source() {
    let def = StructDef { name: "Unit".to_string(), fields: vec![] };
    let out = builder::derive(&def);
    assert!(out.contains("pub struct UnitBuilder {\n}\n"));
    assert!(syn::parse_str::<syn::File>(&out).is_ok());
}
