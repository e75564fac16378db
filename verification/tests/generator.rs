use builder::assemble::FieldAction;
use builder::generate::generate;
use builder::shape::analyze;
use builder::shape::get_option;
use builder::shape::render_type;
use builder::shape::AnalysisError;
use builder::shape::RawField;
use builder::shape::StructDesc;
use builder::shape::StructShape;
use builder::shape::TypeDesc;

fn path(head: &str, params: &[&str]) -> TypeDesc {
    TypeDesc::Path {
        head: head.to_string(),
        params: params.iter().map(|p| p.to_string()).collect(),
    }
}

fn command_desc() -> StructDesc {
    StructDesc {
        name: "Command".to_string(),
        shape: StructShape::NamedFields {
            fields: vec![
                RawField { name: "executable".to_string(), ty: path("String", &[]) },
                RawField { name: "args".to_string(), ty: path("Vec", &["String"]) },
                RawField { name: "env".to_string(), ty: path("Vec", &["String"]) },
                RawField { name: "current_dir".to_string(), ty: path("Option", &["String"]) },
            ],
        },
    }
}

#[test]
fn analyze_classifies_each_field() {
    let spec = analyze(command_desc()).ok().unwrap();
    assert_eq!(spec.name, "Command");
    assert_eq!(spec.fields.len(), 4);
    let optional: Vec<bool> = spec.fields.iter().map(|f| f.is_optional).collect();
    assert_eq!(optional, vec![false, false, false, true]);
    assert_eq!(spec.fields[0].inner_type, None);
    assert_eq!(spec.fields[3].inner_type, Some("String".to_string()));
    let names: Vec<&str> = spec.fields.iter().map(|f| f.name.as_str()).collect();
    assert_eq!(names, vec!["executable", "args", "env", "current_dir"]);
}

#[test]
fn generate_emits_all_declarations() {
    let decls = generate(command_desc()).ok().unwrap();
    assert_eq!(decls.builder.name, "CommandBuilder");
    let stored: Vec<&str> = decls.builder.fields.iter().map(|f| f.unwrapped.as_str()).collect();
    assert_eq!(stored, vec!["String", "Vec<String>", "Vec<String>", "String"]);
    let setter_params: Vec<&str> =
        decls.setters.iter().map(|s| s.param_type.as_str()).collect();
    assert_eq!(setter_params, vec!["String", "Vec<String>", "Vec<String>", "String"]);
    let setter_names: Vec<&str> = decls.setters.iter().map(|s| s.name.as_str()).collect();
    assert_eq!(setter_names, vec!["executable", "args", "env", "current_dir"]);
    assert_eq!(decls.factory.builder_name, "CommandBuilder");
    assert_eq!(decls.factory.field_names.len(), 4);
    assert_eq!(decls.finalizer.target, "Command");
    let actions: Vec<FieldAction> =
        decls.finalizer.steps.iter().map(|s| s.action).collect();
    assert_eq!(
        actions,
        vec![
            FieldAction::UnwrapRequired,
            FieldAction::UnwrapRequired,
            FieldAction::UnwrapRequired,
            FieldAction::PassThrough,
        ]
    );
}

#[test]
fn generate_collapses_double_wrap() {
    let desc = StructDesc {
        name: "Config".to_string(),
        shape: StructShape::NamedFields {
            fields: vec![
                RawField { name: "name".to_string(), ty: path("String", &[]) },
                RawField { name: "retries".to_string(), ty: path("Option", &["u32"]) },
            ],
        },
    };
    let decls = generate(desc).ok().unwrap();
    assert_eq!(decls.builder.name, "ConfigBuilder");
    // The optional field is stored as Option<u32>, not Option<Option<u32>>,
    // and its setter takes a bare u32.
    assert_eq!(decls.builder.fields[1].unwrapped, "u32");
    assert_eq!(decls.setters[1].param_type, "u32");
    assert_eq!(decls.finalizer.steps[1].action, FieldAction::PassThrough);
    assert_eq!(decls.finalizer.steps[0].action, FieldAction::UnwrapRequired);
}

#[test]
fn generate_refuses_non_structures() {
    let not_a_struct =
        StructDesc { name: "E".to_string(), shape: StructShape::NotAStruct };
    assert_eq!(generate(not_a_struct).err().unwrap(), AnalysisError::UnsupportedShape);
    let unit = StructDesc { name: "U".to_string(), shape: StructShape::Unit };
    assert_eq!(generate(unit).err().unwrap(), AnalysisError::UnsupportedShape);
    let positional =
        StructDesc { name: "P".to_string(), shape: StructShape::Positional };
    assert_eq!(generate(positional).err().unwrap(), AnalysisError::UnsupportedShape);
}

#[test]
fn generate_refuses_a_structure_without_fields() {
    let empty = StructDesc {
        name: "Empty".to_string(),
        shape: StructShape::NamedFields { fields: vec![] },
    };
    assert_eq!(generate(empty).err().unwrap(), AnalysisError::UnsupportedShape);
}

#[test]
fn generate_refuses_malformed_optionality() {
    let two_args = StructDesc {
        name: "S".to_string(),
        shape: StructShape::NamedFields {
            fields: vec![RawField {
                name: "f".to_string(),
                ty: path("Option", &["u32", "u64"]),
            }],
        },
    };
    assert_eq!(generate(two_args).err().unwrap(), AnalysisError::MalformedOptionality);
    let no_args = StructDesc {
        name: "S".to_string(),
        shape: StructShape::NamedFields {
            fields: vec![RawField { name: "f".to_string(), ty: path("Option", &[]) }],
        },
    };
    assert_eq!(generate(no_args).err().unwrap(), AnalysisError::MalformedOptionality);
}

#[test]
fn get_option_unwraps_only_the_optionality_wrapper() {
    assert_eq!(
        get_option(&path("Option", &["u32"])).ok().unwrap(),
        Some("u32".to_string())
    );
    assert_eq!(get_option(&path("Vec", &["String"])).ok().unwrap(), None);
    assert_eq!(get_option(&path("String", &[])).ok().unwrap(), None);
    assert_eq!(
        get_option(&TypeDesc::Other { text: "(u32, u32)".to_string() }).ok().unwrap(),
        None
    );
    assert_eq!(
        get_option(&path("Option", &["u32", "u64"])).err().unwrap(),
        AnalysisError::MalformedOptionality
    );
}

#[test]
fn name_matching_is_purely_syntactic() {
    // A single-argument generic merely named like the optionality wrapper
    // is classified as optional: the accepted limitation of name matching.
    let desc = StructDesc {
        name: "S".to_string(),
        shape: StructShape::NamedFields {
            fields: vec![RawField {
                name: "f".to_string(),
                ty: path("Option", &["Widget"]),
            }],
        },
    };
    let spec = analyze(desc).ok().unwrap();
    assert!(spec.fields[0].is_optional);
    assert_eq!(spec.fields[0].inner_type, Some("Widget".to_string()));
}

#[test]
fn render_type_restores_source_text() {
    assert_eq!(render_type(&path("String", &[])), "String");
    assert_eq!(render_type(&path("Vec", &["String"])), "Vec<String>");
    assert_eq!(render_type(&path("Pair", &["u32", "bool"])), "Pair<u32, bool>");
    assert_eq!(
        render_type(&TypeDesc::Other { text: "&'static str".to_string() }),
        "&'static str"
    );
}
