use builder::annotation::{interpret, setter_name, AnnotationOutcome};
use builder::plan::{analyze, BuilderPlan, DefaultValue, FinalizeKind, SetterKind, StorageType};
use builder::runtime::{Builder, Value};
use builder::schema::{
    Annotation, AttrValue, FieldSchema, GenericArg, NestedMeta, PathArgs, RecordSchema, TypeExpr,
};
use builder::shape::{take_inner, type_in_container};

const MALFORMED: &str = "expected `builder(each = \"...\")`";

fn plain(name: &str) -> TypeExpr {
    TypeExpr::Path { text: name.to_string(), head: name.to_string(), args: PathArgs::Plain }
}

fn wrapped(outer: &str, inner: TypeExpr) -> TypeExpr {
    let text = format!("{}<{}>", outer, text_of(&inner));
    TypeExpr::Path {
        text,
        head: outer.to_string(),
        args: PathArgs::Angle(vec![GenericArg::Type(inner)]),
    }
}

fn text_of(t: &TypeExpr) -> String {
    match t {
        TypeExpr::Path { text, .. } => text.clone(),
        TypeExpr::Other { text } => text.clone(),
    }
}

fn each(value: &str) -> Annotation {
    Annotation::List(vec![NestedMeta::NameValue {
        key: "each".to_string(),
        value: AttrValue::Str(value.to_string()),
    }])
}

fn field(name: &str, ty: TypeExpr, annotations: Vec<Annotation>) -> FieldSchema {
    FieldSchema { name: name.to_string(), ty, annotations }
}

fn command_schema() -> RecordSchema {
    RecordSchema {
        name: "Command".to_string(),
        fields: vec![
            field("name", plain("String"), vec![]),
            field("tags", wrapped("Vec", plain("String")), vec![each("tag")]),
            field("note", wrapped("Option", plain("String")), vec![]),
        ],
    }
}

fn command_plan() -> BuilderPlan {
    match analyze(command_schema()) {
        Ok(plan) => plan,
        Err(d) => panic!("unexpected diagnostic on field {}", d.field),
    }
}

fn strings(v: &[&str]) -> Vec<String> {
    v.iter().map(|s| s.to_string()).collect()
}

#[test]
fn classifies_single_argument_wrapper() {
    let ty = wrapped("Vec", plain("u8"));
    let inner = type_in_container("Vec", &ty).expect("a Vec");
    assert_eq!(text_of(inner), "u8");
    assert!(type_in_container("Option", &ty).is_none());
}

#[test]
fn classification_needs_exactly_one_type_argument() {
    let two = TypeExpr::Path {
        text: "Vec<u8, A>".to_string(),
        head: "Vec".to_string(),
        args: PathArgs::Angle(vec![GenericArg::Type(plain("u8")), GenericArg::Type(plain("A"))]),
    };
    assert!(type_in_container("Vec", &two).is_none());
    let none = TypeExpr::Path {
        text: "Vec<>".to_string(),
        head: "Vec".to_string(),
        args: PathArgs::Angle(vec![]),
    };
    assert!(type_in_container("Vec", &none).is_none());
    let lifetime = TypeExpr::Path {
        text: "Vec<'a>".to_string(),
        head: "Vec".to_string(),
        args: PathArgs::Angle(vec![GenericArg::Other]),
    };
    assert!(type_in_container("Vec", &lifetime).is_none());
    assert!(type_in_container("Vec", &plain("Vec")).is_none());
    let reference = TypeExpr::Other { text: "&'a str".to_string() };
    assert!(type_in_container("Vec", &reference).is_none());
}

#[test]
fn classification_inspects_only_the_outermost_wrapper() {
    let nested = wrapped("Option", wrapped("Vec", plain("u8")));
    assert!(type_in_container("Vec", &nested).is_none());
    let inner = type_in_container("Option", &nested).expect("an Option");
    assert_eq!(text_of(inner), "Vec<u8>");
}

#[test]
fn take_inner_moves_the_argument_or_returns_the_type() {
    match take_inner("Option", wrapped("Option", plain("u8"))) {
        Ok(t) => assert_eq!(text_of(&t), "u8"),
        Err(_) => panic!("expected the inner type"),
    }
    match take_inner("Option", plain("u8")) {
        Ok(_) => panic!("expected no match"),
        Err(t) => assert_eq!(text_of(&t), "u8"),
    }
}

#[test]
fn setter_name_reads_each() {
    assert_eq!(setter_name(&each("arg")), Ok("arg".to_string()));
}

#[test]
fn setter_name_rejects_other_keys() {
    let a = Annotation::List(vec![NestedMeta::NameValue {
        key: "eac".to_string(),
        value: AttrValue::Str("arg".to_string()),
    }]);
    assert_eq!(setter_name(&a), Err(MALFORMED.to_string()));
}

#[test]
fn setter_name_rejects_non_string_value() {
    let a = Annotation::List(vec![NestedMeta::NameValue {
        key: "each".to_string(),
        value: AttrValue::Other,
    }]);
    assert_eq!(setter_name(&a), Err(MALFORMED.to_string()));
}

#[test]
fn setter_name_rejects_other_shapes() {
    assert_eq!(setter_name(&Annotation::Other), Err(MALFORMED.to_string()));
    assert_eq!(setter_name(&Annotation::List(vec![])), Err(MALFORMED.to_string()));
    assert_eq!(
        setter_name(&Annotation::List(vec![NestedMeta::Other])),
        Err(MALFORMED.to_string())
    );
    let two = Annotation::List(vec![
        NestedMeta::NameValue { key: "each".to_string(), value: AttrValue::Str("a".to_string()) },
        NestedMeta::NameValue { key: "each".to_string(), value: AttrValue::Str("b".to_string()) },
    ]);
    assert_eq!(setter_name(&two), Err(MALFORMED.to_string()));
}

#[test]
fn interpret_inspects_only_the_first_annotation() {
    assert!(matches!(interpret(&vec![]), AnnotationOutcome::Absent));
    match interpret(&vec![each("a"), Annotation::Other]) {
        AnnotationOutcome::EachSetter(n) => assert_eq!(n, "a"),
        _ => panic!("expected an appending setter"),
    }
    match interpret(&vec![Annotation::Other, each("a")]) {
        AnnotationOutcome::Malformed(m) => assert_eq!(m, MALFORMED),
        _ => panic!("expected a malformed annotation"),
    }
}

#[test]
fn analyze_plans_each_field_kind() {
    let plan = command_plan();
    assert_eq!(plan.record_name, "Command");
    assert_eq!(plan.builder_name, "CommandBuilder");
    assert_eq!(plan.fields.len(), 3);

    let name = &plan.fields[0];
    assert_eq!(name.name, "name");
    assert_eq!(text_of(&name.ty), "String");
    assert!(matches!(name.setter_kind, SetterKind::Assign));
    assert!(matches!(&name.finalize_kind, FinalizeKind::RequireOrFail { field_name } if field_name == "name"));
    assert_eq!(name.storage_type(), StorageType::OptionOf);
    assert_eq!(name.default_value(), DefaultValue::Absent);
    assert_eq!(name.method_name(), "name");
    assert_eq!(text_of(name.setter_type()), "String");

    let tags = &plan.fields[1];
    assert_eq!(text_of(&tags.ty), "Vec<String>");
    assert!(matches!(&tags.setter_kind, SetterKind::Append { setter_name } if setter_name == "tag"));
    assert!(matches!(tags.finalize_kind, FinalizeKind::PassThrough));
    assert_eq!(tags.storage_type(), StorageType::Declared);
    assert_eq!(tags.default_value(), DefaultValue::EmptySequence);
    assert_eq!(tags.method_name(), "tag");
    assert_eq!(text_of(tags.setter_type()), "String");

    let note = &plan.fields[2];
    assert_eq!(text_of(&note.ty), "String");
    assert!(matches!(note.setter_kind, SetterKind::Assign));
    assert!(matches!(note.finalize_kind, FinalizeKind::PassThrough));
    assert_eq!(note.storage_type(), StorageType::OptionOf);
    assert_eq!(note.method_name(), "note");
}

#[test]
fn each_on_a_non_sequence_field_is_an_ordinary_required_field() {
    let schema = RecordSchema {
        name: "R".to_string(),
        fields: vec![field("count", plain("u32"), vec![each("one")])],
    };
    let plan = analyze(schema).ok().expect("no diagnostic");
    let f = &plan.fields[0];
    assert!(matches!(f.setter_kind, SetterKind::Assign));
    assert!(matches!(&f.finalize_kind, FinalizeKind::RequireOrFail { field_name } if field_name == "count"));
    assert_eq!(f.method_name(), "count");
}

#[test]
fn sequence_without_annotation_is_required() {
    let schema = RecordSchema {
        name: "R".to_string(),
        fields: vec![field("items", wrapped("Vec", plain("u8")), vec![])],
    };
    let plan = analyze(schema).ok().expect("no diagnostic");
    let f = &plan.fields[0];
    assert_eq!(text_of(&f.ty), "Vec<u8>");
    assert_eq!(f.storage_type(), StorageType::OptionOf);
    assert!(matches!(f.finalize_kind, FinalizeKind::RequireOrFail { .. }));
}

#[test]
fn optional_storage_is_idempotent() {
    let schema = RecordSchema {
        name: "R".to_string(),
        fields: vec![
            field("a", wrapped("Option", plain("u8")), vec![]),
            field("b", plain("u8"), vec![]),
        ],
    };
    let plan = analyze(schema).ok().expect("no diagnostic");
    assert_eq!(plan.fields[0].storage_type(), plan.fields[1].storage_type());
    assert_eq!(text_of(&plan.fields[0].ty), text_of(&plan.fields[1].ty));
}

#[test]
fn malformed_annotation_fails_generation() {
    let schema = RecordSchema {
        name: "Command".to_string(),
        fields: vec![
            field("name", plain("String"), vec![]),
            field(
                "tags",
                wrapped("Vec", plain("String")),
                vec![Annotation::List(vec![NestedMeta::NameValue {
                    key: "each".to_string(),
                    value: AttrValue::Other,
                }])],
            ),
        ],
    };
    match analyze(schema) {
        Ok(_) => panic!("expected a diagnostic"),
        Err(d) => {
            assert_eq!(d.field, 1);
            assert_eq!(d.message, MALFORMED);
        }
    }
}

#[test]
fn unparsable_annotation_fails_generation() {
    let schema = RecordSchema {
        name: "R".to_string(),
        fields: vec![field("tags", wrapped("Vec", plain("String")), vec![Annotation::Other])],
    };
    match analyze(schema) {
        Ok(_) => panic!("expected a diagnostic"),
        Err(d) => assert_eq!((d.field, d.message.as_str()), (0, MALFORMED)),
    }
}

#[test]
fn first_malformed_annotation_wins() {
    let bad = || {
        Annotation::List(vec![NestedMeta::NameValue {
            key: "eac".to_string(),
            value: AttrValue::Str("x".to_string()),
        }])
    };
    let schema = RecordSchema {
        name: "R".to_string(),
        fields: vec![
            field("a", plain("u8"), vec![]),
            field("b", plain("u8"), vec![bad()]),
            field("c", plain("u8"), vec![bad()]),
        ],
    };
    assert_eq!(analyze(schema).err().map(|d| d.field), Some(1));
}

#[test]
fn command_scenario_succeeds() {
    let plan = command_plan();
    let mut b: Builder<String> = Builder::new(&plan);
    b.set(0, "x".to_string()).push(1, "a".to_string()).push(1, "b".to_string());
    let record = b.build().ok().expect("every required field is set");
    assert_eq!(record.len(), 3);
    assert!(matches!(&record[0], Value::Single(s) if s == "x"));
    assert!(matches!(&record[1], Value::Many(v) if *v == strings(&["a", "b"])));
    assert!(matches!(&record[2], Value::Maybe(None)));
}

#[test]
fn command_scenario_without_name_fails() {
    let plan = command_plan();
    let mut b: Builder<String> = Builder::new(&plan);
    b.push(1, "a".to_string()).push(1, "b".to_string());
    match b.build() {
        Ok(_) => panic!("expected a missing field"),
        Err(e) => assert_eq!(e.field, "name"),
    }
}

#[test]
fn all_assigned_fields_come_back() {
    let schema = RecordSchema {
        name: "R".to_string(),
        fields: vec![
            field("a", plain("String"), vec![]),
            field("b", wrapped("Option", plain("String")), vec![]),
        ],
    };
    let plan = analyze(schema).ok().expect("no diagnostic");
    let mut b: Builder<String> = Builder::new(&plan);
    b.set(0, "one".to_string()).set(1, "two".to_string());
    let record = b.build().ok().expect("every field is set");
    assert!(matches!(&record[0], Value::Single(s) if s == "one"));
    assert!(matches!(&record[1], Value::Maybe(Some(s)) if s == "two"));
}

#[test]
fn later_assignment_replaces_earlier() {
    let plan = command_plan();
    let mut b: Builder<String> = Builder::new(&plan);
    b.set(0, "x".to_string()).set(0, "y".to_string());
    let record = b.build().ok().expect("name is set");
    assert!(matches!(&record[0], Value::Single(s) if s == "y"));
    assert!(matches!(&record[1], Value::Many(v) if v.is_empty()));
}

#[test]
fn first_missing_field_is_reported() {
    let schema = RecordSchema {
        name: "R".to_string(),
        fields: vec![
            field("a", plain("u8"), vec![]),
            field("b", plain("u8"), vec![]),
            field("c", plain("u8"), vec![]),
        ],
    };
    let plan = analyze(schema).ok().expect("no diagnostic");
    let mut b: Builder<u8> = Builder::new(&plan);
    b.set(0, 1);
    assert_eq!(b.build().err().map(|e| e.field), Some("b".to_string()));
}

#[test]
fn empty_record_builds() {
    let schema = RecordSchema { name: "Unit".to_string(), fields: vec![] };
    let plan = analyze(schema).ok().expect("no diagnostic");
    assert_eq!(plan.builder_name, "UnitBuilder");
    let b: Builder<u8> = Builder::new(&plan);
    assert_eq!(b.len(), 0);
    assert!(b.build().ok().map(|r| r.is_empty()).unwrap_or(false));
}

#[test]
fn builder_roles_follow_the_plan() {
    let plan = command_plan();
    let b: Builder<String> = Builder::new(&plan);
    assert_eq!(b.len(), 3);
    assert!(b.role(0).required && !b.role(0).appends);
    assert!(!b.role(1).required && b.role(1).appends);
    assert!(!b.role(2).required && !b.role(2).appends);
    assert_eq!(b.role(1).name, "tags");
}
