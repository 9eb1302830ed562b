use tsgen::classify::classify;
use tsgen::driver::{generate, generate_message, FileSpec, GenError, OutputRecord};
use tsgen::mapper::field_type_to_ts_type;
use tsgen::model::{FieldKind, FieldSpec, Label, MessageSpec, TsField, TsFieldType, TsType};
use tsgen::render::{render, synthesize_variants};
use tsgen::model::TsObjectType;

fn field(
    key: &str,
    kind: FieldKind,
    ref_name: &str,
    label: Label,
    oneof_index: Option<usize>,
) -> FieldSpec {
    FieldSpec {
        key: key.to_string(),
        kind,
        ref_name: ref_name.to_string(),
        label,
        oneof_index,
    }
}

fn message(name: &str, fields: Vec<FieldSpec>, group_count: usize) -> MessageSpec {
    MessageSpec { name: name.to_string(), fields, group_count }
}

fn ts_type_name(t: &TsType) -> &'static str {
    match t {
        TsType::Boolean => "boolean",
        TsType::Number => "number",
        TsType::Text => "string",
        TsType::Never => "never",
        TsType::Object(_) => "object",
    }
}

#[test]
fn mapper_is_total_and_stable() {
    let kinds = vec![
        FieldKind::Double,
        FieldKind::Float,
        FieldKind::Int64,
        FieldKind::Uint64,
        FieldKind::Int32,
        FieldKind::Fixed64,
        FieldKind::Fixed32,
        FieldKind::Uint32,
        FieldKind::Sfixed32,
        FieldKind::Sfixed64,
        FieldKind::Sint32,
        FieldKind::Sint64,
        FieldKind::Text,
        FieldKind::Bytes,
        FieldKind::Bool,
        FieldKind::Enum,
        FieldKind::Message,
        FieldKind::Group,
    ];
    let name = ".pkg.Thing".to_string();
    for kind in kinds {
        let first = field_type_to_ts_type(kind, &name);
        let second = field_type_to_ts_type(kind, &name);
        assert_eq!(ts_type_name(&first), ts_type_name(&second));
        if let TsType::Object(n) = &first {
            assert_eq!(n, ".pkg.Thing");
        }
    }
}

#[test]
fn mapper_table_rows() {
    let name = "Circle".to_string();
    assert!(matches!(field_type_to_ts_type(FieldKind::Int32, &name), TsType::Number));
    assert!(matches!(field_type_to_ts_type(FieldKind::Double, &name), TsType::Number));
    assert!(matches!(field_type_to_ts_type(FieldKind::Sint64, &name), TsType::Number));
    assert!(matches!(field_type_to_ts_type(FieldKind::Text, &name), TsType::Text));
    assert!(matches!(field_type_to_ts_type(FieldKind::Bytes, &name), TsType::Text));
    assert!(matches!(field_type_to_ts_type(FieldKind::Bool, &name), TsType::Boolean));
    match field_type_to_ts_type(FieldKind::Message, &name) {
        TsType::Object(n) => assert_eq!(n, "Circle"),
        _ => panic!("reference kind must map to the referenced name"),
    }
}

#[test]
fn classifier_partitions_without_loss() {
    let msg = message(
        "M",
        vec![
            field("a", FieldKind::Int32, "", Label::Optional, None),
            field("b", FieldKind::Text, "", Label::Optional, Some(1)),
            field("c", FieldKind::Bool, "", Label::Optional, Some(0)),
            field("d", FieldKind::Int64, "", Label::Repeated, None),
            field("e", FieldKind::Text, "", Label::Optional, Some(1)),
        ],
        2,
    );
    let (plain, groups) = classify(&msg);
    let plain_keys: Vec<&str> = plain.iter().map(|f| f.key.as_str()).collect();
    assert_eq!(plain_keys, vec!["a", "d"]);
    assert_eq!(groups.len(), 2);
    let g0: Vec<&str> = groups[0].iter().map(|f| f.key.as_str()).collect();
    let g1: Vec<&str> = groups[1].iter().map(|f| f.key.as_str()).collect();
    assert_eq!(g0, vec!["c"]);
    assert_eq!(g1, vec!["b", "e"]);
    assert_eq!(plain.len() + groups[0].len() + groups[1].len(), msg.fields.len());
}

#[test]
fn classifier_keeps_every_declared_group() {
    let msg = message("M", vec![field("a", FieldKind::Int32, "", Label::Optional, None)], 3);
    let (_, groups) = classify(&msg);
    assert_eq!(groups.len(), 3);
    assert!(groups.iter().all(|g| g.is_empty()));
}

#[test]
fn renderer_is_idempotent() {
    let obj = TsObjectType {
        name: "Pair".to_string(),
        fields: vec![
            TsField {
                key: "x".to_string(),
                ts_type: TsFieldType::Single(TsType::Number),
                is_required: true,
            },
            TsField {
                key: "y".to_string(),
                ts_type: TsFieldType::Array(TsType::Text),
                is_required: true,
            },
        ],
        oneof_list: vec![vec![
            TsField {
                key: "p".to_string(),
                ts_type: TsFieldType::Single(TsType::Boolean),
                is_required: false,
            },
            TsField {
                key: "q".to_string(),
                ts_type: TsFieldType::Single(TsType::Object("Q".to_string())),
                is_required: false,
            },
        ]],
    };
    let first = render(&obj);
    let second = render(&obj);
    assert_eq!(first, second);
    assert_eq!(first.as_bytes(), second.as_bytes());
}

#[test]
fn union_has_one_live_member_per_variant() {
    let members = vec![
        TsField {
            key: "a".to_string(),
            ts_type: TsFieldType::Single(TsType::Number),
            is_required: false,
        },
        TsField {
            key: "b".to_string(),
            ts_type: TsFieldType::Single(TsType::Text),
            is_required: false,
        },
        TsField {
            key: "c".to_string(),
            ts_type: TsFieldType::Array(TsType::Boolean),
            is_required: false,
        },
    ];
    let variants = synthesize_variants(&members);
    assert_eq!(variants.len(), 3);
    for (i, variant) in variants.iter().enumerate() {
        assert_eq!(variant.len(), 3);
        let mut live: usize = 0;
        for (j, member) in variant.iter().enumerate() {
            assert_eq!(member.key, members[j].key);
            let forbidden = matches!(
                member.ts_type,
                TsFieldType::Single(TsType::Never)
            );
            if forbidden {
                assert_ne!(i, j);
            } else {
                assert_eq!(i, j);
                live += 1;
            }
        }
        assert_eq!(live, 1);
    }
}

#[test]
fn empty_message_renders_named_empty_shape() {
    let msg = message("Empty", vec![], 0);
    let rec: OutputRecord = generate_message(&msg);
    assert_eq!(rec.name, "Empty.d.ts");
    assert_eq!(rec.content, "type Empty = ;");
}

#[test]
fn declared_group_without_members_keeps_empty_union() {
    let msg = message("Lone", vec![], 1);
    let rec = generate_message(&msg);
    assert_eq!(rec.content, "type Lone = Readonly<  >;");
}

#[test]
fn end_to_end_shape_example() {
    let msg = message(
        "Shape",
        vec![
            field("id", FieldKind::Int32, "", Label::Optional, None),
            field("circle", FieldKind::Message, "Circle", Label::Optional, Some(0)),
            field("square", FieldKind::Message, "Square", Label::Optional, Some(0)),
        ],
        1,
    );
    let files = vec![FileSpec { messages: vec![msg] }];
    let records = generate(&files).expect("well-formed input must succeed");
    assert_eq!(records.len(), 1);
    assert_eq!(records[0].name, "Shape.d.ts");
    assert_eq!(
        records[0].content,
        "type Shape = Readonly<{ id: number; }> & Readonly< { circle?: Circle; square?: never; } \
         | { circle?: never; square?: Square; } >;"
    );
}

#[test]
fn repeated_textual_plain_field() {
    let msg = message(
        "Tags",
        vec![field("tags", FieldKind::Text, "", Label::Repeated, None)],
        0,
    );
    let rec = generate_message(&msg);
    assert_eq!(rec.content, "type Tags = Readonly<{ tags: ReadonlyArray<string>; }>;");
}

#[test]
fn out_of_range_group_index_is_rejected() {
    let msg = message(
        "Bad",
        vec![field("x", FieldKind::Int32, "", Label::Optional, Some(2))],
        1,
    );
    let files = vec![FileSpec { messages: vec![msg] }];
    match generate(&files) {
        Err(GenError::GroupIndexOutOfRange) => {},
        _ => panic!("an out-of-range group index must reject the whole request"),
    }
}

#[test]
fn output_keeps_file_and_message_order() {
    let files = vec![
        FileSpec {
            messages: vec![
                message("A", vec![], 0),
                message("B", vec![field("n", FieldKind::Bool, "", Label::Optional, None)], 0),
            ],
        },
        FileSpec { messages: vec![message("C", vec![], 0)] },
    ];
    let records = generate(&files).expect("well-formed input must succeed");
    let names: Vec<&str> = records.iter().map(|r| r.name.as_str()).collect();
    assert_eq!(names, vec!["A.d.ts", "B.d.ts", "C.d.ts"]);
    assert_eq!(records[1].content, "type B = Readonly<{ n: boolean; }>;");
}

#[test]
fn optional_and_required_labels_render_alike() {
    let opt = message(
        "O",
        vec![field("v", FieldKind::Uint32, "", Label::Optional, None)],
        0,
    );
    let req = message(
        "O",
        vec![field("v", FieldKind::Uint32, "", Label::Required, None)],
        0,
    );
    assert_eq!(generate_message(&opt).content, generate_message(&req).content);
    assert_eq!(generate_message(&opt).content, "type O = Readonly<{ v: number; }>;");
}

#[test]
fn plain_and_two_groups_are_intersected() {
    let msg = message(
        "Multi",
        vec![
            field("id", FieldKind::Int64, "", Label::Optional, None),
            field("a", FieldKind::Bool, "", Label::Optional, Some(0)),
            field("b", FieldKind::Text, "", Label::Optional, Some(1)),
        ],
        2,
    );
    let rec = generate_message(&msg);
    assert_eq!(
        rec.content,
        "type Multi = Readonly<{ id: number; }> & Readonly< { a?: boolean; } > \
         & Readonly< { b?: string; } >;"
    );
}

#[test]
fn groups_without_plain_fields_omit_plain_shape() {
    let msg = message(
        "Choice",
        vec![
            field("l", FieldKind::Int32, "", Label::Optional, Some(0)),
            field("r", FieldKind::Int32, "", Label::Optional, Some(0)),
        ],
        1,
    );
    let rec = generate_message(&msg);
    assert_eq!(
        rec.content,
        "type Choice = Readonly< { l?: number; r?: never; } | { l?: never; r?: number; } >;"
    );
}
